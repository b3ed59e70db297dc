use vstd::prelude::*;

verus! {

/// `ZEND_ACC_PUBLIC`: the method is public.
pub const ZEND_ACC_PUBLIC: u32 = 1;
/// `ZEND_ACC_INTERFACE`: the class entry is an interface.
pub const ZEND_ACC_INTERFACE: u32 = 1;
/// `ZEND_ACC_NOT_SERIALIZABLE`: instances of the class cannot be serialized.
pub const ZEND_ACC_NOT_SERIALIZABLE: u32 = 0x2000_0000;

/// Flags of a method, as the engine reads them from a function entry.
#[derive(Debug, Clone, Copy, PartialEq, Eq, Structural)]
pub struct MethodFlags {
    pub bits: u32,
}

impl MethodFlags {
    /// The flags with exactly the given bits set.
    pub fn from_bits(bits: u32) -> (f: MethodFlags)
        ensures
            f.bits == bits,
    {
        MethodFlags { bits }
    }

    /// A public method.
    pub fn public() -> (f: MethodFlags)
        ensures
            f.bits == ZEND_ACC_PUBLIC,
    {
        MethodFlags { bits: ZEND_ACC_PUBLIC }
    }

    /// The raw bits, as stored in a function entry.
    pub fn bits(&self) -> (b: u32)
        ensures
            b == self.bits,
    {
        self.bits
    }
}

} // verus!
