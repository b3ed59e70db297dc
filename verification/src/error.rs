use vstd::prelude::*;

verus! {

/// The ways in which building or registering an item can fail.
#[derive(Debug, Clone, Copy, PartialEq, Eq, Structural)]
pub enum Error {
    /// A name handed to the engine contains a NUL byte, so it has no C string form.
    InvalidCString,
    /// The engine returned no class entry for a registration.
    InvalidPointer,
    /// An integer does not fit in a PHP long.
    IntegerOverflow,
}

/// `Result` with this crate's [`Error`].
pub type Result<T> = core::result::Result<T, Error>;

} // verus!
