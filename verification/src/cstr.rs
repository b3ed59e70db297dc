use vstd::prelude::*;

verus! {

/// Whether the UTF-8 encoding of `s` holds a NUL byte, which is exactly when
/// `s` has no C string form.
pub open spec fn has_nul(s: Seq<char>) -> bool {
    vstd::utf8::encode_utf8(s).contains(0u8)
}

/// Whether `s` holds a NUL byte (and so cannot be handed to the engine as a C string).
pub fn contains_nul(s: &String) -> (r: bool)
    ensures
        r == has_nul(s@),
{
    let bytes: &[u8] = s.as_str().as_bytes();
    let n: usize = bytes.len();
    let mut i: usize = 0;
    while i < n
        invariant
            n == bytes@.len(),
            bytes@ == vstd::utf8::encode_utf8(s@),
            i <= n,
            forall|j: int| 0 <= j < i ==> bytes@[j] != 0u8,
        decreases n - i,
    {
        if bytes[i] == 0u8 {
            assert(bytes@[i as int] == 0u8);
            return true;
        }
        i = i + 1;
    }
    false
}

} // verus!
