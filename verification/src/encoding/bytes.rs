//! Comparing and copying byte strings.

use vstd::prelude::*;

verus! {

/// Whether two byte strings hold the same bytes.
pub fn bytes_equal(a: &[u8], b: &[u8]) -> (equal: bool)
    ensures
        equal == (a@ == b@),
{
    if a.len() != b.len() {
        return false;
    }
    let mut i: usize = 0;
    while i < a.len()
        invariant
            a@.len() == b@.len(),
            i <= a@.len(),
            a@.subrange(0, i as int) == b@.subrange(0, i as int),
        decreases a@.len() - i,
    {
        if a[i] != b[i] {
            assert(a@[i as int] != b@[i as int]);
            return false;
        }
        assert(a@.subrange(0, i + 1) == a@.subrange(0, i as int).push(a@[i as int]));
        assert(b@.subrange(0, i + 1) == b@.subrange(0, i as int).push(b@[i as int]));
        i = i + 1;
    }
    assert(a@.subrange(0, i as int) == a@);
    assert(b@.subrange(0, i as int) == b@);
    true
}

/// Reads `bytes` as a 32-byte array; `None` unless it is exactly 32 bytes
/// long.
pub fn to_array_32(bytes: &[u8]) -> (array: Option<[u8; 32]>)
    ensures
        match array {
            Some(array) => array@ == bytes@,
            None => bytes@.len() != 32,
        },
{
    if bytes.len() != 32 {
        return None;
    }
    let mut array: [u8; 32] = [0u8; 32];
    let mut i: usize = 0;
    while i < 32
        invariant
            bytes@.len() == 32,
            i <= 32,
            array@.subrange(0, i as int) == bytes@.subrange(0, i as int),
        decreases 32 - i,
    {
        array[i] = bytes[i];
        assert(array@.subrange(0, i + 1) == bytes@.subrange(0, i + 1));
        i = i + 1;
    }
    assert(array@.subrange(0, 32) == array@);
    assert(bytes@.subrange(0, 32) == bytes@);
    Some(array)
}

} // verus!
