//! Checks on configuration values once they have been read.
use vstd::prelude::*;

verus! {

/// Length in bytes of the node's private key.
pub const KEY_LEN: usize = 32;

/// The private key held in a key file's bytes: exactly `KEY_LEN` of them, or
/// the error carries the length that was found.
pub fn key_from_bytes(bytes: &Vec<u8>) -> (r: Result<[u8; 32], usize>)
    ensures
        bytes@.len() == KEY_LEN ==> (r matches Ok(k) && k@ == bytes@),
        bytes@.len() != KEY_LEN ==> r == Err::<[u8; 32], usize>(bytes@.len() as usize),
{
    if bytes.len() != KEY_LEN {
        return Err(bytes.len());
    }
    let mut key: [u8; 32] = [0u8; 32];
    let mut i: usize = 0;
    while i < KEY_LEN
        invariant
            bytes@.len() == KEY_LEN,
            i <= KEY_LEN,
            key@.len() == KEY_LEN,
            forall|j: int| 0 <= j < i ==> key@[j] == bytes@[j],
        decreases KEY_LEN - i,
    {
        key.set(i, bytes[i]);
        i = i + 1;
    }
    assert(key@ =~= bytes@);
    Ok(key)
}

} // verus!
