use vstd::prelude::*;

use crate::errors::TextError;

verus! {

/// Number of raw key bytes every backend consumes.
pub const KEY_LEN: usize = 32;

/// Copy a fixed-size key into its byte-vector form.
pub(crate) fn key_to_vec(key: [u8; 32]) -> (r: Vec<u8>)
    ensures
        r@ == key@,
{
    let mut v: Vec<u8> = Vec::new();
    let mut i: usize = 0;
    while i < 32
        invariant
            i <= 32,
            v@ == key@.subrange(0, i as int),
        decreases 32 - i,
    {
        v.push(key[i]);
        assert(v@ =~= key@.subrange(0, i + 1));
        i = i + 1;
    }
    assert(v@ =~= key@);
    v
}

/// Shape raw key material into a fixed-size key: the first `KEY_LEN` bytes
/// are the key and anything after them is ignored, which permits keys stored
/// as the prefix of a larger file. Fewer than `KEY_LEN` bytes are rejected.
pub fn key_from_bytes(raw: &[u8]) -> (r: Result<Vec<u8>, TextError>)
    ensures
        raw@.len() >= KEY_LEN ==> (r matches Ok(k) && k@ == raw@.subrange(0, KEY_LEN as int)),
        raw@.len() < KEY_LEN ==> (r matches Err(e) && e is KeyTooShort),
{
    if raw.len() < KEY_LEN {
        return Err(TextError::KeyTooShort);
    }
    let mut key: Vec<u8> = Vec::new();
    let mut i: usize = 0;
    while i < KEY_LEN
        invariant
            i <= KEY_LEN,
            raw@.len() >= KEY_LEN,
            key@ == raw@.subrange(0, i as int),
        decreases KEY_LEN - i,
    {
        key.push(raw[i]);
        assert(key@ == raw@.subrange(0, i + 1 as int));
        i = i + 1;
    }
    Ok(key)
}

} // verus!
