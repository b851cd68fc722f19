//! Random identifiers and payloads.
use rand::Rng;
use rand::RngCore;
use vstd::prelude::*;
use crate::uid::UniqueId;

verus! {

/// Calls `rand::thread_rng().fill_bytes` on the vector's bytes: they are
/// overwritten with random values; the length stays as it was.
#[verifier::external_body]
fn fill_random_bytes(buf: &mut Vec<u8>)
    ensures
        final(buf)@.len() == old(buf)@.len(),
{
    rand::thread_rng().fill_bytes(&mut buf[..])
}

/// A random identifier, from `rand::thread_rng().gen()`.
#[verifier::external_body]
pub fn random_id() -> UniqueId {
    rand::thread_rng().gen()
}

/// A vector of `size` random bytes.
pub fn random_vec(size: usize) -> (v: Vec<u8>)
    ensures
        v@.len() == size,
{
    let mut ret: Vec<u8> = Vec::with_capacity(size);
    let mut i: usize = 0;
    while i < size
        invariant
            0 <= i <= size,
            ret@.len() == i,
        decreases size - i,
    {
        ret.push(0);
        i = i + 1;
    }
    fill_random_bytes(&mut ret);
    ret
}

} // verus!
