use vstd::prelude::*;

verus! {

/// The eight bytes of `n`, most significant first.
pub open spec fn be_bytes(n: u64) -> Seq<u8> {
    seq![
        ((n >> 56) & 0xff) as u8,
        ((n >> 48) & 0xff) as u8,
        ((n >> 40) & 0xff) as u8,
        ((n >> 32) & 0xff) as u8,
        ((n >> 24) & 0xff) as u8,
        ((n >> 16) & 0xff) as u8,
        ((n >> 8) & 0xff) as u8,
        (n & 0xff) as u8,
    ]
}

/// Calls `byte_tools::write_u64_be` on a fresh buffer of eight bytes, the
/// length that the function insists on. It is trusted to write the value
/// in big-endian order: the unproved claim is that the buffer then holds
/// `be_bytes(n)`.
#[verifier::external_body]
pub(crate) fn u64_be_bytes(n: u64) -> (out: [u8; 8])
    ensures
        out@ == be_bytes(n),
{
    let mut out = [0u8; 8];
    byte_tools::write_u64_be(&mut out, n);
    out
}

} // verus!
