use vstd::prelude::*;

use sha2::{Digest, Sha256};

verus! {

/// The SHA-256 digest of a byte string.
pub uninterp spec fn sha256_of(data: Seq<u8>) -> Seq<u8>;

/// Relies on sha2's `Sha256::digest`: the digest of `data`, 32 bytes long.
#[verifier::external_body]
fn sha256(data: &Vec<u8>) -> (r: Vec<u8>)
    ensures
        r@ == sha256_of(data@),
        r@.len() == 32,
{
    Sha256::digest(data.as_slice()).to_vec()
}

/// The decimal digits of `n`, in ASCII.
pub open spec fn decimal(n: nat) -> Seq<u8>
    decreases n,
{
    if n < 10 {
        seq![(48 + n) as u8]
    } else {
        decimal(n / 10).push((48 + n % 10) as u8)
    }
}

/// Appends the decimal digits of `n` to `out`.
pub fn push_decimal(out: &mut Vec<u8>, n: usize)
    ensures
        final(out)@ == old(out)@ + decimal(n as nat),
    decreases n,
{
    if n >= 10 {
        push_decimal(out, n / 10);
    }
    out.push((48 + n % 10) as u8);
    assert(final(out)@ =~= old(out)@ + decimal(n as nat));
}

/// The ASCII text `contract code `.
pub open spec fn checksum_prefix() -> Seq<u8> {
    seq![99u8, 111, 110, 116, 114, 97, 99, 116, 32, 99, 111, 100, 101, 32]
}

/// The text `contract code <seed>` from which a local code checksum is derived.
pub open spec fn checksum_preimage(seed: nat) -> Seq<u8> {
    checksum_prefix() + decimal(seed)
}

/// The checksum the harness reports for locally uploaded code: the SHA-256
/// digest of `contract code <seed>`. It stands in for the bytecode hash.
pub open spec fn local_checksum(seed: nat) -> Seq<u8> {
    sha256_of(checksum_preimage(seed))
}

/// Computes the checksum of locally uploaded code from its seed.
pub fn local_code_checksum(seed: usize) -> (r: Vec<u8>)
    ensures
        r@ == local_checksum(seed as nat),
        r@.len() == 32,
{
    let mut text: Vec<u8> = vec![99u8, 111, 110, 116, 114, 97, 99, 116, 32, 99, 111, 100, 101, 32];
    assert(text@ =~= checksum_prefix());
    push_decimal(&mut text, seed);
    sha256(&text)
}

} // verus!
