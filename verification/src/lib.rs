//! HKDF (HMAC-based Key Derivation Function, RFC 5869) specialized to
//! SHA-512 as the underlying hash function. The two RFC-defined stages,
//! Extract and Expand, are offered both as free functions and as instance
//! methods on the zero-size handle [`Hkdf`]. The HMAC primitive itself is
//! supplied by an outside crate through the `hmac` module; everything built
//! on top of it here is verified against the RFC 5869 algorithm.

use vstd::prelude::*;

pub mod hmac;

use crate::hmac::hmac_sha512;
use crate::hmac::hmac_sha512_digest;

verus! {

/// Number of bytes in a SHA-512 digest, and hence in the pseudorandom key
/// that Extract produces and in each block of the Expand keystream.
pub const SHA512_OUTPUT_BYTES_LENGTH: usize = 64;

/// The pseudorandom key that HKDF-Extract derives from `seed` and `secret`:
/// the HMAC-SHA-512 digest of the message `seed` under the key `secret`
/// (RFC 5869, section 2.2, with `secret` in the role of the salt).
pub open spec fn extract_spec(seed: Seq<u8>, secret: Seq<u8>) -> Seq<u8> {
    hmac_sha512(secret, seed)
}

/// Block `T(i)` of the HKDF-Expand keystream for the pseudorandom key `prk`
/// and context `info` (RFC 5869, section 2.3): `T(0)` is empty, and
/// `T(i) = HMAC-SHA-512(prk, T(i-1) || info || i)` with the block counter
/// `i` encoded as a single byte.
pub open spec fn expand_block(prk: Seq<u8>, info: Seq<u8>, i: nat) -> Seq<u8>
    decreases i,
{
    if i == 0 {
        Seq::empty()
    } else {
        hmac_sha512(prk, expand_block(prk, info, (i - 1) as nat) + info + seq![(i % 256) as u8])
    }
}

/// Byte `j` of the HKDF-Expand keystream: byte `j % 64` of block
/// `T(j / 64 + 1)`.
pub open spec fn expand_byte(prk: Seq<u8>, info: Seq<u8>, j: int) -> u8 {
    expand_block(prk, info, (j / 64 + 1) as nat)[j % 64]
}

/// The first `len` bytes of the HKDF-Expand keystream for `prk` and `info`,
/// that is, `T(1) || T(2) || ...` truncated to `len` bytes.
pub open spec fn expand_spec(prk: Seq<u8>, info: Seq<u8>, len: nat) -> Seq<u8> {
    Seq::new(len, |j: int| expand_byte(prk, info, j))
}

/// Appends the bytes of `src` to `dst`.
fn push_all(dst: &mut Vec<u8>, src: &[u8])
    ensures
        final(dst)@ == old(dst)@ + src@,
{
    let mut k: usize = 0;
    while k < src.len()
        invariant
            k <= src@.len(),
            dst@ == old(dst)@ + src@.take(k as int),
        decreases src@.len() - k,
    {
        let ghost prefix = dst@;
        dst.push(src[k]);
        proof {
            assert(prefix.push(src@[k as int]) =~= old(dst)@ + src@.take(k + 1));
        }
        k = k + 1;
    }
    proof {
        assert(old(dst)@ + src@.take(src@.len() as int) =~= old(dst)@ + src@);
    }
}

/// Moves the contents of `src` into the provided output buffer `dst`. Clears
/// the contents of `dst` first.
pub fn copy_into_cleared(src: &[u8], dst: &mut Vec<u8>)
    ensures
        final(dst)@ == src@,
{
    dst.clear();
    push_all(dst, src);
    proof {
        assert(Seq::<u8>::empty() + src@ =~= src@);
    }
}

/// Runs HKDF-Extract as specified in RFC 5869: `out` is replaced, whatever
/// its previous length and contents, by the 64-byte pseudorandom key
/// HMAC-SHA-512(key = `secret`, message = `seed`).
pub fn extract(seed: &[u8], secret: &[u8], out: &mut Vec<u8>)
    ensures
        final(out)@ == extract_spec(seed@, secret@),
        final(out)@.len() == SHA512_OUTPUT_BYTES_LENGTH,
{
    let prk = hmac_sha512_digest(secret, seed);
    copy_into_cleared(prk.as_slice(), out);
}

/// Runs HKDF-Expand as specified in RFC 5869. The current length of `out`
/// selects the amount of output keying material: its contents become the
/// first `out.len()` bytes of the keystream `T(1) || T(2) || ...` keyed by
/// `prk` and `info`, and its length is unchanged. The value of `prk` should
/// be uniformly sampled bytes. RFC 5869 bounds the output at 255 blocks,
/// and the underlying block counter cannot go further, so no more than
/// `255 * 64` bytes may be requested.
pub fn expand(prk: &[u8], info: &[u8], out: &mut Vec<u8>)
    requires
        old(out)@.len() <= 255 * SHA512_OUTPUT_BYTES_LENGTH,
    ensures
        final(out)@ == expand_spec(prk@, info@, old(out)@.len() as nat),
        final(out)@.len() == old(out)@.len(),
{
    let total = out.len();
    let mut okm: Vec<u8> = Vec::new();
    let mut prev: Vec<u8> = Vec::new();
    let mut i: usize = 0;
    while okm.len() < total
        invariant
            total <= 255 * 64,
            i <= 255,
            okm@.len() == if (i as int) * 64 <= total as int {
                (i as int) * 64
            } else {
                total as int
            },
            prev@ == expand_block(prk@, info@, i as nat),
            forall|j: int| 0 <= j < okm@.len() ==> okm@[j] == expand_byte(prk@, info@, j),
        decreases total - okm.len(),
    {
        i = i + 1;
        let mut msg: Vec<u8> = Vec::new();
        push_all(&mut msg, prev.as_slice());
        push_all(&mut msg, info);
        msg.push(i as u8);
        proof {
            assert(msg@ =~= expand_block(prk@, info@, (i - 1) as nat) + info@ + seq![
                ((i as nat) % 256) as u8,
            ]);
        }
        prev = hmac_sha512_digest(prk, msg.as_slice());
        let mut k: usize = 0;
        while k < SHA512_OUTPUT_BYTES_LENGTH && okm.len() < total
            invariant
                1 <= i <= 255,
                total <= 255 * 64,
                k <= 64,
                okm@.len() == (i as int - 1) * 64 + k,
                okm@.len() <= total as int,
                prev@ == expand_block(prk@, info@, i as nat),
                prev@.len() == 64,
                forall|j: int| 0 <= j < okm@.len() ==> okm@[j] == expand_byte(prk@, info@, j),
            decreases 64 - k,
        {
            proof {
                let j0: int = (i as int - 1) * 64 + k;
                vstd::arithmetic::div_mod::lemma_fundamental_div_mod_converse(
                    j0,
                    64,
                    i as int - 1,
                    k as int,
                );
                assert(expand_byte(prk@, info@, j0) == expand_block(prk@, info@, i as nat)[k as int]);
            }
            okm.push(prev[k]);
            k = k + 1;
        }
    }
    proof {
        assert(okm@ =~= expand_spec(prk@, info@, old(out)@.len() as nat));
    }
    *out = okm;
}

/// A wrapper around the HKDF functionality in cases where it is required
/// that you return a specific instance of HKDF. It carries no state: every
/// instance behaves exactly like the free functions it forwards to.
pub struct Hkdf {}

impl Hkdf {
    /// HKDF-Extract as an instance operation; same contract as [`extract`].
    pub fn extract(&self, seed: &[u8], secret: &[u8], out: &mut Vec<u8>)
        ensures
            final(out)@ == extract_spec(seed@, secret@),
            final(out)@.len() == SHA512_OUTPUT_BYTES_LENGTH,
    {
        extract(seed, secret, out)
    }

    /// HKDF-Expand as an instance operation; same contract as [`expand`].
    pub fn expand(&self, prk: &[u8], info: &[u8], out: &mut Vec<u8>)
        requires
            old(out)@.len() <= 255 * SHA512_OUTPUT_BYTES_LENGTH,
        ensures
            final(out)@ == expand_spec(prk@, info@, old(out)@.len() as nat),
            final(out)@.len() == old(out)@.len(),
    {
        expand(prk, info, out)
    }
}

/// Law: Extract is deterministic. Any two pseudorandom keys obtained from
/// the same `seed` and `secret` are equal, because the result is a pure
/// function of those two byte sequences.
pub proof fn lemma_extract_deterministic(
    seed: Seq<u8>,
    secret: Seq<u8>,
    out1: Seq<u8>,
    out2: Seq<u8>,
)
    requires
        out1 == extract_spec(seed, secret),
        out2 == extract_spec(seed, secret),
    ensures
        out1 == out2,
{
}

/// Law: Expand is deterministic. Any two outputs obtained from the same
/// `prk`, `info` and requested length are equal, because the keystream is a
/// pure function of `prk` and `info`.
pub proof fn lemma_expand_deterministic(
    prk: Seq<u8>,
    info: Seq<u8>,
    len: nat,
    out1: Seq<u8>,
    out2: Seq<u8>,
)
    requires
        out1 == expand_spec(prk, info, len),
        out2 == expand_spec(prk, info, len),
    ensures
        out1 == out2,
{
}

/// Law: truncation consistency. For the same `prk` and `info`, the Expand
/// output of length `len1` is exactly the first `len1` bytes of the Expand
/// output of any length `len2 >= len1`; asking for less never changes the
/// bytes already produced.
pub proof fn lemma_expand_prefix(prk: Seq<u8>, info: Seq<u8>, len1: nat, len2: nat)
    requires
        len1 <= len2,
    ensures
        expand_spec(prk, info, len1) == expand_spec(prk, info, len2).take(len1 as int),
{
    assert(expand_spec(prk, info, len1) =~= expand_spec(prk, info, len2).take(len1 as int));
}

} // verus!
