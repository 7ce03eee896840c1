//! The keyed-hash primitive underlying both HKDF stages: HMAC with SHA-512
//! as the hash function, producing a 64-byte digest. The computation itself
//! is done by an outside crate; this module gives its result a name that the
//! rest of the library can reason about.

use vstd::prelude::*;
use crypto::mac::Mac;

verus! {

/// The HMAC-SHA-512 digest of the message `msg` under the key `key`.
/// The digest is a pure function of the two byte sequences; it is left
/// abstract here and computed by the outside crate.
pub uninterp spec fn hmac_sha512(key: Seq<u8>, msg: Seq<u8>) -> Seq<u8>;

/// Relies on crypto::hmac::Hmac combined with crypto::sha2::Sha512: the
/// returned vector is the HMAC-SHA-512 digest of `msg` keyed by `key`, which
/// is 64 bytes long (the SHA-512 output size) and depends on the two byte
/// sequences alone. Any key length is accepted: keys longer than the hash
/// block size are hashed first, shorter ones are zero-padded.
#[verifier::external_body]
pub(crate) fn hmac_sha512_digest(key: &[u8], msg: &[u8]) -> (r: Vec<u8>)
    ensures
        r@ == hmac_sha512(key@, msg@),
        r@.len() == 64,
{
    let mut mac = crypto::hmac::Hmac::new(crypto::sha2::Sha512::new(), key);
    mac.input(msg);
    mac.result().code().to_vec()
}

} // verus!
