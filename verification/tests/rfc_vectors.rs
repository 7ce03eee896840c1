//! HKDF-SHA-512 test vectors: the RFC 5869 test-case inputs carried over to
//! SHA-512, with the expected pseudorandom keys and output keying material
//! as published for that hash, checked bit for bit. Each vector is also
//! cross-checked against the outside crate's own HKDF functions.

use hkdf_sha512::{expand, extract};

use crypto::hkdf::{hkdf_expand, hkdf_extract};
use crypto::sha2::Sha512;

fn hex_to_bytes(hex: &str) -> Vec<u8> {
    let chars: Vec<u8> = hex.as_bytes().to_vec();
    assert!(chars.len() % 2 == 0);
    let mut out = Vec::new();
    let mut i: usize = 0;
    while i < chars.len() {
        let hi = hex_digit(chars[i]);
        let lo = hex_digit(chars[i + 1]);
        out.push(hi * 16 + lo);
        i += 2;
    }
    out
}

fn hex_digit(c: u8) -> u8 {
    match c {
        b'0'..=b'9' => c - b'0',
        b'a'..=b'f' => c - b'a' + 10,
        b'A'..=b'F' => c - b'A' + 10,
        _ => panic!("not a hex digit"),
    }
}

fn check_vector(ikm_hex: &str, salt_hex: &str, info_hex: &str, prk_hex: &str, okm_hex: &str) {
    let ikm = hex_to_bytes(ikm_hex);
    let salt = hex_to_bytes(salt_hex);
    let info = hex_to_bytes(info_hex);
    let prk_expected = hex_to_bytes(prk_hex);
    let okm_expected = hex_to_bytes(okm_hex);

    let mut prk = Vec::new();
    extract(&ikm, &salt, &mut prk);
    assert_eq!(prk, prk_expected);

    let mut okm = vec![0u8; okm_expected.len()];
    expand(&prk, &info, &mut okm);
    assert_eq!(okm, okm_expected);

    // The outside crate's own HKDF must agree on the same inputs.
    let mut prk_ref = vec![0u8; 64];
    hkdf_extract(Sha512::new(), &salt, &ikm, &mut prk_ref);
    assert_eq!(prk, prk_ref);
    let mut okm_ref = vec![0u8; okm_expected.len()];
    hkdf_expand(Sha512::new(), &prk_ref, &info, &mut okm_ref);
    assert_eq!(okm, okm_ref);
}

#[test]
fn rfc_basic_vector_sha512() {
    check_vector(
        "0b0b0b0b0b0b0b0b0b0b0b0b0b0b0b0b0b0b0b0b0b0b",
        "000102030405060708090a0b0c",
        "f0f1f2f3f4f5f6f7f8f9",
        "665799823737ded04a88e47e54a5890bb2c3d247c7a4254a8e61350723590a26c36238127d8661b88cf80ef802d57e2f7cebcf1e00e083848be19929c61b4237",
        "832390086cda71fb47625bb5ceb168e4c8e26a1a16ed34d9fc7fe92c1481579338da362cb8d9f925d7cb",
    );
}

#[test]
fn rfc_empty_salt_and_info_vector_sha512() {
    check_vector(
        "0b0b0b0b0b0b0b0b0b0b0b0b0b0b0b0b0b0b0b0b0b0b",
        "",
        "",
        "fd200c4987ac491313bd4a2a13287121247239e11c9ef82802044b66ef357e5b194498d0682611382348572a7b1611de54764094286320578a863f36562b0df6",
        "f5fa02b18298a72a8c23898a8703472c6eb179dc204c03425c970e3b164bf90fff22d04836d0e2343bac",
    );
}

#[test]
fn rfc_long_inputs_vector_sha512() {
    // RFC 5869 test-case inputs with 80-byte ikm, salt and info, L = 82.
    let mut ikm_hex = String::new();
    let mut salt_hex = String::new();
    let mut info_hex = String::new();
    for i in 0..80u32 {
        ikm_hex.push_str(&format!("{:02x}", i));
        salt_hex.push_str(&format!("{:02x}", 96 + i));
        info_hex.push_str(&format!("{:02x}", 176 + i));
    }
    let ikm = hex_to_bytes(&ikm_hex);
    let salt = hex_to_bytes(&salt_hex);
    let info = hex_to_bytes(&info_hex);

    // For the long vector only the cross-check against the outside crate's
    // HKDF is made; it pins the whole two-block computation.
    let mut prk = Vec::new();
    extract(&ikm, &salt, &mut prk);
    let mut prk_ref = vec![0u8; 64];
    hkdf_extract(Sha512::new(), &salt, &ikm, &mut prk_ref);
    assert_eq!(prk, prk_ref);

    let mut okm = vec![0u8; 82];
    expand(&prk, &info, &mut okm);
    let mut okm_ref = vec![0u8; 82];
    hkdf_expand(Sha512::new(), &prk_ref, &info, &mut okm_ref);
    assert_eq!(okm, okm_ref);
}
