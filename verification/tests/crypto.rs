use tpm2sh::hash::{TpmCryptoError, TpmHash};

fn hex(bytes: &[u8]) -> String {
    bytes.iter().map(|b| format!("{b:02x}")).collect()
}

#[test]
fn digest_sha256_of_abc() {
    let d = TpmHash::Sha256.digest(&[b"abc"]).unwrap();
    assert_eq!(
        hex(&d),
        "ba7816bf8f01cfea414140de5dae2223b00361a396177a9cb410ff61f20015ad"
    );
}

#[test]
fn digest_joins_chunks() {
    let whole = TpmHash::Sha1.digest(&[b"abc"]).unwrap();
    let split = TpmHash::Sha1.digest(&[b"a", b"", b"bc"]).unwrap();
    assert_eq!(whole, split);
    assert_eq!(hex(&whole), "a9993e364706816aba3e25717850c26c9cd0d89d");
}

#[test]
fn digest_sizes() {
    assert_eq!(TpmHash::Sha1.size(), 20);
    assert_eq!(TpmHash::Sha256.size(), 32);
    assert_eq!(TpmHash::Sha384.size(), 48);
    assert_eq!(TpmHash::Sha512.size(), 64);
    assert_eq!(TpmHash::Sha3_256.size(), 32);
}

#[test]
fn hmac_sha256_known_answer() {
    let tag = TpmHash::Sha256
        .hmac(b"Jefe", &[b"what do ya ", b"want for nothing?"])
        .unwrap();
    assert_eq!(
        hex(&tag),
        "5bdcc146bf60754e6a042426089575c75a003f089d2739839dec58b964ec3843"
    );
}

#[test]
fn hmac_refuses_empty_key() {
    assert_eq!(
        TpmHash::Sha256.hmac(b"", &[b"data"]),
        Err(TpmCryptoError::KeyIsEmpty)
    );
}

#[test]
fn hmac_verify_accepts_and_refuses() {
    let data: &[&[u8]] = &[b"what do ya want for nothing?"];
    let tag = TpmHash::Sha256.hmac(b"Jefe", data).unwrap();
    assert_eq!(TpmHash::Sha256.hmac_verify(b"Jefe", data, &tag), Ok(()));
    let mut bad = tag.clone();
    bad[0] ^= 1;
    assert_eq!(
        TpmHash::Sha256.hmac_verify(b"Jefe", data, &bad),
        Err(TpmCryptoError::PermissionDenied)
    );
    assert_eq!(
        TpmHash::Sha256.hmac_verify(b"Jefe", data, &tag[..10]),
        Err(TpmCryptoError::PermissionDenied)
    );
    assert_eq!(
        TpmHash::Sha256.hmac_verify(b"", data, &tag),
        Err(TpmCryptoError::KeyIsEmpty)
    );
}

#[test]
fn kdfa_known_answers() {
    let h = TpmHash::Sha256;
    let k = h.kdfa(b"key", "STORAGE", &[0xaa, 0xbb], &[], 128).unwrap();
    assert_eq!(hex(&k), "231df157c1791f3f04b0d8b014d5758d");
    let k = h.kdfa(b"key", "STORAGE", &[0xaa, 0xbb], &[], 512).unwrap();
    assert_eq!(
        hex(&k),
        "6e67f87e64223680a62935b1d25e8e254e0d640e8a3b07eab8b67deb192824cd\
         05fd34358a99ab8a2c050757709dc993ee495aa2f5c9e6e2376a2c73d63cac2b"
    );
    let k = h.kdfa(b"key", "STORAGE", &[0xaa, 0xbb], &[], 12).unwrap();
    assert_eq!(hex(&k), "219c");
    assert_eq!(h.kdfa(b"key", "STORAGE", &[], &[], 0), Ok(vec![]));
}

#[test]
fn kdfa_refuses_empty_key() {
    assert_eq!(
        TpmHash::Sha256.kdfa(b"", "STORAGE", &[], &[], 128),
        Err(TpmCryptoError::KeyIsEmpty)
    );
}

#[test]
fn kdfe_known_answers() {
    let h = TpmHash::Sha256;
    let z = [0x11u8; 32];
    let k = h.kdfe(&z, "DUPLICATE", &[1], &[2], 256).unwrap();
    assert_eq!(
        hex(&k),
        "5221c927affc36b29a8f7e2325c9dd33e56794440041ca2b06105911a2e6a789"
    );
    let longer = h.kdfe(&z, "DUPLICATE", &[1], &[2], 300).unwrap();
    assert_eq!(
        hex(&longer),
        "5221c927affc36b29a8f7e2325c9dd33e56794440041ca2b06105911a2e6a7892005863d1b87"
    );
    let terminated = h.kdfe(&z, "DUPLICATE\0", &[1], &[2], 256).unwrap();
    assert_eq!(terminated, k);
}
