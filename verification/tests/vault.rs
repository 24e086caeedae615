use keyvault::crypto::gen_nonce;
use keyvault::vault::Vault;
use keyvault::wire::Error;

#[test]
fn it_works() {
    let mut vault = Vault::new().unwrap();

    let ourpk = vault.gen_keypair();
    let oursk = ourpk.clone();
    // normally theirpk is sent by the other party
    let theirpk = vault.gen_keypair();
    let theirsk = theirpk.clone();

    let nonce = gen_nonce();
    let plaintext = b"some data";

    let ciphertext = vault.seal(plaintext, &nonce, &theirpk, &oursk).unwrap();

    let their_plaintext = vault.open(&ciphertext, &nonce, &ourpk, &theirsk).unwrap();
    assert_eq!(plaintext, &their_plaintext[..]);
}

#[test]
fn scenario_seal_open_round_trip() {
    let mut vault = Vault::new().unwrap();
    let pk_a = vault.gen_keypair();
    let h_a = pk_a.clone();
    let pk_b = vault.gen_keypair();
    let h_b = pk_b.clone();
    let n = gen_nonce();

    let c = vault.seal(b"hello", &n, &pk_b, &h_a).unwrap();
    let m = vault.open(&c, &n, &pk_a, &h_b).unwrap();
    assert_eq!(&m[..], b"hello");

    let mut tampered = c.clone();
    tampered[0] ^= 1;
    assert_eq!(vault.open(&tampered, &n, &pk_a, &h_b), Err(Error::AuthFailure));
}

#[test]
fn two_keypairs_distinct_and_resolvable() {
    let mut vault = Vault::new().unwrap();
    let pk1 = vault.gen_keypair();
    let pk2 = vault.gen_keypair();
    assert_ne!(pk1, pk2);

    // both handles still resolve: sealing with each succeeds
    let n = gen_nonce();
    assert!(vault.seal(b"x", &n, &pk2, &pk1).is_ok());
    assert!(vault.seal(b"x", &n, &pk1, &pk2).is_ok());
}

#[test]
fn unknown_handle_rejected() {
    let mut vault = Vault::new().unwrap();
    let pk = vault.gen_keypair();
    let n = gen_nonce();
    let bogus = vec![7u8; 32];

    assert_eq!(vault.seal(b"m", &n, &pk, &bogus), Err(Error::HandleNotFound));
    assert_eq!(vault.open(b"c", &n, &pk, &bogus), Err(Error::HandleNotFound));
}

#[test]
fn wrong_recipient_fails_auth() {
    let mut vault = Vault::new().unwrap();
    let pk_a = vault.gen_keypair();
    let pk_b = vault.gen_keypair();
    let pk_c = vault.gen_keypair();
    let n = gen_nonce();

    let c = vault.seal(b"secret", &n, &pk_b, &pk_a).unwrap();
    // opened with an unrelated recipient's handle: verification fails
    assert_eq!(vault.open(&c, &n, &pk_a, &pk_c), Err(Error::AuthFailure));
}

#[test]
fn seal_adds_exactly_the_tag() {
    let mut vault = Vault::new().unwrap();
    let pk = vault.gen_keypair();
    let n = gen_nonce();

    let m = b"sixteen characters bear witness";
    let c = vault.seal(m, &n, &pk, &pk).unwrap();
    assert_eq!(c.len(), m.len() + 16);
    assert_ne!(&c[16..], &m[..]);
    assert_ne!(&c[..m.len()], &m[..]);
}

#[test]
fn generated_values_have_wire_widths() {
    let mut vault = Vault::new().unwrap();
    let pk = vault.gen_keypair();
    assert_eq!(pk.len(), 32);
    let n1 = gen_nonce();
    let n2 = gen_nonce();
    assert_eq!(n1.len(), 24);
    assert_ne!(n1, n2);
}
