//! The trusted boundary to the authenticated-encryption primitive
//! (sodiumoxide's NaCl-box construction: curve25519 key agreement with
//! xsalsa20-poly1305). Key generation, sealing, opening and nonce generation
//! are vetted library calls; everything here carries bytes in and out of
//! them and states only what sodiumoxide's own source and documentation
//! promise. Opening is a deterministic function of its arguments, and
//! sealing is one whenever the recipient key is a genuine public key, so
//! their results are named rather than written out.

use vstd::prelude::*;

use crate::wire::KEY_BYTES;
use crate::wire::MAC_BYTES;
use crate::wire::NONCE_BYTES;

verus! {

/// The public key that corresponds to a 32-byte secret key (curve25519
/// scalar multiplication of the base point; `SecretKey::public_key` in
/// sodiumoxide computes it).
pub uninterp spec fn pk_of(sk: Seq<u8>) -> Seq<u8>;

/// The ciphertext `box_::seal` produces for a plaintext, a nonce, the
/// recipient's public key and the sender's secret key. It names the call's
/// result only where the recipient key is a genuine public key (one in the
/// image of the key derivation): for other 32-byte strings the key agreement
/// under the call can reject the key, and the returned buffer's contents are
/// then unspecified — only its length is promised.
pub uninterp spec fn seal_bytes(m: Seq<u8>, n: Seq<u8>, pk: Seq<u8>, sk: Seq<u8>) -> Seq<u8>;

/// What `box_::open` yields for a ciphertext, a nonce, the sender's public
/// key and the recipient's secret key: the plaintext when verification
/// succeeds, nothing when it fails.
pub uninterp spec fn open_bytes(c: Seq<u8>, n: Seq<u8>, pk: Seq<u8>, sk: Seq<u8>) -> Option<
    Seq<u8>,
>;

/// Relies on sodiumoxide::init: readies the primitive (and makes the random
/// generator thread-safe); it reports failure rather than panicking.
#[verifier::external_body]
pub(crate) fn crypto_init() -> (r: Result<(), ()>) {
    sodiumoxide::init()
}

/// Relies on sodiumoxide::crypto::box_::gen_keypair: it randomly generates a
/// 32-byte secret key together with the corresponding 32-byte public key.
/// Nothing can be promised of which key pair comes back, only that the two
/// halves correspond.
#[verifier::external_body]
pub(crate) fn crypto_gen_keypair() -> (r: (Vec<u8>, Vec<u8>))
    ensures
        r.0@.len() == KEY_BYTES,
        r.1@.len() == KEY_BYTES,
        r.0@ == pk_of(r.1@),
{
    let (pk, sk) = sodiumoxide::crypto::box_::gen_keypair();
    (pk.0.to_vec(), sk.0.to_vec())
}

/// Relies on sodiumoxide::crypto::box_::seal: the returned buffer is always
/// exactly one authentication tag longer than the plaintext, and when the
/// recipient key is a genuine public key — one the key derivation can
/// produce, which the underlying scalar multiplication never rejects — the
/// buffer is the deterministic box ciphertext of the four arguments. For a
/// 32-byte string outside that image the call can fail its key agreement
/// without reporting it, so nothing is claimed of the contents then.
#[verifier::external_body]
pub(crate) fn crypto_seal(m: &[u8], n: &[u8], pk: &[u8], sk: &[u8]) -> (r: Vec<u8>)
    requires
        n@.len() == NONCE_BYTES,
        pk@.len() == KEY_BYTES,
        sk@.len() == KEY_BYTES,
        m@.len() + MAC_BYTES <= usize::MAX,
    ensures
        r@.len() == m@.len() + MAC_BYTES,
        (exists|sks: Seq<u8>| sks.len() == KEY_BYTES && pk@ == pk_of(sks)) ==> r@
            == seal_bytes(m@, n@, pk@, sk@),
{
    let n = sodiumoxide::crypto::box_::Nonce::from_slice(n).unwrap();
    let pk = sodiumoxide::crypto::box_::PublicKey::from_slice(pk).unwrap();
    let sk = sodiumoxide::crypto::box_::SecretKey::from_slice(sk).unwrap();
    sodiumoxide::crypto::box_::seal(m, &n, &pk, &sk)
}

/// Relies on sodiumoxide::crypto::box_::open: it verifies and decrypts a
/// ciphertext with the sender's public key and the recipient's secret key,
/// returning the plaintext on success and an error — never a panic — when
/// verification fails. In particular, opening a ciphertext that `seal`
/// produced for this recipient, under the same nonce and the sender's
/// matching public key, returns that plaintext (the box construction's
/// stated round trip).
#[verifier::external_body]
pub(crate) fn crypto_open(c: &[u8], n: &[u8], pk: &[u8], sk: &[u8]) -> (r: Result<Vec<u8>, ()>)
    requires
        n@.len() == NONCE_BYTES,
        pk@.len() == KEY_BYTES,
        sk@.len() == KEY_BYTES,
    ensures
        r matches Ok(m) ==> open_bytes(c@, n@, pk@, sk@) == Some(m@) && m@.len() + MAC_BYTES
            == c@.len(),
        r is Err ==> open_bytes(c@, n@, pk@, sk@) is None,
        r matches Ok(p) ==> forall|m: Seq<u8>, sks: Seq<u8>|
            sks.len() == KEY_BYTES && pk@ == pk_of(sks) && c@ == #[trigger] seal_bytes(
                m,
                n@,
                pk_of(sk@),
                sks,
            ) ==> p@ == m,
        r is Err ==> forall|m: Seq<u8>, sks: Seq<u8>|
            !(sks.len() == KEY_BYTES && pk@ == pk_of(sks) && c@ == #[trigger] seal_bytes(
                m,
                n@,
                pk_of(sk@),
                sks,
            )),
{
    let n = sodiumoxide::crypto::box_::Nonce::from_slice(n).unwrap();
    let pk = sodiumoxide::crypto::box_::PublicKey::from_slice(pk).unwrap();
    let sk = sodiumoxide::crypto::box_::SecretKey::from_slice(sk).unwrap();
    sodiumoxide::crypto::box_::open(c, &n, &pk, &sk)
}

/// Generates a fresh random 24-byte nonce; a pure local call that never
/// crosses the channel.
///
/// Relies on sodiumoxide::crypto::box_::gen_nonce: it randomly generates a
/// nonce, of which nothing but its width can be promised.
#[verifier::external_body]
pub fn gen_nonce() -> (r: Vec<u8>)
    ensures
        r@.len() == NONCE_BYTES,
{
    sodiumoxide::crypto::box_::gen_nonce().0.to_vec()
}

} // verus!
