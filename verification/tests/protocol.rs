use keyvault::crypto::gen_nonce;
use keyvault::dispatch::handle_request;
use keyvault::dispatch::next_state;
use keyvault::dispatch::ReadEvent;
use keyvault::dispatch::ServerState;
use keyvault::vault::Vault;
use keyvault::wire::decode_gen_keypair_response;
use keyvault::wire::decode_open_response;
use keyvault::wire::decode_request;
use keyvault::wire::decode_seal_response;
use keyvault::wire::encode_gen_keypair_request;
use keyvault::wire::encode_open_request;
use keyvault::wire::encode_seal_request;
use keyvault::wire::get_sized_vec;
use keyvault::wire::get_u64_be;
use keyvault::wire::put_sized_slice;
use keyvault::wire::put_u64_be;
use keyvault::wire::Error;
use keyvault::wire::Request;

#[test]
fn worker_round_trip_over_the_wire() {
    let mut vault = Vault::new().unwrap();

    let reply = handle_request(&mut vault, &encode_gen_keypair_request());
    let pk_a = decode_gen_keypair_response(&reply).unwrap();
    let reply = handle_request(&mut vault, &encode_gen_keypair_request());
    let pk_b = decode_gen_keypair_response(&reply).unwrap();
    assert_ne!(pk_a, pk_b);

    let n = gen_nonce();
    let req = encode_seal_request(b"hello", &n, &pk_b, &pk_a).unwrap();
    let reply = handle_request(&mut vault, &req);
    let c = decode_seal_response(&reply).unwrap();
    assert_eq!(c.len(), 5 + 16);

    let req = encode_open_request(&c, &n, &pk_a, &pk_b).unwrap();
    let reply = handle_request(&mut vault, &req);
    let m = decode_open_response(&reply).unwrap();
    assert_eq!(&m[..], b"hello");

    let mut tampered = c.clone();
    tampered[3] ^= 0x40;
    let req = encode_open_request(&tampered, &n, &pk_a, &pk_b).unwrap();
    let reply = handle_request(&mut vault, &req);
    assert_eq!(reply, vec![0xFF]);
    assert_eq!(decode_open_response(&reply), Err(Error::AuthFailure));
}

#[test]
fn length_prefix_overrun_rejected() {
    // a seal frame that declares 100 payload bytes but carries 3
    let mut req = vec![2u8];
    put_u64_be(&mut req, 100);
    req.extend_from_slice(b"abc");
    assert!(matches!(decode_request(&req), Err(Error::MalformedMessage)));

    let mut vault = Vault::new().unwrap();
    let reply = handle_request(&mut vault, &req);
    assert_eq!(reply, vec![0xFD]);
    assert_eq!(decode_seal_response(&reply), Err(Error::MalformedMessage));
}

#[test]
fn short_fixed_field_rejected() {
    // sized payload fits, but the nonce field is short
    let mut req = vec![3u8];
    put_sized_slice(&mut req, b"abc");
    req.extend_from_slice(&[0u8; 10]);
    assert!(matches!(decode_request(&req), Err(Error::MalformedMessage)));
}

#[test]
fn empty_and_unknown_frames() {
    let mut vault = Vault::new().unwrap();

    assert!(matches!(decode_request(&[]), Err(Error::MalformedMessage)));
    assert_eq!(handle_request(&mut vault, &[]), vec![0xFD]);

    assert!(matches!(decode_request(&[9u8]), Err(Error::UnknownCommand)));
    assert_eq!(handle_request(&mut vault, &[9u8]), vec![0xFC]);
    assert_eq!(decode_open_response(&[0xFC]), Err(Error::UnknownCommand));
}

#[test]
fn handle_not_found_over_the_wire() {
    let mut vault = Vault::new().unwrap();
    let reply = handle_request(&mut vault, &encode_gen_keypair_request());
    let pk = decode_gen_keypair_response(&reply).unwrap();

    let n = gen_nonce();
    let bogus = vec![9u8; 32];
    let req = encode_seal_request(b"m", &n, &pk, &bogus).unwrap();
    let reply = handle_request(&mut vault, &req);
    assert_eq!(reply, vec![0xFE]);
    assert_eq!(decode_seal_response(&reply), Err(Error::HandleNotFound));
}

#[test]
fn request_codec_round_trip_concrete() {
    assert_eq!(encode_gen_keypair_request(), vec![1u8]);
    assert!(matches!(decode_request(&[1u8]), Ok(Request::GenKeypair)));

    let m = b"hello";
    let n = [1u8; 24];
    let pk = [2u8; 32];
    let skh = [3u8; 32];
    let req = encode_seal_request(m, &n, &pk, &skh).unwrap();
    assert_eq!(req.len(), 97 + 5);
    assert_eq!(req[0], 2);
    assert_eq!(&req[1..9], &[0, 0, 0, 0, 0, 0, 0, 5]);
    assert_eq!(&req[9..14], b"hello");
    match decode_request(&req) {
        Ok(Request::Seal { m: m2, n: n2, pk: pk2, skh: skh2 }) => {
            assert_eq!(&m2[..], b"hello");
            assert_eq!(&n2[..], &n[..]);
            assert_eq!(&pk2[..], &pk[..]);
            assert_eq!(&skh2[..], &skh[..]);
        },
        other => panic!("wrong decode: {:?}", other.map(|_| ()).is_ok()),
    }

    let req = encode_open_request(b"cipher", &n, &pk, &skh).unwrap();
    assert_eq!(req[0], 3);
    match decode_request(&req) {
        Ok(Request::Open { c, .. }) => assert_eq!(&c[..], b"cipher"),
        _ => panic!("wrong decode"),
    }
}

#[test]
fn oversized_request_refused_at_encode() {
    let n = [0u8; 24];
    let pk = [0u8; 32];
    let skh = [0u8; 32];
    let big = vec![0u8; 8192];
    assert_eq!(encode_seal_request(&big, &n, &pk, &skh), Err(Error::MalformedMessage));
    assert_eq!(encode_open_request(&big, &n, &pk, &skh), Err(Error::MalformedMessage));
    let fits = vec![0u8; 8192 - 97];
    assert!(encode_seal_request(&fits, &n, &pk, &skh).is_ok());
}

#[test]
fn sized_slice_exact_bytes() {
    let mut buf = Vec::new();
    put_sized_slice(&mut buf, b"abc");
    assert_eq!(buf, vec![0, 0, 0, 0, 0, 0, 0, 3, 97, 98, 99]);
    let (v, p) = get_sized_vec(&buf, 0).unwrap();
    assert_eq!(&v[..], b"abc");
    assert_eq!(p, 11);
}

#[test]
fn u64_big_endian_exact_bytes() {
    let mut buf = Vec::new();
    put_u64_be(&mut buf, 0x0102030405060708);
    assert_eq!(buf, vec![1, 2, 3, 4, 5, 6, 7, 8]);
    let (v, p) = get_u64_be(&buf, 0).unwrap();
    assert_eq!(v, 0x0102030405060708);
    assert_eq!(p, 8);
    assert!(matches!(get_u64_be(&buf, 1), Err(Error::MalformedMessage)));
}

#[test]
fn response_decoders_reject_garbage() {
    assert_eq!(decode_gen_keypair_response(&[0u8; 31]), Err(Error::TransportFailure));
    assert_eq!(decode_gen_keypair_response(&[0xFE]), Err(Error::HandleNotFound));
    let pk = decode_gen_keypair_response(&[5u8; 32]).unwrap();
    assert_eq!(pk, vec![5u8; 32]);

    assert_eq!(decode_seal_response(&[]), Err(Error::TransportFailure));
    assert_eq!(decode_seal_response(&[0, 0, 0, 0, 0, 0, 0, 9, 1]), Err(Error::TransportFailure));

    assert_eq!(decode_open_response(&[]), Err(Error::TransportFailure));
    assert_eq!(decode_open_response(&[5u8]), Err(Error::TransportFailure));
    assert_eq!(decode_open_response(&[0xFF]), Err(Error::AuthFailure));
    assert_eq!(decode_open_response(&[0, 0, 0, 0, 0, 0, 0, 0, 2, 10]), Err(Error::TransportFailure));
    let ok = decode_open_response(&[0, 0, 0, 0, 0, 0, 0, 0, 2, 10, 11]).unwrap();
    assert_eq!(ok, vec![10, 11]);
}

#[test]
fn loop_state_transitions() {
    assert_eq!(next_state(ReadEvent::Served), ServerState::AwaitingRequest);
    assert_eq!(next_state(ReadEvent::EmptyRead), ServerState::AwaitingRequest);
    assert_eq!(
        next_state(ReadEvent::RecvError { closed: false }),
        ServerState::AwaitingRequest
    );
    assert_eq!(next_state(ReadEvent::RecvError { closed: true }), ServerState::Fatal);
}
