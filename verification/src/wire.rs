//! Wire codec for the channel between host and worker: length-prefixed byte
//! strings (8-byte big-endian length), fixed-size cryptographic fields, a
//! command byte on requests and a status byte on responses. Pure, stateless
//! (de)serialization; every decode path is fallible and never reads out of
//! bounds.

use vstd::prelude::*;

verus! {

/// Number of bytes in a nonce on the wire.
pub const NONCE_BYTES: usize = 24;
/// Number of bytes in a public key, and in a key handle, on the wire.
pub const KEY_BYTES: usize = 32;
/// Bytes the authenticated-encryption primitive adds to a plaintext.
pub const MAC_BYTES: usize = 16;

/// Command byte of a generate-keypair request.
pub const CMD_GEN_KEYPAIR: u8 = 1;
/// Command byte of a seal request.
pub const CMD_SEAL: u8 = 2;
/// Command byte of an open request.
pub const CMD_OPEN: u8 = 3;

/// Status byte of a successful open response.
pub const STATUS_OK: u8 = 0;
/// Status byte of an authentication failure (`-1` as a signed byte).
pub const STATUS_AUTH_FAILURE: u8 = 0xFF;
/// Status byte of a handle-not-found failure (`-2` as a signed byte).
pub const STATUS_HANDLE_NOT_FOUND: u8 = 0xFE;
/// Status byte of a malformed-message failure (`-3` as a signed byte).
pub const STATUS_MALFORMED: u8 = 0xFD;
/// Status byte of an unknown-command failure (`-4` as a signed byte).
pub const STATUS_UNKNOWN_COMMAND: u8 = 0xFC;
/// Status byte of any other failure (`-5` as a signed byte).
pub const STATUS_GENERIC: u8 = 0xFB;

/// Largest datagram either side produces or accepts.
pub const MAX_MSG_BYTES: usize = 8192;

/// The failure taxonomy of the whole system. `MalformedMessage`,
/// `HandleNotFound`, `AuthFailure` and `UnknownCommand` can travel over the
/// wire as status bytes; the rest arise locally on one side.
#[derive(Clone, Copy, PartialEq, Eq, Structural, Debug)]
pub enum Error {
    /// The worker could not be spawned or the channel could not be created.
    InitFailure,
    /// The worker's execution policy could not be built or loaded.
    PolicyFailure,
    /// A decode-time framing violation: a declared length exceeds the buffer,
    /// or a fixed field is short.
    MalformedMessage,
    /// A seal/open request named a handle absent from the vault.
    HandleNotFound,
    /// Cryptographic verification failed on open.
    AuthFailure,
    /// A send/receive failed at the channel level, or a reply was undecodable.
    TransportFailure,
    /// A request carried an unrecognized command byte.
    UnknownCommand,
}

/// The status byte a worker sends for a failed request.
pub open spec fn status_byte(e: Error) -> u8 {
    match e {
        Error::AuthFailure => STATUS_AUTH_FAILURE,
        Error::HandleNotFound => STATUS_HANDLE_NOT_FOUND,
        Error::MalformedMessage => STATUS_MALFORMED,
        Error::UnknownCommand => STATUS_UNKNOWN_COMMAND,
        _ => STATUS_GENERIC,
    }
}

/// The error a client reads out of a failure status byte; a status it does
/// not recognize counts as an undecodable reply.
pub open spec fn error_of_status(s: u8) -> Error {
    if s == STATUS_AUTH_FAILURE {
        Error::AuthFailure
    } else if s == STATUS_HANDLE_NOT_FOUND {
        Error::HandleNotFound
    } else if s == STATUS_MALFORMED {
        Error::MalformedMessage
    } else if s == STATUS_UNKNOWN_COMMAND {
        Error::UnknownCommand
    } else {
        Error::TransportFailure
    }
}

/// Every status byte for a wire-visible error maps back to that error.
pub proof fn lemma_status_byte_round_trip(e: Error)
    requires
        e is MalformedMessage || e is HandleNotFound || e is AuthFailure
            || e is UnknownCommand,
    ensures
        error_of_status(status_byte(e)) == e,
        status_byte(e) >= 0x80,
{
}

pub fn status_to_byte(e: Error) -> (r: u8)
    ensures
        r == status_byte(e),
{
    match e {
        Error::AuthFailure => STATUS_AUTH_FAILURE,
        Error::HandleNotFound => STATUS_HANDLE_NOT_FOUND,
        Error::MalformedMessage => STATUS_MALFORMED,
        Error::UnknownCommand => STATUS_UNKNOWN_COMMAND,
        _ => STATUS_GENERIC,
    }
}

pub fn status_to_error(s: u8) -> (r: Error)
    ensures
        r == error_of_status(s),
{
    if s == STATUS_AUTH_FAILURE {
        Error::AuthFailure
    } else if s == STATUS_HANDLE_NOT_FOUND {
        Error::HandleNotFound
    } else if s == STATUS_MALFORMED {
        Error::MalformedMessage
    } else if s == STATUS_UNKNOWN_COMMAND {
        Error::UnknownCommand
    } else {
        Error::TransportFailure
    }
}

/// The eight big-endian bytes of a 64-bit length prefix.
pub open spec fn u64_be(v: u64) -> Seq<u8> {
    seq![
        (v >> 56) as u8,
        (v >> 48) as u8,
        (v >> 40) as u8,
        (v >> 32) as u8,
        (v >> 24) as u8,
        (v >> 16) as u8,
        (v >> 8) as u8,
        v as u8,
    ]
}

/// The 64-bit value eight big-endian bytes stand for.
pub open spec fn be_u64(s: Seq<u8>) -> u64
    recommends
        s.len() == 8,
{
    ((s[0] as u64) << 56) | ((s[1] as u64) << 48) | ((s[2] as u64) << 40)
        | ((s[3] as u64) << 32) | ((s[4] as u64) << 24) | ((s[5] as u64) << 16)
        | ((s[6] as u64) << 8) | (s[7] as u64)
}

/// Reading back the eight big-endian bytes of a value yields the value:
/// the length prefix is encoded and decoded symmetrically.
pub proof fn lemma_u64_be_round_trip(v: u64)
    ensures
        u64_be(v).len() == 8,
        be_u64(u64_be(v)) == v,
{
    assert((((((v >> 56) as u8) as u64) << 56) | ((((v >> 48) as u8) as u64) << 48)
        | ((((v >> 40) as u8) as u64) << 40) | ((((v >> 32) as u8) as u64) << 32)
        | ((((v >> 24) as u8) as u64) << 24) | ((((v >> 16) as u8) as u64) << 16)
        | ((((v >> 8) as u8) as u64) << 8) | ((v as u8) as u64)) == v) by (bit_vector);
}

/// Appends raw bytes to an output buffer.
pub fn put_bytes(buf: &mut Vec<u8>, s: &[u8])
    ensures
        final(buf)@ == old(buf)@ + s@,
{
    let ghost orig = buf@;
    let mut i: usize = 0;
    while i < s.len()
        invariant
            0 <= i <= s@.len(),
            buf@ == orig + s@.take(i as int),
        decreases s@.len() - i,
    {
        buf.push(s[i]);
        i = i + 1;
        proof {
            assert(s@.take(i as int) =~= s@.take(i as int - 1).push(s@[i as int - 1]));
        }
    }
    proof {
        assert(buf@ =~= orig + s@);
    }
}

/// Copies a byte slice into a fresh vector.
pub fn copy_bytes(s: &[u8]) -> (r: Vec<u8>)
    ensures
        r@ == s@,
{
    let mut v: Vec<u8> = Vec::new();
    put_bytes(&mut v, s);
    proof {
        assert(v@ =~= s@);
    }
    v
}

/// Tests two byte strings for equality.
pub fn bytes_eq(a: &[u8], b: &[u8]) -> (r: bool)
    ensures
        r == (a@ == b@),
{
    if a.len() != b.len() {
        return false;
    }
    let mut i: usize = 0;
    while i < a.len()
        invariant
            0 <= i <= a@.len(),
            a@.len() == b@.len(),
            forall|j: int| 0 <= j < i ==> a@[j] == b@[j],
        decreases a@.len() - i,
    {
        if a[i] != b[i] {
            return false;
        }
        i = i + 1;
    }
    proof {
        assert(a@ =~= b@);
    }
    true
}

/// Appends a 64-bit value as eight big-endian bytes.
pub fn put_u64_be(buf: &mut Vec<u8>, v: u64)
    ensures
        final(buf)@ == old(buf)@ + u64_be(v),
{
    buf.push((v >> 56) as u8);
    buf.push((v >> 48) as u8);
    buf.push((v >> 40) as u8);
    buf.push((v >> 32) as u8);
    buf.push((v >> 24) as u8);
    buf.push((v >> 16) as u8);
    buf.push((v >> 8) as u8);
    buf.push(v as u8);
    proof {
        assert(buf@ =~= old(buf)@ + u64_be(v));
    }
}

/// Appends a sized byte string: an 8-byte big-endian length prefix followed
/// by the bytes themselves.
pub fn put_sized_slice(buf: &mut Vec<u8>, s: &[u8])
    ensures
        final(buf)@ == old(buf)@ + u64_be(s@.len() as u64) + s@,
{
    put_u64_be(buf, s.len() as u64);
    put_bytes(buf, s);
}

/// Reads one byte; `MalformedMessage` on a short buffer.
pub fn get_u8(data: &[u8], pos: usize) -> (r: Result<(u8, usize), Error>)
    ensures
        match r {
            Ok((b, p)) => pos + 1 <= data@.len() && b == data@[pos as int] && p == pos + 1,
            Err(e) => e == Error::MalformedMessage && pos + 1 > data@.len(),
        },
{
    if pos < data.len() {
        Ok((data[pos], pos + 1))
    } else {
        Err(Error::MalformedMessage)
    }
}

/// Reads a 64-bit big-endian value; `MalformedMessage` on a short buffer.
pub fn get_u64_be(data: &[u8], pos: usize) -> (r: Result<(u64, usize), Error>)
    ensures
        match r {
            Ok((v, p)) => {
                &&& pos + 8 <= data@.len()
                &&& v == be_u64(data@.subrange(pos as int, pos as int + 8))
                &&& p == pos + 8
            },
            Err(e) => e == Error::MalformedMessage && pos + 8 > data@.len(),
        },
{
    if data.len() < 8 || pos > data.len() - 8 {
        return Err(Error::MalformedMessage);
    }
    let v = ((data[pos] as u64) << 56) | ((data[pos + 1] as u64) << 48)
        | ((data[pos + 2] as u64) << 40) | ((data[pos + 3] as u64) << 32)
        | ((data[pos + 4] as u64) << 24) | ((data[pos + 5] as u64) << 16)
        | ((data[pos + 6] as u64) << 8) | (data[pos + 7] as u64);
    proof {
        let s = data@.subrange(pos as int, pos as int + 8);
        assert(s[0] == data@[pos as int]);
        assert(s[7] == data@[pos as int + 7]);
    }
    Ok((v, pos + 8))
}

/// Reads exactly `n` raw bytes; `MalformedMessage` on a short buffer.
pub fn get_exact(data: &[u8], pos: usize, n: usize) -> (r: Result<(Vec<u8>, usize), Error>)
    ensures
        match r {
            Ok((v, p)) => {
                &&& pos + n <= data@.len()
                &&& v@ == data@.subrange(pos as int, pos as int + n)
                &&& v@.len() == n
                &&& p == pos + n
            },
            Err(e) => e == Error::MalformedMessage && pos + n > data@.len(),
        },
{
    if n > data.len() || pos > data.len() - n {
        return Err(Error::MalformedMessage);
    }
    let mut v: Vec<u8> = Vec::new();
    let mut i: usize = 0;
    while i < n
        invariant
            0 <= i <= n,
            pos + n <= data@.len(),
            data@.len() <= usize::MAX,
            v@ == data@.subrange(pos as int, pos as int + i),
        decreases n - i,
    {
        v.push(data[pos + i]);
        i = i + 1;
        proof {
            assert(v@ =~= data@.subrange(pos as int, pos as int + i));
        }
    }
    Ok((v, pos + n))
}

/// Reads a sized byte string: a length prefix, then that many bytes. The
/// declared length is validated against the remaining buffer before any
/// allocation; a prefix that exceeds the payload is `MalformedMessage`.
pub fn get_sized_vec(data: &[u8], pos: usize) -> (r: Result<(Vec<u8>, usize), Error>)
    ensures
        match r {
            Ok((v, p)) => {
                &&& pos + 8 + v@.len() <= data@.len()
                &&& v@.len() == be_u64(data@.subrange(pos as int, pos as int + 8))
                &&& v@ == data@.subrange(pos as int + 8, pos as int + 8 + v@.len())
                &&& p == pos + 8 + v@.len()
            },
            Err(e) => {
                &&& e == Error::MalformedMessage
                &&& (pos + 8 > data@.len()
                    || be_u64(data@.subrange(pos as int, pos as int + 8))
                        > data@.len() - pos - 8)
            },
        },
{
    let (len_u64, p) = match get_u64_be(data, pos) {
        Ok(x) => x,
        Err(e) => {
            return Err(e);
        },
    };
    let remaining = data.len() - p;
    if len_u64 > remaining as u64 {
        return Err(Error::MalformedMessage);
    }
    let n = len_u64 as usize;
    match get_exact(data, p, n) {
        Ok((v, p2)) => Ok((v, p2)),
        Err(e) => Err(e),
    }
}

/// Reads a fixed 24-byte nonce field; `MalformedMessage` on a short read.
pub fn get_nonce(data: &[u8], pos: usize) -> (r: Result<(Vec<u8>, usize), Error>)
    ensures
        match r {
            Ok((v, p)) => {
                &&& pos + NONCE_BYTES <= data@.len()
                &&& v@ == data@.subrange(pos as int, pos as int + NONCE_BYTES)
                &&& v@.len() == NONCE_BYTES
                &&& p == pos + NONCE_BYTES
            },
            Err(e) => e == Error::MalformedMessage && pos + NONCE_BYTES > data@.len(),
        },
{
    get_exact(data, pos, NONCE_BYTES)
}

/// Reads a fixed 32-byte public-key field; `MalformedMessage` on a short read.
pub fn get_public_key(data: &[u8], pos: usize) -> (r: Result<(Vec<u8>, usize), Error>)
    ensures
        match r {
            Ok((v, p)) => {
                &&& pos + KEY_BYTES <= data@.len()
                &&& v@ == data@.subrange(pos as int, pos as int + KEY_BYTES)
                &&& v@.len() == KEY_BYTES
                &&& p == pos + KEY_BYTES
            },
            Err(e) => e == Error::MalformedMessage && pos + KEY_BYTES > data@.len(),
        },
{
    get_exact(data, pos, KEY_BYTES)
}

/// Reads a fixed 32-byte key-handle field. A handle has the same wire shape
/// as a public key: in this design the handle for a stored secret key is the
/// matching public key itself.
pub fn get_secret_key_handle(data: &[u8], pos: usize) -> (r: Result<(Vec<u8>, usize), Error>)
    ensures
        match r {
            Ok((v, p)) => {
                &&& pos + KEY_BYTES <= data@.len()
                &&& v@ == data@.subrange(pos as int, pos as int + KEY_BYTES)
                &&& v@.len() == KEY_BYTES
                &&& p == pos + KEY_BYTES
            },
            Err(e) => e == Error::MalformedMessage && pos + KEY_BYTES > data@.len(),
        },
{
    get_public_key(data, pos)
}

/// A decoded request, as the worker sees it. The handle for a stored secret
/// key has the same wire shape as a public key (see `get_secret_key_handle`).
pub enum Request {
    /// Generate a fresh keypair and store the secret key in the vault.
    GenKeypair,
    /// Encrypt `m` under nonce `n` for recipient `pk`, signing with the
    /// secret key the vault holds under `skh`.
    Seal { m: Vec<u8>, n: Vec<u8>, pk: Vec<u8>, skh: Vec<u8> },
    /// Verify and decrypt `c` under nonce `n` from sender `pk`, with the
    /// secret key the vault holds under `skh`.
    Open { c: Vec<u8>, n: Vec<u8>, pk: Vec<u8>, skh: Vec<u8> },
}

/// The mathematical shape of a request: the same three commands over byte
/// sequences.
pub enum ReqView {
    GenKeypair,
    Seal { m: Seq<u8>, n: Seq<u8>, pk: Seq<u8>, skh: Seq<u8> },
    Open { c: Seq<u8>, n: Seq<u8>, pk: Seq<u8>, skh: Seq<u8> },
}

impl View for Request {
    type V = ReqView;

    open spec fn view(&self) -> ReqView {
        match self {
            Request::GenKeypair => ReqView::GenKeypair,
            Request::Seal { m, n, pk, skh } => ReqView::Seal {
                m: m@,
                n: n@,
                pk: pk@,
                skh: skh@,
            },
            Request::Open { c, n, pk, skh } => ReqView::Open {
                c: c@,
                n: n@,
                pk: pk@,
                skh: skh@,
            },
        }
    }
}

/// Well-formedness of a request: fixed fields have their wire widths and the
/// payload length fits in a length prefix.
pub open spec fn req_wf(r: ReqView) -> bool {
    match r {
        ReqView::GenKeypair => true,
        ReqView::Seal { m, n, pk, skh } => n.len() == NONCE_BYTES && pk.len() == KEY_BYTES
            && skh.len() == KEY_BYTES && m.len() <= u64::MAX,
        ReqView::Open { c, n, pk, skh } => n.len() == NONCE_BYTES && pk.len() == KEY_BYTES
            && skh.len() == KEY_BYTES && c.len() <= u64::MAX,
    }
}

/// The wire form of a request: a command byte, then (for seal and open) a
/// sized payload and the three fixed fields.
pub open spec fn spec_encode_request(r: ReqView) -> Seq<u8> {
    match r {
        ReqView::GenKeypair => seq![CMD_GEN_KEYPAIR],
        ReqView::Seal { m, n, pk, skh } => seq![CMD_SEAL] + u64_be(m.len() as u64) + m + n + pk
            + skh,
        ReqView::Open { c, n, pk, skh } => seq![CMD_OPEN] + u64_be(c.len() as u64) + c + n + pk
            + skh,
    }
}

/// What a received datagram means: the unique request it carries, or why it
/// is rejected. An empty or short frame, and a length prefix that overruns
/// the frame, are `MalformedMessage`; a command byte other than the three
/// defined ones is `UnknownCommand`. Bytes after the last field are ignored,
/// as the fields fully determine the request.
pub open spec fn spec_parse_request(s: Seq<u8>) -> Result<ReqView, Error> {
    if s.len() < 1 {
        Err(Error::MalformedMessage)
    } else if s[0] == CMD_GEN_KEYPAIR {
        Ok(ReqView::GenKeypair)
    } else if s[0] == CMD_SEAL || s[0] == CMD_OPEN {
        if s.len() < 9 {
            Err(Error::MalformedMessage)
        } else {
            let len = be_u64(s.subrange(1, 9)) as int;
            if len + 97 <= s.len() {
                let m = s.subrange(9, 9 + len);
                let n = s.subrange(9 + len, 9 + len + 24);
                let pk = s.subrange(9 + len + 24, 9 + len + 56);
                let skh = s.subrange(9 + len + 56, 9 + len + 88);
                if s[0] == CMD_SEAL {
                    Ok(ReqView::Seal { m, n, pk, skh })
                } else {
                    Ok(ReqView::Open { c: m, n, pk, skh })
                }
            } else {
                Err(Error::MalformedMessage)
            }
        }
    } else {
        Err(Error::UnknownCommand)
    }
}

/// Decodes a received datagram into a request, exactly as
/// `spec_parse_request` reads it; never panics and never reads past the
/// buffer, whatever the bytes hold.
pub fn decode_request(data: &[u8]) -> (r: Result<Request, Error>)
    ensures
        match r {
            Ok(q) => spec_parse_request(data@) == Ok::<ReqView, Error>(q@) && req_wf(q@),
            Err(e) => spec_parse_request(data@) == Err::<ReqView, Error>(e),
        },
{
    let (cmd, p0) = match get_u8(data, 0) {
        Ok(x) => x,
        Err(e) => {
            return Err(e);
        },
    };
    if cmd == CMD_GEN_KEYPAIR {
        return Ok(Request::GenKeypair);
    }
    if cmd != CMD_SEAL && cmd != CMD_OPEN {
        return Err(Error::UnknownCommand);
    }
    let (m, p1) = match get_sized_vec(data, p0) {
        Ok(x) => x,
        Err(e) => {
            return Err(e);
        },
    };
    let (n, p2) = match get_nonce(data, p1) {
        Ok(x) => x,
        Err(e) => {
            return Err(e);
        },
    };
    let (pk, p3) = match get_public_key(data, p2) {
        Ok(x) => x,
        Err(e) => {
            return Err(e);
        },
    };
    let (skh, _p4) = match get_secret_key_handle(data, p3) {
        Ok(x) => x,
        Err(e) => {
            return Err(e);
        },
    };
    if cmd == CMD_SEAL {
        Ok(Request::Seal { m, n, pk, skh })
    } else {
        Ok(Request::Open { c: m, n, pk, skh })
    }
}

/// Builds the bytes `[cmd][u64 len][payload][nonce][key][handle]`.
fn build_request(cmd: u8, payload: &[u8], n: &[u8], pk: &[u8], skh: &[u8]) -> (r: Vec<u8>)
    ensures
        r@ == seq![cmd] + u64_be(payload@.len() as u64) + payload@ + n@ + pk@ + skh@,
{
    let mut buf: Vec<u8> = Vec::new();
    buf.push(cmd);
    proof {
        assert(buf@ =~= seq![cmd]);
    }
    put_sized_slice(&mut buf, payload);
    put_bytes(&mut buf, n);
    put_bytes(&mut buf, pk);
    put_bytes(&mut buf, skh);
    proof {
        assert(buf@ =~= seq![cmd] + u64_be(payload@.len() as u64) + payload@ + n@ + pk@ + skh@);
    }
    buf
}

/// Encodes a generate-keypair request: the single command byte.
pub fn encode_gen_keypair_request() -> (r: Vec<u8>)
    ensures
        r@ == spec_encode_request(ReqView::GenKeypair),
        r@.len() == 1,
{
    let mut buf: Vec<u8> = Vec::new();
    buf.push(CMD_GEN_KEYPAIR);
    proof {
        assert(buf@ =~= seq![CMD_GEN_KEYPAIR]);
    }
    buf
}

/// Encodes a seal request; `MalformedMessage` if the frame would exceed the
/// protocol's maximum message size.
pub fn encode_seal_request(m: &[u8], n: &[u8], pk: &[u8], skh: &[u8]) -> (r: Result<
    Vec<u8>,
    Error,
>)
    requires
        n@.len() == NONCE_BYTES,
        pk@.len() == KEY_BYTES,
        skh@.len() == KEY_BYTES,
    ensures
        match r {
            Ok(v) => {
                &&& m@.len() + 97 <= MAX_MSG_BYTES
                &&& v@ == spec_encode_request(
                    ReqView::Seal { m: m@, n: n@, pk: pk@, skh: skh@ },
                )
                &&& v@.len() == m@.len() + 97
            },
            Err(e) => e == Error::MalformedMessage && m@.len() + 97 > MAX_MSG_BYTES,
        },
{
    if m.len() > MAX_MSG_BYTES - 97 {
        return Err(Error::MalformedMessage);
    }
    Ok(build_request(CMD_SEAL, m, n, pk, skh))
}

/// Encodes an open request; `MalformedMessage` if the frame would exceed the
/// protocol's maximum message size.
pub fn encode_open_request(c: &[u8], n: &[u8], pk: &[u8], skh: &[u8]) -> (r: Result<
    Vec<u8>,
    Error,
>)
    requires
        n@.len() == NONCE_BYTES,
        pk@.len() == KEY_BYTES,
        skh@.len() == KEY_BYTES,
    ensures
        match r {
            Ok(v) => {
                &&& c@.len() + 97 <= MAX_MSG_BYTES
                &&& v@ == spec_encode_request(
                    ReqView::Open { c: c@, n: n@, pk: pk@, skh: skh@ },
                )
                &&& v@.len() == c@.len() + 97
            },
            Err(e) => e == Error::MalformedMessage && c@.len() + 97 > MAX_MSG_BYTES,
        },
{
    if c.len() > MAX_MSG_BYTES - 97 {
        return Err(Error::MalformedMessage);
    }
    Ok(build_request(CMD_OPEN, c, n, pk, skh))
}

/// The wire form of a successful generate-keypair response: the raw public
/// key, nothing else.
pub open spec fn gen_resp(pk: Seq<u8>) -> Seq<u8> {
    pk
}

/// The wire form of a successful seal response: the sized ciphertext.
pub open spec fn seal_resp(c: Seq<u8>) -> Seq<u8> {
    u64_be(c.len() as u64) + c
}

/// The wire form of a successful open response: a zero status byte, then the
/// sized plaintext.
pub open spec fn open_ok_resp(m: Seq<u8>) -> Seq<u8> {
    seq![STATUS_OK] + u64_be(m.len() as u64) + m
}

/// The wire form of a failed request: a single negative status byte.
pub open spec fn failure_resp(e: Error) -> Seq<u8> {
    seq![status_byte(e)]
}

/// Builds a seal response frame.
pub fn build_seal_response(c: &[u8]) -> (r: Vec<u8>)
    ensures
        r@ == seal_resp(c@),
{
    let mut buf: Vec<u8> = Vec::new();
    put_sized_slice(&mut buf, c);
    proof {
        assert(buf@ =~= seal_resp(c@));
    }
    buf
}

/// Builds a successful open response frame.
pub fn build_open_ok_response(m: &[u8]) -> (r: Vec<u8>)
    ensures
        r@ == open_ok_resp(m@),
{
    let mut buf: Vec<u8> = Vec::new();
    buf.push(STATUS_OK);
    proof {
        assert(buf@ =~= seq![STATUS_OK]);
    }
    put_sized_slice(&mut buf, m);
    proof {
        assert(buf@ =~= open_ok_resp(m@));
    }
    buf
}

/// Builds a failure response frame.
pub fn build_failure_response(e: Error) -> (r: Vec<u8>)
    ensures
        r@ == failure_resp(e),
{
    let mut buf: Vec<u8> = Vec::new();
    buf.push(status_to_byte(e));
    proof {
        assert(buf@ =~= failure_resp(e));
    }
    buf
}

/// The sized byte string at the front of a frame, if its prefix is honest.
pub open spec fn spec_decode_sized(s: Seq<u8>) -> Option<Seq<u8>> {
    if s.len() >= 8 && be_u64(s.subrange(0, 8)) <= s.len() - 8 {
        Some(s.subrange(8, 8 + be_u64(s.subrange(0, 8)) as int))
    } else {
        None
    }
}

/// What a generate-keypair reply means to the client: 32 raw key bytes, a
/// single failure status byte, or an undecodable reply.
pub open spec fn spec_decode_gen_response(s: Seq<u8>) -> Result<Seq<u8>, Error> {
    if s.len() == 1 && s[0] >= 0x80 {
        Err(error_of_status(s[0]))
    } else if s.len() == KEY_BYTES {
        Ok(s)
    } else {
        Err(Error::TransportFailure)
    }
}

/// What a seal reply means to the client: a sized ciphertext, a single
/// failure status byte, or an undecodable reply.
pub open spec fn spec_decode_seal_response(s: Seq<u8>) -> Result<Seq<u8>, Error> {
    if s.len() == 1 && s[0] >= 0x80 {
        Err(error_of_status(s[0]))
    } else {
        match spec_decode_sized(s) {
            Some(c) => Ok(c),
            None => Err(Error::TransportFailure),
        }
    }
}

/// What an open reply means to the client: a zero status then the sized
/// plaintext, a failure status byte (authentication failure and the rest),
/// or an undecodable reply.
pub open spec fn spec_decode_open_response(s: Seq<u8>) -> Result<Seq<u8>, Error> {
    if s.len() < 1 {
        Err(Error::TransportFailure)
    } else if s[0] >= 0x80 {
        Err(error_of_status(s[0]))
    } else if s[0] == STATUS_OK {
        if s.len() >= 9 && be_u64(s.subrange(1, 9)) <= s.len() - 9 {
            Ok(s.subrange(9, 9 + be_u64(s.subrange(1, 9)) as int))
        } else {
            Err(Error::TransportFailure)
        }
    } else {
        Err(Error::TransportFailure)
    }
}

/// Decodes a generate-keypair reply, exactly as `spec_decode_gen_response`
/// reads it.
pub fn decode_gen_keypair_response(data: &[u8]) -> (r: Result<Vec<u8>, Error>)
    ensures
        match r {
            Ok(pk) => spec_decode_gen_response(data@) == Ok::<Seq<u8>, Error>(pk@)
                && pk@.len() == KEY_BYTES,
            Err(e) => spec_decode_gen_response(data@) == Err::<Seq<u8>, Error>(e),
        },
{
    if data.len() == 1 {
        let b = data[0];
        if b >= 0x80 {
            return Err(status_to_error(b));
        }
        return Err(Error::TransportFailure);
    }
    if data.len() != KEY_BYTES {
        return Err(Error::TransportFailure);
    }
    match get_exact(data, 0, KEY_BYTES) {
        Ok((pk, _)) => {
            proof {
                assert(pk@ =~= data@);
            }
            Ok(pk)
        },
        Err(_) => Err(Error::TransportFailure),
    }
}

/// Decodes a seal reply, exactly as `spec_decode_seal_response` reads it.
pub fn decode_seal_response(data: &[u8]) -> (r: Result<Vec<u8>, Error>)
    ensures
        match r {
            Ok(c) => spec_decode_seal_response(data@) == Ok::<Seq<u8>, Error>(c@),
            Err(e) => spec_decode_seal_response(data@) == Err::<Seq<u8>, Error>(e),
        },
{
    if data.len() == 1 {
        let b = data[0];
        if b >= 0x80 {
            return Err(status_to_error(b));
        }
    }
    match get_sized_vec(data, 0) {
        Ok((c, _)) => Ok(c),
        Err(_) => Err(Error::TransportFailure),
    }
}

/// Decodes an open reply, exactly as `spec_decode_open_response` reads it:
/// an authentication failure arrives as a status byte inside a well-formed
/// reply, distinct from an undecodable one.
pub fn decode_open_response(data: &[u8]) -> (r: Result<Vec<u8>, Error>)
    ensures
        match r {
            Ok(m) => spec_decode_open_response(data@) == Ok::<Seq<u8>, Error>(m@),
            Err(e) => spec_decode_open_response(data@) == Err::<Seq<u8>, Error>(e),
        },
{
    let (b, p) = match get_u8(data, 0) {
        Ok(x) => x,
        Err(_) => {
            return Err(Error::TransportFailure);
        },
    };
    if b >= 0x80 {
        return Err(status_to_error(b));
    }
    if b != STATUS_OK {
        return Err(Error::TransportFailure);
    }
    match get_sized_vec(data, p) {
        Ok((m, _)) => Ok(m),
        Err(_) => Err(Error::TransportFailure),
    }
}

/// Codec symmetry for generate-keypair requests: parsing an encoded request
/// yields the request back.
pub proof fn lemma_parse_encode_gen_keypair()
    ensures
        spec_parse_request(spec_encode_request(ReqView::GenKeypair)) == Ok::<ReqView, Error>(
            ReqView::GenKeypair,
        ),
{
    let s = spec_encode_request(ReqView::GenKeypair);
    assert(s[0] == CMD_GEN_KEYPAIR);
}

/// Codec symmetry for seal requests: parsing an encoded well-formed request
/// yields the request back.
pub proof fn lemma_parse_encode_seal(m: Seq<u8>, n: Seq<u8>, pk: Seq<u8>, skh: Seq<u8>)
    requires
        req_wf(ReqView::Seal { m, n, pk, skh }),
    ensures
        spec_parse_request(spec_encode_request(ReqView::Seal { m, n, pk, skh })) == Ok::<
            ReqView,
            Error,
        >(ReqView::Seal { m, n, pk, skh }),
{
    let s = spec_encode_request(ReqView::Seal { m, n, pk, skh });
    let len = m.len() as int;
    lemma_u64_be_round_trip(m.len() as u64);
    assert(s[0] == CMD_SEAL);
    assert(s.len() == 97 + len);
    assert(s.subrange(1, 9) =~= u64_be(m.len() as u64));
    assert(s.subrange(9, 9 + len) =~= m);
    assert(s.subrange(9 + len, 9 + len + 24) =~= n);
    assert(s.subrange(9 + len + 24, 9 + len + 56) =~= pk);
    assert(s.subrange(9 + len + 56, 9 + len + 88) =~= skh);
}

/// Codec symmetry for open requests: parsing an encoded well-formed request
/// yields the request back.
pub proof fn lemma_parse_encode_open(c: Seq<u8>, n: Seq<u8>, pk: Seq<u8>, skh: Seq<u8>)
    requires
        req_wf(ReqView::Open { c, n, pk, skh }),
    ensures
        spec_parse_request(spec_encode_request(ReqView::Open { c, n, pk, skh })) == Ok::<
            ReqView,
            Error,
        >(ReqView::Open { c, n, pk, skh }),
{
    let s = spec_encode_request(ReqView::Open { c, n, pk, skh });
    let len = c.len() as int;
    lemma_u64_be_round_trip(c.len() as u64);
    assert(s[0] == CMD_OPEN);
    assert(s.len() == 97 + len);
    assert(s.subrange(1, 9) =~= u64_be(c.len() as u64));
    assert(s.subrange(9, 9 + len) =~= c);
    assert(s.subrange(9 + len, 9 + len + 24) =~= n);
    assert(s.subrange(9 + len + 24, 9 + len + 56) =~= pk);
    assert(s.subrange(9 + len + 56, 9 + len + 88) =~= skh);
}

/// Codec symmetry for generate-keypair responses.
pub proof fn lemma_decode_gen_resp(pk: Seq<u8>)
    requires
        pk.len() == KEY_BYTES,
    ensures
        spec_decode_gen_response(gen_resp(pk)) == Ok::<Seq<u8>, Error>(pk),
{
}

/// Codec symmetry for seal responses.
pub proof fn lemma_decode_seal_resp(c: Seq<u8>)
    requires
        c.len() <= u64::MAX,
    ensures
        spec_decode_seal_response(seal_resp(c)) == Ok::<Seq<u8>, Error>(c),
{
    let s = seal_resp(c);
    lemma_u64_be_round_trip(c.len() as u64);
    assert(s.subrange(0, 8) =~= u64_be(c.len() as u64));
    assert(s.subrange(8, 8 + c.len() as int) =~= c);
}

/// Codec symmetry for successful open responses.
pub proof fn lemma_decode_open_ok_resp(m: Seq<u8>)
    requires
        m.len() <= u64::MAX,
    ensures
        spec_decode_open_response(open_ok_resp(m)) == Ok::<Seq<u8>, Error>(m),
{
    let s = open_ok_resp(m);
    lemma_u64_be_round_trip(m.len() as u64);
    assert(s[0] == STATUS_OK);
    assert(s.subrange(1, 9) =~= u64_be(m.len() as u64));
    assert(s.subrange(9, 9 + m.len() as int) =~= m);
}

/// Codec symmetry for failure responses: each wire-visible error comes back
/// out of any of the three response decoders as itself.
pub proof fn lemma_decode_failure_resp(e: Error)
    requires
        e is MalformedMessage || e is HandleNotFound || e is AuthFailure
            || e is UnknownCommand,
    ensures
        spec_decode_gen_response(failure_resp(e)) == Err::<Seq<u8>, Error>(e),
        spec_decode_seal_response(failure_resp(e)) == Err::<Seq<u8>, Error>(e),
        spec_decode_open_response(failure_resp(e)) == Err::<Seq<u8>, Error>(e),
{
    lemma_status_byte_round_trip(e);
    let s = failure_resp(e);
    assert(s[0] == status_byte(e));
}

/// A length prefix that exceeds the actual payload is rejected: every seal
/// or open frame whose declared payload length overruns the received bytes —
/// or that is too short to hold the prefix and the fixed fields at all —
/// parses to `MalformedMessage`. The executable decoders are proved to
/// return exactly this parse, and never to read a byte beyond the buffer
/// they were handed.
pub proof fn lemma_length_prefix_overrun_rejected(s: Seq<u8>)
    requires
        s.len() >= 1,
        s[0] == CMD_SEAL || s[0] == CMD_OPEN,
        s.len() < 9 || be_u64(s.subrange(1, 9)) + 97 > s.len(),
    ensures
        spec_parse_request(s) == Err::<ReqView, Error>(Error::MalformedMessage),
{
}

} // verus!
