//! The worker-side dispatcher: one received datagram in, one response
//! datagram out. It decodes the command, routes it to the vault, and encodes
//! the result; a malformed frame, an unknown command, a missing handle or a
//! failed verification each answer with a failure status and leave the vault
//! untouched — the worker keeps serving, so a single bad message cannot take
//! the custodian down. The surrounding loop's transition rule is here too;
//! the receive and send themselves are I/O left to the caller.

use vstd::prelude::*;

use crate::crypto::open_bytes;
use crate::crypto::pk_of;
use crate::crypto::seal_bytes;
use crate::vault::Vault;
use crate::wire::build_failure_response;
use crate::wire::build_open_ok_response;
use crate::wire::build_seal_response;
use crate::wire::decode_request;
use crate::wire::failure_resp;
use crate::wire::gen_resp;
use crate::wire::open_ok_resp;
use crate::wire::seal_resp;
use crate::wire::spec_parse_request;
use crate::wire::Error;
use crate::wire::ReqView;
use crate::wire::Request;
use crate::wire::KEY_BYTES;
use crate::wire::MAC_BYTES;
use crate::wire::MAX_MSG_BYTES;

verus! {

/// Serves one framed request against the vault and returns the response
/// frame to send back: the full worker step between a receive and a send.
///
/// Whatever bytes arrive, the response is exactly what the protocol assigns
/// to their parse: the raw public key for generate-keypair, the sized
/// ciphertext for seal, a zero status and the sized plaintext for a
/// verified open, and a single negative status byte for every failure. Only
/// generate-keypair changes the vault, and a response never outgrows the
/// protocol's maximum message size.
pub fn handle_request(vault: &mut Vault, req: &[u8]) -> (resp: Vec<u8>)
    requires
        old(vault).wf(),
        req@.len() <= MAX_MSG_BYTES,
    ensures
        final(vault).wf(),
        1 <= resp@.len() <= MAX_MSG_BYTES,
        spec_parse_request(req@) matches Err(e) ==> resp@ == failure_resp(e) && final(vault)@
            == old(vault)@,
        spec_parse_request(req@) == Ok::<ReqView, Error>(ReqView::GenKeypair) ==> exists|
            sk: Seq<u8>,
        |
            sk.len() == KEY_BYTES && resp@ == gen_resp(pk_of(sk)) && resp@.len() == KEY_BYTES
                && final(vault)@ == old(vault)@.insert(pk_of(sk), sk),
        spec_parse_request(req@) matches Ok(q) ==> (q matches ReqView::Seal { m, n, pk, skh }
            ==> final(vault)@ == old(vault)@ && (old(vault)@.contains_key(skh) ==> exists|
            c: Seq<u8>,
        |
            c.len() == m.len() + MAC_BYTES && resp@ == seal_resp(c)) && (old(
            vault,
        )@.contains_key(skh) && (exists|sks: Seq<u8>| sks.len() == KEY_BYTES && pk == pk_of(
            sks,
        )) ==> resp@ == seal_resp(seal_bytes(m, n, pk, old(vault)@[skh]))) && (!old(
            vault,
        )@.contains_key(skh) ==> resp@ == failure_resp(Error::HandleNotFound))),
        spec_parse_request(req@) matches Ok(q) ==> (q matches ReqView::Open { c, n, pk, skh }
            ==> final(vault)@ == old(vault)@ && (!old(vault)@.contains_key(skh) ==> resp@
            == failure_resp(Error::HandleNotFound)) && (old(vault)@.contains_key(skh)
            ==> match open_bytes(c, n, pk, old(vault)@[skh]) {
            Some(m) => resp@ == open_ok_resp(m),
            None => resp@ == failure_resp(Error::AuthFailure),
        }) && (old(vault)@.contains_key(skh) ==> forall|m: Seq<u8>, sks: Seq<u8>|
            sks.len() == KEY_BYTES && pk == pk_of(sks) && c == #[trigger] seal_bytes(
                m,
                n,
                pk_of(old(vault)@[skh]),
                sks,
            ) ==> resp@ == open_ok_resp(m))),
{
    match decode_request(req) {
        Err(e) => build_failure_response(e),
        Ok(Request::GenKeypair) => {
            let pk = vault.gen_keypair();
            pk
        },
        Ok(Request::Seal { m, n, pk, skh }) => {
            match vault.seal(m.as_slice(), n.as_slice(), pk.as_slice(), skh.as_slice()) {
                Ok(c) => build_seal_response(c.as_slice()),
                Err(e) => build_failure_response(e),
            }
        },
        Ok(Request::Open { c, n, pk, skh }) => {
            match vault.open(c.as_slice(), n.as_slice(), pk.as_slice(), skh.as_slice()) {
                Ok(m) => build_open_ok_response(m.as_slice()),
                Err(e) => build_failure_response(e),
            }
        },
    }
}

/// The dispatch loop's two states: serving, or terminally broken.
#[derive(Clone, Copy, PartialEq, Eq, Structural, Debug)]
pub enum ServerState {
    /// Waiting for the next request datagram.
    AwaitingRequest,
    /// The channel is gone; the worker exits.
    Fatal,
}

/// What one attempt to receive a datagram came to, as the loop's transition
/// rule sees it.
#[derive(Clone, Copy, PartialEq, Eq, Structural, Debug)]
pub enum ReadEvent {
    /// A datagram arrived and was served.
    Served,
    /// The read yielded zero bytes: a transient anomaly, logged and ignored.
    EmptyRead,
    /// The read failed; `closed` says whether the error means the channel
    /// itself is gone.
    RecvError { closed: bool },
}

/// The loop's transition rule: the worker stays in `AwaitingRequest` through
/// served requests, empty reads and transient errors, and goes to `Fatal`
/// exactly when the channel is closed.
pub fn next_state(ev: ReadEvent) -> (s: ServerState)
    ensures
        s is Fatal <==> ev == (ReadEvent::RecvError { closed: true }),
{
    match ev {
        ReadEvent::RecvError { closed: true } => ServerState::Fatal,
        _ => ServerState::AwaitingRequest,
    }
}

} // verus!
