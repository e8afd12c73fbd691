//! The calls into `opaque_ke`, each from byte strings to byte strings. Nothing
//! here is proved: every contract in this file is taken on trust from the
//! crate's source, and the rest of the library is proved against them.

use crate::bytes::{option_view, single_view, triple_view};
use crate::error::Fault;
use crate::sizes::{
    CLIENT_LOGIN_STATE_LEN, CLIENT_REGISTRATION_STATE_LEN, EXPORT_KEY_LEN, GROUP_ELEMENT_LEN,
    LOGIN_RECORD_LEN, LOGIN_REQUEST_LEN, LOGIN_RESPONSE_LEN, REGISTRATION_RECORD_LEN,
    REGISTRATION_REQUEST_LEN, REGISTRATION_RESPONSE_LEN, SERVER_LOGIN_STATE_LEN,
    SERVER_SETUP_LEN, SESSION_KEY_LEN,
};
use crate::suite::Suite;
use opaque_ke::{
    ClientLogin, ClientLoginFinishParameters, ClientRegistration,
    ClientRegistrationFinishParameters, CredentialFinalization, CredentialRequest,
    CredentialResponse, RegistrationRequest, RegistrationResponse, RegistrationUpload,
    ServerLogin, ServerLoginStartParameters, ServerRegistration,
};
use rand::rngs::OsRng;
use vstd::prelude::*;

verus! {

/// Whether `opaque_ke::ServerSetup::deserialize` accepts these bytes.
pub uninterp spec fn setup_is_valid(bytes: Seq<u8>) -> bool;

/// What `opaque_ke::ServerRegistration::start` answers to a request, as
/// bytes; `None` where it, or the decoding of its arguments, fails.
pub uninterp spec fn registration_evaluation(
    setup: Seq<u8>,
    username: Seq<u8>,
    request: Seq<u8>,
) -> Option<Seq<u8>>;

/// The password file that `opaque_ke::ServerRegistration::finish` makes of a
/// record, as bytes; `None` where the record does not decode.
pub uninterp spec fn password_file_of(record: Seq<u8>) -> Option<Seq<u8>>;

/// What `opaque_ke::ClientLogin::finish` makes of a client state, a password
/// and a response: the login record, the session key and the export key.
pub uninterp spec fn login_completion(
    state: Seq<u8>,
    password: Seq<char>,
    response: Seq<u8>,
) -> Result<(Seq<u8>, Seq<u8>, Seq<u8>), Fault>;

/// That a login response carries the evaluation that registration would
/// have given: both begin with the oblivious function, under the key for
/// this username, on the element that the request begins with.
pub open spec fn evaluated_as_in_registration(
    setup: Seq<u8>,
    username: Seq<u8>,
    request: Seq<u8>,
    response: Seq<u8>,
) -> bool {
    &&& request.len() >= GROUP_ELEMENT_LEN
    &&& response.len() >= GROUP_ELEMENT_LEN
    &&& registration_evaluation(setup, username, request.subrange(0, GROUP_ELEMENT_LEN as int))
        matches Some(r) && r.len() >= GROUP_ELEMENT_LEN && r.subrange(0, GROUP_ELEMENT_LEN as int)
        == response.subrange(0, GROUP_ELEMENT_LEN as int)
}

/// Whether `opaque_ke::ServerLogin::finish` accepts a login record for a
/// server state: whether the record is the authentication code that the
/// state expects.
pub uninterp spec fn login_record_matches(state: Seq<u8>, record: Seq<u8>) -> bool;

/// What `opaque_ke::ServerLogin::finish` makes of a serialized server state
/// and login record. A record is any string of a record's length and a state
/// any string of a state's length; the session key is the last third of the
/// state, and comes out where the record matches.
pub open spec fn login_confirmation(state: Seq<u8>, record: Seq<u8>) -> Result<Seq<u8>, Fault> {
    if record.len() != LOGIN_RECORD_LEN {
        Err(Fault::Malformed)
    } else if state.len() != SERVER_LOGIN_STATE_LEN || !login_record_matches(state, record) {
        Err(Fault::Rejected)
    } else {
        Ok(state.subrange(SERVER_LOGIN_STATE_LEN - SESSION_KEY_LEN, SERVER_LOGIN_STATE_LEN as int))
    }
}

/// `opaque_ke::ServerSetup::new` with the operating system's random source,
/// then `serialize`. Claimed: the bytes are as many as the setup's fixed
/// layout has, and `deserialize` accepts them, since `serialize` writes the
/// seed and the two private keys in the order in which `deserialize` reads
/// them. Nothing is claimed of their values.
#[verifier::external_body]
pub(crate) fn generate_setup() -> (out: Vec<u8>)
    ensures
        out@.len() == SERVER_SETUP_LEN,
        setup_is_valid(out@),
{
    let mut rng = OsRng;
    opaque_ke::ServerSetup::<Suite>::new(&mut rng).serialize().to_vec()
}

/// `opaque_ke::ServerSetup::deserialize`, asked only whether it succeeds.
/// Claimed: the answer is a function of the bytes, and it is no unless their
/// number is that of the fixed layout, which `deserialize` checks first.
#[verifier::external_body]
pub(crate) fn setup_decodes(bytes: &Vec<u8>) -> (ok: bool)
    ensures
        ok == setup_is_valid(bytes@),
        ok ==> bytes@.len() == SERVER_SETUP_LEN,
{
    opaque_ke::ServerSetup::<Suite>::deserialize(bytes).is_ok()
}

/// `opaque_ke::ClientRegistration::start` with the operating system's random
/// source: the client's state and the request, both serialized. Claimed: only
/// their lengths, which the types of the two `serialize` functions fix.
#[verifier::external_body]
pub(crate) fn registration_blind(password: &str) -> (out: Option<(Vec<u8>, Vec<u8>)>)
    ensures
        out matches Some(p) ==> p.0@.len() == CLIENT_REGISTRATION_STATE_LEN && p.1@.len()
            == REGISTRATION_REQUEST_LEN,
{
    let mut rng = OsRng;
    match ClientRegistration::<Suite>::start(&mut rng, password.as_bytes()) {
        Ok(r) => Some((r.state.serialize().to_vec(), r.message.serialize().to_vec())),
        Err(_) => None,
    }
}

/// `opaque_ke::ClientRegistration::finish` on a serialized state, with the
/// operating system's random source and default parameters: the record and
/// the export key. A response that `RegistrationResponse::deserialize`
/// refuses gives `Malformed`, any other failure `Rejected`. Claimed: the two
/// lengths, fixed by the types of what `finish` returns; and that a response
/// of another length than a response's is refused, which is the first thing
/// that its decoding checks.
#[verifier::external_body]
pub(crate) fn registration_seal(state: &Vec<u8>, password: &str, response: &Vec<u8>) -> (out:
    Result<(Vec<u8>, Vec<u8>), Fault>)
    ensures
        out matches Ok(p) ==> p.0@.len() == REGISTRATION_RECORD_LEN && p.1@.len()
            == EXPORT_KEY_LEN,
        response@.len() != REGISTRATION_RESPONSE_LEN ==> out is Err && out->Err_0
            == Fault::Malformed,
{
    let Ok(message) = RegistrationResponse::<Suite>::deserialize(response) else {
        return Err(Fault::Malformed);
    };
    let Ok(state) = ClientRegistration::<Suite>::deserialize(state) else {
        return Err(Fault::Rejected);
    };
    let params = ClientRegistrationFinishParameters::default();
    match state.finish(&mut OsRng, password.as_bytes(), message, params) {
        Ok(r) => Ok((r.message.serialize().to_vec(), r.export_key.to_vec())),
        Err(_) => Err(Fault::Rejected),
    }
}

/// `opaque_ke::ServerRegistration::start` on a serialized setup and request:
/// the serialized response. It draws no randomness, so the result is named.
/// Claimed besides: the length of a response, fixed by the type of
/// `RegistrationResponse::serialize`.
#[verifier::external_body]
pub(crate) fn registration_evaluate(setup: &Vec<u8>, username: &Vec<u8>, request: &Vec<u8>) -> (out:
    Option<Vec<u8>>)
    ensures
        option_view(out) == registration_evaluation(setup@, username@, request@),
        out matches Some(r) ==> r@.len() == REGISTRATION_RESPONSE_LEN,
{
    let setup = opaque_ke::ServerSetup::<Suite>::deserialize(setup).ok()?;
    let message = RegistrationRequest::<Suite>::deserialize(request).ok()?;
    let r = ServerRegistration::<Suite>::start(&setup, message, username).ok()?;
    Some(r.message.serialize().to_vec())
}

/// `opaque_ke::RegistrationUpload::deserialize`, then
/// `ServerRegistration::finish` and `serialize`. Claimed: the result is a
/// function of the record; a file has the record's fixed length; and it is
/// the record byte for byte, because `finish` only wraps the decoded upload
/// and `serialize` writes the public key, the masking key and the envelope
/// in the order and encoding in which `deserialize` read them.
#[verifier::external_body]
pub(crate) fn record_to_file(record: &Vec<u8>) -> (out: Option<Vec<u8>>)
    ensures
        option_view(out) == password_file_of(record@),
        out matches Some(f) ==> f@ == record@ && f@.len() == REGISTRATION_RECORD_LEN,
{
    match RegistrationUpload::<Suite>::deserialize(record) {
        Ok(upload) => Some(ServerRegistration::<Suite>::finish(upload).serialize().to_vec()),
        Err(_) => None,
    }
}

/// `opaque_ke::ClientLogin::start` with the operating system's random source:
/// the client's state and the request, both serialized. Claimed: only their
/// lengths.
#[verifier::external_body]
pub(crate) fn login_blind(password: &str) -> (out: Option<(Vec<u8>, Vec<u8>)>)
    ensures
        out matches Some(p) ==> p.0@.len() == CLIENT_LOGIN_STATE_LEN && p.1@.len()
            == LOGIN_REQUEST_LEN,
{
    let mut rng = OsRng;
    match ClientLogin::<Suite>::start(&mut rng, password.as_bytes()) {
        Ok(r) => Some((r.state.serialize().to_vec(), r.message.serialize().to_vec())),
        Err(_) => None,
    }
}

/// `opaque_ke::ClientLogin::finish` on a serialized state, with default
/// parameters: the login record, the session key and the export key. A
/// response that `CredentialResponse::deserialize` refuses gives `Malformed`,
/// any other failure `Rejected`. It draws no randomness, so the result is
/// named. Claimed besides: the three lengths; and that a response of another
/// length than a response's is refused, since its decoding asks for at least
/// that many bytes and for exactly as many as the last part has.
#[verifier::external_body]
pub(crate) fn login_complete(state: &Vec<u8>, password: &str, response: &Vec<u8>) -> (out: Result<
    (Vec<u8>, Vec<u8>, Vec<u8>),
    Fault,
>)
    ensures
        triple_view(out) == login_completion(state@, password@, response@),
        out matches Ok(t) ==> t.0@.len() == LOGIN_RECORD_LEN && t.1@.len() == SESSION_KEY_LEN
            && t.2@.len() == EXPORT_KEY_LEN,
        response@.len() != LOGIN_RESPONSE_LEN ==> out is Err && out->Err_0 == Fault::Malformed,
{
    let Ok(message) = CredentialResponse::<Suite>::deserialize(response) else {
        return Err(Fault::Malformed);
    };
    let Ok(state) = ClientLogin::<Suite>::deserialize(state) else {
        return Err(Fault::Rejected);
    };
    let params = ClientLoginFinishParameters::default();
    match state.finish(password.as_bytes(), message, params) {
        Ok(r) => Ok((r.message.serialize().to_vec(), r.session_key.to_vec(), r.export_key.to_vec())),
        Err(_) => Err(Fault::Rejected),
    }
}

/// `opaque_ke::ServerLogin::start` on a serialized setup, password file and
/// request, with the operating system's random source and default
/// parameters: the server's state and the response, both serialized. `None`
/// where an argument does not decode or `start` fails. Claimed: the two
/// lengths, the same with and without a password file; and that the response
/// begins with the element that `ServerRegistration::start` answers with for
/// the request's first element, since both derive the key from the seed and
/// the username alike, evaluate the same element with it, and write the
/// result first. Nothing is claimed of the rest, which is random.
#[verifier::external_body]
pub(crate) fn login_answer(
    setup: &Vec<u8>,
    password_file: &Option<Vec<u8>>,
    username: &Vec<u8>,
    request: &Vec<u8>,
) -> (out: Option<(Vec<u8>, Vec<u8>)>)
    ensures
        out matches Some(p) ==> p.0@.len() == SERVER_LOGIN_STATE_LEN && p.1@.len()
            == LOGIN_RESPONSE_LEN,
        out matches Some(p) ==> evaluated_as_in_registration(
            setup@,
            username@,
            request@,
            p.1@,
        ),
{
    let setup = opaque_ke::ServerSetup::<Suite>::deserialize(setup).ok()?;
    let message = CredentialRequest::<Suite>::deserialize(request).ok()?;
    let file = match password_file {
        Some(f) => Some(ServerRegistration::<Suite>::deserialize(f).ok()?),
        None => None,
    };
    let params = ServerLoginStartParameters::default();
    let r = ServerLogin::start(&mut OsRng, &setup, file, message, username, params).ok()?;
    Some((r.state.serialize().to_vec(), r.message.serialize().to_vec()))
}

/// `opaque_ke::ServerLogin::finish` on a serialized state and login record:
/// the session key. A record that `CredentialFinalization::deserialize`
/// refuses gives `Malformed`, any other failure `Rejected`. Claimed, as the
/// source shows it: both decodings check a length and nothing else; the
/// state is a key for the authentication code, the transcript's hash and the
/// session key, in this order and of equal length; `finish` compares the
/// record with the code over the hash, and where they agree returns the
/// stored session key. Whether they agree is named, not stated.
#[verifier::external_body]
pub(crate) fn login_confirm(state: &Vec<u8>, record: &Vec<u8>) -> (out: Result<Vec<u8>, Fault>)
    ensures
        single_view(out) == login_confirmation(state@, record@),
        (out is Ok) == (record@.len() == LOGIN_RECORD_LEN && state@.len()
            == SERVER_LOGIN_STATE_LEN && login_record_matches(state@, record@)),
{
    let Ok(message) = CredentialFinalization::<Suite>::deserialize(record) else {
        return Err(Fault::Malformed);
    };
    let Ok(state) = ServerLogin::<Suite>::deserialize(state) else {
        return Err(Fault::Rejected);
    };
    match state.finish(message) {
        Ok(r) => Ok(r.session_key.to_vec()),
        Err(_) => Err(Fault::Rejected),
    }
}

/// `opaque_ke::ServerLogin::deserialize`, asked only whether it succeeds.
/// Claimed: it succeeds exactly on the strings of a state's length, since
/// the decoding checks the length and then only cuts the string in three.
#[verifier::external_body]
pub(crate) fn login_state_decodes(bytes: &Vec<u8>) -> (ok: bool)
    ensures
        ok == (bytes@.len() == SERVER_LOGIN_STATE_LEN),
{
    ServerLogin::<Suite>::deserialize(bytes).is_ok()
}

} // verus!
