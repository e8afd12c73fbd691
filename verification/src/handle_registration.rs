use crate::bytes::{bytes_result, option_view};
use crate::error::ExchangeError;
use crate::primitives::{
    password_file_of, record_to_file, registration_evaluate, registration_evaluation,
};
use crate::server_setup::ServerSetup;
use crate::sizes::{REGISTRATION_RECORD_LEN, REGISTRATION_RESPONSE_LEN};
use vstd::prelude::*;

verus! {

/// The server's side of enrolling a password. It keeps nothing between calls
/// but the server's long-term material.
pub struct HandleRegistration {
    setup: ServerSetup,
}

impl View for HandleRegistration {
    type V = Seq<u8>;

    /// The long-term material that this handler answers with.
    closed spec fn view(&self) -> Seq<u8> {
        self.setup@
    }
}

/// The answer to a registration request, given what the evaluation
/// returned: the response where it has a response's length, else
/// `MalformedInput`.
pub open spec fn response_of(evaluated: Option<Seq<u8>>) -> Result<Seq<u8>, ExchangeError> {
    match evaluated {
        Some(response) => if response.len() == REGISTRATION_RESPONSE_LEN {
            Ok(response)
        } else {
            Err(ExchangeError::MalformedInput)
        },
        None => Err(ExchangeError::MalformedInput),
    }
}

/// The password file for a record, given what its validation returned: the
/// file where it has a record's length, else `MalformedInput`.
pub open spec fn file_of(validated: Option<Seq<u8>>) -> Result<Seq<u8>, ExchangeError> {
    match validated {
        Some(file) => if file.len() == REGISTRATION_RECORD_LEN {
            Ok(file)
        } else {
            Err(ExchangeError::MalformedInput)
        },
        None => Err(ExchangeError::MalformedInput),
    }
}

/// The step of `start` that follows the evaluation.
pub fn response_from(evaluated: Option<Vec<u8>>) -> (out: Result<Vec<u8>, ExchangeError>)
    ensures
        bytes_result(out) == response_of(option_view(evaluated)),
{
    match evaluated {
        Some(response) => {
            if response.len() == REGISTRATION_RESPONSE_LEN {
                Ok(response)
            } else {
                Err(ExchangeError::MalformedInput)
            }
        },
        None => Err(ExchangeError::MalformedInput),
    }
}

/// The step of `finish` that follows the validation.
pub fn file_from(validated: Option<Vec<u8>>) -> (out: Result<Vec<u8>, ExchangeError>)
    ensures
        bytes_result(out) == file_of(option_view(validated)),
{
    match validated {
        Some(file) => {
            if file.len() == REGISTRATION_RECORD_LEN {
                Ok(file)
            } else {
                Err(ExchangeError::MalformedInput)
            }
        },
        None => Err(ExchangeError::MalformedInput),
    }
}

impl HandleRegistration {
    /// A handler that answers with this long-term material.
    pub fn new(setup: &ServerSetup) -> (out: HandleRegistration)
        ensures
            out@ == setup@,
    {
        HandleRegistration { setup: setup.duplicate() }
    }

    /// Evaluates the oblivious function on the client's blinded element,
    /// under a key bound to the username, and returns the response. The
    /// evaluation is a function of the material, the username and the
    /// request; a request that it refuses is `MalformedInput`.
    pub fn start(&self, username: Vec<u8>, request: Vec<u8>) -> (out: Result<
        Vec<u8>,
        ExchangeError,
    >)
        ensures
            bytes_result(out) == response_of(
                registration_evaluation(self@, username@, request@),
            ),
            out matches Ok(response) ==> response@.len() == REGISTRATION_RESPONSE_LEN,
    {
        let setup = self.setup.serialize();
        response_from(registration_evaluate(&setup, &username, &request))
    }

    /// Validates the client's record and returns the password file to store:
    /// the record itself, byte for byte. A record that does not decode is
    /// `MalformedInput`.
    pub fn finish(&self, record: Vec<u8>) -> (out: Result<Vec<u8>, ExchangeError>)
        ensures
            bytes_result(out) == file_of(password_file_of(record@)),
            out matches Ok(file) ==> file@ == record@ && file@.len() == REGISTRATION_RECORD_LEN,
    {
        file_from(record_to_file(&record))
    }
}

} // verus!
