use crate::bytes::{bytes_result, copy_bytes, pair_option_view, pair_result_view};
use crate::error::{ExchangeError, Fault, Phase};
use crate::password::{is_usable, usable};
use crate::primitives::{registration_blind, registration_seal};
use crate::sizes::{
    CLIENT_REGISTRATION_STATE_LEN, EXPORT_KEY_LEN, REGISTRATION_RECORD_LEN,
    REGISTRATION_REQUEST_LEN, REGISTRATION_RESPONSE_LEN,
};
use vstd::prelude::*;

verus! {

/// What a client's registration holds, as values of specification.
pub struct RegistrationView {
    pub phase: Phase,
    /// The blinding state between `start` and `finish`; empty otherwise.
    pub state: Seq<u8>,
    /// The export key, once `finish` has succeeded.
    pub export_key: Option<Seq<u8>>,
}

/// The client's side of enrolling a password: `start` blinds the password
/// into a request, `finish` turns the server's response into the record that
/// the server stores. Each instance serves one enrollment.
pub struct Registration {
    phase: Phase,
    state: Vec<u8>,
    export_key: Option<Vec<u8>>,
}

impl View for Registration {
    type V = RegistrationView;

    closed spec fn view(&self) -> RegistrationView {
        RegistrationView {
            phase: self.phase,
            state: self.state@,
            export_key: match self.export_key {
                Some(k) => Some(k@),
                None => None,
            },
        }
    }
}

impl RegistrationView {
    /// A registration on which nothing was called yet.
    pub open spec fn initial() -> RegistrationView {
        RegistrationView { phase: Phase::Created, state: Seq::empty(), export_key: None }
    }

    /// The states that a registration can be in.
    pub open spec fn valid(self) -> bool {
        &&& self.phase is Created ==> self.state.len() == 0 && self.export_key is None
        &&& self.phase is Started ==> self.state.len() == CLIENT_REGISTRATION_STATE_LEN
            && self.export_key is None
        &&& self.phase is Finished ==> self.state.len() == 0
        &&& self.export_key matches Some(k) ==> k.len() == EXPORT_KEY_LEN
    }

    /// The state that a finished exchange leaves: nothing but the key, if
    /// there is one.
    pub open spec fn closed_with(export_key: Option<Seq<u8>>) -> RegistrationView {
        RegistrationView { phase: Phase::Finished, state: Seq::empty(), export_key }
    }

    /// The step of `start` that follows the blinding, given what it
    /// returned: the next state and the result. Out of sequence it is a
    /// `StateError`; a password that could not be blinded is `InvalidInput`;
    /// neither changes the state.
    pub open spec fn start_step(self, blinded: Option<(Seq<u8>, Seq<u8>)>) -> (
        RegistrationView,
        Result<Seq<u8>, ExchangeError>,
    ) {
        if !(self.phase is Created) {
            (self, Err(ExchangeError::StateError))
        } else {
            match blinded {
                Some((state, request)) => if state.len() == CLIENT_REGISTRATION_STATE_LEN
                    && request.len() == REGISTRATION_REQUEST_LEN {
                    (
                        RegistrationView { phase: Phase::Started, state, export_key: None },
                        Ok(request),
                    )
                } else {
                    (self, Err(ExchangeError::InvalidInput))
                },
                None => (self, Err(ExchangeError::InvalidInput)),
            }
        }
    }

    /// `finish`, given what the sealing returned: the next state and the
    /// result. Unless the registration is started it is a `StateError` and
    /// nothing changes; otherwise the registration is finished, whatever the
    /// outcome, and holds an export key only after success.
    pub open spec fn finish_step(self, sealed: Result<(Seq<u8>, Seq<u8>), Fault>) -> (
        RegistrationView,
        Result<Seq<u8>, ExchangeError>,
    ) {
        if !(self.phase is Started) {
            (self, Err(ExchangeError::StateError))
        } else {
            match sealed {
                Ok((record, key)) => if record.len() == REGISTRATION_RECORD_LEN && key.len()
                    == EXPORT_KEY_LEN {
                    (Self::closed_with(Some(key)), Ok(record))
                } else {
                    (Self::closed_with(None), Err(ExchangeError::MalformedInput))
                },
                Err(fault) => (Self::closed_with(None), Err(fault.as_error())),
            }
        }
    }
}

impl Registration {
    #[verifier::type_invariant]
    spec fn well_formed(self) -> bool {
        self@.valid()
    }

    /// A registration on which nothing was called yet.
    pub fn new() -> (out: Registration)
        ensures
            out@ == RegistrationView::initial(),
    {
        Registration { phase: Phase::Created, state: Vec::new(), export_key: None }
    }

    /// Blinds the password and returns the request for the server. Out of
    /// sequence it is a `StateError`, and an empty or overlong password is
    /// `InvalidInput`. The blinding is random; what follows it is
    /// `accept_start`, on whatever it gave.
    pub fn start(&mut self, password: &str) -> (out: Result<Vec<u8>, ExchangeError>)
        ensures
            final(self)@.valid(),
            !(old(self)@.phase is Created) ==> out == Err::<Vec<u8>, ExchangeError>(
                ExchangeError::StateError,
            ),
            old(self)@.phase is Created && !usable(password) ==> out == Err::<
                Vec<u8>,
                ExchangeError,
            >(ExchangeError::InvalidInput),
            old(self)@.phase is Created && out is Err ==> out == Err::<Vec<u8>, ExchangeError>(
                ExchangeError::InvalidInput,
            ),
            out is Err ==> final(self)@ == old(self)@,
            out matches Ok(request) ==> request@.len() == REGISTRATION_REQUEST_LEN
                && final(self)@.phase is Started && final(self)@.export_key is None,
    {
        proof {
            use_type_invariant(&*self);
        }
        match self.phase {
            Phase::Created => {},
            _ => {
                return Err(ExchangeError::StateError);
            },
        }
        if !is_usable(password) {
            return Err(ExchangeError::InvalidInput);
        }
        let blinded = registration_blind(password);
        self.accept_start(blinded)
    }

    /// The step of `start` that follows the blinding: takes what it returned
    /// and moves the state machine.
    pub fn accept_start(&mut self, blinded: Option<(Vec<u8>, Vec<u8>)>) -> (out: Result<
        Vec<u8>,
        ExchangeError,
    >)
        ensures
            final(self)@.valid(),
            (final(self)@, bytes_result(out)) == old(self)@.start_step(pair_option_view(blinded)),
    {
        proof {
            use_type_invariant(&*self);
        }
        match self.phase {
            Phase::Created => {},
            _ => {
                return Err(ExchangeError::StateError);
            },
        }
        match blinded {
            Some((state, request)) => {
                if state.len() == CLIENT_REGISTRATION_STATE_LEN && request.len()
                    == REGISTRATION_REQUEST_LEN {
                    *self = Registration { phase: Phase::Started, state, export_key: None };
                    Ok(request)
                } else {
                    Err(ExchangeError::InvalidInput)
                }
            },
            None => Err(ExchangeError::InvalidInput),
        }
    }

    /// Turns the server's response into the record for the server and keeps
    /// the export key. The password must be the one given to `start`; another
    /// one gives a record with which no login succeeds. The sealing is random;
    /// whatever it gives, the registration is finished afterwards.
    pub fn finish(&mut self, password: &str, response: Vec<u8>) -> (out: Result<
        Vec<u8>,
        ExchangeError,
    >)
        ensures
            final(self)@.valid(),
            !(old(self)@.phase is Started) ==> final(self)@ == old(self)@ && out == Err::<
                Vec<u8>,
                ExchangeError,
            >(ExchangeError::StateError),
            old(self)@.phase is Started ==> final(self)@.phase is Finished,
            old(self)@.phase is Started && out is Err ==> final(self)@.export_key is None && (out
                == Err::<Vec<u8>, ExchangeError>(ExchangeError::MalformedInput) || out == Err::<
                Vec<u8>,
                ExchangeError,
            >(ExchangeError::AuthenticationFailed)),
out matches Ok(record) ==> record@.len() == REGISTRATION_RECORD_LEN
                && final(self)@.export_key is Some,
            old(self)@.phase is Started && response@.len() != REGISTRATION_RESPONSE_LEN ==> out
                == Err::<Vec<u8>, ExchangeError>(ExchangeError::MalformedInput),
    {
        proof {
            use_type_invariant(&*self);
        }
        match self.phase {
            Phase::Started => {
                let sealed = registration_seal(&self.state, password, &response);
                self.accept_finish(sealed)
            },
            _ => Err(ExchangeError::StateError),
        }
    }

    /// The step of `finish` that follows the sealing: takes what it returned
    /// and moves the state machine.
    pub fn accept_finish(&mut self, sealed: Result<(Vec<u8>, Vec<u8>), Fault>) -> (out: Result<
        Vec<u8>,
        ExchangeError,
    >)
        ensures
            final(self)@.valid(),
            (final(self)@, bytes_result(out)) == old(self)@.finish_step(pair_result_view(sealed)),
    {
        proof {
            use_type_invariant(&*self);
        }
        match self.phase {
            Phase::Started => {},
            _ => {
                return Err(ExchangeError::StateError);
            },
        }
        match sealed {
            Ok((record, key)) => {
                if record.len() == REGISTRATION_RECORD_LEN && key.len() == EXPORT_KEY_LEN {
                    *self = Registration {
                        phase: Phase::Finished,
                        state: Vec::new(),
                        export_key: Some(key),
                    };
                    Ok(record)
                } else {
                    *self = Registration {
                        phase: Phase::Finished,
                        state: Vec::new(),
                        export_key: None,
                    };
                    Err(ExchangeError::MalformedInput)
                }
            },
            Err(fault) => {
                *self = Registration {
                    phase: Phase::Finished,
                    state: Vec::new(),
                    export_key: None,
                };
                Err(fault.to_error())
            },
        }
    }

    /// The export key that `finish` derived, or `StateError` where no
    /// `finish` has succeeded.
    pub fn get_export_key(&self) -> (out: Result<Vec<u8>, ExchangeError>)
        ensures
            match self@.export_key {
                Some(key) => bytes_result(out) == Ok::<Seq<u8>, ExchangeError>(key) && key.len()
                    == EXPORT_KEY_LEN,
                None => out == Err::<Vec<u8>, ExchangeError>(ExchangeError::StateError),
            },
    {
        proof {
            use_type_invariant(self);
        }
        match &self.export_key {
            Some(key) => Ok(copy_bytes(key)),
            None => Err(ExchangeError::StateError),
        }
    }
}

/// A registration serves once: after any `finish` on a started registration,
/// a second `finish` is a `StateError` and changes nothing, whatever the two
/// sealings returned.
pub proof fn finish_is_single_use(
    before: RegistrationView,
    first: Result<(Seq<u8>, Seq<u8>), Fault>,
    second: Result<(Seq<u8>, Seq<u8>), Fault>,
)
    requires
        before.phase is Started,
    ensures
        before.finish_step(first).0.finish_step(second) == (
            before.finish_step(first).0,
            Err::<Seq<u8>, ExchangeError>(ExchangeError::StateError),
        ),
{
}

/// Before `start` has succeeded, `finish` is a `StateError` and changes
/// nothing.
pub proof fn finish_needs_start(before: RegistrationView, sealed: Result<(Seq<u8>, Seq<u8>), Fault>)
    requires
        before.phase is Created,
    ensures
        before.finish_step(sealed) == (
            before,
            Err::<Seq<u8>, ExchangeError>(ExchangeError::StateError),
        ),
{
}

/// Every step keeps a registration in one of its valid states.
pub proof fn steps_keep_valid(
    before: RegistrationView,
    blinded: Option<(Seq<u8>, Seq<u8>)>,
    sealed: Result<(Seq<u8>, Seq<u8>), Fault>,
)
    requires
        before.valid(),
    ensures
        before.start_step(blinded).0.valid(),
        before.finish_step(sealed).0.valid(),
{
}

} // verus!
