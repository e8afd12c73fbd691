use crate::bytes::{bytes_result, copy_bytes, pair_option_view, triple_view};
use crate::error::{ExchangeError, Fault, Phase};
use crate::password::{is_usable, usable};
use crate::primitives::{login_blind, login_complete, login_completion};
use crate::sizes::{
    CLIENT_LOGIN_STATE_LEN, EXPORT_KEY_LEN, LOGIN_RECORD_LEN, LOGIN_REQUEST_LEN,
    LOGIN_RESPONSE_LEN, SESSION_KEY_LEN,
};
use vstd::prelude::*;

verus! {

/// What a client's login holds, as values of specification.
pub struct LoginView {
    pub phase: Phase,
    /// The blinding and key-exchange state between `start` and `finish`;
    /// empty otherwise.
    pub state: Seq<u8>,
    /// The session key and the export key, once `finish` has succeeded.
    pub keys: Option<(Seq<u8>, Seq<u8>)>,
}

/// The client's side of a login: `start` makes the request, `finish` opens
/// the server's response with the password and derives the keys. Each
/// instance serves one login.
pub struct Login {
    phase: Phase,
    state: Vec<u8>,
    keys: Option<(Vec<u8>, Vec<u8>)>,
}

impl View for Login {
    type V = LoginView;

    closed spec fn view(&self) -> LoginView {
        LoginView {
            phase: self.phase,
            state: self.state@,
            keys: match self.keys {
                Some(k) => Some((k.0@, k.1@)),
                None => None,
            },
        }
    }
}

impl LoginView {
    /// A login on which nothing was called yet.
    pub open spec fn initial() -> LoginView {
        LoginView { phase: Phase::Created, state: Seq::empty(), keys: None }
    }

    /// The states that a login can be in.
    pub open spec fn valid(self) -> bool {
        &&& self.phase is Created ==> self.state.len() == 0 && self.keys is None
        &&& self.phase is Started ==> self.state.len() == CLIENT_LOGIN_STATE_LEN
            && self.keys is None
        &&& self.phase is Finished ==> self.state.len() == 0
        &&& self.keys matches Some(k) ==> k.0.len() == SESSION_KEY_LEN && k.1.len()
            == EXPORT_KEY_LEN
    }

    /// The state that a finished login leaves: nothing but the keys, if
    /// there are any.
    pub open spec fn closed_with(keys: Option<(Seq<u8>, Seq<u8>)>) -> LoginView {
        LoginView { phase: Phase::Finished, state: Seq::empty(), keys }
    }

    /// The step of `start` that follows the blinding, given what it
    /// returned: the next state and the result. Out of sequence it is a
    /// `StateError`; a password that could not be blinded is `InvalidInput`;
    /// neither changes the state.
    pub open spec fn start_step(self, blinded: Option<(Seq<u8>, Seq<u8>)>) -> (
        LoginView,
        Result<Seq<u8>, ExchangeError>,
    ) {
        if !(self.phase is Created) {
            (self, Err(ExchangeError::StateError))
        } else {
            match blinded {
                Some((state, request)) => if state.len() == CLIENT_LOGIN_STATE_LEN
                    && request.len() == LOGIN_REQUEST_LEN {
                    (LoginView { phase: Phase::Started, state, keys: None }, Ok(request))
                } else {
                    (self, Err(ExchangeError::InvalidInput))
                },
                None => (self, Err(ExchangeError::InvalidInput)),
            }
        }
    }

    /// `finish`, given what the completion returned (the login record, the
    /// session key, the export key): the next state and the result. Unless
    /// the login is started it is a `StateError` and nothing changes;
    /// otherwise the login is finished, whatever the outcome, and holds keys
    /// only after success. A completion whose parts have not their fixed
    /// lengths counts as a failed authentication.
    pub open spec fn finish_step(self, completed: Result<(Seq<u8>, Seq<u8>, Seq<u8>), Fault>) -> (
        LoginView,
        Result<Seq<u8>, ExchangeError>,
    ) {
        if !(self.phase is Started) {
            (self, Err(ExchangeError::StateError))
        } else {
            match completed {
                Ok((record, session_key, export_key)) => if record.len() == LOGIN_RECORD_LEN
                    && session_key.len() == SESSION_KEY_LEN && export_key.len()
                    == EXPORT_KEY_LEN {
                    (Self::closed_with(Some((session_key, export_key))), Ok(record))
                } else {
                    (Self::closed_with(None), Err(ExchangeError::AuthenticationFailed))
                },
                Err(fault) => (Self::closed_with(None), Err(fault.as_error())),
            }
        }
    }
}

impl Login {
    #[verifier::type_invariant]
    spec fn well_formed(self) -> bool {
        self@.valid()
    }

    /// A login on which nothing was called yet.
    pub fn new() -> (out: Login)
        ensures
            out@ == LoginView::initial(),
    {
        Login { phase: Phase::Created, state: Vec::new(), keys: None }
    }

    /// Blinds the password, makes the first key-exchange message and returns
    /// the request for the server. Out of sequence it is a `StateError`, and
    /// an empty or overlong password is `InvalidInput`. Both parts are random; what
    /// follows them is `accept_start`, on whatever they gave.
    pub fn start(&mut self, password: &str) -> (out: Result<Vec<u8>, ExchangeError>)
        ensures
            final(self)@.valid(),
            !(old(self)@.phase is Created) ==> out == Err::<Vec<u8>, ExchangeError>(
                ExchangeError::StateError,
            ),
            old(self)@.phase is Created && !usable(password) ==> out == Err::<
                Vec<u8>,
                ExchangeError,
            >(ExchangeError::InvalidInput),
            old(self)@.phase is Created && out is Err ==> out == Err::<Vec<u8>, ExchangeError>(
                ExchangeError::InvalidInput,
            ),
            out is Err ==> final(self)@ == old(self)@,
            out matches Ok(request) ==> request@.len() == LOGIN_REQUEST_LEN
                && final(self)@.phase is Started && final(self)@.keys is None,
    {
        proof {
            use_type_invariant(&*self);
        }
        match self.phase {
            Phase::Created => {},
            _ => {
                return Err(ExchangeError::StateError);
            },
        }
        if !is_usable(password) {
            return Err(ExchangeError::InvalidInput);
        }
        let blinded = login_blind(password);
        self.accept_start(blinded)
    }

    /// The step of `start` that follows the blinding: takes what it returned
    /// and moves the state machine.
    pub fn accept_start(&mut self, blinded: Option<(Vec<u8>, Vec<u8>)>) -> (out: Result<
        Vec<u8>,
        ExchangeError,
    >)
        ensures
            final(self)@.valid(),
            (final(self)@, bytes_result(out)) == old(self)@.start_step(pair_option_view(blinded)),
    {
        proof {
            use_type_invariant(&*self);
        }
        match self.phase {
            Phase::Created => {},
            _ => {
                return Err(ExchangeError::StateError);
            },
        }
        match blinded {
            Some((state, request)) => {
                if state.len() == CLIENT_LOGIN_STATE_LEN && request.len() == LOGIN_REQUEST_LEN {
                    *self = Login { phase: Phase::Started, state, keys: None };
                    Ok(request)
                } else {
                    Err(ExchangeError::InvalidInput)
                }
            },
            None => Err(ExchangeError::InvalidInput),
        }
    }

    /// Opens the server's response with the password, completes the key
    /// exchange and returns the login record for the server. A wrong password
    /// or a tampered response shows here and nowhere else, as
    /// `AuthenticationFailed`; a response that does not decode is
    /// `MalformedInput`. The completion is a function of the state that
    /// `start` left, the password and the response.
    pub fn finish(&mut self, password: &str, response: Vec<u8>) -> (out: Result<
        Vec<u8>,
        ExchangeError,
    >)
        ensures
            final(self)@.valid(),
            (final(self)@, bytes_result(out)) == old(self)@.finish_step(
                login_completion(old(self)@.state, password@, response@),
            ),
            out matches Ok(record) ==> record@.len() == LOGIN_RECORD_LEN,
            old(self)@.phase is Started && response@.len() != LOGIN_RESPONSE_LEN ==> out == Err::<
                Vec<u8>,
                ExchangeError,
            >(ExchangeError::MalformedInput),
    {
        proof {
            use_type_invariant(&*self);
        }
        match self.phase {
            Phase::Started => {
                let completed = login_complete(&self.state, password, &response);
                self.accept_finish(completed)
            },
            _ => Err(ExchangeError::StateError),
        }
    }

    /// The step of `finish` that follows the completion: takes what it
    /// returned and moves the state machine.
    pub fn accept_finish(&mut self, completed: Result<(Vec<u8>, Vec<u8>, Vec<u8>), Fault>) -> (out:
        Result<Vec<u8>, ExchangeError>)
        ensures
            final(self)@.valid(),
            (final(self)@, bytes_result(out)) == old(self)@.finish_step(triple_view(completed)),
    {
        proof {
            use_type_invariant(&*self);
        }
        match self.phase {
            Phase::Started => {},
            _ => {
                return Err(ExchangeError::StateError);
            },
        }
        match completed {
            Ok((record, session_key, export_key)) => {
                if record.len() == LOGIN_RECORD_LEN && session_key.len() == SESSION_KEY_LEN
                    && export_key.len() == EXPORT_KEY_LEN {
                    *self = Login {
                        phase: Phase::Finished,
                        state: Vec::new(),
                        keys: Some((session_key, export_key)),
                    };
                    Ok(record)
                } else {
                    *self = Login { phase: Phase::Finished, state: Vec::new(), keys: None };
                    Err(ExchangeError::AuthenticationFailed)
                }
            },
            Err(fault) => {
                *self = Login { phase: Phase::Finished, state: Vec::new(), keys: None };
                Err(fault.to_error())
            },
        }
    }

    /// The session key that `finish` derived, or `StateError` where no
    /// `finish` has succeeded.
    pub fn get_session_key(&self) -> (out: Result<Vec<u8>, ExchangeError>)
        ensures
            match self@.keys {
                Some(keys) => bytes_result(out) == Ok::<Seq<u8>, ExchangeError>(keys.0)
                    && keys.0.len() == SESSION_KEY_LEN,
                None => out == Err::<Vec<u8>, ExchangeError>(ExchangeError::StateError),
            },
    {
        proof {
            use_type_invariant(self);
        }
        match &self.keys {
            Some(keys) => Ok(copy_bytes(&keys.0)),
            None => Err(ExchangeError::StateError),
        }
    }

    /// The export key that `finish` derived, or `StateError` where no
    /// `finish` has succeeded.
    pub fn get_export_key(&self) -> (out: Result<Vec<u8>, ExchangeError>)
        ensures
            match self@.keys {
                Some(keys) => bytes_result(out) == Ok::<Seq<u8>, ExchangeError>(keys.1)
                    && keys.1.len() == EXPORT_KEY_LEN,
                None => out == Err::<Vec<u8>, ExchangeError>(ExchangeError::StateError),
            },
    {
        proof {
            use_type_invariant(self);
        }
        match &self.keys {
            Some(keys) => Ok(copy_bytes(&keys.1)),
            None => Err(ExchangeError::StateError),
        }
    }
}

/// A login serves once: after any `finish` on a started login, a second
/// `finish` is a `StateError` and changes nothing, whatever the two
/// completions returned.
pub proof fn finish_is_single_use(
    before: LoginView,
    first: Result<(Seq<u8>, Seq<u8>, Seq<u8>), Fault>,
    second: Result<(Seq<u8>, Seq<u8>, Seq<u8>), Fault>,
)
    requires
        before.phase is Started,
    ensures
        before.finish_step(first).0.finish_step(second) == (
            before.finish_step(first).0,
            Err::<Seq<u8>, ExchangeError>(ExchangeError::StateError),
        ),
{
}

/// Before `start` has succeeded, `finish` is a `StateError` and changes
/// nothing.
pub proof fn finish_needs_start(
    before: LoginView,
    completed: Result<(Seq<u8>, Seq<u8>, Seq<u8>), Fault>,
)
    requires
        before.phase is Created,
    ensures
        before.finish_step(completed) == (
            before,
            Err::<Seq<u8>, ExchangeError>(ExchangeError::StateError),
        ),
{
}

/// No key without success: a `finish` that fails leaves no session key and
/// no export key behind, and one that succeeds leaves exactly the keys that
/// the completion returned.
pub proof fn keys_only_after_success(
    before: LoginView,
    completed: Result<(Seq<u8>, Seq<u8>, Seq<u8>), Fault>,
)
    requires
        before.valid(),
    ensures
        before.finish_step(completed).0.valid(),
        before.phase is Started && before.finish_step(completed).1 is Err
            ==> before.finish_step(completed).0.keys is None,
        before.finish_step(completed).1 is Ok ==> completed is Ok && before.finish_step(
            completed,
        ).0.keys == Some((completed->Ok_0.1, completed->Ok_0.2)),
{
}

} // verus!
