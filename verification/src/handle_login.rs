use crate::bytes::{bytes_result, copy_bytes, pair_option_view, single_view};
use crate::error::{ExchangeError, Fault, Phase};
use crate::primitives::{
    evaluated_as_in_registration, login_answer, login_confirm, login_confirmation, login_record_matches, login_state_decodes,
};
use crate::server_setup::ServerSetup;
use crate::sizes::{
    LOGIN_RECORD_LEN, LOGIN_RESPONSE_LEN, SERVER_LOGIN_STATE_LEN, SESSION_KEY_LEN,
};
use vstd::prelude::*;

verus! {

/// What a server's login holds, as values of specification.
pub struct HandleLoginView {
    /// The long-term material that the handler was made with.
    pub setup: Seq<u8>,
    pub phase: Phase,
    /// The continuation between `start` and `finish`: the expected closing
    /// message and the session key to hand out for it; empty otherwise.
    pub state: Seq<u8>,
}

/// The server's side of a login. Between `start` and `finish` its state can
/// be serialized, and `finish` can then run on another instance made with
/// `deserialize`.
pub struct HandleLogin {
    setup: ServerSetup,
    phase: Phase,
    state: Vec<u8>,
}

impl View for HandleLogin {
    type V = HandleLoginView;

    closed spec fn view(&self) -> HandleLoginView {
        HandleLoginView { setup: self.setup@, phase: self.phase, state: self.state@ }
    }
}

impl HandleLoginView {
    /// A handler on which nothing was called yet.
    pub open spec fn initial(setup: Seq<u8>) -> HandleLoginView {
        HandleLoginView { setup, phase: Phase::Created, state: Seq::empty() }
    }

    /// The states that a handler can be in.
    pub open spec fn valid(self) -> bool {
        self.phase is Started ==> self.state.len() == SERVER_LOGIN_STATE_LEN
    }

    /// The state that a finished login leaves: no continuation.
    pub open spec fn closed(self) -> HandleLoginView {
        HandleLoginView { setup: self.setup, phase: Phase::Finished, state: Seq::empty() }
    }

    /// `start`, given what the answering returned (the continuation and the
    /// response): the next state and the result. Out of sequence it is a
    /// `StateError`; a request or password file that cannot be answered is
    /// `MalformedInput`; neither changes the state. Whether a password file
    /// was given does not enter.
    pub open spec fn start_step(self, answered: Option<(Seq<u8>, Seq<u8>)>) -> (
        HandleLoginView,
        Result<Seq<u8>, ExchangeError>,
    ) {
        if !(self.phase is Created) {
            (self, Err(ExchangeError::StateError))
        } else {
            match answered {
                Some((state, response)) => if state.len() == SERVER_LOGIN_STATE_LEN
                    && response.len() == LOGIN_RESPONSE_LEN {
                    (
                        HandleLoginView { setup: self.setup, phase: Phase::Started, state },
                        Ok(response),
                    )
                } else {
                    (self, Err(ExchangeError::MalformedInput))
                },
                None => (self, Err(ExchangeError::MalformedInput)),
            }
        }
    }

    /// `serialize`: the continuation of a started login, else `StateError`.
    pub open spec fn serialized(self) -> Result<Seq<u8>, ExchangeError> {
        if self.phase is Started {
            Ok(self.state)
        } else {
            Err(ExchangeError::StateError)
        }
    }

    /// `deserialize`: a started login with these bytes as its continuation,
    /// or `MalformedInput` where they have not a continuation's length.
    pub open spec fn restored(bytes: Seq<u8>, setup: Seq<u8>) -> Result<
        HandleLoginView,
        ExchangeError,
    > {
        if bytes.len() == SERVER_LOGIN_STATE_LEN {
            Ok(HandleLoginView { setup, phase: Phase::Started, state: bytes })
        } else {
            Err(ExchangeError::MalformedInput)
        }
    }

    /// `finish`, given what the confirmation returned: the next state and
    /// the result. Unless the login is started it is a `StateError` and
    /// nothing changes; otherwise the login is finished, whatever the
    /// outcome, and the session key comes out only where the confirmation
    /// succeeded. A key that has not its fixed length counts as a failed
    /// authentication.
    pub open spec fn finish_step(self, confirmed: Result<Seq<u8>, Fault>) -> (
        HandleLoginView,
        Result<Seq<u8>, ExchangeError>,
    ) {
        if !(self.phase is Started) {
            (self, Err(ExchangeError::StateError))
        } else {
            match confirmed {
                Ok(key) => if key.len() == SESSION_KEY_LEN {
                    (self.closed(), Ok(key))
                } else {
                    (self.closed(), Err(ExchangeError::AuthenticationFailed))
                },
                Err(fault) => (self.closed(), Err(fault.as_error())),
            }
        }
    }

    /// `finish` on a login record: `finish_step` on what the confirmation
    /// makes of the continuation and the record.
    pub open spec fn finished_with(self, record: Seq<u8>) -> (
        HandleLoginView,
        Result<Seq<u8>, ExchangeError>,
    ) {
        self.finish_step(login_confirmation(self.state, record))
    }
}

/// The outcome of `deserialize` seen as a value of specification.
pub open spec fn handler_result(r: Result<HandleLogin, ExchangeError>) -> Result<
    HandleLoginView,
    ExchangeError,
> {
    match r {
        Ok(h) => Ok(h@),
        Err(e) => Err(e),
    }
}

impl HandleLogin {
    #[verifier::type_invariant]
    spec fn well_formed(self) -> bool {
        self@.valid()
    }

    /// A handler that answers with this long-term material.
    pub fn new(setup: &ServerSetup) -> (out: HandleLogin)
        ensures
            out@ == HandleLoginView::initial(setup@),
    {
        HandleLogin { setup: setup.duplicate(), phase: Phase::Created, state: Vec::new() }
    }

    /// Answers a login request. Without a password file the answer is made
    /// from stand-in material, and has the same length and shape as one made
    /// from a file. Either way the oblivious function is evaluated as in
    /// registration. The rest of the answer is random; what follows the
    /// answering is `accept_start`, on whatever it gave.
    pub fn start(&mut self, password_file: Option<Vec<u8>>, username: Vec<u8>, request: Vec<u8>) -> (out:
        Result<Vec<u8>, ExchangeError>)
        ensures
            final(self)@.valid(),
            final(self)@.setup == old(self)@.setup,
            !(old(self)@.phase is Created) ==> out == Err::<Vec<u8>, ExchangeError>(
                ExchangeError::StateError,
            ),
            old(self)@.phase is Created && out is Err ==> out == Err::<Vec<u8>, ExchangeError>(
                ExchangeError::MalformedInput,
            ),
            out is Err ==> final(self)@ == old(self)@,
            out matches Ok(response) ==> response@.len() == LOGIN_RESPONSE_LEN
                && final(self)@.phase is Started && final(self)@.state.len()
                == SERVER_LOGIN_STATE_LEN,
            out matches Ok(response) ==> evaluated_as_in_registration(
                old(self)@.setup,
                username@,
                request@,
                response@,
            ),
    {
        proof {
            use_type_invariant(&*self);
        }
        match self.phase {
            Phase::Created => {
                let setup = self.setup.serialize();
                let answered = login_answer(&setup, &password_file, &username, &request);
                self.accept_start(answered)
            },
            _ => Err(ExchangeError::StateError),
        }
    }

    /// The step of `start` that follows the answering: takes what it
    /// returned and moves the state machine.
    pub fn accept_start(&mut self, answered: Option<(Vec<u8>, Vec<u8>)>) -> (out: Result<
        Vec<u8>,
        ExchangeError,
    >)
        ensures
            final(self)@.valid(),
            (final(self)@, bytes_result(out)) == old(self)@.start_step(
                pair_option_view(answered),
            ),
    {
        proof {
            use_type_invariant(&*self);
        }
        match self.phase {
            Phase::Created => {},
            _ => {
                return Err(ExchangeError::StateError);
            },
        }
        match answered {
            Some((state, response)) => {
                if state.len() == SERVER_LOGIN_STATE_LEN && response.len() == LOGIN_RESPONSE_LEN {
                    self.state = state;
                    self.phase = Phase::Started;
                    Ok(response)
                } else {
                    Err(ExchangeError::MalformedInput)
                }
            },
            None => Err(ExchangeError::MalformedInput),
        }
    }

    /// The continuation of a started login as bytes, always of the fixed
    /// length; `StateError` before `start` and after `finish`.
    pub fn serialize(&self) -> (out: Result<Vec<u8>, ExchangeError>)
        ensures
            bytes_result(out) == self@.serialized(),
            out matches Ok(bytes) ==> bytes@.len() == SERVER_LOGIN_STATE_LEN,
    {
        proof {
            use_type_invariant(self);
        }
        match self.phase {
            Phase::Started => Ok(copy_bytes(&self.state)),
            _ => Err(ExchangeError::StateError),
        }
    }

    /// A started login with these bytes as its continuation, for this
    /// long-term material; `MalformedInput` where the bytes have not a
    /// continuation's length.
    pub fn deserialize(bytes: Vec<u8>, setup: &ServerSetup) -> (out: Result<
        HandleLogin,
        ExchangeError,
    >)
        ensures
            handler_result(out) == HandleLoginView::restored(bytes@, setup@),
    {
        if login_state_decodes(&bytes) {
            Ok(HandleLogin { setup: setup.duplicate(), phase: Phase::Started, state: bytes })
        } else {
            Err(ExchangeError::MalformedInput)
        }
    }

    /// Checks the client's login record against the continuation and returns
    /// the session key. A record that does not match is
    /// `AuthenticationFailed`, one that does not decode `MalformedInput`, and
    /// no key comes out on either. The confirmation is a function of the
    /// continuation and the record.
    pub fn finish(&mut self, record: Vec<u8>) -> (out: Result<Vec<u8>, ExchangeError>)
        ensures
            final(self)@.valid(),
            (final(self)@, bytes_result(out)) == old(self)@.finished_with(record@),
            out matches Ok(key) ==> key@.len() == SESSION_KEY_LEN,
    {
        proof {
            use_type_invariant(&*self);
        }
        match self.phase {
            Phase::Started => {
                let confirmed = login_confirm(&self.state, &record);
                self.accept_finish(confirmed)
            },
            _ => Err(ExchangeError::StateError),
        }
    }

    /// The step of `finish` that follows the confirmation: takes what it
    /// returned and moves the state machine.
    pub fn accept_finish(&mut self, confirmed: Result<Vec<u8>, Fault>) -> (out: Result<
        Vec<u8>,
        ExchangeError,
    >)
        ensures
            final(self)@.valid(),
            (final(self)@, bytes_result(out)) == old(self)@.finish_step(single_view(confirmed)),
    {
        proof {
            use_type_invariant(&*self);
        }
        match self.phase {
            Phase::Started => {},
            _ => {
                return Err(ExchangeError::StateError);
            },
        }
        self.phase = Phase::Finished;
        self.state = Vec::new();
        match confirmed {
            Ok(key) => {
                if key.len() == SESSION_KEY_LEN {
                    Ok(key)
                } else {
                    Err(ExchangeError::AuthenticationFailed)
                }
            },
            Err(fault) => Err(fault.to_error()),
        }
    }
}

/// A login handler serves once: after any `finish` on a started login, a
/// second `finish` is a `StateError` and changes nothing, whatever the two
/// confirmations returned.
pub proof fn finish_is_single_use(
    before: HandleLoginView,
    first: Result<Seq<u8>, Fault>,
    second: Result<Seq<u8>, Fault>,
)
    requires
        before.phase is Started,
    ensures
        before.finish_step(first).0.finish_step(second) == (
            before.finish_step(first).0,
            Err::<Seq<u8>, ExchangeError>(ExchangeError::StateError),
        ),
{
}

/// Before `start` or `deserialize` has succeeded, `finish` is a `StateError`
/// and changes nothing.
pub proof fn finish_needs_start(before: HandleLoginView, confirmed: Result<Seq<u8>, Fault>)
    requires
        before.phase is Created,
    ensures
        before.finish_step(confirmed) == (
            before,
            Err::<Seq<u8>, ExchangeError>(ExchangeError::StateError),
        ),
{
}

/// With and without a password file the answer has one shape: whatever two
/// answerings returned, where both `start` calls succeed the two responses
/// have the same length, that of a login response, and both handlers hold a
/// continuation of the same length.
pub proof fn answers_have_one_shape(
    before: HandleLoginView,
    without_file: Option<(Seq<u8>, Seq<u8>)>,
    with_file: Option<(Seq<u8>, Seq<u8>)>,
)
    requires
        before.start_step(without_file).1 is Ok,
        before.start_step(with_file).1 is Ok,
    ensures
        before.start_step(without_file).1->Ok_0.len() == LOGIN_RESPONSE_LEN,
        before.start_step(with_file).1->Ok_0.len() == LOGIN_RESPONSE_LEN,
        before.start_step(without_file).0.phase == before.start_step(with_file).0.phase,
        before.start_step(without_file).0.state.len() == before.start_step(
            with_file,
        ).0.state.len(),
{
}

/// A serialized continuation restores to the handler it came from:
/// `deserialize` on what `serialize` gave, with the same long-term material,
/// gives the same handler, and serializing that gives the same bytes.
pub proof fn restore_undoes_serialize(handler: HandleLoginView)
    requires
        handler.valid(),
        handler.phase is Started,
    ensures
        handler.serialized() == Ok::<Seq<u8>, ExchangeError>(handler.state),
        HandleLoginView::restored(handler.state, handler.setup) == Ok::<
            HandleLoginView,
            ExchangeError,
        >(handler),
        HandleLoginView::restored(handler.state, handler.setup)->Ok_0.serialized()
            == handler.serialized(),
{
}

/// A login can be finished elsewhere: a handler restored from the
/// serialized continuation of a started one, with the same long-term
/// material, gives for every login record the result that the first handler
/// would have given, session key included.
pub proof fn resumed_finish_agrees(handler: HandleLoginView, record: Seq<u8>)
    requires
        handler.valid(),
        handler.phase is Started,
    ensures
        handler.serialized() is Ok,
        HandleLoginView::restored(handler.serialized()->Ok_0, handler.setup) is Ok,
        HandleLoginView::restored(handler.serialized()->Ok_0, handler.setup)->Ok_0.finished_with(
            record,
        ) == handler.finished_with(record),
{
}

/// What `finish` gives for each login record: `MalformedInput` for a string
/// that has not a record's length, `AuthenticationFailed` for a record that
/// does not match, and for one that does, the key that the continuation
/// holds. No other record gives a key, and no record gives another key.
pub proof fn finish_by_cases(handler: HandleLoginView, record: Seq<u8>)
    requires
        handler.valid(),
        handler.phase is Started,
    ensures
        handler.finished_with(record).0 == handler.closed(),
        record.len() != LOGIN_RECORD_LEN ==> handler.finished_with(record).1 == Err::<
            Seq<u8>,
            ExchangeError,
        >(ExchangeError::MalformedInput),
        record.len() == LOGIN_RECORD_LEN && !login_record_matches(handler.state, record)
            ==> handler.finished_with(record).1 == Err::<Seq<u8>, ExchangeError>(
            ExchangeError::AuthenticationFailed,
        ),
        record.len() == LOGIN_RECORD_LEN && login_record_matches(handler.state, record)
            ==> handler.finished_with(record).1 == Ok::<Seq<u8>, ExchangeError>(
            handler.state.subrange(
                SERVER_LOGIN_STATE_LEN - SESSION_KEY_LEN,
                SERVER_LOGIN_STATE_LEN as int,
            ),
        ),
{
}

} // verus!
