use vstd::prelude::*;

verus! {

/// Why an operation of an exchange was refused.
#[derive(Clone, Copy, Debug, PartialEq, Eq, Structural)]
pub enum ExchangeError {
    /// The caller's own password or identity is unusable.
    InvalidInput,
    /// A received byte string does not encode the structure expected.
    MalformedInput,
    /// The operation was invoked out of sequence on a state machine.
    StateError,
    /// A cryptographic check did not pass; which one is not told.
    AuthenticationFailed,
}

/// Where an exchange stands. `Finished` is terminal, after success and after
/// failure alike.
#[derive(Clone, Copy, Debug, PartialEq, Eq, Structural)]
pub enum Phase {
    Created,
    Started,
    Finished,
}

/// How a cryptographic step went wrong: its input did not decode, or it
/// decoded and a check on it failed.
#[derive(Clone, Copy, Debug, PartialEq, Eq, Structural)]
pub enum Fault {
    Malformed,
    Rejected,
}

impl Fault {
    /// The error kind that stands for this fault: a decoding that failed is
    /// `MalformedInput`, a check that failed `AuthenticationFailed`.
    pub open spec fn as_error(self) -> ExchangeError {
        match self {
            Fault::Malformed => ExchangeError::MalformedInput,
            Fault::Rejected => ExchangeError::AuthenticationFailed,
        }
    }

    /// The error kind that a caller sees for this fault.
    pub fn to_error(self) -> (e: ExchangeError)
        ensures
            e == self.as_error(),
    {
        match self {
            Fault::Malformed => ExchangeError::MalformedInput,
            Fault::Rejected => ExchangeError::AuthenticationFailed,
        }
    }
}

} // verus!
