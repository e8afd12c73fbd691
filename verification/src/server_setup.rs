use crate::bytes::{copy_bytes, same_bytes};
use crate::error::ExchangeError;
use crate::primitives::{generate_setup, setup_decodes, setup_is_valid};
use crate::sizes::SERVER_SETUP_LEN;
use vstd::prelude::*;

verus! {

/// The server's long-term material: the seed of the oblivious function and
/// the server's two private keys, in their fixed serialized layout. It is made
/// once and never changes; every registration and login that must work
/// together uses the same one.
#[derive(Debug)]
pub struct ServerSetup {
    bytes: Vec<u8>,
}

impl View for ServerSetup {
    type V = Seq<u8>;

    closed spec fn view(&self) -> Seq<u8> {
        self.bytes@
    }
}

impl ServerSetup {
    #[verifier::type_invariant]
    spec fn well_formed(self) -> bool {
        Self::acceptable(self.bytes@)
    }

    /// The byte strings that are a server setup: of the fixed length, and
    /// decoding to a seed and two keys.
    pub open spec fn acceptable(bytes: Seq<u8>) -> bool {
        bytes.len() == SERVER_SETUP_LEN && setup_is_valid(bytes)
    }

    /// What `deserialize` makes of a byte string.
    pub open spec fn decoded(bytes: Seq<u8>) -> Result<Seq<u8>, ExchangeError> {
        if setup_is_valid(bytes) {
            Ok(bytes)
        } else {
            Err(ExchangeError::MalformedInput)
        }
    }

    /// Serializing and deserializing undo each other: the bytes of a setup
    /// decode, and to that setup.
    pub proof fn acceptable_bytes_decode(bytes: Seq<u8>)
        requires
            Self::acceptable(bytes),
        ensures
            Self::decoded(bytes) == Ok::<Seq<u8>, ExchangeError>(bytes),
    {
    }

    /// Fresh material from the operating system's random source.
    pub fn new() -> (setup: ServerSetup)
        ensures
            Self::acceptable(setup@),
    {
        ServerSetup { bytes: generate_setup() }
    }

    /// The material as bytes: always of the fixed length, and such that
    /// `deserialize` gives this setup back.
    pub fn serialize(&self) -> (out: Vec<u8>)
        ensures
            out@ == self@,
            out@.len() == SERVER_SETUP_LEN,
            Self::decoded(out@) == Ok::<Seq<u8>, ExchangeError>(self@),
    {
        proof {
            use_type_invariant(self);
            Self::acceptable_bytes_decode(self.bytes@);
        }
        copy_bytes(&self.bytes)
    }

    /// The setup that these bytes encode, or `MalformedInput` where their
    /// length or structure is not that of a setup.
    pub fn deserialize(input: Vec<u8>) -> (out: Result<ServerSetup, ExchangeError>)
        ensures
            match out {
                Ok(setup) => Self::decoded(input@) == Ok::<Seq<u8>, ExchangeError>(setup@),
                Err(e) => Self::decoded(input@) == Err::<Seq<u8>, ExchangeError>(e),
            },
            input@.len() != SERVER_SETUP_LEN ==> out is Err,
    {
        if setup_decodes(&input) {
            Ok(ServerSetup { bytes: input })
        } else {
            Err(ExchangeError::MalformedInput)
        }
    }

    /// Whether two setups hold the same material.
    pub fn same_as(&self, other: &ServerSetup) -> (same: bool)
        ensures
            same == (self@ == other@),
    {
        same_bytes(&self.bytes, &other.bytes)
    }

    /// A second handle on the same material.
    pub fn duplicate(&self) -> (out: ServerSetup)
        ensures
            out@ == self@,
    {
        proof {
            use_type_invariant(self);
        }
        ServerSetup { bytes: copy_bytes(&self.bytes) }
    }
}

impl Clone for ServerSetup {
    fn clone(&self) -> (out: ServerSetup)
        ensures
            out@ == self@,
    {
        self.duplicate()
    }
}

impl PartialEq for ServerSetup {
    fn eq(&self, other: &ServerSetup) -> (same: bool) {
        self.same_as(other)
    }
}

impl vstd::std_specs::cmp::PartialEqSpecImpl for ServerSetup {
    open spec fn obeys_eq_spec() -> bool {
        true
    }

    open spec fn eq_spec(&self, other: &ServerSetup) -> bool {
        self@ == other@
    }
}

} // verus!
