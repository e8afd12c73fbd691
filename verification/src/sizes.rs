use vstd::prelude::*;

verus! {

/// Bytes of one encoded group element.
pub const GROUP_ELEMENT_LEN: usize = 32;

/// Bytes of a registration request: one encoded group element.
pub const REGISTRATION_REQUEST_LEN: usize = 32;

/// Bytes of a registration response: the evaluated element and the server's
/// public key.
pub const REGISTRATION_RESPONSE_LEN: usize = 64;

/// Bytes of a registration record, which is also the stored password file.
pub const REGISTRATION_RECORD_LEN: usize = 192;

/// Bytes of an export key.
pub const EXPORT_KEY_LEN: usize = 64;

/// Bytes of a login request: a blinded element and the first key-exchange
/// message.
pub const LOGIN_REQUEST_LEN: usize = 96;

/// Bytes of a login response.
pub const LOGIN_RESPONSE_LEN: usize = 320;

/// Bytes of the server's state between the two steps of a login.
pub const SERVER_LOGIN_STATE_LEN: usize = 192;

/// Bytes of a login record, the client's closing message.
pub const LOGIN_RECORD_LEN: usize = 64;

/// Bytes of a session key.
pub const SESSION_KEY_LEN: usize = 64;

/// Bytes of the server's long-term material.
pub const SERVER_SETUP_LEN: usize = 128;

/// Bytes of the client's state between the two steps of a registration.
pub const CLIENT_REGISTRATION_STATE_LEN: usize = 64;

/// Bytes of the client's state between the two steps of a login.
pub const CLIENT_LOGIN_STATE_LEN: usize = 192;

} // verus!
