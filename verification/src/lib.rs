//! An augmented password-authenticated key exchange on byte strings: a client
//! enrolls a password with a server and later logs in with it, and both sides
//! end up with the same session key while the server never sees the password.
//!
//! The cryptography is done by the `opaque_ke` crate. This library owns the
//! four exchange state machines, the fixed message sizes, the error kinds and
//! the byte-level form of every state, and proves what it promises of them.

pub mod bytes;
pub mod client_login;
pub mod client_registration;
pub mod error;

pub mod handle_login;
pub mod handle_registration;
pub mod password;
pub mod primitives;
pub mod server_setup;
pub mod sizes;
pub mod suite;

pub use client_login::Login;
pub use client_registration::Registration;
pub use error::ExchangeError;

pub use handle_login::HandleLogin;
pub use handle_registration::HandleRegistration;
pub use server_setup::ServerSetup;
