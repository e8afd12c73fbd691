use opaque_pake::client_login::Login;
use opaque_pake::client_registration::Registration;
use opaque_pake::bytes::{copy_bytes, same_bytes};
use opaque_pake::error::{ExchangeError, Fault};
use opaque_pake::handle_login::HandleLogin;
use opaque_pake::handle_registration::{file_from, response_from};
use opaque_pake::password::{is_usable, MAX_PASSWORD_LEN};
use opaque_pake::server_setup::ServerSetup;
use opaque_pake::sizes::{
    CLIENT_LOGIN_STATE_LEN, CLIENT_REGISTRATION_STATE_LEN, EXPORT_KEY_LEN, GROUP_ELEMENT_LEN, LOGIN_RECORD_LEN, LOGIN_REQUEST_LEN, LOGIN_RESPONSE_LEN,
    REGISTRATION_RECORD_LEN, REGISTRATION_REQUEST_LEN, REGISTRATION_RESPONSE_LEN,
    SERVER_LOGIN_STATE_LEN, SERVER_SETUP_LEN, SESSION_KEY_LEN,
};

#[test]
fn sizes_are_the_fixed_table() {
    assert_eq!(REGISTRATION_REQUEST_LEN, 32);
    assert_eq!(REGISTRATION_RESPONSE_LEN, 64);
    assert_eq!(REGISTRATION_RECORD_LEN, 192);
    assert_eq!(EXPORT_KEY_LEN, 64);
    assert_eq!(LOGIN_REQUEST_LEN, 96);
    assert_eq!(LOGIN_RESPONSE_LEN, 320);
    assert_eq!(SERVER_LOGIN_STATE_LEN, 192);
    assert_eq!(LOGIN_RECORD_LEN, 64);
    assert_eq!(SESSION_KEY_LEN, 64);
    assert_eq!(SERVER_SETUP_LEN, 128);
    assert_eq!(GROUP_ELEMENT_LEN, 32);
    assert_eq!(CLIENT_REGISTRATION_STATE_LEN, 64);
    assert_eq!(CLIENT_LOGIN_STATE_LEN, 192);
}

#[test]
fn faults_map_to_errors() {
    assert_eq!(Fault::Malformed.to_error(), ExchangeError::MalformedInput);
    assert_eq!(Fault::Rejected.to_error(), ExchangeError::AuthenticationFailed);
}

#[test]
fn copy_bytes_copies() {
    assert_eq!(copy_bytes(&vec![1u8, 2, 3]), vec![1u8, 2, 3]);
    assert_eq!(copy_bytes(&Vec::new()), Vec::<u8>::new());
}

#[test]
fn same_bytes_compares_whole_strings() {
    assert!(same_bytes(&vec![1u8, 2, 3], &vec![1u8, 2, 3]));
    assert!(same_bytes(&Vec::new(), &Vec::new()));
    assert!(!same_bytes(&vec![1u8, 2, 3], &vec![1u8, 2, 4]));
    assert!(!same_bytes(&vec![9u8, 2, 3], &vec![1u8, 2, 3]));
    assert!(!same_bytes(&vec![1u8, 2], &vec![1u8, 2, 3]));
    assert!(!same_bytes(&vec![1u8, 2, 3], &vec![1u8, 2]));
}

#[test]
fn registration_accept_start_follows_the_step() {
    let mut r = Registration::new();
    assert_eq!(r.accept_start(None), Err(ExchangeError::InvalidInput));
    assert_eq!(
        r.accept_start(Some((vec![1u8; 63], vec![2u8; 32]))),
        Err(ExchangeError::InvalidInput)
    );
    assert_eq!(
        r.accept_start(Some((vec![1u8; 64], vec![2u8; 33]))),
        Err(ExchangeError::InvalidInput)
    );
    assert_eq!(
        r.accept_start(Some((vec![1u8; 64], vec![2u8; 32]))),
        Ok(vec![2u8; 32])
    );
    assert_eq!(
        r.accept_start(Some((vec![1u8; 64], vec![2u8; 32]))),
        Err(ExchangeError::StateError)
    );
}

#[test]
fn registration_accept_finish_follows_the_step() {
    let mut r = Registration::new();
    assert_eq!(
        r.accept_finish(Ok((vec![3u8; 192], vec![4u8; 64]))),
        Err(ExchangeError::StateError)
    );
    r.accept_start(Some((vec![1u8; 64], vec![2u8; 32]))).unwrap();
    assert_eq!(
        r.accept_finish(Ok((vec![3u8; 192], vec![4u8; 64]))),
        Ok(vec![3u8; 192])
    );
    assert_eq!(r.get_export_key(), Ok(vec![4u8; 64]));
    assert_eq!(
        r.accept_finish(Ok((vec![3u8; 192], vec![4u8; 64]))),
        Err(ExchangeError::StateError)
    );

    let mut r = Registration::new();
    r.accept_start(Some((vec![1u8; 64], vec![2u8; 32]))).unwrap();
    assert_eq!(
        r.accept_finish(Err(Fault::Rejected)),
        Err(ExchangeError::AuthenticationFailed)
    );
    assert_eq!(r.get_export_key(), Err(ExchangeError::StateError));

    let mut r = Registration::new();
    r.accept_start(Some((vec![1u8; 64], vec![2u8; 32]))).unwrap();
    assert_eq!(
        r.accept_finish(Err(Fault::Malformed)),
        Err(ExchangeError::MalformedInput)
    );

    let mut r = Registration::new();
    r.accept_start(Some((vec![1u8; 64], vec![2u8; 32]))).unwrap();
    assert_eq!(
        r.accept_finish(Ok((vec![3u8; 192], vec![4u8; 63]))),
        Err(ExchangeError::MalformedInput)
    );
    assert_eq!(r.get_export_key(), Err(ExchangeError::StateError));
}

#[test]
fn login_accept_steps_follow_the_step() {
    let mut l = Login::new();
    assert_eq!(
        l.accept_finish(Ok((vec![5u8; 64], vec![6u8; 64], vec![7u8; 64]))),
        Err(ExchangeError::StateError)
    );
    assert_eq!(
        l.accept_start(Some((vec![1u8; 192], vec![2u8; 95]))),
        Err(ExchangeError::InvalidInput)
    );
    assert_eq!(l.accept_start(None), Err(ExchangeError::InvalidInput));
    assert_eq!(
        l.accept_start(Some((vec![1u8; 192], vec![2u8; 96]))),
        Ok(vec![2u8; 96])
    );
    assert_eq!(
        l.accept_finish(Ok((vec![5u8; 64], vec![6u8; 64], vec![7u8; 64]))),
        Ok(vec![5u8; 64])
    );
    assert_eq!(l.get_session_key(), Ok(vec![6u8; 64]));
    assert_eq!(l.get_export_key(), Ok(vec![7u8; 64]));
    assert_eq!(
        l.accept_finish(Ok((vec![5u8; 64], vec![6u8; 64], vec![7u8; 64]))),
        Err(ExchangeError::StateError)
    );

    let mut l = Login::new();
    l.accept_start(Some((vec![1u8; 192], vec![2u8; 96]))).unwrap();
    assert_eq!(
        l.accept_finish(Ok((vec![5u8; 64], vec![6u8; 10], vec![7u8; 64]))),
        Err(ExchangeError::AuthenticationFailed)
    );
    assert_eq!(l.get_session_key(), Err(ExchangeError::StateError));

    let mut l = Login::new();
    l.accept_start(Some((vec![1u8; 192], vec![2u8; 96]))).unwrap();
    assert_eq!(
        l.accept_finish(Err(Fault::Malformed)),
        Err(ExchangeError::MalformedInput)
    );
    assert_eq!(l.get_export_key(), Err(ExchangeError::StateError));
}

#[test]
fn handle_login_accept_steps_follow_the_step() {
    let setup = ServerSetup::new();
    let mut h = HandleLogin::new(&setup);
    assert_eq!(h.accept_finish(Ok(vec![9u8; 64])), Err(ExchangeError::StateError));
    assert_eq!(h.accept_start(None), Err(ExchangeError::MalformedInput));
    assert_eq!(
        h.accept_start(Some((vec![1u8; 191], vec![2u8; 320]))),
        Err(ExchangeError::MalformedInput)
    );
    assert_eq!(
        h.accept_start(Some((vec![1u8; 192], vec![2u8; 320]))),
        Ok(vec![2u8; 320])
    );
    assert_eq!(h.serialize(), Ok(vec![1u8; 192]));
    assert_eq!(h.accept_finish(Ok(vec![9u8; 64])), Ok(vec![9u8; 64]));
    assert_eq!(h.accept_finish(Ok(vec![9u8; 64])), Err(ExchangeError::StateError));
    assert_eq!(h.serialize(), Err(ExchangeError::StateError));

    let mut h = HandleLogin::new(&setup);
    h.accept_start(Some((vec![1u8; 192], vec![2u8; 320]))).unwrap();
    assert_eq!(
        h.accept_finish(Err(Fault::Rejected)),
        Err(ExchangeError::AuthenticationFailed)
    );
    let mut h = HandleLogin::new(&setup);
    h.accept_start(Some((vec![1u8; 192], vec![2u8; 320]))).unwrap();
    assert_eq!(
        h.accept_finish(Ok(vec![9u8; 65])),
        Err(ExchangeError::AuthenticationFailed)
    );
}

#[test]
fn registration_replies_follow_the_evaluation() {
    assert_eq!(response_from(None), Err(ExchangeError::MalformedInput));
    assert_eq!(
        response_from(Some(vec![1u8; 63])),
        Err(ExchangeError::MalformedInput)
    );
    assert_eq!(response_from(Some(vec![1u8; 64])), Ok(vec![1u8; 64]));
    assert_eq!(file_from(None), Err(ExchangeError::MalformedInput));
    assert_eq!(file_from(Some(vec![1u8; 193])), Err(ExchangeError::MalformedInput));
    assert_eq!(file_from(Some(vec![1u8; 192])), Ok(vec![1u8; 192]));
}

#[test]
fn usable_passwords_are_neither_empty_nor_overlong() {
    assert_eq!(MAX_PASSWORD_LEN, 65535);
    assert!(!is_usable(""));
    assert!(is_usable("a"));
    assert!(is_usable("correct horse battery staple"));
    assert!(is_usable(&"z".repeat(65535)));
    assert!(!is_usable(&"z".repeat(65536)));
    // The limit counts bytes, not characters.
    assert!(!is_usable(&"\u{e9}".repeat(32768)));
    assert!(is_usable(&"\u{e9}".repeat(32767)));
}
