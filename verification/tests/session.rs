use webauthn_rp::attestation_response::{AttestationResponse, RegistrationResponse};
use webauthn_rp::codec::{decode_base64url, encode_base64url, sha256};
use webauthn_rp::credential_option::{Algorithm, RelyingParty};
use webauthn_rp::error::RegistrationResponseError;
use webauthn_rp::session::{
    begin_registration, finish_registration, PendingRegistration, RegistrationSession,
};
use webauthn_rp::validation::{NameError, RegistrationForm, ValidationError};

use std::collections::BTreeMap;

fn form(username: &str, display_name: &str) -> RegistrationForm {
    RegistrationForm { username: username.to_string(), display_name: display_name.to_string() }
}

fn answer(challenge: &str) -> AttestationResponse {
    let json = format!(
        "{{\"type\":\"webauthn.create\",\"challenge\":\"{}\",\"origin\":\"https://localhost\"}}",
        challenge
    );
    let mut auth_data = sha256(b"localhost");
    auth_data.extend_from_slice(&[0x41, 0, 0, 0, 0]);
    auth_data.extend_from_slice(&[0; 16]);
    auth_data.extend_from_slice(&[0, 2, 0xca, 0xfe, 0xa0]);
    let mut map: BTreeMap<serde_cbor::Value, serde_cbor::Value> = BTreeMap::new();
    map.insert(
        serde_cbor::Value::Text("fmt".to_string()),
        serde_cbor::Value::Text("none".to_string()),
    );
    map.insert(
        serde_cbor::Value::Text("authData".to_string()),
        serde_cbor::Value::Bytes(auth_data),
    );
    map.insert(
        serde_cbor::Value::Text("attStmt".to_string()),
        serde_cbor::Value::Map(BTreeMap::new()),
    );
    AttestationResponse {
        att_obj: encode_base64url(&serde_cbor::to_vec(&serde_cbor::Value::Map(map)).unwrap()),
        client_data: encode_base64url(json.as_bytes()),
    }
}

#[test]
fn begin_issues_options_and_binds_them_to_the_session() {
    let mut session = RegistrationSession::new();
    let options = begin_registration(
        &mut session,
        RelyingParty::new("yo", "localhost", None),
        &form("alice", "Alice A."),
    )
    .unwrap();
    assert_eq!(options.rp.name, "yo");
    assert_eq!(options.rp.id, "localhost");
    assert_eq!(options.user.name, "alice");
    assert_eq!(options.user.display_name, "Alice A.");
    assert!(options.user.icon.is_none());
    assert_eq!(decode_base64url(&options.challenge).unwrap().len(), 32);
    assert_eq!(decode_base64url(&options.user.id).unwrap().len(), 20);
    let algorithms: Vec<Algorithm> = options.pub_key_cred_params.iter().map(|p| p.alg).collect();
    assert_eq!(algorithms, vec![Algorithm::ES256, Algorithm::PS256, Algorithm::RS256]);
    assert!(options.timeout.is_none());
    assert!(options.exclude_credentials.is_none());
    assert!(options.authenticator_selection.is_none());
    assert!(options.attestation.is_none());
    assert!(options.extensions.is_none());
    let pending = session.pending.as_ref().unwrap();
    assert_eq!(pending.username, "alice");
    assert_eq!(pending.display_name, "Alice A.");
    assert_eq!(pending.challenge, options.challenge);
    assert_eq!(pending.user_handle, options.user.id);
}

#[test]
fn begin_refuses_invalid_names_and_clears_the_session() {
    let mut session = RegistrationSession::restore(Some(PendingRegistration {
        username: "old".to_string(),
        display_name: "Old".to_string(),
        challenge: "old-challenge".to_string(),
        user_handle: "old-handle".to_string(),
    }));
    let result = begin_registration(
        &mut session,
        RelyingParty::new("yo", "localhost", None),
        &form("12345", "Alice"),
    );
    assert_eq!(result.err(), Some(ValidationError::Username(NameError::OnlyDigits)));
    assert!(session.pending.is_none());
    let result = begin_registration(
        &mut session,
        RelyingParty::new("yo", "localhost", None),
        &form("alice", ""),
    );
    assert_eq!(result.err(), Some(ValidationError::DisplayName(NameError::Length)));
    assert!(session.pending.is_none());
}

#[test]
fn begin_replaces_the_pending_challenge() {
    let mut session = RegistrationSession::new();
    let first = begin_registration(
        &mut session,
        RelyingParty::new("yo", "localhost", None),
        &form("alice", "Alice"),
    )
    .unwrap();
    let second = begin_registration(
        &mut session,
        RelyingParty::new("yo", "localhost", None),
        &form("alice", "Alice"),
    )
    .unwrap();
    assert_ne!(first.challenge, second.challenge);
    assert_ne!(first.user.id, second.user.id);
    assert_eq!(session.pending.as_ref().unwrap().challenge, second.challenge);
    // The answer to the first challenge no longer passes.
    let stale = RegistrationResponse::new("localhost", "https://localhost", answer(&first.challenge));
    assert_eq!(
        finish_registration(&mut session, &stale),
        Err(RegistrationResponseError::InvalidChallenge)
    );
    assert!(session.pending.is_none());
}

#[test]
fn a_valid_response_passes_once() {
    let mut session = RegistrationSession::new();
    let options = begin_registration(
        &mut session,
        RelyingParty::new("yo", "localhost", None),
        &form("alice", "Alice"),
    )
    .unwrap();
    let response =
        RegistrationResponse::new("localhost", "https://localhost", answer(&options.challenge));
    assert_eq!(finish_registration(&mut session, &response), Ok(()));
    assert!(session.pending.is_none());
    assert_eq!(
        finish_registration(&mut session, &response),
        Err(RegistrationResponseError::SessionStateMissing)
    );
    assert_eq!(
        finish_registration(&mut session, &response),
        Err(RegistrationResponseError::SessionStateMissing)
    );
}

#[test]
fn a_failed_response_consumes_the_challenge_too() {
    let mut session = RegistrationSession::new();
    let options = begin_registration(
        &mut session,
        RelyingParty::new("yo", "localhost", None),
        &form("alice", "Alice"),
    )
    .unwrap();
    let wrong_origin =
        RegistrationResponse::new("localhost", "https://other", answer(&options.challenge));
    assert_eq!(
        finish_registration(&mut session, &wrong_origin),
        Err(RegistrationResponseError::InvalidOrigin)
    );
    let right =
        RegistrationResponse::new("localhost", "https://localhost", answer(&options.challenge));
    assert_eq!(
        finish_registration(&mut session, &right),
        Err(RegistrationResponseError::SessionStateMissing)
    );
}

#[test]
fn finishing_without_begin_reports_missing_state() {
    let mut session = RegistrationSession::new();
    let response = RegistrationResponse::new("localhost", "https://localhost", answer("c"));
    assert_eq!(
        finish_registration(&mut session, &response),
        Err(RegistrationResponseError::SessionStateMissing)
    );
}

#[test]
fn challenge_is_taken_out_once() {
    let mut session = RegistrationSession::restore(Some(PendingRegistration {
        username: "u".to_string(),
        display_name: "d".to_string(),
        challenge: "c".to_string(),
        user_handle: "h".to_string(),
    }));
    assert_eq!(session.take_challenge(), Some("c".to_string()));
    assert!(session.pending.is_none());
    assert_eq!(session.take_challenge(), None);
    let mut session = RegistrationSession::restore(Some(PendingRegistration {
        username: "u".to_string(),
        display_name: "d".to_string(),
        challenge: "c".to_string(),
        user_handle: "h".to_string(),
    }));
    session.clear();
    assert_eq!(session.take_challenge(), None);
}

#[test]
fn begin_carries_the_configured_optional_parts() {
    let mut session = RegistrationSession::new();
    let config = webauthn_rp::OptionsConfig {
        timeout: Some(1234),
        attestation: Some(webauthn_rp::Attestation::default()),
        ..Default::default()
    };
    let options = webauthn_rp::begin_registration_with(
        &mut session,
        RelyingParty::new("yo", "localhost", None),
        &form("alice", "Alice"),
        config,
    )
    .unwrap();
    assert_eq!(options.timeout, Some(1234));
    assert_eq!(options.attestation, Some(webauthn_rp::Attestation::Direct));
    assert!(options.exclude_credentials.is_none());
    assert!(options.authenticator_selection.is_none());
    assert!(options.extensions.is_none());
    assert_eq!(session.pending.as_ref().unwrap().challenge, options.challenge);
    let json = options.to_json();
    assert!(matches!(json.member("timeout"), Some(webauthn_rp::JsonValue::Integer(1234))));
    assert_eq!(json.text_member("attestation"), Some("direct"));
    assert!(json.member("extensions").is_none());
}
