use webauthn_rp::codec::decode_base64url;
use webauthn_rp::credential_option::{
    Algorithm, Attestation, AuthenticatorAttachment, AuthenticatorSelection, BiometricPerfBounds,
    CredParam, ExcludeCredential, ExcludeCredentialTransport, Extension,
    PublicKeyCredentialCreationOptions, RelyingParty, User, UserVerification, DEFAULT_TIMEOUT_MS,
};
use webauthn_rp::json::{JsonValue, ObjectBuilder};

fn to_serde(value: &JsonValue) -> serde_json::Value {
    match value {
        JsonValue::Null => serde_json::Value::Null,
        JsonValue::Bool(b) => serde_json::Value::Bool(*b),
        JsonValue::Integer(n) => {
            serde_json::Value::Number(serde_json::Number::from_i128(*n).unwrap())
        }
        JsonValue::Real(bits) => {
            serde_json::Value::Number(serde_json::Number::from_f64(f64::from_bits(*bits)).unwrap())
        }
        JsonValue::Text(text) => serde_json::Value::String(text.clone()),
        JsonValue::Array(items) => serde_json::Value::Array(items.iter().map(to_serde).collect()),
        JsonValue::Object(members) => serde_json::Value::Object(
            members.iter().map(|(name, value)| (name.clone(), to_serde(value))).collect(),
        ),
    }
}

fn parsed(text: &str) -> serde_json::Value {
    serde_json::from_str(text).unwrap()
}

fn member_names(value: &JsonValue) -> Vec<String> {
    match value {
        JsonValue::Object(members) => members.iter().map(|(name, _)| name.clone()).collect(),
        other => panic!("not an object: {:?}", other),
    }
}

fn contains_null(value: &JsonValue) -> bool {
    match value {
        JsonValue::Null => true,
        JsonValue::Array(items) => items.iter().any(contains_null),
        JsonValue::Object(members) => members.iter().any(|(_, value)| contains_null(value)),
        _ => false,
    }
}

fn minimal_options() -> PublicKeyCredentialCreationOptions {
    PublicKeyCredentialCreationOptions::with_challenge(
        RelyingParty::new("yo", "localhost", None),
        User::with_id("dXNlcg".to_string(), "alice", "Alice", None),
        "Y2hhbGxlbmdl".to_string(),
        vec![
            CredParam::new(Algorithm::ES256),
            CredParam::new(Algorithm::PS256),
            CredParam::new(Algorithm::RS256),
        ],
        None,
        None,
        None,
        None,
        None,
    )
}

fn full_options() -> PublicKeyCredentialCreationOptions {
    PublicKeyCredentialCreationOptions::with_challenge(
        RelyingParty::new("yo", "localhost", Some("https://localhost/rp.png")),
        User::with_id("dXNlcg".to_string(), "alice", "Alice", Some("https://localhost/a.png")),
        "Y2hhbGxlbmdl".to_string(),
        vec![CredParam::new(Algorithm::RS256)],
        Some(30000),
        Some(vec![
            ExcludeCredential::new("aWQx".to_string(), Some(ExcludeCredentialTransport::USB)),
            ExcludeCredential::new("aWQy".to_string(), None),
        ]),
        Some(AuthenticatorSelection::new(
            Some(UserVerification::Preferred),
            Some(AuthenticatorAttachment::CrossPlatform),
            Some(false),
        )),
        Some(Attestation::Indirect),
        Some(Extension::new(
            Some(vec![1, 2, 3]),
            Some(true),
            Some(false),
            Some(true),
            Some(false),
            Some(BiometricPerfBounds::from_bits(0.25f64.to_bits(), 0.5f64.to_bits())),
        )),
    )
}

#[test]
fn algorithms_have_their_cose_codes() {
    assert_eq!(Algorithm::ES256.code(), -7);
    assert_eq!(Algorithm::PS256.code(), -37);
    assert_eq!(Algorithm::RS256.code(), -257);
    assert!(matches!(Algorithm::ES256.to_json(), JsonValue::Integer(-7)));
    assert!(matches!(Algorithm::PS256.to_json(), JsonValue::Integer(-37)));
    assert!(matches!(Algorithm::RS256.to_json(), JsonValue::Integer(-257)));
}

#[test]
fn enumerations_have_their_wire_tokens() {
    assert_eq!(Attestation::NoAttestation.token(), "none");
    assert_eq!(Attestation::Indirect.token(), "indirect");
    assert_eq!(Attestation::Direct.token(), "direct");
    assert_eq!(UserVerification::Required.token(), "required");
    assert_eq!(UserVerification::Preferred.token(), "preferred");
    assert_eq!(UserVerification::Discouraged.token(), "discouraged");
    assert_eq!(AuthenticatorAttachment::Platform.token(), "platform");
    assert_eq!(AuthenticatorAttachment::CrossPlatform.token(), "cross-platform");
    assert_eq!(ExcludeCredentialTransport::USB.token(), "usb");
    assert_eq!(ExcludeCredentialTransport::NFC.token(), "nfc");
    assert_eq!(ExcludeCredentialTransport::BLE.token(), "ble");
    assert_eq!(ExcludeCredentialTransport::INTERNAL.token(), "internal");
    assert_eq!(to_serde(&Attestation::Direct.to_json()), parsed("\"direct\""));
    assert_eq!(to_serde(&UserVerification::Required.to_json()), parsed("\"required\""));
    assert_eq!(to_serde(&AuthenticatorAttachment::Platform.to_json()), parsed("\"platform\""));
    assert_eq!(to_serde(&ExcludeCredentialTransport::NFC.to_json()), parsed("\"nfc\""));
}

#[test]
fn requested_default_attestation_is_direct() {
    assert_eq!(Attestation::default(), Attestation::Direct);
}

#[test]
fn unset_timeout_means_the_default() {
    assert_eq!(DEFAULT_TIMEOUT_MS, 60000);
    assert_eq!(minimal_options().timeout_or_default(), 60000);
    assert_eq!(full_options().timeout_or_default(), 30000);
}

#[test]
fn minimal_options_have_only_the_required_members() {
    let json = minimal_options().to_json();
    assert_eq!(member_names(&json), vec!["rp", "user", "challenge", "pubKeyCredParams"]);
    assert!(!contains_null(&json));
    assert_eq!(
        to_serde(&json),
        parsed(
            r#"{
                "rp": {"name": "yo", "id": "localhost"},
                "user": {"id": "dXNlcg", "name": "alice", "displayName": "Alice"},
                "challenge": "Y2hhbGxlbmdl",
                "pubKeyCredParams": [
                    {"alg": -7, "type": "public-key"},
                    {"alg": -37, "type": "public-key"},
                    {"alg": -257, "type": "public-key"}
                ]
            }"#
        )
    );
}

#[test]
fn full_options_have_every_member() {
    let json = full_options().to_json();
    assert_eq!(
        member_names(&json),
        vec![
            "rp",
            "user",
            "challenge",
            "pubKeyCredParams",
            "timeout",
            "excludeCredentials",
            "authenticatorSelection",
            "attestation",
            "extensions"
        ]
    );
    assert!(!contains_null(&json));
    assert_eq!(
        to_serde(&json),
        parsed(
            r#"{
                "rp": {"name": "yo", "id": "localhost", "icon": "https://localhost/rp.png"},
                "user": {
                    "id": "dXNlcg",
                    "name": "alice",
                    "displayName": "Alice",
                    "icon": "https://localhost/a.png"
                },
                "challenge": "Y2hhbGxlbmdl",
                "pubKeyCredParams": [{"alg": -257, "type": "public-key"}],
                "timeout": 30000,
                "excludeCredentials": [
                    {"type": "public-key", "id": "aWQx", "transports": "usb"},
                    {"type": "public-key", "id": "aWQy"}
                ],
                "authenticatorSelection": {
                    "userVerification": "preferred",
                    "authenticatorAttachment": "cross-platform",
                    "requireResidentKey": false
                },
                "attestation": "indirect",
                "extensions": {
                    "authSel": [1, 2, 3],
                    "exts": true,
                    "uvi": false,
                    "loc": true,
                    "uvm": false,
                    "biometricPerfBounds": {"far": 0.25, "frr": 0.5}
                }
            }"#
        )
    );
}

#[test]
fn each_optional_field_is_written_exactly_when_set() {
    for mask in 0..32u32 {
        let options = PublicKeyCredentialCreationOptions::with_challenge(
            RelyingParty::new("yo", "localhost", None),
            User::with_id("dXNlcg".to_string(), "alice", "Alice", None),
            "Y2hhbGxlbmdl".to_string(),
            vec![CredParam::new(Algorithm::ES256)],
            if mask & 1 != 0 { Some(1000) } else { None },
            if mask & 2 != 0 { Some(vec![]) } else { None },
            if mask & 4 != 0 { Some(AuthenticatorSelection::new(None, None, None)) } else { None },
            if mask & 8 != 0 { Some(Attestation::NoAttestation) } else { None },
            if mask & 16 != 0 { Some(Extension::new(None, None, None, None, None, None)) } else { None },
        );
        let json = options.to_json();
        assert_eq!(json.member("timeout").is_some(), mask & 1 != 0);
        assert_eq!(json.member("excludeCredentials").is_some(), mask & 2 != 0);
        assert_eq!(json.member("authenticatorSelection").is_some(), mask & 4 != 0);
        assert_eq!(json.member("attestation").is_some(), mask & 8 != 0);
        assert_eq!(json.member("extensions").is_some(), mask & 16 != 0);
        assert_eq!(member_names(&json).len(), 4 + mask.count_ones() as usize);
        assert!(!contains_null(&json));
    }
}

#[test]
fn empty_nested_records_are_empty_objects() {
    let selection = AuthenticatorSelection::new(None, None, None).to_json();
    assert_eq!(to_serde(&selection), parsed("{}"));
    let extension = Extension::new(None, None, None, None, None, None).to_json();
    assert_eq!(to_serde(&extension), parsed("{}"));
    let extension = Extension::new(Some(vec![]), None, None, None, Some(true), None).to_json();
    assert_eq!(member_names(&extension), vec!["authSel", "uvm"]);
    assert_eq!(to_serde(&extension), parsed(r#"{"authSel": [], "uvm": true}"#));
    let selection =
        AuthenticatorSelection::new(None, Some(AuthenticatorAttachment::Platform), None).to_json();
    assert_eq!(to_serde(&selection), parsed(r#"{"authenticatorAttachment": "platform"}"#));
}

#[test]
fn records_keep_their_fields() {
    let rp = RelyingParty::new("name", "id", Some("icon"));
    assert_eq!(rp.name, "name");
    assert_eq!(rp.id, "id");
    assert_eq!(rp.icon.as_deref(), Some("icon"));
    let param = CredParam::new(Algorithm::PS256);
    assert_eq!(param.alg, Algorithm::PS256);
    assert_eq!(param.type_, "public-key");
    let credential =
        ExcludeCredential::new("abc".to_string(), Some(ExcludeCredentialTransport::INTERNAL));
    assert_eq!(credential.type_, "public-key");
    assert_eq!(credential.id, "abc");
    assert_eq!(credential.transports, Some(ExcludeCredentialTransport::INTERNAL));
    assert_eq!(
        to_serde(&credential.to_json()),
        parsed(r#"{"type": "public-key", "id": "abc", "transports": "internal"}"#)
    );
    let selection = AuthenticatorSelection::new(Some(UserVerification::Discouraged), None, Some(true));
    assert_eq!(selection.user_verification, Some(UserVerification::Discouraged));
    assert!(selection.authenticator_attachment.is_none());
    assert_eq!(selection.require_resident_key, Some(true));
    let bounds = BiometricPerfBounds::from_bits(1, 2);
    assert_eq!((bounds.far, bounds.frr), (1, 2));
}

#[test]
fn new_user_gets_a_random_handle_of_20_bytes() {
    let first = User::new("alice", "Alice", None);
    let second = User::new("alice", "Alice", Some("icon"));
    assert_eq!(first.name, "alice");
    assert_eq!(first.display_name, "Alice");
    assert!(first.icon.is_none());
    assert_eq!(second.icon.as_deref(), Some("icon"));
    assert_eq!(decode_base64url(&first.id).unwrap().len(), 20);
    assert_eq!(decode_base64url(&second.id).unwrap().len(), 20);
    assert_ne!(first.id, second.id);
}

#[test]
fn new_options_get_a_random_challenge_of_the_requested_length() {
    let make = |length: usize| {
        PublicKeyCredentialCreationOptions::new(
            RelyingParty::new("yo", "localhost", None),
            User::new("alice", "Alice", None),
            length,
            vec![CredParam::new(Algorithm::ES256)],
            Some(5),
            None,
            None,
            Some(Attestation::Direct),
            None,
        )
    };
    let first = make(32);
    let second = make(32);
    assert_eq!(decode_base64url(&first.challenge).unwrap().len(), 32);
    assert_ne!(first.challenge, second.challenge);
    assert_eq!(decode_base64url(&make(16).challenge).unwrap().len(), 16);
    assert_eq!(first.timeout, Some(5));
    assert_eq!(first.attestation, Some(Attestation::Direct));
    assert_eq!(first.pub_key_cred_params.len(), 1);
    let json = first.to_json();
    assert_eq!(json.text_member("challenge"), Some(first.challenge.as_str()));
    assert_eq!(json.text_member("attestation"), Some("direct"));
}

#[test]
fn object_builder_keeps_members_in_order() {
    let mut builder = ObjectBuilder::new();
    builder.put("b", JsonValue::Bool(true));
    builder.put_optional("skipped", None);
    builder.put_optional("a", Some(JsonValue::Integer(1)));
    builder.put("b", JsonValue::Bool(false));
    let object = builder.finish();
    assert_eq!(member_names(&object), vec!["b", "a", "b"]);
    // Lookup gives the first member of a name.
    assert!(matches!(object.member("b"), Some(JsonValue::Bool(true))));
    assert!(object.member("skipped").is_none());
    assert_eq!(to_serde(&JsonValue::array(vec![JsonValue::Null])), parsed("[null]"));
    assert_eq!(to_serde(&JsonValue::text("x")), parsed("\"x\""));
}
