//! Relying-party side of the WebAuthn registration ceremony.
//!
//! The crate issues registration options bound to a fresh challenge and checks
//! the attestation response that an authenticator sends back. Every executable
//! function carries a contract that Verus proves; the only unproved parts are
//! the thin wrappers around the codec, hashing and randomness crates, each of
//! which is documented where it stands.

pub mod attestation_object;
pub mod attestation_response;
pub mod authenticator_data;
pub mod cbor;
pub mod client_data;
pub mod codec;
pub mod credential_option;
pub mod error;
pub mod helper;
pub mod json;
pub mod session;
pub mod statement;
pub mod validation;

pub use crate::attestation_object::{decode_cbor_map, AttestationObject};
pub use crate::attestation_response::{
    check_authenticator_data, check_client_data, AttestationResponse, AuthenticatorExtension,
    ClientExtension, RegistrationResponse, VerifiedRegistration,
};
pub use crate::authenticator_data::{
    parse_authenticator_data, AttestedCredentialData, AuthenticatorData,
};
pub use crate::cbor::{decode_cbor, CborValue};
pub use crate::client_data::{ClientData, ClientDataType, TokenBinding, TokenBindingStatus};
pub use crate::codec::{bytes_equal, decode_base64url, encode_base64url, sha256, text_equal};
pub use crate::credential_option::{
    Algorithm, Attestation, AuthenticatorAttachment, AuthenticatorSelection, BiometricPerfBounds,
    CredParam, ExcludeCredential, ExcludeCredentialTransport, Extension, OptionsConfig,
    PublicKeyCredentialCreationOptions, RelyingParty, User, UserVerification,
};
pub use crate::error::{CodecError, FlagCheck, RegistrationResponseError, WebAuthnError};
pub use crate::helper::generate_random;
pub use crate::json::{decode_json, JsonValue, ObjectBuilder};
pub use crate::session::{
    begin_registration, begin_registration_with, finish_registration, PendingRegistration,
    RegistrationSession,
};
pub use crate::statement::{find_registered, select_statement_verifier};
pub use crate::validation::{
    parses_as_integer, validate_name, NameError, RegistrationForm, ValidationError,
};
