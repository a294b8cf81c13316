//! Error kinds of the codec layer and of the registration ceremony.

use vstd::prelude::*;

verus! {

/// Failures of the binary codec layer.
#[derive(Clone, Copy, Debug, PartialEq, Eq, Structural)]
pub enum CodecError {
    /// Malformed base64url, UTF-8, JSON or CBOR input, or a decoded document
    /// that does not have the expected shape.
    DecodeError,
    /// An authenticator data record that is too short or whose attested
    /// credential block does not fit the bytes that follow the header.
    MalformedAuthenticatorData,
}

/// The flag bit whose absence made a response fail.
#[derive(Clone, Copy, Debug, PartialEq, Eq, Structural)]
pub enum FlagCheck {
    /// The User Present bit was clear.
    UserPresent,
    /// User verification was required and the User Verified bit was clear.
    UserVerified,
}

/// Why a registration response was rejected.
///
/// The variants from `InvalidClientData` to `InvalidFlag` are listed in the
/// order in which verification runs its checks; a response that fails
/// several of them is reported with the earliest one.
#[derive(Clone, Copy, Debug, PartialEq, Eq, Structural)]
pub enum RegistrationResponseError {
    /// The client data could not be decoded.
    InvalidClientData,
    /// The client data is not of type `webauthn.create`.
    InvalidClientDataType,
    /// The echoed challenge differs from the one bound to the session.
    InvalidChallenge,
    /// The origin differs from the expected one.
    InvalidOrigin,
    /// The attestation object could not be decoded.
    InvalidAttestationObject,
    /// The authenticator data record is malformed.
    MalformedAuthenticatorData,
    /// The RP ID hash is not the SHA-256 digest of the expected RP ID.
    InvalidRpId,
    /// A required flag bit is clear.
    InvalidFlag(FlagCheck),
    /// Attestation is required and no statement verifier is registered for
    /// the format of the response.
    UnsupportedAttestationFormat,
    /// No registration is pending in the session.
    SessionStateMissing,
}

/// Outcome kinds that the service reports to its clients.
#[derive(Clone, Copy, Debug, PartialEq, Eq, Structural)]
pub enum WebAuthnError {
    InvalidCOSEKey,
    AuthenticationRejected,
    RegistrationRejected,
    WebAuthnUserDataMissing,
}

impl WebAuthnError {
    /// The client-visible kind of a rejected registration: a missing session
    /// record is reported as such, every other reason as a plain rejection.
    pub open spec fn rejection_of(reason: RegistrationResponseError) -> WebAuthnError {
        match reason {
            RegistrationResponseError::SessionStateMissing => WebAuthnError::WebAuthnUserDataMissing,
            _ => WebAuthnError::RegistrationRejected,
        }
    }

    /// Maps the reason of a rejected registration to its client-visible kind.
    pub fn from_registration(reason: RegistrationResponseError) -> (kind: WebAuthnError)
        ensures
            kind == Self::rejection_of(reason),
    {
        match reason {
            RegistrationResponseError::SessionStateMissing => WebAuthnError::WebAuthnUserDataMissing,
            _ => WebAuthnError::RegistrationRejected,
        }
    }

    /// The human-readable message of this kind.
    pub fn message(&self) -> (text: &'static str)
        ensures
            text@ == match *self {
                WebAuthnError::InvalidCOSEKey => "invalid COSE key"@,
                WebAuthnError::AuthenticationRejected => "authentication rejected"@,
                WebAuthnError::RegistrationRejected => "registration rejected"@,
                WebAuthnError::WebAuthnUserDataMissing => "webauthn user data missing"@,
            },
    {
        match self {
            WebAuthnError::InvalidCOSEKey => "invalid COSE key",
            WebAuthnError::AuthenticationRejected => "authentication rejected",
            WebAuthnError::RegistrationRejected => "registration rejected",
            WebAuthnError::WebAuthnUserDataMissing => "webauthn user data missing",
        }
    }
}

} // verus!
