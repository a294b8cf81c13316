//! Verification of a registration response.
//!
//! The checks run in a fixed order and stop at the first that fails:
//! client data decoding, ceremony type, challenge, origin, attestation object
//! decoding, authenticator data parsing, RP ID hash, user presence and, where
//! required, user verification. [`registration_outcome`] states the result
//! for every input; [`RegistrationResponse::verify`] computes it.

use crate::attestation_object::{attestation_object_in, decode_cbor_map, AttestationObject};
use crate::authenticator_data::{
    authenticator_data_of, parse_authenticator_data, AuthenticatorData, AuthenticatorDataView,
};
use crate::client_data::{client_data_in, ClientData, ClientDataType, ClientDataView};
use crate::codec::{
    base64url_decoding, bytes_equal, decode_base64url, sha256, sha256_digest, text_equal,
};
use crate::error::{FlagCheck, RegistrationResponseError};
use crate::statement::{select_statement_verifier, statement_verifier_choice};
use vstd::prelude::*;
use vstd::utf8::encode_utf8;

verus! {

/// The two fields of an attestation response as the client sends them, each
/// in base64url.
#[derive(Debug)]
pub struct AttestationResponse {
    /// The CBOR-encoded attestation object.
    pub att_obj: String,
    /// The JSON text of the client data.
    pub client_data: String,
}

/// Client extension outputs that the relying party expects.
#[derive(Debug)]
pub struct ClientExtension {
    pub appid: Option<String>,
    pub loc: Option<String>,
}

/// Authenticator extension outputs that the relying party expects.
#[derive(Debug)]
pub struct AuthenticatorExtension;

/// A registration response together with what the relying party expects of
/// it.
#[derive(Debug)]
pub struct RegistrationResponse<'a> {
    /// The RP ID whose SHA-256 digest the authenticator data must carry.
    pub rp_id: &'a str,
    /// The origin that the client data must state.
    pub origin: &'a str,
    pub attestation_response: AttestationResponse,
    pub trust_anchor_dir: &'a str,
    /// Whether an attestation statement must be verified: see
    /// [`crate::statement::select_statement_verifier`].
    pub trusted_attestaion_cert_required: bool,
    pub self_attestation_permitted: bool,
    pub none_attestation_permitted: bool,
    /// Whether the User Verified flag must be set.
    pub uv_required: bool,
    pub expected_registration_client_extensions: Option<ClientExtension>,
    pub expected_registration_authenticator_extensions: Option<AuthenticatorExtension>,
}

/// What a response that passed verification was found to hold.
#[derive(Debug)]
pub struct VerifiedRegistration {
    /// The bytes of the client data, as decoded from base64url.
    pub client_data_bytes: Vec<u8>,
    /// SHA-256 digest of `client_data_bytes`, for attestation statement
    /// verification.
    pub client_data_hash: Vec<u8>,
    pub client_data: ClientData,
    pub attestation_object: AttestationObject,
    pub authenticator_data: AuthenticatorData,
}

/// The digest that the authenticator data of a response for `rp_id` must
/// carry: SHA-256 of the RP ID's UTF-8 bytes.
pub open spec fn expected_rp_id_hash(rp_id: Seq<char>) -> Seq<u8> {
    sha256_digest(encode_utf8(rp_id))
}

/// Result of the checks on decoded client data: ceremony type, then
/// challenge, then origin.
pub open spec fn client_data_outcome(
    data: ClientDataView,
    challenge: Seq<char>,
    origin: Seq<char>,
) -> Result<(), RegistrationResponseError> {
    if data.type_ != ClientDataType::Create {
        Err(RegistrationResponseError::InvalidClientDataType)
    } else if data.challenge != challenge {
        Err(RegistrationResponseError::InvalidChallenge)
    } else if data.origin != origin {
        Err(RegistrationResponseError::InvalidOrigin)
    } else {
        Ok(())
    }
}

/// Result of the checks on parsed authenticator data: RP ID hash, then user
/// presence, then user verification where it is required.
pub open spec fn authenticator_data_outcome(
    data: AuthenticatorDataView,
    rp_id_hash: Seq<u8>,
    uv_required: bool,
) -> Result<(), RegistrationResponseError> {
    if data.rp_id_hash != rp_id_hash {
        Err(RegistrationResponseError::InvalidRpId)
    } else if !data.user_present() {
        Err(RegistrationResponseError::InvalidFlag(FlagCheck::UserPresent))
    } else if uv_required && !data.user_verified() {
        Err(RegistrationResponseError::InvalidFlag(FlagCheck::UserVerified))
    } else {
        Ok(())
    }
}

/// Result of decoding and checking the client data field.
pub open spec fn client_data_stage(
    client_data: Seq<char>,
    challenge: Seq<char>,
    origin: Seq<char>,
) -> Result<(), RegistrationResponseError> {
    match base64url_decoding(client_data) {
        None => Err(RegistrationResponseError::InvalidClientData),
        Some(bytes) => match client_data_in(bytes) {
            None => Err(RegistrationResponseError::InvalidClientData),
            Some(data) => client_data_outcome(data, challenge, origin),
        },
    }
}

/// Result of decoding and checking the attestation object field.
pub open spec fn attestation_stage(
    att_obj: Seq<char>,
    rp_id: Seq<char>,
    uv_required: bool,
) -> Result<(), RegistrationResponseError> {
    match base64url_decoding(att_obj) {
        None => Err(RegistrationResponseError::InvalidAttestationObject),
        Some(bytes) => match attestation_object_in(bytes) {
            None => Err(RegistrationResponseError::InvalidAttestationObject),
            Some(object) => match authenticator_data_of(object.auth_data) {
                None => Err(RegistrationResponseError::MalformedAuthenticatorData),
                Some(data) => authenticator_data_outcome(
                    data,
                    expected_rp_id_hash(rp_id),
                    uv_required,
                ),
            },
        },
    }
}

/// Result of verifying a response: that of the client data stage where it
/// fails, else that of the attestation stage.
pub open spec fn registration_outcome(
    client_data: Seq<char>,
    att_obj: Seq<char>,
    rp_id: Seq<char>,
    origin: Seq<char>,
    uv_required: bool,
    challenge: Seq<char>,
) -> Result<(), RegistrationResponseError> {
    match client_data_stage(client_data, challenge, origin) {
        Err(reason) => Err(reason),
        Ok(_) => attestation_stage(att_obj, rp_id, uv_required),
    }
}

/// Checks decoded client data against the expected challenge and origin.
pub fn check_client_data(data: &ClientData, challenge: &str, origin: &str) -> (r: Result<
    (),
    RegistrationResponseError,
>)
    ensures
        r == client_data_outcome(data@, challenge@, origin@),
{
    match data.type_ {
        ClientDataType::Create => {},
        ClientDataType::Get => {
            return Err(RegistrationResponseError::InvalidClientDataType);
        },
    }
    if !text_equal(data.challenge.as_str(), challenge) {
        return Err(RegistrationResponseError::InvalidChallenge);
    }
    if !text_equal(data.origin.as_str(), origin) {
        return Err(RegistrationResponseError::InvalidOrigin);
    }
    Ok(())
}

/// Checks parsed authenticator data against the expected RP ID hash and the
/// flag policy.
pub fn check_authenticator_data(
    data: &AuthenticatorData,
    rp_id_hash: &[u8],
    uv_required: bool,
) -> (r: Result<(), RegistrationResponseError>)
    ensures
        r == authenticator_data_outcome(data@, rp_id_hash@, uv_required),
{
    if !bytes_equal(data.rp_id_hash.as_slice(), rp_id_hash) {
        return Err(RegistrationResponseError::InvalidRpId);
    }
    if !data.user_present() {
        return Err(RegistrationResponseError::InvalidFlag(FlagCheck::UserPresent));
    }
    if uv_required && !data.user_verified() {
        return Err(RegistrationResponseError::InvalidFlag(FlagCheck::UserVerified));
    }
    Ok(())
}

impl<'a> RegistrationResponse<'a> {
    /// A response for the given RP ID and origin, with no further demands:
    /// no attestation is required and user verification is optional.
    pub fn new(rp_id: &'a str, origin: &'a str, attestation_response: AttestationResponse) -> (r:
        Self)
        ensures
            r.rp_id@ == rp_id@,
            r.origin@ == origin@,
            r.attestation_response == attestation_response,
            r.trust_anchor_dir@ == Seq::<char>::empty(),
            !r.trusted_attestaion_cert_required,
            !r.self_attestation_permitted,
            !r.none_attestation_permitted,
            !r.uv_required,
            r.expected_registration_client_extensions is None,
            r.expected_registration_authenticator_extensions is None,
    {
        let trust_anchor_dir = "";
        proof {
            reveal_strlit("");
            assert(trust_anchor_dir@ =~= Seq::<char>::empty());
        }
        RegistrationResponse {
            rp_id,
            origin,
            attestation_response,
            trust_anchor_dir,
            trusted_attestaion_cert_required: false,
            self_attestation_permitted: false,
            none_attestation_permitted: false,
            uv_required: false,
            expected_registration_client_extensions: None,
            expected_registration_authenticator_extensions: None,
        }
    }

    /// The result that verification against `challenge` has.
    pub open spec fn outcome(&self, challenge: Seq<char>) -> Result<(), RegistrationResponseError> {
        registration_outcome(
            self.attestation_response.client_data@,
            self.attestation_response.att_obj@,
            self.rp_id@,
            self.origin@,
            self.uv_required,
            challenge,
        )
    }

    /// Verifies the response against the challenge that was issued for it.
    ///
    /// Returns `Ok` exactly when every check passes, and otherwise the reason
    /// of the first check that fails.
    pub fn verify(&self, challenge: &str) -> (r: Result<(), RegistrationResponseError>)
        ensures
            r == self.outcome(challenge@),
    {
        match self.verify_with_details(challenge) {
            Ok(_) => Ok(()),
            Err(reason) => Err(reason),
        }
    }

    /// Verifies the response as [`Self::verify`] does and, where it passes,
    /// hands out what was decoded on the way, with the digest of the client
    /// data that attestation statement verification needs.
    pub fn verify_with_details(&self, challenge: &str) -> (r: Result<
        VerifiedRegistration,
        RegistrationResponseError,
    >)
        ensures
            match r {
                Ok(found) => {
                    &&& self.outcome(challenge@) is Ok
                    &&& base64url_decoding(self.attestation_response.client_data@) == Some(
                        found.client_data_bytes@,
                    )
                    &&& found.client_data_hash@ == sha256_digest(found.client_data_bytes@)
                    &&& client_data_in(found.client_data_bytes@) == Some(found.client_data@)
                    &&& base64url_decoding(self.attestation_response.att_obj@) matches Some(bytes)
                        && attestation_object_in(bytes) == Some(found.attestation_object@)
                    &&& authenticator_data_of(found.attestation_object.auth_data@) == Some(
                        found.authenticator_data@,
                    )
                },
                Err(reason) => self.outcome(challenge@) == Err::<(), _>(reason),
            },
    {
        let client_data_bytes = match decode_base64url(
            self.attestation_response.client_data.as_str(),
        ) {
            Ok(bytes) => bytes,
            Err(_) => {
                return Err(RegistrationResponseError::InvalidClientData);
            },
        };
        let client_data = match ClientData::decode(client_data_bytes.as_slice()) {
            Ok(data) => data,
            Err(_) => {
                return Err(RegistrationResponseError::InvalidClientData);
            },
        };
        match check_client_data(&client_data, challenge, self.origin) {
            Ok(_) => {},
            Err(reason) => {
                return Err(reason);
            },
        }
        let client_data_hash = sha256(client_data_bytes.as_slice());
        let object_bytes = match decode_base64url(self.attestation_response.att_obj.as_str()) {
            Ok(bytes) => bytes,
            Err(_) => {
                return Err(RegistrationResponseError::InvalidAttestationObject);
            },
        };
        let attestation_object = match decode_cbor_map(object_bytes.as_slice()) {
            Ok(object) => object,
            Err(_) => {
                return Err(RegistrationResponseError::InvalidAttestationObject);
            },
        };
        let authenticator_data = match parse_authenticator_data(
            attestation_object.auth_data.as_slice(),
        ) {
            Ok(data) => data,
            Err(_) => {
                return Err(RegistrationResponseError::MalformedAuthenticatorData);
            },
        };
        let rp_id_hash = sha256(self.rp_id.as_bytes());
        match check_authenticator_data(&authenticator_data, rp_id_hash.as_slice(), self.uv_required) {
            Ok(_) => {},
            Err(reason) => {
                return Err(reason);
            },
        }
        Ok(
            VerifiedRegistration {
                client_data_bytes,
                client_data_hash,
                client_data,
                attestation_object,
                authenticator_data,
            },
        )
    }

    /// Decides which of the `registered` statement verifiers serves a
    /// response that passed verification, with attestation required exactly
    /// when `trusted_attestaion_cert_required` is set.
    pub fn statement_verifier(&self, found: &VerifiedRegistration, registered: &Vec<String>) -> (r:
        Result<Option<usize>, RegistrationResponseError>)
        ensures
            match r {
                Ok(Some(position)) => statement_verifier_choice(
                    found.attestation_object.fmt@,
                    registered@,
                    self.trusted_attestaion_cert_required,
                ) == Ok::<_, RegistrationResponseError>(Some(position as int)),
                Ok(None) => statement_verifier_choice(
                    found.attestation_object.fmt@,
                    registered@,
                    self.trusted_attestaion_cert_required,
                ) == Ok::<_, RegistrationResponseError>(None::<int>),
                Err(reason) => statement_verifier_choice(
                    found.attestation_object.fmt@,
                    registered@,
                    self.trusted_attestaion_cert_required,
                ) == Err::<Option<int>, _>(reason),
            },
    {
        select_statement_verifier(
            found.attestation_object.fmt.as_str(),
            registered,
            self.trusted_attestaion_cert_required,
        )
    }
}

/// The ceremony type is checked before the challenge: client data of the
/// wrong type is reported as such, whatever challenge and origin it states.
pub proof fn lemma_type_check_comes_first(
    data: ClientDataView,
    challenge: Seq<char>,
    origin: Seq<char>,
)
    requires
        data.type_ != ClientDataType::Create,
    ensures
        client_data_outcome(data, challenge, origin) == Err::<(), _>(
            RegistrationResponseError::InvalidClientDataType,
        ),
{
}

/// A response whose client data decodes to a record of the wrong type is
/// rejected with `InvalidClientDataType`, also where its challenge is wrong
/// and whatever its attestation object holds.
pub proof fn lemma_wrong_type_reported_before_wrong_challenge(
    client_data: Seq<char>,
    att_obj: Seq<char>,
    rp_id: Seq<char>,
    origin: Seq<char>,
    uv_required: bool,
    challenge: Seq<char>,
)
    ensures
        (base64url_decoding(client_data) matches Some(bytes) && client_data_in(bytes) matches Some(
            data,
        ) && data.type_ != ClientDataType::Create) ==> registration_outcome(
            client_data,
            att_obj,
            rp_id,
            origin,
            uv_required,
            challenge,
        ) == Err::<(), _>(RegistrationResponseError::InvalidClientDataType),
{
}

/// Verification succeeds only when every check passes: both fields decode,
/// the client data is of type `webauthn.create` and states the expected
/// challenge and origin, and the authenticator data carries the digest of the
/// RP ID, the User Present flag and, where required, the User Verified flag.
pub proof fn lemma_success_needs_every_check(
    client_data: Seq<char>,
    att_obj: Seq<char>,
    rp_id: Seq<char>,
    origin: Seq<char>,
    uv_required: bool,
    challenge: Seq<char>,
)
    ensures
        registration_outcome(client_data, att_obj, rp_id, origin, uv_required, challenge) is Ok <==> {
            &&& base64url_decoding(client_data) matches Some(client_bytes)
            &&& client_data_in(client_bytes) matches Some(data)
            &&& data.type_ == ClientDataType::Create
            &&& data.challenge == challenge
            &&& data.origin == origin
            &&& base64url_decoding(att_obj) matches Some(object_bytes)
            &&& attestation_object_in(object_bytes) matches Some(object)
            &&& authenticator_data_of(object.auth_data) matches Some(record)
            &&& record.rp_id_hash == expected_rp_id_hash(rp_id)
            &&& record.user_present()
            &&& (uv_required ==> record.user_verified())
        },
{
}

} // verus!
