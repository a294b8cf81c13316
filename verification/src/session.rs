//! The state that binds the two requests of a registration ceremony.
//!
//! The session store itself belongs to the service. The library holds what
//! one session keeps, a [`RegistrationSession`], and states how the two
//! phases of the ceremony change it: beginning a registration replaces
//! whatever was pending, and finishing one consumes the challenge before the
//! response is looked at, so that no response can pass twice.

use crate::attestation_response::{registration_outcome, RegistrationResponse};
use crate::credential_option::{
    optional_excluded, optional_extension, params_view, public_key_type, Algorithm, CredParam,
    CredParamView, OptionsConfig, PublicKeyCredentialCreationOptions, RelyingParty, User,
};
use crate::error::RegistrationResponseError;
use crate::helper::{
    encodes_bytes_of_length, DEFAULT_CHALLENGE_LENGTH, DEFAULT_USER_HANDLE_LENGTH,
};
use crate::validation::{form_verdict, RegistrationForm, ValidationError};
use vstd::prelude::*;

verus! {

/// What a session keeps of a registration that has begun.
#[derive(Debug)]
pub struct PendingRegistration {
    pub username: String,
    pub display_name: String,
    /// The challenge that was issued, in base64url.
    pub challenge: String,
    /// The handle that was issued for the user, in base64url.
    pub user_handle: String,
}

/// Mathematical content of a [`PendingRegistration`].
pub struct PendingRegistrationView {
    pub username: Seq<char>,
    pub display_name: Seq<char>,
    pub challenge: Seq<char>,
    pub user_handle: Seq<char>,
}

impl View for PendingRegistration {
    type V = PendingRegistrationView;

    open spec fn view(&self) -> PendingRegistrationView {
        PendingRegistrationView {
            username: self.username@,
            display_name: self.display_name@,
            challenge: self.challenge@,
            user_handle: self.user_handle@,
        }
    }
}

/// The registration state of one session.
#[derive(Debug)]
pub struct RegistrationSession {
    /// The registration that has begun and is not finished, if any.
    pub pending: Option<PendingRegistration>,
}

/// Result of finishing a registration in a session that holds the challenge
/// `stored`: without a pending registration the response is not looked at.
pub open spec fn session_outcome(
    stored: Option<Seq<char>>,
    client_data: Seq<char>,
    att_obj: Seq<char>,
    rp_id: Seq<char>,
    origin: Seq<char>,
    uv_required: bool,
) -> Result<(), RegistrationResponseError> {
    match stored {
        None => Err(RegistrationResponseError::SessionStateMissing),
        Some(challenge) => registration_outcome(
            client_data,
            att_obj,
            rp_id,
            origin,
            uv_required,
            challenge,
        ),
    }
}

/// The challenge that a session holds after a registration was finished in
/// it: none, whatever it held before and however the response fared.
pub open spec fn challenge_after_finish(stored: Option<Seq<char>>) -> Option<Seq<char>> {
    None
}

impl RegistrationSession {
    /// The pending registration, if any.
    pub open spec fn pending_view(&self) -> Option<PendingRegistrationView> {
        match self.pending {
            Some(pending) => Some(pending@),
            None => None,
        }
    }

    /// The challenge of the pending registration, if any.
    pub open spec fn challenge(&self) -> Option<Seq<char>> {
        match self.pending {
            Some(pending) => Some(pending.challenge@),
            None => None,
        }
    }

    /// A session without a pending registration.
    pub fn new() -> (session: Self)
        ensures
            session.pending is None,
    {
        RegistrationSession { pending: None }
    }

    /// A session that holds what the store kept.
    pub fn restore(pending: Option<PendingRegistration>) -> (session: Self)
        ensures
            session.pending == pending,
    {
        RegistrationSession { pending }
    }

    /// Forgets the pending registration.
    pub fn clear(&mut self)
        ensures
            final(self).pending is None,
    {
        self.pending = None;
    }

    /// Takes the challenge of the pending registration out of the session,
    /// which holds no registration afterwards.
    pub fn take_challenge(&mut self) -> (challenge: Option<String>)
        ensures
            final(self).pending is None,
            match challenge {
                Some(challenge) => old(self).challenge() == Some(challenge@),
                None => old(self).challenge() is None,
            },
    {
        let pending = self.pending.take();
        match pending {
            Some(pending) => Some(pending.challenge),
            None => None,
        }
    }
}

/// The kinds of credential that a registration accepts, most preferred
/// first: public-key credentials with ES256, PS256 or RS256.
pub open spec fn accepted_params() -> Seq<CredParamView> {
    seq![
        CredParamView { alg: Algorithm::ES256, type_: public_key_type() },
        CredParamView { alg: Algorithm::PS256, type_: public_key_type() },
        CredParamView { alg: Algorithm::RS256, type_: public_key_type() },
    ]
}

/// Begins a registration: forgets what was pending, validates the names and,
/// where they are valid, issues options with a fresh challenge of 32 bytes
/// and a fresh user handle of 20 bytes, and binds them to the session.
///
/// The options accept ES256, PS256 and RS256 and carry the optional parts
/// that `config` sets.
pub fn begin_registration_with(
    session: &mut RegistrationSession,
    rp: RelyingParty,
    form: &RegistrationForm,
    config: OptionsConfig,
) -> (r: Result<PublicKeyCredentialCreationOptions, ValidationError>)
    ensures
        match r {
            Ok(options) => {
                &&& form_verdict(form.username@, form.display_name@) is Ok
                &&& options@.rp == rp@
                &&& options@.user.name == form.username@
                &&& options@.user.display_name == form.display_name@
                &&& options@.user.icon is None
                &&& encodes_bytes_of_length(options@.user.id, DEFAULT_USER_HANDLE_LENGTH as nat)
                &&& encodes_bytes_of_length(options@.challenge, DEFAULT_CHALLENGE_LENGTH as nat)
                &&& options@.pub_key_cred_params == accepted_params()
                &&& options@.timeout == config.timeout
                &&& options@.exclude_credentials == optional_excluded(config.exclude_credentials)
                &&& options@.authenticator_selection == config.authenticator_selection
                &&& options@.attestation == config.attestation
                &&& options@.extensions == optional_extension(config.extensions)
                &&& final(session).pending_view() == Some(
                    PendingRegistrationView {
                        username: form.username@,
                        display_name: form.display_name@,
                        challenge: options@.challenge,
                        user_handle: options@.user.id,
                    },
                )
            },
            Err(reason) => form_verdict(form.username@, form.display_name@) == Err::<(), _>(reason)
                && final(session).pending is None,
        },
{
    session.clear();
    match form.validate() {
        Err(reason) => {
            return Err(reason);
        },
        Ok(_) => {},
    }
    let user = User::new(form.username.as_str(), form.display_name.as_str(), None);
    let mut params: Vec<CredParam> = Vec::new();
    params.push(CredParam::new(Algorithm::ES256));
    params.push(CredParam::new(Algorithm::PS256));
    params.push(CredParam::new(Algorithm::RS256));
    assert(params_view(params@) =~= accepted_params());
    let options = PublicKeyCredentialCreationOptions::new(
        rp,
        user,
        DEFAULT_CHALLENGE_LENGTH,
        params,
        config.timeout,
        config.exclude_credentials,
        config.authenticator_selection,
        config.attestation,
        config.extensions,
    );
    session.pending = Some(
        PendingRegistration {
            username: options.user.name.clone(),
            display_name: options.user.display_name.clone(),
            challenge: options.challenge.clone(),
            user_handle: options.user.id.clone(),
        },
    );
    Ok(options)
}

/// Begins a registration whose options set no optional part: see
/// [`begin_registration_with`].
pub fn begin_registration(
    session: &mut RegistrationSession,
    rp: RelyingParty,
    form: &RegistrationForm,
) -> (r: Result<PublicKeyCredentialCreationOptions, ValidationError>)
    ensures
        match r {
            Ok(options) => {
                &&& form_verdict(form.username@, form.display_name@) is Ok
                &&& options@.rp == rp@
                &&& options@.user.name == form.username@
                &&& options@.user.display_name == form.display_name@
                &&& options@.user.icon is None
                &&& encodes_bytes_of_length(options@.user.id, DEFAULT_USER_HANDLE_LENGTH as nat)
                &&& encodes_bytes_of_length(options@.challenge, DEFAULT_CHALLENGE_LENGTH as nat)
                &&& options@.pub_key_cred_params == accepted_params()
                &&& options@.timeout is None
                &&& options@.exclude_credentials is None
                &&& options@.authenticator_selection is None
                &&& options@.attestation is None
                &&& options@.extensions is None
                &&& final(session).pending_view() == Some(
                    PendingRegistrationView {
                        username: form.username@,
                        display_name: form.display_name@,
                        challenge: options@.challenge,
                        user_handle: options@.user.id,
                    },
                )
            },
            Err(reason) => form_verdict(form.username@, form.display_name@) == Err::<(), _>(reason)
                && final(session).pending is None,
        },
{
    begin_registration_with(session, rp, form, OptionsConfig::default())
}

/// Finishes a registration: takes the challenge out of the session, then
/// verifies the response against it.
///
/// The session holds no registration afterwards, whether the response passed
/// or not. Without a pending registration the result is
/// `SessionStateMissing`.
pub fn finish_registration(session: &mut RegistrationSession, response: &RegistrationResponse) -> (r:
    Result<(), RegistrationResponseError>)
    ensures
        final(session).pending is None,
        final(session).challenge() == challenge_after_finish(old(session).challenge()),
        r == session_outcome(
            old(session).challenge(),
            response.attestation_response.client_data@,
            response.attestation_response.att_obj@,
            response.rp_id@,
            response.origin@,
            response.uv_required,
        ),
{
    match session.take_challenge() {
        None => Err(RegistrationResponseError::SessionStateMissing),
        Some(challenge) => response.verify(challenge.as_str()),
    }
}

/// A response passes at most once in a session: after a registration was
/// finished, however it ended, finishing again with any response gives
/// `SessionStateMissing`.
pub proof fn lemma_replay_is_rejected(
    stored: Option<Seq<char>>,
    client_data: Seq<char>,
    att_obj: Seq<char>,
    rp_id: Seq<char>,
    origin: Seq<char>,
    uv_required: bool,
)
    ensures
        session_outcome(
            challenge_after_finish(stored),
            client_data,
            att_obj,
            rp_id,
            origin,
            uv_required,
        ) == Err::<(), _>(RegistrationResponseError::SessionStateMissing),
        !(session_outcome(stored, client_data, att_obj, rp_id, origin, uv_required) is Ok
            && session_outcome(
            challenge_after_finish(stored),
            client_data,
            att_obj,
            rp_id,
            origin,
            uv_required,
        ) is Ok),
{
}

/// A response that passed against one challenge does not pass in a session
/// that holds another: it is rejected with `InvalidChallenge`. So a response
/// of an earlier registration cannot finish a later one.
pub proof fn lemma_stale_challenge_is_rejected(
    stored: Seq<char>,
    client_data: Seq<char>,
    att_obj: Seq<char>,
    rp_id: Seq<char>,
    origin: Seq<char>,
    uv_required: bool,
    earlier: Seq<char>,
)
    ensures
        (earlier != stored && registration_outcome(
            client_data,
            att_obj,
            rp_id,
            origin,
            uv_required,
            earlier,
        ) is Ok) ==> session_outcome(
            Some(stored),
            client_data,
            att_obj,
            rp_id,
            origin,
            uv_required,
        ) == Err::<(), _>(RegistrationResponseError::InvalidChallenge),
{
}

} // verus!
