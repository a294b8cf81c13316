//! The client data: the JSON record in which the client platform states the
//! ceremony type, the challenge it was given and its origin.

use crate::codec::text_equal;
use crate::error::CodecError;
use crate::json::{decode_json, json_decoding, JsonModel, JsonValue};
use vstd::prelude::*;

verus! {

/// The ceremony that a client data record belongs to.
#[derive(Clone, Copy, Debug, PartialEq, Eq, Structural)]
pub enum ClientDataType {
    /// `webauthn.get`: an authentication.
    Get,
    /// `webauthn.create`: a registration.
    Create,
}

/// State of Token Binding on the client's connection.
#[derive(Clone, Copy, Debug, PartialEq, Eq, Structural)]
pub enum TokenBindingStatus {
    /// `supported`: the client supports Token Binding and did not use it.
    Supported,
    /// `present`: Token Binding was used.
    Present,
}

/// What the client states about Token Binding.
#[derive(Debug)]
pub struct TokenBinding {
    pub status: TokenBindingStatus,
    /// Base64url text of the Token Binding id.
    pub id: String,
}

/// Mathematical content of a [`TokenBinding`].
pub struct TokenBindingView {
    pub status: TokenBindingStatus,
    pub id: Seq<char>,
}

impl View for TokenBinding {
    type V = TokenBindingView;

    open spec fn view(&self) -> TokenBindingView {
        TokenBindingView { status: self.status, id: self.id@ }
    }
}

/// A decoded client data record.
#[derive(Debug)]
pub struct ClientData {
    /// The challenge as the client transmitted it.
    pub challenge: String,
    /// The origin that the client saw.
    pub origin: String,
    pub type_: ClientDataType,
    pub token_binding: Option<TokenBinding>,
}

/// Mathematical content of a [`ClientData`].
pub struct ClientDataView {
    pub challenge: Seq<char>,
    pub origin: Seq<char>,
    pub type_: ClientDataType,
    pub token_binding: Option<TokenBindingView>,
}

impl View for ClientData {
    type V = ClientDataView;

    open spec fn view(&self) -> ClientDataView {
        ClientDataView {
            challenge: self.challenge@,
            origin: self.origin@,
            type_: self.type_,
            token_binding: match self.token_binding {
                Some(binding) => Some(binding@),
                None => None,
            },
        }
    }
}

/// The ceremony type that a wire token names.
pub open spec fn client_data_type_of(token: Seq<char>) -> Option<ClientDataType> {
    if token == "webauthn.get"@ {
        Some(ClientDataType::Get)
    } else if token == "webauthn.create"@ {
        Some(ClientDataType::Create)
    } else {
        None
    }
}

/// The Token Binding status that a wire token names.
pub open spec fn token_binding_status_of(token: Seq<char>) -> Option<TokenBindingStatus> {
    if token == "supported"@ {
        Some(TokenBindingStatus::Supported)
    } else if token == "present"@ {
        Some(TokenBindingStatus::Present)
    } else {
        None
    }
}

/// The Token Binding statement of a client data document: `Some(None)` where
/// the member `tokenBinding` is absent or null, `Some(Some(..))` where it is
/// an object with a known `status` and a text `id`, and `None` where it is
/// anything else.
pub open spec fn token_binding_of(doc: JsonModel) -> Option<Option<TokenBindingView>> {
    match doc.member("tokenBinding"@) {
        None => Some(None),
        Some(JsonModel::Null) => Some(None),
        Some(binding) => match (binding.text_member("status"@), binding.text_member("id"@)) {
            (Some(status), Some(id)) => match token_binding_status_of(status) {
                Some(status) => Some(Some(TokenBindingView { status, id })),
                None => None,
            },
            _ => None,
        },
    }
}

/// The client data that a JSON document holds, or `None` where it holds
/// none: the document must be an object whose members `type`, `challenge`
/// and `origin` are texts, `type` must name a ceremony, and `tokenBinding`,
/// where present, must be well-formed. Other members are ignored.
pub open spec fn client_data_of(doc: JsonModel) -> Option<ClientDataView> {
    match (
        doc.text_member("type"@),
        doc.text_member("challenge"@),
        doc.text_member("origin"@),
        token_binding_of(doc),
    ) {
        (Some(type_token), Some(challenge), Some(origin), Some(token_binding)) => match client_data_type_of(
            type_token,
        ) {
            Some(type_) => Some(ClientDataView { challenge, origin, type_, token_binding }),
            None => None,
        },
        _ => None,
    }
}

/// The client data that a byte string holds as a JSON document.
pub open spec fn client_data_in(bytes: Seq<u8>) -> Option<ClientDataView> {
    match json_decoding(bytes) {
        Some(doc) => client_data_of(doc),
        None => None,
    }
}

impl ClientDataType {
    /// The ceremony type that `token` names.
    pub fn from_token(token: &str) -> (r: Option<ClientDataType>)
        ensures
            r == client_data_type_of(token@),
    {
        if text_equal(token, "webauthn.get") {
            Some(ClientDataType::Get)
        } else if text_equal(token, "webauthn.create") {
            Some(ClientDataType::Create)
        } else {
            None
        }
    }
}

impl TokenBindingStatus {
    /// The status that `token` names.
    pub fn from_token(token: &str) -> (r: Option<TokenBindingStatus>)
        ensures
            r == token_binding_status_of(token@),
    {
        if text_equal(token, "supported") {
            Some(TokenBindingStatus::Supported)
        } else if text_equal(token, "present") {
            Some(TokenBindingStatus::Present)
        } else {
            None
        }
    }
}

impl TokenBinding {
    /// Reads the member `tokenBinding` of a client data document.
    ///
    /// The outer result says whether the document is acceptable; the inner
    /// one whether it makes a statement.
    pub fn from_json(doc: &JsonValue) -> (r: Result<Option<TokenBinding>, CodecError>)
        ensures
            match r {
                Ok(Some(binding)) => token_binding_of(doc@) == Some(Some(binding@)),
                Ok(None) => token_binding_of(doc@) == Some(None::<TokenBindingView>),
                Err(e) => e == CodecError::DecodeError && token_binding_of(doc@) is None,
            },
    {
        let binding = match doc.member("tokenBinding") {
            None => {
                return Ok(None);
            },
            Some(binding) => binding,
        };
        if let JsonValue::Null = binding {
            return Ok(None);
        }
        let status_token = match binding.text_member("status") {
            Some(token) => token,
            None => {
                return Err(CodecError::DecodeError);
            },
        };
        let id = match binding.text_member("id") {
            Some(id) => id,
            None => {
                return Err(CodecError::DecodeError);
            },
        };
        match TokenBindingStatus::from_token(status_token) {
            Some(status) => Ok(Some(TokenBinding { status, id: id.to_owned() })),
            None => Err(CodecError::DecodeError),
        }
    }
}

impl ClientData {
    /// Reads a JSON document as client data.
    ///
    /// Succeeds exactly on the documents that hold client data.
    pub fn from_json(doc: &JsonValue) -> (r: Result<ClientData, CodecError>)
        ensures
            match r {
                Ok(data) => client_data_of(doc@) == Some(data@),
                Err(e) => e == CodecError::DecodeError && client_data_of(doc@) is None,
            },
    {
        let type_token = match doc.text_member("type") {
            Some(token) => token,
            None => {
                return Err(CodecError::DecodeError);
            },
        };
        let challenge = match doc.text_member("challenge") {
            Some(challenge) => challenge,
            None => {
                return Err(CodecError::DecodeError);
            },
        };
        let origin = match doc.text_member("origin") {
            Some(origin) => origin,
            None => {
                return Err(CodecError::DecodeError);
            },
        };
        let token_binding = match TokenBinding::from_json(doc) {
            Ok(token_binding) => token_binding,
            Err(e) => {
                return Err(e);
            },
        };
        match ClientDataType::from_token(type_token) {
            Some(type_) => Ok(
                ClientData {
                    challenge: challenge.to_owned(),
                    origin: origin.to_owned(),
                    type_,
                    token_binding,
                },
            ),
            None => Err(CodecError::DecodeError),
        }
    }

    /// Decodes client data from the UTF-8 bytes of its JSON text.
    ///
    /// Succeeds exactly on the byte strings that spell a JSON document which
    /// holds client data.
    pub fn decode(bytes: &[u8]) -> (r: Result<ClientData, CodecError>)
        ensures
            match r {
                Ok(data) => client_data_in(bytes@) == Some(data@),
                Err(e) => e == CodecError::DecodeError && client_data_in(bytes@) is None,
            },
    {
        match decode_json(bytes) {
            Ok(doc) => ClientData::from_json(&doc),
            Err(e) => Err(e),
        }
    }
}

} // verus!
