//! The attestation object: a CBOR map with the attestation statement format,
//! the authenticator data and the attestation statement.

use crate::authenticator_data::{
    authenticator_data_of, parse_authenticator_data, AuthenticatorData,
};
use crate::cbor::{cbor_decoding, decode_cbor, find_text_entry_from, CborModel, CborValue};
use crate::error::CodecError;
use vstd::prelude::*;
use vstd::slice::{slice_subrange, slice_to_vec};

verus! {

/// A decoded attestation object.
#[derive(Debug)]
pub struct AttestationObject {
    /// The authenticator data record, still in its binary form.
    pub auth_data: Vec<u8>,
    /// Identifier of the attestation statement format.
    pub fmt: String,
    /// The attestation statement: a CBOR map whose entries depend on `fmt`.
    pub att_stmt: CborValue,
}

/// Mathematical content of an [`AttestationObject`].
pub struct AttestationObjectView {
    pub auth_data: Seq<u8>,
    pub fmt: Seq<char>,
    pub att_stmt: CborModel,
}

impl View for AttestationObject {
    type V = AttestationObjectView;

    open spec fn view(&self) -> AttestationObjectView {
        AttestationObjectView { auth_data: self.auth_data@, fmt: self.fmt@, att_stmt: self.att_stmt@ }
    }
}

/// The attestation object that a CBOR item holds, or `None` where it holds
/// none: the item must be a map of three entries with the text keys `fmt`,
/// `authData` and `attStmt`, whose values are a text, a byte string and a
/// map.
pub open spec fn attestation_object_of(item: CborModel) -> Option<AttestationObjectView> {
    match item {
        CborModel::Dictionary(entries) => if entries.len() != 3 {
            None
        } else {
            match (
                find_text_entry_from(entries, "fmt"@, 0),
                find_text_entry_from(entries, "authData"@, 0),
                find_text_entry_from(entries, "attStmt"@, 0),
            ) {
                (
                    Some(CborModel::Text(fmt)),
                    Some(CborModel::Bytes(auth_data)),
                    Some(CborModel::Dictionary(statement)),
                ) => Some(
                    AttestationObjectView {
                        auth_data,
                        fmt,
                        att_stmt: CborModel::Dictionary(statement),
                    },
                ),
                _ => None,
            }
        },
        _ => None,
    }
}

/// The attestation object that a byte string holds as a CBOR item.
pub open spec fn attestation_object_in(bytes: Seq<u8>) -> Option<AttestationObjectView> {
    match cbor_decoding(bytes) {
        Some(item) => attestation_object_of(item),
        None => None,
    }
}

/// The content of an optional item.
pub open spec fn optional_model(item: Option<CborValue>) -> Option<CborModel> {
    match item {
        Some(value) => Some(value@),
        None => None,
    }
}

/// The three keys of an attestation object are pairwise different texts.
proof fn lemma_keys_differ()
    ensures
        "fmt"@ != "authData"@,
        "fmt"@ != "attStmt"@,
        "authData"@ != "attStmt"@,
{
    reveal_strlit("fmt");
    reveal_strlit("authData");
    reveal_strlit("attStmt");
    assert("fmt"@.len() == 3);
    assert("authData"@.len() == 8);
    assert("attStmt"@.len() == 7);
}

impl AttestationObject {
    /// Reads a CBOR item as an attestation object.
    ///
    /// Succeeds exactly on the items that hold an attestation object.
    pub fn from_cbor(item: CborValue) -> (r: Result<AttestationObject, CodecError>)
        ensures
            match r {
                Ok(object) => attestation_object_of(item@) == Some(object@),
                Err(e) => e == CodecError::DecodeError && attestation_object_of(item@) is None,
            },
    {
        let ghost model = item@;
        let mut entries = match item {
            CborValue::Dictionary(entries) => entries,
            _ => {
                return Err(CodecError::DecodeError);
            },
        };
        if entries.len() != 3 {
            return Err(CodecError::DecodeError);
        }
        let ghost all = entries@;
        let ghost pairs = model->Dictionary_0;
        let mut fmt: Option<CborValue> = None;
        let mut auth_data: Option<CborValue> = None;
        let mut att_stmt: Option<CborValue> = None;
        // The entries are taken from the back, so that the first entry with
        // a given key is the one that stays.
        while entries.len() > 0
            invariant
                entries@.len() <= all.len(),
                entries@ == all.subrange(0, entries@.len() as int),
                pairs.len() == all.len(),
                forall|j: int| 0 <= j < all.len() ==> #[trigger] pairs[j] == (all[j].0@, all[j].1@),
                optional_model(fmt) == find_text_entry_from(pairs, "fmt"@, entries@.len() as int),
                optional_model(auth_data) == find_text_entry_from(
                    pairs,
                    "authData"@,
                    entries@.len() as int,
                ),
                optional_model(att_stmt) == find_text_entry_from(
                    pairs,
                    "attStmt"@,
                    entries@.len() as int,
                ),
            decreases entries@.len(),
        {
            let ghost at = entries@.len() - 1;
            let entry = entries.pop();
            proof {
                lemma_keys_differ();
                assert(pairs[at] == (all[at].0@, all[at].1@));
            }
            match entry {
                Some((key, value)) => {
                    if key.is_text("fmt") {
                        fmt = Some(value);
                    } else if key.is_text("authData") {
                        auth_data = Some(value);
                    } else if key.is_text("attStmt") {
                        att_stmt = Some(value);
                    }
                },
                None => {},
            }
        }
        match (fmt, auth_data, att_stmt) {
            (
                Some(CborValue::Text(fmt)),
                Some(CborValue::Bytes(auth_data)),
                Some(CborValue::Dictionary(statement)),
            ) => Ok(
                AttestationObject { auth_data, fmt, att_stmt: CborValue::Dictionary(statement) },
            ),
            _ => Err(CodecError::DecodeError),
        }
    }

    /// The RP ID hash that opens the authenticator data.
    pub fn get_auth_data_rp_id_hash(&self) -> (hash: Vec<u8>)
        requires
            self.auth_data@.len() >= 32,
        ensures
            hash@ == self.auth_data@.subrange(0, 32),
    {
        slice_to_vec(slice_subrange(self.auth_data.as_slice(), 0, 32))
    }

    /// The flags byte of the authenticator data.
    pub fn get_flag_bit(&self) -> (flags: u8)
        requires
            self.auth_data@.len() >= 33,
        ensures
            flags == self.auth_data@[32],
    {
        self.auth_data[32]
    }

    /// The authenticator data as a parsed record, where it is one.
    pub fn get_authenticator_data(&self) -> (r: Option<AuthenticatorData>)
        ensures
            match r {
                Some(data) => authenticator_data_of(self.auth_data@) == Some(data@),
                None => authenticator_data_of(self.auth_data@) is None,
            },
    {
        match parse_authenticator_data(self.auth_data.as_slice()) {
            Ok(data) => Some(data),
            Err(_) => None,
        }
    }
}

/// Decodes an attestation object from its CBOR bytes.
///
/// Succeeds exactly on the byte strings that encode a single CBOR item which
/// holds an attestation object.
pub fn decode_cbor_map(bytes: &[u8]) -> (r: Result<AttestationObject, CodecError>)
    ensures
        match r {
            Ok(object) => attestation_object_in(bytes@) == Some(object@),
            Err(e) => e == CodecError::DecodeError && attestation_object_in(bytes@) is None,
        },
{
    match decode_cbor(bytes) {
        Ok(item) => AttestationObject::from_cbor(item),
        Err(e) => Err(e),
    }
}

} // verus!
