//! The authenticator data record: a fixed header of RP ID hash, flags and
//! signature counter, followed by an optional attested credential block and
//! optional extension bytes. All multi-byte integers are big-endian.

use crate::error::CodecError;
use vstd::arithmetic::div_mod::{
    lemma_div_denominator, lemma_fundamental_div_mod, lemma_fundamental_div_mod_converse,
};
use vstd::prelude::*;
use vstd::slice::{slice_subrange, slice_to_vec};

verus! {

/// Length of the SHA-256 digest of the RP ID that opens the record.
pub const RP_ID_HASH_LENGTH: usize = 32;

/// Length of the flags field.
pub const FLAGS_LENGTH: usize = 1;

/// Length of the signature counter.
pub const SIGN_COUNT_LENGTH: usize = 4;

/// Length of the fixed header: hash, flags and counter.
pub const AUTHENTICATOR_DATA_LENGTH: usize = RP_ID_HASH_LENGTH + FLAGS_LENGTH + SIGN_COUNT_LENGTH;

/// Length of the authenticator's AAGUID.
pub const AAGUID_LENGTH: usize = 16;

/// Length of the field that holds the length of the credential id.
pub const CREDENTIAL_ID_LENGTH_LENGTH: usize = 2;

/// Offset of the first byte of the credential id in a record that carries
/// attested credential data.
pub const CREDENTIAL_ID_OFFSET: usize = AUTHENTICATOR_DATA_LENGTH + AAGUID_LENGTH
    + CREDENTIAL_ID_LENGTH_LENGTH;

/// Bit 0 of the flags: the user was present.
pub const FLAG_USER_PRESENT: u8 = 0x01;

/// Bit 2 of the flags: the user was verified.
pub const FLAG_USER_VERIFIED: u8 = 0x04;

/// Bit 6 of the flags: attested credential data follows the header.
pub const FLAG_ATTESTED_CREDENTIAL_DATA: u8 = 0x40;

/// Bit 7 of the flags: extension data is included.
pub const FLAG_EXTENSION_DATA: u8 = 0x80;

/// Whether every bit of `mask` is set in `flags`, for a mask of one bit.
pub open spec fn flag_is_set(flags: u8, mask: u8) -> bool {
    flags & mask != 0
}

/// The number that two bytes spell in big-endian order.
pub open spec fn be_u16_value(high: u8, low: u8) -> int {
    high as int * 0x100 + low as int
}

/// The number that four bytes spell in big-endian order.
pub open spec fn be_u32_value(b0: u8, b1: u8, b2: u8, b3: u8) -> int {
    b0 as int * 0x100_0000 + b1 as int * 0x1_0000 + b2 as int * 0x100 + b3 as int
}

/// The two bytes that spell `n` in big-endian order.
pub open spec fn be_u16_bytes(n: int) -> Seq<u8> {
    seq![(n / 0x100) as u8, (n % 0x100) as u8]
}

/// The four bytes that spell `n` in big-endian order.
pub open spec fn be_u32_bytes(n: u32) -> Seq<u8> {
    seq![
        (n / 0x100_0000) as u8,
        ((n / 0x1_0000) % 0x100) as u8,
        ((n / 0x100) % 0x100) as u8,
        (n % 0x100) as u8,
    ]
}

/// The credential that an authenticator attests to.
#[derive(Debug)]
pub struct AttestedCredentialData {
    /// Identifier of the authenticator model, 16 bytes.
    pub aaguid: Vec<u8>,
    /// The credential id, at most 65535 bytes.
    pub credential_id: Vec<u8>,
    /// The bytes after the credential id: the COSE-encoded public key and,
    /// when the record carries extensions, the extension map behind it.
    pub credential_public_key: Vec<u8>,
}

/// Mathematical content of [`AttestedCredentialData`].
pub struct AttestedCredentialView {
    pub aaguid: Seq<u8>,
    pub credential_id: Seq<u8>,
    pub credential_public_key: Seq<u8>,
}

impl View for AttestedCredentialData {
    type V = AttestedCredentialView;

    open spec fn view(&self) -> AttestedCredentialView {
        AttestedCredentialView {
            aaguid: self.aaguid@,
            credential_id: self.credential_id@,
            credential_public_key: self.credential_public_key@,
        }
    }
}

impl AttestedCredentialView {
    /// The block fits the record layout: a 16-byte AAGUID, a credential id
    /// whose length fits two bytes, and a key of at least one byte.
    pub open spec fn wf(self) -> bool {
        &&& self.aaguid.len() == AAGUID_LENGTH
        &&& self.credential_id.len() <= 0xFFFF
        &&& self.credential_public_key.len() >= 1
    }

    /// The bytes of the block as they stand in a record.
    pub open spec fn encoding(self) -> Seq<u8> {
        self.aaguid + be_u16_bytes(self.credential_id.len() as int) + self.credential_id
            + self.credential_public_key
    }
}

/// A parsed authenticator data record.
#[derive(Debug)]
pub struct AuthenticatorData {
    /// SHA-256 digest of the RP ID, 32 bytes.
    pub rp_id_hash: Vec<u8>,
    /// The flags byte, as received.
    pub flags: u8,
    /// The signature counter.
    pub sign_count: u32,
    /// The attested credential block; present exactly when the flags say so.
    pub attested_credential: Option<AttestedCredentialData>,
    /// The bytes after the header of a record without attested credential
    /// data; empty when such data is present.
    pub extensions: Vec<u8>,
}

/// Mathematical content of [`AuthenticatorData`].
pub struct AuthenticatorDataView {
    pub rp_id_hash: Seq<u8>,
    pub flags: u8,
    pub sign_count: u32,
    pub attested_credential: Option<AttestedCredentialView>,
    pub extensions: Seq<u8>,
}

impl View for AuthenticatorData {
    type V = AuthenticatorDataView;

    open spec fn view(&self) -> AuthenticatorDataView {
        AuthenticatorDataView {
            rp_id_hash: self.rp_id_hash@,
            flags: self.flags,
            sign_count: self.sign_count,
            attested_credential: match self.attested_credential {
                Some(credential) => Some(credential@),
                None => None,
            },
            extensions: self.extensions@,
        }
    }
}

impl AuthenticatorDataView {
    /// The record is one that parsing can produce: the hash has 32 bytes, the
    /// attested credential block is present exactly when its flag is set, and
    /// a record with such a block keeps all later bytes inside it.
    pub open spec fn wf(self) -> bool {
        &&& self.rp_id_hash.len() == RP_ID_HASH_LENGTH
        &&& (self.attested_credential is Some) == flag_is_set(
            self.flags,
            FLAG_ATTESTED_CREDENTIAL_DATA,
        )
        &&& match self.attested_credential {
            Some(credential) => credential.wf() && self.extensions.len() == 0,
            None => true,
        }
    }

    /// The bytes of the record.
    pub open spec fn encoding(self) -> Seq<u8> {
        self.rp_id_hash + seq![self.flags] + be_u32_bytes(self.sign_count) + match self.attested_credential {
            Some(credential) => credential.encoding(),
            None => Seq::<u8>::empty(),
        } + self.extensions
    }

    /// The User Present bit.
    pub open spec fn user_present(self) -> bool {
        flag_is_set(self.flags, FLAG_USER_PRESENT)
    }

    /// The User Verified bit.
    pub open spec fn user_verified(self) -> bool {
        flag_is_set(self.flags, FLAG_USER_VERIFIED)
    }
}

/// What a byte string holds when read as authenticator data, or `None` when
/// it is no such record.
///
/// A record needs the 37 bytes of the header. When the flags announce
/// attested credential data, the AAGUID and the length field must follow, the
/// credential id must fit in what remains, and at least one byte must be left
/// for the public key.
pub open spec fn authenticator_data_of(bytes: Seq<u8>) -> Option<AuthenticatorDataView> {
    if bytes.len() < AUTHENTICATOR_DATA_LENGTH {
        None
    } else {
        let rp_id_hash = bytes.subrange(0, 32);
        let flags = bytes[32];
        let sign_count = be_u32_value(bytes[33], bytes[34], bytes[35], bytes[36]) as u32;
        if !flag_is_set(flags, FLAG_ATTESTED_CREDENTIAL_DATA) {
            Some(
                AuthenticatorDataView {
                    rp_id_hash,
                    flags,
                    sign_count,
                    attested_credential: None,
                    extensions: bytes.subrange(37, bytes.len() as int),
                },
            )
        } else if bytes.len() < CREDENTIAL_ID_OFFSET {
            None
        } else {
            let id_end = CREDENTIAL_ID_OFFSET + be_u16_value(bytes[53], bytes[54]);
            if bytes.len() <= id_end {
                None
            } else {
                Some(
                    AuthenticatorDataView {
                        rp_id_hash,
                        flags,
                        sign_count,
                        attested_credential: Some(
                            AttestedCredentialView {
                                aaguid: bytes.subrange(37, 53),
                                credential_id: bytes.subrange(55, id_end),
                                credential_public_key: bytes.subrange(id_end, bytes.len() as int),
                            },
                        ),
                        extensions: Seq::<u8>::empty(),
                    },
                )
            }
        }
    }
}

/// Reads `bytes` as an authenticator data record.
///
/// Succeeds exactly on the byte strings that hold a record, and then returns
/// that record; every other input is reported as malformed.
pub fn parse_authenticator_data(bytes: &[u8]) -> (r: Result<AuthenticatorData, CodecError>)
    ensures
        match r {
            Ok(data) => authenticator_data_of(bytes@) == Some(data@) && data@.wf(),
            Err(e) => e == CodecError::MalformedAuthenticatorData && authenticator_data_of(bytes@)
                is None,
        },
{
    proof {
        if authenticator_data_of(bytes@) is Some {
            lemma_encode_inverts_parse(bytes@);
        }
    }
    let len = bytes.len();
    if len < AUTHENTICATOR_DATA_LENGTH {
        return Err(CodecError::MalformedAuthenticatorData);
    }
    let rp_id_hash = slice_to_vec(slice_subrange(bytes, 0, RP_ID_HASH_LENGTH));
    let flags = bytes[32];
    let sign_count: u32 = (bytes[33] as u32) * 0x100_0000 + (bytes[34] as u32) * 0x1_0000 + (
    bytes[35] as u32) * 0x100 + (bytes[36] as u32);
    if flags & FLAG_ATTESTED_CREDENTIAL_DATA == 0 {
        let extensions = slice_to_vec(slice_subrange(bytes, AUTHENTICATOR_DATA_LENGTH, len));
        return Ok(
            AuthenticatorData { rp_id_hash, flags, sign_count, attested_credential: None, extensions },
        );
    }
    if len < CREDENTIAL_ID_OFFSET {
        return Err(CodecError::MalformedAuthenticatorData);
    }
    let id_length: usize = (bytes[53] as usize) * 0x100 + (bytes[54] as usize);
    if len - CREDENTIAL_ID_OFFSET <= id_length {
        return Err(CodecError::MalformedAuthenticatorData);
    }
    let id_end: usize = CREDENTIAL_ID_OFFSET + id_length;
    let aaguid = slice_to_vec(slice_subrange(bytes, AUTHENTICATOR_DATA_LENGTH, 53));
    let credential_id = slice_to_vec(slice_subrange(bytes, CREDENTIAL_ID_OFFSET, id_end));
    let credential_public_key = slice_to_vec(slice_subrange(bytes, id_end, len));
    Ok(
        AuthenticatorData {
            rp_id_hash,
            flags,
            sign_count,
            attested_credential: Some(
                AttestedCredentialData { aaguid, credential_id, credential_public_key },
            ),
            extensions: Vec::new(),
        },
    )
}

/// Appends the bytes of `source` to `sink`.
fn append_bytes(sink: &mut Vec<u8>, source: &Vec<u8>)
    ensures
        final(sink)@ == old(sink)@ + source@,
{
    let mut i: usize = 0;
    while i < source.len()
        invariant
            i <= source.len(),
            sink@ == old(sink)@ + source@.subrange(0, i as int),
        decreases source.len() - i,
    {
        sink.push(source[i]);
        i += 1;
    }
    assert(source@.subrange(0, source.len() as int) == source@);
}

impl AuthenticatorData {
    /// Whether the User Present bit is set.
    pub fn user_present(&self) -> (r: bool)
        ensures
            r == self@.user_present(),
    {
        self.flags & FLAG_USER_PRESENT != 0
    }

    /// Whether the User Verified bit is set.
    pub fn user_verified(&self) -> (r: bool)
        ensures
            r == self@.user_verified(),
    {
        self.flags & FLAG_USER_VERIFIED != 0
    }

    /// Whether the record meets the layout rules, so that it can be encoded.
    pub fn is_well_formed(&self) -> (r: bool)
        ensures
            r == self@.wf(),
    {
        let attested = self.flags & FLAG_ATTESTED_CREDENTIAL_DATA != 0;
        if self.rp_id_hash.len() != RP_ID_HASH_LENGTH {
            return false;
        }
        match &self.attested_credential {
            Some(credential) => attested && credential.aaguid.len() == AAGUID_LENGTH
                && credential.credential_id.len() <= 0xFFFF
                && credential.credential_public_key.len() >= 1 && self.extensions.len() == 0,
            None => !attested,
        }
    }

    /// The bytes of the record, where it meets the layout rules; `None`
    /// where it does not.
    ///
    /// Parsing the bytes gives the record back: see
    /// [`lemma_parse_inverts_encode`].
    pub fn encode(&self) -> (r: Option<Vec<u8>>)
        ensures
            match r {
                Some(bytes) => self@.wf() && bytes@ == self@.encoding(),
                None => !self@.wf(),
            },
    {
        if !self.is_well_formed() {
            return None;
        }
        let mut bytes: Vec<u8> = Vec::new();
        append_bytes(&mut bytes, &self.rp_id_hash);
        bytes.push(self.flags);
        let count = self.sign_count;
        bytes.push((count / 0x100_0000) as u8);
        bytes.push(((count / 0x1_0000) % 0x100) as u8);
        bytes.push(((count / 0x100) % 0x100) as u8);
        bytes.push((count % 0x100) as u8);
        assert(bytes@ == self@.rp_id_hash + seq![self@.flags] + be_u32_bytes(self@.sign_count));
        match &self.attested_credential {
            Some(credential) => {
                let ghost header = bytes@;
                let id_length = credential.credential_id.len();
                append_bytes(&mut bytes, &credential.aaguid);
                bytes.push((id_length / 0x100) as u8);
                bytes.push((id_length % 0x100) as u8);
                append_bytes(&mut bytes, &credential.credential_id);
                append_bytes(&mut bytes, &credential.credential_public_key);
                assert(bytes@ == header + credential@.encoding());
            },
            None => {
                assert(bytes@ + Seq::<u8>::empty() == bytes@);
            },
        }
        append_bytes(&mut bytes, &self.extensions);
        Some(bytes)
    }
}

/// Parsing inverts encoding: the bytes of a well-formed record hold exactly
/// that record.
pub proof fn lemma_parse_inverts_encode(data: AuthenticatorDataView)
    requires
        data.wf(),
    ensures
        authenticator_data_of(data.encoding()) == Some(data),
{
    let bytes = data.encoding();
    let n = data.sign_count;
    let count_bytes = be_u32_bytes(n);
    assert(bytes.subrange(0, 32) == data.rp_id_hash);
    assert(bytes[32] == data.flags);
    assert(bytes[33] == count_bytes[0]);
    assert(bytes[34] == count_bytes[1]);
    assert(bytes[35] == count_bytes[2]);
    assert(bytes[36] == count_bytes[3]);
    lemma_be_u32_value_of_bytes(n);
    match data.attested_credential {
        Some(credential) => {
            let id_length = credential.credential_id.len() as int;
            let length_bytes = be_u16_bytes(id_length);
            assert(bytes.subrange(37, 53) == credential.aaguid);
            assert(bytes[53] == length_bytes[0]);
            assert(bytes[54] == length_bytes[1]);
            lemma_be_u16_value_of_bytes(id_length);
            assert(bytes.subrange(55, 55 + id_length) == credential.credential_id);
            assert(bytes.subrange(55 + id_length, bytes.len() as int)
                == credential.credential_public_key);
            assert(data.extensions == Seq::<u8>::empty());
        },
        None => {
            assert(bytes.subrange(37, bytes.len() as int) == data.extensions);
        },
    }
}

/// The big-endian spelling of a 32-bit number spells that number.
proof fn lemma_be_u32_value_of_bytes(n: u32)
    ensures
        be_u32_value(
            be_u32_bytes(n)[0],
            be_u32_bytes(n)[1],
            be_u32_bytes(n)[2],
            be_u32_bytes(n)[3],
        ) == n,
{
    let x = n as int;
    let q1 = x / 0x100;
    let q2 = x / 0x1_0000;
    let q3 = x / 0x100_0000;
    lemma_fundamental_div_mod(x, 0x100);
    lemma_fundamental_div_mod(q1, 0x100);
    lemma_fundamental_div_mod(q2, 0x100);
    lemma_div_denominator(x, 0x100, 0x100);
    lemma_div_denominator(x, 0x1_0000, 0x100);
    assert(q1 / 0x100 == q2);
    assert(q2 / 0x100 == q3);
    assert(0 <= q3 < 0x100);
    assert(x == q3 * 0x100_0000 + (q2 % 0x100) * 0x1_0000 + (q1 % 0x100) * 0x100 + x % 0x100);
}

/// The big-endian spelling of a 16-bit number spells that number.
proof fn lemma_be_u16_value_of_bytes(n: int)
    requires
        0 <= n <= 0xFFFF,
    ensures
        be_u16_value(be_u16_bytes(n)[0], be_u16_bytes(n)[1]) == n,
{
    lemma_fundamental_div_mod(n, 0x100);
    assert(0 <= n / 0x100 < 0x100);
}

/// Four bytes are the big-endian spelling of the number they spell.
proof fn lemma_be_u32_bytes_of_value(b0: u8, b1: u8, b2: u8, b3: u8)
    ensures
        0 <= be_u32_value(b0, b1, b2, b3) <= u32::MAX,
        be_u32_bytes(be_u32_value(b0, b1, b2, b3) as u32) == seq![b0, b1, b2, b3],
{
    let n = be_u32_value(b0, b1, b2, b3);
    let (i0, i1, i2, i3) = (b0 as int, b1 as int, b2 as int, b3 as int);
    lemma_fundamental_div_mod_converse(n, 0x100_0000, i0, i1 * 0x1_0000 + i2 * 0x100 + i3);
    lemma_fundamental_div_mod_converse(n, 0x1_0000, i0 * 0x100 + i1, i2 * 0x100 + i3);
    lemma_fundamental_div_mod_converse(i0 * 0x100 + i1, 0x100, i0, i1);
    lemma_fundamental_div_mod_converse(n, 0x100, i0 * 0x1_0000 + i1 * 0x100 + i2, i3);
    lemma_fundamental_div_mod_converse(i0 * 0x1_0000 + i1 * 0x100 + i2, 0x100, i0 * 0x100 + i1, i2);
}

/// Two bytes are the big-endian spelling of the number they spell.
proof fn lemma_be_u16_bytes_of_value(high: u8, low: u8)
    ensures
        0 <= be_u16_value(high, low) <= 0xFFFF,
        be_u16_bytes(be_u16_value(high, low)) == seq![high, low],
{
    lemma_fundamental_div_mod_converse(be_u16_value(high, low), 0x100, high as int, low as int);
}

/// Encoding inverts parsing: a byte string that holds a record is the
/// encoding of that record, and the record is well-formed.
pub proof fn lemma_encode_inverts_parse(bytes: Seq<u8>)
    requires
        authenticator_data_of(bytes) is Some,
    ensures
        authenticator_data_of(bytes)->0.wf(),
        authenticator_data_of(bytes)->0.encoding() == bytes,
{
    let data = authenticator_data_of(bytes)->0;
    lemma_be_u32_bytes_of_value(bytes[33], bytes[34], bytes[35], bytes[36]);
    let header = data.rp_id_hash + seq![data.flags] + be_u32_bytes(data.sign_count);
    assert(header == bytes.subrange(0, 37));
    match data.attested_credential {
        Some(credential) => {
            lemma_be_u16_bytes_of_value(bytes[53], bytes[54]);
            let id_end = 55 + be_u16_value(bytes[53], bytes[54]);
            assert(credential.aaguid + be_u16_bytes(credential.credential_id.len() as int)
                == bytes.subrange(37, 55));
            assert(credential.encoding() == bytes.subrange(37, bytes.len() as int));
            assert(data.encoding() == bytes);
        },
        None => {
            assert(data.encoding() == bytes);
        },
    }
}

/// A byte string shorter than the 37-byte header is no record, and one of
/// exactly 37 bytes whose flags announce no attested credential data is a
/// record without such data and without extension bytes.
pub proof fn lemma_header_boundary(bytes: Seq<u8>)
    ensures
        bytes.len() < 37 ==> authenticator_data_of(bytes) is None,
        bytes.len() == 37 && !flag_is_set(bytes[32], FLAG_ATTESTED_CREDENTIAL_DATA) ==> {
            &&& authenticator_data_of(bytes) matches Some(data)
            &&& data.attested_credential is None
            &&& data.extensions.len() == 0
            &&& data.rp_id_hash == bytes.subrange(0, 32)
            &&& data.flags == bytes[32]
        },
        bytes.len() == 37 && flag_is_set(bytes[32], FLAG_ATTESTED_CREDENTIAL_DATA)
            ==> authenticator_data_of(bytes) is None,
{
}

} // verus!
