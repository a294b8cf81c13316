use webauthn_rp::authenticator_data::{
    parse_authenticator_data, AttestedCredentialData, AuthenticatorData,
    FLAG_ATTESTED_CREDENTIAL_DATA, FLAG_EXTENSION_DATA, FLAG_USER_PRESENT, FLAG_USER_VERIFIED,
};
use webauthn_rp::error::CodecError;

fn header(flags: u8, sign_count: u32) -> Vec<u8> {
    let mut bytes: Vec<u8> = (0..32u8).collect();
    bytes.push(flags);
    bytes.extend_from_slice(&sign_count.to_be_bytes());
    bytes
}

fn attested_record(flags: u8, credential_id: &[u8], key: &[u8]) -> Vec<u8> {
    let mut bytes = header(flags, 0x01020304);
    bytes.extend_from_slice(&[0xaa; 16]);
    bytes.extend_from_slice(&(credential_id.len() as u16).to_be_bytes());
    bytes.extend_from_slice(credential_id);
    bytes.extend_from_slice(key);
    bytes
}

#[test]
fn record_of_37_bytes_parses_without_attested_credential() {
    let bytes = header(0x01, 5);
    assert_eq!(bytes.len(), 37);
    let data = parse_authenticator_data(&bytes).unwrap();
    assert_eq!(data.rp_id_hash, (0..32u8).collect::<Vec<u8>>());
    assert_eq!(data.flags, 0x01);
    assert_eq!(data.sign_count, 5);
    assert!(data.attested_credential.is_none());
    assert!(data.extensions.is_empty());
}

#[test]
fn record_of_36_bytes_is_malformed() {
    let mut bytes = header(0x01, 5);
    bytes.pop();
    assert_eq!(bytes.len(), 36);
    assert_eq!(
        parse_authenticator_data(&bytes).err(),
        Some(CodecError::MalformedAuthenticatorData)
    );
    assert_eq!(
        parse_authenticator_data(&[]).err(),
        Some(CodecError::MalformedAuthenticatorData)
    );
}

#[test]
fn sign_count_is_read_big_endian() {
    let data = parse_authenticator_data(&header(0x01, 0x01020304)).unwrap();
    assert_eq!(data.sign_count, 16909060);
    let data = parse_authenticator_data(&header(0x01, u32::MAX)).unwrap();
    assert_eq!(data.sign_count, 4294967295);
    let data = parse_authenticator_data(&header(0x01, 256)).unwrap();
    assert_eq!(data.sign_count, 256);
}

#[test]
fn flags_are_read_bit_by_bit() {
    let data = parse_authenticator_data(&header(0x05, 0)).unwrap();
    assert!(data.user_present());
    assert!(data.user_verified());
    let data = parse_authenticator_data(&header(0x04, 0)).unwrap();
    assert!(!data.user_present());
    assert!(data.user_verified());
    let data = parse_authenticator_data(&header(0x00, 0)).unwrap();
    assert!(!data.user_present());
    assert!(!data.user_verified());
    assert_eq!(FLAG_USER_PRESENT, 1 << 0);
    assert_eq!(FLAG_USER_VERIFIED, 1 << 2);
    assert_eq!(FLAG_ATTESTED_CREDENTIAL_DATA, 1 << 6);
    assert_eq!(FLAG_EXTENSION_DATA, 1 << 7);
}

#[test]
fn attested_credential_is_split_at_the_stated_length() {
    let credential_id: Vec<u8> = (100..120u8).collect();
    let key = [0xa5, 0x01, 0x02, 0x03];
    let bytes = attested_record(0x41, &credential_id, &key);
    let data = parse_authenticator_data(&bytes).unwrap();
    assert_eq!(data.flags, 0x41);
    assert_eq!(data.sign_count, 0x01020304);
    let credential = data.attested_credential.unwrap();
    assert_eq!(credential.aaguid, vec![0xaa; 16]);
    assert_eq!(credential.credential_id, credential_id);
    assert_eq!(credential.credential_public_key, key.to_vec());
    assert!(data.extensions.is_empty());
}

#[test]
fn attested_credential_needs_all_of_its_parts() {
    let credential_id: Vec<u8> = (100..120u8).collect();
    let full = attested_record(0x41, &credential_id, &[0xa0]);
    assert!(parse_authenticator_data(&full).is_ok());
    // Every proper prefix that still has the header lacks a part.
    for end in 37..full.len() {
        assert_eq!(
            parse_authenticator_data(&full[..end]).err(),
            Some(CodecError::MalformedAuthenticatorData),
            "prefix of {} bytes",
            end
        );
    }
}

#[test]
fn credential_id_length_must_fit_the_remaining_bytes() {
    let mut bytes = header(0x41, 0);
    bytes.extend_from_slice(&[0; 16]);
    bytes.extend_from_slice(&[0x01, 0x00]);
    bytes.extend_from_slice(&[9; 100]);
    assert_eq!(
        parse_authenticator_data(&bytes).err(),
        Some(CodecError::MalformedAuthenticatorData)
    );
    bytes.extend_from_slice(&[9; 156]);
    assert_eq!(
        parse_authenticator_data(&bytes).err(),
        Some(CodecError::MalformedAuthenticatorData)
    );
    bytes.push(0xa0);
    let data = parse_authenticator_data(&bytes).unwrap();
    let credential = data.attested_credential.unwrap();
    assert_eq!(credential.credential_id.len(), 256);
    assert_eq!(credential.credential_public_key, vec![0xa0]);
}

#[test]
fn empty_credential_id_is_accepted() {
    let bytes = attested_record(0x41, &[], &[0xa0]);
    let data = parse_authenticator_data(&bytes).unwrap();
    let credential = data.attested_credential.unwrap();
    assert!(credential.credential_id.is_empty());
    assert_eq!(credential.credential_public_key, vec![0xa0]);
}

#[test]
fn bytes_after_the_header_are_kept_when_no_credential_is_attested() {
    let mut bytes = header(0x81, 9);
    bytes.extend_from_slice(&[0xa1, 0x61, 0x61, 0x01]);
    let data = parse_authenticator_data(&bytes).unwrap();
    assert!(data.attested_credential.is_none());
    assert_eq!(data.extensions, vec![0xa1, 0x61, 0x61, 0x01]);
}

#[test]
fn encode_then_parse_reproduces_a_record_with_attested_credential() {
    let record = AuthenticatorData {
        rp_id_hash: (1..=32u8).collect(),
        flags: 0x41,
        sign_count: 0xdeadbeef,
        attested_credential: Some(AttestedCredentialData {
            aaguid: vec![3; 16],
            credential_id: (0..20u8).collect(),
            credential_public_key: vec![0xa1, 0x01, 0x02],
        }),
        extensions: Vec::new(),
    };
    assert!(record.is_well_formed());
    let bytes = record.encode().unwrap();
    assert_eq!(bytes.len(), 37 + 16 + 2 + 20 + 3);
    assert_eq!(&bytes[53..55], &[0, 20]);
    let parsed = parse_authenticator_data(&bytes).unwrap();
    assert_eq!(parsed.rp_id_hash, record.rp_id_hash);
    assert_eq!(parsed.flags, record.flags);
    assert_eq!(parsed.sign_count, record.sign_count);
    let credential = parsed.attested_credential.unwrap();
    assert_eq!(credential.aaguid, vec![3; 16]);
    assert_eq!(credential.credential_id, (0..20u8).collect::<Vec<u8>>());
    assert_eq!(credential.credential_public_key, vec![0xa1, 0x01, 0x02]);
}

#[test]
fn encode_then_parse_reproduces_a_record_without_attested_credential() {
    let record = AuthenticatorData {
        rp_id_hash: vec![0x11; 32],
        flags: 0x85,
        sign_count: 1,
        attested_credential: None,
        extensions: vec![0xa0],
    };
    assert!(record.is_well_formed());
    let bytes = record.encode().unwrap();
    assert_eq!(bytes.len(), 38);
    assert_eq!(&bytes[33..37], &[0, 0, 0, 1]);
    let parsed = parse_authenticator_data(&bytes).unwrap();
    assert_eq!(parsed.rp_id_hash, record.rp_id_hash);
    assert_eq!(parsed.flags, 0x85);
    assert_eq!(parsed.sign_count, 1);
    assert!(parsed.attested_credential.is_none());
    assert_eq!(parsed.extensions, vec![0xa0]);
}

#[test]
fn parse_then_encode_reproduces_the_bytes() {
    let credential_id: Vec<u8> = (0..64u8).collect();
    let bytes = attested_record(0xc5, &credential_id, &[0xa2, 1, 2, 3, 4, 0xa0]);
    let parsed = parse_authenticator_data(&bytes).unwrap();
    assert!(parsed.is_well_formed());
    assert_eq!(parsed.encode(), Some(bytes));
    let plain = header(0x01, 77);
    let parsed = parse_authenticator_data(&plain).unwrap();
    assert!(parsed.is_well_formed());
    assert_eq!(parsed.encode(), Some(plain));
}

#[test]
fn well_formedness_follows_the_layout_rules() {
    let good = AuthenticatorData {
        rp_id_hash: vec![0; 32],
        flags: 0x01,
        sign_count: 0,
        attested_credential: None,
        extensions: Vec::new(),
    };
    assert!(good.is_well_formed());
    let short_hash = AuthenticatorData { rp_id_hash: vec![0; 31], ..good_copy(&good) };
    assert!(!short_hash.is_well_formed());
    assert_eq!(short_hash.encode(), None);
    let flag_without_block = AuthenticatorData { flags: 0x41, ..good_copy(&good) };
    assert!(!flag_without_block.is_well_formed());
    let block_without_flag = AuthenticatorData {
        attested_credential: Some(AttestedCredentialData {
            aaguid: vec![0; 16],
            credential_id: vec![1],
            credential_public_key: vec![0xa0],
        }),
        ..good_copy(&good)
    };
    assert!(!block_without_flag.is_well_formed());
    let empty_key = AuthenticatorData {
        flags: 0x41,
        attested_credential: Some(AttestedCredentialData {
            aaguid: vec![0; 16],
            credential_id: vec![1],
            credential_public_key: vec![],
        }),
        ..good_copy(&good)
    };
    assert!(!empty_key.is_well_formed());
    let short_aaguid = AuthenticatorData {
        flags: 0x41,
        attested_credential: Some(AttestedCredentialData {
            aaguid: vec![0; 15],
            credential_id: vec![1],
            credential_public_key: vec![0xa0],
        }),
        ..good_copy(&good)
    };
    assert!(!short_aaguid.is_well_formed());
    let long_id = AuthenticatorData {
        flags: 0x41,
        attested_credential: Some(AttestedCredentialData {
            aaguid: vec![0; 16],
            credential_id: vec![1; 65536],
            credential_public_key: vec![0xa0],
        }),
        ..good_copy(&good)
    };
    assert!(!long_id.is_well_formed());
}

fn good_copy(data: &AuthenticatorData) -> AuthenticatorData {
    AuthenticatorData {
        rp_id_hash: data.rp_id_hash.clone(),
        flags: data.flags,
        sign_count: data.sign_count,
        attested_credential: None,
        extensions: data.extensions.clone(),
    }
}
