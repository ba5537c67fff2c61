// Scenario tests: one concrete case for each stated property of the
// decoders, the error each decoder fails with, and the payload
// projections.

use secdesc::AccessAllowedAce;
use secdesc::AccessAllowedObjectAce;
use secdesc::Ace;
use secdesc::AceFormat;
use secdesc::Acl;
use secdesc::DecodeError;
use secdesc::LdapSid;
use secdesc::LdapSidIdentifiedAuthority;
use secdesc::ObjectAceFlags;
use secdesc::SecurityDescriptor;
use secdesc::ACE_INHERITED_OBJECT_PRESENT;
use secdesc::ACE_OBJECT_PRESENT;

fn sample_sid_bytes() -> Vec<u8> {
    vec![
        0x01, 0x02, 0x00, 0x00, 0x00, 0x00, 0x00, 0x05, 0x20, 0x00, 0x00, 0x00, 0x20, 0x02, 0x00,
        0x00,
    ]
}

fn assert_is_sample_sid(sid: &LdapSid) {
    assert_eq!(sid.revision, 1);
    assert_eq!(sid.sub_authority_count, 2);
    assert_eq!(sid.identifier_authority.value, vec![0, 0, 0, 0, 0, 5]);
    assert_eq!(sid.sub_authority, vec![32, 544]);
}

#[test]
fn header_fields_decode_little_endian() {
    let bytes = vec![1, 0, 4, 140, 120, 9, 0, 0, 0, 0, 0, 0, 0, 0, 0, 0, 20, 0, 0, 0];
    let (consumed, header) = SecurityDescriptor::parse(&bytes).unwrap();
    assert_eq!(consumed, 20);
    assert_eq!(header.revision, 1);
    assert_eq!(header.sbz1, 0);
    assert_eq!(header.control, 0x8C04);
    assert_eq!(header.offset_owner, 2424);
    assert_eq!(header.offset_group, 0);
    assert_eq!(header.offset_sacl, 0);
    assert_eq!(header.offset_dacl, 20);
}

#[test]
fn header_needs_twenty_bytes() {
    let bytes = vec![1, 0, 4, 140, 120, 9, 0, 0, 0, 0, 0, 0, 0, 0, 0, 0, 20, 0, 0];
    assert_eq!(SecurityDescriptor::parse(&bytes).unwrap_err(), DecodeError::InsufficientData);
}

#[test]
fn authority_reads_six_bytes_verbatim() {
    let bytes = vec![9, 8, 7, 6, 5, 4, 3, 2];
    let (consumed, authority) = LdapSidIdentifiedAuthority::parse(&bytes).unwrap();
    assert_eq!(consumed, 6);
    assert_eq!(authority.value, vec![9, 8, 7, 6, 5, 4]);

    let short = vec![9, 8, 7, 6, 5];
    assert_eq!(LdapSidIdentifiedAuthority::parse(&short).unwrap_err(), DecodeError::InsufficientData);
}

#[test]
fn sid_decodes_sample() {
    let bytes = sample_sid_bytes();
    let (consumed, sid) = LdapSid::parse(&bytes).unwrap();
    assert_eq!(consumed, 16);
    assert_is_sample_sid(&sid);
}

#[test]
fn sid_sub_authority_length_equals_count() {
    let bytes = sample_sid_bytes();
    let (consumed, sid) = LdapSid::parse(&bytes).unwrap();
    assert_eq!(sid.sub_authority.len(), sid.sub_authority_count as usize);
    assert_eq!(consumed, 8 + 4 * sid.sub_authority_count as usize);

    // Trailing bytes past 8 + 4*N are left unconsumed.
    let mut longer = sample_sid_bytes();
    longer.extend_from_slice(&[0xAA, 0xBB, 0xCC]);
    let (consumed_longer, sid_longer) = LdapSid::parse(&longer).unwrap();
    assert_eq!(consumed_longer, 16);
    assert_is_sample_sid(&sid_longer);
}

#[test]
fn sid_truncated_below_declared_count_fails() {
    let bytes = sample_sid_bytes();
    for short_len in 0..bytes.len() {
        let truncated = &bytes[..short_len];
        assert_eq!(LdapSid::parse(truncated).unwrap_err(), DecodeError::InsufficientData);
    }
}

#[test]
fn allowed_ace_decodes_mask_and_sid() {
    let mut bytes = vec![0x00, 0x12, 0x18, 0x00, 0xbd, 0x01, 0x0f, 0x00];
    bytes.extend_from_slice(&sample_sid_bytes());
    let (consumed, ace) = Ace::parse(&bytes).unwrap();
    assert_eq!(consumed, 24);
    assert_eq!(ace.ace_type, 0x00);
    assert_eq!(ace.ace_flags, 0x12);
    assert_eq!(ace.ace_size, 0x18);
    match &ace.data {
        AceFormat::AceAllowed(payload) => {
            assert_eq!(payload.mask, 0x000f01bd);
            assert_is_sample_sid(&payload.sid);
        }
        AceFormat::AceObjectAllowed(_) => panic!("wrong payload shape"),
    }
}

#[test]
fn denied_ace_shares_allowed_layout() {
    let mut bytes = vec![0x01, 0x12, 0x18, 0x00, 0xbd, 0x01, 0x0f, 0x00];
    bytes.extend_from_slice(&sample_sid_bytes());
    let (consumed, ace) = Ace::parse(&bytes).unwrap();
    assert_eq!(consumed, 24);
    assert_eq!(ace.ace_type, 0x01);
    match &ace.data {
        AceFormat::AceAllowed(payload) => {
            assert_eq!(payload.mask, 0x000f01bd);
            assert_is_sample_sid(&payload.sid);
        }
        AceFormat::AceObjectAllowed(_) => panic!("wrong payload shape"),
    }
}

#[test]
fn object_ace_inherited_guid_only() {
    let guid = [
        0xba, 0x7a, 0x96, 0xbf, 0xe6, 0x0d, 0xd0, 0x11, 0xa2, 0x85, 0x00, 0xaa, 0x00, 0x30, 0x49,
        0xe2,
    ];
    let mut bytes = vec![0x05, 0x12, 0x2c, 0x00, 0x94, 0x00, 0x02, 0x00, 0x02, 0x00, 0x00, 0x00];
    bytes.extend_from_slice(&guid);
    bytes.extend_from_slice(&sample_sid_bytes());
    let (consumed, ace) = Ace::parse(&bytes).unwrap();
    assert_eq!(consumed, bytes.len());
    assert_eq!(ace.ace_type, 0x05);
    match &ace.data {
        AceFormat::AceObjectAllowed(payload) => {
            assert_eq!(payload.mask, 0x00020094);
            assert_eq!(payload.flags.bits, 0x00000002);
            assert_eq!(payload.object_type, None);
            assert_eq!(
                payload.inherited_object_type,
                Some(u128::from_le_bytes(guid))
            );
            assert_is_sample_sid(&payload.sid);
        }
        AceFormat::AceAllowed(_) => panic!("wrong payload shape"),
    }
}

#[test]
fn object_ace_both_guids_in_fixed_order() {
    let first_guid = [
        0x00, 0x42, 0x16, 0x4c, 0xc0, 0x20, 0xd0, 0x11, 0xa7, 0x68, 0x00, 0xaa, 0x00, 0x6e, 0x05,
        0x29,
    ];
    let second_guid = [
        0x14, 0xcc, 0x28, 0x48, 0x37, 0x14, 0xbc, 0x45, 0x9b, 0x07, 0xad, 0x6f, 0x01, 0x5e, 0x5f,
        0x28,
    ];
    let mut bytes = vec![0x06, 0x00, 0x3c, 0x00, 0x10, 0x00, 0x00, 0x00, 0x03, 0x00, 0x00, 0x00];
    bytes.extend_from_slice(&first_guid);
    bytes.extend_from_slice(&second_guid);
    bytes.extend_from_slice(&sample_sid_bytes());
    let (consumed, ace) = Ace::parse(&bytes).unwrap();
    assert_eq!(consumed, bytes.len());
    assert_eq!(ace.ace_type, 0x06);
    match &ace.data {
        AceFormat::AceObjectAllowed(payload) => {
            assert_eq!(payload.object_type, Some(u128::from_le_bytes(first_guid)));
            assert_eq!(
                payload.inherited_object_type,
                Some(u128::from_le_bytes(second_guid))
            );
        }
        AceFormat::AceAllowed(_) => panic!("wrong payload shape"),
    }
}

#[test]
fn object_ace_no_guids_keeps_unnamed_bits() {
    let mut bytes = vec![0x05, 0x00, 0x1c, 0x00, 0x01, 0x00, 0x00, 0x00, 0x10, 0x00, 0x00, 0x00];
    bytes.extend_from_slice(&sample_sid_bytes());
    let (consumed, ace) = Ace::parse(&bytes).unwrap();
    assert_eq!(consumed, bytes.len());
    match &ace.data {
        AceFormat::AceObjectAllowed(payload) => {
            // Bits outside the two named ones are kept verbatim.
            assert_eq!(payload.flags.bits, 0x00000010);
            assert!(!payload.flags.contains(ACE_OBJECT_PRESENT));
            assert!(!payload.flags.contains(ACE_INHERITED_OBJECT_PRESENT));
            assert_eq!(payload.object_type, None);
            assert_eq!(payload.inherited_object_type, None);
        }
        AceFormat::AceAllowed(_) => panic!("wrong payload shape"),
    }
}

#[test]
fn object_flags_decode_any_bit_pattern() {
    let bytes = vec![0x03, 0x00, 0x00, 0x80, 0xAA];
    let (consumed, flags) = ObjectAceFlags::parse(&bytes).unwrap();
    assert_eq!(consumed, 4);
    assert_eq!(flags.bits, 0x8000_0003);
    assert!(flags.contains(ACE_OBJECT_PRESENT));
    assert!(flags.contains(ACE_INHERITED_OBJECT_PRESENT));

    let short = vec![0x03, 0x00, 0x00];
    assert_eq!(ObjectAceFlags::parse(&short).unwrap_err(), DecodeError::InsufficientData);
}

#[test]
fn object_ace_truncated_guid_fails() {
    let bytes = vec![
        0x05, 0x00, 0x2c, 0x00, 0x94, 0x00, 0x02, 0x00, 0x02, 0x00, 0x00, 0x00, 0xba, 0x7a, 0x96,
    ];
    assert_eq!(Ace::parse(&bytes).unwrap_err(), DecodeError::InsufficientData);
}

#[test]
fn unknown_ace_type_is_rejected() {
    let mut bytes = vec![0xFF, 0x12, 0x18, 0x00, 0xbd, 0x01, 0x0f, 0x00];
    bytes.extend_from_slice(&sample_sid_bytes());
    assert_eq!(Ace::parse(&bytes).unwrap_err(), DecodeError::UnrecognizedVariant);

    // The payload bytes play no part in the rejection.
    let bare = vec![0x20, 0x00, 0x04, 0x00];
    assert_eq!(Ace::parse(&bare).unwrap_err(), DecodeError::UnrecognizedVariant);
}

#[test]
fn ace_header_needs_four_bytes() {
    let bytes = vec![0x00, 0x12, 0x18];
    assert_eq!(Ace::parse(&bytes).unwrap_err(), DecodeError::InsufficientData);
}

fn two_entry_acl(acl_size: u16) -> Vec<u8> {
    let size_bytes = acl_size.to_le_bytes();
    let mut bytes = vec![0x02, 0x00, size_bytes[0], size_bytes[1], 0x02, 0x00, 0x00, 0x00];
    bytes.extend_from_slice(&[0x00, 0x12, 0x18, 0x00, 0xbd, 0x01, 0x0f, 0x00]);
    bytes.extend_from_slice(&sample_sid_bytes());
    bytes.extend_from_slice(&[0x01, 0x00, 0x18, 0x00, 0x94, 0x00, 0x02, 0x00]);
    bytes.extend_from_slice(&sample_sid_bytes());
    bytes
}

#[test]
fn acl_decodes_declared_count_of_entries() {
    let bytes = two_entry_acl(56);
    let (consumed, acl) = Acl::parse(&bytes).unwrap();
    assert_eq!(consumed, bytes.len());
    assert_eq!(acl.acl_revision, 2);
    assert_eq!(acl.acl_size, 56);
    assert_eq!(acl.ace_count, 2);
    assert_eq!(acl.data.len(), 2);
    assert_eq!(acl.data[0].ace_type, 0x00);
    assert_eq!(acl.data[1].ace_type, 0x01);
}

#[test]
fn acl_size_field_is_not_consulted() {
    // The declared size disagrees with the true byte length of the
    // header plus its two entries; both entries still decode.
    let bytes = two_entry_acl(9999);
    let (consumed, acl) = Acl::parse(&bytes).unwrap();
    assert_eq!(consumed, bytes.len());
    assert_eq!(acl.acl_size, 9999);
    assert_eq!(acl.ace_count, 2);
    assert_eq!(acl.data.len(), 2);
    assert_eq!(acl.data[0].ace_type, 0x00);
    assert_eq!(acl.data[1].ace_type, 0x01);
}

#[test]
fn acl_header_needs_eight_bytes() {
    let bytes = vec![0x02, 0x00, 0x30, 0x00, 0x02, 0x00, 0x00];
    assert_eq!(Acl::parse(&bytes).unwrap_err(), DecodeError::InsufficientData);
}

#[test]
fn acl_propagates_entry_failure() {
    // Count says two entries but the second has an unknown type tag.
    let mut bytes = vec![0x02, 0x00, 0x30, 0x00, 0x02, 0x00, 0x00, 0x00];
    bytes.extend_from_slice(&[0x00, 0x12, 0x18, 0x00, 0xbd, 0x01, 0x0f, 0x00]);
    bytes.extend_from_slice(&sample_sid_bytes());
    bytes.extend_from_slice(&[0x42, 0x00, 0x18, 0x00, 0x94, 0x00, 0x02, 0x00]);
    bytes.extend_from_slice(&sample_sid_bytes());
    assert_eq!(Acl::parse(&bytes).unwrap_err(), DecodeError::UnrecognizedVariant);

    // Count says two entries but the bytes hold only one.
    let mut short = vec![0x02, 0x00, 0x30, 0x00, 0x02, 0x00, 0x00, 0x00];
    short.extend_from_slice(&[0x00, 0x12, 0x18, 0x00, 0xbd, 0x01, 0x0f, 0x00]);
    short.extend_from_slice(&sample_sid_bytes());
    assert_eq!(Acl::parse(&short).unwrap_err(), DecodeError::InsufficientData);
}

fn sample_allowed_payload() -> AccessAllowedAce {
    let mut bytes = vec![0x00, 0x12, 0x18, 0x00, 0xbd, 0x01, 0x0f, 0x00];
    bytes.extend_from_slice(&sample_sid_bytes());
    match Ace::parse(&bytes).unwrap().1.data {
        AceFormat::AceAllowed(payload) => payload,
        AceFormat::AceObjectAllowed(_) => panic!("wrong payload shape"),
    }
}

fn sample_object_payload() -> AccessAllowedObjectAce {
    let guid = [
        0xba, 0x7a, 0x96, 0xbf, 0xe6, 0x0d, 0xd0, 0x11, 0xa2, 0x85, 0x00, 0xaa, 0x00, 0x30, 0x49,
        0xe2,
    ];
    let mut bytes = vec![0x05, 0x12, 0x2c, 0x00, 0x94, 0x00, 0x02, 0x00, 0x02, 0x00, 0x00, 0x00];
    bytes.extend_from_slice(&guid);
    bytes.extend_from_slice(&sample_sid_bytes());
    match Ace::parse(&bytes).unwrap().1.data {
        AceFormat::AceObjectAllowed(payload) => payload,
        AceFormat::AceAllowed(_) => panic!("wrong payload shape"),
    }
}

#[test]
fn projections_on_allowed_payload() {
    let payload = sample_allowed_payload();
    let data = AceFormat::AceAllowed(payload);
    assert_eq!(AceFormat::get_mask(data.clone()), Some(0x000f01bd));
    assert_is_sample_sid(&AceFormat::get_sid(data.clone()).unwrap());
    assert!(AceFormat::get_flags(data.clone()).is_none());
    assert!(AceFormat::get_object_type(data.clone()).is_none());
    assert!(AceFormat::get_inherited_object_type(data).is_none());
}

#[test]
fn projections_on_object_payload() {
    let payload = sample_object_payload();
    let expected_guid = payload.inherited_object_type;
    let data = AceFormat::AceObjectAllowed(payload);
    assert_eq!(AceFormat::get_mask(data.clone()), Some(0x00020094));
    assert_is_sample_sid(&AceFormat::get_sid(data.clone()).unwrap());
    assert_eq!(AceFormat::get_flags(data.clone()).unwrap().bits, 0x00000002);
    assert!(AceFormat::get_object_type(data.clone()).is_none());
    assert_eq!(AceFormat::get_inherited_object_type(data), expected_guid);
    assert!(expected_guid.is_some());
}
