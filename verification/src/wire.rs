//! The wire format as mathematics: for each record kind, a specification
//! decoder from a byte sequence to the bytes consumed and the decoded
//! view, or the error the decode fails with. The executable decoders are
//! proved to return exactly what these functions say.

use crate::bytes::le_u128_at;
use crate::bytes::le_u16_at;
use crate::bytes::le_u32_at;
use crate::constants::ACCESS_ALLOWED_ACE_TYPE;
use crate::constants::ACCESS_ALLOWED_OBJECT_ACE_TYPE;
use crate::constants::ACCESS_DENIED_ACE_TYPE;
use crate::constants::ACCESS_DENIED_OBJECT_ACE_TYPE;
use crate::records::AceFormatView;
use crate::records::AceView;
use crate::records::AclView;
use crate::records::AllowedAceView;
use crate::records::DecodeError;
use crate::records::ObjectAceFlags;
use crate::records::ObjectAceView;
use crate::records::SecurityDescriptor;
use crate::records::SidView;
use vstd::prelude::*;

verus! {

/// Decodes the fixed 20-byte descriptor header.
pub open spec fn spec_parse_security_descriptor(b: Seq<u8>) -> Result<
    (int, SecurityDescriptor),
    DecodeError,
> {
    if b.len() < 20 {
        Err(DecodeError::InsufficientData)
    } else {
        Ok(
            (
                20int,
                SecurityDescriptor {
                    revision: b[0],
                    sbz1: b[1],
                    control: le_u16_at(b, 2),
                    offset_owner: le_u32_at(b, 4),
                    offset_group: le_u32_at(b, 8),
                    offset_sacl: le_u32_at(b, 12),
                    offset_dacl: le_u32_at(b, 16),
                },
            ),
        )
    }
}

/// Decodes the 6-byte identifier-authority tag, kept verbatim.
pub open spec fn spec_parse_authority(b: Seq<u8>) -> Result<(int, Seq<u8>), DecodeError> {
    if b.len() < 6 {
        Err(DecodeError::InsufficientData)
    } else {
        Ok((6int, b.subrange(0, 6)))
    }
}

/// Decodes a security identifier: revision, sub-authority count N, the
/// authority tag, then exactly N little-endian 32-bit values; `8 + 4*N`
/// bytes in all.
pub open spec fn spec_parse_sid(b: Seq<u8>) -> Result<(int, SidView), DecodeError> {
    if b.len() < 8 {
        Err(DecodeError::InsufficientData)
    } else {
        let n = b[1] as int;
        if b.len() < 8 + 4 * n {
            Err(DecodeError::InsufficientData)
        } else {
            Ok(
                (
                    8 + 4 * n,
                    SidView {
                        revision: b[0],
                        sub_authority_count: b[1],
                        identifier_authority: b.subrange(2, 8),
                        sub_authority: Seq::new(n as nat, |i: int| le_u32_at(b, 8 + 4 * i)),
                    },
                ),
            )
        }
    }
}

/// Decodes an allowed/denied payload: a 32-bit mask, then the identifier.
pub open spec fn spec_parse_allowed(b: Seq<u8>) -> Result<(int, AllowedAceView), DecodeError> {
    if b.len() < 4 {
        Err(DecodeError::InsufficientData)
    } else {
        match spec_parse_sid(b.skip(4)) {
            Ok((n, sid)) => Ok((4 + n, AllowedAceView { mask: le_u32_at(b, 0), sid })),
            Err(e) => Err(e),
        }
    }
}

/// Decodes the 32-bit flag word of an object-scoped payload. Every bit
/// pattern decodes; bits outside the two named ones are kept verbatim.
pub open spec fn spec_parse_object_flags(b: Seq<u8>) -> Result<(int, ObjectAceFlags), DecodeError> {
    if b.len() < 4 {
        Err(DecodeError::InsufficientData)
    } else {
        Ok((4int, ObjectAceFlags { bits: le_u32_at(b, 0) }))
    }
}

/// Decodes an object-scoped payload: a 32-bit mask, the 32-bit flag word,
/// one 16-byte GUID for each presence bit that is set (object type first),
/// then the identifier.
pub open spec fn spec_parse_object(b: Seq<u8>) -> Result<(int, ObjectAceView), DecodeError> {
    if b.len() < 8 {
        Err(DecodeError::InsufficientData)
    } else {
        let flags = ObjectAceFlags { bits: le_u32_at(b, 4) };
        let ot_len: int = if flags.spec_has_object_type() {
            16
        } else {
            0
        };
        let iot_len: int = if flags.spec_has_inherited_object_type() {
            16
        } else {
            0
        };
        if b.len() < 8 + ot_len + iot_len {
            Err(DecodeError::InsufficientData)
        } else {
            match spec_parse_sid(b.skip(8 + ot_len + iot_len)) {
                Ok((n, sid)) => Ok(
                    (
                        8 + ot_len + iot_len + n,
                        ObjectAceView {
                            mask: le_u32_at(b, 0),
                            flags,
                            object_type: if flags.spec_has_object_type() {
                                Some(le_u128_at(b, 8))
                            } else {
                                None
                            },
                            inherited_object_type: if flags.spec_has_inherited_object_type() {
                                Some(le_u128_at(b, 8 + ot_len))
                            } else {
                                None
                            },
                            sid,
                        },
                    ),
                ),
                Err(e) => Err(e),
            }
        }
    }
}

/// Whether a type tag selects the allowed/denied payload shape.
pub open spec fn is_allowed_type(t: u8) -> bool {
    t == ACCESS_ALLOWED_ACE_TYPE || t == ACCESS_DENIED_ACE_TYPE
}

/// Whether a type tag selects the object-scoped payload shape.
pub open spec fn is_object_type(t: u8) -> bool {
    t == ACCESS_ALLOWED_OBJECT_ACE_TYPE || t == ACCESS_DENIED_OBJECT_ACE_TYPE
}

/// Decodes one entry: the 4-byte header, then the payload the type tag
/// selects. A tag outside the recognised set fails the whole decode.
pub open spec fn spec_parse_ace(b: Seq<u8>) -> Result<(int, AceView), DecodeError> {
    if b.len() < 4 {
        Err(DecodeError::InsufficientData)
    } else {
        let t = b[0];
        if is_allowed_type(t) {
            match spec_parse_allowed(b.skip(4)) {
                Ok((n, payload)) => Ok(
                    (
                        4 + n,
                        AceView {
                            ace_type: t,
                            ace_flags: b[1],
                            ace_size: le_u16_at(b, 2),
                            data: AceFormatView::AceAllowed(payload),
                        },
                    ),
                ),
                Err(e) => Err(e),
            }
        } else if is_object_type(t) {
            match spec_parse_object(b.skip(4)) {
                Ok((n, payload)) => Ok(
                    (
                        4 + n,
                        AceView {
                            ace_type: t,
                            ace_flags: b[1],
                            ace_size: le_u16_at(b, 2),
                            data: AceFormatView::AceObjectAllowed(payload),
                        },
                    ),
                ),
                Err(e) => Err(e),
            }
        } else {
            Err(DecodeError::UnrecognizedVariant)
        }
    }
}

/// Decodes exactly `n` consecutive entries.
pub open spec fn spec_parse_aces(b: Seq<u8>, n: nat) -> Result<(int, Seq<AceView>), DecodeError>
    decreases n,
{
    if n == 0 {
        Ok((0int, Seq::empty()))
    } else {
        match spec_parse_ace(b) {
            Ok((k, ace)) => match spec_parse_aces(b.skip(k), (n - 1) as nat) {
                Ok((m, rest)) => Ok((k + m, seq![ace] + rest)),
                Err(e) => Err(e),
            },
            Err(e) => Err(e),
        }
    }
}

/// The decode of `n` further entries at `b`, seen from the middle of a
/// list whose first entries already decoded to `pre`, consuming `used`
/// bytes. Equal to the decode of the whole entry region; the loop in the
/// list decoder maintains it as its invariant.
pub open spec fn cont_aces(pre: Seq<AceView>, used: int, b: Seq<u8>, n: nat) -> Result<
    (int, Seq<AceView>),
    DecodeError,
> {
    match spec_parse_aces(b, n) {
        Ok((m, rest)) => Ok((used + m, pre + rest)),
        Err(e) => Err(e),
    }
}

/// Decodes a list: the 8-byte header, then exactly `ace_count` entries.
/// The declared `acl_size` is recorded but never consulted.
pub open spec fn spec_parse_acl(b: Seq<u8>) -> Result<(int, AclView), DecodeError> {
    if b.len() < 8 {
        Err(DecodeError::InsufficientData)
    } else {
        match spec_parse_aces(b.skip(8), le_u16_at(b, 4) as nat) {
            Ok((m, aces)) => Ok(
                (
                    8 + m,
                    AclView {
                        acl_revision: b[0],
                        sbz1: b[1],
                        acl_size: le_u16_at(b, 2),
                        ace_count: le_u16_at(b, 4),
                        sbz2: le_u16_at(b, 6),
                        data: aces,
                    },
                ),
            ),
            Err(e) => Err(e),
        }
    }
}

/// A successful identifier decode consumes between 8 bytes and the whole
/// input.
pub proof fn lemma_sid_consumed_bounds(b: Seq<u8>)
    ensures
        spec_parse_sid(b) matches Ok(p) ==> 8 <= p.0 <= b.len(),
{
}

/// A successful allowed-payload decode consumes between 12 bytes and the
/// whole input.
pub proof fn lemma_allowed_consumed_bounds(b: Seq<u8>)
    ensures
        spec_parse_allowed(b) matches Ok(p) ==> 12 <= p.0 <= b.len(),
{
    if b.len() >= 4 {
        lemma_sid_consumed_bounds(b.skip(4));
    }
}

/// A successful object-payload decode consumes between 16 bytes and the
/// whole input.
pub proof fn lemma_object_consumed_bounds(b: Seq<u8>)
    ensures
        spec_parse_object(b) matches Ok(p) ==> 16 <= p.0 <= b.len(),
{
    if b.len() >= 8 {
        let flags = ObjectAceFlags { bits: le_u32_at(b, 4) };
        let ot_len: int = if flags.spec_has_object_type() {
            16
        } else {
            0
        };
        let iot_len: int = if flags.spec_has_inherited_object_type() {
            16
        } else {
            0
        };
        lemma_sid_consumed_bounds(b.skip(8 + ot_len + iot_len));
    }
}

/// A successful entry decode consumes between 16 bytes and the whole
/// input.
pub proof fn lemma_ace_consumed_bounds(b: Seq<u8>)
    ensures
        spec_parse_ace(b) matches Ok(p) ==> 16 <= p.0 <= b.len(),
{
    if b.len() >= 4 {
        lemma_allowed_consumed_bounds(b.skip(4));
        lemma_object_consumed_bounds(b.skip(4));
    }
}

} // verus!
