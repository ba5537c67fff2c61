//! Properties of the wire model that hold of every input, stated and
//! proved once so that callers need not re-derive them from the decoder
//! definitions.

use crate::constants::ACCESS_ALLOWED_ACE_TYPE;
use crate::constants::ACCESS_DENIED_ACE_TYPE;
use crate::records::DecodeError;
use crate::wire::is_allowed_type;
use crate::wire::is_object_type;
use crate::wire::spec_parse_ace;
use crate::wire::spec_parse_acl;
use crate::wire::spec_parse_sid;
use vstd::prelude::*;

verus! {

/// For every byte sequence whose identifier decode succeeds, the decoded
/// sub-authority sequence is exactly as long as the decoded count field,
/// and the decode consumes exactly `8 + 4 * count` bytes.
pub proof fn lemma_sid_count_matches_length(b: Seq<u8>)
    ensures
        spec_parse_sid(b) matches Ok(p) ==> p.1.sub_authority.len() == p.1.sub_authority_count
            && p.0 == 8 + 4 * (p.1.sub_authority_count as int),
{
}

/// Truncating a byte sequence whose identifier decode succeeds to any
/// length short of the `8 + 4 * count` bytes the decode consumes makes
/// the decode fail with `InsufficientData`.
pub proof fn lemma_sid_truncation_fails(b: Seq<u8>, m: int)
    requires
        0 <= m,
        spec_parse_sid(b) matches Ok(p) && m < p.0,
    ensures
        spec_parse_sid(b.take(m)) == Err::<(int, crate::records::SidView), DecodeError>(
            DecodeError::InsufficientData,
        ),
{
    let t = b.take(m);
    if m >= 8 {
        assert(t[1] == b[1]);
    }
}

/// The allowed and the denied type tag select one payload decoder: on
/// identical bytes past the type tag, an entry under either tag decodes
/// to the same flags, size and payload, consuming the same count of
/// bytes, or fails with the same error.
pub proof fn lemma_allowed_denied_share_layout(b: Seq<u8>)
    requires
        b.len() >= 4,
        is_allowed_type(b[0]),
    ensures
        ({
            let o = b.update(
                0,
                if b[0] == ACCESS_ALLOWED_ACE_TYPE {
                    ACCESS_DENIED_ACE_TYPE
                } else {
                    ACCESS_ALLOWED_ACE_TYPE
                },
            );
            match (spec_parse_ace(b), spec_parse_ace(o)) {
                (Ok((n1, v1)), Ok((n2, v2))) => n1 == n2 && v1.data == v2.data && v1.ace_flags
                    == v2.ace_flags && v1.ace_size == v2.ace_size,
                (Err(e1), Err(e2)) => e1 == e2,
                _ => false,
            }
        }),
{
    let o = b.update(
        0,
        if b[0] == ACCESS_ALLOWED_ACE_TYPE {
            ACCESS_DENIED_ACE_TYPE
        } else {
            ACCESS_ALLOWED_ACE_TYPE
        },
    );
    assert(o.skip(4) =~= b.skip(4));
}

/// An entry whose type tag lies outside the recognised set fails with
/// `UnrecognizedVariant`, whatever bytes follow the 4-byte header.
pub proof fn lemma_unknown_type_rejected(b: Seq<u8>)
    requires
        b.len() >= 4,
        !is_allowed_type(b[0]),
        !is_object_type(b[0]),
    ensures
        spec_parse_ace(b) == Err::<(int, crate::records::AceView), DecodeError>(
            DecodeError::UnrecognizedVariant,
        ),
{
}

/// The declared size field of a list is never consulted: two inputs that
/// differ only in that field (bytes 2 and 3) decode to the same entries,
/// counts and consumed length — only the recorded `acl_size` differs —
/// or fail with the same error.
pub proof fn lemma_acl_size_field_not_consulted(b1: Seq<u8>, b2: Seq<u8>)
    requires
        b1.len() == b2.len(),
        forall|i: int| 0 <= i < b1.len() && i != 2 && i != 3 ==> b1[i] == b2[i],
    ensures
        match (spec_parse_acl(b1), spec_parse_acl(b2)) {
            (Ok((n1, v1)), Ok((n2, v2))) => n1 == n2 && v1.acl_revision == v2.acl_revision
                && v1.sbz1 == v2.sbz1 && v1.ace_count == v2.ace_count && v1.sbz2 == v2.sbz2
                && v1.data == v2.data,
            (Err(e1), Err(e2)) => e1 == e2,
            _ => false,
        },
{
    if b1.len() >= 8 {
        assert(b1.skip(8) =~= b2.skip(8));
    }
}

} // verus!
