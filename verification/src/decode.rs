//! The executable decoders. Each `parse` consumes a prefix of its input
//! and returns the bytes consumed together with the decoded record, or
//! the error; the contract ties the result exactly to the specification
//! decoder of the same record kind in `wire`.

use crate::bytes::le_u32_at;
use crate::bytes::read_le_u128;
use crate::bytes::read_le_u16;
use crate::bytes::read_le_u32;
use crate::bytes::read_u8;
use crate::constants::ACCESS_ALLOWED_ACE_TYPE;
use crate::constants::ACCESS_ALLOWED_OBJECT_ACE_TYPE;
use crate::constants::ACCESS_DENIED_ACE_TYPE;
use crate::constants::ACCESS_DENIED_OBJECT_ACE_TYPE;
use crate::constants::ACE_INHERITED_OBJECT_PRESENT;
use crate::constants::ACE_OBJECT_PRESENT;
use crate::records::ace_views;
use crate::records::AccessAllowedAce;
use crate::records::AccessAllowedObjectAce;
use crate::records::Ace;
use crate::records::AceFormat;
use crate::records::AceFormatView;
use crate::records::AceView;
use crate::records::Acl;
use crate::records::DecodeError;
use crate::records::LdapSid;
use crate::records::LdapSidIdentifiedAuthority;
use crate::records::ObjectAceFlags;
use crate::records::SecurityDescriptor;
use crate::wire::cont_aces;
use crate::wire::lemma_ace_consumed_bounds;
use crate::wire::lemma_allowed_consumed_bounds;
use crate::wire::lemma_object_consumed_bounds;
use crate::wire::spec_parse_ace;
use crate::wire::spec_parse_aces;
use crate::wire::spec_parse_acl;
use crate::wire::spec_parse_allowed;
use crate::wire::spec_parse_authority;
use crate::wire::spec_parse_object;
use crate::wire::spec_parse_object_flags;
use crate::wire::spec_parse_security_descriptor;
use crate::wire::spec_parse_sid;
use vstd::prelude::*;
use vstd::slice::slice_subrange;
use vstd::slice::slice_to_vec;

verus! {

impl SecurityDescriptor {
    /// Decodes the fixed 20-byte descriptor header from the front of
    /// `input`, returning the bytes consumed and the header.
    pub fn parse(input: &[u8]) -> (r: Result<(usize, Self), DecodeError>)
        ensures
            match spec_parse_security_descriptor(input@) {
                Ok((n, v)) => r matches Ok(p) && p.0 == n && p.1 == v,
                Err(e) => r matches Err(a) && a == e,
            },
    {
        if input.len() < 20 {
            return Err(DecodeError::InsufficientData);
        }
        let header = SecurityDescriptor {
            revision: read_u8(input, 0),
            sbz1: read_u8(input, 1),
            control: read_le_u16(input, 2),
            offset_owner: read_le_u32(input, 4),
            offset_group: read_le_u32(input, 8),
            offset_sacl: read_le_u32(input, 12),
            offset_dacl: read_le_u32(input, 16),
        };
        Ok((20, header))
    }
}

impl LdapSidIdentifiedAuthority {
    /// Decodes the 6-byte authority tag from the front of `input`.
    pub fn parse(input: &[u8]) -> (r: Result<(usize, Self), DecodeError>)
        ensures
            match spec_parse_authority(input@) {
                Ok((n, v)) => r matches Ok(p) && p.0 == n && p.1@ == v,
                Err(e) => r matches Err(a) && a == e,
            },
    {
        if input.len() < 6 {
            return Err(DecodeError::InsufficientData);
        }
        let value = slice_to_vec(slice_subrange(input, 0, 6));
        Ok((6, LdapSidIdentifiedAuthority { value }))
    }
}

impl LdapSid {
    /// Decodes a security identifier from the front of `input`: revision,
    /// sub-authority count N, the authority tag, then exactly N 32-bit
    /// values; `8 + 4*N` bytes in all.
    pub fn parse(input: &[u8]) -> (r: Result<(usize, Self), DecodeError>)
        ensures
            match spec_parse_sid(input@) {
                Ok((n, v)) => r matches Ok(p) && p.0 == n && p.1@ == v,
                Err(e) => r matches Err(a) && a == e,
            },
    {
        if input.len() < 8 {
            return Err(DecodeError::InsufficientData);
        }
        let revision = read_u8(input, 0);
        let sub_authority_count = read_u8(input, 1);
        let n = sub_authority_count as usize;
        let needed = 8 + 4 * n;
        if input.len() < needed {
            return Err(DecodeError::InsufficientData);
        }
        let authority = match Self::parse_authority_at(input) {
            Ok(a) => a,
            Err(e) => {
                return Err(e);
            },
        };
        let mut sub_authority: Vec<u32> = Vec::new();
        let mut i: usize = 0;
        while i < n
            invariant
                i <= n,
                needed == 8 + 4 * n,
                needed <= input@.len(),
                sub_authority@.len() == i,
                forall|j: int|
                    0 <= j < i ==> sub_authority@[j] == le_u32_at(input@, 8 + 4 * j),
            decreases n - i,
        {
            sub_authority.push(read_le_u32(input, 8 + 4 * i));
            i = i + 1;
        }
        let sid = LdapSid { revision, sub_authority_count, identifier_authority: authority, sub_authority };
        proof {
            let spec_subs = Seq::new(n as nat, |j: int| le_u32_at(input@, 8 + 4 * j));
            assert(sid.sub_authority@ =~= spec_subs);
        }
        Ok((needed, sid))
    }

    /// Decodes the authority tag that sits at offset 2 of an identifier.
    fn parse_authority_at(input: &[u8]) -> (r: Result<LdapSidIdentifiedAuthority, DecodeError>)
        requires
            input@.len() >= 8,
        ensures
            r matches Ok(a) && a@ == input@.subrange(2, 8),
    {
        let tail = slice_subrange(input, 2, input.len());
        proof {
            assert(tail@.subrange(0, 6) =~= input@.subrange(2, 8));
        }
        match LdapSidIdentifiedAuthority::parse(tail) {
            Ok((_n, a)) => Ok(a),
            Err(e) => Err(e),
        }
    }
}

impl AccessAllowedAce {
    /// Decodes an allowed/denied payload from the front of `input`: a
    /// 32-bit access mask followed by the trustee's identifier.
    pub fn parse(input: &[u8]) -> (r: Result<(usize, AceFormat), DecodeError>)
        ensures
            match spec_parse_allowed(input@) {
                Ok((n, v)) => r matches Ok(p) && p.0 == n && p.1@ == AceFormatView::AceAllowed(v),
                Err(e) => r matches Err(a) && a == e,
            },
    {
        if input.len() < 4 {
            return Err(DecodeError::InsufficientData);
        }
        let mask = read_le_u32(input, 0);
        let tail = slice_subrange(input, 4, input.len());
        proof {
            assert(tail@ =~= input@.skip(4));
        }
        match LdapSid::parse(tail) {
            Ok((n, sid)) => Ok((4 + n, AceFormat::AceAllowed(AccessAllowedAce { mask, sid }))),
            Err(e) => Err(e),
        }
    }
}

impl AccessAllowedObjectAce {
    /// Decodes an object-scoped payload from the front of `input`: a
    /// 32-bit access mask, the 32-bit flag word, one 16-byte GUID for
    /// each presence bit that is set (object type first), then the
    /// trustee's identifier.
    pub fn parse(input: &[u8]) -> (r: Result<(usize, AceFormat), DecodeError>)
        ensures
            match spec_parse_object(input@) {
                Ok((n, v)) => r matches Ok(p) && p.0 == n && p.1@ == AceFormatView::AceObjectAllowed(
                    v,
                ),
                Err(e) => r matches Err(a) && a == e,
            },
    {
        if input.len() < 8 {
            return Err(DecodeError::InsufficientData);
        }
        let mask = read_le_u32(input, 0);
        let ftail = slice_subrange(input, 4, input.len());
        proof {
            assert(ftail@ =~= input@.skip(4));
            assert(le_u32_at(input@.skip(4), 0) == le_u32_at(input@, 4));
        }
        let flags = match ObjectAceFlags::parse(ftail) {
            Ok(p) => p.1,
            Err(e) => {
                return Err(e);
            },
        };
        let mut pos: usize = 8;
        let object_type: Option<u128> = if flags.contains(ACE_OBJECT_PRESENT) {
            if input.len() < 24 {
                return Err(DecodeError::InsufficientData);
            }
            let guid = read_le_u128(input, 8);
            pos = 24;
            Some(guid)
        } else {
            None
        };
        let inherited_object_type: Option<u128> = if flags.contains(ACE_INHERITED_OBJECT_PRESENT) {
            if input.len() < pos + 16 {
                return Err(DecodeError::InsufficientData);
            }
            let guid = read_le_u128(input, pos);
            pos = pos + 16;
            Some(guid)
        } else {
            None
        };
        let tail = slice_subrange(input, pos, input.len());
        proof {
            assert(tail@ =~= input@.skip(pos as int));
        }
        match LdapSid::parse(tail) {
            Ok((n, sid)) => Ok(
                (
                    pos + n,
                    AceFormat::AceObjectAllowed(
                        AccessAllowedObjectAce {
                            mask,
                            flags,
                            object_type,
                            inherited_object_type,
                            sid,
                        },
                    ),
                ),
            ),
            Err(e) => Err(e),
        }
    }
}

impl ObjectAceFlags {
    /// Decodes the 32-bit flag word from the front of `input`. Every bit
    /// pattern decodes; bits outside the two named ones are kept verbatim.
    pub fn parse(input: &[u8]) -> (r: Result<(usize, Self), DecodeError>)
        ensures
            match spec_parse_object_flags(input@) {
                Ok((n, v)) => r matches Ok(p) && p.0 == n && p.1 == v,
                Err(e) => r matches Err(a) && a == e,
            },
    {
        if input.len() < 4 {
            return Err(DecodeError::InsufficientData);
        }
        Ok((4, ObjectAceFlags { bits: read_le_u32(input, 0) }))
    }
}

impl Ace {
    /// Decodes one entry from the front of `input`: the 4-byte header,
    /// then the payload the type tag selects. A type tag outside the
    /// recognised set fails with `UnrecognizedVariant`.
    pub fn parse(input: &[u8]) -> (r: Result<(usize, Self), DecodeError>)
        ensures
            match spec_parse_ace(input@) {
                Ok((n, v)) => r matches Ok(p) && p.0 == n && p.1@ == v,
                Err(e) => r matches Err(a) && a == e,
            },
    {
        if input.len() < 4 {
            return Err(DecodeError::InsufficientData);
        }
        let ace_type = read_u8(input, 0);
        let ace_flags = read_u8(input, 1);
        let ace_size = read_le_u16(input, 2);
        let tail = slice_subrange(input, 4, input.len());
        proof {
            assert(tail@ =~= input@.skip(4));
        }
        let payload: (usize, AceFormat) = if ace_type == ACCESS_ALLOWED_ACE_TYPE || ace_type
            == ACCESS_DENIED_ACE_TYPE {
            proof {
                lemma_allowed_consumed_bounds(tail@);
            }
            match AccessAllowedAce::parse(tail) {
                Ok(p) => p,
                Err(e) => {
                    return Err(e);
                },
            }
        } else if ace_type == ACCESS_ALLOWED_OBJECT_ACE_TYPE || ace_type
            == ACCESS_DENIED_OBJECT_ACE_TYPE {
            proof {
                lemma_object_consumed_bounds(tail@);
            }
            match AccessAllowedObjectAce::parse(tail) {
                Ok(p) => p,
                Err(e) => {
                    return Err(e);
                },
            }
        } else {
            return Err(DecodeError::UnrecognizedVariant);
        };
        Ok((4 + payload.0, Ace { ace_type, ace_flags, ace_size, data: payload.1 }))
    }
}

impl Acl {
    /// Decodes a list from the front of `input`: the 8-byte header, then
    /// exactly as many entries as the header's count field declares. The
    /// declared size field is recorded but never consulted.
    #[verifier::loop_isolation(false)]
    pub fn parse(input: &[u8]) -> (r: Result<(usize, Self), DecodeError>)
        ensures
            match spec_parse_acl(input@) {
                Ok((n, v)) => r matches Ok(p) && p.0 == n && p.1@ == v,
                Err(e) => r matches Err(a) && a == e,
            },
    {
        if input.len() < 8 {
            return Err(DecodeError::InsufficientData);
        }
        let acl_revision = read_u8(input, 0);
        let sbz1 = read_u8(input, 1);
        let acl_size = read_le_u16(input, 2);
        let ace_count = read_le_u16(input, 4);
        let sbz2 = read_le_u16(input, 6);
        let count = ace_count as usize;
        let ghost tail0 = input@.skip(8);
        let mut data: Vec<Ace> = Vec::new();
        let mut pos: usize = 8;
        let mut i: usize = 0;
        proof {
            assert(ace_views(data@) =~= Seq::<AceView>::empty());
            match spec_parse_aces(tail0, count as nat) {
                Ok((m, rest)) => {
                    assert(ace_views(data@) + rest =~= rest);
                },
                Err(_) => {},
            }
        }
        while i < count
            invariant
                i <= count,
                8 <= pos <= input@.len(),
                data@.len() == i,
                cont_aces(ace_views(data@), pos - 8, input@.skip(pos as int), (count - i) as nat)
                    == spec_parse_aces(tail0, count as nat),
            decreases count - i,
        {
            let sub = slice_subrange(input, pos, input.len());
            proof {
                assert(sub@ =~= input@.skip(pos as int));
            }
            match Ace::parse(sub) {
                Ok((k, ace)) => {
                    proof {
                        lemma_ace_consumed_bounds(sub@);
                        let pre = ace_views(data@);
                        let n_rem = (count - i) as nat;
                        assert(sub@.skip(k as int) =~= input@.skip(pos + k));
                        match spec_parse_aces(input@.skip(pos + k), (n_rem - 1) as nat) {
                            Ok((m, rest)) => {
                                assert(pre + (seq![ace@] + rest) =~= (pre + seq![ace@]) + rest);
                            },
                            Err(_) => {},
                        }
                        assert(cont_aces(
                            pre + seq![ace@],
                            pos + k - 8,
                            input@.skip(pos + k),
                            (n_rem - 1) as nat,
                        ) == cont_aces(pre, pos - 8, sub@, n_rem));
                    }
                    let ghost pre = ace_views(data@);
                    data.push(ace);
                    proof {
                        assert(ace_views(data@) =~= pre + seq![ace@]);
                    }
                    pos = pos + k;
                    i = i + 1;
                },
                Err(e) => {
                    return Err(e);
                },
            }
        }
        proof {
            let pre = ace_views(data@);
            assert(pre + Seq::<AceView>::empty() =~= pre);
        }
        Ok((pos, Acl { acl_revision, sbz1, acl_size, ace_count, sbz2, data }))
    }
}

} // verus!
