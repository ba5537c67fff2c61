//! The decoded record types, their mathematical views, and the read-only
//! projections over an entry's payload.

use crate::constants::ACE_INHERITED_OBJECT_PRESENT;
use crate::constants::ACE_OBJECT_PRESENT;
use vstd::prelude::*;

verus! {

/// Why a decode failed: either the input ran out before a fixed-length or
/// count-derived field was complete, or an entry carried a type tag
/// outside the recognised set.
#[derive(Clone, Copy, Debug, PartialEq, Eq, Structural)]
pub enum DecodeError {
    InsufficientData,
    UnrecognizedVariant,
}

/// The fixed 20-byte security-descriptor header: control flags and four
/// byte offsets, relative to the surrounding blob, at which the owner
/// identifier, group identifier, system list and discretionary list sit.
/// The offsets are recorded verbatim and never followed here.
#[derive(Debug)]
pub struct SecurityDescriptor {
    pub revision: u8,
    pub sbz1: u8,
    pub control: u16,
    pub offset_owner: u32,
    pub offset_group: u32,
    pub offset_sacl: u32,
    pub offset_dacl: u32,
}

/// The 6-byte identifier-authority tag of a security identifier, kept
/// verbatim with no further structure imposed.
#[derive(Clone, Debug)]
pub struct LdapSidIdentifiedAuthority {
    pub value: Vec<u8>,
}

impl View for LdapSidIdentifiedAuthority {
    type V = Seq<u8>;

    open spec fn view(&self) -> Seq<u8> {
        self.value@
    }
}

/// A variable-length security identifier: revision, sub-authority count,
/// authority tag, and exactly `sub_authority_count` 32-bit values.
#[derive(Clone, Debug)]
pub struct LdapSid {
    pub revision: u8,
    pub sub_authority_count: u8,
    pub identifier_authority: LdapSidIdentifiedAuthority,
    pub sub_authority: Vec<u32>,
}

/// Mathematical view of a security identifier.
pub ghost struct SidView {
    pub revision: u8,
    pub sub_authority_count: u8,
    pub identifier_authority: Seq<u8>,
    pub sub_authority: Seq<u32>,
}

impl View for LdapSid {
    type V = SidView;

    open spec fn view(&self) -> SidView {
        SidView {
            revision: self.revision,
            sub_authority_count: self.sub_authority_count,
            identifier_authority: self.identifier_authority@,
            sub_authority: self.sub_authority@,
        }
    }
}

/// The 32-bit flag word of an object-scoped entry. Two bits decide which
/// optional GUID fields the payload carries; all other bits are kept but
/// carry no meaning here.
#[derive(Clone, Copy, Debug, PartialEq, Eq, Structural)]
pub struct ObjectAceFlags {
    pub bits: u32,
}

impl ObjectAceFlags {
    /// Whether the object-type GUID field is present in the payload.
    pub open spec fn spec_has_object_type(self) -> bool {
        self.bits & ACE_OBJECT_PRESENT == ACE_OBJECT_PRESENT
    }

    /// Whether the inherited-object-type GUID field is present.
    pub open spec fn spec_has_inherited_object_type(self) -> bool {
        self.bits & ACE_INHERITED_OBJECT_PRESENT == ACE_INHERITED_OBJECT_PRESENT
    }

    /// Tests whether every bit of `mask` is set in this flag word.
    pub fn contains(&self, mask: u32) -> (r: bool)
        ensures
            r == (self.bits & mask == mask),
    {
        self.bits & mask == mask
    }
}

/// An allowed/denied payload: an access mask followed by the trustee's
/// security identifier. Shared by the allowed and denied wire tags.
#[derive(Clone, Debug)]
pub struct AccessAllowedAce {
    pub mask: u32,
    pub sid: LdapSid,
}

/// Mathematical view of an allowed/denied payload.
pub ghost struct AllowedAceView {
    pub mask: u32,
    pub sid: SidView,
}

impl View for AccessAllowedAce {
    type V = AllowedAceView;

    open spec fn view(&self) -> AllowedAceView {
        AllowedAceView { mask: self.mask, sid: self.sid@ }
    }
}

/// An object-scoped payload: an access mask, a flag word, a GUID for each
/// flag bit that is set (object type first, inherited object type second),
/// and the trustee's security identifier. Shared by the object-scoped
/// allowed and denied wire tags.
#[derive(Clone, Debug)]
pub struct AccessAllowedObjectAce {
    pub mask: u32,
    pub flags: ObjectAceFlags,
    pub object_type: Option<u128>,
    pub inherited_object_type: Option<u128>,
    pub sid: LdapSid,
}

/// Mathematical view of an object-scoped payload.
pub ghost struct ObjectAceView {
    pub mask: u32,
    pub flags: ObjectAceFlags,
    pub object_type: Option<u128>,
    pub inherited_object_type: Option<u128>,
    pub sid: SidView,
}

impl View for AccessAllowedObjectAce {
    type V = ObjectAceView;

    open spec fn view(&self) -> ObjectAceView {
        ObjectAceView {
            mask: self.mask,
            flags: self.flags,
            object_type: self.object_type,
            inherited_object_type: self.inherited_object_type,
            sid: self.sid@,
        }
    }
}

/// The payload of an entry: a closed choice between the two wire shapes.
#[derive(Clone, Debug)]
pub enum AceFormat {
    AceAllowed(AccessAllowedAce),
    AceObjectAllowed(AccessAllowedObjectAce),
}

/// Mathematical view of an entry payload.
pub ghost enum AceFormatView {
    AceAllowed(AllowedAceView),
    AceObjectAllowed(ObjectAceView),
}

impl View for AceFormat {
    type V = AceFormatView;

    open spec fn view(&self) -> AceFormatView {
        match self {
            AceFormat::AceAllowed(ace) => AceFormatView::AceAllowed(ace@),
            AceFormat::AceObjectAllowed(ace) => AceFormatView::AceObjectAllowed(ace@),
        }
    }
}

impl AceFormat {
    /// The access mask, present in both payload shapes.
    pub fn get_mask(value: AceFormat) -> (r: Option<u32>)
        ensures
            match value@ {
                AceFormatView::AceAllowed(ace) => r == Some(ace.mask),
                AceFormatView::AceObjectAllowed(ace) => r == Some(ace.mask),
            },
    {
        match value {
            AceFormat::AceAllowed(ace) => Some(ace.mask),
            AceFormat::AceObjectAllowed(ace) => Some(ace.mask),
        }
    }

    /// The trustee's security identifier, present in both payload shapes.
    pub fn get_sid(value: AceFormat) -> (r: Option<LdapSid>)
        ensures
            match value@ {
                AceFormatView::AceAllowed(ace) => r matches Some(sid) && sid@ == ace.sid,
                AceFormatView::AceObjectAllowed(ace) => r matches Some(sid) && sid@ == ace.sid,
            },
    {
        match value {
            AceFormat::AceAllowed(ace) => Some(ace.sid),
            AceFormat::AceObjectAllowed(ace) => Some(ace.sid),
        }
    }

    /// The flag word, present only in the object-scoped shape.
    pub fn get_flags(value: AceFormat) -> (r: Option<ObjectAceFlags>)
        ensures
            match value@ {
                AceFormatView::AceAllowed(_) => r is None,
                AceFormatView::AceObjectAllowed(ace) => r == Some(ace.flags),
            },
    {
        match value {
            AceFormat::AceAllowed(_) => None,
            AceFormat::AceObjectAllowed(ace) => Some(ace.flags),
        }
    }

    /// The object-type GUID, present only in the object-scoped shape and
    /// only when its presence bit was set in the flag word.
    pub fn get_object_type(value: AceFormat) -> (r: Option<u128>)
        ensures
            match value@ {
                AceFormatView::AceAllowed(_) => r is None,
                AceFormatView::AceObjectAllowed(ace) => r == ace.object_type,
            },
    {
        match value {
            AceFormat::AceAllowed(_) => None,
            AceFormat::AceObjectAllowed(ace) => ace.object_type,
        }
    }

    /// The inherited-object-type GUID, present only in the object-scoped
    /// shape and only when its presence bit was set in the flag word.
    pub fn get_inherited_object_type(value: AceFormat) -> (r: Option<u128>)
        ensures
            match value@ {
                AceFormatView::AceAllowed(_) => r is None,
                AceFormatView::AceObjectAllowed(ace) => r == ace.inherited_object_type,
            },
    {
        match value {
            AceFormat::AceAllowed(_) => None,
            AceFormat::AceObjectAllowed(ace) => ace.inherited_object_type,
        }
    }
}

/// One access-control entry: the common 4-byte header (type tag, flags,
/// declared size) and the payload the type tag selects. The declared size
/// is recorded verbatim and never used to bound the payload decode.
#[derive(Debug)]
pub struct Ace {
    pub ace_type: u8,
    pub ace_flags: u8,
    pub ace_size: u16,
    pub data: AceFormat,
}

/// Mathematical view of an access-control entry.
pub ghost struct AceView {
    pub ace_type: u8,
    pub ace_flags: u8,
    pub ace_size: u16,
    pub data: AceFormatView,
}

impl View for Ace {
    type V = AceView;

    open spec fn view(&self) -> AceView {
        AceView {
            ace_type: self.ace_type,
            ace_flags: self.ace_flags,
            ace_size: self.ace_size,
            data: self.data@,
        }
    }
}

/// The views of a sequence of entries, element by element.
pub open spec fn ace_views(s: Seq<Ace>) -> Seq<AceView> {
    Seq::new(s.len(), |i: int| s[i]@)
}

/// An access-control list: its 8-byte header and exactly `ace_count`
/// entries. The declared `acl_size` is recorded verbatim; decoding is
/// driven by the count field alone.
#[derive(Debug)]
pub struct Acl {
    pub acl_revision: u8,
    pub sbz1: u8,
    pub acl_size: u16,
    pub ace_count: u16,
    pub sbz2: u16,
    pub data: Vec<Ace>,
}

/// Mathematical view of an access-control list.
pub ghost struct AclView {
    pub acl_revision: u8,
    pub sbz1: u8,
    pub acl_size: u16,
    pub ace_count: u16,
    pub sbz2: u16,
    pub data: Seq<AceView>,
}

impl View for Acl {
    type V = AclView;

    open spec fn view(&self) -> AclView {
        AclView {
            acl_revision: self.acl_revision,
            sbz1: self.sbz1,
            acl_size: self.acl_size,
            ace_count: self.ace_count,
            sbz2: self.sbz2,
            data: ace_views(self.data@),
        }
    }
}

} // verus!
