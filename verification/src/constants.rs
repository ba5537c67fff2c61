//! Numeric tags of the wire format: the entry type values the dispatcher
//! recognises, and the two defined bits of the object-entry flag word.

use vstd::prelude::*;

verus! {

/// Type tag of an access-allowed entry.
pub const ACCESS_ALLOWED_ACE_TYPE: u8 = 0x00;

/// Type tag of an access-denied entry; same payload layout as allowed.
pub const ACCESS_DENIED_ACE_TYPE: u8 = 0x01;

/// Type tag of an object-scoped access-allowed entry.
pub const ACCESS_ALLOWED_OBJECT_ACE_TYPE: u8 = 0x05;

/// Type tag of an object-scoped access-denied entry; same payload layout
/// as the object-scoped allowed entry.
pub const ACCESS_DENIED_OBJECT_ACE_TYPE: u8 = 0x06;

/// Flag bit: the object-type GUID is present in the payload.
pub const ACE_OBJECT_PRESENT: u32 = 0x0001;

/// Flag bit: the inherited-object-type GUID is present in the payload.
pub const ACE_INHERITED_OBJECT_PRESENT: u32 = 0x0002;

} // verus!
