//! Decoder for the binary layout of Windows security descriptors: the
//! fixed descriptor header, access-control lists, the entries they hold,
//! and the variable-length security identifiers embedded in each entry.
//!
//! Every decoder consumes a prefix of its input and returns the decoded
//! record together with the number of bytes consumed, or an error. The
//! executable decoders in `decode` are verified against the specification
//! decoders in `wire`.

pub mod bytes;
pub mod constants;
pub mod laws;
pub mod records;
pub mod wire;

pub use constants::ACCESS_ALLOWED_ACE_TYPE;
pub use constants::ACCESS_ALLOWED_OBJECT_ACE_TYPE;
pub use constants::ACCESS_DENIED_ACE_TYPE;
pub use constants::ACCESS_DENIED_OBJECT_ACE_TYPE;
pub use constants::ACE_INHERITED_OBJECT_PRESENT;
pub use constants::ACE_OBJECT_PRESENT;
pub use records::AccessAllowedAce;
pub use records::AccessAllowedObjectAce;
pub use records::Ace;
pub use records::AceFormat;
pub use records::Acl;
pub use records::DecodeError;
pub use records::LdapSid;
pub use records::LdapSidIdentifiedAuthority;
pub use records::ObjectAceFlags;
pub use records::SecurityDescriptor;

mod decode;
