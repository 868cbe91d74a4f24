//! Essential types and traits to locate syntax elements in source files.
//!
//! - [`Span`] describes a byte range in a source file, with a small algebra
//!   (union, intersection, append) convenient for lexers and parsers.
//! - [`Location`] combines a [`Span`] with a file identifier to pin down a
//!   syntactic element in a source file.
//! - `Meta` attaches arbitrary metadata (usually a `Location`) to a value
//!   while keeping the value fully accessible.
//! - The `Stripped*` traits compare, order and hash values while ignoring
//!   every piece of metadata nested inside them.

pub mod loc;
pub mod location;
pub mod meta;
pub mod reporting;
pub mod span;
pub mod strip;

pub use loc::Loc;
pub use location::{Located, Location, MaybeLocated};
pub use meta::{At, CastMetadata, ErrAt, FailingRecorder, MapLocErr, MapMetadataRecursively, Meta,
    MetaTranspose, MetadataMapper, MetadataRecorder, MetadataRenumber, TryCastMetadata, TryMapMetadataRecursively,
    TryMetadataMapper};
pub use span::{MaybeSpanned, Span, Spanned};
pub use strip::eq::StrippedEq;
pub use strip::hash::{StripHasher, StrippedHash};
pub use strip::ord::StrippedOrd;
pub use strip::partial_eq::StrippedPartialEq;
pub use strip::partial_ord::StrippedPartialOrd;
pub use strip::{BorrowStripped, Strip, Stripped};
