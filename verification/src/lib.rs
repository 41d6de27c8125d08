//! A query layer over a Git repository: revisions are resolved to object
//! ids, ranges of the commit graph are walked, references are indexed by
//! the commit they point to, trees are compared and the state of HEAD,
//! index and working tree is reconciled into one status report.
//!
//! The object store itself is libgit2, reached through the `git2` crate.
//! Every call into it stands in the module `store`; what the library
//! decides on the values that come back is verified.

pub mod api;
pub mod branch;
pub mod commit;
pub mod diff;
pub mod error;
pub mod filter;
pub mod flow;
pub mod oid;
pub mod reference;
pub mod repository;
pub mod status;
pub mod store;
pub mod tag;
pub mod text;
pub mod utils;
pub mod walk;

pub use error::{Error, ErrorCtx, ErrorKind, StoreFailure};
pub use branch::Branch;
pub use commit::{Commit, CommitProperties, CommitWithReferences};
pub use diff::Diff;
pub use filter::ReferenceKindFilter;
pub use oid::ObjectId;
pub use reference::{ReferenceKind, ReferenceMetadata, ResolvedReference};
pub use repository::GitRepository;
pub use status::Status;
pub use tag::TaggedCommit;
