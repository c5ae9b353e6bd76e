//! Verified core of a binding to a native git engine.
//!
//! The engine owns every repository, object and reference; this crate owns
//! the discipline around it. It describes each engine call as plain data
//! ([`Call`]), interprets what the engine answers ([`Reply`]), turns status
//! codes into [`Error`] values and wraps the addresses that come back into
//! handles that cannot outlive the [`Repository`] they came from.
//!
//! The engine itself is reached through a function value that the caller
//! supplies: it takes a [`Call`], performs it, and returns the [`Reply`].

pub mod call;
pub mod error;
pub mod handle;
pub mod kinds;
pub mod laws;
pub mod marshal;
pub mod oid;
pub mod ptr;
pub mod reply;
pub mod repository;

pub use call::{Arg, Call, Op};
pub use error::{check, Error, LastError, EXISTS, NOT_FAST_FORWARD, NOT_FOUND};
pub use handle::{
    bind, bind_all, wrap, Blob, Branch, Branches, Child, Commit, Config, Handle, Index, NonNull,
    Object, Reference, References, Remote, Revspec, Signature, StringArray, Submodule, Tree,
};
pub use kinds::{BranchType, ObjectKind, RepositoryState, ResetType};
pub use marshal::{is_c_safe, to_c_string};
pub use oid::Oid;
pub use ptr::Ptr;
pub use reply::{ask, Found, Out, Reply, Shape};
pub use repository::Repository;
