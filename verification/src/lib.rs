//! A dynamic-library loading model with verified symbol resolution.
//!
//! Dynamic loaders hand out raw addresses, and the classic hazards are a
//! pointer that outlives the library that produced it, a null address slipped
//! into a type that forbids null, and a half-loaded bundle of symbols left
//! behind by a failure. This crate models a library's export surface as plain
//! data and verifies the layers built on top of it: typed resolution of one
//! symbol, all-or-nothing loading of a named group of symbols, borrowed
//! references scoped to the owning library, and the `Can`, which fuses a
//! library with its resolved group into one value with one lifetime.
//!
//! The operating-system calls themselves (opening, resolving and closing a
//! native library) stay outside this crate; a host program performs them and
//! hands their outcomes in as values.

pub mod borrow;
pub mod can;
pub mod error;
pub mod group;
pub mod raw;
pub mod symbol;

pub use error::{
    LoadError, LoadErrorView, LoadOrSymbolGroupError, LoadOrSymbolGroupErrorView, SymbolError,
    SymbolErrorView, SymbolGroupError, SymbolGroupErrorView,
};
pub use group::{GroupMember, GroupShape, MemberKind, MemberValue, ResolvedMember, SymbolGroup};
pub use raw::LibraryHandle;
pub use symbol::{Symbol, SymbolType};
