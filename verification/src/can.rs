//! Owned symbols: a library fused with its fully-resolved symbol group into
//! one value with one lifetime.
//!
//! A [`Can`] owns both the [`Library`] and the [`SymbolGroup`] resolved from
//! it, so the symbols structurally cannot outlive the library: the library
//! can only be released by taking the can apart, which consumes the can and
//! with it every path to the resolved group.

use vstd::prelude::*;

use crate::error::LoadError;
use crate::error::LoadOrSymbolGroupError;
use crate::error::LoadOrSymbolGroupErrorView;
use crate::error::SymbolGroupError;
use crate::error::SymbolGroupErrorView;
use crate::group::load_group;
use crate::group::load_group_spec;
use crate::group::SymbolGroup;
use crate::group::SymbolGroupView;
use crate::group::GroupShape;
use crate::raw::ExportTable;
use crate::raw::Library;
use crate::raw::LibraryHandle;
use crate::raw::LibraryView;

verus! {

/// The mathematical value of a [`Can`].
pub struct CanView {
    pub library: LibraryView,
    pub symbols: SymbolGroupView,
}

/// A library together with the symbol group resolved from it. The symbols do
/// not outlive the library, because they die with it.
pub struct Can {
    library: Library,
    symbols: SymbolGroup,
}

impl View for Can {
    type V = CanView;

    closed spec fn view(&self) -> CanView {
        CanView { library: self.library@, symbols: self.symbols@ }
    }
}

impl Can {
    /// Resolves a group of the given shape against an already-owned library
    /// and, on success, fuses both into one value. On failure only the group
    /// error surfaces, and the library is dropped with the call.
    pub fn with_handle(library: Library, shape: &GroupShape) -> (r: Result<Can, SymbolGroupError>)
        ensures
            match r {
                Ok(can) => {
                    &&& can@.library == library@
                    &&& load_group_spec(*shape, library@.exports) == Ok::<
                        SymbolGroupView,
                        SymbolGroupErrorView,
                    >(can@.symbols)
                },
                Err(e) => load_group_spec(*shape, library@.exports) == Err::<
                    SymbolGroupView,
                    SymbolGroupErrorView,
                >(e@),
            },
    {
        match load_group(&library, shape) {
            Ok(symbols) => Ok(Can { library, symbols }),
            Err(e) => Err(e),
        }
    }

    /// Composes the two stages of loading a can: a failure to open the
    /// library and a failure to resolve its symbols have unrelated causes, so
    /// they surface as distinct variants of the combined error — a caller may
    /// retry a load failure with another path, but not a symbol mismatch.
    pub fn load(library: Result<Library, LoadError>, shape: &GroupShape) -> (r: Result<
        Can,
        LoadOrSymbolGroupError,
    >)
        ensures
            match library {
                Err(e) => r matches Err(c) && c@ == LoadOrSymbolGroupErrorView::Library(e@),
                Ok(lib) => match r {
                    Ok(can) => {
                        &&& can@.library == lib@
                        &&& load_group_spec(*shape, lib@.exports) == Ok::<
                            SymbolGroupView,
                            SymbolGroupErrorView,
                        >(can@.symbols)
                    },
                    Err(c) => {
                        &&& c@ matches LoadOrSymbolGroupErrorView::Symbol(se)
                        &&& load_group_spec(*shape, lib@.exports) == Err::<
                            SymbolGroupView,
                            SymbolGroupErrorView,
                        >(se)
                    },
                },
            },
    {
        match library {
            Err(e) => Err(LoadOrSymbolGroupError::Library(e)),
            Ok(lib) => match Can::with_handle(lib, shape) {
                Ok(can) => Ok(can),
                Err(e) => Err(LoadOrSymbolGroupError::Symbol(e)),
            },
        }
    }

    /// Builds a can over a handle owned elsewhere: the wrapped library is
    /// non-releasing, so taking the can apart hands the handle back without
    /// freeing it.
    pub fn wrap_raw(handle: usize, exports: ExportTable, shape: &GroupShape) -> (r: Result<
        Can,
        SymbolGroupError,
    >)
        ensures
            match r {
                Ok(can) => {
                    &&& can@.library == (LibraryView { handle, owned: false, exports: exports@ })
                    &&& load_group_spec(*shape, exports@) == Ok::<
                        SymbolGroupView,
                        SymbolGroupErrorView,
                    >(can@.symbols)
                },
                Err(e) => load_group_spec(*shape, exports@) == Err::<
                    SymbolGroupView,
                    SymbolGroupErrorView,
                >(e@),
            },
    {
        Can::with_handle(Library::wrap_raw(handle, exports), shape)
    }

    /// The resolved symbol group.
    pub fn group(&self) -> (g: &SymbolGroup)
        ensures
            g@ == self@.symbols,
    {
        &self.symbols
    }

    /// Takes the can apart for teardown, exactly once: the library and the
    /// group part ways, and the can — with every path to its symbols — is
    /// consumed. Releasing the returned library twice is unrepresentable,
    /// because [`Library::release`] consumes it as well.
    pub fn dissolve(self) -> (r: (Library, SymbolGroup))
        ensures
            r.0@ == self@.library,
            r.1@ == self@.symbols,
    {
        (self.library, self.symbols)
    }
}

impl LibraryHandle for Can {
    open spec fn raw_spec(&self) -> usize {
        self@.library.handle
    }

    fn as_raw(&self) -> (h: usize) {
        self.library.as_raw()
    }
}

} // verus!
