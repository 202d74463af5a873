//! Borrowed symbols: references to resolved symbols and groups whose
//! lifetime cannot exceed the library they were resolved from.
//!
//! Borrowing ties the reference to a borrow of the [`Library`] itself, so the
//! library cannot be moved or released while a borrowed symbol is still held.
//! That makes this mode unsuitable for storing a library and its symbols
//! together as one long-lived object; the owned mode in [`crate::can`] serves
//! that purpose.

use core::marker::PhantomData;

use vstd::prelude::*;

use crate::error::SymbolError;
use crate::error::SymbolGroupError;
use crate::group::load_group;
use crate::group::load_group_spec;
use crate::group::GroupShape;
use crate::group::SymbolGroup;
use crate::group::SymbolGroupView;
use crate::raw::outcome_of;
use crate::raw::Library;
use crate::symbol::load_from;
use crate::symbol::resolve_spec;
use crate::symbol::Symbol;
use crate::symbol::SymbolType;

verus! {

/// A borrowed reference to a resolved symbol, valid no longer than the
/// library borrow it was created from.
pub struct SymbolRef<'a> {
    symbol: Symbol,
    library: PhantomData<&'a Library>,
}

impl<'a> View for SymbolRef<'a> {
    type V = Symbol;

    closed spec fn view(&self) -> Symbol {
        self.symbol
    }
}

impl<'a> SymbolRef<'a> {
    /// The resolved symbol.
    pub fn get(&self) -> (s: &Symbol)
        ensures
            *s == self@,
    {
        &self.symbol
    }
}

/// A borrowed reference to a resolved symbol group, valid no longer than the
/// library borrow it was created from.
pub struct SymbolGroupRef<'a> {
    group: SymbolGroup,
    library: PhantomData<&'a Library>,
}

impl<'a> View for SymbolGroupRef<'a> {
    type V = SymbolGroupView;

    closed spec fn view(&self) -> SymbolGroupView {
        self.group@
    }
}

impl<'a> SymbolGroupRef<'a> {
    /// The resolved group.
    pub fn get(&self) -> (g: &SymbolGroup)
        ensures
            g@ == self@,
    {
        &self.group
    }
}

impl Library {
    /// Borrows one symbol of the given shape from this library. The returned
    /// reference cannot outlive the borrow of the library, so the library
    /// cannot be released while the symbol is still in use.
    pub fn borrow_symbol<'a>(&'a self, name: &String, ty: &SymbolType) -> (r: Result<
        SymbolRef<'a>,
        SymbolError,
    >)
        ensures
            match r {
                Ok(sr) => resolve_spec(*ty, outcome_of(self@.exports, name@)) == Ok::<
                    Symbol,
                    crate::error::SymbolErrorView,
                >(sr@),
                Err(e) => resolve_spec(*ty, outcome_of(self@.exports, name@)) == Err::<
                    Symbol,
                    crate::error::SymbolErrorView,
                >(e@),
            },
    {
        match load_from(self, name, ty) {
            Ok(symbol) => Ok(SymbolRef { symbol, library: PhantomData }),
            Err(e) => Err(e),
        }
    }

    /// Borrows a whole symbol group of the given shape from this library,
    /// with the same lifetime bound as [`Library::borrow_symbol`].
    pub fn borrow_group<'a>(&'a self, shape: &GroupShape) -> (r: Result<
        SymbolGroupRef<'a>,
        SymbolGroupError,
    >)
        ensures
            match r {
                Ok(gr) => load_group_spec(*shape, self@.exports) == Ok::<
                    SymbolGroupView,
                    crate::error::SymbolGroupErrorView,
                >(gr@),
                Err(e) => load_group_spec(*shape, self@.exports) == Err::<
                    SymbolGroupView,
                    crate::error::SymbolGroupErrorView,
                >(e@),
            },
    {
        match load_group(self, shape) {
            Ok(group) => Ok(SymbolGroupRef { group, library: PhantomData }),
            Err(e) => Err(e),
        }
    }
}

} // verus!
