//! Typed symbol resolution: turning the raw outcome for one export name into
//! a typed value, enforcing non-null invariants where the target shape
//! demands them.
//!
//! The set of target shapes is closed by design: an open extension point
//! could not guarantee the per-shape null invariants. Resolution inspects
//! only the address itself (null against non-null), never the content behind
//! it; that the declared shape matches what the library actually exports is
//! a caller obligation this layer cannot check.

use vstd::prelude::*;

use crate::error::SymbolError;
use crate::error::SymbolErrorView;
use crate::raw::outcome_of;
use crate::raw::Library;
use crate::raw::RawSymbol;
use crate::raw::RawSymbolView;

verus! {

/// The closed set of shapes a symbol can be resolved into.
#[derive(Clone, Copy, Debug, PartialEq, Eq, Structural)]
pub enum SymbolType {
    /// A data pointer that may legitimately be null.
    Pointer,
    /// A data pointer that must not be null.
    NonNullPointer,
    /// A function pointer of the given arity; must not be null.
    Function { arity: usize },
    /// A function pointer of the given arity, absent when the export is
    /// null.
    OptionalFunction { arity: usize },
}

/// A typed value resolved from one exported name in one library.
#[derive(Clone, Copy, Debug, PartialEq, Eq)]
pub enum Symbol {
    /// A data pointer; `addr` may be the null address.
    Pointer { addr: usize },
    /// A data pointer known not to be null.
    NonNullPointer { addr: usize },
    /// A callable address of the given arity, known not to be null.
    Function { arity: usize, addr: usize },
    /// A callable address of the given arity, or absent where the export was
    /// null.
    OptionalFunction { arity: usize, addr: Option<usize> },
}

impl Symbol {
    /// The per-shape invariant: shapes that forbid null hold a non-null
    /// address.
    pub open spec fn wf(self) -> bool {
        match self {
            Symbol::Pointer { .. } => true,
            Symbol::NonNullPointer { addr } => addr != 0,
            Symbol::Function { addr, .. } => addr != 0,
            Symbol::OptionalFunction { addr, .. } => match addr {
                Some(a) => a != 0,
                None => true,
            },
        }
    }
}

/// The non-nullable counterpart of a shape.
pub open spec fn non_null_spec(ty: SymbolType) -> SymbolType {
    match ty {
        SymbolType::Pointer => SymbolType::NonNullPointer,
        SymbolType::NonNullPointer => SymbolType::NonNullPointer,
        SymbolType::Function { arity } => SymbolType::Function { arity },
        SymbolType::OptionalFunction { arity } => SymbolType::Function { arity },
    }
}

impl SymbolType {
    /// The corresponding non-nullable shape: what a nullable pointer or an
    /// optional function becomes when the export must not be null. Useful
    /// with binding generators that declare every import nullable by default.
    pub fn non_null(&self) -> (r: SymbolType)
        ensures
            r == non_null_spec(*self),
    {
        match self {
            SymbolType::Pointer => SymbolType::NonNullPointer,
            SymbolType::NonNullPointer => SymbolType::NonNullPointer,
            SymbolType::Function { arity } => SymbolType::Function { arity: *arity },
            SymbolType::OptionalFunction { arity } => SymbolType::Function { arity: *arity },
        }
    }
}

/// The description of a shape, as carried by a null-value error.
pub open spec fn describe_type_spec(ty: SymbolType) -> Seq<char> {
    match ty {
        SymbolType::Pointer => "pointer"@,
        SymbolType::NonNullPointer => "non-null pointer"@,
        SymbolType::Function { .. } => "function pointer"@,
        SymbolType::OptionalFunction { .. } => "optional function pointer"@,
    }
}

/// Describes a shape for error reporting.
pub fn describe_type(ty: &SymbolType) -> (r: String)
    ensures
        r@ == describe_type_spec(*ty),
{
    match ty {
        SymbolType::Pointer => "pointer".to_owned(),
        SymbolType::NonNullPointer => "non-null pointer".to_owned(),
        SymbolType::Function { .. } => "function pointer".to_owned(),
        SymbolType::OptionalFunction { .. } => "optional function pointer".to_owned(),
    }
}

/// What typed resolution yields for a shape and a raw outcome: a raw failure
/// propagates as an OS error; a null address is rejected exactly for the
/// shapes that forbid it, absent for an optional function, and held as a
/// value for a nullable pointer.
pub open spec fn resolve_spec(ty: SymbolType, raw: RawSymbolView) -> Result<Symbol, SymbolErrorView> {
    match raw {
        RawSymbolView::Failure(msg) => Err(SymbolErrorView::Os(msg)),
        RawSymbolView::Address(addr) => match ty {
            SymbolType::Pointer => Ok(Symbol::Pointer { addr }),
            SymbolType::NonNullPointer => if addr == 0 {
                Err(SymbolErrorView::NullValue(describe_type_spec(ty)))
            } else {
                Ok(Symbol::NonNullPointer { addr })
            },
            SymbolType::Function { arity } => if addr == 0 {
                Err(SymbolErrorView::NullValue(describe_type_spec(ty)))
            } else {
                Ok(Symbol::Function { arity, addr })
            },
            SymbolType::OptionalFunction { arity } => Ok(
                Symbol::OptionalFunction {
                    arity,
                    addr: if addr == 0 {
                        None
                    } else {
                        Some(addr)
                    },
                },
            ),
        },
    }
}

/// The mathematical value of a resolution result.
pub open spec fn symbol_result_view(r: Result<Symbol, SymbolError>) -> Result<
    Symbol,
    SymbolErrorView,
> {
    match r {
        Ok(s) => Ok(s),
        Err(e) => Err(e@),
    }
}

/// Law: every symbol that typed resolution yields satisfies its per-shape
/// invariant — in particular, resolution fails rather than producing an
/// invalid symbol.
pub proof fn lemma_resolved_symbol_wf(ty: SymbolType, raw: RawSymbolView)
    ensures
        resolve_spec(ty, raw) matches Ok(s) ==> s.wf(),
{
}

/// Resolves an already-obtained address into the given shape, enforcing the
/// shape's null invariant.
pub fn resolve_address(ty: &SymbolType, addr: usize) -> (r: Result<Symbol, SymbolError>)
    ensures
        symbol_result_view(r) == resolve_spec(*ty, RawSymbolView::Address(addr)),
{
    match ty {
        SymbolType::Pointer => Ok(Symbol::Pointer { addr }),
        SymbolType::NonNullPointer => if addr == 0 {
            Err(SymbolError::null_value(describe_type(ty)))
        } else {
            Ok(Symbol::NonNullPointer { addr })
        },
        SymbolType::Function { arity } => if addr == 0 {
            Err(SymbolError::null_value(describe_type(ty)))
        } else {
            Ok(Symbol::Function { arity: *arity, addr })
        },
        SymbolType::OptionalFunction { arity } => Ok(
            Symbol::OptionalFunction {
                arity: *arity,
                addr: if addr == 0 {
                    None
                } else {
                    Some(addr)
                },
            },
        ),
    }
}

/// Resolves a raw outcome into the given shape: a raw failure becomes an OS
/// error, an address goes through the null checks of [`resolve_address`].
pub fn resolve_symbol(ty: &SymbolType, raw: RawSymbol) -> (r: Result<Symbol, SymbolError>)
    ensures
        symbol_result_view(r) == resolve_spec(*ty, raw@),
{
    match raw {
        RawSymbol::Failure(msg) => Err(SymbolError::Os(msg)),
        RawSymbol::Address(addr) => resolve_address(ty, addr),
    }
}

/// Loads one symbol of the given shape from a library by export name.
pub fn load_from(lib: &Library, name: &String, ty: &SymbolType) -> (r: Result<Symbol, SymbolError>)
    ensures
        symbol_result_view(r) == resolve_spec(*ty, outcome_of(lib@.exports, name@)),
{
    let raw = lib.get_symbol(name);
    resolve_symbol(ty, raw)
}

} // verus!
