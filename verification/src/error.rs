//! The error taxonomy: library loading, single-symbol resolution, and group
//! loading each fail in their own way, and a combined form distinguishes the
//! two phases of loading a library together with its symbols.

use vstd::prelude::*;

verus! {

/// An error that occurs when loading a dynamic library.
#[derive(Debug, PartialEq, Eq)]
pub enum LoadError {
    /// The operating system's loader rejected the path; carries the
    /// platform's diagnostic text.
    Os(String),
    /// The path could not be converted to a C string because it holds an
    /// interior nul byte; carries the position of the first such byte.
    CStr(usize),
}

/// The mathematical value of a [`LoadError`].
pub enum LoadErrorView {
    Os(Seq<char>),
    CStr(int),
}

impl View for LoadError {
    type V = LoadErrorView;

    open spec fn view(&self) -> LoadErrorView {
        match self {
            LoadError::Os(msg) => LoadErrorView::Os(msg@),
            LoadError::CStr(pos) => LoadErrorView::CStr(*pos as int),
        }
    }
}

/// An error that occurs when resolving one symbol.
#[derive(Debug, PartialEq, Eq)]
pub enum SymbolError {
    /// The operating system's loader failed to resolve the name; carries the
    /// platform's diagnostic text.
    Os(String),
    /// Resolution produced a null address for a type that forbids null;
    /// carries a description of that type.
    NullValue(String),
}

/// The mathematical value of a [`SymbolError`].
pub enum SymbolErrorView {
    Os(Seq<char>),
    NullValue(Seq<char>),
}

impl View for SymbolError {
    type V = SymbolErrorView;

    open spec fn view(&self) -> SymbolErrorView {
        match self {
            SymbolError::Os(msg) => SymbolErrorView::Os(msg@),
            SymbolError::NullValue(ty) => SymbolErrorView::NullValue(ty@),
        }
    }
}

impl SymbolError {
    /// Builds the error for a null address resolved into the described
    /// non-null type.
    pub fn null_value(description: String) -> (e: SymbolError)
        ensures
            e@ == SymbolErrorView::NullValue(description@),
    {
        SymbolError::NullValue(description)
    }

    /// Attaches the name of the group field whose resolution produced this
    /// error.
    pub fn in_group(self, name: String) -> (e: SymbolGroupError)
        ensures
            e@ == (SymbolGroupErrorView { name: name@, inner: self@ }),
    {
        SymbolGroupError { name, inner: self }
    }
}

/// An error that occurs when loading a symbol group: the underlying
/// [`SymbolError`] together with the name of the one field that failed.
#[derive(Debug, PartialEq, Eq)]
pub struct SymbolGroupError {
    name: String,
    inner: SymbolError,
}

/// The mathematical value of a [`SymbolGroupError`].
pub struct SymbolGroupErrorView {
    pub name: Seq<char>,
    pub inner: SymbolErrorView,
}

impl View for SymbolGroupError {
    type V = SymbolGroupErrorView;

    closed spec fn view(&self) -> SymbolGroupErrorView {
        SymbolGroupErrorView { name: self.name@, inner: self.inner@ }
    }
}

impl SymbolGroupError {
    /// The name of the field that failed to load.
    pub fn name(&self) -> (r: &str)
        ensures
            r@ == self@.name,
    {
        self.name.as_str()
    }

    /// The error that occurred when loading that field.
    pub fn inner(&self) -> (r: &SymbolError)
        ensures
            r@ == self@.inner,
    {
        &self.inner
    }
}

/// Either a [`LoadError`] or a [`SymbolGroupError`]: the two stages of
/// loading a library together with its symbols fail for unrelated reasons,
/// so a caller can branch on which stage failed.
#[derive(Debug, PartialEq, Eq)]
pub enum LoadOrSymbolGroupError {
    /// The library itself failed to load.
    Library(LoadError),
    /// The library loaded, but one of its symbols failed to resolve.
    Symbol(SymbolGroupError),
}

/// The mathematical value of a [`LoadOrSymbolGroupError`].
pub enum LoadOrSymbolGroupErrorView {
    Library(LoadErrorView),
    Symbol(SymbolGroupErrorView),
}

impl View for LoadOrSymbolGroupError {
    type V = LoadOrSymbolGroupErrorView;

    open spec fn view(&self) -> LoadOrSymbolGroupErrorView {
        match self {
            LoadOrSymbolGroupError::Library(e) => LoadOrSymbolGroupErrorView::Library(e@),
            LoadOrSymbolGroupError::Symbol(e) => LoadOrSymbolGroupErrorView::Symbol(e@),
        }
    }
}

impl From<LoadError> for LoadOrSymbolGroupError {
    fn from(value: LoadError) -> (r: LoadOrSymbolGroupError) {
        LoadOrSymbolGroupError::Library(value)
    }
}

impl vstd::std_specs::convert::FromSpecImpl<LoadError> for LoadOrSymbolGroupError {
    open spec fn obeys_from_spec() -> bool {
        true
    }

    open spec fn from_spec(value: LoadError) -> LoadOrSymbolGroupError {
        LoadOrSymbolGroupError::Library(value)
    }
}

impl From<SymbolGroupError> for LoadOrSymbolGroupError {
    fn from(value: SymbolGroupError) -> (r: LoadOrSymbolGroupError) {
        LoadOrSymbolGroupError::Symbol(value)
    }
}

impl vstd::std_specs::convert::FromSpecImpl<SymbolGroupError> for LoadOrSymbolGroupError {
    open spec fn obeys_from_spec() -> bool {
        true
    }

    open spec fn from_spec(value: SymbolGroupError) -> LoadOrSymbolGroupError {
        LoadOrSymbolGroupError::Symbol(value)
    }
}

} // verus!
