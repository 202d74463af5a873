//! The raw loader layer, modelled over plain values.
//!
//! A real platform loader maps a path to an opaque handle, resolves an export
//! name to an address, and releases the handle. This module models that
//! surface: a handle is an address-sized integer, and a library's export
//! surface is an [`ExportTable`] mapping each name to what the platform
//! resolver reported for it — either diagnostic text or an address. The host
//! program performs the native calls and records their outcomes here; within
//! one open library, resolving a name is idempotent, so the table is a
//! faithful stand-in for the resolver.

use vstd::prelude::*;

use crate::error::LoadError;
use crate::error::LoadErrorView;

verus! {

/// What the platform resolver reports for one export name.
///
/// A null address is a legitimate export value for a data symbol and is not
/// conflated with failure at this layer; null-checking belongs to the typed
/// resolution layer above.
#[derive(Debug, PartialEq, Eq)]
pub enum RawSymbol {
    /// Resolution failed; carries the platform's diagnostic text.
    Failure(String),
    /// Resolution produced this address, which may be the null address (0).
    Address(usize),
}

/// The mathematical value of a [`RawSymbol`].
pub enum RawSymbolView {
    Failure(Seq<char>),
    Address(usize),
}

impl View for RawSymbol {
    type V = RawSymbolView;

    open spec fn view(&self) -> RawSymbolView {
        match self {
            RawSymbol::Failure(msg) => RawSymbolView::Failure(msg@),
            RawSymbol::Address(addr) => RawSymbolView::Address(*addr),
        }
    }
}

/// What resolving `name` against an export surface yields: the recorded
/// outcome, or — for a name the surface says nothing about — a failure with
/// empty diagnostic text, as a platform resolver may report.
pub open spec fn outcome_of(exports: Map<Seq<char>, RawSymbolView>, name: Seq<char>) -> RawSymbolView {
    if exports.contains_key(name) {
        exports[name]
    } else {
        RawSymbolView::Failure(Seq::empty())
    }
}

/// One recorded resolution outcome.
struct ExportEntry {
    name: String,
    symbol: RawSymbol,
}

/// A library's export surface: for each recorded name, what the platform
/// resolver reported. Recording a name again overrides the earlier record.
pub struct ExportTable {
    entries: Vec<ExportEntry>,
}

/// The map denoted by a sequence of records, later records overriding
/// earlier ones.
spec fn table_map(entries: Seq<ExportEntry>) -> Map<Seq<char>, RawSymbolView>
    decreases entries.len(),
{
    if entries.len() == 0 {
        Map::empty()
    } else {
        table_map(entries.drop_last()).insert(entries.last().name@, entries.last().symbol@)
    }
}

impl View for ExportTable {
    type V = Map<Seq<char>, RawSymbolView>;

    closed spec fn view(&self) -> Map<Seq<char>, RawSymbolView> {
        table_map(self.entries@)
    }
}

proof fn lemma_table_map_match(entries: Seq<ExportEntry>, i: int)
    requires
        0 <= i < entries.len(),
        forall|j: int| i < j < entries.len() ==> entries[j].name@ != entries[i].name@,
    ensures
        table_map(entries).contains_key(entries[i].name@),
        table_map(entries)[entries[i].name@] == entries[i].symbol@,
    decreases entries.len(),
{
    if i < entries.len() - 1 {
        assert(entries.drop_last()[i] == entries[i]);
        lemma_table_map_match(entries.drop_last(), i);
    }
}

proof fn lemma_table_map_no_match(entries: Seq<ExportEntry>, name: Seq<char>)
    requires
        forall|j: int| 0 <= j < entries.len() ==> entries[j].name@ != name,
    ensures
        !table_map(entries).contains_key(name),
    decreases entries.len(),
{
    if entries.len() > 0 {
        lemma_table_map_no_match(entries.drop_last(), name);
    }
}

impl ExportTable {
    /// An export surface with nothing recorded.
    pub fn new() -> (table: ExportTable)
        ensures
            table@ == Map::<Seq<char>, RawSymbolView>::empty(),
    {
        ExportTable { entries: Vec::new() }
    }

    /// Records what the platform resolver reported for `name`.
    pub fn define(&mut self, name: String, symbol: RawSymbol)
        ensures
            final(self)@ == old(self)@.insert(name@, symbol@),
    {
        let ghost pre = self.entries@;
        let ghost n = name@;
        let ghost s = symbol@;
        self.entries.push(ExportEntry { name, symbol });
        proof {
            assert(self.entries@.drop_last() =~= pre);
            assert(self.entries@.last().name@ == n);
            assert(self.entries@.last().symbol@ == s);
        }
    }

    /// Looks `name` up: the recorded outcome, or `None` where nothing was
    /// recorded for it.
    pub fn lookup(&self, name: &String) -> (r: Option<&RawSymbol>)
        ensures
            match r {
                Some(symbol) => self@.contains_key(name@) && symbol@ == self@[name@],
                None => !self@.contains_key(name@),
            },
    {
        let mut i: usize = self.entries.len();
        while i > 0
            invariant
                i <= self.entries.len(),
                forall|j: int| i <= j < self.entries@.len() ==> self.entries@[j].name@ != name@,
            decreases i,
        {
            i = i - 1;
            if self.entries[i].name.eq(name) {
                proof {
                    lemma_table_map_match(self.entries@, i as int);
                }
                return Some(&self.entries[i].symbol);
            }
        }
        proof {
            lemma_table_map_no_match(self.entries@, name@);
        }
        None
    }
}

/// Checks that a path, given in the platform's byte encoding, can be handed
/// to a C-string-based loader: it must hold no interior nul byte. The
/// position of the first nul, if any, is reported in the error, and the
/// platform call must not be attempted.
pub fn validate_path_bytes(path: &[u8]) -> (r: Result<(), LoadError>)
    ensures
        match r {
            Ok(()) => forall|i: int| 0 <= i < path@.len() ==> path@[i] != 0,
            Err(e) => {
                &&& e@ matches LoadErrorView::CStr(pos)
                &&& 0 <= pos < path@.len()
                &&& path@[pos] == 0
                &&& forall|j: int| 0 <= j < pos ==> path@[j] != 0
            },
        },
{
    let mut i: usize = 0;
    while i < path.len()
        invariant
            i <= path@.len(),
            forall|j: int| 0 <= j < i ==> path@[j] != 0,
        decreases path@.len() - i,
    {
        if path[i] == 0 {
            return Err(LoadError::CStr(i));
        }
        i = i + 1;
    }
    Ok(())
}

/// The mathematical value of a [`Library`].
pub struct LibraryView {
    /// The platform handle, address-sized.
    pub handle: usize,
    /// Whether releasing this library releases the platform handle, or the
    /// handle is owned elsewhere (a non-releasing wrapper).
    pub owned: bool,
    /// The library's export surface.
    pub exports: Map<Seq<char>, RawSymbolView>,
}

/// An open dynamic library: exclusive owner of one platform handle, together
/// with its export surface.
///
/// A `Library` is taken apart exactly once, by [`Library::release`], which
/// consumes it; holding on to a released library, or releasing one twice, is
/// unrepresentable. A non-owning `Library` (see [`Library::wrap_raw`]) wraps
/// a handle whose lifetime the host controls, and marks that the handle must
/// not be released here.
pub struct Library {
    handle: usize,
    owned: bool,
    exports: ExportTable,
}

impl View for Library {
    type V = LibraryView;

    closed spec fn view(&self) -> LibraryView {
        LibraryView { handle: self.handle, owned: self.owned, exports: self.exports@ }
    }
}

impl Library {
    /// Takes ownership of a freshly loaded handle and its export surface.
    pub fn new(handle: usize, exports: ExportTable) -> (lib: Library)
        ensures
            lib@ == (LibraryView { handle, owned: true, exports: exports@ }),
    {
        Library { handle, owned: true, exports }
    }

    /// Wraps a handle owned elsewhere in a non-releasing library: releasing
    /// the result hands the handle back without freeing it.
    pub fn wrap_raw(handle: usize, exports: ExportTable) -> (lib: Library)
        ensures
            lib@ == (LibraryView { handle, owned: false, exports: exports@ }),
    {
        Library { handle, owned: false, exports }
    }

    /// Resolves one export name against this library's surface, as the raw
    /// platform resolver would report it.
    pub fn get_symbol(&self, name: &String) -> (r: RawSymbol)
        ensures
            r@ == outcome_of(self@.exports, name@),
    {
        match self.exports.lookup(name) {
            None => RawSymbol::Failure(String::new()),
            Some(RawSymbol::Failure(msg)) => RawSymbol::Failure(msg.clone()),
            Some(RawSymbol::Address(addr)) => RawSymbol::Address(*addr),
        }
    }

    /// Takes the library apart for teardown, exactly once: yields the raw
    /// handle and whether the caller now owes the platform a release. The
    /// library is consumed, so no resolved view of it can survive this call.
    pub fn release(self) -> (r: (usize, bool))
        ensures
            r.0 == self@.handle,
            r.1 == self@.owned,
    {
        (self.handle, self.owned)
    }
}

/// An object through which a raw library handle can be read, for re-export
/// or for passing to interfaces that need the platform handle.
pub trait LibraryHandle {
    /// The raw handle this object carries.
    spec fn raw_spec(&self) -> usize;

    /// Obtains the raw library handle. The caller must not let a release of
    /// the library overtake uses of the returned handle.
    fn as_raw(&self) -> (h: usize)
        ensures
            h == self.raw_spec(),
    ;
}

impl LibraryHandle for Library {
    open spec fn raw_spec(&self) -> usize {
        self@.handle
    }

    fn as_raw(&self) -> (h: usize) {
        self.handle
    }
}

} // verus!
