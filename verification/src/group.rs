//! Symbol group composition: loading a fixed, named set of symbols and
//! nested groups as one all-or-nothing unit.
//!
//! A [`GroupShape`] describes the group as declared: an ordered list of named
//! members, each either a symbol (resolved by an explicit export name, or by
//! the member's own name when none is given) or a nested group. Loading
//! resolves the members in declaration order and aborts on the first failure,
//! wrapping it with the failing member's name; no partially-loaded group is
//! ever constructed. A nested group marked optional always succeeds: when the
//! inner group fails to load, the member holds an absent value and the
//! specific failure is discarded by design.
//!
//! The resolved form is a [`SymbolGroup`], which exists only fully resolved.

use vstd::prelude::*;

use crate::error::SymbolGroupError;
use crate::error::SymbolGroupErrorView;
use crate::raw::outcome_of;
use crate::raw::Library;
use crate::raw::LibraryView;
use crate::raw::RawSymbolView;
use crate::symbol::lemma_resolved_symbol_wf;
use crate::symbol::load_from;
use crate::symbol::resolve_spec;
use crate::symbol::Symbol;
use crate::symbol::SymbolType;

verus! {

/// What one declared member is: a symbol of some shape, or a nested group.
#[derive(Debug, PartialEq, Eq)]
pub enum MemberKind {
    /// A symbol, resolved by `export_name`, or by the member's own name when
    /// `export_name` is absent.
    Symbol { export_name: Option<String>, ty: SymbolType },
    /// A nested group, resolved recursively against the same library. When
    /// `optional` is set, a failure of the nested load yields an absent value
    /// instead of an error.
    Subgroup { shape: GroupShape, optional: bool },
}

/// One declared member of a group: its field name and what it is.
#[derive(Debug, PartialEq, Eq)]
pub struct GroupMember {
    pub name: String,
    pub kind: MemberKind,
}

/// The declared shape of a symbol group: an ordered list of named members,
/// fixed at definition time.
#[derive(Debug, PartialEq, Eq)]
pub struct GroupShape {
    pub members: Vec<GroupMember>,
}

/// The export name by which a member is resolved: the declared override, or
/// the member's own name.
pub open spec fn effective_name(m: GroupMember) -> Seq<char> {
    match m.kind {
        MemberKind::Symbol { export_name: Some(n), .. } => n@,
        _ => m.name@,
    }
}

/// The resolved value of one member.
#[derive(Debug, PartialEq, Eq)]
pub enum MemberValue {
    /// A resolved symbol.
    Symbol(Symbol),
    /// A resolved nested group.
    Group(SymbolGroup),
    /// An optional nested group: present when the inner load succeeded,
    /// absent when it failed.
    OptionalGroup(Option<SymbolGroup>),
}

/// One resolved member: the declared field name and its value.
#[derive(Debug, PartialEq, Eq)]
pub struct ResolvedMember {
    pub name: String,
    pub value: MemberValue,
}

/// A fully-resolved symbol group. A value of this type exists only in its
/// fully-resolved form: group loading never exposes a partial result.
#[derive(Debug, PartialEq, Eq)]
pub struct SymbolGroup {
    pub members: Vec<ResolvedMember>,
}

/// The mathematical value of a [`MemberValue`].
pub enum MemberValueView {
    Symbol(Symbol),
    Group(SymbolGroupView),
    OptionalGroup(Option<SymbolGroupView>),
}

/// The mathematical value of a [`ResolvedMember`].
pub struct ResolvedMemberView {
    pub name: Seq<char>,
    pub value: MemberValueView,
}

/// The mathematical value of a [`SymbolGroup`].
pub struct SymbolGroupView {
    pub members: Seq<ResolvedMemberView>,
}

/// The views of the resolved members of `s` from position `i` on.
pub open spec fn members_seq_view(s: Seq<ResolvedMember>, i: int) -> Seq<ResolvedMemberView>
    decreases s, s.len() - i,
{
    if i < 0 || i >= s.len() {
        Seq::empty()
    } else {
        seq![
            ResolvedMemberView { name: s[i].name@, value: member_value_view(s[i].value) },
        ] + members_seq_view(s, i + 1)
    }
}

/// The mathematical value of one resolved member value.
pub open spec fn member_value_view(v: MemberValue) -> MemberValueView
    decreases v, 0int,
{
    match v {
        MemberValue::Symbol(s) => MemberValueView::Symbol(s),
        MemberValue::Group(g) => MemberValueView::Group(symbol_group_view(g)),
        MemberValue::OptionalGroup(og) => MemberValueView::OptionalGroup(
            match og {
                Some(g) => Some(symbol_group_view(g)),
                None => None,
            },
        ),
    }
}

/// The mathematical value of a resolved group.
pub open spec fn symbol_group_view(g: SymbolGroup) -> SymbolGroupView
    decreases g, 0int,
{
    SymbolGroupView { members: members_seq_view(g.members@, 0) }
}

impl View for SymbolGroup {
    type V = SymbolGroupView;

    open spec fn view(&self) -> SymbolGroupView {
        symbol_group_view(*self)
    }
}

/// The value of the first member from position `i` on that carries the given
/// name, if any.
pub open spec fn find_member_from(
    members: Seq<ResolvedMemberView>,
    name: Seq<char>,
    i: int,
) -> Option<MemberValueView>
    decreases members.len() - i,
{
    if i < 0 || i >= members.len() {
        None
    } else if members[i].name == name {
        Some(members[i].value)
    } else {
        find_member_from(members, name, i + 1)
    }
}

proof fn lemma_members_seq_view_props(s: Seq<ResolvedMember>, i: int)
    requires
        0 <= i <= s.len(),
    ensures
        members_seq_view(s, i).len() == s.len() - i,
        forall|j: int| 0 <= j < members_seq_view(s, i).len() ==> #[trigger] members_seq_view(
            s,
            i,
        )[j] == (ResolvedMemberView {
            name: s[i + j].name@,
            value: member_value_view(s[i + j].value),
        }),
    decreases s.len() - i,
{
    if i < s.len() {
        lemma_members_seq_view_props(s, i + 1);
    }
}

impl SymbolGroup {
    /// How many members the group resolved.
    pub fn len(&self) -> (n: usize)
        ensures
            n == self@.members.len(),
    {
        proof {
            lemma_members_seq_view_props(self.members@, 0);
        }
        self.members.len()
    }

    /// Looks a resolved member up by its declared field name: the first
    /// member carrying that name, or `None` where the group declares no such
    /// member.
    pub fn get(&self, name: &String) -> (r: Option<&MemberValue>)
        ensures
            match r {
                Some(v) => find_member_from(self@.members, name@, 0) == Some(
                    member_value_view(*v),
                ),
                None => find_member_from(self@.members, name@, 0) is None,
            },
    {
        proof {
            lemma_members_seq_view_props(self.members@, 0);
        }
        let ghost mv = self@.members;
        let mut i: usize = 0;
        while i < self.members.len()
            invariant
                i <= self.members@.len(),
                mv == self@.members,
                mv.len() == self.members@.len(),
                forall|j: int| 0 <= j < mv.len() ==> #[trigger] mv[j] == (ResolvedMemberView {
                    name: self.members@[j].name@,
                    value: member_value_view(self.members@[j].value),
                }),
                find_member_from(mv, name@, 0) == find_member_from(mv, name@, i as int),
            decreases self.members@.len() - i,
        {
            if self.members[i].name.eq(name) {
                return Some(&self.members[i].value);
            }
            i = i + 1;
        }
        None
    }
}

/// What loading one member yields against the given export surface: for a
/// symbol, typed resolution by its effective name, a failure wrapped with the
/// member's name; for a required nested group, the nested load with its error
/// propagated unchanged (it already names its own failing member); for an
/// optional nested group, always a success, absent when the nested load
/// failed.
pub open spec fn load_member_spec(
    m: GroupMember,
    exports: Map<Seq<char>, RawSymbolView>,
) -> Result<MemberValueView, SymbolGroupErrorView>
    decreases m, 0int,
{
    match m.kind {
        MemberKind::Symbol { ty, .. } => match resolve_spec(
            ty,
            outcome_of(exports, effective_name(m)),
        ) {
            Ok(s) => Ok(MemberValueView::Symbol(s)),
            Err(e) => Err(SymbolGroupErrorView { name: m.name@, inner: e }),
        },
        MemberKind::Subgroup { shape, optional } => if optional {
            match load_group_spec(shape, exports) {
                Ok(g) => Ok(MemberValueView::OptionalGroup(Some(g))),
                Err(_) => Ok(MemberValueView::OptionalGroup(None)),
            }
        } else {
            match load_group_spec(shape, exports) {
                Ok(g) => Ok(MemberValueView::Group(g)),
                Err(e) => Err(e),
            }
        },
    }
}

/// What loading the members from position `i` on yields: the first failure,
/// or the resolved values of all of them, in declaration order.
pub open spec fn load_members_spec(
    members: Seq<GroupMember>,
    i: int,
    exports: Map<Seq<char>, RawSymbolView>,
) -> Result<Seq<ResolvedMemberView>, SymbolGroupErrorView>
    decreases members, members.len() - i,
{
    if i < 0 || i >= members.len() {
        Ok(Seq::empty())
    } else {
        match load_member_spec(members[i], exports) {
            Err(e) => Err(e),
            Ok(v) => match load_members_spec(members, i + 1, exports) {
                Ok(rest) => Ok(
                    seq![ResolvedMemberView { name: members[i].name@, value: v }] + rest,
                ),
                Err(e) => Err(e),
            },
        }
    }
}

/// What loading a whole group yields against the given export surface.
pub open spec fn load_group_spec(
    shape: GroupShape,
    exports: Map<Seq<char>, RawSymbolView>,
) -> Result<SymbolGroupView, SymbolGroupErrorView>
    decreases shape, 0int,
{
    match load_members_spec(shape.members@, 0, exports) {
        Ok(ms) => Ok(SymbolGroupView { members: ms }),
        Err(e) => Err(e),
    }
}

/// The mathematical value of a group-loading result.
pub open spec fn group_result_view(r: Result<SymbolGroup, SymbolGroupError>) -> Result<
    SymbolGroupView,
    SymbolGroupErrorView,
> {
    match r {
        Ok(g) => Ok(symbol_group_view(g)),
        Err(e) => Err(e@),
    }
}

/// Whether every symbol in a resolved member value satisfies its per-shape
/// invariant, nested groups included.
pub open spec fn member_value_wf(v: MemberValueView) -> bool
    decreases v, 0int,
{
    match v {
        MemberValueView::Symbol(s) => s.wf(),
        MemberValueView::Group(g) => group_view_wf(g),
        MemberValueView::OptionalGroup(og) => match og {
            Some(g) => group_view_wf(g),
            None => true,
        },
    }
}

/// Whether every symbol in a resolved group satisfies its per-shape
/// invariant, nested groups included.
pub open spec fn group_view_wf(g: SymbolGroupView) -> bool
    decreases g, 0int,
{
    forall|i: int| 0 <= i < g.members.len() ==> member_value_wf(#[trigger] g.members[i].value)
}

/// Law: loading a group is a function of the group's shape and the library's
/// export surface alone. Two libraries with the same exports — for instance,
/// two independently-opened handles to the same library — yield the same
/// resolved group, or the same failure, for the same declared shape.
pub proof fn lemma_load_group_repeatable(shape: GroupShape, first: LibraryView, second: LibraryView)
    requires
        first.exports == second.exports,
    ensures
        load_group_spec(shape, first.exports) == load_group_spec(shape, second.exports),
{
}

proof fn lemma_members_first_failure(
    members: Seq<GroupMember>,
    k: int,
    i: int,
    exports: Map<Seq<char>, RawSymbolView>,
)
    requires
        0 <= k <= i < members.len(),
        forall|j: int| k <= j < i ==> load_member_spec(#[trigger] members[j], exports) is Ok,
        load_member_spec(members[i], exports) is Err,
    ensures
        load_members_spec(members, k, exports) == Err::<
            Seq<ResolvedMemberView>,
            SymbolGroupErrorView,
        >(load_member_spec(members[i], exports)->Err_0),
    decreases i - k,
{
    if k < i {
        lemma_members_first_failure(members, k + 1, i, exports);
    }
}

/// Law: group loading fails on the first failing member, in declaration
/// order, and surfaces exactly that member's failure — members declared after
/// it have no bearing on the error.
pub proof fn lemma_first_failure_decides(
    shape: GroupShape,
    exports: Map<Seq<char>, RawSymbolView>,
    i: int,
)
    requires
        0 <= i < shape.members@.len(),
        forall|j: int| 0 <= j < i ==> load_member_spec(#[trigger] shape.members@[j], exports) is Ok,
        load_member_spec(shape.members@[i], exports) is Err,
    ensures
        load_group_spec(shape, exports) == Err::<SymbolGroupView, SymbolGroupErrorView>(
            load_member_spec(shape.members@[i], exports)->Err_0,
        ),
{
    lemma_members_first_failure(shape.members@, 0, i, exports);
}

/// Law: when the first failing member is a symbol, the group error names
/// exactly that member.
pub proof fn lemma_first_failing_symbol_named(
    shape: GroupShape,
    exports: Map<Seq<char>, RawSymbolView>,
    i: int,
)
    requires
        0 <= i < shape.members@.len(),
        forall|j: int| 0 <= j < i ==> load_member_spec(#[trigger] shape.members@[j], exports) is Ok,
        load_member_spec(shape.members@[i], exports) is Err,
        shape.members@[i].kind matches MemberKind::Symbol { .. },
    ensures
        load_group_spec(shape, exports) is Err,
        load_group_spec(shape, exports)->Err_0.name == shape.members@[i].name@,
{
    lemma_first_failure_decides(shape, exports, i);
}

/// Law: an optional nested group never fails the outer load. When the inner
/// group loads, the member holds it; when the inner load fails, the member
/// holds an absent value and the inner failure is discarded.
pub proof fn lemma_optional_subgroup_total(m: GroupMember, exports: Map<Seq<char>, RawSymbolView>)
    requires
        m.kind matches MemberKind::Subgroup { optional: true, .. },
    ensures
        load_member_spec(m, exports) is Ok,
        load_group_spec(m.kind->Subgroup_shape, exports) is Err ==> load_member_spec(m, exports)
            == Ok::<MemberValueView, SymbolGroupErrorView>(MemberValueView::OptionalGroup(None)),
        load_group_spec(m.kind->Subgroup_shape, exports) matches Ok(g) ==> load_member_spec(
            m,
            exports,
        ) == Ok::<MemberValueView, SymbolGroupErrorView>(
            MemberValueView::OptionalGroup(Some(g)),
        ),
{
}

proof fn lemma_loaded_members_wf(
    members: Seq<GroupMember>,
    i: int,
    exports: Map<Seq<char>, RawSymbolView>,
)
    ensures
        load_members_spec(members, i, exports) matches Ok(rest) ==> forall|j: int|
            0 <= j < rest.len() ==> member_value_wf(#[trigger] rest[j].value),
    decreases members, members.len() - i,
{
    if 0 <= i < members.len() {
        lemma_loaded_members_wf(members, i + 1, exports);
        let m = members[i];
        match load_member_spec(m, exports) {
            Ok(v) => {
                match m.kind {
                    MemberKind::Symbol { ty, .. } => {
                        lemma_resolved_symbol_wf(ty, outcome_of(exports, effective_name(m)));
                    },
                    MemberKind::Subgroup { shape: sub, .. } => {
                        lemma_loaded_group_wf(sub, exports);
                    },
                }
                assert(member_value_wf(v));
                match load_members_spec(members, i + 1, exports) {
                    Ok(tail) => {
                        let rest = seq![ResolvedMemberView { name: m.name@, value: v }] + tail;
                        assert forall|j: int| 0 <= j < rest.len() implies member_value_wf(
                            #[trigger] rest[j].value,
                        ) by {
                            if j > 0 {
                                assert(rest[j] == tail[j - 1]);
                            }
                        }
                    },
                    Err(_) => {},
                }
            },
            Err(_) => {},
        }
    }
}

/// Law: a group that loads successfully is well-formed throughout — every
/// symbol in it, nested groups included, satisfies its per-shape invariant.
/// Loading fails rather than exposing a partially-valid group.
pub proof fn lemma_loaded_group_wf(shape: GroupShape, exports: Map<Seq<char>, RawSymbolView>)
    ensures
        load_group_spec(shape, exports) matches Ok(g) ==> group_view_wf(g),
    decreases shape, 0int,
{
    lemma_loaded_members_wf(shape.members@, 0, exports);
}

/// The export names the members from position `i` on are resolved by, in
/// declaration order, nested groups included.
pub open spec fn member_export_names_spec(members: Seq<GroupMember>, i: int) -> Seq<Seq<char>>
    decreases members, members.len() - i,
{
    if i < 0 || i >= members.len() {
        Seq::empty()
    } else {
        match members[i].kind {
            MemberKind::Symbol { .. } => seq![effective_name(members[i])]
                + member_export_names_spec(members, i + 1),
            MemberKind::Subgroup { shape, .. } => group_export_names_spec(shape)
                + member_export_names_spec(members, i + 1),
        }
    }
}

/// The export names a group of this shape is resolved by, in declaration
/// order.
pub open spec fn group_export_names_spec(shape: GroupShape) -> Seq<Seq<char>>
    decreases shape, 0int,
{
    member_export_names_spec(shape.members@, 0)
}

/// The mathematical values of a list of names.
pub open spec fn strings_view(s: Seq<String>) -> Seq<Seq<char>> {
    s.map(|i: int, x: String| x@)
}

fn push_export_names(shape: &GroupShape, out: &mut Vec<String>)
    ensures
        strings_view(final(out)@) == strings_view(old(out)@) + group_export_names_spec(*shape),
    decreases *shape,
{
    let ghost ms = shape.members@;
    let ghost base = strings_view(out@);
    let mut i: usize = 0;
    while i < shape.members.len()
        invariant
            i <= ms.len(),
            ms == shape.members@,
            base == strings_view(old(out)@),
            base + member_export_names_spec(ms, 0) == strings_view(out@)
                + member_export_names_spec(ms, i as int),
        decreases ms.len() - i,
    {
        let ghost prev = strings_view(out@);
        let member = &shape.members[i];
        match &member.kind {
            MemberKind::Symbol { export_name, .. } => {
                let name: &String = match export_name {
                    Some(n) => n,
                    None => &member.name,
                };
                proof {
                    assert(name@ == effective_name(ms[i as int]));
                }
                out.push(name.clone());
                proof {
                    assert(strings_view(out@) =~= prev + seq![effective_name(ms[i as int])]);
                    assert(prev + (seq![effective_name(ms[i as int])]
                        + member_export_names_spec(ms, i as int + 1)) =~= (prev + seq![
                        effective_name(ms[i as int]),
                    ]) + member_export_names_spec(ms, i as int + 1));
                }
            },
            MemberKind::Subgroup { shape: sub, .. } => {
                push_export_names(sub, out);
                proof {
                    assert(prev + (group_export_names_spec(*sub) + member_export_names_spec(
                        ms,
                        i as int + 1,
                    )) =~= (prev + group_export_names_spec(*sub)) + member_export_names_spec(
                        ms,
                        i as int + 1,
                    ));
                }
            },
        }
        i = i + 1;
    }
    proof {
        assert(member_export_names_spec(ms, ms.len() as int) == Seq::<Seq<char>>::empty());
        assert(strings_view(out@) + Seq::<Seq<char>>::empty() =~= strings_view(out@));
    }
}

/// Collects the export names a group of this shape is resolved by, in
/// declaration order: the names a loader must resolve against the platform
/// to load the group.
pub fn export_names(shape: &GroupShape) -> (r: Vec<String>)
    ensures
        strings_view(r@) == group_export_names_spec(*shape),
{
    let mut out: Vec<String> = Vec::new();
    proof {
        assert(strings_view(Seq::<String>::empty()) =~= Seq::<Seq<char>>::empty());
        assert(Seq::<Seq<char>>::empty() + group_export_names_spec(*shape)
            =~= group_export_names_spec(*shape));
    }
    push_export_names(shape, &mut out);
    out
}

proof fn lemma_loaded_members_complete(
    members: Seq<GroupMember>,
    i: int,
    exports: Map<Seq<char>, RawSymbolView>,
)
    requires
        0 <= i <= members.len(),
    ensures
        load_members_spec(members, i, exports) matches Ok(rest) ==> {
            &&& rest.len() == members.len() - i
            &&& forall|j: int| 0 <= j < rest.len() ==> #[trigger] rest[j].name == members[i
                + j].name@
        },
    decreases members, members.len() - i,
{
    if 0 <= i < members.len() {
        lemma_loaded_members_complete(members, i + 1, exports);
        match load_member_spec(members[i], exports) {
            Ok(v) => match load_members_spec(members, i + 1, exports) {
                Ok(tail) => {
                    let rest = seq![ResolvedMemberView { name: members[i].name@, value: v }]
                        + tail;
                    assert(load_members_spec(members, i, exports) == Ok::<
                        Seq<ResolvedMemberView>,
                        SymbolGroupErrorView,
                    >(rest));
                    assert forall|j: int| 0 <= j < rest.len() implies #[trigger] rest[j].name
                        == members[i + j].name@ by {
                        if j > 0 {
                            assert(rest[j] == tail[j - 1]);
                        }
                    }
                },
                Err(_) => {},
            },
            Err(_) => {},
        }
    }
}

/// Law: a group that loads successfully is fully populated — it holds exactly
/// one resolved member per declared member, under the declared names, in
/// declaration order. No partially-loaded group is ever exposed.
pub proof fn lemma_loaded_group_complete(shape: GroupShape, exports: Map<Seq<char>, RawSymbolView>)
    ensures
        load_group_spec(shape, exports) matches Ok(g) ==> {
            &&& g.members.len() == shape.members@.len()
            &&& forall|j: int| 0 <= j < g.members.len() ==> #[trigger] g.members[j].name
                == shape.members@[j].name@
        },
{
    lemma_loaded_members_complete(shape.members@, 0, exports);
}

proof fn lemma_load_members_depends_on_names(
    members: Seq<GroupMember>,
    i: int,
    e1: Map<Seq<char>, RawSymbolView>,
    e2: Map<Seq<char>, RawSymbolView>,
)
    requires
        forall|n: Seq<char>| #[trigger]
            member_export_names_spec(members, i).contains(n) ==> outcome_of(e1, n) == outcome_of(
                e2,
                n,
            ),
    ensures
        load_members_spec(members, i, e1) == load_members_spec(members, i, e2),
    decreases members, members.len() - i,
{
    if 0 <= i < members.len() {
        let names = member_export_names_spec(members, i);
        let m = members[i];
        let head_len: int = match m.kind {
            MemberKind::Symbol { .. } => 1,
            MemberKind::Subgroup { shape, .. } => group_export_names_spec(shape).len() as int,
        };
        match m.kind {
            MemberKind::Symbol { .. } => {
                assert(names[0] == effective_name(m));
                assert(names.contains(effective_name(m)));
                assert(load_member_spec(m, e1) == load_member_spec(m, e2));
            },
            MemberKind::Subgroup { shape: sub, .. } => {
                let subnames = group_export_names_spec(sub);
                assert forall|n: Seq<char>| #[trigger] subnames.contains(n) implies outcome_of(
                    e1,
                    n,
                ) == outcome_of(e2, n) by {
                    let j = choose|j: int| 0 <= j < subnames.len() && subnames[j] == n;
                    assert(names[j] == n);
                    assert(names.contains(n));
                }
                lemma_load_group_depends_on_names(sub, e1, e2);
                assert(load_member_spec(m, e1) == load_member_spec(m, e2));
            },
        }
        let rest = member_export_names_spec(members, i + 1);
        assert forall|n: Seq<char>| #[trigger] rest.contains(n) implies outcome_of(e1, n)
            == outcome_of(e2, n) by {
            let j = choose|j: int| 0 <= j < rest.len() && rest[j] == n;
            assert(names[head_len + j] == n);
            assert(names.contains(n));
        }
        lemma_load_members_depends_on_names(members, i + 1, e1, e2);
        assert(load_members_spec(members, i, e1) == load_members_spec(members, i, e2));
    }
}

/// Law: group loading consults exactly the group's export names. Two export
/// surfaces that report the same outcome for every name in
/// [`group_export_names_spec`] — whatever else they export — load the same
/// group, or fail the same way.
pub proof fn lemma_load_group_depends_on_names(
    shape: GroupShape,
    e1: Map<Seq<char>, RawSymbolView>,
    e2: Map<Seq<char>, RawSymbolView>,
)
    requires
        forall|n: Seq<char>| #[trigger]
            group_export_names_spec(shape).contains(n) ==> outcome_of(e1, n) == outcome_of(e2, n),
    ensures
        load_group_spec(shape, e1) == load_group_spec(shape, e2),
    decreases shape, 0int,
{
    assert(group_export_names_spec(shape) == member_export_names_spec(shape.members@, 0));
    assert forall|n: Seq<char>| #[trigger]
        member_export_names_spec(shape.members@, 0).contains(n) implies outcome_of(e1, n)
        == outcome_of(e2, n) by {
        assert(group_export_names_spec(shape).contains(n));
    }
    lemma_load_members_depends_on_names(shape.members@, 0, e1, e2);
}

/// The loop relation of the verified loader: if the members from `i` on load
/// to a tail, the whole load is the accumulated prefix followed by that tail;
/// if they fail, the whole load fails the same way.
spec fn partial_load_inv(
    members: Seq<GroupMember>,
    i: int,
    acc: Seq<ResolvedMemberView>,
    exports: Map<Seq<char>, RawSymbolView>,
) -> bool {
    match load_members_spec(members, i, exports) {
        Ok(rest) => load_members_spec(members, 0, exports) == Ok::<
            Seq<ResolvedMemberView>,
            SymbolGroupErrorView,
        >(acc + rest),
        Err(e) => load_members_spec(members, 0, exports) == Err::<
            Seq<ResolvedMemberView>,
            SymbolGroupErrorView,
        >(e),
    }
}

proof fn lemma_inv_step_ok(
    members: Seq<GroupMember>,
    i: int,
    acc: Seq<ResolvedMemberView>,
    exports: Map<Seq<char>, RawSymbolView>,
    v: MemberValueView,
)
    requires
        0 <= i < members.len(),
        partial_load_inv(members, i, acc, exports),
        load_member_spec(members[i], exports) == Ok::<MemberValueView, SymbolGroupErrorView>(v),
    ensures
        partial_load_inv(
            members,
            i + 1,
            acc + seq![ResolvedMemberView { name: members[i].name@, value: v }],
            exports,
        ),
{
    let single = seq![ResolvedMemberView { name: members[i].name@, value: v }];
    match load_members_spec(members, i + 1, exports) {
        Ok(rest) => {
            assert(load_members_spec(members, i, exports) == Ok::<
                Seq<ResolvedMemberView>,
                SymbolGroupErrorView,
            >(single + rest));
            assert(acc + (single + rest) =~= (acc + single) + rest);
        },
        Err(e) => {
            assert(load_members_spec(members, i, exports) == Err::<
                Seq<ResolvedMemberView>,
                SymbolGroupErrorView,
            >(e));
        },
    }
}

proof fn lemma_inv_step_err(
    members: Seq<GroupMember>,
    i: int,
    acc: Seq<ResolvedMemberView>,
    exports: Map<Seq<char>, RawSymbolView>,
    e: SymbolGroupErrorView,
)
    requires
        0 <= i < members.len(),
        partial_load_inv(members, i, acc, exports),
        load_member_spec(members[i], exports) == Err::<MemberValueView, SymbolGroupErrorView>(e),
    ensures
        load_members_spec(members, 0, exports) == Err::<
            Seq<ResolvedMemberView>,
            SymbolGroupErrorView,
        >(e),
{
    assert(load_members_spec(members, i, exports) == Err::<
        Seq<ResolvedMemberView>,
        SymbolGroupErrorView,
    >(e));
}

proof fn lemma_members_seq_view_push(s: Seq<ResolvedMember>, m: ResolvedMember, i: int)
    requires
        0 <= i <= s.len(),
    ensures
        members_seq_view(s.push(m), i) =~= members_seq_view(s, i) + seq![
            ResolvedMemberView { name: m.name@, value: member_value_view(m.value) },
        ],
    decreases s.len() - i,
{
    if i < s.len() {
        assert(s.push(m)[i] == s[i]);
        lemma_members_seq_view_push(s, m, i + 1);
    } else {
        assert(s.push(m)[i] == m);
        assert(members_seq_view(s.push(m), i + 1) == Seq::<ResolvedMemberView>::empty());
        assert(members_seq_view(s, i) == Seq::<ResolvedMemberView>::empty());
    }
}

/// Loads a symbol group of the given shape from a library: members are
/// resolved in declaration order, and the first failure aborts the load,
/// named after the failing member.
pub fn load_group(lib: &Library, shape: &GroupShape) -> (r: Result<SymbolGroup, SymbolGroupError>)
    ensures
        group_result_view(r) == load_group_spec(*shape, lib@.exports),
    decreases *shape,
{
    let ghost exports = lib@.exports;
    let ghost ms = shape.members@;
    let mut values: Vec<ResolvedMember> = Vec::new();
    let mut i: usize = 0;
    while i < shape.members.len()
        invariant
            i <= ms.len(),
            ms == shape.members@,
            exports == lib@.exports,
            partial_load_inv(ms, i as int, members_seq_view(values@, 0), exports),
        decreases ms.len() - i,
    {
        let ghost prev_acc = members_seq_view(values@, 0);
        let member = &shape.members[i];
        match &member.kind {
            MemberKind::Symbol { export_name, ty } => {
                let name: &String = match export_name {
                    Some(n) => n,
                    None => &member.name,
                };
                proof {
                    assert(name@ == effective_name(ms[i as int]));
                }
                match load_from(lib, name, ty) {
                    Ok(sym) => {
                        let resolved = ResolvedMember {
                            name: member.name.clone(),
                            value: MemberValue::Symbol(sym),
                        };
                        proof {
                            assert(load_member_spec(ms[i as int], exports) == Ok::<
                                MemberValueView,
                                SymbolGroupErrorView,
                            >(MemberValueView::Symbol(sym)));
                            lemma_members_seq_view_push(values@, resolved, 0);
                            lemma_inv_step_ok(
                                ms,
                                i as int,
                                prev_acc,
                                exports,
                                MemberValueView::Symbol(sym),
                            );
                        }
                        values.push(resolved);
                    },
                    Err(e) => {
                        let failure = e.in_group(member.name.clone());
                        proof {
                            lemma_inv_step_err(ms, i as int, prev_acc, exports, failure@);
                        }
                        return Err(failure);
                    },
                }
            },
            MemberKind::Subgroup { shape: sub, optional } => {
                match load_group(lib, sub) {
                    Ok(g) => {
                        let ghost gv = symbol_group_view(g);
                        let value = if *optional {
                            MemberValue::OptionalGroup(Some(g))
                        } else {
                            MemberValue::Group(g)
                        };
                        let ghost vv = member_value_view(value);
                        let resolved = ResolvedMember { name: member.name.clone(), value };
                        proof {
                            assert(load_group_spec(ms[i as int].kind->Subgroup_shape, exports)
                                == Ok::<SymbolGroupView, SymbolGroupErrorView>(gv));
                            assert(load_member_spec(ms[i as int], exports) == Ok::<
                                MemberValueView,
                                SymbolGroupErrorView,
                            >(vv));
                            lemma_members_seq_view_push(values@, resolved, 0);
                            lemma_inv_step_ok(ms, i as int, prev_acc, exports, vv);
                        }
                        values.push(resolved);
                    },
                    Err(e) => {
                        if *optional {
                            let resolved = ResolvedMember {
                                name: member.name.clone(),
                                value: MemberValue::OptionalGroup(None),
                            };
                            proof {
                                assert(load_member_spec(ms[i as int], exports) == Ok::<
                                    MemberValueView,
                                    SymbolGroupErrorView,
                                >(MemberValueView::OptionalGroup(None)));
                                lemma_members_seq_view_push(values@, resolved, 0);
                                lemma_inv_step_ok(
                                    ms,
                                    i as int,
                                    prev_acc,
                                    exports,
                                    MemberValueView::OptionalGroup(None),
                                );
                            }
                            values.push(resolved);
                        } else {
                            proof {
                                lemma_inv_step_err(ms, i as int, prev_acc, exports, e@);
                            }
                            return Err(e);
                        }
                    },
                }
            },
        }
        i = i + 1;
    }
    let group = SymbolGroup { members: values };
    proof {
        assert(members_seq_view(group.members@, 0) + Seq::<ResolvedMemberView>::empty()
            =~= members_seq_view(group.members@, 0));
    }
    Ok(group)
}

} // verus!
