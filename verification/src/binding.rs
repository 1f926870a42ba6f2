//! The binding model: a verified mapping from the named elements of an
//! interface to the numeric elements of a schema.

use vstd::prelude::*;

use crate::codec::{iface_id, schema_id, spec_iface_id, spec_schema_id, Wire};
use crate::ident::FieldName;
use crate::iface::{AssignIface, Iface, IfaceV, OwnedIface, VerNo};
use crate::maps::{id_has, map_get, map_has, named_has};
use crate::schema::{Schema, SchemaV, StateSchema};

verus! {

/// A binding of one named interface element to one numeric schema element.
#[derive(Debug, PartialEq, Eq)]
pub struct NamedField {
    pub id: u16,
    pub name: FieldName,
}

/// A binding of one named interface operation to one numeric schema
/// operation.
#[derive(Debug, PartialEq, Eq)]
pub struct NamedType {
    pub id: u16,
    pub name: FieldName,
}

/// View shared by both binding entry kinds.
#[verifier::ext_equal]
pub ghost struct NamedPairV {
    pub id: u16,
    pub name: Seq<u8>,
}

impl DeepView for NamedField {
    type V = NamedPairV;

    open spec fn deep_view(&self) -> NamedPairV {
        NamedPairV { id: self.id, name: self.name@ }
    }
}

impl DeepView for NamedType {
    type V = NamedPairV;

    open spec fn deep_view(&self) -> NamedPairV {
        NamedPairV { id: self.id, name: self.name@ }
    }
}

impl NamedField {
    /// The binding of schema id `id` to interface name `name`.
    pub fn with(id: u16, name: FieldName) -> (r: NamedField)
        ensures
            r.deep_view() == (NamedPairV { id, name: name@ }),
    {
        NamedField { id, name }
    }
}

impl NamedType {
    /// The binding of schema id `id` to interface operation `name`.
    pub fn with(id: u16, name: FieldName) -> (r: NamedType)
        ensures
            r.deep_view() == (NamedPairV { id, name: name@ }),
    {
        NamedType { id, name }
    }
}

/// The proposed element mappings a binding is built from.
#[derive(Debug, PartialEq, Eq)]
pub struct BindingDraft {
    pub genesis_iface: Vec<NamedField>,
    pub global_state: Vec<NamedField>,
    pub assignments: Vec<NamedField>,
    pub transitions: Vec<NamedType>,
}

/// View of a binding draft.
#[verifier::ext_equal]
pub ghost struct BindingDraftV {
    pub genesis_iface: Seq<NamedPairV>,
    pub global_state: Seq<NamedPairV>,
    pub assignments: Seq<NamedPairV>,
    pub transitions: Seq<NamedPairV>,
}

impl DeepView for BindingDraft {
    type V = BindingDraftV;

    open spec fn deep_view(&self) -> BindingDraftV {
        BindingDraftV {
            genesis_iface: self.genesis_iface.deep_view(),
            global_state: self.global_state.deep_view(),
            assignments: self.assignments.deep_view(),
            transitions: self.transitions.deep_view(),
        }
    }
}

/// A verified binding of an interface to a schema.
#[derive(Debug, PartialEq, Eq)]
pub struct IfaceImpl {
    pub version: VerNo,
    pub schema_id: u64,
    pub iface_id: u64,
    pub genesis_iface: Vec<NamedField>,
    pub global_state: Vec<NamedField>,
    pub assignments: Vec<NamedField>,
    pub transitions: Vec<NamedType>,
    /// Bindings of state extensions; none are declared by the standards in
    /// this crate.
    pub extensions: Vec<NamedType>,
}

/// View of a binding.
#[verifier::ext_equal]
pub ghost struct IfaceImplV {
    pub version: VerNo,
    pub schema_id: u64,
    pub iface_id: u64,
    pub genesis_iface: Seq<NamedPairV>,
    pub global_state: Seq<NamedPairV>,
    pub assignments: Seq<NamedPairV>,
    pub transitions: Seq<NamedPairV>,
    pub extensions: Seq<NamedPairV>,
}

impl DeepView for IfaceImpl {
    type V = IfaceImplV;

    open spec fn deep_view(&self) -> IfaceImplV {
        IfaceImplV {
            version: self.version,
            schema_id: self.schema_id,
            iface_id: self.iface_id,
            genesis_iface: self.genesis_iface.deep_view(),
            global_state: self.global_state.deep_view(),
            assignments: self.assignments.deep_view(),
            transitions: self.transitions.deep_view(),
            extensions: self.extensions.deep_view(),
        }
    }
}

impl View for IfaceImpl {
    type V = IfaceImplV;

    open spec fn view(&self) -> IfaceImplV {
        self.deep_view()
    }
}

/// An error of the binding step.
#[derive(Debug, PartialEq, Eq)]
pub enum BindingError {
    /// A mandatory interface element has no compatible schema counterpart;
    /// carries the element's name.
    UncoveredMandatoryField(FieldName),
    /// Two interface elements are mapped to the same schema id, or one
    /// name is mapped twice; carries the id of the later entry of the
    /// offending pair.
    AmbiguousBinding(u16),
    /// A mapped element does not exist on one side, or its types disagree;
    /// carries the interface name of the offending entry.
    TypeMismatch(FieldName),
}

/// Whether an interface owned-state slot is compatible with a schema owned
/// state: bare rights need declarative state, amounts need fungible state,
/// and structured data needs structured state of the same semantic type.
pub open spec fn assign_compat(o: OwnedIface, s: StateSchema) -> bool {
    match o {
        OwnedIface::Rights => s == StateSchema::Declarative,
        OwnedIface::Amount => exists|f: crate::schema::FungibleType| s == StateSchema::Fungible(f),
        OwnedIface::Data(t) => s == StateSchema::Structured(t),
    }
}

/// Whether draft set `s` covers the name `n` with an id present among the
/// keys of `m`.
pub open spec fn covers_in<V>(s: Seq<NamedPairV>, m: Seq<(u16, V)>, n: Seq<u8>) -> bool {
    exists|k: int| 0 <= k < s.len() && #[trigger] s[k].name == n && map_has(m, s[k].id)
}

/// Whether the draft covers the owned-state slot `n` of kind `a` with a
/// compatible schema owned state.
pub open spec fn covers_assign(
    s: Seq<NamedPairV>,
    m: Seq<(u16, StateSchema)>,
    n: Seq<u8>,
    a: AssignIface,
) -> bool {
    exists|k: int|
        0 <= k < s.len() && #[trigger] s[k].name == n && map_has(m, s[k].id) && assign_compat(
            a.owned,
            map_get(m, s[k].id),
        )
}

/// Coverage: every mandatory interface element is mapped to an existing,
/// kind-compatible schema element. Global state slots, owned state slots
/// and genesis arguments are always mandatory; a transition is mandatory
/// when it is not marked optional.
pub open spec fn coverage_ok(iv: IfaceV, sv: SchemaV, dv: BindingDraftV) -> bool {
    &&& forall|j: int|
        0 <= j < iv.global_state.len() ==> covers_in(
            dv.global_state,
            sv.global_types,
            (#[trigger] iv.global_state[j]).0,
        )
    &&& forall|j: int|
        0 <= j < iv.assignments.len() ==> covers_assign(
            dv.assignments,
            sv.owned_types,
            (#[trigger] iv.assignments[j]).0,
            iv.assignments[j].1,
        )
    &&& forall|j: int|
        0 <= j < iv.genesis.global.len() ==> covers_in(
            dv.genesis_iface,
            sv.genesis.globals,
            (#[trigger] iv.genesis.global[j]).0,
        )
    &&& forall|j: int|
        0 <= j < iv.transitions.len() && !(#[trigger] iv.transitions[j]).1.optional
            ==> covers_in(dv.transitions, sv.transitions, iv.transitions[j].0)
}

/// Whether the ids and the names inside one draft set are each pairwise
/// distinct.
pub open spec fn set_injective(s: Seq<NamedPairV>) -> bool {
    forall|i: int, j: int|
        0 <= i < j < s.len() ==> (#[trigger] s[i]).id != (#[trigger] s[j]).id && s[i].name
            != s[j].name
}

/// Injectivity: no schema element is bound twice and no interface name is
/// mapped twice, within each element class.
pub open spec fn injectivity_ok(dv: BindingDraftV) -> bool {
    &&& set_injective(dv.genesis_iface)
    &&& set_injective(dv.global_state)
    &&& set_injective(dv.assignments)
    &&& set_injective(dv.transitions)
}

/// Type compatibility: every draft entry refers to an existing interface
/// element and an existing schema element, and the two sides' types agree.
/// Agreement is exact equality of the registered type references: with
/// opaque references no refinement between distinct registered types is
/// modeled, so a refined layout must be registered as the same type.
pub open spec fn types_ok(iv: IfaceV, sv: SchemaV, dv: BindingDraftV) -> bool {
    &&& forall|k: int|
        0 <= k < dv.global_state.len() ==> {
            let e = #[trigger] dv.global_state[k];
            map_has(iv.global_state, e.name) && map_has(sv.global_types, e.id) && map_get(
                iv.global_state,
                e.name,
            ).sem_type == map_get(sv.global_types, e.id).sem_type
        }
    &&& forall|k: int|
        0 <= k < dv.assignments.len() ==> {
            let e = #[trigger] dv.assignments[k];
            map_has(iv.assignments, e.name) && map_has(sv.owned_types, e.id) && assign_compat(
                map_get(iv.assignments, e.name).owned,
                map_get(sv.owned_types, e.id),
            )
        }
    &&& forall|k: int|
        0 <= k < dv.genesis_iface.len() ==> {
            let e = #[trigger] dv.genesis_iface[k];
            map_has(iv.genesis.global, e.name) && map_has(sv.genesis.globals, e.id)
        }
    &&& forall|k: int|
        0 <= k < dv.transitions.len() ==> {
            let e = #[trigger] dv.transitions[k];
            map_has(iv.transitions, e.name) && map_has(sv.transitions, e.id)
        }
}

/// Whether `s` is compatible with the owned-state slot kind `o`.
pub fn assign_compat_exec(o: OwnedIface, s: StateSchema) -> (r: bool)
    ensures
        r == assign_compat(o, s),
{
    match o {
        OwnedIface::Rights => matches!(s, StateSchema::Declarative),
        OwnedIface::Amount => match s {
            StateSchema::Fungible(f) => {
                proof {
                    assert(s == StateSchema::Fungible(f));
                }
                true
            },
            _ => false,
        },
        OwnedIface::Data(t) => match s {
            StateSchema::Structured(u) => t == u,
            _ => false,
        },
    }
}

/// Finds whether the draft set covers the name `n` with an id declared in
/// the id-keyed map `m`.
fn cover_field<V: DeepView>(s: &Vec<NamedField>, m: &Vec<(u16, V)>, n: &FieldName) -> (r: bool)
    ensures
        r == covers_in(s.deep_view(), m.deep_view(), n@),
{
    let cnt = s.len();
    let mut k: usize = 0;
    while k < cnt
        invariant
            cnt == s.deep_view().len(),
            cnt == s@.len(),
            k <= cnt,
            forall|kk: int|
                0 <= kk < k ==> !((#[trigger] s.deep_view()[kk]).name == n@ && map_has(
                    m.deep_view(),
                    s.deep_view()[kk].id,
                )),
        decreases cnt - k,
    {
        if s[k].name.eq_name(n) && id_has(m, s[k].id) {
            proof {
                assert(s.deep_view()[k as int].name == n@ && map_has(
                    m.deep_view(),
                    s.deep_view()[k as int].id,
                ));
            }
            return true;
        }
        k += 1;
    }
    false
}

/// Finds whether the draft set covers the name `n` with a transition id
/// declared in `m`.
fn cover_type<V: DeepView>(s: &Vec<NamedType>, m: &Vec<(u16, V)>, n: &FieldName) -> (r: bool)
    ensures
        r == covers_in(s.deep_view(), m.deep_view(), n@),
{
    let cnt = s.len();
    let mut k: usize = 0;
    while k < cnt
        invariant
            cnt == s.deep_view().len(),
            cnt == s@.len(),
            k <= cnt,
            forall|kk: int|
                0 <= kk < k ==> !((#[trigger] s.deep_view()[kk]).name == n@ && map_has(
                    m.deep_view(),
                    s.deep_view()[kk].id,
                )),
        decreases cnt - k,
    {
        if s[k].name.eq_name(n) && id_has(m, s[k].id) {
            proof {
                assert(s.deep_view()[k as int].name == n@ && map_has(
                    m.deep_view(),
                    s.deep_view()[k as int].id,
                ));
            }
            return true;
        }
        k += 1;
    }
    false
}

/// Looks up the owned state declared under id `k`.
fn lookup_owned(m: &Vec<(u16, StateSchema)>, k: u16) -> (r: Option<StateSchema>)
    requires
        crate::maps::keys_unique(m.deep_view()),
    ensures
        match r {
            Some(v) => map_has(m.deep_view(), k) && v == map_get(m.deep_view(), k),
            None => !map_has(m.deep_view(), k),
        },
{
    let cnt = m.len();
    let mut i: usize = 0;
    while i < cnt
        invariant
            crate::maps::keys_unique(m.deep_view()),
            cnt == m.deep_view().len(),
            cnt == m@.len(),
            i <= cnt,
            forall|j: int| 0 <= j < i ==> (#[trigger] m.deep_view()[j]).0 != k,
        decreases cnt - i,
    {
        if m[i].0 == k {
            proof {
                assert(m.deep_view()[i as int].0 == k);
                crate::maps::lemma_map_get_at(m.deep_view(), i as int);
            }
            return Some(m[i].1);
        }
        i += 1;
    }
    None
}

/// Looks up the global state slot declared under id `k`.
fn lookup_global_schema(m: &Vec<(u16, crate::schema::GlobalStateSchema)>, k: u16) -> (r: Option<
    crate::schema::GlobalStateSchema,
>)
    requires
        crate::maps::keys_unique(m.deep_view()),
    ensures
        match r {
            Some(v) => map_has(m.deep_view(), k) && v == map_get(m.deep_view(), k),
            None => !map_has(m.deep_view(), k),
        },
{
    let cnt = m.len();
    let mut i: usize = 0;
    while i < cnt
        invariant
            crate::maps::keys_unique(m.deep_view()),
            cnt == m.deep_view().len(),
            cnt == m@.len(),
            i <= cnt,
            forall|j: int| 0 <= j < i ==> (#[trigger] m.deep_view()[j]).0 != k,
        decreases cnt - i,
    {
        if m[i].0 == k {
            proof {
                assert(m.deep_view()[i as int].0 == k);
                crate::maps::lemma_map_get_at(m.deep_view(), i as int);
            }
            return Some(m[i].1);
        }
        i += 1;
    }
    None
}

/// Looks up the interface global state slot named `n`.
fn lookup_global_iface(m: &Vec<(FieldName, crate::iface::GlobalIface)>, n: &FieldName) -> (r:
    Option<crate::iface::GlobalIface>)
    requires
        crate::maps::keys_unique(m.deep_view()),
    ensures
        match r {
            Some(v) => map_has(m.deep_view(), n@) && v == map_get(m.deep_view(), n@),
            None => !map_has(m.deep_view(), n@),
        },
{
    let cnt = m.len();
    let mut i: usize = 0;
    while i < cnt
        invariant
            crate::maps::keys_unique(m.deep_view()),
            cnt == m.deep_view().len(),
            cnt == m@.len(),
            i <= cnt,
            forall|j: int| 0 <= j < i ==> (#[trigger] m.deep_view()[j]).0 != n@,
        decreases cnt - i,
    {
        if m[i].0.eq_name(n) {
            proof {
                assert(m.deep_view()[i as int].0 == n@);
                crate::maps::lemma_map_get_at(m.deep_view(), i as int);
            }
            return Some(m[i].1);
        }
        i += 1;
    }
    None
}

/// Looks up the interface owned state slot named `n`.
fn lookup_assign_iface(m: &Vec<(FieldName, AssignIface)>, n: &FieldName) -> (r: Option<
    AssignIface,
>)
    requires
        crate::maps::keys_unique(m.deep_view()),
    ensures
        match r {
            Some(v) => map_has(m.deep_view(), n@) && v == map_get(m.deep_view(), n@),
            None => !map_has(m.deep_view(), n@),
        },
{
    let cnt = m.len();
    let mut i: usize = 0;
    while i < cnt
        invariant
            crate::maps::keys_unique(m.deep_view()),
            cnt == m.deep_view().len(),
            cnt == m@.len(),
            i <= cnt,
            forall|j: int| 0 <= j < i ==> (#[trigger] m.deep_view()[j]).0 != n@,
        decreases cnt - i,
    {
        if m[i].0.eq_name(n) {
            proof {
                assert(m.deep_view()[i as int].0 == n@);
                crate::maps::lemma_map_get_at(m.deep_view(), i as int);
            }
            return Some(m[i].1);
        }
        i += 1;
    }
    None
}

/// Whether the draft set covers the owned-state slot `n` of kind `a`.
fn cover_assign_exec(
    s: &Vec<NamedField>,
    m: &Vec<(u16, StateSchema)>,
    n: &FieldName,
    a: AssignIface,
) -> (r: bool)
    requires
        crate::maps::keys_unique(m.deep_view()),
    ensures
        r == covers_assign(s.deep_view(), m.deep_view(), n@, a),
{
    let cnt = s.len();
    let mut k: usize = 0;
    while k < cnt
        invariant
            crate::maps::keys_unique(m.deep_view()),
            cnt == s.deep_view().len(),
            cnt == s@.len(),
            k <= cnt,
            forall|kk: int|
                0 <= kk < k ==> !((#[trigger] s.deep_view()[kk]).name == n@ && map_has(
                    m.deep_view(),
                    s.deep_view()[kk].id,
                ) && assign_compat(a.owned, map_get(m.deep_view(), s.deep_view()[kk].id))),
        decreases cnt - k,
    {
        if s[k].name.eq_name(n) {
            match lookup_owned(m, s[k].id) {
                Some(v) => {
                    if assign_compat_exec(a.owned, v) {
                        proof {
                            assert(s.deep_view()[k as int].name == n@ && map_has(
                                m.deep_view(),
                                s.deep_view()[k as int].id,
                            ) && assign_compat(
                                a.owned,
                                map_get(m.deep_view(), s.deep_view()[k as int].id),
                            ));
                        }
                        return true;
                    }
                },
                None => {},
            }
        }
        k += 1;
    }
    false
}

/// Searches one draft set for a repeated schema id or a repeated name;
/// returns the id of the later entry of the first offending pair.
fn find_ambiguous_fields(s: &Vec<NamedField>) -> (r: Option<u16>)
    ensures
        match r {
            None => set_injective(s.deep_view()),
            Some(id) => !set_injective(s.deep_view()) && doubly_bound(s.deep_view(), id),
        },
{
    let cnt = s.len();
    let mut j: usize = 0;
    while j < cnt
        invariant
            cnt == s.deep_view().len(),
            cnt == s@.len(),
            j <= cnt,
            forall|a: int, b: int|
                0 <= a < b < j ==> (#[trigger] s.deep_view()[a]).id != (
                #[trigger] s.deep_view()[b]).id && s.deep_view()[a].name != s.deep_view()[b].name,
        decreases cnt - j,
    {
        let mut i: usize = 0;
        while i < j
            invariant
                cnt == s.deep_view().len(),
                cnt == s@.len(),
                i <= j < cnt,
                forall|a: int, b: int|
                    0 <= a < b < j ==> (#[trigger] s.deep_view()[a]).id != (
                    #[trigger] s.deep_view()[b]).id && s.deep_view()[a].name != s.deep_view()[b].name,
                forall|a: int|
                    0 <= a < i ==> (#[trigger] s.deep_view()[a]).id != s.deep_view()[j as int].id
                        && s.deep_view()[a].name != s.deep_view()[j as int].name,
            decreases j - i,
        {
            if s[i].id == s[j].id || s[i].name.eq_name(&s[j].name) {
                proof {
                    assert(!((s.deep_view()[i as int]).id != (s.deep_view()[j as int]).id && (
                    s.deep_view()[i as int]).name != (s.deep_view()[j as int]).name));
                    assert(!set_injective(s.deep_view()));
                    assert(s.deep_view()[j as int].id == s@[j as int].id);
                    assert(doubly_bound(s.deep_view(), s@[j as int].id));
                }
                return Some(s[j].id);
            }
            i += 1;
        }
        j += 1;
    }
    None
}

/// Searches one draft operation set for a repeated schema id or a repeated
/// name; returns the id of the later entry of the first offending pair.
fn find_ambiguous_types(s: &Vec<NamedType>) -> (r: Option<u16>)
    ensures
        match r {
            None => set_injective(s.deep_view()),
            Some(id) => !set_injective(s.deep_view()) && doubly_bound(s.deep_view(), id),
        },
{
    let cnt = s.len();
    let mut j: usize = 0;
    while j < cnt
        invariant
            cnt == s.deep_view().len(),
            cnt == s@.len(),
            j <= cnt,
            forall|a: int, b: int|
                0 <= a < b < j ==> (#[trigger] s.deep_view()[a]).id != (
                #[trigger] s.deep_view()[b]).id && s.deep_view()[a].name != s.deep_view()[b].name,
        decreases cnt - j,
    {
        let mut i: usize = 0;
        while i < j
            invariant
                cnt == s.deep_view().len(),
                cnt == s@.len(),
                i <= j < cnt,
                forall|a: int, b: int|
                    0 <= a < b < j ==> (#[trigger] s.deep_view()[a]).id != (
                    #[trigger] s.deep_view()[b]).id && s.deep_view()[a].name != s.deep_view()[b].name,
                forall|a: int|
                    0 <= a < i ==> (#[trigger] s.deep_view()[a]).id != s.deep_view()[j as int].id
                        && s.deep_view()[a].name != s.deep_view()[j as int].name,
            decreases j - i,
        {
            if s[i].id == s[j].id || s[i].name.eq_name(&s[j].name) {
                proof {
                    assert(!((s.deep_view()[i as int]).id != (s.deep_view()[j as int]).id && (
                    s.deep_view()[i as int]).name != (s.deep_view()[j as int]).name));
                    assert(!set_injective(s.deep_view()));
                    assert(s.deep_view()[j as int].id == s@[j as int].id);
                    assert(doubly_bound(s.deep_view(), s@[j as int].id));
                }
                return Some(s[j].id);
            }
            i += 1;
        }
        j += 1;
    }
    None
}

/// Whether `n` names a mandatory interface element that the draft leaves
/// without a compatible, existing schema counterpart.
pub open spec fn uncovered_witness(iv: IfaceV, sv: SchemaV, dv: BindingDraftV, n: Seq<u8>) -> bool {
    ||| exists|j: int|
        0 <= j < iv.global_state.len() && (#[trigger] iv.global_state[j]).0 == n && !covers_in(
            dv.global_state,
            sv.global_types,
            n,
        )
    ||| exists|j: int|
        0 <= j < iv.assignments.len() && (#[trigger] iv.assignments[j]).0 == n && !covers_assign(
            dv.assignments,
            sv.owned_types,
            n,
            iv.assignments[j].1,
        )
    ||| exists|j: int|
        0 <= j < iv.genesis.global.len() && (#[trigger] iv.genesis.global[j]).0 == n
            && !covers_in(dv.genesis_iface, sv.genesis.globals, n)
    ||| exists|j: int|
        0 <= j < iv.transitions.len() && (#[trigger] iv.transitions[j]).0 == n
            && !iv.transitions[j].1.optional && !covers_in(dv.transitions, sv.transitions, n)
}

/// Whether `id` is the id of the later entry of a pair of one draft set
/// that binds one schema id or one interface name twice.
pub open spec fn doubly_bound(s: Seq<NamedPairV>, id: u16) -> bool {
    exists|i: int, j: int|
        0 <= i < j < s.len() && ((#[trigger] s[i]).id == (#[trigger] s[j]).id || s[i].name
            == s[j].name) && s[j].id == id
}

/// Whether some draft set binds a schema id or an interface name twice,
/// `id` being the id of the later entry of such a pair.
pub open spec fn ambiguous_witness(dv: BindingDraftV, id: u16) -> bool {
    ||| doubly_bound(dv.genesis_iface, id)
    ||| doubly_bound(dv.global_state, id)
    ||| doubly_bound(dv.assignments, id)
    ||| doubly_bound(dv.transitions, id)
}

/// Whether `n` names a draft entry whose interface element or schema
/// element is missing, or whose two sides' types disagree.
pub open spec fn mismatch_witness(iv: IfaceV, sv: SchemaV, dv: BindingDraftV, n: Seq<u8>) -> bool {
    ||| exists|k: int|
        0 <= k < dv.global_state.len() && (#[trigger] dv.global_state[k]).name == n && !(map_has(
            iv.global_state,
            n,
        ) && map_has(sv.global_types, dv.global_state[k].id) && map_get(iv.global_state, n).sem_type
            == map_get(sv.global_types, dv.global_state[k].id).sem_type)
    ||| exists|k: int|
        0 <= k < dv.assignments.len() && (#[trigger] dv.assignments[k]).name == n && !(map_has(
            iv.assignments,
            n,
        ) && map_has(sv.owned_types, dv.assignments[k].id) && assign_compat(
            map_get(iv.assignments, n).owned,
            map_get(sv.owned_types, dv.assignments[k].id),
        ))
    ||| exists|k: int|
        0 <= k < dv.genesis_iface.len() && (#[trigger] dv.genesis_iface[k]).name == n && !(map_has(
            iv.genesis.global,
            n,
        ) && map_has(sv.genesis.globals, dv.genesis_iface[k].id))
    ||| exists|k: int|
        0 <= k < dv.transitions.len() && (#[trigger] dv.transitions[k]).name == n && !(map_has(
            iv.transitions,
            n,
        ) && map_has(sv.transitions, dv.transitions[k].id))
}

/// The binding value that a successful `bind` returns.
pub open spec fn bound_impl(iv: IfaceV, sv: SchemaV, dv: BindingDraftV) -> IfaceImplV {
    IfaceImplV {
        version: VerNo::V1,
        schema_id: spec_schema_id(sv),
        iface_id: spec_iface_id(iv),
        genesis_iface: dv.genesis_iface,
        global_state: dv.global_state,
        assignments: dv.assignments,
        transitions: dv.transitions,
        extensions: Seq::empty(),
    }
}

/// Law: for every interface and schema with full mandatory coverage by an
/// injective, type-compatible draft, the binding that `bind` returns
/// carries exactly the drafted element sets, and each drafted entry maps
/// an existing interface element onto an existing schema element whose
/// type agrees, so each bound set is a correct subset mapping verified
/// against both inputs.
pub proof fn lemma_bind_success(iv: IfaceV, sv: SchemaV, dv: BindingDraftV)
    requires
        coverage_ok(iv, sv, dv),
        injectivity_ok(dv),
        types_ok(iv, sv, dv),
    ensures
        bound_impl(iv, sv, dv).genesis_iface == dv.genesis_iface,
        bound_impl(iv, sv, dv).global_state == dv.global_state,
        bound_impl(iv, sv, dv).assignments == dv.assignments,
        bound_impl(iv, sv, dv).transitions == dv.transitions,
        forall|k: int|
            0 <= k < dv.global_state.len() ==> {
                let e = #[trigger] dv.global_state[k];
                map_has(iv.global_state, e.name) && map_has(sv.global_types, e.id) && map_get(
                    iv.global_state,
                    e.name,
                ).sem_type == map_get(sv.global_types, e.id).sem_type
            },
        forall|k: int|
            0 <= k < dv.assignments.len() ==> {
                let e = #[trigger] dv.assignments[k];
                map_has(iv.assignments, e.name) && map_has(sv.owned_types, e.id) && assign_compat(
                    map_get(iv.assignments, e.name).owned,
                    map_get(sv.owned_types, e.id),
                )
            },
        forall|k: int|
            0 <= k < dv.transitions.len() ==> {
                let e = #[trigger] dv.transitions[k];
                map_has(iv.transitions, e.name) && map_has(sv.transitions, e.id)
            },
        forall|j: int|
            0 <= j < iv.transitions.len() && !(#[trigger] iv.transitions[j]).1.optional
                ==> covers_in(dv.transitions, sv.transitions, iv.transitions[j].0),
{
}

/// Law: when one mandatory transition of the interface has no drafted
/// mapping onto an existing schema transition, coverage fails, so `bind`
/// returns `UncoveredMandatoryField` and no binding — partial or whole —
/// is produced.
pub proof fn lemma_uncovered_transition_fails(
    iv: IfaceV,
    sv: SchemaV,
    dv: BindingDraftV,
    j: int,
)
    requires
        0 <= j < iv.transitions.len(),
        !iv.transitions[j].1.optional,
        !covers_in(dv.transitions, sv.transitions, iv.transitions[j].0),
    ensures
        !coverage_ok(iv, sv, dv),
{
}

/// Builds the binding of `iface` onto `schema` proposed by `draft`,
/// checking coverage, injectivity and type compatibility, in that order.
///
/// Returns `Ok` exactly when all three checks hold, and then the binding
/// carries the drafted element sets unchanged together with the
/// content-derived ids of both inputs. Each error variant comes exactly
/// when its check is the first to fail: `UncoveredMandatoryField` when
/// some mandatory interface element has no compatible schema counterpart,
/// `AmbiguousBinding` when coverage holds but a schema id or a name is
/// bound twice, and `TypeMismatch` when coverage and injectivity hold but
/// some drafted entry is dangling or its two sides' types disagree.
pub fn bind(iface: &Iface, schema: &Schema, draft: BindingDraft) -> (r: Result<
    IfaceImpl,
    BindingError,
>)
    requires
        iface@.wf(),
        schema@.wf(),
        Iface::fits(iface@),
        Schema::fits(schema@),
    ensures
        match r {
            Ok(im) => coverage_ok(iface@, schema@, draft.deep_view()) && injectivity_ok(
                draft.deep_view(),
            ) && types_ok(iface@, schema@, draft.deep_view()) && im@ == bound_impl(
                iface@,
                schema@,
                draft.deep_view(),
            ),
            Err(BindingError::UncoveredMandatoryField(n)) => !coverage_ok(
                iface@,
                schema@,
                draft.deep_view(),
            ) && uncovered_witness(iface@, schema@, draft.deep_view(), n@),
            Err(BindingError::AmbiguousBinding(id)) => coverage_ok(
                iface@,
                schema@,
                draft.deep_view(),
            ) && !injectivity_ok(draft.deep_view()) && ambiguous_witness(draft.deep_view(), id),
            Err(BindingError::TypeMismatch(n)) => coverage_ok(iface@, schema@, draft.deep_view())
                && injectivity_ok(draft.deep_view()) && !types_ok(
                iface@,
                schema@,
                draft.deep_view(),
            ) && mismatch_witness(iface@, schema@, draft.deep_view(), n@),
        },
{
    let ghost iv = iface@;
    let ghost sv = schema@;
    let ghost dv = draft.deep_view();
    proof {
        crate::maps::lemma_ids_sorted_unique(sv.global_types);
        crate::maps::lemma_ids_sorted_unique(sv.owned_types);
        crate::maps::lemma_ids_sorted_unique(sv.transitions);
        crate::maps::lemma_ids_sorted_unique(sv.genesis.globals);
    }
    // Check 1: coverage of every mandatory interface element.
    let gcnt = iface.global_state.len();
    let mut j: usize = 0;
    while j < gcnt
        invariant
            iv == iface@,
            sv == schema@,
            dv == draft.deep_view(),
            gcnt == iv.global_state.len(),
            gcnt == iface.global_state@.len(),
            j <= gcnt,
            forall|jj: int|
                0 <= jj < j ==> covers_in(
                    dv.global_state,
                    sv.global_types,
                    (#[trigger] iv.global_state[jj]).0,
                ),
        decreases gcnt - j,
    {
        if !cover_field(&draft.global_state, &schema.global_types, &iface.global_state[j].0) {
            proof {
                assert(!covers_in(dv.global_state, sv.global_types, iv.global_state[j as int].0));
                assert(!coverage_ok(iv, sv, dv));
                assert(uncovered_witness(iv, sv, dv, iv.global_state[j as int].0));
            }
            return Err(BindingError::UncoveredMandatoryField(iface.global_state[j].0.dup()));
        }
        j += 1;
    }
    let acnt = iface.assignments.len();
    let mut j: usize = 0;
    while j < acnt
        invariant
            iv == iface@,
            sv == schema@,
            dv == draft.deep_view(),
            crate::maps::keys_unique(sv.owned_types),
            acnt == iv.assignments.len(),
            acnt == iface.assignments@.len(),
            j <= acnt,
            forall|jj: int|
                0 <= jj < j ==> covers_assign(
                    dv.assignments,
                    sv.owned_types,
                    (#[trigger] iv.assignments[jj]).0,
                    iv.assignments[jj].1,
                ),
        decreases acnt - j,
    {
        if !cover_assign_exec(
            &draft.assignments,
            &schema.owned_types,
            &iface.assignments[j].0,
            iface.assignments[j].1,
        ) {
            proof {
                assert(!covers_assign(
                    dv.assignments,
                    sv.owned_types,
                    iv.assignments[j as int].0,
                    iv.assignments[j as int].1,
                ));
                assert(!coverage_ok(iv, sv, dv));
                assert(uncovered_witness(iv, sv, dv, iv.assignments[j as int].0));
            }
            return Err(BindingError::UncoveredMandatoryField(iface.assignments[j].0.dup()));
        }
        j += 1;
    }
    let gencnt = iface.genesis.global.len();
    let mut j: usize = 0;
    while j < gencnt
        invariant
            iv == iface@,
            sv == schema@,
            dv == draft.deep_view(),
            gencnt == iv.genesis.global.len(),
            gencnt == iface.genesis.global@.len(),
            j <= gencnt,
            forall|jj: int|
                0 <= jj < j ==> covers_in(
                    dv.genesis_iface,
                    sv.genesis.globals,
                    (#[trigger] iv.genesis.global[jj]).0,
                ),
        decreases gencnt - j,
    {
        if !cover_field(&draft.genesis_iface, &schema.genesis.globals, &iface.genesis.global[j].0) {
            proof {
                assert(!covers_in(
                    dv.genesis_iface,
                    sv.genesis.globals,
                    iv.genesis.global[j as int].0,
                ));
                assert(!coverage_ok(iv, sv, dv));
                assert(uncovered_witness(iv, sv, dv, iv.genesis.global[j as int].0));
            }
            return Err(BindingError::UncoveredMandatoryField(iface.genesis.global[j].0.dup()));
        }
        j += 1;
    }
    let tcnt = iface.transitions.len();
    let mut j: usize = 0;
    while j < tcnt
        invariant
            iv == iface@,
            sv == schema@,
            dv == draft.deep_view(),
            tcnt == iv.transitions.len(),
            tcnt == iface.transitions@.len(),
            j <= tcnt,
            forall|jj: int|
                0 <= jj < j && !(#[trigger] iv.transitions[jj]).1.optional ==> covers_in(
                    dv.transitions,
                    sv.transitions,
                    iv.transitions[jj].0,
                ),
        decreases tcnt - j,
    {
        if !iface.transitions[j].1.optional {
            if !cover_type(&draft.transitions, &schema.transitions, &iface.transitions[j].0) {
                proof {
                    assert(!covers_in(dv.transitions, sv.transitions, iv.transitions[j as int].0));
                    assert(!coverage_ok(iv, sv, dv));
                    assert(uncovered_witness(iv, sv, dv, iv.transitions[j as int].0));
                }
                return Err(BindingError::UncoveredMandatoryField(iface.transitions[j].0.dup()));
            }
        }
        j += 1;
    }
    proof {
        assert(coverage_ok(iv, sv, dv));
    }
    // Check 2: injectivity of each drafted element set.
    match find_ambiguous_fields(&draft.genesis_iface) {
        Some(id) => {
            proof {
                assert(doubly_bound(dv.genesis_iface, id));
            }
            return Err(BindingError::AmbiguousBinding(id));
        },
        None => {},
    }
    match find_ambiguous_fields(&draft.global_state) {
        Some(id) => {
            proof {
                assert(doubly_bound(dv.global_state, id));
            }
            return Err(BindingError::AmbiguousBinding(id));
        },
        None => {},
    }
    match find_ambiguous_fields(&draft.assignments) {
        Some(id) => {
            proof {
                assert(doubly_bound(dv.assignments, id));
            }
            return Err(BindingError::AmbiguousBinding(id));
        },
        None => {},
    }
    match find_ambiguous_types(&draft.transitions) {
        Some(id) => {
            proof {
                assert(doubly_bound(dv.transitions, id));
            }
            return Err(BindingError::AmbiguousBinding(id));
        },
        None => {},
    }
    proof {
        assert(injectivity_ok(dv));
    }
    // Check 3: both referents of every drafted entry exist and agree.
    let kcnt = draft.global_state.len();
    let mut k: usize = 0;
    while k < kcnt
        invariant
            iv == iface@,
            sv == schema@,
            dv == draft.deep_view(),
            crate::maps::keys_unique(iv.global_state),
            crate::maps::keys_unique(sv.global_types),
            coverage_ok(iv, sv, dv),
            injectivity_ok(dv),
            kcnt == dv.global_state.len(),
            kcnt == draft.global_state@.len(),
            k <= kcnt,
            forall|kk: int|
                0 <= kk < k ==> {
                    let e = #[trigger] dv.global_state[kk];
                    map_has(iv.global_state, e.name) && map_has(sv.global_types, e.id) && map_get(
                        iv.global_state,
                        e.name,
                    ).sem_type == map_get(sv.global_types, e.id).sem_type
                },
        decreases kcnt - k,
    {
        proof {
            assert(dv.global_state[k as int].name == draft.global_state@[k as int].name@);
            assert(dv.global_state[k as int].id == draft.global_state@[k as int].id);
        }
        let gi = match lookup_global_iface(&iface.global_state, &draft.global_state[k].name) {
            Some(gi) => gi,
            None => {
                proof {
                    assert(!types_ok(iv, sv, dv));
                    assert(mismatch_witness(iv, sv, dv, dv.global_state[k as int].name));
                }
                return Err(BindingError::TypeMismatch(draft.global_state[k].name.dup()));
            },
        };
        let gs = match lookup_global_schema(&schema.global_types, draft.global_state[k].id) {
            Some(gs) => gs,
            None => {
                proof {
                    assert(!types_ok(iv, sv, dv));
                    assert(mismatch_witness(iv, sv, dv, dv.global_state[k as int].name));
                }
                return Err(BindingError::TypeMismatch(draft.global_state[k].name.dup()));
            },
        };
        if gi.sem_type != gs.sem_type {
            proof {
                assert(!types_ok(iv, sv, dv));
                assert(mismatch_witness(iv, sv, dv, dv.global_state[k as int].name));
            }
            return Err(BindingError::TypeMismatch(draft.global_state[k].name.dup()));
        }
        k += 1;
    }
    let kcnt = draft.assignments.len();
    let mut k: usize = 0;
    while k < kcnt
        invariant
            iv == iface@,
            sv == schema@,
            dv == draft.deep_view(),
            crate::maps::keys_unique(iv.assignments),
            crate::maps::keys_unique(sv.owned_types),
            coverage_ok(iv, sv, dv),
            injectivity_ok(dv),
            kcnt == dv.assignments.len(),
            kcnt == draft.assignments@.len(),
            k <= kcnt,
            forall|kk: int|
                0 <= kk < k ==> {
                    let e = #[trigger] dv.assignments[kk];
                    map_has(iv.assignments, e.name) && map_has(sv.owned_types, e.id)
                        && assign_compat(
                        map_get(iv.assignments, e.name).owned,
                        map_get(sv.owned_types, e.id),
                    )
                },
        decreases kcnt - k,
    {
        proof {
            assert(dv.assignments[k as int].name == draft.assignments@[k as int].name@);
            assert(dv.assignments[k as int].id == draft.assignments@[k as int].id);
        }
        let ai = match lookup_assign_iface(&iface.assignments, &draft.assignments[k].name) {
            Some(ai) => ai,
            None => {
                proof {
                    assert(!types_ok(iv, sv, dv));
                    assert(mismatch_witness(iv, sv, dv, dv.assignments[k as int].name));
                }
                return Err(BindingError::TypeMismatch(draft.assignments[k].name.dup()));
            },
        };
        let os = match lookup_owned(&schema.owned_types, draft.assignments[k].id) {
            Some(os) => os,
            None => {
                proof {
                    assert(!types_ok(iv, sv, dv));
                    assert(mismatch_witness(iv, sv, dv, dv.assignments[k as int].name));
                }
                return Err(BindingError::TypeMismatch(draft.assignments[k].name.dup()));
            },
        };
        if !assign_compat_exec(ai.owned, os) {
            proof {
                assert(!types_ok(iv, sv, dv));
                assert(mismatch_witness(iv, sv, dv, dv.assignments[k as int].name));
            }
            return Err(BindingError::TypeMismatch(draft.assignments[k].name.dup()));
        }
        k += 1;
    }
    let kcnt = draft.genesis_iface.len();
    let mut k: usize = 0;
    while k < kcnt
        invariant
            iv == iface@,
            sv == schema@,
            dv == draft.deep_view(),
            coverage_ok(iv, sv, dv),
            injectivity_ok(dv),
            kcnt == dv.genesis_iface.len(),
            kcnt == draft.genesis_iface@.len(),
            k <= kcnt,
            forall|kk: int|
                0 <= kk < k ==> {
                    let e = #[trigger] dv.genesis_iface[kk];
                    map_has(iv.genesis.global, e.name) && map_has(sv.genesis.globals, e.id)
                },
        decreases kcnt - k,
    {
        proof {
            assert(dv.genesis_iface[k as int].name == draft.genesis_iface@[k as int].name@);
            assert(dv.genesis_iface[k as int].id == draft.genesis_iface@[k as int].id);
        }
        if !named_has(&iface.genesis.global, &draft.genesis_iface[k].name) {
            proof {
                assert(!types_ok(iv, sv, dv));
                assert(mismatch_witness(iv, sv, dv, dv.genesis_iface[k as int].name));
            }
            return Err(BindingError::TypeMismatch(draft.genesis_iface[k].name.dup()));
        }
        if !id_has(&schema.genesis.globals, draft.genesis_iface[k].id) {
            proof {
                assert(!types_ok(iv, sv, dv));
                assert(mismatch_witness(iv, sv, dv, dv.genesis_iface[k as int].name));
            }
            return Err(BindingError::TypeMismatch(draft.genesis_iface[k].name.dup()));
        }
        k += 1;
    }
    let kcnt = draft.transitions.len();
    let mut k: usize = 0;
    while k < kcnt
        invariant
            iv == iface@,
            sv == schema@,
            dv == draft.deep_view(),
            coverage_ok(iv, sv, dv),
            injectivity_ok(dv),
            kcnt == dv.transitions.len(),
            kcnt == draft.transitions@.len(),
            k <= kcnt,
            forall|kk: int|
                0 <= kk < k ==> {
                    let e = #[trigger] dv.transitions[kk];
                    map_has(iv.transitions, e.name) && map_has(sv.transitions, e.id)
                },
        decreases kcnt - k,
    {
        proof {
            assert(dv.transitions[k as int].name == draft.transitions@[k as int].name@);
            assert(dv.transitions[k as int].id == draft.transitions@[k as int].id);
        }
        if !named_has(&iface.transitions, &draft.transitions[k].name) {
            proof {
                assert(!types_ok(iv, sv, dv));
                assert(mismatch_witness(iv, sv, dv, dv.transitions[k as int].name));
            }
            return Err(BindingError::TypeMismatch(draft.transitions[k].name.dup()));
        }
        if !id_has(&schema.transitions, draft.transitions[k].id) {
            proof {
                assert(!types_ok(iv, sv, dv));
                assert(mismatch_witness(iv, sv, dv, dv.transitions[k as int].name));
            }
            return Err(BindingError::TypeMismatch(draft.transitions[k].name.dup()));
        }
        k += 1;
    }
    proof {
        assert(types_ok(iv, sv, dv));
    }
    let sid = schema_id(schema);
    let iid = iface_id(iface);
    let im = IfaceImpl {
        version: VerNo::V1,
        schema_id: sid,
        iface_id: iid,
        genesis_iface: draft.genesis_iface,
        global_state: draft.global_state,
        assignments: draft.assignments,
        transitions: draft.transitions,
        extensions: Vec::new(),
    };
    proof {
        assert(im@ =~= bound_impl(iv, sv, dv));
    }
    Ok(im)
}

} // verus!
