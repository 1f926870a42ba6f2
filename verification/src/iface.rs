//! The interface model: the abstract, name-keyed declaration of a contract
//! standard, covering global state slots, owned state slots, the genesis
//! step and the named transition operations.

use vstd::prelude::*;
use vstd::string::StringSliceAdditionalSpecFns;

use crate::ident::{fname, FieldName};
use crate::maps::{keys_unique, map_has};
use crate::occurrence::Occurrence;
use crate::typesys::{TypeRef, TypeRegistry, TypeRegistryV};

verus! {

/// Version of the interface and binding container formats.
#[derive(Clone, Copy, Debug, PartialEq, Eq, Structural)]
pub enum VerNo {
    /// First version.
    V1,
}

impl DeepView for VerNo {
    type V = VerNo;

    open spec fn deep_view(&self) -> VerNo {
        *self
    }
}

/// How many values a declared slot must carry.
#[derive(Clone, Copy, Debug, PartialEq, Eq, Structural)]
pub enum Req {
    /// Exactly one value.
    Required,
    /// At least one value.
    OneOrMany,
}

impl DeepView for Req {
    type V = Req;

    open spec fn deep_view(&self) -> Req {
        *self
    }
}

/// A global state slot of an interface: its semantic type and requirement.
#[derive(Clone, Copy, Debug, PartialEq, Eq, Structural)]
pub struct GlobalIface {
    pub sem_type: TypeRef,
    pub req: Req,
}

impl DeepView for GlobalIface {
    type V = GlobalIface;

    open spec fn deep_view(&self) -> GlobalIface {
        *self
    }
}

impl GlobalIface {
    /// A slot carrying exactly one value of the given type.
    pub fn required(sem_type: TypeRef) -> (r: GlobalIface)
        ensures
            r == (GlobalIface { sem_type, req: Req::Required }),
    {
        GlobalIface { sem_type, req: Req::Required }
    }

    /// A slot carrying one or more values of the given type.
    pub fn one_or_many(sem_type: TypeRef) -> (r: GlobalIface)
        ensures
            r == (GlobalIface { sem_type, req: Req::OneOrMany }),
    {
        GlobalIface { sem_type, req: Req::OneOrMany }
    }
}

/// The kind of owned (spendable) state a slot holds.
#[derive(Clone, Copy, Debug, PartialEq, Eq, Structural)]
pub enum OwnedIface {
    /// A bare right, carrying no value.
    Rights,
    /// A fungible amount.
    Amount,
    /// A structured value of the given semantic type.
    Data(TypeRef),
}

impl DeepView for OwnedIface {
    type V = OwnedIface;

    open spec fn deep_view(&self) -> OwnedIface {
        *self
    }
}

/// An owned state slot of an interface.
#[derive(Clone, Copy, Debug, PartialEq, Eq, Structural)]
pub struct AssignIface {
    pub owned: OwnedIface,
    pub req: Req,
}

impl DeepView for AssignIface {
    type V = AssignIface;

    open spec fn deep_view(&self) -> AssignIface {
        *self
    }
}

/// An argument of a genesis or transition operation.
#[derive(Debug, PartialEq, Eq)]
pub struct ArgSpec {
    /// An optional display name for the argument's value.
    pub name: Option<FieldName>,
    pub req: Req,
}

/// View of an argument spec.
#[verifier::ext_equal]
pub ghost struct ArgSpecV {
    pub name: Option<Seq<u8>>,
    pub req: Req,
}

impl DeepView for ArgSpec {
    type V = ArgSpecV;

    open spec fn deep_view(&self) -> ArgSpecV {
        ArgSpecV { name: self.name.deep_view(), req: self.req }
    }
}

impl ArgSpec {
    /// An unnamed argument carrying exactly one value.
    pub fn required() -> (r: ArgSpec)
        ensures
            r.deep_view() == (ArgSpecV { name: None, req: Req::Required }),
    {
        ArgSpec { name: None, req: Req::Required }
    }

    /// A named argument carrying exactly one value.
    pub fn from_required(name: &str) -> (r: ArgSpec)
        ensures
            r.deep_view() == (ArgSpecV {
                name: Some(name.spec_bytes()),
                req: Req::Required,
            }),
    {
        ArgSpec { name: Some(fname(name)), req: Req::Required }
    }

    /// A named argument carrying one or more values.
    pub fn from_non_empty(name: &str) -> (r: ArgSpec)
        ensures
            r.deep_view() == (ArgSpecV {
                name: Some(name.spec_bytes()),
                req: Req::OneOrMany,
            }),
    {
        ArgSpec { name: Some(fname(name)), req: Req::OneOrMany }
    }
}

/// The genesis (issuance) declaration of an interface.
#[derive(Debug, PartialEq, Eq)]
pub struct GenesisIface {
    pub metadata: Option<TypeRef>,
    pub global: Vec<(FieldName, ArgSpec)>,
    pub assignments: Vec<(FieldName, Occurrence)>,
    pub valencies: Vec<FieldName>,
    pub errors: Vec<u8>,
}

/// View of a genesis declaration.
#[verifier::ext_equal]
pub ghost struct GenesisIfaceV {
    pub metadata: Option<TypeRef>,
    pub global: Seq<(Seq<u8>, ArgSpecV)>,
    pub assignments: Seq<(Seq<u8>, Occurrence)>,
    pub valencies: Seq<Seq<u8>>,
    pub errors: Seq<u8>,
}

impl DeepView for GenesisIface {
    type V = GenesisIfaceV;

    open spec fn deep_view(&self) -> GenesisIfaceV {
        GenesisIfaceV {
            metadata: self.metadata,
            global: self.global.deep_view(),
            assignments: self.assignments.deep_view(),
            valencies: self.valencies.deep_view(),
            errors: self.errors.deep_view(),
        }
    }
}

/// A named transition operation of an interface.
#[derive(Debug, PartialEq, Eq)]
pub struct TransitionIface {
    /// When false, the operation is mandatory for any implementation
    /// claiming the standard.
    pub optional: bool,
    pub metadata: Option<TypeRef>,
    pub globals: Vec<(FieldName, ArgSpec)>,
    pub inputs: Vec<(FieldName, ArgSpec)>,
    pub valencies: Vec<FieldName>,
    pub errors: Vec<u8>,
    pub default_assignment: Option<FieldName>,
}

/// View of a transition declaration.
#[verifier::ext_equal]
pub ghost struct TransitionIfaceV {
    pub optional: bool,
    pub metadata: Option<TypeRef>,
    pub globals: Seq<(Seq<u8>, ArgSpecV)>,
    pub inputs: Seq<(Seq<u8>, ArgSpecV)>,
    pub valencies: Seq<Seq<u8>>,
    pub errors: Seq<u8>,
    pub default_assignment: Option<Seq<u8>>,
}

impl DeepView for TransitionIface {
    type V = TransitionIfaceV;

    open spec fn deep_view(&self) -> TransitionIfaceV {
        TransitionIfaceV {
            optional: self.optional,
            metadata: self.metadata,
            globals: self.globals.deep_view(),
            inputs: self.inputs.deep_view(),
            valencies: self.valencies.deep_view(),
            errors: self.errors.deep_view(),
            default_assignment: self.default_assignment.deep_view(),
        }
    }
}

/// An interface: the abstract, name-keyed declaration of a contract
/// standard.
#[derive(Debug, PartialEq, Eq)]
pub struct Iface {
    pub version: VerNo,
    pub name: FieldName,
    pub global_state: Vec<(FieldName, GlobalIface)>,
    pub assignments: Vec<(FieldName, AssignIface)>,
    pub genesis: GenesisIface,
    pub transitions: Vec<(FieldName, TransitionIface)>,
    pub error_type: TypeRef,
    pub default_operation: Option<FieldName>,
}

/// View of an interface.
#[verifier::ext_equal]
pub ghost struct IfaceV {
    pub version: VerNo,
    pub name: Seq<u8>,
    pub global_state: Seq<(Seq<u8>, GlobalIface)>,
    pub assignments: Seq<(Seq<u8>, AssignIface)>,
    pub genesis: GenesisIfaceV,
    pub transitions: Seq<(Seq<u8>, TransitionIfaceV)>,
    pub error_type: TypeRef,
    pub default_operation: Option<Seq<u8>>,
}

impl DeepView for Iface {
    type V = IfaceV;

    open spec fn deep_view(&self) -> IfaceV {
        IfaceV {
            version: self.version,
            name: self.name@,
            global_state: self.global_state.deep_view(),
            assignments: self.assignments.deep_view(),
            genesis: self.genesis.deep_view(),
            transitions: self.transitions.deep_view(),
            error_type: self.error_type,
            default_operation: self.default_operation.deep_view(),
        }
    }
}

impl View for Iface {
    type V = IfaceV;

    open spec fn view(&self) -> IfaceV {
        self.deep_view()
    }
}

impl IfaceV {
    /// Every name map of the interface has unique keys.
    pub open spec fn names_unique(self) -> bool {
        &&& keys_unique(self.global_state)
        &&& keys_unique(self.assignments)
        &&& keys_unique(self.transitions)
        &&& keys_unique(self.genesis.global)
        &&& keys_unique(self.genesis.assignments)
        &&& forall|i: int|
            0 <= i < self.transitions.len() ==> keys_unique(#[trigger] self.transitions[i].1.globals)
                && keys_unique(self.transitions[i].1.inputs)
    }

    /// Every cross-reference by name inside the interface resolves.
    pub open spec fn refs_resolve(self) -> bool {
        &&& forall|i: int|
            0 <= i < self.genesis.assignments.len() ==> map_has(
                self.assignments,
                #[trigger] self.genesis.assignments[i].0,
            )
        &&& forall|i: int|
            0 <= i < self.transitions.len() ==> match #[trigger] self.transitions[i].1
                .default_assignment {
                Some(n) => map_has(self.assignments, n),
                None => true,
            }
        &&& match self.default_operation {
            Some(n) => map_has(self.transitions, n),
            None => true,
        }
    }

    /// Well-formedness of an interface value.
    pub open spec fn wf(self) -> bool {
        self.names_unique() && self.refs_resolve()
    }


    /// Whether every semantic type the interface refers to is registered.
    pub open spec fn types_resolved(self, rv: TypeRegistryV) -> bool {
        &&& rv.contains_ref(self.error_type)
        &&& match self.genesis.metadata {
            Some(t) => rv.contains_ref(t),
            None => true,
        }
        &&& forall|i: int|
            0 <= i < self.global_state.len() ==> rv.contains_ref(
                (#[trigger] self.global_state[i]).1.sem_type,
            )
        &&& forall|i: int|
            0 <= i < self.assignments.len() ==> match (#[trigger] self.assignments[i]).1.owned {
                OwnedIface::Data(t) => rv.contains_ref(t),
                _ => true,
            }
        &&& forall|i: int|
            0 <= i < self.transitions.len() ==> match (#[trigger] self.transitions[i]).1.metadata {
                Some(t) => rv.contains_ref(t),
                None => true,
            }
    }
}

/// An error of interface or schema construction; fatal to the build step.
#[derive(Debug, PartialEq, Eq)]
pub enum BuildError {
    /// A name occurs twice within one name map; carries the name.
    DuplicateFieldName(FieldName),
    /// A referenced semantic type is not registered; carries the
    /// reference.
    UnresolvedTypeRef(TypeRef),
    /// An id-keyed occurrence map is out of canonical order or binds one
    /// id twice; carries the id.
    InvalidOccurrence(u16),
    /// A script entry point refers to an absent library; carries the
    /// library key.
    UnresolvedScriptRef(u64),
}

proof fn lemma_transition_dup_breaks(iv: IfaceV, j: int)
    requires
        0 <= j < iv.transitions.len(),
        !keys_unique(iv.transitions[j].1.globals) || !keys_unique(iv.transitions[j].1.inputs),
    ensures
        !iv.names_unique(),
{
    if iv.names_unique() {
        assert(keys_unique(#[trigger] iv.transitions[j].1.globals) && keys_unique(
            iv.transitions[j].1.inputs,
        ));
    }
}

/// Finds a duplicated key in a name map.
fn named_dup<T: DeepView>(m: &Vec<(FieldName, T)>) -> (r: Option<usize>)
    ensures
        match r {
            None => keys_unique(m.deep_view()),
            Some(j) => !keys_unique(m.deep_view()) && j < m@.len(),
        },
{
    let cnt = m.len();
    let mut j: usize = 0;
    while j < cnt
        invariant
            cnt == m.deep_view().len(),
            cnt == m@.len(),
            j <= cnt,
            forall|a: int, b: int|
                0 <= a < b < j ==> (#[trigger] m.deep_view()[a]).0 != (
                #[trigger] m.deep_view()[b]).0,
        decreases cnt - j,
    {
        let mut i: usize = 0;
        while i < j
            invariant
                cnt == m.deep_view().len(),
                cnt == m@.len(),
                i <= j < cnt,
                forall|a: int, b: int|
                    0 <= a < b < j ==> (#[trigger] m.deep_view()[a]).0 != (
                    #[trigger] m.deep_view()[b]).0,
                forall|a: int|
                    0 <= a < i ==> (#[trigger] m.deep_view()[a]).0 != m.deep_view()[j as int].0,
            decreases j - i,
        {
            if m[i].0.eq_name(&m[j].0) {
                proof {
                    assert(m.deep_view()[i as int].0 == m.deep_view()[j as int].0);
                    assert(!keys_unique(m.deep_view()));
                }
                return Some(j);
            }
            i += 1;
        }
        j += 1;
    }
    None
}

/// Validates a built interface against the registry, as the build step
/// does: every name map must be key-unique and every referenced semantic
/// type registered. Fails with `DuplicateFieldName` exactly when a name
/// occurs twice, and with `UnresolvedTypeRef` exactly when the names are
/// unique but some referenced type is unregistered.
pub fn check_interface(iface: &Iface, registry: &TypeRegistry) -> (r: Result<(), BuildError>)
    ensures
        match r {
            Ok(()) => iface@.names_unique() && iface@.types_resolved(registry@),
            Err(BuildError::DuplicateFieldName(_)) => !iface@.names_unique(),
            Err(BuildError::UnresolvedTypeRef(t)) => iface@.names_unique() && !iface@.types_resolved(
                registry@,
            ) && !registry@.contains_ref(t),
            Err(_) => false,
        },
{
    let ghost iv = iface@;
    let ghost rv = registry@;
    if let Some(j) = named_dup(&iface.global_state) {
        return Err(BuildError::DuplicateFieldName(iface.global_state[j].0.dup()));
    }
    if let Some(j) = named_dup(&iface.assignments) {
        return Err(BuildError::DuplicateFieldName(iface.assignments[j].0.dup()));
    }
    if let Some(j) = named_dup(&iface.transitions) {
        return Err(BuildError::DuplicateFieldName(iface.transitions[j].0.dup()));
    }
    if let Some(j) = named_dup(&iface.genesis.global) {
        return Err(BuildError::DuplicateFieldName(iface.genesis.global[j].0.dup()));
    }
    if let Some(j) = named_dup(&iface.genesis.assignments) {
        return Err(BuildError::DuplicateFieldName(iface.genesis.assignments[j].0.dup()));
    }
    let tcnt = iface.transitions.len();
    let mut j: usize = 0;
    while j < tcnt
        invariant
            iv == iface@,
            tcnt == iv.transitions.len(),
            tcnt == iface.transitions@.len(),
            j <= tcnt,
            forall|jj: int|
                0 <= jj < j ==> keys_unique((#[trigger] iv.transitions[jj]).1.globals)
                    && keys_unique(iv.transitions[jj].1.inputs),
        decreases tcnt - j,
    {
        if let Some(i) = named_dup(&iface.transitions[j].1.globals) {
            proof {
                assert(!keys_unique(iv.transitions[j as int].1.globals));
                lemma_transition_dup_breaks(iv, j as int);
            }
            return Err(BuildError::DuplicateFieldName(iface.transitions[j].1.globals[i].0.dup()));
        }
        if let Some(i) = named_dup(&iface.transitions[j].1.inputs) {
            proof {
                assert(!keys_unique(iv.transitions[j as int].1.inputs));
                lemma_transition_dup_breaks(iv, j as int);
            }
            return Err(BuildError::DuplicateFieldName(iface.transitions[j].1.inputs[i].0.dup()));
        }
        j += 1;
    }
    proof {
        assert(iv.names_unique());
    }
    if !registry.knows_ref(iface.error_type) {
        return Err(BuildError::UnresolvedTypeRef(iface.error_type));
    }
    match iface.genesis.metadata {
        Some(t) => {
            if !registry.knows_ref(t) {
                return Err(BuildError::UnresolvedTypeRef(t));
            }
        },
        None => {},
    }
    let gcnt = iface.global_state.len();
    let mut j: usize = 0;
    while j < gcnt
        invariant
            iv == iface@,
            rv == registry@,
            iv.names_unique(),
            rv.contains_ref(iv.error_type),
            match iv.genesis.metadata {
                Some(t) => rv.contains_ref(t),
                None => true,
            },
            gcnt == iv.global_state.len(),
            gcnt == iface.global_state@.len(),
            j <= gcnt,
            forall|jj: int|
                0 <= jj < j ==> rv.contains_ref((#[trigger] iv.global_state[jj]).1.sem_type),
        decreases gcnt - j,
    {
        if !registry.knows_ref(iface.global_state[j].1.sem_type) {
            proof {
                assert(!rv.contains_ref(iv.global_state[j as int].1.sem_type));
                assert(!iv.types_resolved(rv));
            }
            return Err(BuildError::UnresolvedTypeRef(iface.global_state[j].1.sem_type));
        }
        j += 1;
    }
    let acnt = iface.assignments.len();
    let mut j: usize = 0;
    while j < acnt
        invariant
            iv == iface@,
            rv == registry@,
            iv.names_unique(),
            rv.contains_ref(iv.error_type),
            match iv.genesis.metadata {
                Some(t) => rv.contains_ref(t),
                None => true,
            },
            forall|jj: int|
                0 <= jj < iv.global_state.len() ==> rv.contains_ref(
                    (#[trigger] iv.global_state[jj]).1.sem_type,
                ),
            acnt == iv.assignments.len(),
            acnt == iface.assignments@.len(),
            j <= acnt,
            forall|jj: int|
                0 <= jj < j ==> match (#[trigger] iv.assignments[jj]).1.owned {
                    OwnedIface::Data(t) => rv.contains_ref(t),
                    _ => true,
                },
        decreases acnt - j,
    {
        match iface.assignments[j].1.owned {
            OwnedIface::Data(t) => {
                if !registry.knows_ref(t) {
                    proof {
                        assert(iv.assignments[j as int].1.owned == OwnedIface::Data(t));
                        assert(!iv.types_resolved(rv));
                    }
                    return Err(BuildError::UnresolvedTypeRef(t));
                }
            },
            _ => {},
        }
        j += 1;
    }
    let tcnt = iface.transitions.len();
    let mut j: usize = 0;
    while j < tcnt
        invariant
            iv == iface@,
            rv == registry@,
            iv.names_unique(),
            rv.contains_ref(iv.error_type),
            match iv.genesis.metadata {
                Some(t) => rv.contains_ref(t),
                None => true,
            },
            forall|jj: int|
                0 <= jj < iv.global_state.len() ==> rv.contains_ref(
                    (#[trigger] iv.global_state[jj]).1.sem_type,
                ),
            forall|jj: int|
                0 <= jj < iv.assignments.len() ==> match (#[trigger] iv.assignments[jj]).1.owned {
                    OwnedIface::Data(t) => rv.contains_ref(t),
                    _ => true,
                },
            tcnt == iv.transitions.len(),
            tcnt == iface.transitions@.len(),
            j <= tcnt,
            forall|jj: int|
                0 <= jj < j ==> match (#[trigger] iv.transitions[jj]).1.metadata {
                    Some(t) => rv.contains_ref(t),
                    None => true,
                },
        decreases tcnt - j,
    {
        match iface.transitions[j].1.metadata {
            Some(t) => {
                if !registry.knows_ref(t) {
                    proof {
                        assert(iv.transitions[j as int].1.metadata == Some(t));
                        assert(!iv.types_resolved(rv));
                    }
                    return Err(BuildError::UnresolvedTypeRef(t));
                }
            },
            None => {},
        }
        j += 1;
    }
    Ok(())
}

} // verus!
