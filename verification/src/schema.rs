//! The schema model: the concrete, numeric-id-keyed declaration of a
//! contract standard, its per-operation occurrence constraints, and the
//! reference to its validation script.

use vstd::prelude::*;
use vstd::string::StringSliceAdditionalSpecFns;

use crate::iface::BuildError;
use crate::maps::{ids_sorted, ids_sorted_plain, map_has};
use crate::occurrence::{check_counts, counts_ok, Occurrence};
use crate::typesys::{fold_bytes, fold_digest, TypeRef, TypeRegistry, TypeRegistryV};

verus! {

/// The numeric representation of a fungible owned state.
#[derive(Clone, Copy, Debug, PartialEq, Eq, Structural)]
pub enum FungibleType {
    /// A 64-bit unsigned amount.
    Unsigned64Bit,
}

impl DeepView for FungibleType {
    type V = FungibleType;

    open spec fn deep_view(&self) -> FungibleType {
        *self
    }
}

/// The state layout of one owned state type.
#[derive(Clone, Copy, Debug, PartialEq, Eq, Structural)]
pub enum StateSchema {
    /// A bare right, carrying no value.
    Declarative,
    /// A fungible amount of the given numeric representation.
    Fungible(FungibleType),
    /// A structured value of the given semantic type.
    Structured(TypeRef),
}

impl DeepView for StateSchema {
    type V = StateSchema;

    open spec fn deep_view(&self) -> StateSchema {
        *self
    }
}

/// The schema of one global state type.
#[derive(Clone, Copy, Debug, PartialEq, Eq, Structural)]
pub struct GlobalStateSchema {
    pub sem_type: TypeRef,
    pub occurrence: Occurrence,
}

impl DeepView for GlobalStateSchema {
    type V = GlobalStateSchema;

    open spec fn deep_view(&self) -> GlobalStateSchema {
        *self
    }
}

impl GlobalStateSchema {
    /// A global state type carrying exactly one value of the given type.
    pub fn once(sem_type: TypeRef) -> (r: GlobalStateSchema)
        ensures
            r == (GlobalStateSchema { sem_type, occurrence: Occurrence::Once }),
    {
        GlobalStateSchema { sem_type, occurrence: Occurrence::Once }
    }
}

/// The genesis schema: which globals and assignments an issuance must
/// supply, and how many of each.
#[derive(Debug, PartialEq, Eq)]
pub struct GenesisSchema {
    pub metadata_type: TypeRef,
    pub globals: Vec<(u16, Occurrence)>,
    pub assignments: Vec<(u16, Occurrence)>,
    pub valencies: Vec<u16>,
}

/// View of a genesis schema.
#[verifier::ext_equal]
pub ghost struct GenesisSchemaV {
    pub metadata_type: TypeRef,
    pub globals: Seq<(u16, Occurrence)>,
    pub assignments: Seq<(u16, Occurrence)>,
    pub valencies: Seq<u16>,
}

impl DeepView for GenesisSchema {
    type V = GenesisSchemaV;

    open spec fn deep_view(&self) -> GenesisSchemaV {
        GenesisSchemaV {
            metadata_type: self.metadata_type,
            globals: self.globals.deep_view(),
            assignments: self.assignments.deep_view(),
            valencies: self.valencies.deep_view(),
        }
    }
}

/// The schema of one state transition type.
#[derive(Debug, PartialEq, Eq)]
pub struct TransitionSchema {
    pub metadata_type: TypeRef,
    pub globals: Vec<(u16, Occurrence)>,
    pub inputs: Vec<(u16, Occurrence)>,
    pub assignments: Vec<(u16, Occurrence)>,
    pub valencies: Vec<u16>,
}

/// View of a transition schema.
#[verifier::ext_equal]
pub ghost struct TransitionSchemaV {
    pub metadata_type: TypeRef,
    pub globals: Seq<(u16, Occurrence)>,
    pub inputs: Seq<(u16, Occurrence)>,
    pub assignments: Seq<(u16, Occurrence)>,
    pub valencies: Seq<u16>,
}

impl DeepView for TransitionSchema {
    type V = TransitionSchemaV;

    open spec fn deep_view(&self) -> TransitionSchemaV {
        TransitionSchemaV {
            metadata_type: self.metadata_type,
            globals: self.globals.deep_view(),
            inputs: self.inputs.deep_view(),
            assignments: self.assignments.deep_view(),
            valencies: self.valencies.deep_view(),
        }
    }
}

impl GenesisSchema {
    /// Validates an issuance: the observed global items and assignment
    /// items must meet the genesis occurrence constraints, with no item of
    /// an undeclared id.
    pub fn validate(&self, globals: &Vec<u16>, assignments: &Vec<u16>) -> (r: bool)
        requires
            globals@.len() <= u64::MAX,
            assignments@.len() <= u64::MAX,
        ensures
            r == (counts_ok(self.deep_view().globals, globals@) && counts_ok(
                self.deep_view().assignments,
                assignments@,
            )),
    {
        check_counts(&self.globals, globals) && check_counts(&self.assignments, assignments)
    }
}

impl TransitionSchema {
    /// Validates one transition instance: the observed global, input and
    /// assignment items must meet the transition's occurrence constraints,
    /// with no item of an undeclared id.
    pub fn validate(&self, globals: &Vec<u16>, inputs: &Vec<u16>, assignments: &Vec<u16>) -> (r:
        bool)
        requires
            globals@.len() <= u64::MAX,
            inputs@.len() <= u64::MAX,
            assignments@.len() <= u64::MAX,
        ensures
            r == (counts_ok(self.deep_view().globals, globals@) && counts_ok(
                self.deep_view().inputs,
                inputs@,
            ) && counts_ok(self.deep_view().assignments, assignments@)),
    {
        check_counts(&self.globals, globals) && check_counts(&self.inputs, inputs)
            && check_counts(&self.assignments, assignments)
    }
}

/// An entry point into the validation script.
#[derive(Clone, Copy, Debug, PartialEq, Eq, Structural)]
pub enum EntryPoint {
    /// Validation of the genesis operation.
    ValidateGenesis,
    /// Validation of the transition with the given id.
    ValidateTransition(u16),
    /// Validation of spending the owned state with the given id.
    ValidateOwnedState(u16),
}

impl DeepView for EntryPoint {
    type V = EntryPoint;

    open spec fn deep_view(&self) -> EntryPoint {
        *self
    }
}

/// A position inside a validation script library.
#[derive(Clone, Copy, Debug, PartialEq, Eq, Structural)]
pub struct LibSite {
    pub lib: u64,
    pub pos: u16,
}

impl DeepView for LibSite {
    type V = LibSite;

    open spec fn deep_view(&self) -> LibSite {
        *self
    }
}

impl LibSite {
    /// The site at offset `pos` of library `lib`.
    pub fn with(pos: u16, lib: u64) -> (r: LibSite)
        ensures
            r == (LibSite { lib, pos }),
    {
        LibSite { lib, pos }
    }
}

/// One library of the validation script: its code and data segments. The
/// core neither executes nor interprets them.
#[derive(Debug, PartialEq, Eq)]
pub struct ScriptLib {
    pub code: Vec<u8>,
    pub data: Vec<u8>,
}

/// View of a script library.
#[verifier::ext_equal]
pub ghost struct ScriptLibV {
    pub code: Seq<u8>,
    pub data: Seq<u8>,
}

impl DeepView for ScriptLib {
    type V = ScriptLibV;

    open spec fn deep_view(&self) -> ScriptLibV {
        ScriptLibV { code: self.code.deep_view(), data: self.data.deep_view() }
    }
}

/// The validation script reference of a schema: opaque libraries keyed by
/// their content-derived id, and the entry points into them.
#[derive(Debug, PartialEq, Eq)]
pub struct Script {
    pub libs: Vec<(u64, ScriptLib)>,
    pub entry_points: Vec<(EntryPoint, LibSite)>,
}

/// View of a script reference.
#[verifier::ext_equal]
pub ghost struct ScriptV {
    pub libs: Seq<(u64, ScriptLibV)>,
    pub entry_points: Seq<(EntryPoint, LibSite)>,
}

impl DeepView for Script {
    type V = ScriptV;

    open spec fn deep_view(&self) -> ScriptV {
        ScriptV { libs: self.libs.deep_view(), entry_points: self.entry_points.deep_view() }
    }
}

impl ScriptV {
    /// Every entry point's library is present among the script's libraries.
    pub open spec fn entry_points_resolve(self) -> bool {
        forall|i: int|
            0 <= i < self.entry_points.len() ==> map_has(
                self.libs,
                (#[trigger] self.entry_points[i].1).lib,
            )
    }
}

/// The id that the script engine assigns to a library assembled from the
/// given ISA identifiers, code segment and data segment (with no call-site
/// libraries): an opaque 32-byte digest, a function of those inputs alone.
pub uninterp spec fn script_lib_id(isae: Seq<char>, code: Seq<u8>, data: Seq<u8>) -> Seq<u8>;

/// Relies on aluvm's `LibId::with`: the library id is a tagged SHA-256
/// digest over the ISA segment, the code segment, the data segment and the
/// call-site library ids (none here), 32 bytes long.
#[verifier::external_body]
fn aluvm_lib_id(isae: &str, code: &Vec<u8>, data: &Vec<u8>) -> (r: Vec<u8>)
    ensures
        r@ == script_lib_id(isae@, code@, data@),
        r@.len() == 32,
{
    let id = aluvm::library::LibId::with(
        isae,
        code,
        data,
        &aluvm::library::LibSeg::default(),
    );
    id[..].to_vec()
}

/// The 64-bit key under which a schema files the script library assembled
/// from the given segments.
pub open spec fn script_lib_ref(isae: Seq<char>, code: Seq<u8>, data: Seq<u8>) -> u64 {
    fold_bytes(script_lib_id(isae, code, data))
}

/// Computes the key of a script library by folding the content-derived id
/// the script engine assigns it.
pub fn resolve_script_lib(isae: &str, code: &Vec<u8>, data: &Vec<u8>) -> (r: u64)
    ensures
        r == script_lib_ref(isae@, code@, data@),
{
    let id = aluvm_lib_id(isae, code, data);
    fold_digest(&id)
}

/// A schema: the concrete, numeric-id-keyed declaration of a contract
/// standard.
#[derive(Debug, PartialEq, Eq)]
pub struct Schema {
    /// Format version of the schema container.
    pub ffv: u16,
    /// The id of the schema this one refines, if any.
    pub subset_of: Option<u64>,
    /// The registry of the semantic types the schema refers to.
    pub type_system: TypeRegistry,
    pub global_types: Vec<(u16, GlobalStateSchema)>,
    pub owned_types: Vec<(u16, StateSchema)>,
    pub valency_types: Vec<u16>,
    pub genesis: GenesisSchema,
    /// Ids reserved for state extensions; none are declared by the
    /// standards in this crate.
    pub extensions: Vec<u16>,
    pub transitions: Vec<(u16, TransitionSchema)>,
    pub script: Script,
}

/// View of a schema.
#[verifier::ext_equal]
pub ghost struct SchemaV {
    pub ffv: u16,
    pub subset_of: Option<u64>,
    pub type_system: TypeRegistryV,
    pub global_types: Seq<(u16, GlobalStateSchema)>,
    pub owned_types: Seq<(u16, StateSchema)>,
    pub valency_types: Seq<u16>,
    pub genesis: GenesisSchemaV,
    pub extensions: Seq<u16>,
    pub transitions: Seq<(u16, TransitionSchemaV)>,
    pub script: ScriptV,
}

impl DeepView for Schema {
    type V = SchemaV;

    open spec fn deep_view(&self) -> SchemaV {
        SchemaV {
            ffv: self.ffv,
            subset_of: self.subset_of,
            type_system: self.type_system.deep_view(),
            global_types: self.global_types.deep_view(),
            owned_types: self.owned_types.deep_view(),
            valency_types: self.valency_types.deep_view(),
            genesis: self.genesis.deep_view(),
            extensions: self.extensions.deep_view(),
            transitions: self.transitions.deep_view(),
            script: self.script.deep_view(),
        }
    }
}

impl View for Schema {
    type V = SchemaV;

    open spec fn view(&self) -> SchemaV {
        self.deep_view()
    }
}

impl SchemaV {
    /// The occurrence maps of an operation refer only to declared ids.
    pub open spec fn op_refs_resolve(
        self,
        globals: Seq<(u16, Occurrence)>,
        inputs: Seq<(u16, Occurrence)>,
        assignments: Seq<(u16, Occurrence)>,
        valencies: Seq<u16>,
    ) -> bool {
        &&& forall|i: int|
            0 <= i < globals.len() ==> map_has(self.global_types, #[trigger] globals[i].0)
        &&& forall|i: int|
            0 <= i < inputs.len() ==> map_has(self.owned_types, #[trigger] inputs[i].0)
        &&& forall|i: int|
            0 <= i < assignments.len() ==> map_has(self.owned_types, #[trigger] assignments[i].0)
        &&& forall|i: int| 0 <= i < valencies.len() ==> self.valency_types.contains(
            #[trigger] valencies[i],
        )
    }

    /// Every id-keyed mapping is in canonical (strictly increasing) order,
    /// which also makes its ids unique.
    pub open spec fn ids_canonical(self) -> bool {
        &&& ids_sorted(self.global_types)
        &&& ids_sorted(self.owned_types)
        &&& ids_sorted(self.transitions)
        &&& ids_sorted_plain(self.valency_types)
        &&& ids_sorted(self.genesis.globals)
        &&& ids_sorted(self.genesis.assignments)
        &&& ids_sorted_plain(self.genesis.valencies)
        &&& forall|i: int|
            0 <= i < self.transitions.len() ==> {
                let t = (#[trigger] self.transitions[i]).1;
                ids_sorted(t.globals) && ids_sorted(t.inputs) && ids_sorted(t.assignments)
                    && ids_sorted_plain(t.valencies)
            }
    }

    /// Every cross-reference by id inside the schema resolves.
    pub open spec fn refs_resolve(self) -> bool {
        &&& self.op_refs_resolve(
            self.genesis.globals,
            Seq::empty(),
            self.genesis.assignments,
            self.genesis.valencies,
        )
        &&& forall|i: int|
            0 <= i < self.transitions.len() ==> {
                let t = (#[trigger] self.transitions[i]).1;
                self.op_refs_resolve(t.globals, t.inputs, t.assignments, t.valencies)
            }
        &&& self.script.entry_points_resolve()
    }

    /// Well-formedness of a schema value.
    pub open spec fn wf(self) -> bool {
        self.ids_canonical() && self.refs_resolve() && self.type_system.wf()
    }
}

/// Finds a violation of canonical order in an id-keyed map.
fn sorted_pairs<T: DeepView>(m: &Vec<(u16, T)>) -> (r: Option<u16>)
    ensures
        match r {
            None => ids_sorted(m.deep_view()),
            Some(_) => !ids_sorted(m.deep_view()),
        },
{
    let cnt = m.len();
    let mut j: usize = 1;
    while j < cnt
        invariant
            cnt == m.deep_view().len(),
            cnt == m@.len(),
            1 <= j || cnt == 0,
            j <= cnt || (cnt == 0 && j == 1),
            forall|a: int, b: int|
                0 <= a < b < j ==> (#[trigger] m.deep_view()[a]).0 < (#[trigger] m.deep_view()[b]).0,
        decreases cnt - j,
    {
        if m[j - 1].0 >= m[j].0 {
            proof {
                assert(m.deep_view()[j - 1].0 >= m.deep_view()[j as int].0);
                assert(!ids_sorted(m.deep_view()));
            }
            return Some(m[j].0);
        }
        proof {
            assert forall|a: int, b: int| 0 <= a < b < j + 1 implies (
            #[trigger] m.deep_view()[a]).0 < (#[trigger] m.deep_view()[b]).0 by {
                if b == j as int {
                    if a < j - 1 {
                        assert(m.deep_view()[a].0 < m.deep_view()[j - 1].0);
                    }
                    assert(m.deep_view()[j - 1].0 < m.deep_view()[j as int].0);
                }
            }
        }
        j += 1;
    }
    None
}

/// Finds a violation of canonical order in a plain id list.
fn sorted_plain(s: &Vec<u16>) -> (r: Option<u16>)
    ensures
        match r {
            None => ids_sorted_plain(s@),
            Some(_) => !ids_sorted_plain(s@),
        },
{
    let cnt = s.len();
    let mut j: usize = 1;
    while j < cnt
        invariant
            cnt == s@.len(),
            1 <= j || cnt == 0,
            j <= cnt || (cnt == 0 && j == 1),
            forall|a: int, b: int| 0 <= a < b < j ==> s@[a] < s@[b],
        decreases cnt - j,
    {
        if s[j - 1] >= s[j] {
            return Some(s[j]);
        }
        proof {
            assert forall|a: int, b: int| 0 <= a < b < j + 1 implies s@[a] < s@[b] by {
                if b == j as int {
                    if a < j - 1 {
                        assert(s@[a] < s@[j - 1]);
                    }
                    assert(s@[j - 1] < s@[j as int]);
                }
            }
        }
        j += 1;
    }
    None
}

/// Whether some library of the script carries the key `k`.
fn lib_has(libs: &Vec<(u64, ScriptLib)>, k: u64) -> (r: bool)
    ensures
        r == map_has(libs.deep_view(), k),
{
    let cnt = libs.len();
    let mut j: usize = 0;
    while j < cnt
        invariant
            cnt == libs.deep_view().len(),
            cnt == libs@.len(),
            j <= cnt,
            forall|jj: int| 0 <= jj < j ==> (#[trigger] libs.deep_view()[jj]).0 != k,
        decreases cnt - j,
    {
        if libs[j].0 == k {
            proof {
                assert(libs.deep_view()[j as int].0 == k);
                assert(map_has(libs.deep_view(), k));
            }
            return true;
        }
        j += 1;
    }
    false
}

proof fn lemma_transition_order_breaks(sv: SchemaV, j: int)
    requires
        0 <= j < sv.transitions.len(),
        !(ids_sorted(sv.transitions[j].1.globals) && ids_sorted(sv.transitions[j].1.inputs)
            && ids_sorted(sv.transitions[j].1.assignments) && ids_sorted_plain(
            sv.transitions[j].1.valencies,
        )),
    ensures
        !sv.ids_canonical(),
{
    if sv.ids_canonical() {
        let t = (#[trigger] sv.transitions[j]).1;
        assert(ids_sorted(t.globals) && ids_sorted(t.inputs) && ids_sorted(t.assignments)
            && ids_sorted_plain(t.valencies));
    }
}

/// Validates a built schema, as the build step does: every id-keyed
/// occurrence map must be in canonical (strictly increasing) order, so
/// that no id binds two occurrence constraints, and every script entry
/// point must refer to a declared library. Fails with `InvalidOccurrence`
/// exactly when some map is out of canonical order, and with
/// `UnresolvedScriptRef` exactly when the maps are canonical but some
/// entry point's library is absent.
pub fn check_schema(schema: &Schema) -> (r: Result<(), BuildError>)
    ensures
        match r {
            Ok(()) => schema@.ids_canonical() && schema@.script.entry_points_resolve(),
            Err(BuildError::InvalidOccurrence(_)) => !schema@.ids_canonical(),
            Err(BuildError::UnresolvedScriptRef(_)) => schema@.ids_canonical()
                && !schema@.script.entry_points_resolve(),
            Err(_) => false,
        },
{
    let ghost sv = schema@;
    if let Some(id) = sorted_pairs(&schema.global_types) {
        return Err(BuildError::InvalidOccurrence(id));
    }
    if let Some(id) = sorted_pairs(&schema.owned_types) {
        return Err(BuildError::InvalidOccurrence(id));
    }
    if let Some(id) = sorted_pairs(&schema.transitions) {
        return Err(BuildError::InvalidOccurrence(id));
    }
    proof {
        assert(sv.valency_types =~= schema.valency_types@);
    }
    if let Some(id) = sorted_plain(&schema.valency_types) {
        return Err(BuildError::InvalidOccurrence(id));
    }
    if let Some(id) = sorted_pairs(&schema.genesis.globals) {
        proof {
            assert(!ids_sorted(sv.genesis.globals));
        }
        return Err(BuildError::InvalidOccurrence(id));
    }
    if let Some(id) = sorted_pairs(&schema.genesis.assignments) {
        proof {
            assert(!ids_sorted(sv.genesis.assignments));
        }
        return Err(BuildError::InvalidOccurrence(id));
    }
    proof {
        assert(sv.genesis.valencies =~= schema.genesis.valencies@);
    }
    if let Some(id) = sorted_plain(&schema.genesis.valencies) {
        return Err(BuildError::InvalidOccurrence(id));
    }
    let tcnt = schema.transitions.len();
    let mut j: usize = 0;
    while j < tcnt
        invariant
            sv == schema@,
            ids_sorted(sv.global_types),
            ids_sorted(sv.owned_types),
            ids_sorted(sv.transitions),
            ids_sorted_plain(sv.valency_types),
            ids_sorted(sv.genesis.globals),
            ids_sorted(sv.genesis.assignments),
            ids_sorted_plain(sv.genesis.valencies),
            tcnt == sv.transitions.len(),
            tcnt == schema.transitions@.len(),
            j <= tcnt,
            forall|jj: int|
                0 <= jj < j ==> {
                    let t = (#[trigger] sv.transitions[jj]).1;
                    ids_sorted(t.globals) && ids_sorted(t.inputs) && ids_sorted(t.assignments)
                        && ids_sorted_plain(t.valencies)
                },
        decreases tcnt - j,
    {
        if let Some(id) = sorted_pairs(&schema.transitions[j].1.globals) {
            proof {
                assert(!ids_sorted(sv.transitions[j as int].1.globals));
                lemma_transition_order_breaks(sv, j as int);
            }
            return Err(BuildError::InvalidOccurrence(id));
        }
        if let Some(id) = sorted_pairs(&schema.transitions[j].1.inputs) {
            proof {
                assert(!ids_sorted(sv.transitions[j as int].1.inputs));
                lemma_transition_order_breaks(sv, j as int);
            }
            return Err(BuildError::InvalidOccurrence(id));
        }
        if let Some(id) = sorted_pairs(&schema.transitions[j].1.assignments) {
            proof {
                assert(!ids_sorted(sv.transitions[j as int].1.assignments));
                lemma_transition_order_breaks(sv, j as int);
            }
            return Err(BuildError::InvalidOccurrence(id));
        }
        proof {
            assert(sv.transitions[j as int].1.valencies =~= schema.transitions@[
                j as int
            ].1.valencies@);
        }
        if let Some(id) = sorted_plain(&schema.transitions[j].1.valencies) {
            proof {
                lemma_transition_order_breaks(sv, j as int);
            }
            return Err(BuildError::InvalidOccurrence(id));
        }
        j += 1;
    }
    proof {
        assert(sv.ids_canonical());
    }
    let ecnt = schema.script.entry_points.len();
    let mut i: usize = 0;
    while i < ecnt
        invariant
            sv == schema@,
            sv.ids_canonical(),
            ecnt == sv.script.entry_points.len(),
            ecnt == schema.script.entry_points@.len(),
            i <= ecnt,
            forall|ii: int|
                0 <= ii < i ==> map_has(
                    sv.script.libs,
                    (#[trigger] sv.script.entry_points[ii].1).lib,
                ),
        decreases ecnt - i,
    {
        let k = schema.script.entry_points[i].1.lib;
        let found = lib_has(&schema.script.libs, k);
        proof {
            assert(schema.script.libs.deep_view() == sv.script.libs);
            assert(sv.script.entry_points[i as int].1.lib == k);
        }
        if !found {
            proof {
                assert(!map_has(sv.script.libs, sv.script.entry_points[i as int].1.lib));
                assert(!sv.script.entry_points_resolve());
            }
            return Err(BuildError::UnresolvedScriptRef(k));
        }
        i += 1;
    }
    proof {
        assert(sv.script.entry_points_resolve());
    }
    Ok(())
}

} // verus!
