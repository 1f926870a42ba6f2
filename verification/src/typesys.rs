//! The type registry: resolution of semantic type names to stable numeric
//! type references.
//!
//! The registry is read-only data from this crate's point of view: an
//! external type system assigns every semantic type a content-derived
//! identifier, and this crate folds that identifier into a 64-bit reference
//! that the models carry and compare.

use vstd::prelude::*;

use crate::ident::FieldName;

verus! {

/// A stable reference to a registered semantic type.
pub type TypeRef = u64;

/// The offset basis of the 64-bit fold (FNV-1a).
pub const FOLD_OFFSET: u64 = 0xcbf29ce484222325;

/// The multiplier of the 64-bit fold (FNV-1a).
pub const FOLD_PRIME: u64 = 0x100000001b3;

/// One step of the fold: mix byte `b` into state `h`.
pub open spec fn fold_step(h: u64, b: u8) -> u64 {
    vstd::wrapping::u64_specs::wrapping_mul(h ^ (b as u64), FOLD_PRIME)
}

/// The fold of `s` continued from state `h`.
pub open spec fn fold_bytes_from(h: u64, s: Seq<u8>) -> u64
    decreases s.len(),
{
    if s.len() == 0 {
        h
    } else {
        fold_bytes_from(fold_step(h, s[0]), s.skip(1))
    }
}

/// The 64-bit content fold of a byte sequence.
pub open spec fn fold_bytes(s: Seq<u8>) -> u64 {
    fold_bytes_from(FOLD_OFFSET, s)
}

proof fn lemma_fold_bytes_from_push(h: u64, s: Seq<u8>, b: u8)
    ensures
        fold_bytes_from(h, s.push(b)) == fold_step(fold_bytes_from(h, s), b),
    decreases s.len(),
{
    if s.len() == 0 {
        assert(s.push(b)[0] == b);
        assert(s.push(b).skip(1) =~= Seq::<u8>::empty());
        assert(fold_bytes_from(h, s.push(b)) == fold_bytes_from(
            fold_step(h, b),
            s.push(b).skip(1),
        ));
        assert(fold_bytes_from(fold_step(h, b), Seq::<u8>::empty()) == fold_step(h, b));
    } else {
        assert(s.push(b)[0] == s[0]);
        assert(s.push(b).skip(1) =~= s.skip(1).push(b));
        lemma_fold_bytes_from_push(fold_step(h, s[0]), s.skip(1), b);
    }
}

/// Folds a byte sequence into a 64-bit content digest.
pub fn fold_digest(s: &Vec<u8>) -> (r: u64)
    ensures
        r == fold_bytes(s@),
{
    let mut h: u64 = FOLD_OFFSET;
    let mut i: usize = 0;
    proof {
        assert(s@.take(0) =~= Seq::<u8>::empty());
    }
    while i < s.len()
        invariant
            i <= s@.len(),
            h == fold_bytes_from(FOLD_OFFSET, s@.take(i as int)),
        decreases s@.len() - i,
    {
        let b = s[i];
        let x: u64 = h ^ (b as u64);
        proof {
            lemma_fold_bytes_from_push(FOLD_OFFSET, s@.take(i as int), b);
            assert(s@.take(i as int).push(b) =~= s@.take(i + 1));
        }
        h = x.wrapping_mul(FOLD_PRIME);
        i += 1;
    }
    proof {
        assert(s@.take(s@.len() as int) =~= s@);
    }
    h
}

/// The semantic identifier that the external type system assigns to the
/// primitive type with the given code: an opaque 32-byte digest of the
/// type's structure, a function of the code alone.
pub uninterp spec fn sem_id_of_primitive(code: u8) -> Seq<u8>;

/// Relies on strict_types' `Ty::sem_id_unnamed`: the semantic id of an
/// unnamed primitive type is a tagged SHA-256 digest of the type's
/// structure, so it depends on the primitive's code alone, and a `SemId`
/// is 32 bytes long.
#[verifier::external_body]
fn primitive_sem_id(code: u8) -> (r: Vec<u8>)
    ensures
        r@ == sem_id_of_primitive(code),
        r@.len() == 32,
{
    let ty: strict_types::Ty<strict_types::SemId> =
        strict_types::Ty::Primitive(strict_types::encoding::Primitive::from_code(code));
    ty.sem_id_unnamed()[..].to_vec()
}

/// The 64-bit type reference under which the registry files the primitive
/// type with the given code.
pub open spec fn primitive_ref(code: u8) -> TypeRef {
    fold_bytes(sem_id_of_primitive(code))
}

/// Computes the type reference of the primitive type with the given code
/// by folding the 32-byte semantic id the external type system assigns it.
pub fn resolve_primitive(code: u8) -> (r: TypeRef)
    ensures
        r == primitive_ref(code),
{
    let id = primitive_sem_id(code);
    fold_digest(&id)
}

/// An error of the type registry.
#[derive(Clone, Copy, Debug, PartialEq, Eq, Structural)]
pub enum RegistryError {
    /// The requested name is not registered.
    UnknownType,
}

/// A read-only table assigning a stable type reference to each registered
/// semantic type name.
#[derive(Debug, PartialEq, Eq)]
pub struct TypeRegistry {
    pub entries: Vec<(FieldName, TypeRef)>,
}

/// View of a registry: the sequence of (name, reference) entries.
pub ghost struct TypeRegistryV {
    pub entries: Seq<(Seq<u8>, TypeRef)>,
}

impl DeepView for TypeRegistry {
    type V = TypeRegistryV;

    open spec fn deep_view(&self) -> TypeRegistryV {
        TypeRegistryV { entries: self.entries.deep_view() }
    }
}

impl View for TypeRegistry {
    type V = TypeRegistryV;

    open spec fn view(&self) -> TypeRegistryV {
        self.deep_view()
    }
}

impl TypeRegistryV {
    /// Whether some entry registers the name `n`.
    pub open spec fn contains_name(self, n: Seq<u8>) -> bool {
        exists|i: int| 0 <= i < self.entries.len() && self.entries[i].0 == n
    }

    /// The reference registered under the name `n` (the first entry, though
    /// a well-formed registry has at most one).
    pub open spec fn ref_of(self, n: Seq<u8>) -> TypeRef {
        self.entries[choose|i: int| 0 <= i < self.entries.len() && self.entries[i].0 == n].1
    }

    /// Whether some entry carries the reference `t`.
    pub open spec fn contains_ref(self, t: TypeRef) -> bool {
        exists|i: int| 0 <= i < self.entries.len() && self.entries[i].1 == t
    }

    /// Well-formedness: no name is registered twice.
    pub open spec fn wf(self) -> bool {
        forall|i: int, j: int|
            0 <= i < j < self.entries.len() ==> self.entries[i].0 != self.entries[j].0
    }
}

impl TypeRegistry {
    /// Creates an empty registry.
    pub fn new() -> (r: TypeRegistry)
        ensures
            r@.entries.len() == 0,
            r@.wf(),
    {
        TypeRegistry { entries: Vec::new() }
    }

    /// Looks the name up, failing with `UnknownType` when it is absent:
    /// returns `Ok(t)` exactly when some entry registers the name, with `t`
    /// that entry's reference, and `Err(UnknownType)` otherwise.
    pub fn resolve(&self, name: &FieldName) -> (r: Result<TypeRef, RegistryError>)
        requires
            self@.wf(),
        ensures
            match r {
                Ok(t) => self@.contains_name(name@) && t == self@.ref_of(name@),
                Err(e) => e == RegistryError::UnknownType && !self@.contains_name(name@),
            },
    {
        let n = self.entries.len();
        let mut i: usize = 0;
        while i < n
            invariant
                self@.wf(),
                n == self@.entries.len(),
                i <= n,
                forall|j: int| 0 <= j < i ==> self@.entries[j].0 != name@,
            decreases n - i,
        {
            if self.entries[i].0.eq_name(name) {
                proof {
                    assert(self@.entries[i as int].0 == name@);
                    let k = choose|k: int|
                        0 <= k < self@.entries.len() && self@.entries[k].0 == name@;
                    if k < i as int {
                        assert(self@.entries[k].0 != self@.entries[i as int].0);
                    } else if k > i as int {
                        assert(self@.entries[i as int].0 != self@.entries[k].0);
                    }
                }
                return Ok(self.entries[i].1);
            }
            i += 1;
        }
        Err(RegistryError::UnknownType)
    }

    /// Whether some entry carries the reference `t`.
    pub fn knows_ref(&self, t: TypeRef) -> (r: bool)
        ensures
            r == self@.contains_ref(t),
    {
        let n = self.entries.len();
        let mut i: usize = 0;
        while i < n
            invariant
                n == self@.entries.len(),
                i <= n,
                forall|j: int| 0 <= j < i ==> self@.entries[j].1 != t,
            decreases n - i,
        {
            if self.entries[i].1 == t {
                proof {
                    assert(self@.entries[i as int].1 == t);
                }
                return true;
            }
            i += 1;
        }
        false
    }
}

} // verus!
