//! The wire codec: a stable, strictly-typed binary encoding of interfaces,
//! schemata and bindings. Field order is fixed, integers are little
//! endian, names and lists carry a 16-bit length prefix, and enum variants
//! carry a one-byte tag. Content-derived ids are folds of this encoding.

use vstd::bytes::{
    lemma_auto_spec_u16_to_from_le_bytes, lemma_auto_spec_u64_to_from_le_bytes,
    spec_u16_from_le_bytes, spec_u16_to_le_bytes, spec_u64_from_le_bytes, spec_u64_to_le_bytes,
    u16_to_le_bytes, u64_to_le_bytes,
};
use vstd::prelude::*;

use crate::binding::{BindingDraft, BindingDraftV, IfaceImpl, IfaceImplV, NamedField, NamedType, NamedPairV};
use crate::ident::FieldName;
use crate::iface::{
    ArgSpec, ArgSpecV, AssignIface, GenesisIface, GenesisIfaceV, GlobalIface, Iface, IfaceV,
    OwnedIface, Req, TransitionIface, TransitionIfaceV, VerNo,
};
use crate::occurrence::Occurrence;
use crate::schema::{
    EntryPoint, FungibleType, GenesisSchema, GenesisSchemaV, GlobalStateSchema, LibSite, Schema,
    SchemaV, Script, ScriptLib, ScriptLibV, ScriptV, StateSchema, TransitionSchema,
    TransitionSchemaV,
};
use crate::typesys::{fold_bytes, fold_digest, TypeRegistry, TypeRegistryV};

verus! {

/// The largest length a name or a list may have on the wire.
pub const WIRE_LEN_MAX: u16 = 0xffff;

/// A value with a place in the wire format: a size bound under which it is
/// encodable, its encoding, and an encoder.
pub trait Wire: DeepView + Sized {
    /// Whether the value is small enough to encode.
    spec fn fits(v: Self::V) -> bool;

    /// The encoding of the value.
    spec fn senc(v: Self::V) -> Seq<u8>;

    /// The decoding of a wire prefix: the value read and the remainder,
    /// or nothing when the bytes do not open with a valid encoding.
    spec fn sdec(s: Seq<u8>) -> Option<(Self::V, Seq<u8>)>;

    /// Round trip: decoding an encoded value yields the value and leaves
    /// the trailing bytes untouched.
    proof fn lemma_roundtrip(v: Self::V, rest: Seq<u8>)
        requires
            Self::fits(v),
        ensures
            Self::sdec(Self::senc(v) + rest) == Some((v, rest)),
    ;

    /// Appends the encoding of `self` to `out`.
    fn enc_into(&self, out: &mut Vec<u8>)
        requires
            Self::fits(self.deep_view()),
        ensures
            final(out)@ == old(out)@ + Self::senc(self.deep_view()),
    ;
}

/// The concatenated encodings of a sequence of values.
pub open spec fn senc_seq<T: Wire>(s: Seq<T::V>) -> Seq<u8>
    decreases s.len(),
{
    if s.len() == 0 {
        Seq::empty()
    } else {
        T::senc(s[0]) + senc_seq::<T>(s.skip(1))
    }
}

/// Appending one value extends the concatenated encoding at the end.
pub proof fn lemma_senc_seq_push<T: Wire>(s: Seq<T::V>, x: T::V)
    ensures
        senc_seq::<T>(s.push(x)) == senc_seq::<T>(s) + T::senc(x),
    decreases s.len(),
{
    if s.len() == 0 {
        assert(s.push(x)[0] == x);
        assert(s.push(x).skip(1) =~= Seq::<T::V>::empty());
        assert(senc_seq::<T>(s.push(x)) == T::senc(x) + senc_seq::<T>(Seq::<T::V>::empty()));
        assert(senc_seq::<T>(Seq::<T::V>::empty()) == Seq::<u8>::empty());
        assert(T::senc(x) + Seq::<u8>::empty() =~= T::senc(x));
        assert(senc_seq::<T>(s) + T::senc(x) =~= T::senc(x));
    } else {
        assert(s.push(x)[0] == s[0]);
        assert(s.push(x).skip(1) =~= s.skip(1).push(x));
        lemma_senc_seq_push::<T>(s.skip(1), x);
        assert(T::senc(s[0]) + (senc_seq::<T>(s.skip(1)) + T::senc(x)) =~= (T::senc(s[0])
            + senc_seq::<T>(s.skip(1))) + T::senc(x));
    }
}

/// Decodes `n` consecutive values from `s`.
pub open spec fn sdec_seq<T: Wire>(s: Seq<u8>, n: nat) -> Option<(Seq<T::V>, Seq<u8>)>
    decreases n,
{
    if n == 0 {
        Some((Seq::empty(), s))
    } else {
        match T::sdec(s) {
            Some((x, r)) => match sdec_seq::<T>(r, (n - 1) as nat) {
                Some((xs, r2)) => Some((seq![x] + xs, r2)),
                None => None,
            },
            None => None,
        }
    }
}

/// Round trip of the concatenated encodings of a sequence of values.
pub proof fn lemma_sdec_seq_roundtrip<T: Wire>(s: Seq<T::V>, rest: Seq<u8>)
    requires
        forall|i: int| 0 <= i < s.len() ==> T::fits(#[trigger] s[i]),
    ensures
        sdec_seq::<T>(senc_seq::<T>(s) + rest, s.len()) == Some((s, rest)),
    decreases s.len(),
{
    if s.len() == 0 {
        assert(senc_seq::<T>(s) + rest =~= rest);
    } else {
        assert(senc_seq::<T>(s) + rest =~= T::senc(s[0]) + (senc_seq::<T>(s.skip(1)) + rest));
        T::lemma_roundtrip(s[0], senc_seq::<T>(s.skip(1)) + rest);
        lemma_sdec_seq_roundtrip::<T>(s.skip(1), rest);
        assert(seq![s[0]] + s.skip(1) =~= s);
    }
}

impl Wire for u8 {
    open spec fn fits(v: u8) -> bool {
        true
    }

    open spec fn senc(v: u8) -> Seq<u8> {
        seq![v]
    }

    open spec fn sdec(s: Seq<u8>) -> Option<(u8, Seq<u8>)> {
        if s.len() >= 1 {
            Some((s[0], s.skip(1)))
        } else {
            None
        }
    }

    proof fn lemma_roundtrip(v: u8, rest: Seq<u8>) {
        assert(Self::senc(v) + rest =~= seq![v] + rest);
        assert((seq![v] + rest)[0] == v);
        assert((seq![v] + rest).skip(1) =~= rest);
    }

    fn enc_into(&self, out: &mut Vec<u8>)
        ensures
            final(out)@ == old(out)@ + Self::senc(self.deep_view()),
    {
        out.push(*self);
        proof {
            assert(old(out)@.push(*self) =~= old(out)@ + seq![*self]);
        }
    }
}

impl Wire for u16 {
    open spec fn fits(v: u16) -> bool {
        true
    }

    open spec fn senc(v: u16) -> Seq<u8> {
        spec_u16_to_le_bytes(v)
    }

    open spec fn sdec(s: Seq<u8>) -> Option<(u16, Seq<u8>)> {
        if s.len() >= 2 {
            Some((spec_u16_from_le_bytes(s.take(2)), s.skip(2)))
        } else {
            None
        }
    }

    proof fn lemma_roundtrip(v: u16, rest: Seq<u8>) {
        lemma_auto_spec_u16_to_from_le_bytes();
        assert((Self::senc(v) + rest).take(2) =~= spec_u16_to_le_bytes(v));
        assert((Self::senc(v) + rest).skip(2) =~= rest);
    }

    fn enc_into(&self, out: &mut Vec<u8>)
        ensures
            final(out)@ == old(out)@ + Self::senc(self.deep_view()),
    {
        let mut b = u16_to_le_bytes(*self);
        out.append(&mut b);
    }
}

impl Wire for u64 {
    open spec fn fits(v: u64) -> bool {
        true
    }

    open spec fn senc(v: u64) -> Seq<u8> {
        spec_u64_to_le_bytes(v)
    }

    open spec fn sdec(s: Seq<u8>) -> Option<(u64, Seq<u8>)> {
        if s.len() >= 8 {
            Some((spec_u64_from_le_bytes(s.take(8)), s.skip(8)))
        } else {
            None
        }
    }

    proof fn lemma_roundtrip(v: u64, rest: Seq<u8>) {
        lemma_auto_spec_u64_to_from_le_bytes();
        assert((Self::senc(v) + rest).take(8) =~= spec_u64_to_le_bytes(v));
        assert((Self::senc(v) + rest).skip(8) =~= rest);
    }

    fn enc_into(&self, out: &mut Vec<u8>)
        ensures
            final(out)@ == old(out)@ + Self::senc(self.deep_view()),
    {
        let mut b = u64_to_le_bytes(*self);
        out.append(&mut b);
    }
}

impl Wire for bool {
    open spec fn fits(v: bool) -> bool {
        true
    }

    open spec fn senc(v: bool) -> Seq<u8> {
        seq![if v { 1u8 } else { 0u8 }]
    }

    open spec fn sdec(s: Seq<u8>) -> Option<(bool, Seq<u8>)> {
        if s.len() >= 1 {
            if s[0] == 0 {
                Some((false, s.skip(1)))
            } else if s[0] == 1 {
                Some((true, s.skip(1)))
            } else {
                None
            }
        } else {
            None
        }
    }

    proof fn lemma_roundtrip(v: bool, rest: Seq<u8>) {
        let b: u8 = if v { 1u8 } else { 0u8 };
        assert(Self::senc(v) + rest =~= seq![b] + rest);
        assert((seq![b] + rest)[0] == b);
        assert((seq![b] + rest).skip(1) =~= rest);
    }

    fn enc_into(&self, out: &mut Vec<u8>)
        ensures
            final(out)@ == old(out)@ + Self::senc(self.deep_view()),
    {
        let b: u8 = if *self { 1 } else { 0 };
        out.push(b);
        proof {
            assert(old(out)@.push(b) =~= old(out)@ + seq![b]);
        }
    }
}

impl<T: Wire> Wire for Option<T> {
    open spec fn fits(v: Option<T::V>) -> bool {
        match v {
            None => true,
            Some(x) => T::fits(x),
        }
    }

    open spec fn senc(v: Option<T::V>) -> Seq<u8> {
        match v {
            None => seq![0u8],
            Some(x) => seq![1u8] + T::senc(x),
        }
    }

    open spec fn sdec(s: Seq<u8>) -> Option<(Option<T::V>, Seq<u8>)> {
        if s.len() >= 1 {
            if s[0] == 0 {
                Some((None, s.skip(1)))
            } else if s[0] == 1 {
                match T::sdec(s.skip(1)) {
                    Some((x, r)) => Some((Some(x), r)),
                    None => None,
                }
            } else {
                None
            }
        } else {
            None
        }
    }

    proof fn lemma_roundtrip(v: Option<T::V>, rest: Seq<u8>) {
        match v {
            None => {
                assert(Self::senc(v) + rest =~= seq![0u8] + rest);
                assert((seq![0u8] + rest)[0] == 0u8);
                assert((seq![0u8] + rest).skip(1) =~= rest);
            },
            Some(x) => {
                assert(Self::senc(v) + rest =~= seq![1u8] + (T::senc(x) + rest));
                assert((seq![1u8] + (T::senc(x) + rest))[0] == 1u8);
                assert((seq![1u8] + (T::senc(x) + rest)).skip(1) =~= T::senc(x) + rest);
                T::lemma_roundtrip(x, rest);
            },
        }
    }

    fn enc_into(&self, out: &mut Vec<u8>)
        ensures
            final(out)@ == old(out)@ + Self::senc(self.deep_view()),
    {
        match self {
            None => {
                out.push(0u8);
                proof {
                    assert(old(out)@.push(0u8) =~= old(out)@ + seq![0u8]);
                }
            },
            Some(x) => {
                out.push(1u8);
                x.enc_into(out);
                proof {
                    assert(old(out)@.push(1u8) + T::senc(x.deep_view()) =~= old(out)@ + (seq![1u8]
                        + T::senc(x.deep_view())));
                }
            },
        }
    }
}

impl<T: Wire> Wire for Vec<T> {
    open spec fn fits(v: Seq<T::V>) -> bool {
        v.len() <= WIRE_LEN_MAX && forall|i: int| 0 <= i < v.len() ==> T::fits(#[trigger] v[i])
    }

    open spec fn senc(v: Seq<T::V>) -> Seq<u8> {
        spec_u16_to_le_bytes(v.len() as u16) + senc_seq::<T>(v)
    }

    open spec fn sdec(s: Seq<u8>) -> Option<(Seq<T::V>, Seq<u8>)> {
        match <u16 as Wire>::sdec(s) {
            Some((n, r)) => sdec_seq::<T>(r, n as nat),
            None => None,
        }
    }

    proof fn lemma_roundtrip(v: Seq<T::V>, rest: Seq<u8>) {
        let len16 = v.len() as u16;
        assert(Self::senc(v) + rest =~= spec_u16_to_le_bytes(len16) + (senc_seq::<T>(v) + rest));
        <u16 as Wire>::lemma_roundtrip(len16, senc_seq::<T>(v) + rest);
        lemma_sdec_seq_roundtrip::<T>(v, rest);
        assert(len16 as nat == v.len());
    }

    fn enc_into(&self, out: &mut Vec<u8>)
        ensures
            final(out)@ == old(out)@ + Self::senc(self.deep_view()),
    {
        let n = self.len();
        proof {
            assert(self.deep_view().len() == self@.len());
        }
        let len16: u16 = n as u16;
        len16.enc_into(out);
        let ghost base = out@;
        let mut i: usize = 0;
        proof {
            assert(self.deep_view().take(0) =~= Seq::<T::V>::empty());
            assert(base + Seq::<u8>::empty() =~= base);
        }
        while i < n
            invariant
                n == self.deep_view().len(),
                n == self@.len(),
                i <= n,
                Vec::<T>::fits(self.deep_view()),
                out@ == base + senc_seq::<T>(self.deep_view().take(i as int)),
            decreases n - i,
        {
            proof {
                assert(self.deep_view()[i as int] == self@[i as int].deep_view());
                assert(T::fits(self.deep_view()[i as int]));
                lemma_senc_seq_push::<T>(
                    self.deep_view().take(i as int),
                    self.deep_view()[i as int],
                );
                assert(self.deep_view().take(i as int).push(self.deep_view()[i as int])
                    =~= self.deep_view().take(i + 1));
            }
            let ghost pre = out@;
            self[i].enc_into(out);
            proof {
                assert(pre + T::senc(self.deep_view()[i as int]) =~= base + (senc_seq::<T>(
                    self.deep_view().take(i as int),
                ) + T::senc(self.deep_view()[i as int])));
            }
            i += 1;
        }
        proof {
            assert(self.deep_view().take(n as int) =~= self.deep_view());
            assert(base + senc_seq::<T>(self.deep_view()) =~= old(out)@ + (spec_u16_to_le_bytes(
                self.deep_view().len() as u16,
            ) + senc_seq::<T>(self.deep_view())));
        }
    }
}

impl<A: Wire, B: Wire> Wire for (A, B) {
    open spec fn fits(v: (A::V, B::V)) -> bool {
        A::fits(v.0) && B::fits(v.1)
    }

    open spec fn senc(v: (A::V, B::V)) -> Seq<u8> {
        A::senc(v.0) + B::senc(v.1)
    }

    open spec fn sdec(s: Seq<u8>) -> Option<((A::V, B::V), Seq<u8>)> {
        match A::sdec(s) {
            Some((a, r)) => match B::sdec(r) {
                Some((b, r2)) => Some(((a, b), r2)),
                None => None,
            },
            None => None,
        }
    }

    proof fn lemma_roundtrip(v: (A::V, B::V), rest: Seq<u8>) {
        assert(Self::senc(v) + rest =~= A::senc(v.0) + (B::senc(v.1) + rest));
        A::lemma_roundtrip(v.0, B::senc(v.1) + rest);
        B::lemma_roundtrip(v.1, rest);
        assert((v.0, v.1) == v);
    }

    fn enc_into(&self, out: &mut Vec<u8>)
        ensures
            final(out)@ == old(out)@ + Self::senc(self.deep_view()),
    {
        self.0.enc_into(out);
        self.1.enc_into(out);
        proof {
            assert((old(out)@ + A::senc(self.0.deep_view())) + B::senc(self.1.deep_view())
                =~= old(out)@ + (A::senc(self.0.deep_view()) + B::senc(self.1.deep_view())));
        }
    }
}

impl Wire for Occurrence {
    open spec fn fits(v: Occurrence) -> bool {
        true
    }

    open spec fn senc(v: Occurrence) -> Seq<u8> {
        match v {
            Occurrence::Once => seq![0u8],
            Occurrence::NoneOrOnce => seq![1u8],
            Occurrence::OnceOrMore => seq![2u8],
            Occurrence::ZeroOrMore => seq![3u8],
        }
    }

    open spec fn sdec(s: Seq<u8>) -> Option<(Occurrence, Seq<u8>)> {
        if s.len() >= 1 {
            if s[0] == 0 {
                Some((Occurrence::Once, s.skip(1)))
            } else if s[0] == 1 {
                Some((Occurrence::NoneOrOnce, s.skip(1)))
            } else if s[0] == 2 {
                Some((Occurrence::OnceOrMore, s.skip(1)))
            } else if s[0] == 3 {
                Some((Occurrence::ZeroOrMore, s.skip(1)))
            } else {
                None
            }
        } else {
            None
        }
    }

    proof fn lemma_roundtrip(v: Occurrence, rest: Seq<u8>) {
        match v {
            Occurrence::Once => {
                assert(Self::senc(v) + rest =~= seq![0u8] + rest);
                assert((seq![0u8] + rest)[0] == 0u8);
                assert((seq![0u8] + rest).skip(1) =~= rest);
            },
            Occurrence::NoneOrOnce => {
                assert(Self::senc(v) + rest =~= seq![1u8] + rest);
                assert((seq![1u8] + rest)[0] == 1u8);
                assert((seq![1u8] + rest).skip(1) =~= rest);
            },
            Occurrence::OnceOrMore => {
                assert(Self::senc(v) + rest =~= seq![2u8] + rest);
                assert((seq![2u8] + rest)[0] == 2u8);
                assert((seq![2u8] + rest).skip(1) =~= rest);
            },
            Occurrence::ZeroOrMore => {
                assert(Self::senc(v) + rest =~= seq![3u8] + rest);
                assert((seq![3u8] + rest)[0] == 3u8);
                assert((seq![3u8] + rest).skip(1) =~= rest);
            },
        }
    }

    fn enc_into(&self, out: &mut Vec<u8>)
        ensures
            final(out)@ == old(out)@ + Self::senc(self.deep_view()),
    {
        let tag: u8 = match self {
            Occurrence::Once => 0,
            Occurrence::NoneOrOnce => 1,
            Occurrence::OnceOrMore => 2,
            Occurrence::ZeroOrMore => 3,
        };
        out.push(tag);
        proof {
            assert(old(out)@.push(tag) =~= old(out)@ + seq![tag]);
        }
    }
}

impl Wire for Req {
    open spec fn fits(v: Req) -> bool {
        true
    }

    open spec fn senc(v: Req) -> Seq<u8> {
        match v {
            Req::Required => seq![0u8],
            Req::OneOrMany => seq![1u8],
        }
    }

    open spec fn sdec(s: Seq<u8>) -> Option<(Req, Seq<u8>)> {
        if s.len() >= 1 {
            if s[0] == 0 {
                Some((Req::Required, s.skip(1)))
            } else if s[0] == 1 {
                Some((Req::OneOrMany, s.skip(1)))
            } else {
                None
            }
        } else {
            None
        }
    }

    proof fn lemma_roundtrip(v: Req, rest: Seq<u8>) {
        match v {
            Req::Required => {
                assert(Self::senc(v) + rest =~= seq![0u8] + rest);
                assert((seq![0u8] + rest)[0] == 0u8);
                assert((seq![0u8] + rest).skip(1) =~= rest);
            },
            Req::OneOrMany => {
                assert(Self::senc(v) + rest =~= seq![1u8] + rest);
                assert((seq![1u8] + rest)[0] == 1u8);
                assert((seq![1u8] + rest).skip(1) =~= rest);
            },
        }
    }

    fn enc_into(&self, out: &mut Vec<u8>)
        ensures
            final(out)@ == old(out)@ + Self::senc(self.deep_view()),
    {
        let tag: u8 = match self {
            Req::Required => 0,
            Req::OneOrMany => 1,
        };
        out.push(tag);
        proof {
            assert(old(out)@.push(tag) =~= old(out)@ + seq![tag]);
        }
    }
}

impl Wire for VerNo {
    open spec fn fits(v: VerNo) -> bool {
        true
    }

    open spec fn senc(v: VerNo) -> Seq<u8> {
        seq![0u8]
    }

    open spec fn sdec(s: Seq<u8>) -> Option<(VerNo, Seq<u8>)> {
        if s.len() >= 1 {
            if s[0] == 0 {
                Some((VerNo::V1, s.skip(1)))
            } else {
                None
            }
        } else {
            None
        }
    }

    proof fn lemma_roundtrip(v: VerNo, rest: Seq<u8>) {
        assert(Self::senc(v) + rest =~= seq![0u8] + rest);
        assert((seq![0u8] + rest)[0] == 0u8);
        assert((seq![0u8] + rest).skip(1) =~= rest);
        assert(v == VerNo::V1);
    }

    fn enc_into(&self, out: &mut Vec<u8>)
        ensures
            final(out)@ == old(out)@ + Self::senc(self.deep_view()),
    {
        out.push(0u8);
        proof {
            assert(old(out)@.push(0u8) =~= old(out)@ + seq![0u8]);
        }
    }
}

impl Wire for FungibleType {
    open spec fn fits(v: FungibleType) -> bool {
        true
    }

    open spec fn senc(v: FungibleType) -> Seq<u8> {
        seq![0u8]
    }

    open spec fn sdec(s: Seq<u8>) -> Option<(FungibleType, Seq<u8>)> {
        if s.len() >= 1 {
            if s[0] == 0 {
                Some((FungibleType::Unsigned64Bit, s.skip(1)))
            } else {
                None
            }
        } else {
            None
        }
    }

    proof fn lemma_roundtrip(v: FungibleType, rest: Seq<u8>) {
        assert(Self::senc(v) + rest =~= seq![0u8] + rest);
        assert((seq![0u8] + rest)[0] == 0u8);
        assert((seq![0u8] + rest).skip(1) =~= rest);
        assert(v == FungibleType::Unsigned64Bit);
    }

    fn enc_into(&self, out: &mut Vec<u8>)
        ensures
            final(out)@ == old(out)@ + Self::senc(self.deep_view()),
    {
        out.push(0u8);
        proof {
            assert(old(out)@.push(0u8) =~= old(out)@ + seq![0u8]);
        }
    }
}

impl Wire for OwnedIface {
    open spec fn fits(v: OwnedIface) -> bool {
        true
    }

    open spec fn senc(v: OwnedIface) -> Seq<u8> {
        match v {
            OwnedIface::Rights => seq![0u8],
            OwnedIface::Amount => seq![1u8],
            OwnedIface::Data(t) => seq![2u8] + spec_u64_to_le_bytes(t),
        }
    }

    open spec fn sdec(s: Seq<u8>) -> Option<(OwnedIface, Seq<u8>)> {
        if s.len() >= 1 {
            if s[0] == 0 {
                Some((OwnedIface::Rights, s.skip(1)))
            } else if s[0] == 1 {
                Some((OwnedIface::Amount, s.skip(1)))
            } else if s[0] == 2 {
                match <u64 as Wire>::sdec(s.skip(1)) {
                    Some((t, r)) => Some((OwnedIface::Data(t), r)),
                    None => None,
                }
            } else {
                None
            }
        } else {
            None
        }
    }

    proof fn lemma_roundtrip(v: OwnedIface, rest: Seq<u8>) {
        match v {
            OwnedIface::Rights => {
                assert(Self::senc(v) + rest =~= seq![0u8] + rest);
                assert((seq![0u8] + rest)[0] == 0u8);
                assert((seq![0u8] + rest).skip(1) =~= rest);
            },
            OwnedIface::Amount => {
                assert(Self::senc(v) + rest =~= seq![1u8] + rest);
                assert((seq![1u8] + rest)[0] == 1u8);
                assert((seq![1u8] + rest).skip(1) =~= rest);
            },
            OwnedIface::Data(t) => {
                assert(Self::senc(v) + rest =~= seq![2u8] + (spec_u64_to_le_bytes(t) + rest));
                assert((seq![2u8] + (spec_u64_to_le_bytes(t) + rest))[0] == 2u8);
                assert((seq![2u8] + (spec_u64_to_le_bytes(t) + rest)).skip(1)
                    =~= spec_u64_to_le_bytes(t) + rest);
                <u64 as Wire>::lemma_roundtrip(t, rest);
            },
        }
    }

    fn enc_into(&self, out: &mut Vec<u8>)
        ensures
            final(out)@ == old(out)@ + Self::senc(self.deep_view()),
    {
        match self {
            OwnedIface::Rights => {
                out.push(0u8);
                proof {
                    assert(old(out)@.push(0u8) =~= old(out)@ + seq![0u8]);
                }
            },
            OwnedIface::Amount => {
                out.push(1u8);
                proof {
                    assert(old(out)@.push(1u8) =~= old(out)@ + seq![1u8]);
                }
            },
            OwnedIface::Data(t) => {
                out.push(2u8);
                t.enc_into(out);
                proof {
                    assert(old(out)@.push(2u8) + spec_u64_to_le_bytes(*t) =~= old(out)@ + (
                    seq![2u8] + spec_u64_to_le_bytes(*t)));
                }
            },
        }
    }
}

impl Wire for StateSchema {
    open spec fn fits(v: StateSchema) -> bool {
        true
    }

    open spec fn senc(v: StateSchema) -> Seq<u8> {
        match v {
            StateSchema::Declarative => seq![0u8],
            StateSchema::Fungible(f) => seq![1u8] + FungibleType::senc(f),
            StateSchema::Structured(t) => seq![2u8] + spec_u64_to_le_bytes(t),
        }
    }

    open spec fn sdec(s: Seq<u8>) -> Option<(StateSchema, Seq<u8>)> {
        if s.len() >= 1 {
            if s[0] == 0 {
                Some((StateSchema::Declarative, s.skip(1)))
            } else if s[0] == 1 {
                match FungibleType::sdec(s.skip(1)) {
                    Some((f, r)) => Some((StateSchema::Fungible(f), r)),
                    None => None,
                }
            } else if s[0] == 2 {
                match <u64 as Wire>::sdec(s.skip(1)) {
                    Some((t, r)) => Some((StateSchema::Structured(t), r)),
                    None => None,
                }
            } else {
                None
            }
        } else {
            None
        }
    }

    proof fn lemma_roundtrip(v: StateSchema, rest: Seq<u8>) {
        match v {
            StateSchema::Declarative => {
                assert(Self::senc(v) + rest =~= seq![0u8] + rest);
                assert((seq![0u8] + rest)[0] == 0u8);
                assert((seq![0u8] + rest).skip(1) =~= rest);
            },
            StateSchema::Fungible(f) => {
                assert(Self::senc(v) + rest =~= seq![1u8] + (FungibleType::senc(f) + rest));
                assert((seq![1u8] + (FungibleType::senc(f) + rest))[0] == 1u8);
                assert((seq![1u8] + (FungibleType::senc(f) + rest)).skip(1) =~= FungibleType::senc(
                    f,
                ) + rest);
                FungibleType::lemma_roundtrip(f, rest);
            },
            StateSchema::Structured(t) => {
                assert(Self::senc(v) + rest =~= seq![2u8] + (spec_u64_to_le_bytes(t) + rest));
                assert((seq![2u8] + (spec_u64_to_le_bytes(t) + rest))[0] == 2u8);
                assert((seq![2u8] + (spec_u64_to_le_bytes(t) + rest)).skip(1)
                    =~= spec_u64_to_le_bytes(t) + rest);
                <u64 as Wire>::lemma_roundtrip(t, rest);
            },
        }
    }

    fn enc_into(&self, out: &mut Vec<u8>)
        ensures
            final(out)@ == old(out)@ + Self::senc(self.deep_view()),
    {
        match self {
            StateSchema::Declarative => {
                out.push(0u8);
                proof {
                    assert(old(out)@.push(0u8) =~= old(out)@ + seq![0u8]);
                }
            },
            StateSchema::Fungible(f) => {
                out.push(1u8);
                f.enc_into(out);
                proof {
                    assert(old(out)@.push(1u8) + FungibleType::senc(f.deep_view()) =~= old(out)@
                        + (seq![1u8] + FungibleType::senc(f.deep_view())));
                }
            },
            StateSchema::Structured(t) => {
                out.push(2u8);
                t.enc_into(out);
                proof {
                    assert(old(out)@.push(2u8) + spec_u64_to_le_bytes(*t) =~= old(out)@ + (
                    seq![2u8] + spec_u64_to_le_bytes(*t)));
                }
            },
        }
    }
}

impl Wire for EntryPoint {
    open spec fn fits(v: EntryPoint) -> bool {
        true
    }

    open spec fn senc(v: EntryPoint) -> Seq<u8> {
        match v {
            EntryPoint::ValidateGenesis => seq![0u8],
            EntryPoint::ValidateTransition(id) => seq![1u8] + spec_u16_to_le_bytes(id),
            EntryPoint::ValidateOwnedState(id) => seq![2u8] + spec_u16_to_le_bytes(id),
        }
    }

    open spec fn sdec(s: Seq<u8>) -> Option<(EntryPoint, Seq<u8>)> {
        if s.len() >= 1 {
            if s[0] == 0 {
                Some((EntryPoint::ValidateGenesis, s.skip(1)))
            } else if s[0] == 1 {
                match <u16 as Wire>::sdec(s.skip(1)) {
                    Some((id, r)) => Some((EntryPoint::ValidateTransition(id), r)),
                    None => None,
                }
            } else if s[0] == 2 {
                match <u16 as Wire>::sdec(s.skip(1)) {
                    Some((id, r)) => Some((EntryPoint::ValidateOwnedState(id), r)),
                    None => None,
                }
            } else {
                None
            }
        } else {
            None
        }
    }

    proof fn lemma_roundtrip(v: EntryPoint, rest: Seq<u8>) {
        match v {
            EntryPoint::ValidateGenesis => {
                assert(Self::senc(v) + rest =~= seq![0u8] + rest);
                assert((seq![0u8] + rest)[0] == 0u8);
                assert((seq![0u8] + rest).skip(1) =~= rest);
            },
            EntryPoint::ValidateTransition(id) => {
                assert(Self::senc(v) + rest =~= seq![1u8] + (spec_u16_to_le_bytes(id) + rest));
                assert((seq![1u8] + (spec_u16_to_le_bytes(id) + rest))[0] == 1u8);
                assert((seq![1u8] + (spec_u16_to_le_bytes(id) + rest)).skip(1)
                    =~= spec_u16_to_le_bytes(id) + rest);
                <u16 as Wire>::lemma_roundtrip(id, rest);
            },
            EntryPoint::ValidateOwnedState(id) => {
                assert(Self::senc(v) + rest =~= seq![2u8] + (spec_u16_to_le_bytes(id) + rest));
                assert((seq![2u8] + (spec_u16_to_le_bytes(id) + rest))[0] == 2u8);
                assert((seq![2u8] + (spec_u16_to_le_bytes(id) + rest)).skip(1)
                    =~= spec_u16_to_le_bytes(id) + rest);
                <u16 as Wire>::lemma_roundtrip(id, rest);
            },
        }
    }

    fn enc_into(&self, out: &mut Vec<u8>)
        ensures
            final(out)@ == old(out)@ + Self::senc(self.deep_view()),
    {
        match self {
            EntryPoint::ValidateGenesis => {
                out.push(0u8);
                proof {
                    assert(old(out)@.push(0u8) =~= old(out)@ + seq![0u8]);
                }
            },
            EntryPoint::ValidateTransition(id) => {
                out.push(1u8);
                id.enc_into(out);
                proof {
                    assert(old(out)@.push(1u8) + spec_u16_to_le_bytes(*id) =~= old(out)@ + (
                    seq![1u8] + spec_u16_to_le_bytes(*id)));
                }
            },
            EntryPoint::ValidateOwnedState(id) => {
                out.push(2u8);
                id.enc_into(out);
                proof {
                    assert(old(out)@.push(2u8) + spec_u16_to_le_bytes(*id) =~= old(out)@ + (
                    seq![2u8] + spec_u16_to_le_bytes(*id)));
                }
            },
        }
    }
}

impl Wire for LibSite {
    open spec fn fits(v: LibSite) -> bool {
        true
    }

    open spec fn senc(v: LibSite) -> Seq<u8> {
        spec_u64_to_le_bytes(v.lib) + spec_u16_to_le_bytes(v.pos)
    }

    open spec fn sdec(s: Seq<u8>) -> Option<(LibSite, Seq<u8>)> {
        match <u64 as Wire>::sdec(s) {
            Some((f0, s0)) =>
                match <u16 as Wire>::sdec(s0) {
                    Some((f1, s1)) => Some((
                        LibSite { lib: f0, pos: f1 },
                        s1,
                    )),
                    None => None,
                },
            None => None,
        }
    }

    proof fn lemma_roundtrip(v: LibSite, rest: Seq<u8>) {
        let t2 = rest;
        let t1 = <u16 as Wire>::senc(v.pos) + t2;
        let t0 = <u64 as Wire>::senc(v.lib) + t1;
        assert(Self::senc(v) + rest =~= t0);
        <u64 as Wire>::lemma_roundtrip(v.lib, t1);
        <u16 as Wire>::lemma_roundtrip(v.pos, t2);
        assert((LibSite { lib: v.lib, pos: v.pos }) == v);
    }

    fn enc_into(&self, out: &mut Vec<u8>)
        ensures
            final(out)@ == old(out)@ + Self::senc(self.deep_view()),
    {
        self.lib.enc_into(out);
        self.pos.enc_into(out);
        proof {
            assert((old(out)@ + spec_u64_to_le_bytes(self.lib)) + spec_u16_to_le_bytes(self.pos)
                =~= old(out)@ + (spec_u64_to_le_bytes(self.lib) + spec_u16_to_le_bytes(self.pos)));
        }
    }
}

impl Wire for GlobalIface {
    open spec fn fits(v: GlobalIface) -> bool {
        true
    }

    open spec fn senc(v: GlobalIface) -> Seq<u8> {
        spec_u64_to_le_bytes(v.sem_type) + Req::senc(v.req)
    }

    open spec fn sdec(s: Seq<u8>) -> Option<(GlobalIface, Seq<u8>)> {
        match <u64 as Wire>::sdec(s) {
            Some((f0, s0)) =>
                match <Req as Wire>::sdec(s0) {
                    Some((f1, s1)) => Some((
                        GlobalIface { sem_type: f0, req: f1 },
                        s1,
                    )),
                    None => None,
                },
            None => None,
        }
    }

    proof fn lemma_roundtrip(v: GlobalIface, rest: Seq<u8>) {
        let t2 = rest;
        let t1 = <Req as Wire>::senc(v.req) + t2;
        let t0 = <u64 as Wire>::senc(v.sem_type) + t1;
        assert(Self::senc(v) + rest =~= t0);
        <u64 as Wire>::lemma_roundtrip(v.sem_type, t1);
        <Req as Wire>::lemma_roundtrip(v.req, t2);
        assert((GlobalIface { sem_type: v.sem_type, req: v.req }) == v);
    }

    fn enc_into(&self, out: &mut Vec<u8>)
        ensures
            final(out)@ == old(out)@ + Self::senc(self.deep_view()),
    {
        self.sem_type.enc_into(out);
        self.req.enc_into(out);
        proof {
            assert((old(out)@ + spec_u64_to_le_bytes(self.sem_type)) + Req::senc(self.req)
                =~= old(out)@ + (spec_u64_to_le_bytes(self.sem_type) + Req::senc(self.req)));
        }
    }
}

impl Wire for AssignIface {
    open spec fn fits(v: AssignIface) -> bool {
        true
    }

    open spec fn senc(v: AssignIface) -> Seq<u8> {
        OwnedIface::senc(v.owned) + Req::senc(v.req)
    }

    open spec fn sdec(s: Seq<u8>) -> Option<(AssignIface, Seq<u8>)> {
        match <OwnedIface as Wire>::sdec(s) {
            Some((f0, s0)) =>
                match <Req as Wire>::sdec(s0) {
                    Some((f1, s1)) => Some((
                        AssignIface { owned: f0, req: f1 },
                        s1,
                    )),
                    None => None,
                },
            None => None,
        }
    }

    proof fn lemma_roundtrip(v: AssignIface, rest: Seq<u8>) {
        let t2 = rest;
        let t1 = <Req as Wire>::senc(v.req) + t2;
        let t0 = <OwnedIface as Wire>::senc(v.owned) + t1;
        assert(Self::senc(v) + rest =~= t0);
        <OwnedIface as Wire>::lemma_roundtrip(v.owned, t1);
        <Req as Wire>::lemma_roundtrip(v.req, t2);
        assert((AssignIface { owned: v.owned, req: v.req }) == v);
    }

    fn enc_into(&self, out: &mut Vec<u8>)
        ensures
            final(out)@ == old(out)@ + Self::senc(self.deep_view()),
    {
        self.owned.enc_into(out);
        self.req.enc_into(out);
        proof {
            assert((old(out)@ + OwnedIface::senc(self.owned)) + Req::senc(self.req) =~= old(out)@
                + (OwnedIface::senc(self.owned) + Req::senc(self.req)));
        }
    }
}

impl Wire for GlobalStateSchema {
    open spec fn fits(v: GlobalStateSchema) -> bool {
        true
    }

    open spec fn senc(v: GlobalStateSchema) -> Seq<u8> {
        spec_u64_to_le_bytes(v.sem_type) + Occurrence::senc(v.occurrence)
    }

    open spec fn sdec(s: Seq<u8>) -> Option<(GlobalStateSchema, Seq<u8>)> {
        match <u64 as Wire>::sdec(s) {
            Some((f0, s0)) =>
                match <Occurrence as Wire>::sdec(s0) {
                    Some((f1, s1)) => Some((
                        GlobalStateSchema { sem_type: f0, occurrence: f1 },
                        s1,
                    )),
                    None => None,
                },
            None => None,
        }
    }

    proof fn lemma_roundtrip(v: GlobalStateSchema, rest: Seq<u8>) {
        let t2 = rest;
        let t1 = <Occurrence as Wire>::senc(v.occurrence) + t2;
        let t0 = <u64 as Wire>::senc(v.sem_type) + t1;
        assert(Self::senc(v) + rest =~= t0);
        <u64 as Wire>::lemma_roundtrip(v.sem_type, t1);
        <Occurrence as Wire>::lemma_roundtrip(v.occurrence, t2);
        assert((GlobalStateSchema { sem_type: v.sem_type, occurrence: v.occurrence }) == v);
    }

    fn enc_into(&self, out: &mut Vec<u8>)
        ensures
            final(out)@ == old(out)@ + Self::senc(self.deep_view()),
    {
        self.sem_type.enc_into(out);
        self.occurrence.enc_into(out);
        proof {
            assert((old(out)@ + spec_u64_to_le_bytes(self.sem_type)) + Occurrence::senc(
                self.occurrence,
            ) =~= old(out)@ + (spec_u64_to_le_bytes(self.sem_type) + Occurrence::senc(
                self.occurrence,
            )));
        }
    }
}

impl Wire for ArgSpec {
    open spec fn fits(v: ArgSpecV) -> bool {
        <Option<FieldName> as Wire>::fits(v.name)
    }

    open spec fn senc(v: ArgSpecV) -> Seq<u8> {
        <Option<FieldName> as Wire>::senc(v.name) + Req::senc(v.req)
    }

    open spec fn sdec(s: Seq<u8>) -> Option<(ArgSpecV, Seq<u8>)> {
        match <Option<FieldName> as Wire>::sdec(s) {
            Some((f0, s0)) =>
                match <Req as Wire>::sdec(s0) {
                    Some((f1, s1)) => Some((
                        ArgSpecV { name: f0, req: f1 },
                        s1,
                    )),
                    None => None,
                },
            None => None,
        }
    }

    proof fn lemma_roundtrip(v: ArgSpecV, rest: Seq<u8>) {
        let t2 = rest;
        let t1 = <Req as Wire>::senc(v.req) + t2;
        let t0 = <Option<FieldName> as Wire>::senc(v.name) + t1;
        assert(Self::senc(v) + rest =~= t0);
        <Option<FieldName> as Wire>::lemma_roundtrip(v.name, t1);
        <Req as Wire>::lemma_roundtrip(v.req, t2);
        assert((ArgSpecV { name: v.name, req: v.req }) =~= v);
    }

    fn enc_into(&self, out: &mut Vec<u8>)
        ensures
            final(out)@ == old(out)@ + Self::senc(self.deep_view()),
    {
        self.name.enc_into(out);
        self.req.enc_into(out);
        proof {
            assert((old(out)@ + <Option<FieldName> as Wire>::senc(self.name.deep_view()))
                + Req::senc(self.req) =~= old(out)@ + (<Option<FieldName> as Wire>::senc(
                self.name.deep_view(),
            ) + Req::senc(self.req)));
        }
    }
}

impl Wire for FieldName {
    open spec fn fits(v: Seq<u8>) -> bool {
        v.len() <= WIRE_LEN_MAX
    }

    open spec fn senc(v: Seq<u8>) -> Seq<u8> {
        spec_u16_to_le_bytes(v.len() as u16) + v
    }

    open spec fn sdec(s: Seq<u8>) -> Option<(Seq<u8>, Seq<u8>)> {
        match <u16 as Wire>::sdec(s) {
            Some((n, r)) => if r.len() >= n {
                Some((r.take(n as int), r.skip(n as int)))
            } else {
                None
            },
            None => None,
        }
    }

    proof fn lemma_roundtrip(v: Seq<u8>, rest: Seq<u8>) {
        let len16 = v.len() as u16;
        assert(Self::senc(v) + rest =~= spec_u16_to_le_bytes(len16) + (v + rest));
        <u16 as Wire>::lemma_roundtrip(len16, v + rest);
        assert((v + rest).take(len16 as int) =~= v);
        assert((v + rest).skip(len16 as int) =~= rest);
    }

    fn enc_into(&self, out: &mut Vec<u8>)
        ensures
            final(out)@ == old(out)@ + Self::senc(self.deep_view()),
    {
        let len16: u16 = self.bytes.len() as u16;
        len16.enc_into(out);
        out.extend_from_slice(self.bytes.as_slice());
        proof {
            assert((old(out)@ + spec_u16_to_le_bytes(self@.len() as u16)) + self@ =~= old(out)@ + (
            spec_u16_to_le_bytes(self@.len() as u16) + self@));
        }
    }
}

impl Wire for GenesisIface {
    open spec fn fits(v: GenesisIfaceV) -> bool {
        &&& <Vec<(FieldName, ArgSpec)> as Wire>::fits(v.global)
        &&& <Vec<(FieldName, Occurrence)> as Wire>::fits(v.assignments)
        &&& <Vec<FieldName> as Wire>::fits(v.valencies)
        &&& <Vec<u8> as Wire>::fits(v.errors)
    }

    open spec fn senc(v: GenesisIfaceV) -> Seq<u8> {
        <Option<u64> as Wire>::senc(v.metadata) + <Vec<(FieldName, ArgSpec)> as Wire>::senc(
            v.global,
        ) + <Vec<(FieldName, Occurrence)> as Wire>::senc(v.assignments) + <Vec<
            FieldName,
        > as Wire>::senc(v.valencies) + <Vec<u8> as Wire>::senc(v.errors)
    }

    open spec fn sdec(s: Seq<u8>) -> Option<(GenesisIfaceV, Seq<u8>)> {
        match <Option<u64> as Wire>::sdec(s) {
            Some((f0, s0)) =>
                match <Vec<(FieldName, ArgSpec)> as Wire>::sdec(s0) {
                    Some((f1, s1)) =>
                        match <Vec<(FieldName, Occurrence)> as Wire>::sdec(s1) {
                            Some((f2, s2)) =>
                                match <Vec<FieldName> as Wire>::sdec(s2) {
                                    Some((f3, s3)) =>
                                        match <Vec<u8> as Wire>::sdec(s3) {
                                            Some((f4, s4)) => Some((
                                                GenesisIfaceV { metadata: f0, global: f1, assignments: f2, valencies: f3, errors: f4 },
                                                s4,
                                            )),
                                            None => None,
                                        },
                                    None => None,
                                },
                            None => None,
                        },
                    None => None,
                },
            None => None,
        }
    }

    proof fn lemma_roundtrip(v: GenesisIfaceV, rest: Seq<u8>) {
        let t5 = rest;
        let t4 = <Vec<u8> as Wire>::senc(v.errors) + t5;
        let t3 = <Vec<FieldName> as Wire>::senc(v.valencies) + t4;
        let t2 = <Vec<(FieldName, Occurrence)> as Wire>::senc(v.assignments) + t3;
        let t1 = <Vec<(FieldName, ArgSpec)> as Wire>::senc(v.global) + t2;
        let t0 = <Option<u64> as Wire>::senc(v.metadata) + t1;
        assert(Self::senc(v) + rest =~= t0);
        <Option<u64> as Wire>::lemma_roundtrip(v.metadata, t1);
        <Vec<(FieldName, ArgSpec)> as Wire>::lemma_roundtrip(v.global, t2);
        <Vec<(FieldName, Occurrence)> as Wire>::lemma_roundtrip(v.assignments, t3);
        <Vec<FieldName> as Wire>::lemma_roundtrip(v.valencies, t4);
        <Vec<u8> as Wire>::lemma_roundtrip(v.errors, t5);
        assert((GenesisIfaceV { metadata: v.metadata, global: v.global, assignments: v.assignments, valencies: v.valencies, errors: v.errors }) =~= v);
    }

    fn enc_into(&self, out: &mut Vec<u8>)
        ensures
            final(out)@ == old(out)@ + Self::senc(self.deep_view()),
    {
        self.metadata.enc_into(out);
        self.global.enc_into(out);
        self.assignments.enc_into(out);
        self.valencies.enc_into(out);
        self.errors.enc_into(out);
        proof {
            assert(out@ =~= old(out)@ + Self::senc(self.deep_view()));
        }
    }
}

impl Wire for TransitionIface {
    open spec fn fits(v: TransitionIfaceV) -> bool {
        &&& <Vec<(FieldName, ArgSpec)> as Wire>::fits(v.globals)
        &&& <Vec<(FieldName, ArgSpec)> as Wire>::fits(v.inputs)
        &&& <Vec<FieldName> as Wire>::fits(v.valencies)
        &&& <Vec<u8> as Wire>::fits(v.errors)
        &&& <Option<FieldName> as Wire>::fits(v.default_assignment)
    }

    open spec fn senc(v: TransitionIfaceV) -> Seq<u8> {
        bool::senc(v.optional) + <Option<u64> as Wire>::senc(v.metadata) + <Vec<
            (FieldName, ArgSpec),
        > as Wire>::senc(v.globals) + <Vec<(FieldName, ArgSpec)> as Wire>::senc(v.inputs) + <Vec<
            FieldName,
        > as Wire>::senc(v.valencies) + <Vec<u8> as Wire>::senc(v.errors) + <Option<
            FieldName,
        > as Wire>::senc(v.default_assignment)
    }

    open spec fn sdec(s: Seq<u8>) -> Option<(TransitionIfaceV, Seq<u8>)> {
        match <bool as Wire>::sdec(s) {
            Some((f0, s0)) =>
                match <Option<u64> as Wire>::sdec(s0) {
                    Some((f1, s1)) =>
                        match <Vec<(FieldName, ArgSpec)> as Wire>::sdec(s1) {
                            Some((f2, s2)) =>
                                match <Vec<(FieldName, ArgSpec)> as Wire>::sdec(s2) {
                                    Some((f3, s3)) =>
                                        match <Vec<FieldName> as Wire>::sdec(s3) {
                                            Some((f4, s4)) =>
                                                match <Vec<u8> as Wire>::sdec(s4) {
                                                    Some((f5, s5)) =>
                                                        match <Option<FieldName> as Wire>::sdec(s5) {
                                                            Some((f6, s6)) => Some((
                                                                TransitionIfaceV { optional: f0, metadata: f1, globals: f2, inputs: f3, valencies: f4, errors: f5, default_assignment: f6 },
                                                                s6,
                                                            )),
                                                            None => None,
                                                        },
                                                    None => None,
                                                },
                                            None => None,
                                        },
                                    None => None,
                                },
                            None => None,
                        },
                    None => None,
                },
            None => None,
        }
    }

    #[verifier::rlimit(100)]
    #[verifier::spinoff_prover]
    proof fn lemma_roundtrip(v: TransitionIfaceV, rest: Seq<u8>) {
        let t7 = rest;
        let t6 = <Option<FieldName> as Wire>::senc(v.default_assignment) + t7;
        let t5 = <Vec<u8> as Wire>::senc(v.errors) + t6;
        let t4 = <Vec<FieldName> as Wire>::senc(v.valencies) + t5;
        let t3 = <Vec<(FieldName, ArgSpec)> as Wire>::senc(v.inputs) + t4;
        let t2 = <Vec<(FieldName, ArgSpec)> as Wire>::senc(v.globals) + t3;
        let t1 = <Option<u64> as Wire>::senc(v.metadata) + t2;
        let t0 = <bool as Wire>::senc(v.optional) + t1;
        assert(Self::senc(v) + rest =~= t0);
        <bool as Wire>::lemma_roundtrip(v.optional, t1);
        <Option<u64> as Wire>::lemma_roundtrip(v.metadata, t2);
        <Vec<(FieldName, ArgSpec)> as Wire>::lemma_roundtrip(v.globals, t3);
        <Vec<(FieldName, ArgSpec)> as Wire>::lemma_roundtrip(v.inputs, t4);
        <Vec<FieldName> as Wire>::lemma_roundtrip(v.valencies, t5);
        <Vec<u8> as Wire>::lemma_roundtrip(v.errors, t6);
        <Option<FieldName> as Wire>::lemma_roundtrip(v.default_assignment, t7);
        assert((TransitionIfaceV { optional: v.optional, metadata: v.metadata, globals: v.globals, inputs: v.inputs, valencies: v.valencies, errors: v.errors, default_assignment: v.default_assignment }) =~= v);
    }

    fn enc_into(&self, out: &mut Vec<u8>)
        ensures
            final(out)@ == old(out)@ + Self::senc(self.deep_view()),
    {
        self.optional.enc_into(out);
        self.metadata.enc_into(out);
        self.globals.enc_into(out);
        self.inputs.enc_into(out);
        self.valencies.enc_into(out);
        self.errors.enc_into(out);
        self.default_assignment.enc_into(out);
        proof {
            assert(out@ =~= old(out)@ + Self::senc(self.deep_view()));
        }
    }
}

impl Wire for Iface {
    open spec fn fits(v: IfaceV) -> bool {
        &&& FieldName::fits(v.name)
        &&& <Vec<(FieldName, GlobalIface)> as Wire>::fits(v.global_state)
        &&& <Vec<(FieldName, AssignIface)> as Wire>::fits(v.assignments)
        &&& GenesisIface::fits(v.genesis)
        &&& <Vec<(FieldName, TransitionIface)> as Wire>::fits(v.transitions)
        &&& <Option<FieldName> as Wire>::fits(v.default_operation)
    }

    open spec fn senc(v: IfaceV) -> Seq<u8> {
        VerNo::senc(v.version) + FieldName::senc(v.name) + <Vec<
            (FieldName, GlobalIface),
        > as Wire>::senc(v.global_state) + <Vec<(FieldName, AssignIface)> as Wire>::senc(
            v.assignments,
        ) + GenesisIface::senc(v.genesis) + <Vec<(FieldName, TransitionIface)> as Wire>::senc(
            v.transitions,
        ) + spec_u64_to_le_bytes(v.error_type) + <Option<FieldName> as Wire>::senc(
            v.default_operation,
        )
    }

    open spec fn sdec(s: Seq<u8>) -> Option<(IfaceV, Seq<u8>)> {
        match <VerNo as Wire>::sdec(s) {
            Some((f0, s0)) =>
                match <FieldName as Wire>::sdec(s0) {
                    Some((f1, s1)) =>
                        match <Vec<(FieldName, GlobalIface)> as Wire>::sdec(s1) {
                            Some((f2, s2)) =>
                                match <Vec<(FieldName, AssignIface)> as Wire>::sdec(s2) {
                                    Some((f3, s3)) =>
                                        match <GenesisIface as Wire>::sdec(s3) {
                                            Some((f4, s4)) =>
                                                match <Vec<(FieldName, TransitionIface)> as Wire>::sdec(s4) {
                                                    Some((f5, s5)) =>
                                                        match <u64 as Wire>::sdec(s5) {
                                                            Some((f6, s6)) =>
                                                                match <Option<FieldName> as Wire>::sdec(s6) {
                                                                    Some((f7, s7)) => Some((
                                                                        IfaceV { version: f0, name: f1, global_state: f2, assignments: f3, genesis: f4, transitions: f5, error_type: f6, default_operation: f7 },
                                                                        s7,
                                                                    )),
                                                                    None => None,
                                                                },
                                                            None => None,
                                                        },
                                                    None => None,
                                                },
                                            None => None,
                                        },
                                    None => None,
                                },
                            None => None,
                        },
                    None => None,
                },
            None => None,
        }
    }

    #[verifier::rlimit(100)]
    #[verifier::spinoff_prover]
    proof fn lemma_roundtrip(v: IfaceV, rest: Seq<u8>) {
        let t8 = rest;
        let t7 = <Option<FieldName> as Wire>::senc(v.default_operation) + t8;
        let t6 = <u64 as Wire>::senc(v.error_type) + t7;
        let t5 = <Vec<(FieldName, TransitionIface)> as Wire>::senc(v.transitions) + t6;
        let t4 = <GenesisIface as Wire>::senc(v.genesis) + t5;
        let t3 = <Vec<(FieldName, AssignIface)> as Wire>::senc(v.assignments) + t4;
        let t2 = <Vec<(FieldName, GlobalIface)> as Wire>::senc(v.global_state) + t3;
        let t1 = <FieldName as Wire>::senc(v.name) + t2;
        let t0 = <VerNo as Wire>::senc(v.version) + t1;
        assert(Self::senc(v) + rest =~= t0);
        <VerNo as Wire>::lemma_roundtrip(v.version, t1);
        <FieldName as Wire>::lemma_roundtrip(v.name, t2);
        <Vec<(FieldName, GlobalIface)> as Wire>::lemma_roundtrip(v.global_state, t3);
        <Vec<(FieldName, AssignIface)> as Wire>::lemma_roundtrip(v.assignments, t4);
        <GenesisIface as Wire>::lemma_roundtrip(v.genesis, t5);
        <Vec<(FieldName, TransitionIface)> as Wire>::lemma_roundtrip(v.transitions, t6);
        <u64 as Wire>::lemma_roundtrip(v.error_type, t7);
        <Option<FieldName> as Wire>::lemma_roundtrip(v.default_operation, t8);
        assert((IfaceV { version: v.version, name: v.name, global_state: v.global_state, assignments: v.assignments, genesis: v.genesis, transitions: v.transitions, error_type: v.error_type, default_operation: v.default_operation }) =~= v);
    }

    fn enc_into(&self, out: &mut Vec<u8>)
        ensures
            final(out)@ == old(out)@ + Self::senc(self.deep_view()),
    {
        self.version.enc_into(out);
        self.name.enc_into(out);
        self.global_state.enc_into(out);
        self.assignments.enc_into(out);
        self.genesis.enc_into(out);
        self.transitions.enc_into(out);
        self.error_type.enc_into(out);
        self.default_operation.enc_into(out);
        proof {
            assert(out@ =~= old(out)@ + Self::senc(self.deep_view()));
        }
    }
}

impl Wire for TypeRegistry {
    open spec fn fits(v: TypeRegistryV) -> bool {
        <Vec<(FieldName, u64)> as Wire>::fits(v.entries)
    }

    open spec fn senc(v: TypeRegistryV) -> Seq<u8> {
        <Vec<(FieldName, u64)> as Wire>::senc(v.entries)
    }

    open spec fn sdec(s: Seq<u8>) -> Option<(TypeRegistryV, Seq<u8>)> {
        match <Vec<(FieldName, u64)> as Wire>::sdec(s) {
            Some((f0, s0)) => Some((
                TypeRegistryV { entries: f0 },
                s0,
            )),
            None => None,
        }
    }

    proof fn lemma_roundtrip(v: TypeRegistryV, rest: Seq<u8>) {
        let t1 = rest;
        let t0 = <Vec<(FieldName, u64)> as Wire>::senc(v.entries) + t1;
        assert(Self::senc(v) + rest =~= t0);
        <Vec<(FieldName, u64)> as Wire>::lemma_roundtrip(v.entries, t1);
        assert((TypeRegistryV { entries: v.entries }) =~= v);
    }

    fn enc_into(&self, out: &mut Vec<u8>)
        ensures
            final(out)@ == old(out)@ + Self::senc(self.deep_view()),
    {
        self.entries.enc_into(out);
    }
}

impl Wire for GenesisSchema {
    open spec fn fits(v: GenesisSchemaV) -> bool {
        &&& <Vec<(u16, Occurrence)> as Wire>::fits(v.globals)
        &&& <Vec<(u16, Occurrence)> as Wire>::fits(v.assignments)
        &&& <Vec<u16> as Wire>::fits(v.valencies)
    }

    open spec fn senc(v: GenesisSchemaV) -> Seq<u8> {
        spec_u64_to_le_bytes(v.metadata_type) + <Vec<(u16, Occurrence)> as Wire>::senc(v.globals)
            + <Vec<(u16, Occurrence)> as Wire>::senc(v.assignments) + <Vec<u16> as Wire>::senc(
            v.valencies,
        )
    }

    open spec fn sdec(s: Seq<u8>) -> Option<(GenesisSchemaV, Seq<u8>)> {
        match <u64 as Wire>::sdec(s) {
            Some((f0, s0)) =>
                match <Vec<(u16, Occurrence)> as Wire>::sdec(s0) {
                    Some((f1, s1)) =>
                        match <Vec<(u16, Occurrence)> as Wire>::sdec(s1) {
                            Some((f2, s2)) =>
                                match <Vec<u16> as Wire>::sdec(s2) {
                                    Some((f3, s3)) => Some((
                                        GenesisSchemaV { metadata_type: f0, globals: f1, assignments: f2, valencies: f3 },
                                        s3,
                                    )),
                                    None => None,
                                },
                            None => None,
                        },
                    None => None,
                },
            None => None,
        }
    }

    proof fn lemma_roundtrip(v: GenesisSchemaV, rest: Seq<u8>) {
        let t4 = rest;
        let t3 = <Vec<u16> as Wire>::senc(v.valencies) + t4;
        let t2 = <Vec<(u16, Occurrence)> as Wire>::senc(v.assignments) + t3;
        let t1 = <Vec<(u16, Occurrence)> as Wire>::senc(v.globals) + t2;
        let t0 = <u64 as Wire>::senc(v.metadata_type) + t1;
        assert(Self::senc(v) + rest =~= t0);
        <u64 as Wire>::lemma_roundtrip(v.metadata_type, t1);
        <Vec<(u16, Occurrence)> as Wire>::lemma_roundtrip(v.globals, t2);
        <Vec<(u16, Occurrence)> as Wire>::lemma_roundtrip(v.assignments, t3);
        <Vec<u16> as Wire>::lemma_roundtrip(v.valencies, t4);
        assert((GenesisSchemaV { metadata_type: v.metadata_type, globals: v.globals, assignments: v.assignments, valencies: v.valencies }) =~= v);
    }

    fn enc_into(&self, out: &mut Vec<u8>)
        ensures
            final(out)@ == old(out)@ + Self::senc(self.deep_view()),
    {
        self.metadata_type.enc_into(out);
        self.globals.enc_into(out);
        self.assignments.enc_into(out);
        self.valencies.enc_into(out);
        proof {
            assert(out@ =~= old(out)@ + Self::senc(self.deep_view()));
        }
    }
}

impl Wire for TransitionSchema {
    open spec fn fits(v: TransitionSchemaV) -> bool {
        &&& <Vec<(u16, Occurrence)> as Wire>::fits(v.globals)
        &&& <Vec<(u16, Occurrence)> as Wire>::fits(v.inputs)
        &&& <Vec<(u16, Occurrence)> as Wire>::fits(v.assignments)
        &&& <Vec<u16> as Wire>::fits(v.valencies)
    }

    open spec fn senc(v: TransitionSchemaV) -> Seq<u8> {
        spec_u64_to_le_bytes(v.metadata_type) + <Vec<(u16, Occurrence)> as Wire>::senc(v.globals)
            + <Vec<(u16, Occurrence)> as Wire>::senc(v.inputs) + <Vec<
            (u16, Occurrence),
        > as Wire>::senc(v.assignments) + <Vec<u16> as Wire>::senc(v.valencies)
    }

    open spec fn sdec(s: Seq<u8>) -> Option<(TransitionSchemaV, Seq<u8>)> {
        match <u64 as Wire>::sdec(s) {
            Some((f0, s0)) =>
                match <Vec<(u16, Occurrence)> as Wire>::sdec(s0) {
                    Some((f1, s1)) =>
                        match <Vec<(u16, Occurrence)> as Wire>::sdec(s1) {
                            Some((f2, s2)) =>
                                match <Vec<(u16, Occurrence)> as Wire>::sdec(s2) {
                                    Some((f3, s3)) =>
                                        match <Vec<u16> as Wire>::sdec(s3) {
                                            Some((f4, s4)) => Some((
                                                TransitionSchemaV { metadata_type: f0, globals: f1, inputs: f2, assignments: f3, valencies: f4 },
                                                s4,
                                            )),
                                            None => None,
                                        },
                                    None => None,
                                },
                            None => None,
                        },
                    None => None,
                },
            None => None,
        }
    }

    proof fn lemma_roundtrip(v: TransitionSchemaV, rest: Seq<u8>) {
        let t5 = rest;
        let t4 = <Vec<u16> as Wire>::senc(v.valencies) + t5;
        let t3 = <Vec<(u16, Occurrence)> as Wire>::senc(v.assignments) + t4;
        let t2 = <Vec<(u16, Occurrence)> as Wire>::senc(v.inputs) + t3;
        let t1 = <Vec<(u16, Occurrence)> as Wire>::senc(v.globals) + t2;
        let t0 = <u64 as Wire>::senc(v.metadata_type) + t1;
        assert(Self::senc(v) + rest =~= t0);
        <u64 as Wire>::lemma_roundtrip(v.metadata_type, t1);
        <Vec<(u16, Occurrence)> as Wire>::lemma_roundtrip(v.globals, t2);
        <Vec<(u16, Occurrence)> as Wire>::lemma_roundtrip(v.inputs, t3);
        <Vec<(u16, Occurrence)> as Wire>::lemma_roundtrip(v.assignments, t4);
        <Vec<u16> as Wire>::lemma_roundtrip(v.valencies, t5);
        assert((TransitionSchemaV { metadata_type: v.metadata_type, globals: v.globals, inputs: v.inputs, assignments: v.assignments, valencies: v.valencies }) =~= v);
    }

    fn enc_into(&self, out: &mut Vec<u8>)
        ensures
            final(out)@ == old(out)@ + Self::senc(self.deep_view()),
    {
        self.metadata_type.enc_into(out);
        self.globals.enc_into(out);
        self.inputs.enc_into(out);
        self.assignments.enc_into(out);
        self.valencies.enc_into(out);
        proof {
            assert(out@ =~= old(out)@ + Self::senc(self.deep_view()));
        }
    }
}

impl Wire for ScriptLib {
    open spec fn fits(v: ScriptLibV) -> bool {
        <Vec<u8> as Wire>::fits(v.code) && <Vec<u8> as Wire>::fits(v.data)
    }

    open spec fn senc(v: ScriptLibV) -> Seq<u8> {
        <Vec<u8> as Wire>::senc(v.code) + <Vec<u8> as Wire>::senc(v.data)
    }

    open spec fn sdec(s: Seq<u8>) -> Option<(ScriptLibV, Seq<u8>)> {
        match <Vec<u8> as Wire>::sdec(s) {
            Some((f0, s0)) =>
                match <Vec<u8> as Wire>::sdec(s0) {
                    Some((f1, s1)) => Some((
                        ScriptLibV { code: f0, data: f1 },
                        s1,
                    )),
                    None => None,
                },
            None => None,
        }
    }

    proof fn lemma_roundtrip(v: ScriptLibV, rest: Seq<u8>) {
        let t2 = rest;
        let t1 = <Vec<u8> as Wire>::senc(v.data) + t2;
        let t0 = <Vec<u8> as Wire>::senc(v.code) + t1;
        assert(Self::senc(v) + rest =~= t0);
        <Vec<u8> as Wire>::lemma_roundtrip(v.code, t1);
        <Vec<u8> as Wire>::lemma_roundtrip(v.data, t2);
        assert((ScriptLibV { code: v.code, data: v.data }) =~= v);
    }

    fn enc_into(&self, out: &mut Vec<u8>)
        ensures
            final(out)@ == old(out)@ + Self::senc(self.deep_view()),
    {
        self.code.enc_into(out);
        self.data.enc_into(out);
        proof {
            assert(out@ =~= old(out)@ + Self::senc(self.deep_view()));
        }
    }
}

impl Wire for Script {
    open spec fn fits(v: ScriptV) -> bool {
        <Vec<(u64, ScriptLib)> as Wire>::fits(v.libs) && <Vec<
            (EntryPoint, LibSite),
        > as Wire>::fits(v.entry_points)
    }

    open spec fn senc(v: ScriptV) -> Seq<u8> {
        <Vec<(u64, ScriptLib)> as Wire>::senc(v.libs) + <Vec<(EntryPoint, LibSite)> as Wire>::senc(
            v.entry_points,
        )
    }

    open spec fn sdec(s: Seq<u8>) -> Option<(ScriptV, Seq<u8>)> {
        match <Vec<(u64, ScriptLib)> as Wire>::sdec(s) {
            Some((f0, s0)) =>
                match <Vec<(EntryPoint, LibSite)> as Wire>::sdec(s0) {
                    Some((f1, s1)) => Some((
                        ScriptV { libs: f0, entry_points: f1 },
                        s1,
                    )),
                    None => None,
                },
            None => None,
        }
    }

    proof fn lemma_roundtrip(v: ScriptV, rest: Seq<u8>) {
        let t2 = rest;
        let t1 = <Vec<(EntryPoint, LibSite)> as Wire>::senc(v.entry_points) + t2;
        let t0 = <Vec<(u64, ScriptLib)> as Wire>::senc(v.libs) + t1;
        assert(Self::senc(v) + rest =~= t0);
        <Vec<(u64, ScriptLib)> as Wire>::lemma_roundtrip(v.libs, t1);
        <Vec<(EntryPoint, LibSite)> as Wire>::lemma_roundtrip(v.entry_points, t2);
        assert((ScriptV { libs: v.libs, entry_points: v.entry_points }) =~= v);
    }

    fn enc_into(&self, out: &mut Vec<u8>)
        ensures
            final(out)@ == old(out)@ + Self::senc(self.deep_view()),
    {
        self.libs.enc_into(out);
        self.entry_points.enc_into(out);
        proof {
            assert(out@ =~= old(out)@ + Self::senc(self.deep_view()));
        }
    }
}

impl Wire for Schema {
    open spec fn fits(v: SchemaV) -> bool {
        &&& <Option<u64> as Wire>::fits(v.subset_of)
        &&& TypeRegistry::fits(v.type_system)
        &&& <Vec<(u16, GlobalStateSchema)> as Wire>::fits(v.global_types)
        &&& <Vec<(u16, StateSchema)> as Wire>::fits(v.owned_types)
        &&& <Vec<u16> as Wire>::fits(v.valency_types)
        &&& GenesisSchema::fits(v.genesis)
        &&& <Vec<u16> as Wire>::fits(v.extensions)
        &&& <Vec<(u16, TransitionSchema)> as Wire>::fits(v.transitions)
        &&& Script::fits(v.script)
    }

    open spec fn senc(v: SchemaV) -> Seq<u8> {
        spec_u16_to_le_bytes(v.ffv) + <Option<u64> as Wire>::senc(v.subset_of)
            + TypeRegistry::senc(v.type_system) + <Vec<(u16, GlobalStateSchema)> as Wire>::senc(
            v.global_types,
        ) + <Vec<(u16, StateSchema)> as Wire>::senc(v.owned_types) + <Vec<u16> as Wire>::senc(
            v.valency_types,
        ) + GenesisSchema::senc(v.genesis) + <Vec<u16> as Wire>::senc(v.extensions) + <Vec<
            (u16, TransitionSchema),
        > as Wire>::senc(v.transitions) + Script::senc(v.script)
    }

    open spec fn sdec(s: Seq<u8>) -> Option<(SchemaV, Seq<u8>)> {
        match <u16 as Wire>::sdec(s) {
            Some((f0, s0)) =>
                match <Option<u64> as Wire>::sdec(s0) {
                    Some((f1, s1)) =>
                        match <TypeRegistry as Wire>::sdec(s1) {
                            Some((f2, s2)) =>
                                match <Vec<(u16, GlobalStateSchema)> as Wire>::sdec(s2) {
                                    Some((f3, s3)) =>
                                        match <Vec<(u16, StateSchema)> as Wire>::sdec(s3) {
                                            Some((f4, s4)) =>
                                                match <Vec<u16> as Wire>::sdec(s4) {
                                                    Some((f5, s5)) =>
                                                        match <GenesisSchema as Wire>::sdec(s5) {
                                                            Some((f6, s6)) =>
                                                                match <Vec<u16> as Wire>::sdec(s6) {
                                                                    Some((f7, s7)) =>
                                                                        match <Vec<(u16, TransitionSchema)> as Wire>::sdec(s7) {
                                                                            Some((f8, s8)) =>
                                                                                match <Script as Wire>::sdec(s8) {
                                                                                    Some((f9, s9)) => Some((
                                                                                        SchemaV { ffv: f0, subset_of: f1, type_system: f2, global_types: f3, owned_types: f4, valency_types: f5, genesis: f6, extensions: f7, transitions: f8, script: f9 },
                                                                                        s9,
                                                                                    )),
                                                                                    None => None,
                                                                                },
                                                                            None => None,
                                                                        },
                                                                    None => None,
                                                                },
                                                            None => None,
                                                        },
                                                    None => None,
                                                },
                                            None => None,
                                        },
                                    None => None,
                                },
                            None => None,
                        },
                    None => None,
                },
            None => None,
        }
    }

    #[verifier::rlimit(100)]
    #[verifier::spinoff_prover]
    proof fn lemma_roundtrip(v: SchemaV, rest: Seq<u8>) {
        let t10 = rest;
        let t9 = <Script as Wire>::senc(v.script) + t10;
        let t8 = <Vec<(u16, TransitionSchema)> as Wire>::senc(v.transitions) + t9;
        let t7 = <Vec<u16> as Wire>::senc(v.extensions) + t8;
        let t6 = <GenesisSchema as Wire>::senc(v.genesis) + t7;
        let t5 = <Vec<u16> as Wire>::senc(v.valency_types) + t6;
        let t4 = <Vec<(u16, StateSchema)> as Wire>::senc(v.owned_types) + t5;
        let t3 = <Vec<(u16, GlobalStateSchema)> as Wire>::senc(v.global_types) + t4;
        let t2 = <TypeRegistry as Wire>::senc(v.type_system) + t3;
        let t1 = <Option<u64> as Wire>::senc(v.subset_of) + t2;
        let t0 = <u16 as Wire>::senc(v.ffv) + t1;
        assert(Self::senc(v) + rest =~= t0);
        <u16 as Wire>::lemma_roundtrip(v.ffv, t1);
        <Option<u64> as Wire>::lemma_roundtrip(v.subset_of, t2);
        <TypeRegistry as Wire>::lemma_roundtrip(v.type_system, t3);
        <Vec<(u16, GlobalStateSchema)> as Wire>::lemma_roundtrip(v.global_types, t4);
        <Vec<(u16, StateSchema)> as Wire>::lemma_roundtrip(v.owned_types, t5);
        <Vec<u16> as Wire>::lemma_roundtrip(v.valency_types, t6);
        <GenesisSchema as Wire>::lemma_roundtrip(v.genesis, t7);
        <Vec<u16> as Wire>::lemma_roundtrip(v.extensions, t8);
        <Vec<(u16, TransitionSchema)> as Wire>::lemma_roundtrip(v.transitions, t9);
        <Script as Wire>::lemma_roundtrip(v.script, t10);
        assert((SchemaV { ffv: v.ffv, subset_of: v.subset_of, type_system: v.type_system, global_types: v.global_types, owned_types: v.owned_types, valency_types: v.valency_types, genesis: v.genesis, extensions: v.extensions, transitions: v.transitions, script: v.script }) =~= v);
    }

    fn enc_into(&self, out: &mut Vec<u8>)
        ensures
            final(out)@ == old(out)@ + Self::senc(self.deep_view()),
    {
        self.ffv.enc_into(out);
        self.subset_of.enc_into(out);
        self.type_system.enc_into(out);
        self.global_types.enc_into(out);
        self.owned_types.enc_into(out);
        self.valency_types.enc_into(out);
        self.genesis.enc_into(out);
        self.extensions.enc_into(out);
        self.transitions.enc_into(out);
        self.script.enc_into(out);
        proof {
            assert(out@ =~= old(out)@ + Self::senc(self.deep_view()));
        }
    }
}

impl Wire for NamedField {
    open spec fn fits(v: NamedPairV) -> bool {
        v.name.len() <= WIRE_LEN_MAX
    }

    open spec fn senc(v: NamedPairV) -> Seq<u8> {
        spec_u16_to_le_bytes(v.id) + FieldName::senc(v.name)
    }

    open spec fn sdec(s: Seq<u8>) -> Option<(NamedPairV, Seq<u8>)> {
        match <u16 as Wire>::sdec(s) {
            Some((f0, s0)) =>
                match <FieldName as Wire>::sdec(s0) {
                    Some((f1, s1)) => Some((
                        NamedPairV { id: f0, name: f1 },
                        s1,
                    )),
                    None => None,
                },
            None => None,
        }
    }

    proof fn lemma_roundtrip(v: NamedPairV, rest: Seq<u8>) {
        let t2 = rest;
        let t1 = <FieldName as Wire>::senc(v.name) + t2;
        let t0 = <u16 as Wire>::senc(v.id) + t1;
        assert(Self::senc(v) + rest =~= t0);
        <u16 as Wire>::lemma_roundtrip(v.id, t1);
        <FieldName as Wire>::lemma_roundtrip(v.name, t2);
        assert((NamedPairV { id: v.id, name: v.name }) =~= v);
    }

    fn enc_into(&self, out: &mut Vec<u8>)
        ensures
            final(out)@ == old(out)@ + Self::senc(self.deep_view()),
    {
        self.id.enc_into(out);
        self.name.enc_into(out);
        proof {
            assert(out@ =~= old(out)@ + Self::senc(self.deep_view()));
        }
    }
}

impl Wire for NamedType {
    open spec fn fits(v: NamedPairV) -> bool {
        v.name.len() <= WIRE_LEN_MAX
    }

    open spec fn senc(v: NamedPairV) -> Seq<u8> {
        spec_u16_to_le_bytes(v.id) + FieldName::senc(v.name)
    }

    open spec fn sdec(s: Seq<u8>) -> Option<(NamedPairV, Seq<u8>)> {
        match <u16 as Wire>::sdec(s) {
            Some((f0, s0)) =>
                match <FieldName as Wire>::sdec(s0) {
                    Some((f1, s1)) => Some((
                        NamedPairV { id: f0, name: f1 },
                        s1,
                    )),
                    None => None,
                },
            None => None,
        }
    }

    proof fn lemma_roundtrip(v: NamedPairV, rest: Seq<u8>) {
        let t2 = rest;
        let t1 = <FieldName as Wire>::senc(v.name) + t2;
        let t0 = <u16 as Wire>::senc(v.id) + t1;
        assert(Self::senc(v) + rest =~= t0);
        <u16 as Wire>::lemma_roundtrip(v.id, t1);
        <FieldName as Wire>::lemma_roundtrip(v.name, t2);
        assert((NamedPairV { id: v.id, name: v.name }) =~= v);
    }

    fn enc_into(&self, out: &mut Vec<u8>)
        ensures
            final(out)@ == old(out)@ + Self::senc(self.deep_view()),
    {
        self.id.enc_into(out);
        self.name.enc_into(out);
        proof {
            assert(out@ =~= old(out)@ + Self::senc(self.deep_view()));
        }
    }
}

impl Wire for IfaceImpl {
    open spec fn fits(v: IfaceImplV) -> bool {
        &&& <Vec<NamedField> as Wire>::fits(v.genesis_iface)
        &&& <Vec<NamedField> as Wire>::fits(v.global_state)
        &&& <Vec<NamedField> as Wire>::fits(v.assignments)
        &&& <Vec<NamedType> as Wire>::fits(v.transitions)
        &&& <Vec<NamedType> as Wire>::fits(v.extensions)
    }

    open spec fn senc(v: IfaceImplV) -> Seq<u8> {
        VerNo::senc(v.version) + spec_u64_to_le_bytes(v.schema_id) + spec_u64_to_le_bytes(
            v.iface_id,
        ) + <Vec<NamedField> as Wire>::senc(v.genesis_iface) + <Vec<NamedField> as Wire>::senc(
            v.global_state,
        ) + <Vec<NamedField> as Wire>::senc(v.assignments) + <Vec<NamedType> as Wire>::senc(
            v.transitions,
        ) + <Vec<NamedType> as Wire>::senc(v.extensions)
    }

    open spec fn sdec(s: Seq<u8>) -> Option<(IfaceImplV, Seq<u8>)> {
        match <VerNo as Wire>::sdec(s) {
            Some((f0, s0)) =>
                match <u64 as Wire>::sdec(s0) {
                    Some((f1, s1)) =>
                        match <u64 as Wire>::sdec(s1) {
                            Some((f2, s2)) =>
                                match <Vec<NamedField> as Wire>::sdec(s2) {
                                    Some((f3, s3)) =>
                                        match <Vec<NamedField> as Wire>::sdec(s3) {
                                            Some((f4, s4)) =>
                                                match <Vec<NamedField> as Wire>::sdec(s4) {
                                                    Some((f5, s5)) =>
                                                        match <Vec<NamedType> as Wire>::sdec(s5) {
                                                            Some((f6, s6)) =>
                                                                match <Vec<NamedType> as Wire>::sdec(s6) {
                                                                    Some((f7, s7)) => Some((
                                                                        IfaceImplV { version: f0, schema_id: f1, iface_id: f2, genesis_iface: f3, global_state: f4, assignments: f5, transitions: f6, extensions: f7 },
                                                                        s7,
                                                                    )),
                                                                    None => None,
                                                                },
                                                            None => None,
                                                        },
                                                    None => None,
                                                },
                                            None => None,
                                        },
                                    None => None,
                                },
                            None => None,
                        },
                    None => None,
                },
            None => None,
        }
    }

    #[verifier::rlimit(100)]
    #[verifier::spinoff_prover]
    proof fn lemma_roundtrip(v: IfaceImplV, rest: Seq<u8>) {
        let t8 = rest;
        let t7 = <Vec<NamedType> as Wire>::senc(v.extensions) + t8;
        let t6 = <Vec<NamedType> as Wire>::senc(v.transitions) + t7;
        let t5 = <Vec<NamedField> as Wire>::senc(v.assignments) + t6;
        let t4 = <Vec<NamedField> as Wire>::senc(v.global_state) + t5;
        let t3 = <Vec<NamedField> as Wire>::senc(v.genesis_iface) + t4;
        let t2 = <u64 as Wire>::senc(v.iface_id) + t3;
        let t1 = <u64 as Wire>::senc(v.schema_id) + t2;
        let t0 = <VerNo as Wire>::senc(v.version) + t1;
        assert(Self::senc(v) + rest =~= t0);
        <VerNo as Wire>::lemma_roundtrip(v.version, t1);
        <u64 as Wire>::lemma_roundtrip(v.schema_id, t2);
        <u64 as Wire>::lemma_roundtrip(v.iface_id, t3);
        <Vec<NamedField> as Wire>::lemma_roundtrip(v.genesis_iface, t4);
        <Vec<NamedField> as Wire>::lemma_roundtrip(v.global_state, t5);
        <Vec<NamedField> as Wire>::lemma_roundtrip(v.assignments, t6);
        <Vec<NamedType> as Wire>::lemma_roundtrip(v.transitions, t7);
        <Vec<NamedType> as Wire>::lemma_roundtrip(v.extensions, t8);
        assert((IfaceImplV { version: v.version, schema_id: v.schema_id, iface_id: v.iface_id, genesis_iface: v.genesis_iface, global_state: v.global_state, assignments: v.assignments, transitions: v.transitions, extensions: v.extensions }) =~= v);
    }

    fn enc_into(&self, out: &mut Vec<u8>)
        ensures
            final(out)@ == old(out)@ + Self::senc(self.deep_view()),
    {
        self.version.enc_into(out);
        self.schema_id.enc_into(out);
        self.iface_id.enc_into(out);
        self.genesis_iface.enc_into(out);
        self.global_state.enc_into(out);
        self.assignments.enc_into(out);
        self.transitions.enc_into(out);
        self.extensions.enc_into(out);
        proof {
            assert(out@ =~= old(out)@ + Self::senc(self.deep_view()));
        }
    }
}

/// Serializes an interface to its wire form.
pub fn encode_iface(i: &Iface) -> (out: Vec<u8>)
    requires
        Iface::fits(i.deep_view()),
    ensures
        out@ == Iface::senc(i.deep_view()),
{
    let mut out: Vec<u8> = Vec::new();
    i.enc_into(&mut out);
    proof {
        assert(Seq::<u8>::empty() + Iface::senc(i.deep_view()) =~= Iface::senc(i.deep_view()));
    }
    out
}

/// Serializes a schema to its wire form.
pub fn encode_schema(s: &Schema) -> (out: Vec<u8>)
    requires
        Schema::fits(s.deep_view()),
    ensures
        out@ == Schema::senc(s.deep_view()),
{
    let mut out: Vec<u8> = Vec::new();
    s.enc_into(&mut out);
    proof {
        assert(Seq::<u8>::empty() + Schema::senc(s.deep_view()) =~= Schema::senc(s.deep_view()));
    }
    out
}

/// Serializes a binding to its wire form.
pub fn encode_iface_impl(im: &IfaceImpl) -> (out: Vec<u8>)
    requires
        IfaceImpl::fits(im.deep_view()),
    ensures
        out@ == IfaceImpl::senc(im.deep_view()),
{
    let mut out: Vec<u8> = Vec::new();
    im.enc_into(&mut out);
    proof {
        assert(Seq::<u8>::empty() + IfaceImpl::senc(im.deep_view()) =~= IfaceImpl::senc(
            im.deep_view(),
        ));
    }
    out
}

/// The content-derived id of an interface: the fold of its wire form.
pub open spec fn spec_iface_id(v: IfaceV) -> u64 {
    fold_bytes(Iface::senc(v))
}

/// The content-derived id of a schema: the fold of its wire form.
pub open spec fn spec_schema_id(v: SchemaV) -> u64 {
    fold_bytes(Schema::senc(v))
}

/// Computes the content-derived id of an interface.
pub fn iface_id(i: &Iface) -> (r: u64)
    requires
        Iface::fits(i.deep_view()),
    ensures
        r == spec_iface_id(i.deep_view()),
{
    let bytes = encode_iface(i);
    fold_digest(&bytes)
}

/// Law: serializing and then deserializing an interface yields the
/// original value, field for field, whatever bytes follow the encoding.
pub proof fn lemma_iface_round_trip(v: IfaceV, rest: Seq<u8>)
    requires
        Iface::fits(v),
    ensures
        Iface::sdec(Iface::senc(v) + rest) == Some((v, rest)),
{
    Iface::lemma_roundtrip(v, rest);
}

/// Law: serializing and then deserializing a schema yields the original
/// value, field for field, whatever bytes follow the encoding.
pub proof fn lemma_schema_round_trip(v: SchemaV, rest: Seq<u8>)
    requires
        Schema::fits(v),
    ensures
        Schema::sdec(Schema::senc(v) + rest) == Some((v, rest)),
{
    Schema::lemma_roundtrip(v, rest);
}

/// Law: serializing and then deserializing a binding yields the original
/// value, field for field, whatever bytes follow the encoding.
pub proof fn lemma_iface_impl_round_trip(v: IfaceImplV, rest: Seq<u8>)
    requires
        IfaceImpl::fits(v),
    ensures
        IfaceImpl::sdec(IfaceImpl::senc(v) + rest) == Some((v, rest)),
{
    IfaceImpl::lemma_roundtrip(v, rest);
}

/// Computes the content-derived id of a schema.
pub fn schema_id(s: &Schema) -> (r: u64)
    requires
        Schema::fits(s.deep_view()),
    ensures
        r == spec_schema_id(s.deep_view()),
{
    let bytes = encode_schema(s);
    fold_digest(&bytes)
}

} // verus!
