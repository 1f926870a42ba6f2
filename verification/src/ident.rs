//! Names used by interfaces: field names and transition names.
//!
//! A name is held as its byte sequence, so that structural facts about
//! concrete standards (distinctness of keys, binding coverage) stay first
//! order, and so that the wire codec works on bytes alone.

use vstd::prelude::*;
use vstd::string::StringSliceAdditionalSpecFns;

verus! {

/// A field or transition name of an interface.
#[derive(Debug, PartialEq, Eq)]
pub struct FieldName {
    pub bytes: Vec<u8>,
}

impl View for FieldName {
    type V = Seq<u8>;

    open spec fn view(&self) -> Seq<u8> {
        self.bytes@
    }
}

impl DeepView for FieldName {
    type V = Seq<u8>;

    open spec fn deep_view(&self) -> Seq<u8> {
        self.bytes@
    }
}

impl FieldName {
    /// Builds a name from its UTF-8 byte encoding.
    pub fn from_bytes(bytes: Vec<u8>) -> (r: FieldName)
        ensures
            r@ == bytes@,
    {
        FieldName { bytes }
    }

    /// A fresh copy of the name.
    pub fn dup(&self) -> (r: FieldName)
        ensures
            r@ == self@,
    {
        FieldName { bytes: vstd::slice::slice_to_vec(self.bytes.as_slice()) }
    }

    /// Byte-wise equality of two names.
    pub fn eq_name(&self, other: &FieldName) -> (r: bool)
        ensures
            r == (self@ == other@),
    {
        bytes_eq(&self.bytes, other.bytes.as_slice())
    }
}

/// Builds a name from a string: the name is the string's UTF-8 bytes.
pub fn fname(s: &str) -> (r: FieldName)
    ensures
        r@ == s.spec_bytes(),
{
    FieldName { bytes: vstd::slice::slice_to_vec(s.as_bytes()) }
}

/// Byte-wise equality of a byte vector and a byte slice.
pub fn bytes_eq(a: &Vec<u8>, b: &[u8]) -> (r: bool)
    ensures
        r == (a@ == b@),
{
    if a.len() != b.len() {
        assert(a@.len() != b@.len());
        return false;
    }
    let n: usize = a.len();
    let mut i: usize = 0;
    while i < n
        invariant
            n == a@.len() == b@.len(),
            i <= n,
            forall|j: int| 0 <= j < i ==> a@[j] == b@[j],
        decreases n - i,
    {
        if a[i] != b[i] {
            return false;
        }
        i += 1;
    }
    proof {
        assert(a@ =~= b@);
    }
    true
}

} // verus!
