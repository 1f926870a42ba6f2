//! The standard type registry shared by the token standards: each semantic
//! type name is filed under the reference derived from the primitive that
//! backs its wire value.

use vstd::prelude::*;
use vstd::string::{is_ascii, StringSliceAdditionalSpecFns};

use crate::ident::fname;
use crate::typesys::{primitive_ref, resolve_primitive, TypeRegistry, TypeRegistryV};

verus! {

/// Primitive code of the unit type.
pub const PRIM_UNIT: u8 = 0x00;

/// Primitive code of an unsigned 8-bit number.
pub const PRIM_U8: u8 = 0x01;

/// Primitive code of an unsigned 64-bit number.
pub const PRIM_U64: u8 = 0x08;

/// Primitive code of an unsigned 128-bit number.
pub const PRIM_U128: u8 = 0x10;

/// Primitive code of an unsigned 256-bit number.
pub const PRIM_U256: u8 = 0x20;

/// Primitive code of a byte.
pub const PRIM_BYTE: u8 = 0x40;

/// The registry entries shared by the standards: asset names are backed by
/// bytes, auxiliary data by 128-bit numbers, amounts by 64-bit numbers,
/// genesis metadata by the unit type, error codes by 8-bit numbers, and
/// non-fungible allocations by 256-bit numbers.
pub open spec fn spec_standard_types() -> TypeRegistryV {
    TypeRegistryV {
        entries: seq![
            ("RGBContract.Name".spec_bytes(), primitive_ref(PRIM_BYTE)),
            ("RGBContract.Data".spec_bytes(), primitive_ref(PRIM_U128)),
            ("RGBContract.Amount".spec_bytes(), primitive_ref(PRIM_U64)),
            ("RGBContract.Meta".spec_bytes(), primitive_ref(PRIM_UNIT)),
            ("RGB-E20.Error".spec_bytes(), primitive_ref(PRIM_U8)),
            ("RGB-E721.Error".spec_bytes(), primitive_ref(PRIM_U8)),
            ("RGB-E721.Allocation".spec_bytes(), primitive_ref(PRIM_U256)),
        ],
    }
}

/// Builds the standard type registry.
pub fn standard_types() -> (r: TypeRegistry)
    ensures
        r@ == spec_standard_types(),
{
    let entries = vec![
        (fname("RGBContract.Name"), resolve_primitive(PRIM_BYTE)),
        (fname("RGBContract.Data"), resolve_primitive(PRIM_U128)),
        (fname("RGBContract.Amount"), resolve_primitive(PRIM_U64)),
        (fname("RGBContract.Meta"), resolve_primitive(PRIM_UNIT)),
        (fname("RGB-E20.Error"), resolve_primitive(PRIM_U8)),
        (fname("RGB-E721.Error"), resolve_primitive(PRIM_U8)),
        (fname("RGB-E721.Allocation"), resolve_primitive(PRIM_U256)),
    ];
    let r = TypeRegistry { entries };
    proof {
        assert(r@.entries =~= spec_standard_types().entries);
        assert(r@ =~= spec_standard_types());
    }
    r
}

/// The standard registry is well formed (no name is registered twice) and
/// small enough to encode.
pub proof fn lemma_standard_types_wf()
    ensures
        spec_standard_types().wf(),
        <TypeRegistry as crate::codec::Wire>::fits(spec_standard_types()),
{
    reveal_strlit("RGBContract.Name");
    reveal_strlit("RGBContract.Data");
    reveal_strlit("RGBContract.Amount");
    reveal_strlit("RGBContract.Meta");
    reveal_strlit("RGB-E20.Error");
    reveal_strlit("RGB-E721.Error");
    reveal_strlit("RGB-E721.Allocation");
    broadcast use vstd::string::is_ascii_spec_bytes;

    assert(is_ascii("RGBContract.Name"));
    assert(is_ascii("RGBContract.Data"));
    assert(is_ascii("RGBContract.Amount"));
    assert(is_ascii("RGBContract.Meta"));
    assert(is_ascii("RGB-E20.Error"));
    assert(is_ascii("RGB-E721.Error"));
    assert(is_ascii("RGB-E721.Allocation"));
    assert("RGBContract.Name".spec_bytes()[12] == 'N' as u8);
    assert("RGBContract.Data".spec_bytes()[12] == 'D' as u8);
    assert("RGBContract.Meta".spec_bytes()[12] == 'M' as u8);
    assert("RGB-E20.Error".spec_bytes()[5] == '2' as u8);
    assert("RGB-E721.Error".spec_bytes()[5] == '7' as u8);
}

} // verus!
