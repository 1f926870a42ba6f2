//! The non-fungible token standard: its interface, its schema and the
//! binding that joins them.

use vstd::prelude::*;
use vstd::string::{is_ascii, StringSliceAdditionalSpecFns};

use crate::binding::{
    bound_impl, coverage_ok, covers_assign, covers_in, injectivity_ok, set_injective, types_ok,
    bind, BindingDraft, BindingDraftV, IfaceImpl, NamedField, NamedPairV, NamedType,
};
use crate::codec::Wire;
use crate::ident::{fname, FieldName};
use crate::iface::{
    ArgSpec, ArgSpecV, AssignIface, GenesisIface, GenesisIfaceV, GlobalIface, Iface, IfaceV,
    OwnedIface, Req, TransitionIface, TransitionIfaceV, VerNo,
};
use crate::maps::{lemma_map_get_at, map_get, map_has};
use crate::occurrence::Occurrence;
use crate::schema::{
    GenesisSchema, GenesisSchemaV, GlobalStateSchema, Schema, SchemaV, Script, ScriptV,
    StateSchema, TransitionSchema, TransitionSchemaV,
};
use crate::stl::{
    spec_standard_types, standard_types, PRIM_BYTE, PRIM_U128, PRIM_U256, PRIM_U64, PRIM_U8,
    PRIM_UNIT,
};
use crate::token::{Account, U256};
use crate::typesys::primitive_ref;

verus! {

/// Numeric code of the supply-mismatch failure.
pub const SUPPLY_MISMATCH: u8 = 1;

/// Numeric code of the token-does-not-exist failure.
pub const TOKEN_NOT_EXIST: u8 = 2;

/// Numeric code of the invalid-proof failure.
pub const INVALID_PROOF: u8 = 3;

/// Numeric code of the insufficient-reserves failure.
pub const INSUFFICIENT_RESERVES: u8 = 4;

/// Numeric code of the issue-exceeds-allowance failure.
pub const ISSUE_EXCEEDS_ALLOWANCE: u8 = 5;

/// The closed failure taxonomy of the non-fungible standard. The numeric
/// code of each variant is part of the wire-stable contract and is never
/// reassigned.
#[derive(Clone, Copy, Debug, PartialEq, Eq, Hash, Structural)]
pub enum Error {
    SupplyMismatch,
    TokenNotExist,
    InvalidProof,
    InsufficientReserves,
    IssueExceedsAllowance,
}

impl Error {
    /// The wire-stable numeric code of the failure.
    pub fn code(self) -> (r: u8)
        ensures
            r == self.code_spec(),
    {
        match self {
            Error::SupplyMismatch => SUPPLY_MISMATCH,
            Error::TokenNotExist => TOKEN_NOT_EXIST,
            Error::InvalidProof => INVALID_PROOF,
            Error::InsufficientReserves => INSUFFICIENT_RESERVES,
            Error::IssueExceedsAllowance => ISSUE_EXCEEDS_ALLOWANCE,
        }
    }

    /// The variant carrying the code, exactly when one does.
    pub fn from_code(code: u8) -> (r: Option<Error>)
        ensures
            match r {
                Some(e) => e.code_spec() == code,
                None => code == 0 || code > 5,
            },
    {
        match code {
            1u8 => Some(Error::SupplyMismatch),
            2u8 => Some(Error::TokenNotExist),
            3u8 => Some(Error::InvalidProof),
            4u8 => Some(Error::InsufficientReserves),
            5u8 => Some(Error::IssueExceedsAllowance),
            _ => None,
        }
    }

    /// The numeric code, as a specification value.
    pub open spec fn code_spec(self) -> u8 {
        match self {
            Error::SupplyMismatch => SUPPLY_MISMATCH,
            Error::TokenNotExist => TOKEN_NOT_EXIST,
            Error::InvalidProof => INVALID_PROOF,
            Error::InsufficientReserves => INSUFFICIENT_RESERVES,
            Error::IssueExceedsAllowance => ISSUE_EXCEEDS_ALLOWANCE,
        }
    }
}

/// The runtime record of a non-fungible token contract.
#[derive(Clone, Debug, PartialEq, Eq)]
pub struct RgbE721 {
    pub name: String,
    pub symbol: String,
    pub owner: Account,
    pub total_supply: U256,
    pub base_uri: Option<String>,
}

impl RgbE721 {
    /// A fresh record with the given nominal data.
    pub fn new(
        name: String,
        symbol: String,
        owner: Account,
        total_supply: U256,
        base_uri: Option<String>,
    ) -> (r: RgbE721)
        ensures
            r.name@ == name@,
            r.symbol@ == symbol@,
            r.owner == owner,
            r.total_supply == total_supply,
            r.base_uri.deep_view() == base_uri.deep_view(),
    {
        RgbE721 { name, symbol, owner, total_supply, base_uri }
    }
}

/// The abstract capability set of a non-fungible token contract.
pub trait RgbE721Iface {
    /// Issues the contract with its nominal data.
    fn init(&self, name: &str, symbol: &str);

    /// The owner of the token `token_id`.
    fn owner_of(token_id: U256) -> Account;

    /// Moves `token_id` from `from` to `to`, refusing unreceivable targets.
    fn safe_transfer_from(from: Account, to: Account, token_id: U256);

    /// Moves `token_id` from `from` to `to`.
    fn transfer_from(from: Account, to: Account, token_id: U256);

    /// Approves `approved` to move `token_id`; returns the previous
    /// approval.
    fn approve(approved: Account, token_id: U256) -> Account;

    /// Grants or revokes `operator` over all of the caller's tokens.
    fn set_approval_for_all(operator: Account, approved: bool) -> Account;

    /// The account approved for `token_id`.
    fn get_approved(token_id: U256) -> Account;

    /// Whether `operator` may move all of `owner`'s tokens.
    fn is_approved_for_all(owner: Account, operator: Account) -> bool;

    /// The contract's name.
    fn name() -> String;

    /// The contract's ticker symbol.
    fn symbol() -> String;

    /// The metadata address of `token_id`.
    fn token_uri(token_id: U256) -> String;

    /// The total number of tokens issued.
    fn total_supply() -> U256;

    /// The token at position `index` of the contract's enumeration.
    fn token_by_index(index: U256) -> U256;

    /// The token at position `index` of `owner`'s enumeration.
    fn token_of_owner_by_index(owner: Account, index: U256) -> U256;
}

/// Global state id of the contract name.
pub const GS_NAME: u16 = 62100;

/// Global state id of the ticker symbol.
pub const GS_SYMBOL: u16 = 62101;

/// Global state id of the total supply.
pub const GS_TOTAL_SUPPLY: u16 = 62102;

/// Global state id of the token enumeration.
pub const GS_TOKEN_BY_INDEX: u16 = 62103;

/// Global state id of the per-owner token enumeration.
pub const GS_TOKEN_OF_OWNER_BY_INDEX: u16 = 62104;

/// Global state id of the issuance record.
pub const GS_INIT: u16 = 62105;

/// Owned state id of the token allocations.
pub const OS_ASSET: u16 = 62100;

/// Transition id of `OwnerOf`.
pub const TS_OWNER_OF: u16 = 62100;

/// Transition id of `SafeTransferFrom`.
pub const TS_SAFE_TRANSFER_FROM: u16 = 62101;

/// Transition id of `TransferFrom`.
pub const TS_TRANSFER_FROM: u16 = 62102;

/// Transition id of `Approve`.
pub const TS_APPROVE: u16 = 62103;

/// Transition id of `SetApprovalForAll`.
pub const TS_SET_APPROVAL_FOR_ALL: u16 = 62104;

/// Transition id of `GetApproved`.
pub const TS_GET_APPROVED: u16 = 62105;

/// Transition id of `IsApprovedForAll`.
pub const TS_IS_APPROVED_FOR_ALL: u16 = 62106;

/// The interface of the non-fungible standard, field for field.
pub open spec fn spec_rgb_e721() -> IfaceV {
    IfaceV {
        version: VerNo::V1,
        name: "RGB-E721".spec_bytes(),
        global_state: seq![
            (
                "name".spec_bytes(),
                GlobalIface { sem_type: primitive_ref(PRIM_BYTE), req: Req::Required },
            ),
            (
                "symbol".spec_bytes(),
                GlobalIface { sem_type: primitive_ref(PRIM_U128), req: Req::Required },
            ),
            (
                "total_supply".spec_bytes(),
                GlobalIface { sem_type: primitive_ref(PRIM_U64), req: Req::Required },
            ),
            (
                "token_by_index".spec_bytes(),
                GlobalIface { sem_type: primitive_ref(PRIM_U64), req: Req::OneOrMany },
            ),
            (
                "token_of_owner_by_index".spec_bytes(),
                GlobalIface { sem_type: primitive_ref(PRIM_U64), req: Req::OneOrMany },
            ),
        ],
        assignments: seq![
            (
                "beneficiary".spec_bytes(),
                AssignIface {
                    owned: OwnedIface::Data(primitive_ref(PRIM_U256)),
                    req: Req::Required,
                },
            ),
        ],
        genesis: GenesisIfaceV {
            metadata: Some(primitive_ref(PRIM_UNIT)),
            global: seq![
                ("init".spec_bytes(), ArgSpecV { name: None, req: Req::Required }),
            ],
            assignments: Seq::empty(),
            valencies: Seq::empty(),
            errors: seq![INSUFFICIENT_RESERVES],
        },
        transitions: seq![
            ("OwnerOf".spec_bytes(), spec_ts_owner_of()),
            ("SafeTransferFrom".spec_bytes(), spec_ts_safe_transfer_from()),
            ("TransferFrom".spec_bytes(), spec_ts_transfer_from()),
            ("Approve".spec_bytes(), spec_ts_approve()),
            ("SetApprovalForAll".spec_bytes(), spec_ts_set_approval_for_all()),
            ("GetApproved".spec_bytes(), spec_ts_get_approved()),
            ("IsApprovedForAll".spec_bytes(), spec_ts_is_approved_for_all()),
        ],
        error_type: primitive_ref(PRIM_U8),
        default_operation: Some("SafeTransferFrom".spec_bytes()),
    }
}

/// The `OwnerOf` query operation: mandatory.
pub open spec fn spec_ts_owner_of() -> TransitionIfaceV {
    TransitionIfaceV {
        optional: false,
        metadata: None,
        globals: Seq::empty(),
        inputs: seq![
            (
                "token_id".spec_bytes(),
                ArgSpecV { name: Some("Index".spec_bytes()), req: Req::OneOrMany },
            ),
        ],
        valencies: Seq::empty(),
        errors: seq![TOKEN_NOT_EXIST],
        default_assignment: Some("beneficiary".spec_bytes()),
    }
}

/// The `SafeTransferFrom` operation: mandatory.
pub open spec fn spec_ts_safe_transfer_from() -> TransitionIfaceV {
    TransitionIfaceV {
        optional: false,
        metadata: None,
        globals: Seq::empty(),
        inputs: seq![
            (
                "from".spec_bytes(),
                ArgSpecV { name: Some("account".spec_bytes()), req: Req::OneOrMany },
            ),
            (
                "to".spec_bytes(),
                ArgSpecV { name: Some("account".spec_bytes()), req: Req::OneOrMany },
            ),
            (
                "token_id".spec_bytes(),
                ArgSpecV { name: Some("Index".spec_bytes()), req: Req::OneOrMany },
            ),
        ],
        valencies: Seq::empty(),
        errors: seq![TOKEN_NOT_EXIST],
        default_assignment: Some("beneficiary".spec_bytes()),
    }
}

/// The `TransferFrom` operation.
pub open spec fn spec_ts_transfer_from() -> TransitionIfaceV {
    TransitionIfaceV {
        optional: true,
        metadata: None,
        globals: Seq::empty(),
        inputs: seq![
            (
                "from".spec_bytes(),
                ArgSpecV { name: Some("Account".spec_bytes()), req: Req::OneOrMany },
            ),
            (
                "to".spec_bytes(),
                ArgSpecV { name: Some("Account".spec_bytes()), req: Req::OneOrMany },
            ),
            (
                "token_id".spec_bytes(),
                ArgSpecV { name: Some("Index".spec_bytes()), req: Req::OneOrMany },
            ),
        ],
        valencies: Seq::empty(),
        errors: seq![SUPPLY_MISMATCH, INVALID_PROOF, ISSUE_EXCEEDS_ALLOWANCE, INSUFFICIENT_RESERVES],
        default_assignment: Some("beneficiary".spec_bytes()),
    }
}

/// The `Approve` operation.
pub open spec fn spec_ts_approve() -> TransitionIfaceV {
    TransitionIfaceV {
        optional: true,
        metadata: None,
        globals: Seq::empty(),
        inputs: seq![
            (
                "approved".spec_bytes(),
                ArgSpecV { name: Some("account".spec_bytes()), req: Req::Required },
            ),
            (
                "token_id".spec_bytes(),
                ArgSpecV { name: Some("Index".spec_bytes()), req: Req::Required },
            ),
        ],
        valencies: Seq::empty(),
        errors: Seq::empty(),
        default_assignment: Some("beneficiary".spec_bytes()),
    }
}

/// The `SetApprovalForAll` operation.
pub open spec fn spec_ts_set_approval_for_all() -> TransitionIfaceV {
    TransitionIfaceV {
        optional: true,
        metadata: None,
        globals: Seq::empty(),
        inputs: seq![
            (
                "operator".spec_bytes(),
                ArgSpecV { name: Some("Account".spec_bytes()), req: Req::Required },
            ),
            (
                "approved".spec_bytes(),
                ArgSpecV { name: Some("Bool".spec_bytes()), req: Req::Required },
            ),
        ],
        valencies: Seq::empty(),
        errors: seq![SUPPLY_MISMATCH, INVALID_PROOF],
        default_assignment: None,
    }
}

/// The `GetApproved` query operation.
pub open spec fn spec_ts_get_approved() -> TransitionIfaceV {
    TransitionIfaceV {
        optional: true,
        metadata: None,
        globals: Seq::empty(),
        inputs: seq![
            (
                "token_id".spec_bytes(),
                ArgSpecV { name: Some("Index".spec_bytes()), req: Req::Required },
            ),
        ],
        valencies: Seq::empty(),
        errors: seq![TOKEN_NOT_EXIST, INVALID_PROOF],
        default_assignment: None,
    }
}

/// The `IsApprovedForAll` query operation.
pub open spec fn spec_ts_is_approved_for_all() -> TransitionIfaceV {
    TransitionIfaceV {
        optional: true,
        metadata: None,
        globals: Seq::empty(),
        inputs: seq![
            (
                "owner".spec_bytes(),
                ArgSpecV { name: Some("account".spec_bytes()), req: Req::Required },
            ),
            (
                "operator".spec_bytes(),
                ArgSpecV { name: Some("account".spec_bytes()), req: Req::Required },
            ),
        ],
        valencies: Seq::empty(),
        errors: seq![INVALID_PROOF],
        default_assignment: None,
    }
}

/// Builds the interface of the non-fungible standard.
#[verifier::rlimit(100)]
#[verifier::spinoff_prover]
pub fn rgb_e721() -> (r: Iface)
    ensures
        r@ == spec_rgb_e721(),
{
    let r = Iface {
        version: VerNo::V1,
        name: fname("RGB-E721"),
        global_state: vec![
            (fname("name"), GlobalIface::required(crate::typesys::resolve_primitive(PRIM_BYTE))),
            (fname("symbol"), GlobalIface::required(crate::typesys::resolve_primitive(PRIM_U128))),
            (
                fname("total_supply"),
                GlobalIface::required(crate::typesys::resolve_primitive(PRIM_U64)),
            ),
            (
                fname("token_by_index"),
                GlobalIface::one_or_many(crate::typesys::resolve_primitive(PRIM_U64)),
            ),
            (
                fname("token_of_owner_by_index"),
                GlobalIface::one_or_many(crate::typesys::resolve_primitive(PRIM_U64)),
            ),
        ],
        assignments: vec![
            (
                fname("beneficiary"),
                AssignIface {
                    owned: OwnedIface::Data(crate::typesys::resolve_primitive(PRIM_U256)),
                    req: Req::Required,
                },
            ),
        ],
        genesis: GenesisIface {
            metadata: Some(crate::typesys::resolve_primitive(PRIM_UNIT)),
            global: vec![(fname("init"), ArgSpec::required())],
            assignments: Vec::new(),
            valencies: Vec::new(),
            errors: vec![INSUFFICIENT_RESERVES],
        },
        transitions: vec![
            (
                fname("OwnerOf"),
                TransitionIface {
                    optional: false,
                    metadata: None,
                    globals: Vec::new(),
                    inputs: vec![(fname("token_id"), ArgSpec::from_non_empty("Index"))],
                    valencies: Vec::new(),
                    errors: vec![TOKEN_NOT_EXIST],
                    default_assignment: Some(fname("beneficiary")),
                },
            ),
            (
                fname("SafeTransferFrom"),
                TransitionIface {
                    optional: false,
                    metadata: None,
                    globals: Vec::new(),
                    inputs: vec![
                        (fname("from"), ArgSpec::from_non_empty("account")),
                        (fname("to"), ArgSpec::from_non_empty("account")),
                        (fname("token_id"), ArgSpec::from_non_empty("Index")),
                    ],
                    valencies: Vec::new(),
                    errors: vec![TOKEN_NOT_EXIST],
                    default_assignment: Some(fname("beneficiary")),
                },
            ),
            (
                fname("TransferFrom"),
                TransitionIface {
                    optional: true,
                    metadata: None,
                    globals: Vec::new(),
                    inputs: vec![
                        (fname("from"), ArgSpec::from_non_empty("Account")),
                        (fname("to"), ArgSpec::from_non_empty("Account")),
                        (fname("token_id"), ArgSpec::from_non_empty("Index")),
                    ],
                    valencies: Vec::new(),
                    errors: vec![
                        SUPPLY_MISMATCH,
                        INVALID_PROOF,
                        ISSUE_EXCEEDS_ALLOWANCE,
                        INSUFFICIENT_RESERVES,
                    ],
                    default_assignment: Some(fname("beneficiary")),
                },
            ),
            (
                fname("Approve"),
                TransitionIface {
                    optional: true,
                    metadata: None,
                    globals: Vec::new(),
                    inputs: vec![
                        (fname("approved"), ArgSpec::from_required("account")),
                        (fname("token_id"), ArgSpec::from_required("Index")),
                    ],
                    valencies: Vec::new(),
                    errors: Vec::new(),
                    default_assignment: Some(fname("beneficiary")),
                },
            ),
            (
                fname("SetApprovalForAll"),
                TransitionIface {
                    optional: true,
                    metadata: None,
                    globals: Vec::new(),
                    inputs: vec![
                        (fname("operator"), ArgSpec::from_required("Account")),
                        (fname("approved"), ArgSpec::from_required("Bool")),
                    ],
                    valencies: Vec::new(),
                    errors: vec![SUPPLY_MISMATCH, INVALID_PROOF],
                    default_assignment: None,
                },
            ),
            (
                fname("GetApproved"),
                TransitionIface {
                    optional: true,
                    metadata: None,
                    globals: Vec::new(),
                    inputs: vec![(fname("token_id"), ArgSpec::from_required("Index"))],
                    valencies: Vec::new(),
                    errors: vec![TOKEN_NOT_EXIST, INVALID_PROOF],
                    default_assignment: None,
                },
            ),
            (
                fname("IsApprovedForAll"),
                TransitionIface {
                    optional: true,
                    metadata: None,
                    globals: Vec::new(),
                    inputs: vec![
                        (fname("owner"), ArgSpec::from_required("account")),
                        (fname("operator"), ArgSpec::from_required("account")),
                    ],
                    valencies: Vec::new(),
                    errors: vec![INVALID_PROOF],
                    default_assignment: None,
                },
            ),
        ],
        error_type: crate::typesys::resolve_primitive(PRIM_U8),
        default_operation: Some(fname("SafeTransferFrom")),
    };
    proof {
        assert(r@.global_state =~= spec_rgb_e721().global_state);
        assert(r@.assignments =~= spec_rgb_e721().assignments);
        assert(r@.genesis =~= spec_rgb_e721().genesis);
        assert(r@.transitions[0].1 =~= spec_rgb_e721().transitions[0].1);
        assert(r@.transitions[1].1 =~= spec_rgb_e721().transitions[1].1);
        assert(r@.transitions[2].1 =~= spec_rgb_e721().transitions[2].1);
        assert(r@.transitions[3].1 =~= spec_rgb_e721().transitions[3].1);
        assert(r@.transitions[4].1 =~= spec_rgb_e721().transitions[4].1);
        assert(r@.transitions[5].1 =~= spec_rgb_e721().transitions[5].1);
        assert(r@.transitions[6].1 =~= spec_rgb_e721().transitions[6].1);
        assert(r@.transitions =~= spec_rgb_e721().transitions);
        assert(r@ =~= spec_rgb_e721());
    }
    r
}

/// A transition schema over the single owned state: `inp` items are spent
/// and `out` items created, each once or more when declared.
pub open spec fn spec_uda_ts(inp: bool, out: bool) -> TransitionSchemaV {
    TransitionSchemaV {
        metadata_type: primitive_ref(PRIM_UNIT),
        globals: Seq::empty(),
        inputs: if inp {
            seq![(OS_ASSET, Occurrence::OnceOrMore)]
        } else {
            Seq::empty()
        },
        assignments: if out {
            seq![(OS_ASSET, Occurrence::OnceOrMore)]
        } else {
            Seq::empty()
        },
        valencies: Seq::empty(),
    }
}

/// The schema of the non-fungible standard, field for field. Its
/// validation script is empty: the standard declares no script routine.
pub open spec fn spec_uda_schema() -> SchemaV {
    SchemaV {
        ffv: 0,
        subset_of: None,
        type_system: spec_standard_types(),
        global_types: seq![
            (
                GS_NAME,
                GlobalStateSchema {
                    sem_type: primitive_ref(PRIM_BYTE),
                    occurrence: Occurrence::Once,
                },
            ),
            (
                GS_SYMBOL,
                GlobalStateSchema {
                    sem_type: primitive_ref(PRIM_U128),
                    occurrence: Occurrence::Once,
                },
            ),
            (
                GS_TOTAL_SUPPLY,
                GlobalStateSchema {
                    sem_type: primitive_ref(PRIM_U64),
                    occurrence: Occurrence::Once,
                },
            ),
            (
                GS_TOKEN_BY_INDEX,
                GlobalStateSchema {
                    sem_type: primitive_ref(PRIM_U64),
                    occurrence: Occurrence::Once,
                },
            ),
            (
                GS_TOKEN_OF_OWNER_BY_INDEX,
                GlobalStateSchema {
                    sem_type: primitive_ref(PRIM_U64),
                    occurrence: Occurrence::Once,
                },
            ),
            (
                GS_INIT,
                GlobalStateSchema {
                    sem_type: primitive_ref(PRIM_UNIT),
                    occurrence: Occurrence::Once,
                },
            ),
        ],
        owned_types: seq![(OS_ASSET, StateSchema::Structured(primitive_ref(PRIM_U256)))],
        valency_types: Seq::empty(),
        genesis: GenesisSchemaV {
            metadata_type: primitive_ref(PRIM_UNIT),
            globals: seq![(GS_INIT, Occurrence::Once)],
            assignments: seq![(OS_ASSET, Occurrence::Once)],
            valencies: Seq::empty(),
        },
        extensions: Seq::empty(),
        transitions: seq![
            (TS_OWNER_OF, spec_uda_ts(true, false)),
            (TS_SAFE_TRANSFER_FROM, spec_uda_ts(false, true)),
            (TS_TRANSFER_FROM, spec_uda_ts(true, true)),
            (TS_APPROVE, spec_uda_ts(true, false)),
            (TS_SET_APPROVAL_FOR_ALL, spec_uda_ts(true, true)),
            (TS_GET_APPROVED, spec_uda_ts(true, false)),
            (TS_IS_APPROVED_FOR_ALL, spec_uda_ts(true, true)),
        ],
        script: ScriptV { libs: Seq::empty(), entry_points: Seq::empty() },
    }
}

/// Builds one transition schema over the single owned state.
fn uda_ts(inp: bool, out: bool) -> (r: TransitionSchema)
    ensures
        r.deep_view() == spec_uda_ts(inp, out),
{
    let r = TransitionSchema {
        metadata_type: crate::typesys::resolve_primitive(PRIM_UNIT),
        globals: Vec::new(),
        inputs: if inp {
            vec![(OS_ASSET, Occurrence::OnceOrMore)]
        } else {
            Vec::new()
        },
        assignments: if out {
            vec![(OS_ASSET, Occurrence::OnceOrMore)]
        } else {
            Vec::new()
        },
        valencies: Vec::new(),
    };
    proof {
        assert(r.deep_view() =~= spec_uda_ts(inp, out));
    }
    r
}

/// Builds the schema of the non-fungible standard.
#[verifier::rlimit(100)]
#[verifier::spinoff_prover]
pub fn uda_schema() -> (r: Schema)
    ensures
        r@ == spec_uda_schema(),
{
    let r = Schema {
        ffv: 0,
        subset_of: None,
        type_system: standard_types(),
        global_types: vec![
            (GS_NAME, GlobalStateSchema::once(crate::typesys::resolve_primitive(PRIM_BYTE))),
            (GS_SYMBOL, GlobalStateSchema::once(crate::typesys::resolve_primitive(PRIM_U128))),
            (
                GS_TOTAL_SUPPLY,
                GlobalStateSchema::once(crate::typesys::resolve_primitive(PRIM_U64)),
            ),
            (
                GS_TOKEN_BY_INDEX,
                GlobalStateSchema::once(crate::typesys::resolve_primitive(PRIM_U64)),
            ),
            (
                GS_TOKEN_OF_OWNER_BY_INDEX,
                GlobalStateSchema::once(crate::typesys::resolve_primitive(PRIM_U64)),
            ),
            (GS_INIT, GlobalStateSchema::once(crate::typesys::resolve_primitive(PRIM_UNIT))),
        ],
        owned_types: vec![
            (OS_ASSET, StateSchema::Structured(crate::typesys::resolve_primitive(PRIM_U256))),
        ],
        valency_types: Vec::new(),
        genesis: GenesisSchema {
            metadata_type: crate::typesys::resolve_primitive(PRIM_UNIT),
            globals: vec![(GS_INIT, Occurrence::Once)],
            assignments: vec![(OS_ASSET, Occurrence::Once)],
            valencies: Vec::new(),
        },
        extensions: Vec::new(),
        transitions: vec![
            (TS_OWNER_OF, uda_ts(true, false)),
            (TS_SAFE_TRANSFER_FROM, uda_ts(false, true)),
            (TS_TRANSFER_FROM, uda_ts(true, true)),
            (TS_APPROVE, uda_ts(true, false)),
            (TS_SET_APPROVAL_FOR_ALL, uda_ts(true, true)),
            (TS_GET_APPROVED, uda_ts(true, false)),
            (TS_IS_APPROVED_FOR_ALL, uda_ts(true, true)),
        ],
        script: Script { libs: Vec::new(), entry_points: Vec::new() },
    };
    proof {
        assert(r@.type_system =~= spec_uda_schema().type_system);
        assert(r@.global_types =~= spec_uda_schema().global_types);
        assert(r@.owned_types =~= spec_uda_schema().owned_types);
        assert(r@.genesis =~= spec_uda_schema().genesis);
        assert(r@.transitions =~= spec_uda_schema().transitions);
        assert(r@.script =~= spec_uda_schema().script);
        assert(r@ =~= spec_uda_schema());
    }
    r
}

/// Reveals every name the non-fungible standard uses, so that facts about
/// the concrete values (distinctness, lengths) become first order.
#[verifier::rlimit(100)]
#[verifier::spinoff_prover]
proof fn lemma_e721_names()
    ensures
        "OwnerOf".spec_bytes() != "Approve".spec_bytes(),
        "SafeTransferFrom".spec_bytes() != "IsApprovedForAll".spec_bytes(),
        "token_id".spec_bytes() != "approved".spec_bytes(),
        "operator".spec_bytes() != "approved".spec_bytes(),
        "token_id".spec_bytes() != "operator".spec_bytes(),
        "RGB-E721".spec_bytes().len() == 8,
        "name".spec_bytes().len() == 4,
        "symbol".spec_bytes().len() == 6,
        "total_supply".spec_bytes().len() == 12,
        "token_by_index".spec_bytes().len() == 14,
        "token_of_owner_by_index".spec_bytes().len() == 23,
        "beneficiary".spec_bytes().len() == 11,
        "init".spec_bytes().len() == 4,
        "OwnerOf".spec_bytes().len() == 7,
        "SafeTransferFrom".spec_bytes().len() == 16,
        "TransferFrom".spec_bytes().len() == 12,
        "Approve".spec_bytes().len() == 7,
        "SetApprovalForAll".spec_bytes().len() == 17,
        "GetApproved".spec_bytes().len() == 11,
        "IsApprovedForAll".spec_bytes().len() == 16,
        "token_id".spec_bytes().len() == 8,
        "from".spec_bytes().len() == 4,
        "to".spec_bytes().len() == 2,
        "approved".spec_bytes().len() == 8,
        "operator".spec_bytes().len() == 8,
        "owner".spec_bytes().len() == 5,
        "account".spec_bytes().len() == 7,
        "Account".spec_bytes().len() == 7,
        "Index".spec_bytes().len() == 5,
        "Bool".spec_bytes().len() == 4,
{
    reveal_strlit("RGB-E721");
    reveal_strlit("name");
    reveal_strlit("symbol");
    reveal_strlit("total_supply");
    reveal_strlit("token_by_index");
    reveal_strlit("token_of_owner_by_index");
    reveal_strlit("beneficiary");
    reveal_strlit("init");
    reveal_strlit("OwnerOf");
    reveal_strlit("SafeTransferFrom");
    reveal_strlit("TransferFrom");
    reveal_strlit("Approve");
    reveal_strlit("SetApprovalForAll");
    reveal_strlit("GetApproved");
    reveal_strlit("IsApprovedForAll");
    reveal_strlit("token_id");
    reveal_strlit("from");
    reveal_strlit("to");
    reveal_strlit("approved");
    reveal_strlit("operator");
    reveal_strlit("owner");
    reveal_strlit("account");
    reveal_strlit("Account");
    reveal_strlit("Index");
    reveal_strlit("Bool");
    broadcast use vstd::string::is_ascii_spec_bytes;

    assert(is_ascii("RGB-E721"));
    assert(is_ascii("name"));
    assert(is_ascii("symbol"));
    assert(is_ascii("total_supply"));
    assert(is_ascii("token_by_index"));
    assert(is_ascii("token_of_owner_by_index"));
    assert(is_ascii("beneficiary"));
    assert(is_ascii("init"));
    assert(is_ascii("OwnerOf"));
    assert(is_ascii("SafeTransferFrom"));
    assert(is_ascii("TransferFrom"));
    assert(is_ascii("Approve"));
    assert(is_ascii("SetApprovalForAll"));
    assert(is_ascii("GetApproved"));
    assert(is_ascii("IsApprovedForAll"));
    assert(is_ascii("token_id"));
    assert(is_ascii("from"));
    assert(is_ascii("to"));
    assert(is_ascii("approved"));
    assert(is_ascii("operator"));
    assert(is_ascii("owner"));
    assert(is_ascii("account"));
    assert(is_ascii("Account"));
    assert(is_ascii("Index"));
    assert(is_ascii("Bool"));
    assert("OwnerOf".spec_bytes()[0] == 'O' as u8);
    assert("Approve".spec_bytes()[0] == 'A' as u8);
    assert("SafeTransferFrom".spec_bytes()[0] == 'S' as u8);
    assert("IsApprovedForAll".spec_bytes()[0] == 'I' as u8);
    assert("token_id".spec_bytes()[0] == 't' as u8);
    assert("approved".spec_bytes()[0] == 'a' as u8);
    assert("operator".spec_bytes()[0] == 'o' as u8);
}

/// The non-fungible interface's name maps all have unique keys.
#[verifier::rlimit(100)]
#[verifier::spinoff_prover]
proof fn lemma_rgb_e721_names_unique()
    ensures
        spec_rgb_e721().names_unique(),
{
    lemma_e721_names();
    let iv = spec_rgb_e721();
    assert(crate::maps::keys_unique(iv.global_state));
    assert(crate::maps::keys_unique(iv.assignments));
    assert(crate::maps::keys_unique(iv.transitions));
    assert(crate::maps::keys_unique(iv.genesis.global));
    assert(crate::maps::keys_unique(iv.genesis.assignments));
    assert forall|i: int| 0 <= i < iv.transitions.len() implies crate::maps::keys_unique(
        #[trigger] iv.transitions[i].1.globals,
    ) && crate::maps::keys_unique(iv.transitions[i].1.inputs) by {
        assert(crate::maps::keys_unique(spec_ts_safe_transfer_from().inputs));
        assert(crate::maps::keys_unique(spec_ts_transfer_from().inputs));
        assert(crate::maps::keys_unique(spec_ts_approve().inputs));
        assert(crate::maps::keys_unique(spec_ts_set_approval_for_all().inputs));
        assert(crate::maps::keys_unique(spec_ts_is_approved_for_all().inputs));
    }
}

/// The non-fungible interface's cross-references resolve.
#[verifier::rlimit(100)]
#[verifier::spinoff_prover]
proof fn lemma_rgb_e721_refs()
    ensures
        spec_rgb_e721().refs_resolve(),
{
    lemma_e721_names();
    let iv = spec_rgb_e721();
    assert(iv.assignments[0].0 == "beneficiary".spec_bytes());
    assert(map_has(iv.assignments, "beneficiary".spec_bytes()));
    assert(iv.transitions[1].0 == "SafeTransferFrom".spec_bytes());
    assert(map_has(iv.transitions, "SafeTransferFrom".spec_bytes()));
    assert(iv.refs_resolve());
}

/// The non-fungible interface's value is small enough to encode.
#[verifier::rlimit(100)]
#[verifier::spinoff_prover]
proof fn lemma_rgb_e721_fits()
    ensures
        Iface::fits(spec_rgb_e721()),
{
    lemma_e721_names();
    let iv = spec_rgb_e721();
    assert(TransitionIface::fits(spec_ts_owner_of()));
    assert(TransitionIface::fits(spec_ts_safe_transfer_from()));
    assert(TransitionIface::fits(spec_ts_transfer_from()));
    assert(TransitionIface::fits(spec_ts_approve()));
    assert(TransitionIface::fits(spec_ts_set_approval_for_all()));
    assert(TransitionIface::fits(spec_ts_get_approved()));
    assert(TransitionIface::fits(spec_ts_is_approved_for_all()));
    assert forall|i: int| 0 <= i < iv.transitions.len() implies <(
        FieldName,
        TransitionIface,
    ) as Wire>::fits(#[trigger] iv.transitions[i]) by {}
    assert(<Vec<(FieldName, TransitionIface)> as Wire>::fits(iv.transitions));
    assert(Iface::fits(iv));
}

/// The non-fungible interface is well formed and small enough to encode.
pub proof fn lemma_rgb_e721_wf()
    ensures
        spec_rgb_e721().wf(),
        Iface::fits(spec_rgb_e721()),
{
    lemma_rgb_e721_names_unique();
    lemma_rgb_e721_refs();
    lemma_rgb_e721_fits();
}

/// The non-fungible schema is well formed and small enough to encode.
#[verifier::rlimit(100)]
#[verifier::spinoff_prover]
pub proof fn lemma_uda_schema_wf()
    ensures
        spec_uda_schema().wf(),
        Schema::fits(spec_uda_schema()),
{
    crate::stl::lemma_standard_types_wf();
    let sv = spec_uda_schema();
    assert(sv.global_types[5].0 == GS_INIT);
    assert(map_has(sv.global_types, GS_INIT));
    assert(sv.owned_types[0].0 == OS_ASSET);
    assert(map_has(sv.owned_types, OS_ASSET));
    assert(sv.ids_canonical());
    assert forall|i: int| 0 <= i < sv.transitions.len() implies {
        let t = (#[trigger] sv.transitions[i]).1;
        sv.op_refs_resolve(t.globals, t.inputs, t.assignments, t.valencies)
    } by {
        assert(map_has(sv.owned_types, OS_ASSET));
    }
}

/// The drafted element mappings of the non-fungible binding.
pub open spec fn spec_uda_draft() -> BindingDraftV {
    BindingDraftV {
        genesis_iface: seq![NamedPairV { id: GS_INIT, name: "init".spec_bytes() }],
        global_state: seq![
            NamedPairV { id: GS_NAME, name: "name".spec_bytes() },
            NamedPairV { id: GS_SYMBOL, name: "symbol".spec_bytes() },
            NamedPairV { id: GS_TOTAL_SUPPLY, name: "total_supply".spec_bytes() },
            NamedPairV { id: GS_TOKEN_BY_INDEX, name: "token_by_index".spec_bytes() },
            NamedPairV {
                id: GS_TOKEN_OF_OWNER_BY_INDEX,
                name: "token_of_owner_by_index".spec_bytes(),
            },
        ],
        assignments: seq![NamedPairV { id: OS_ASSET, name: "beneficiary".spec_bytes() }],
        transitions: seq![
            NamedPairV { id: TS_OWNER_OF, name: "OwnerOf".spec_bytes() },
            NamedPairV { id: TS_SAFE_TRANSFER_FROM, name: "SafeTransferFrom".spec_bytes() },
            NamedPairV { id: TS_TRANSFER_FROM, name: "TransferFrom".spec_bytes() },
            NamedPairV { id: TS_APPROVE, name: "Approve".spec_bytes() },
            NamedPairV { id: TS_SET_APPROVAL_FOR_ALL, name: "SetApprovalForAll".spec_bytes() },
            NamedPairV { id: TS_GET_APPROVED, name: "GetApproved".spec_bytes() },
            NamedPairV { id: TS_IS_APPROVED_FOR_ALL, name: "IsApprovedForAll".spec_bytes() },
        ],
    }
}

/// Each global state slot of the non-fungible interface is covered by the
/// draft.
#[verifier::rlimit(100)]
#[verifier::spinoff_prover]
proof fn lemma_uda_globals_covered()
    ensures
        forall|j: int|
            0 <= j < spec_rgb_e721().global_state.len() ==> covers_in(
                spec_uda_draft().global_state,
                spec_uda_schema().global_types,
                (#[trigger] spec_rgb_e721().global_state[j]).0,
            ),
{
    lemma_e721_names();
    let iv = spec_rgb_e721();
    let sv = spec_uda_schema();
    let dv = spec_uda_draft();
    assert(covers_in(dv.global_state, sv.global_types, "name".spec_bytes())) by {
        assert(dv.global_state[0].name == "name".spec_bytes());
        assert(sv.global_types[0].0 == GS_NAME);
    }
    assert(covers_in(dv.global_state, sv.global_types, "symbol".spec_bytes())) by {
        assert(dv.global_state[1].name == "symbol".spec_bytes());
        assert(sv.global_types[1].0 == GS_SYMBOL);
    }
    assert(covers_in(dv.global_state, sv.global_types, "total_supply".spec_bytes())) by {
        assert(dv.global_state[2].name == "total_supply".spec_bytes());
        assert(sv.global_types[2].0 == GS_TOTAL_SUPPLY);
    }
    assert(covers_in(dv.global_state, sv.global_types, "token_by_index".spec_bytes())) by {
        assert(dv.global_state[3].name == "token_by_index".spec_bytes());
        assert(sv.global_types[3].0 == GS_TOKEN_BY_INDEX);
    }
    assert(covers_in(
        dv.global_state,
        sv.global_types,
        "token_of_owner_by_index".spec_bytes(),
    )) by {
        assert(dv.global_state[4].name == "token_of_owner_by_index".spec_bytes());
        assert(sv.global_types[4].0 == GS_TOKEN_OF_OWNER_BY_INDEX);
    }
}

/// The drafted non-fungible binding passes the coverage check.
#[verifier::rlimit(100)]
#[verifier::spinoff_prover]
proof fn lemma_uda_coverage()
    ensures
        coverage_ok(spec_rgb_e721(), spec_uda_schema(), spec_uda_draft()),
{
    lemma_e721_names();
    lemma_uda_globals_covered();
    let iv = spec_rgb_e721();
    let sv = spec_uda_schema();
    let dv = spec_uda_draft();
    assert(covers_assign(
        dv.assignments,
        sv.owned_types,
        "beneficiary".spec_bytes(),
        iv.assignments[0].1,
    )) by {
        assert(dv.assignments[0].name == "beneficiary".spec_bytes());
        assert(sv.owned_types[0].0 == OS_ASSET);
        lemma_map_get_at(sv.owned_types, 0);
    }
    assert(covers_in(dv.genesis_iface, sv.genesis.globals, "init".spec_bytes())) by {
        assert(dv.genesis_iface[0].name == "init".spec_bytes());
        assert(sv.genesis.globals[0].0 == GS_INIT);
    }
    assert(covers_in(dv.transitions, sv.transitions, "OwnerOf".spec_bytes())) by {
        assert(dv.transitions[0].name == "OwnerOf".spec_bytes());
        assert(sv.transitions[0].0 == TS_OWNER_OF);
    }
    assert(covers_in(dv.transitions, sv.transitions, "SafeTransferFrom".spec_bytes())) by {
        assert(dv.transitions[1].name == "SafeTransferFrom".spec_bytes());
        assert(sv.transitions[1].0 == TS_SAFE_TRANSFER_FROM);
    }
    assert(coverage_ok(iv, sv, dv));
}

/// The drafted non-fungible binding passes the injectivity check.
#[verifier::rlimit(100)]
#[verifier::spinoff_prover]
proof fn lemma_uda_injectivity()
    ensures
        injectivity_ok(spec_uda_draft()),
{
    lemma_e721_names();
    let dv = spec_uda_draft();
    assert(set_injective(dv.genesis_iface));
    assert(set_injective(dv.global_state));
    assert(set_injective(dv.assignments));
    assert(set_injective(dv.transitions));
}

/// The drafted non-fungible binding passes the type compatibility check.
#[verifier::rlimit(100)]
#[verifier::spinoff_prover]
proof fn lemma_uda_types()
    ensures
        types_ok(spec_rgb_e721(), spec_uda_schema(), spec_uda_draft()),
{
    lemma_e721_names();
    lemma_rgb_e721_wf();
    let iv = spec_rgb_e721();
    let sv = spec_uda_schema();
    let dv = spec_uda_draft();
    assert forall|k: int| 0 <= k < dv.global_state.len() implies {
        let e = #[trigger] dv.global_state[k];
        map_has(iv.global_state, e.name) && map_has(sv.global_types, e.id) && map_get(
            iv.global_state,
            e.name,
        ).sem_type == map_get(sv.global_types, e.id).sem_type
    } by {
        lemma_map_get_at(iv.global_state, 0);
        lemma_map_get_at(iv.global_state, 1);
        lemma_map_get_at(iv.global_state, 2);
        lemma_map_get_at(iv.global_state, 3);
        lemma_map_get_at(iv.global_state, 4);
        lemma_map_get_at(sv.global_types, 0);
        lemma_map_get_at(sv.global_types, 1);
        lemma_map_get_at(sv.global_types, 2);
        lemma_map_get_at(sv.global_types, 3);
        lemma_map_get_at(sv.global_types, 4);
    }
    assert forall|k: int| 0 <= k < dv.assignments.len() implies {
        let e = #[trigger] dv.assignments[k];
        map_has(iv.assignments, e.name) && map_has(sv.owned_types, e.id)
            && crate::binding::assign_compat(
            map_get(iv.assignments, e.name).owned,
            map_get(sv.owned_types, e.id),
        )
    } by {
        lemma_map_get_at(iv.assignments, 0);
        lemma_map_get_at(sv.owned_types, 0);
    }
    assert forall|k: int| 0 <= k < dv.genesis_iface.len() implies {
        let e = #[trigger] dv.genesis_iface[k];
        map_has(iv.genesis.global, e.name) && map_has(sv.genesis.globals, e.id)
    } by {
        assert(iv.genesis.global[0].0 == "init".spec_bytes());
        assert(sv.genesis.globals[0].0 == GS_INIT);
    }
    assert forall|k: int| 0 <= k < dv.transitions.len() implies {
        let e = #[trigger] dv.transitions[k];
        map_has(iv.transitions, e.name) && map_has(sv.transitions, e.id)
    } by {
        assert forall|k: int| 0 <= k < dv.transitions.len() implies map_has(
            iv.transitions,
            (#[trigger] dv.transitions[k]).name,
        ) by {
            assert(iv.transitions[k].0 == dv.transitions[k].name);
        }
        assert forall|k: int| 0 <= k < dv.transitions.len() implies map_has(
            sv.transitions,
            (#[trigger] dv.transitions[k]).id,
        ) by {
            assert(sv.transitions[k].0 == dv.transitions[k].id);
        }
    }
    assert(types_ok(iv, sv, dv));
}

/// The drafted non-fungible binding passes all three checks of `bind`
/// against the standard's interface and schema.
pub proof fn lemma_uda_draft_checks()
    ensures
        coverage_ok(spec_rgb_e721(), spec_uda_schema(), spec_uda_draft()),
        injectivity_ok(spec_uda_draft()),
        types_ok(spec_rgb_e721(), spec_uda_schema(), spec_uda_draft()),
{
    lemma_uda_coverage();
    lemma_uda_injectivity();
    lemma_uda_types();
}

/// Builds the verified binding of the non-fungible interface onto its
/// schema. The result is exactly what `bind` returns for the standard's
/// interface, schema and drafted mappings, which pass all three of its
/// checks.
#[verifier::rlimit(100)]
#[verifier::spinoff_prover]
pub fn uda_rgb721() -> (r: IfaceImpl)
    ensures
        r@ == bound_impl(spec_rgb_e721(), spec_uda_schema(), spec_uda_draft()),
{
    let iface = rgb_e721();
    let schema = uda_schema();
    let draft = BindingDraft {
        genesis_iface: vec![NamedField::with(GS_INIT, fname("init"))],
        global_state: vec![
            NamedField::with(GS_NAME, fname("name")),
            NamedField::with(GS_SYMBOL, fname("symbol")),
            NamedField::with(GS_TOTAL_SUPPLY, fname("total_supply")),
            NamedField::with(GS_TOKEN_BY_INDEX, fname("token_by_index")),
            NamedField::with(GS_TOKEN_OF_OWNER_BY_INDEX, fname("token_of_owner_by_index")),
        ],
        assignments: vec![NamedField::with(OS_ASSET, fname("beneficiary"))],
        transitions: vec![
            NamedType::with(TS_OWNER_OF, fname("OwnerOf")),
            NamedType::with(TS_SAFE_TRANSFER_FROM, fname("SafeTransferFrom")),
            NamedType::with(TS_TRANSFER_FROM, fname("TransferFrom")),
            NamedType::with(TS_APPROVE, fname("Approve")),
            NamedType::with(TS_SET_APPROVAL_FOR_ALL, fname("SetApprovalForAll")),
            NamedType::with(TS_GET_APPROVED, fname("GetApproved")),
            NamedType::with(TS_IS_APPROVED_FOR_ALL, fname("IsApprovedForAll")),
        ],
    };
    proof {
        assert(draft.genesis_iface.deep_view() =~= spec_uda_draft().genesis_iface);
        assert(draft.global_state.deep_view() =~= spec_uda_draft().global_state);
        assert(draft.assignments.deep_view() =~= spec_uda_draft().assignments);
        assert(draft.transitions.deep_view() =~= spec_uda_draft().transitions);
        assert(draft.deep_view() =~= spec_uda_draft());
        lemma_rgb_e721_wf();
        lemma_uda_schema_wf();
        lemma_uda_draft_checks();
    }
    match bind(&iface, &schema, draft) {
        Ok(im) => im,
        Err(_) => {
            proof {
                assert(false);
            }
            vstd::pervasive::unreached()
        },
    }
}

} // verus!
