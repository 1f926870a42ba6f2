//! The fungible token standard: its interface, its schema and the binding
//! that joins them.

use vstd::prelude::*;
use vstd::string::{is_ascii, StringSliceAdditionalSpecFns};

use crate::binding::{
    bound_impl, coverage_ok, covers_assign, covers_in, injectivity_ok, set_injective, types_ok,
    bind, BindingDraft, BindingDraftV, IfaceImpl, NamedField, NamedPairV, NamedType,
};
use crate::codec::Wire;
use crate::ident::fname;
use crate::iface::{
    ArgSpec, ArgSpecV, AssignIface, GenesisIface, GenesisIfaceV, GlobalIface, Iface, IfaceV,
    OwnedIface, Req, TransitionIface, TransitionIfaceV, VerNo,
};
use crate::maps::{lemma_map_get_at, map_get, map_has};
use crate::occurrence::Occurrence;
use crate::schema::{
    EntryPoint, FungibleType, GenesisSchema, GenesisSchemaV, GlobalStateSchema, LibSite, Schema,
    SchemaV, Script, ScriptLib, ScriptLibV, ScriptV, StateSchema, TransitionSchema,
    TransitionSchemaV, resolve_script_lib, script_lib_ref,
};
use crate::stl::{
    spec_standard_types, standard_types, PRIM_BYTE, PRIM_U128, PRIM_U64, PRIM_U8, PRIM_UNIT,
};
use crate::token::{Account, U256};
use crate::typesys::primitive_ref;

verus! {

/// Numeric code of the supply-mismatch failure.
pub const SUPPLY_MISMATCH: u8 = 1;

/// Numeric code of the unequal-amounts failure.
pub const NON_EQUAL_AMOUNTS: u8 = 2;

/// Numeric code of the invalid-proof failure.
pub const INVALID_PROOF: u8 = 3;

/// Numeric code of the insufficient-reserves failure.
pub const INSUFFICIENT_RESERVES: u8 = 4;

/// Numeric code of the insufficient-coverage failure.
pub const INSUFFICIENT_COVERAGE: u8 = 5;

/// Numeric code of the issue-exceeds-allowance failure.
pub const ISSUE_EXCEEDS_ALLOWANCE: u8 = 6;

/// The closed failure taxonomy of the fungible standard. The numeric code
/// of each variant is part of the wire-stable contract and is never
/// reassigned.
#[derive(Clone, Copy, Debug, PartialEq, Eq, Hash, Structural)]
pub enum Error {
    SupplyMismatch,
    NonEqualAmounts,
    InvalidProof,
    InsufficientReserves,
    InsufficientCoverage,
    IssueExceedsAllowance,
}

impl Error {
    /// The wire-stable numeric code of the failure.
    pub fn code(self) -> (r: u8)
        ensures
            r == match self {
                Error::SupplyMismatch => SUPPLY_MISMATCH,
                Error::NonEqualAmounts => NON_EQUAL_AMOUNTS,
                Error::InvalidProof => INVALID_PROOF,
                Error::InsufficientReserves => INSUFFICIENT_RESERVES,
                Error::InsufficientCoverage => INSUFFICIENT_COVERAGE,
                Error::IssueExceedsAllowance => ISSUE_EXCEEDS_ALLOWANCE,
            },
    {
        match self {
            Error::SupplyMismatch => SUPPLY_MISMATCH,
            Error::NonEqualAmounts => NON_EQUAL_AMOUNTS,
            Error::InvalidProof => INVALID_PROOF,
            Error::InsufficientReserves => INSUFFICIENT_RESERVES,
            Error::InsufficientCoverage => INSUFFICIENT_COVERAGE,
            Error::IssueExceedsAllowance => ISSUE_EXCEEDS_ALLOWANCE,
        }
    }

    /// The variant carrying the code, exactly when one does.
    pub fn from_code(code: u8) -> (r: Option<Error>)
        ensures
            match r {
                Some(e) => e.code_spec() == code,
                None => code == 0 || code > 6,
            },
    {
        match code {
            1u8 => Some(Error::SupplyMismatch),
            2u8 => Some(Error::NonEqualAmounts),
            3u8 => Some(Error::InvalidProof),
            4u8 => Some(Error::InsufficientReserves),
            5u8 => Some(Error::InsufficientCoverage),
            6u8 => Some(Error::IssueExceedsAllowance),
            _ => None,
        }
    }

    /// The numeric code, as a specification value.
    pub open spec fn code_spec(self) -> u8 {
        match self {
            Error::SupplyMismatch => SUPPLY_MISMATCH,
            Error::NonEqualAmounts => NON_EQUAL_AMOUNTS,
            Error::InvalidProof => INVALID_PROOF,
            Error::InsufficientReserves => INSUFFICIENT_RESERVES,
            Error::InsufficientCoverage => INSUFFICIENT_COVERAGE,
            Error::IssueExceedsAllowance => ISSUE_EXCEEDS_ALLOWANCE,
        }
    }
}

/// The runtime record of a fungible token contract.
#[derive(Clone, Debug, PartialEq, Eq)]
pub struct RgbE20 {
    pub name: String,
    pub symbol: String,
    pub owner: Account,
    pub total_supply: U256,
}

impl RgbE20 {
    /// A fresh record with the given nominal data.
    pub fn new(name: String, symbol: String, owner: Account, total_supply: U256) -> (r: RgbE20)
        ensures
            r.name@ == name@,
            r.symbol@ == symbol@,
            r.owner == owner,
            r.total_supply == total_supply,
    {
        RgbE20 { name, symbol, owner, total_supply }
    }
}

/// The abstract capability set of a fungible token contract.
pub trait RgbE20Iface {
    /// Issues the contract with its nominal data.
    fn init(&self, name: &str, symbol: &str);

    /// Moves `value` to `to`.
    fn transfer(to: Account, value: u64) -> bool;

    /// Moves `value` from `from` to `to` on the caller's allowance.
    fn transfer_from(from: Account, to: Account, value: u64) -> bool;

    /// Grants `spender` an allowance of `value`.
    fn approve(spender: Account, value: u64) -> bool;

    /// Creates `value` new units owned by `to`.
    fn mint(to: Account, value: u64) -> bool;

    /// Destroys `value` units owned by `from`.
    fn burn(from: Account, value: u64) -> bool;

    /// The balance of `account`.
    fn balance_of(account: Account) -> u64;

    /// The allowance `owner` granted to `spender`.
    fn allowance(owner: Account, spender: Account) -> u64;

    /// The contract's name.
    fn name() -> String;

    /// The contract's ticker symbol.
    fn symbol() -> String;

    /// The number of decimal places of one unit.
    fn decimals() -> u64;

    /// The total number of units issued.
    fn total_supply() -> u64;
}

/// Global state id of the contract name.
pub const GS_NAME: u16 = 20000;

/// Global state id of the ticker symbol.
pub const GS_SYMBOL: u16 = 20001;

/// Global state id of the decimal precision.
pub const GS_DECIMALS: u16 = 20002;

/// Global state id of the total supply.
pub const GS_TOTAL_SUPPLY: u16 = 20003;

/// Global state id of the issuance record.
pub const GS_INIT: u16 = 20004;

/// Owned state id of the asset amounts.
pub const OS_ASSETS: u16 = 20000;

/// Transition id of `Transfer`.
pub const TS_TRANSFER: u16 = 20000;

/// Transition id of `Issue`.
pub const TS_ISSUE: u16 = 20001;

/// Transition id of `TransferFrom`.
pub const TS_TRANSFER_FROM: u16 = 20002;

/// Transition id of `Burn`.
pub const TS_BURN: u16 = 20003;

/// Transition id of `Approve`.
pub const TS_APPROVE: u16 = 20004;

/// Transition id of `Mint`.
pub const TS_MINT: u16 = 20005;

/// Transition id of `BalanceOf`.
pub const TS_BALANCE_OF: u16 = 20006;

/// Transition id of `Allowance`.
pub const TS_ALLOWANCE: u16 = 20007;

/// The interface of the fungible standard, field for field.
pub open spec fn spec_rgb_e20() -> IfaceV {
    IfaceV {
        version: VerNo::V1,
        name: "RGB-E20".spec_bytes(),
        global_state: seq![
            (
                "name".spec_bytes(),
                GlobalIface { sem_type: primitive_ref(PRIM_BYTE), req: Req::Required },
            ),
            (
                "symbol".spec_bytes(),
                GlobalIface { sem_type: primitive_ref(PRIM_U128), req: Req::Required },
            ),
            (
                "total_supply".spec_bytes(),
                GlobalIface { sem_type: primitive_ref(PRIM_U64), req: Req::Required },
            ),
            (
                "decimals".spec_bytes(),
                GlobalIface { sem_type: primitive_ref(PRIM_U64), req: Req::OneOrMany },
            ),
        ],
        assignments: seq![
            (
                "beneficiary".spec_bytes(),
                AssignIface { owned: OwnedIface::Amount, req: Req::Required },
            ),
        ],
        genesis: GenesisIfaceV {
            metadata: Some(primitive_ref(PRIM_UNIT)),
            global: seq![
                ("init".spec_bytes(), ArgSpecV { name: None, req: Req::Required }),
            ],
            assignments: Seq::empty(),
            valencies: Seq::empty(),
            errors: seq![INSUFFICIENT_RESERVES],
        },
        transitions: seq![
            ("Transfer".spec_bytes(), spec_ts_transfer()),
            ("Issue".spec_bytes(), spec_ts_issue()),
            ("TransferFrom".spec_bytes(), spec_ts_transfer_from()),
            ("Burn".spec_bytes(), spec_ts_burn()),
            ("Approve".spec_bytes(), spec_ts_approve()),
            ("Mint".spec_bytes(), spec_ts_mint()),
            ("BalanceOf".spec_bytes(), spec_ts_balance_of()),
            ("Allowance".spec_bytes(), spec_ts_allowance()),
        ],
        error_type: primitive_ref(PRIM_U8),
        default_operation: Some("Transfer".spec_bytes()),
    }
}

/// The `Transfer` operation: the one mandatory transition.
pub open spec fn spec_ts_transfer() -> TransitionIfaceV {
    TransitionIfaceV {
        optional: false,
        metadata: None,
        globals: Seq::empty(),
        inputs: seq![
            (
                "to".spec_bytes(),
                ArgSpecV { name: Some("account".spec_bytes()), req: Req::OneOrMany },
            ),
            (
                "value".spec_bytes(),
                ArgSpecV { name: Some("amount".spec_bytes()), req: Req::OneOrMany },
            ),
        ],
        valencies: Seq::empty(),
        errors: seq![NON_EQUAL_AMOUNTS],
        default_assignment: Some("beneficiary".spec_bytes()),
    }
}

/// The `Issue` operation.
pub open spec fn spec_ts_issue() -> TransitionIfaceV {
    TransitionIfaceV {
        optional: true,
        metadata: None,
        globals: Seq::empty(),
        inputs: seq![
            (
                "used".spec_bytes(),
                ArgSpecV { name: Some("inflationAllowance".spec_bytes()), req: Req::OneOrMany },
            ),
        ],
        valencies: Seq::empty(),
        errors: seq![SUPPLY_MISMATCH, INVALID_PROOF, ISSUE_EXCEEDS_ALLOWANCE, INSUFFICIENT_RESERVES],
        default_assignment: Some("beneficiary".spec_bytes()),
    }
}

/// The `TransferFrom` operation.
pub open spec fn spec_ts_transfer_from() -> TransitionIfaceV {
    TransitionIfaceV {
        optional: true,
        metadata: None,
        globals: Seq::empty(),
        inputs: seq![
            (
                "from".spec_bytes(),
                ArgSpecV { name: Some("account".spec_bytes()), req: Req::Required },
            ),
            (
                "to".spec_bytes(),
                ArgSpecV { name: Some("account".spec_bytes()), req: Req::Required },
            ),
            (
                "value".spec_bytes(),
                ArgSpecV { name: Some("amount".spec_bytes()), req: Req::Required },
            ),
        ],
        valencies: Seq::empty(),
        errors: Seq::empty(),
        default_assignment: Some("beneficiary".spec_bytes()),
    }
}

/// The `Burn` operation.
pub open spec fn spec_ts_burn() -> TransitionIfaceV {
    TransitionIfaceV {
        optional: true,
        metadata: None,
        globals: seq![
            ("burnedSupply".spec_bytes(), ArgSpecV { name: None, req: Req::Required }),
        ],
        inputs: seq![
            (
                "used".spec_bytes(),
                ArgSpecV { name: Some("burnRight".spec_bytes()), req: Req::Required },
            ),
        ],
        valencies: Seq::empty(),
        errors: seq![SUPPLY_MISMATCH, INVALID_PROOF, INSUFFICIENT_COVERAGE],
        default_assignment: None,
    }
}

/// The `Approve` operation.
pub open spec fn spec_ts_approve() -> TransitionIfaceV {
    TransitionIfaceV {
        optional: true,
        metadata: None,
        globals: Seq::empty(),
        inputs: seq![
            (
                "spender".spec_bytes(),
                ArgSpecV { name: Some("account".spec_bytes()), req: Req::Required },
            ),
            (
                "value".spec_bytes(),
                ArgSpecV { name: Some("amount".spec_bytes()), req: Req::Required },
            ),
        ],
        valencies: Seq::empty(),
        errors: seq![INVALID_PROOF, INSUFFICIENT_COVERAGE],
        default_assignment: None,
    }
}

/// The `Mint` operation.
pub open spec fn spec_ts_mint() -> TransitionIfaceV {
    TransitionIfaceV {
        optional: true,
        metadata: None,
        globals: Seq::empty(),
        inputs: seq![
            (
                "to".spec_bytes(),
                ArgSpecV { name: Some("account".spec_bytes()), req: Req::Required },
            ),
            (
                "value".spec_bytes(),
                ArgSpecV { name: Some("amount".spec_bytes()), req: Req::Required },
            ),
        ],
        valencies: Seq::empty(),
        errors: seq![INVALID_PROOF, INSUFFICIENT_COVERAGE],
        default_assignment: None,
    }
}

/// The `BalanceOf` query operation.
pub open spec fn spec_ts_balance_of() -> TransitionIfaceV {
    TransitionIfaceV {
        optional: true,
        metadata: None,
        globals: Seq::empty(),
        inputs: seq![
            (
                "account".spec_bytes(),
                ArgSpecV { name: Some("account".spec_bytes()), req: Req::Required },
            ),
        ],
        valencies: Seq::empty(),
        errors: seq![INVALID_PROOF, INSUFFICIENT_COVERAGE],
        default_assignment: None,
    }
}

/// The `Allowance` query operation.
pub open spec fn spec_ts_allowance() -> TransitionIfaceV {
    TransitionIfaceV {
        optional: true,
        metadata: None,
        globals: Seq::empty(),
        inputs: seq![
            (
                "owner".spec_bytes(),
                ArgSpecV { name: Some("account".spec_bytes()), req: Req::Required },
            ),
            (
                "spender".spec_bytes(),
                ArgSpecV { name: Some("account".spec_bytes()), req: Req::Required },
            ),
        ],
        valencies: Seq::empty(),
        errors: seq![INVALID_PROOF, INSUFFICIENT_COVERAGE],
        default_assignment: None,
    }
}

/// Builds the interface of the fungible standard.
#[verifier::rlimit(100)]
#[verifier::spinoff_prover]
pub fn rgb_e20() -> (r: Iface)
    ensures
        r@ == spec_rgb_e20(),
{
    let r = Iface {
        version: VerNo::V1,
        name: fname("RGB-E20"),
        global_state: vec![
            (fname("name"), GlobalIface::required(crate::typesys::resolve_primitive(PRIM_BYTE))),
            (fname("symbol"), GlobalIface::required(crate::typesys::resolve_primitive(PRIM_U128))),
            (
                fname("total_supply"),
                GlobalIface::required(crate::typesys::resolve_primitive(PRIM_U64)),
            ),
            (
                fname("decimals"),
                GlobalIface::one_or_many(crate::typesys::resolve_primitive(PRIM_U64)),
            ),
        ],
        assignments: vec![
            (fname("beneficiary"), AssignIface { owned: OwnedIface::Amount, req: Req::Required }),
        ],
        genesis: GenesisIface {
            metadata: Some(crate::typesys::resolve_primitive(PRIM_UNIT)),
            global: vec![(fname("init"), ArgSpec::required())],
            assignments: Vec::new(),
            valencies: Vec::new(),
            errors: vec![INSUFFICIENT_RESERVES],
        },
        transitions: vec![
            (
                fname("Transfer"),
                TransitionIface {
                    optional: false,
                    metadata: None,
                    globals: Vec::new(),
                    inputs: vec![
                        (fname("to"), ArgSpec::from_non_empty("account")),
                        (fname("value"), ArgSpec::from_non_empty("amount")),
                    ],
                    valencies: Vec::new(),
                    errors: vec![NON_EQUAL_AMOUNTS],
                    default_assignment: Some(fname("beneficiary")),
                },
            ),
            (
                fname("Issue"),
                TransitionIface {
                    optional: true,
                    metadata: None,
                    globals: Vec::new(),
                    inputs: vec![(fname("used"), ArgSpec::from_non_empty("inflationAllowance"))],
                    valencies: Vec::new(),
                    errors: vec![
                        SUPPLY_MISMATCH,
                        INVALID_PROOF,
                        ISSUE_EXCEEDS_ALLOWANCE,
                        INSUFFICIENT_RESERVES,
                    ],
                    default_assignment: Some(fname("beneficiary")),
                },
            ),
            (
                fname("TransferFrom"),
                TransitionIface {
                    optional: true,
                    metadata: None,
                    globals: Vec::new(),
                    inputs: vec![
                        (fname("from"), ArgSpec::from_required("account")),
                        (fname("to"), ArgSpec::from_required("account")),
                        (fname("value"), ArgSpec::from_required("amount")),
                    ],
                    valencies: Vec::new(),
                    errors: Vec::new(),
                    default_assignment: Some(fname("beneficiary")),
                },
            ),
            (
                fname("Burn"),
                TransitionIface {
                    optional: true,
                    metadata: None,
                    globals: vec![(fname("burnedSupply"), ArgSpec::required())],
                    inputs: vec![(fname("used"), ArgSpec::from_required("burnRight"))],
                    valencies: Vec::new(),
                    errors: vec![SUPPLY_MISMATCH, INVALID_PROOF, INSUFFICIENT_COVERAGE],
                    default_assignment: None,
                },
            ),
            (
                fname("Approve"),
                TransitionIface {
                    optional: true,
                    metadata: None,
                    globals: Vec::new(),
                    inputs: vec![
                        (fname("spender"), ArgSpec::from_required("account")),
                        (fname("value"), ArgSpec::from_required("amount")),
                    ],
                    valencies: Vec::new(),
                    errors: vec![INVALID_PROOF, INSUFFICIENT_COVERAGE],
                    default_assignment: None,
                },
            ),
            (
                fname("Mint"),
                TransitionIface {
                    optional: true,
                    metadata: None,
                    globals: Vec::new(),
                    inputs: vec![
                        (fname("to"), ArgSpec::from_required("account")),
                        (fname("value"), ArgSpec::from_required("amount")),
                    ],
                    valencies: Vec::new(),
                    errors: vec![INVALID_PROOF, INSUFFICIENT_COVERAGE],
                    default_assignment: None,
                },
            ),
            (
                fname("BalanceOf"),
                TransitionIface {
                    optional: true,
                    metadata: None,
                    globals: Vec::new(),
                    inputs: vec![(fname("account"), ArgSpec::from_required("account"))],
                    valencies: Vec::new(),
                    errors: vec![INVALID_PROOF, INSUFFICIENT_COVERAGE],
                    default_assignment: None,
                },
            ),
            (
                fname("Allowance"),
                TransitionIface {
                    optional: true,
                    metadata: None,
                    globals: Vec::new(),
                    inputs: vec![
                        (fname("owner"), ArgSpec::from_required("account")),
                        (fname("spender"), ArgSpec::from_required("account")),
                    ],
                    valencies: Vec::new(),
                    errors: vec![INVALID_PROOF, INSUFFICIENT_COVERAGE],
                    default_assignment: None,
                },
            ),
        ],
        error_type: crate::typesys::resolve_primitive(PRIM_U8),
        default_operation: Some(fname("Transfer")),
    };
    proof {
        assert(r@.global_state =~= spec_rgb_e20().global_state);
        assert(r@.assignments =~= spec_rgb_e20().assignments);
        assert(r@.genesis =~= spec_rgb_e20().genesis);
        assert(r@.transitions[0].1 =~= spec_rgb_e20().transitions[0].1);
        assert(r@.transitions[1].1 =~= spec_rgb_e20().transitions[1].1);
        assert(r@.transitions[2].1 =~= spec_rgb_e20().transitions[2].1);
        assert(r@.transitions[3].1 =~= spec_rgb_e20().transitions[3].1);
        assert(r@.transitions[4].1 =~= spec_rgb_e20().transitions[4].1);
        assert(r@.transitions[5].1 =~= spec_rgb_e20().transitions[5].1);
        assert(r@.transitions[6].1 =~= spec_rgb_e20().transitions[6].1);
        assert(r@.transitions[7].1 =~= spec_rgb_e20().transitions[7].1);
        assert(r@.transitions =~= spec_rgb_e20().transitions);
        assert(r@ =~= spec_rgb_e20());
    }
    r
}

/// The code segment of the schema's validation routine; opaque to this
/// crate, which neither executes nor interprets it.
pub open spec fn spec_nia_code() -> Seq<u8> {
    seq![0u8]
}

/// The key of the schema's validation script library.
pub open spec fn spec_nia_lib_ref() -> u64 {
    script_lib_ref("ALU"@, spec_nia_code(), Seq::empty())
}

/// A transition schema over the single owned state: `inp` items are spent
/// and `out` items created, each once or more when declared.
pub open spec fn spec_nia_ts(inp: bool, out: bool) -> TransitionSchemaV {
    TransitionSchemaV {
        metadata_type: primitive_ref(PRIM_UNIT),
        globals: Seq::empty(),
        inputs: if inp {
            seq![(OS_ASSETS, Occurrence::OnceOrMore)]
        } else {
            Seq::empty()
        },
        assignments: if out {
            seq![(OS_ASSETS, Occurrence::OnceOrMore)]
        } else {
            Seq::empty()
        },
        valencies: Seq::empty(),
    }
}

/// The schema of the fungible standard, field for field.
pub open spec fn spec_nia_schema() -> SchemaV {
    SchemaV {
        ffv: 0,
        subset_of: None,
        type_system: spec_standard_types(),
        global_types: seq![
            (
                GS_NAME,
                GlobalStateSchema {
                    sem_type: primitive_ref(PRIM_BYTE),
                    occurrence: Occurrence::Once,
                },
            ),
            (
                GS_SYMBOL,
                GlobalStateSchema {
                    sem_type: primitive_ref(PRIM_U128),
                    occurrence: Occurrence::Once,
                },
            ),
            (
                GS_DECIMALS,
                GlobalStateSchema {
                    sem_type: primitive_ref(PRIM_U64),
                    occurrence: Occurrence::Once,
                },
            ),
            (
                GS_TOTAL_SUPPLY,
                GlobalStateSchema {
                    sem_type: primitive_ref(PRIM_U64),
                    occurrence: Occurrence::Once,
                },
            ),
            (
                GS_INIT,
                GlobalStateSchema {
                    sem_type: primitive_ref(PRIM_UNIT),
                    occurrence: Occurrence::Once,
                },
            ),
        ],
        owned_types: seq![(OS_ASSETS, StateSchema::Fungible(FungibleType::Unsigned64Bit))],
        valency_types: Seq::empty(),
        genesis: GenesisSchemaV {
            metadata_type: primitive_ref(PRIM_UNIT),
            globals: seq![(GS_INIT, Occurrence::Once)],
            assignments: seq![(OS_ASSETS, Occurrence::OnceOrMore)],
            valencies: Seq::empty(),
        },
        extensions: Seq::empty(),
        transitions: seq![
            (TS_TRANSFER, spec_nia_ts(true, true)),
            (TS_ISSUE, spec_nia_ts(false, true)),
            (TS_TRANSFER_FROM, spec_nia_ts(true, true)),
            (TS_BURN, spec_nia_ts(false, true)),
            (TS_APPROVE, spec_nia_ts(true, false)),
            (TS_MINT, spec_nia_ts(true, false)),
            (TS_BALANCE_OF, spec_nia_ts(true, false)),
            (TS_ALLOWANCE, spec_nia_ts(true, false)),
        ],
        script: ScriptV {
            libs: seq![
                (spec_nia_lib_ref(), ScriptLibV { code: spec_nia_code(), data: Seq::empty() }),
            ],
            entry_points: seq![
                (
                    EntryPoint::ValidateOwnedState(OS_ASSETS),
                    LibSite { lib: spec_nia_lib_ref(), pos: 0 },
                ),
            ],
        },
    }
}

/// Builds one transition schema over the single owned state.
fn nia_ts(inp: bool, out: bool) -> (r: TransitionSchema)
    ensures
        r.deep_view() == spec_nia_ts(inp, out),
{
    let r = TransitionSchema {
        metadata_type: crate::typesys::resolve_primitive(PRIM_UNIT),
        globals: Vec::new(),
        inputs: if inp {
            vec![(OS_ASSETS, Occurrence::OnceOrMore)]
        } else {
            Vec::new()
        },
        assignments: if out {
            vec![(OS_ASSETS, Occurrence::OnceOrMore)]
        } else {
            Vec::new()
        },
        valencies: Vec::new(),
    };
    proof {
        assert(r.deep_view() =~= spec_nia_ts(inp, out));
    }
    r
}

/// Builds the schema of the fungible standard.
#[verifier::rlimit(100)]
#[verifier::spinoff_prover]
pub fn nia_schema() -> (r: Schema)
    ensures
        r@ == spec_nia_schema(),
{
    let code: Vec<u8> = vec![0u8];
    let data: Vec<u8> = Vec::new();
    proof {
        assert(code@ =~= spec_nia_code());
        assert(data@ =~= Seq::<u8>::empty());
    }
    let lib_ref = resolve_script_lib("ALU", &code, &data);
    let r = Schema {
        ffv: 0,
        subset_of: None,
        type_system: standard_types(),
        global_types: vec![
            (GS_NAME, GlobalStateSchema::once(crate::typesys::resolve_primitive(PRIM_BYTE))),
            (GS_SYMBOL, GlobalStateSchema::once(crate::typesys::resolve_primitive(PRIM_U128))),
            (GS_DECIMALS, GlobalStateSchema::once(crate::typesys::resolve_primitive(PRIM_U64))),
            (
                GS_TOTAL_SUPPLY,
                GlobalStateSchema::once(crate::typesys::resolve_primitive(PRIM_U64)),
            ),
            (GS_INIT, GlobalStateSchema::once(crate::typesys::resolve_primitive(PRIM_UNIT))),
        ],
        owned_types: vec![(OS_ASSETS, StateSchema::Fungible(FungibleType::Unsigned64Bit))],
        valency_types: Vec::new(),
        genesis: GenesisSchema {
            metadata_type: crate::typesys::resolve_primitive(PRIM_UNIT),
            globals: vec![(GS_INIT, Occurrence::Once)],
            assignments: vec![(OS_ASSETS, Occurrence::OnceOrMore)],
            valencies: Vec::new(),
        },
        extensions: Vec::new(),
        transitions: vec![
            (TS_TRANSFER, nia_ts(true, true)),
            (TS_ISSUE, nia_ts(false, true)),
            (TS_TRANSFER_FROM, nia_ts(true, true)),
            (TS_BURN, nia_ts(false, true)),
            (TS_APPROVE, nia_ts(true, false)),
            (TS_MINT, nia_ts(true, false)),
            (TS_BALANCE_OF, nia_ts(true, false)),
            (TS_ALLOWANCE, nia_ts(true, false)),
        ],
        script: Script {
            libs: vec![(lib_ref, ScriptLib { code, data })],
            entry_points: vec![
                (EntryPoint::ValidateOwnedState(OS_ASSETS), LibSite::with(0, lib_ref)),
            ],
        },
    };
    proof {
        assert(r@.type_system =~= spec_nia_schema().type_system);
        assert(r@.global_types =~= spec_nia_schema().global_types);
        assert(r@.owned_types =~= spec_nia_schema().owned_types);
        assert(r@.genesis =~= spec_nia_schema().genesis);
        assert(r@.transitions =~= spec_nia_schema().transitions);
        assert(r@.script.libs[0].1 =~= spec_nia_schema().script.libs[0].1);
        assert(r@.script.libs =~= spec_nia_schema().script.libs);
        assert(r@.script =~= spec_nia_schema().script);
        assert(r@ =~= spec_nia_schema());
    }
    r
}

/// Reveals every name the fungible standard uses, so that facts about the
/// concrete values (distinctness, lengths) become first order.
#[verifier::rlimit(100)]
#[verifier::spinoff_prover]
proof fn lemma_e20_names()
    ensures
        is_ascii("RGB-E20") && "RGB-E20"@.len() == 7,
        is_ascii("name") && "name"@.len() == 4,
        is_ascii("symbol") && "symbol"@.len() == 6,
        is_ascii("total_supply") && "total_supply"@.len() == 12,
        is_ascii("decimals") && "decimals"@.len() == 8,
        is_ascii("beneficiary") && "beneficiary"@.len() == 11,
        is_ascii("init") && "init"@.len() == 4,
        is_ascii("Transfer") && "Transfer"@.len() == 8,
        is_ascii("Issue") && "Issue"@.len() == 5,
        is_ascii("TransferFrom") && "TransferFrom"@.len() == 12,
        is_ascii("Burn") && "Burn"@.len() == 4,
        is_ascii("Approve") && "Approve"@.len() == 7,
        is_ascii("Mint") && "Mint"@.len() == 4,
        is_ascii("BalanceOf") && "BalanceOf"@.len() == 9,
        is_ascii("Allowance") && "Allowance"@.len() == 9,
        is_ascii("to") && "to"@.len() == 2,
        is_ascii("value") && "value"@.len() == 5,
        is_ascii("used") && "used"@.len() == 4,
        is_ascii("from") && "from"@.len() == 4,
        is_ascii("spender") && "spender"@.len() == 7,
        is_ascii("account") && "account"@.len() == 7,
        is_ascii("owner") && "owner"@.len() == 5,
        is_ascii("burnedSupply") && "burnedSupply"@.len() == 12,
        is_ascii("amount") && "amount"@.len() == 6,
        is_ascii("inflationAllowance") && "inflationAllowance"@.len() == 18,
        is_ascii("burnRight") && "burnRight"@.len() == 9,
        "Burn".spec_bytes() != "Mint".spec_bytes(),
        "BalanceOf".spec_bytes() != "Allowance".spec_bytes(),
        "name".spec_bytes() != "init".spec_bytes(),
        "name".spec_bytes() != "Burn".spec_bytes(),
        "name".spec_bytes() != "Mint".spec_bytes(),
        "name".spec_bytes() != "from".spec_bytes(),
        "name".spec_bytes() != "used".spec_bytes(),
        "to".spec_bytes() != "value".spec_bytes(),
        "from".spec_bytes() != "to".spec_bytes(),
        "from".spec_bytes() != "value".spec_bytes(),
        "spender".spec_bytes() != "value".spec_bytes(),
        "owner".spec_bytes() != "spender".spec_bytes(),
        "name".spec_bytes().len() == 4,
        "symbol".spec_bytes().len() == 6,
        "total_supply".spec_bytes().len() == 12,
        "decimals".spec_bytes().len() == 8,
        "RGB-E20".spec_bytes().len() == 7,
        "beneficiary".spec_bytes().len() == 11,
        "init".spec_bytes().len() == 4,
        "Transfer".spec_bytes().len() == 8,
        "Issue".spec_bytes().len() == 5,
        "TransferFrom".spec_bytes().len() == 12,
        "Burn".spec_bytes().len() == 4,
        "Approve".spec_bytes().len() == 7,
        "Mint".spec_bytes().len() == 4,
        "BalanceOf".spec_bytes().len() == 9,
        "Allowance".spec_bytes().len() == 9,
        "to".spec_bytes().len() == 2,
        "value".spec_bytes().len() == 5,
        "used".spec_bytes().len() == 4,
        "from".spec_bytes().len() == 4,
        "spender".spec_bytes().len() == 7,
        "account".spec_bytes().len() == 7,
        "owner".spec_bytes().len() == 5,
        "burnedSupply".spec_bytes().len() == 12,
        "amount".spec_bytes().len() == 6,
        "inflationAllowance".spec_bytes().len() == 18,
        "burnRight".spec_bytes().len() == 9,
{
    reveal_strlit("RGB-E20");
    reveal_strlit("name");
    reveal_strlit("symbol");
    reveal_strlit("total_supply");
    reveal_strlit("decimals");
    reveal_strlit("beneficiary");
    reveal_strlit("init");
    reveal_strlit("Transfer");
    reveal_strlit("Issue");
    reveal_strlit("TransferFrom");
    reveal_strlit("Burn");
    reveal_strlit("Approve");
    reveal_strlit("Mint");
    reveal_strlit("BalanceOf");
    reveal_strlit("Allowance");
    reveal_strlit("to");
    reveal_strlit("value");
    reveal_strlit("used");
    reveal_strlit("from");
    reveal_strlit("spender");
    reveal_strlit("account");
    reveal_strlit("owner");
    reveal_strlit("burnedSupply");
    reveal_strlit("amount");
    reveal_strlit("inflationAllowance");
    reveal_strlit("burnRight");
    broadcast use vstd::string::is_ascii_spec_bytes;

    assert(is_ascii("RGB-E20"));
    assert(is_ascii("name"));
    assert(is_ascii("symbol"));
    assert(is_ascii("total_supply"));
    assert(is_ascii("decimals"));
    assert(is_ascii("beneficiary"));
    assert(is_ascii("init"));
    assert(is_ascii("Transfer"));
    assert(is_ascii("Issue"));
    assert(is_ascii("TransferFrom"));
    assert(is_ascii("Burn"));
    assert(is_ascii("Approve"));
    assert(is_ascii("Mint"));
    assert(is_ascii("BalanceOf"));
    assert(is_ascii("Allowance"));
    assert(is_ascii("to"));
    assert(is_ascii("value"));
    assert(is_ascii("used"));
    assert(is_ascii("from"));
    assert(is_ascii("spender"));
    assert(is_ascii("account"));
    assert(is_ascii("owner"));
    assert(is_ascii("burnedSupply"));
    assert(is_ascii("amount"));
    assert(is_ascii("inflationAllowance"));
    assert(is_ascii("burnRight"));
    assert("Burn".spec_bytes()[0] == 'B' as u8);
    assert("Mint".spec_bytes()[0] == 'M' as u8);
    assert("BalanceOf".spec_bytes()[0] == 'B' as u8);
    assert("Allowance".spec_bytes()[0] == 'A' as u8);
    assert("name".spec_bytes()[0] == 'n' as u8);
    assert("init".spec_bytes()[0] == 'i' as u8);
    assert("Burn".spec_bytes()[0] == 'B' as u8);
    assert("from".spec_bytes()[0] == 'f' as u8);
    assert("used".spec_bytes()[0] == 'u' as u8);
}

/// The fungible interface's name maps all have unique keys.
#[verifier::rlimit(100)]
#[verifier::spinoff_prover]
proof fn lemma_rgb_e20_names_unique()
    ensures
        spec_rgb_e20().names_unique(),
{
    lemma_e20_names();
    let iv = spec_rgb_e20();
    assert(crate::maps::keys_unique(iv.global_state));
    assert(crate::maps::keys_unique(iv.assignments));
    assert(crate::maps::keys_unique(iv.transitions));
    assert(crate::maps::keys_unique(iv.genesis.global));
    assert(crate::maps::keys_unique(iv.genesis.assignments));
    assert forall|i: int| 0 <= i < iv.transitions.len() implies crate::maps::keys_unique(
        #[trigger] iv.transitions[i].1.globals,
    ) && crate::maps::keys_unique(iv.transitions[i].1.inputs) by {
        assert(crate::maps::keys_unique(spec_ts_transfer().inputs));
        assert(crate::maps::keys_unique(spec_ts_transfer_from().inputs));
        assert(crate::maps::keys_unique(spec_ts_approve().inputs));
        assert(crate::maps::keys_unique(spec_ts_mint().inputs));
        assert(crate::maps::keys_unique(spec_ts_allowance().inputs));
    }
}

/// The fungible interface's cross-references resolve and its value is
/// small enough to encode.
#[verifier::rlimit(100)]
#[verifier::spinoff_prover]
proof fn lemma_rgb_e20_refs_fits()
    ensures
        spec_rgb_e20().refs_resolve(),
        Iface::fits(spec_rgb_e20()),
{
    lemma_e20_names();
    let iv = spec_rgb_e20();
    assert(iv.assignments[0].0 == "beneficiary".spec_bytes());
    assert(map_has(iv.assignments, "beneficiary".spec_bytes()));
    assert(iv.transitions[0].0 == "Transfer".spec_bytes());
    assert(map_has(iv.transitions, "Transfer".spec_bytes()));
    assert(iv.refs_resolve());
}

/// The fungible interface is well formed and small enough to encode.
pub proof fn lemma_rgb_e20_wf()
    ensures
        spec_rgb_e20().wf(),
        Iface::fits(spec_rgb_e20()),
{
    lemma_rgb_e20_names_unique();
    lemma_rgb_e20_refs_fits();
}

/// The fungible schema is well formed and small enough to encode.
#[verifier::rlimit(100)]
#[verifier::spinoff_prover]
pub proof fn lemma_nia_schema_wf()
    ensures
        spec_nia_schema().wf(),
        Schema::fits(spec_nia_schema()),
{
    crate::stl::lemma_standard_types_wf();
    let sv = spec_nia_schema();
    assert(sv.global_types[4].0 == GS_INIT);
    assert(map_has(sv.global_types, GS_INIT));
    assert(sv.owned_types[0].0 == OS_ASSETS);
    assert(map_has(sv.owned_types, OS_ASSETS));
    assert(sv.ids_canonical());
    assert forall|i: int| 0 <= i < sv.transitions.len() implies {
        let t = (#[trigger] sv.transitions[i]).1;
        sv.op_refs_resolve(t.globals, t.inputs, t.assignments, t.valencies)
    } by {
        assert(map_has(sv.owned_types, OS_ASSETS));
    }
    assert(sv.script.entry_points_resolve()) by {
        assert(sv.script.libs[0].0 == sv.script.entry_points[0].1.lib);
    }
}

/// The drafted element mappings of the fungible binding.
pub open spec fn spec_nia_draft() -> BindingDraftV {
    BindingDraftV {
        genesis_iface: seq![NamedPairV { id: GS_INIT, name: "init".spec_bytes() }],
        global_state: seq![
            NamedPairV { id: GS_NAME, name: "name".spec_bytes() },
            NamedPairV { id: GS_SYMBOL, name: "symbol".spec_bytes() },
            NamedPairV { id: GS_DECIMALS, name: "decimals".spec_bytes() },
            NamedPairV { id: GS_TOTAL_SUPPLY, name: "total_supply".spec_bytes() },
        ],
        assignments: seq![NamedPairV { id: OS_ASSETS, name: "beneficiary".spec_bytes() }],
        transitions: seq![
            NamedPairV { id: TS_TRANSFER, name: "Transfer".spec_bytes() },
            NamedPairV { id: TS_ISSUE, name: "Issue".spec_bytes() },
            NamedPairV { id: TS_TRANSFER_FROM, name: "TransferFrom".spec_bytes() },
            NamedPairV { id: TS_BURN, name: "Burn".spec_bytes() },
            NamedPairV { id: TS_APPROVE, name: "Approve".spec_bytes() },
            NamedPairV { id: TS_MINT, name: "Mint".spec_bytes() },
            NamedPairV { id: TS_BALANCE_OF, name: "BalanceOf".spec_bytes() },
            NamedPairV { id: TS_ALLOWANCE, name: "Allowance".spec_bytes() },
        ],
    }
}

/// The drafted fungible binding passes all three checks of `bind` against
/// the standard's interface and schema.
#[verifier::rlimit(100)]
#[verifier::spinoff_prover]
pub proof fn lemma_nia_draft_checks()
    ensures
        coverage_ok(spec_rgb_e20(), spec_nia_schema(), spec_nia_draft()),
        injectivity_ok(spec_nia_draft()),
        types_ok(spec_rgb_e20(), spec_nia_schema(), spec_nia_draft()),
{
    lemma_e20_names();
    lemma_rgb_e20_wf();
    let iv = spec_rgb_e20();
    let sv = spec_nia_schema();
    let dv = spec_nia_draft();
    // Coverage.
    assert(covers_in(dv.global_state, sv.global_types, "name".spec_bytes())) by {
        assert(dv.global_state[0].name == "name".spec_bytes());
        assert(sv.global_types[0].0 == GS_NAME);
    }
    assert(covers_in(dv.global_state, sv.global_types, "symbol".spec_bytes())) by {
        assert(dv.global_state[1].name == "symbol".spec_bytes());
        assert(sv.global_types[1].0 == GS_SYMBOL);
    }
    assert(covers_in(dv.global_state, sv.global_types, "decimals".spec_bytes())) by {
        assert(dv.global_state[2].name == "decimals".spec_bytes());
        assert(sv.global_types[2].0 == GS_DECIMALS);
    }
    assert(covers_in(dv.global_state, sv.global_types, "total_supply".spec_bytes())) by {
        assert(dv.global_state[3].name == "total_supply".spec_bytes());
        assert(sv.global_types[3].0 == GS_TOTAL_SUPPLY);
    }
    assert(covers_assign(
        dv.assignments,
        sv.owned_types,
        "beneficiary".spec_bytes(),
        iv.assignments[0].1,
    )) by {
        assert(dv.assignments[0].name == "beneficiary".spec_bytes());
        assert(sv.owned_types[0].0 == OS_ASSETS);
        lemma_map_get_at(sv.owned_types, 0);
    }
    assert(covers_in(dv.genesis_iface, sv.genesis.globals, "init".spec_bytes())) by {
        assert(dv.genesis_iface[0].name == "init".spec_bytes());
        assert(sv.genesis.globals[0].0 == GS_INIT);
    }
    assert(covers_in(dv.transitions, sv.transitions, "Transfer".spec_bytes())) by {
        assert(dv.transitions[0].name == "Transfer".spec_bytes());
        assert(sv.transitions[0].0 == TS_TRANSFER);
    }
    assert(coverage_ok(iv, sv, dv));
    // Injectivity.
    assert(set_injective(dv.genesis_iface));
    assert(set_injective(dv.global_state));
    assert(set_injective(dv.assignments));
    assert(set_injective(dv.transitions));
    // Type compatibility.
    assert forall|k: int| 0 <= k < dv.global_state.len() implies {
        let e = #[trigger] dv.global_state[k];
        map_has(iv.global_state, e.name) && map_has(sv.global_types, e.id) && map_get(
            iv.global_state,
            e.name,
        ).sem_type == map_get(sv.global_types, e.id).sem_type
    } by {
        lemma_map_get_at(iv.global_state, 0);
        lemma_map_get_at(iv.global_state, 1);
        lemma_map_get_at(iv.global_state, 2);
        lemma_map_get_at(iv.global_state, 3);
        lemma_map_get_at(sv.global_types, 0);
        lemma_map_get_at(sv.global_types, 1);
        lemma_map_get_at(sv.global_types, 2);
        lemma_map_get_at(sv.global_types, 3);
    }
    assert forall|k: int| 0 <= k < dv.assignments.len() implies {
        let e = #[trigger] dv.assignments[k];
        map_has(iv.assignments, e.name) && map_has(sv.owned_types, e.id)
            && crate::binding::assign_compat(
            map_get(iv.assignments, e.name).owned,
            map_get(sv.owned_types, e.id),
        )
    } by {
        lemma_map_get_at(iv.assignments, 0);
        lemma_map_get_at(sv.owned_types, 0);
    }
    assert forall|k: int| 0 <= k < dv.genesis_iface.len() implies {
        let e = #[trigger] dv.genesis_iface[k];
        map_has(iv.genesis.global, e.name) && map_has(sv.genesis.globals, e.id)
    } by {
        assert(iv.genesis.global[0].0 == "init".spec_bytes());
        assert(sv.genesis.globals[0].0 == GS_INIT);
    }
    assert forall|k: int| 0 <= k < dv.transitions.len() implies {
        let e = #[trigger] dv.transitions[k];
        map_has(iv.transitions, e.name) && map_has(sv.transitions, e.id)
    } by {
        assert forall|k: int| 0 <= k < dv.transitions.len() implies map_has(
            iv.transitions,
            (#[trigger] dv.transitions[k]).name,
        ) by {
            assert(iv.transitions[k].0 == dv.transitions[k].name);
        }
        assert forall|k: int| 0 <= k < dv.transitions.len() implies map_has(
            sv.transitions,
            (#[trigger] dv.transitions[k]).id,
        ) by {
            assert(sv.transitions[k].0 == dv.transitions[k].id);
        }
    }
    assert(types_ok(iv, sv, dv));
}

/// Builds the verified binding of the fungible interface onto its schema.
/// The result is exactly what `bind` returns for the standard's interface,
/// schema and drafted mappings, which pass all three of its checks.
#[verifier::rlimit(100)]
#[verifier::spinoff_prover]
pub fn nia_rgb_e20() -> (r: IfaceImpl)
    ensures
        r@ == bound_impl(spec_rgb_e20(), spec_nia_schema(), spec_nia_draft()),
{
    let iface = rgb_e20();
    let schema = nia_schema();
    let draft = BindingDraft {
        genesis_iface: vec![NamedField::with(GS_INIT, fname("init"))],
        global_state: vec![
            NamedField::with(GS_NAME, fname("name")),
            NamedField::with(GS_SYMBOL, fname("symbol")),
            NamedField::with(GS_DECIMALS, fname("decimals")),
            NamedField::with(GS_TOTAL_SUPPLY, fname("total_supply")),
        ],
        assignments: vec![NamedField::with(OS_ASSETS, fname("beneficiary"))],
        transitions: vec![
            NamedType::with(TS_TRANSFER, fname("Transfer")),
            NamedType::with(TS_ISSUE, fname("Issue")),
            NamedType::with(TS_TRANSFER_FROM, fname("TransferFrom")),
            NamedType::with(TS_BURN, fname("Burn")),
            NamedType::with(TS_APPROVE, fname("Approve")),
            NamedType::with(TS_MINT, fname("Mint")),
            NamedType::with(TS_BALANCE_OF, fname("BalanceOf")),
            NamedType::with(TS_ALLOWANCE, fname("Allowance")),
        ],
    };
    proof {
        assert(draft.deep_view() =~= spec_nia_draft());
        lemma_rgb_e20_wf();
        lemma_nia_schema_wf();
        lemma_nia_draft_checks();
    }
    match bind(&iface, &schema, draft) {
        Ok(im) => im,
        Err(_) => {
            proof {
                assert(false);
            }
            vstd::pervasive::unreached()
        },
    }
}

} // verus!
