//! Scenario tests of the binding step and the two standards.

use rgb_ifaces::binding::{bind, BindingDraft, BindingError, NamedField, NamedType};
use rgb_ifaces::e20;
use rgb_ifaces::e721;
use rgb_ifaces::ident::fname;
use rgb_ifaces::iface::VerNo;

fn nia_draft() -> BindingDraft {
    BindingDraft {
        genesis_iface: vec![NamedField::with(e20::GS_INIT, fname("init"))],
        global_state: vec![
            NamedField::with(e20::GS_NAME, fname("name")),
            NamedField::with(e20::GS_SYMBOL, fname("symbol")),
            NamedField::with(e20::GS_DECIMALS, fname("decimals")),
            NamedField::with(e20::GS_TOTAL_SUPPLY, fname("total_supply")),
        ],
        assignments: vec![NamedField::with(e20::OS_ASSETS, fname("beneficiary"))],
        transitions: vec![
            NamedType::with(e20::TS_TRANSFER, fname("Transfer")),
            NamedType::with(e20::TS_ISSUE, fname("Issue")),
            NamedType::with(e20::TS_TRANSFER_FROM, fname("TransferFrom")),
            NamedType::with(e20::TS_BURN, fname("Burn")),
            NamedType::with(e20::TS_APPROVE, fname("Approve")),
            NamedType::with(e20::TS_MINT, fname("Mint")),
            NamedType::with(e20::TS_BALANCE_OF, fname("BalanceOf")),
            NamedType::with(e20::TS_ALLOWANCE, fname("Allowance")),
        ],
    }
}

#[test]
fn fungible_binding_succeeds_with_full_coverage() {
    let iface = e20::rgb_e20();
    let schema = e20::nia_schema();
    let bound = bind(&iface, &schema, nia_draft()).expect("the drafted binding is complete");
    assert_eq!(bound.version, VerNo::V1);
    assert_eq!(bound.global_state.len(), 4);
    assert_eq!(bound.assignments.len(), 1);
    assert_eq!(bound.transitions.len(), 8);
    assert_eq!(bound.genesis_iface.len(), 1);
    assert!(bound.extensions.is_empty());
    assert_eq!(bound, e20::nia_rgb_e20());
}

#[test]
fn binding_ids_are_content_derived() {
    let bound = e20::nia_rgb_e20();
    let iface = e20::rgb_e20();
    let schema = e20::nia_schema();
    assert_eq!(bound.iface_id, rgb_ifaces::codec::iface_id(&iface));
    assert_eq!(bound.schema_id, rgb_ifaces::codec::schema_id(&schema));
    let other = e721::uda_rgb721();
    assert_ne!(bound.iface_id, other.iface_id);
    assert_ne!(bound.schema_id, other.schema_id);
}

#[test]
fn missing_transfer_entry_is_uncovered_mandatory_field() {
    let iface = e20::rgb_e20();
    let mut schema = e20::nia_schema();
    // Drop the schema's Transfer transition: the mandatory interface
    // operation loses its counterpart.
    schema.transitions.retain(|(id, _)| *id != e20::TS_TRANSFER);
    let r = bind(&iface, &schema, nia_draft());
    assert_eq!(
        r.unwrap_err(),
        BindingError::UncoveredMandatoryField(fname("Transfer"))
    );
}

#[test]
fn optional_interface_fields_may_stay_unbound() {
    let iface = e20::rgb_e20();
    let schema = e20::nia_schema();
    let mut draft = nia_draft();
    // The optional operations need not be mapped; Transfer stays.
    draft.transitions.retain(|t| t.id == e20::TS_TRANSFER);
    assert!(bind(&iface, &schema, draft).is_ok());
}

#[test]
fn uncovered_mandatory_global_is_reported_by_name() {
    let iface = e20::rgb_e20();
    let schema = e20::nia_schema();
    let mut draft = nia_draft();
    draft.global_state.retain(|f| f.id != e20::GS_SYMBOL);
    let r = bind(&iface, &schema, draft);
    assert_eq!(
        r.unwrap_err(),
        BindingError::UncoveredMandatoryField(fname("symbol"))
    );
}

fn uda_draft() -> BindingDraft {
    BindingDraft {
        genesis_iface: vec![NamedField::with(e721::GS_INIT, fname("init"))],
        global_state: vec![
            NamedField::with(e721::GS_NAME, fname("name")),
            NamedField::with(e721::GS_SYMBOL, fname("symbol")),
            NamedField::with(e721::GS_TOTAL_SUPPLY, fname("total_supply")),
            NamedField::with(e721::GS_TOKEN_BY_INDEX, fname("token_by_index")),
            NamedField::with(
                e721::GS_TOKEN_OF_OWNER_BY_INDEX,
                fname("token_of_owner_by_index"),
            ),
        ],
        assignments: vec![NamedField::with(e721::OS_ASSET, fname("beneficiary"))],
        transitions: vec![
            NamedType::with(e721::TS_OWNER_OF, fname("OwnerOf")),
            NamedType::with(e721::TS_SAFE_TRANSFER_FROM, fname("SafeTransferFrom")),
            NamedType::with(e721::TS_TRANSFER_FROM, fname("TransferFrom")),
            NamedType::with(e721::TS_APPROVE, fname("Approve")),
            NamedType::with(e721::TS_SET_APPROVAL_FOR_ALL, fname("SetApprovalForAll")),
            NamedType::with(e721::TS_GET_APPROVED, fname("GetApproved")),
            NamedType::with(e721::TS_IS_APPROVED_FOR_ALL, fname("IsApprovedForAll")),
        ],
    }
}

#[test]
fn non_fungible_binding_succeeds() {
    let iface = e721::rgb_e721();
    let schema = e721::uda_schema();
    let bound = bind(&iface, &schema, uda_draft()).expect("the drafted binding is complete");
    assert_eq!(bound, e721::uda_rgb721());
    assert_eq!(bound.global_state.len(), 5);
    assert_eq!(bound.transitions.len(), 7);
}

#[test]
fn double_mapping_of_one_global_id_is_ambiguous() {
    let iface = e721::rgb_e721();
    let schema = e721::uda_schema();
    let mut draft = uda_draft();
    // Map token_of_owner_by_index onto the id that token_by_index already
    // uses.
    draft.global_state[4] =
        NamedField::with(e721::GS_TOKEN_BY_INDEX, fname("token_of_owner_by_index"));
    let r = bind(&iface, &schema, draft);
    assert_eq!(
        r.unwrap_err(),
        BindingError::AmbiguousBinding(e721::GS_TOKEN_BY_INDEX)
    );
}

#[test]
fn mismatched_global_type_is_a_type_mismatch() {
    let iface = e20::rgb_e20();
    let mut schema = e20::nia_schema();
    // Retype the name slot as an amount: the interface side disagrees.
    schema.global_types[0].1.sem_type =
        rgb_ifaces::typesys::resolve_primitive(rgb_ifaces::stl::PRIM_U64);
    let r = bind(&iface, &schema, nia_draft());
    assert_eq!(r.unwrap_err(), BindingError::TypeMismatch(fname("name")));
}

#[test]
fn dangling_draft_entry_is_a_type_mismatch() {
    let iface = e20::rgb_e20();
    let schema = e20::nia_schema();
    let mut draft = nia_draft();
    draft.transitions.push(NamedType::with(29999, fname("Skim")));
    let r = bind(&iface, &schema, draft);
    assert_eq!(r.unwrap_err(), BindingError::TypeMismatch(fname("Skim")));
}

#[test]
fn genesis_occurrence_boundary_on_assignments() {
    // The non-fungible genesis declares exactly one asset assignment.
    let schema = e721::uda_schema();
    let globals: Vec<u16> = vec![e721::GS_INIT];
    let one: Vec<u16> = vec![e721::OS_ASSET];
    let two: Vec<u16> = vec![e721::OS_ASSET, e721::OS_ASSET];
    assert!(schema.genesis.validate(&globals, &one));
    assert!(!schema.genesis.validate(&globals, &two));
    assert!(!schema.genesis.validate(&globals, &Vec::new()));
}

#[test]
fn transition_validation_follows_declared_occurrences() {
    let schema = e20::nia_schema();
    // Transfer spends and creates asset state, each once or more.
    let transfer = &schema.transitions[0].1;
    let none: Vec<u16> = vec![];
    let one: Vec<u16> = vec![e20::OS_ASSETS];
    let two: Vec<u16> = vec![e20::OS_ASSETS, e20::OS_ASSETS];
    assert!(transfer.validate(&none, &one, &two));
    assert!(!transfer.validate(&none, &none, &one));
    assert!(!transfer.validate(&one, &one, &one));
}
