//! Tests of the standards' declared data: error taxonomies, records,
//! registry lookups and the wire encoding.

use rgb_ifaces::codec::{encode_iface, encode_iface_impl, encode_schema, iface_id, schema_id};
use rgb_ifaces::e20;
use rgb_ifaces::e721;
use rgb_ifaces::ident::fname;
use rgb_ifaces::stl::{standard_types, PRIM_BYTE, PRIM_U64, PRIM_U8, PRIM_UNIT};
use rgb_ifaces::token::{Account, U256};
use rgb_ifaces::typesys::{fold_digest, resolve_primitive, RegistryError};

#[test]
fn fungible_error_codes_are_stable() {
    assert_eq!(e20::Error::SupplyMismatch.code(), 1);
    assert_eq!(e20::Error::NonEqualAmounts.code(), 2);
    assert_eq!(e20::Error::InvalidProof.code(), 3);
    assert_eq!(e20::Error::InsufficientReserves.code(), 4);
    assert_eq!(e20::Error::InsufficientCoverage.code(), 5);
    assert_eq!(e20::Error::IssueExceedsAllowance.code(), 6);
}

#[test]
fn fungible_error_codes_round_trip() {
    for code in 1u8..=6 {
        let e = e20::Error::from_code(code).expect("codes 1 to 6 are assigned");
        assert_eq!(e.code(), code);
    }
    assert_eq!(e20::Error::from_code(0), None);
    assert_eq!(e20::Error::from_code(7), None);
}

#[test]
fn non_fungible_error_codes_are_stable() {
    assert_eq!(e721::Error::SupplyMismatch.code(), 1);
    assert_eq!(e721::Error::TokenNotExist.code(), 2);
    assert_eq!(e721::Error::InvalidProof.code(), 3);
    assert_eq!(e721::Error::InsufficientReserves.code(), 4);
    assert_eq!(e721::Error::IssueExceedsAllowance.code(), 5);
}

#[test]
fn non_fungible_error_codes_round_trip() {
    for code in 1u8..=5 {
        let e = e721::Error::from_code(code).expect("codes 1 to 5 are assigned");
        assert_eq!(e.code(), code);
    }
    assert_eq!(e721::Error::from_code(0), None);
    assert_eq!(e721::Error::from_code(6), None);
}

#[test]
fn registry_resolves_registered_names() {
    let reg = standard_types();
    let amount = reg.resolve(&fname("RGBContract.Amount")).expect("registered");
    assert_eq!(amount, resolve_primitive(PRIM_U64));
    let name = reg.resolve(&fname("RGBContract.Name")).expect("registered");
    assert_eq!(name, resolve_primitive(PRIM_BYTE));
    let err = reg.resolve(&fname("RGB-E20.Error")).expect("registered");
    assert_eq!(err, resolve_primitive(PRIM_U8));
}

#[test]
fn registry_rejects_unknown_names() {
    let reg = standard_types();
    assert_eq!(
        reg.resolve(&fname("RGBContract.Nonce")),
        Err(RegistryError::UnknownType)
    );
}

#[test]
fn primitive_references_distinguish_primitives() {
    // The type registry's references come from the external type system's
    // semantic ids; distinct primitives must not collapse.
    assert_ne!(resolve_primitive(PRIM_UNIT), resolve_primitive(PRIM_U64));
    assert_ne!(resolve_primitive(PRIM_BYTE), resolve_primitive(PRIM_U8));
    // The same primitive always resolves to the same reference.
    assert_eq!(resolve_primitive(PRIM_U64), resolve_primitive(PRIM_U64));
}

#[test]
fn script_library_keys_depend_on_the_code() {
    let a: Vec<u8> = vec![0];
    let b: Vec<u8> = vec![1];
    let data: Vec<u8> = Vec::new();
    let ka = rgb_ifaces::schema::resolve_script_lib("ALU", &a, &data);
    let kb = rgb_ifaces::schema::resolve_script_lib("ALU", &b, &data);
    assert_ne!(ka, kb);
    assert_eq!(ka, rgb_ifaces::schema::resolve_script_lib("ALU", &a, &data));
}

#[test]
fn encoding_is_deterministic_and_ids_follow_it() {
    let iface = e20::rgb_e20();
    let again = e20::rgb_e20();
    assert_eq!(encode_iface(&iface), encode_iface(&again));
    assert_eq!(iface_id(&iface), fold_digest(&encode_iface(&iface)));

    let schema = e20::nia_schema();
    assert_eq!(encode_schema(&schema), encode_schema(&e20::nia_schema()));
    assert_eq!(schema_id(&schema), fold_digest(&encode_schema(&schema)));

    let bound = e20::nia_rgb_e20();
    assert_eq!(encode_iface_impl(&bound), encode_iface_impl(&e20::nia_rgb_e20()));
}

#[test]
fn distinct_standards_encode_differently() {
    assert_ne!(encode_iface(&e20::rgb_e20()), encode_iface(&e721::rgb_e721()));
    assert_ne!(
        encode_schema(&e20::nia_schema()),
        encode_schema(&e721::uda_schema())
    );
}

#[test]
fn records_hold_their_nominal_data() {
    let owner = Account::with(U256::from_u64(9));
    let coin = e20::RgbE20::new("Token".to_string(), "TOK".to_string(), owner, U256::from_u64(21));
    assert_eq!(coin.name, "Token");
    assert_eq!(coin.symbol, "TOK");
    assert_eq!(coin.owner, owner);
    assert_eq!(coin.total_supply, U256::from_u64(21));

    let nft = e721::RgbE721::new(
        "Relic".to_string(),
        "RLC".to_string(),
        owner,
        U256::from_u64(4),
        Some("u://r".to_string()),
    );
    assert_eq!(nft.base_uri.as_deref(), Some("u://r"));
    assert_eq!(nft.total_supply, U256::from_u64(4));
    assert_eq!(U256::zero(), U256::from_u64(0));
}

#[test]
fn interfaces_declare_their_operations() {
    let iface = e20::rgb_e20();
    assert_eq!(iface.name, fname("RGB-E20"));
    assert_eq!(iface.transitions.len(), 8);
    assert_eq!(iface.transitions[0].0, fname("Transfer"));
    assert!(!iface.transitions[0].1.optional);
    assert!(iface.transitions[1].1.optional);
    assert_eq!(iface.default_operation, Some(fname("Transfer")));

    let iface = e721::rgb_e721();
    assert_eq!(iface.name, fname("RGB-E721"));
    assert_eq!(iface.transitions.len(), 7);
    assert!(!iface.transitions[0].1.optional);
    assert!(!iface.transitions[1].1.optional);
    assert!(iface.transitions[2].1.optional);
    assert_eq!(iface.global_state.len(), 5);
}
