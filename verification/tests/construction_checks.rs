//! Tests of the build-step validation of interfaces and schemata.

use rgb_ifaces::e20;
use rgb_ifaces::e721;
use rgb_ifaces::ident::fname;
use rgb_ifaces::iface::{check_interface, ArgSpec, BuildError};
use rgb_ifaces::schema::check_schema;
use rgb_ifaces::stl::standard_types;
use rgb_ifaces::typesys::TypeRegistry;

#[test]
fn built_interfaces_pass_validation() {
    let reg = standard_types();
    assert_eq!(check_interface(&e20::rgb_e20(), &reg), Ok(()));
    assert_eq!(check_interface(&e721::rgb_e721(), &reg), Ok(()));
}

#[test]
fn built_schemata_pass_validation() {
    assert_eq!(check_schema(&e20::nia_schema()), Ok(()));
    assert_eq!(check_schema(&e721::uda_schema()), Ok(()));
}

#[test]
fn duplicated_field_name_is_rejected() {
    let mut iface = e20::rgb_e20();
    let dup = (fname("name"), iface.global_state[0].1);
    iface.global_state.push(dup);
    let reg = standard_types();
    assert_eq!(
        check_interface(&iface, &reg),
        Err(BuildError::DuplicateFieldName(fname("name")))
    );
}

#[test]
fn duplicated_transition_input_is_rejected() {
    let mut iface = e20::rgb_e20();
    iface.transitions[0]
        .1
        .inputs
        .push((fname("to"), ArgSpec::required()));
    let reg = standard_types();
    assert_eq!(
        check_interface(&iface, &reg),
        Err(BuildError::DuplicateFieldName(fname("to")))
    );
}

#[test]
fn unregistered_type_is_rejected() {
    let iface = e20::rgb_e20();
    let empty = TypeRegistry { entries: Vec::new() };
    assert_eq!(
        check_interface(&iface, &empty),
        Err(BuildError::UnresolvedTypeRef(iface.error_type))
    );
}

#[test]
fn conflicting_occurrence_bounds_are_rejected() {
    let mut schema = e20::nia_schema();
    // Bind the asset id a second time in a transition's inputs: the same
    // state id now carries two occurrence bounds.
    let again = schema.transitions[0].1.inputs[0];
    schema.transitions[0].1.inputs.push(again);
    assert_eq!(
        check_schema(&schema),
        Err(BuildError::InvalidOccurrence(e20::OS_ASSETS))
    );
}

#[test]
fn unresolved_script_reference_is_rejected() {
    let mut schema = e20::nia_schema();
    schema.script.libs.clear();
    let lib = schema.script.entry_points[0].1.lib;
    assert_eq!(
        check_schema(&schema),
        Err(BuildError::UnresolvedScriptRef(lib))
    );
}
