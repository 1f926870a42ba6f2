//! Data model for client-side-validated token-contract standards: abstract
//! interfaces, concrete schemata and the bindings that join them.

pub mod binding;
pub mod codec;
pub mod e20;
pub mod e721;
pub mod ident;
pub mod iface;
pub mod maps;
pub mod occurrence;
pub mod schema;
pub mod stl;
pub mod token;
pub mod typesys;
