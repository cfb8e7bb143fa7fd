//! Account identities: a private key, the public key derived from it and a
//! network tag, bound into one value with a canonical binary encoding.
//!
//! The signature and commitment schemes stay abstract behind
//! [`components::AccountComponents`]; everything stated about an
//! [`account::Account`] is proved for every scheme that keeps that interface.

pub mod account;
pub mod components;
pub mod laws;
pub mod network_tag;
pub mod plain;
