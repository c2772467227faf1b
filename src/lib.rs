//! A hierarchical naming service: a registry of name ownership and expiry,
//! a registrar running commit-reveal registration, and a resolver holding
//! per-name records. Every operation is a verified state transition; the
//! Soroban host supplies hashing and address encoding.
pub mod host;
pub mod address;
pub mod table;
pub mod namehash;
pub mod registry;
pub mod registrar;
pub mod resolver;
pub mod laws;
