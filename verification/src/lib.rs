//! Scope authorization, domain models and row/response decoding for the
//! MI security-intelligence toolkit.

pub mod bindings;
pub mod models;
pub mod provider;
pub mod net;
pub mod scope;
pub mod settings;
pub mod storage;
pub mod text;
