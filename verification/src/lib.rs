//! Verified core of a role-gated REST backend: credential verification,
//! token issuance and verification, the role/permission table, and the
//! request-authorization guard, together with the service-level decision
//! logic for the user and student resources.
//!
//! Persistence and HTTP routing are collaborators outside this crate: the
//! functions here work on plain values (records already fetched, header
//! strings already extracted) and state in their contracts exactly what
//! they decide.

pub mod auth;
pub mod credential;
pub mod errors;
pub mod ids;
pub mod jwt;
pub mod models;
pub mod permission;
pub mod student_service;
pub mod user_service;
pub mod validator;
