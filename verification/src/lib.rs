//! Verified core of a desktop data-entry backend for pediatric
//! nutrition-treatment case records.
//!
//! The crate models the patient case record (demographics, treatment
//! classification, diagnostic classification, measurements), the derived
//! body-mass index, the stable tag/content encoding of the two tagged unions,
//! and the semantics of the record table behind the request handlers
//! (save, update, fetch by id, list names, list years, list by year).
//! The unverifiable surroundings - the GUI shell, the async SQL driver and
//! the request (de)serialization derives - live outside this crate and call
//! into it with plain values.

pub mod bmi;
pub mod codec;
pub mod error;
pub mod patient;
pub mod store;
