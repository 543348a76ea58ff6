//! Localization-aware read layer over a geographic document index.
//!
//! Cities and regions live in an external document store. This crate holds
//! the verified core: classifying backend responses into domain errors,
//! localizing entity names by language, assembling city/region pairs into
//! response records while preserving input order, and ordering featured
//! cities by preferred country.

pub mod assemble;
pub mod error;
pub mod featured;
pub mod language;
pub mod model;
pub mod numfmt;
pub mod repo;
