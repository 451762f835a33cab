//! Reconciliation of nutrient data between a Tandoor recipe catalog and the
//! USDA FoodData Central database.
//!
//! The library holds the verified core of the importer: cross-reference id
//! resolution, rate-limit-aware lookup handling, property merge and override
//! semantics, pagination accounting, and the per-food pipeline decisions.
//! Network transport, serialization and the console live outside the library
//! and hand it plain values.

pub mod args;
pub mod config;
pub mod dictionary;
pub mod endpoints;
pub mod engine;
pub mod lookup;
pub mod merge;
pub mod pagination;
pub mod resolve;
pub mod tandoor;
pub mod text;
pub mod usda;
