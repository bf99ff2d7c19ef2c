//! The custom-resource spec types the operator reconciles, as plain data,
//! with the pure logic that belongs to them.
pub mod access_policy;
pub mod application;
pub mod brand;
pub mod flow;
pub mod group;
pub mod instance;
pub mod namespace_policy;
pub mod outpost;
pub mod scope_mapping;
pub mod user;
