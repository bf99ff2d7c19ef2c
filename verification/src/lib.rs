//! Verified core of the Authentik operator.
#![allow(unused_imports)]

pub mod text;
pub mod crd;
pub mod status;
pub mod admission;
pub mod brand_election;
pub mod ports;
pub mod gateway;
pub mod requests;
pub mod cleanup;
pub mod secret_k8s;
pub mod secret_vault;
pub mod secret_fanout;
pub mod secret_store_factory;
pub mod secret_ref;
