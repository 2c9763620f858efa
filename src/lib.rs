//! Trust material for a fixed set of PKI environments: selecting an
//! environment by name, listing the trust anchors of the enabled ones, laying
//! out what registering an environment with a path validation library takes,
//! and configuring HTTP clients that trust those anchors.

pub mod client;
pub mod environment;
pub mod material;

pub use client::{
    configured_builder, get_reqwest_client_native, get_reqwest_client_rustls, trust_parsed_root,
    trust_roots,
};
pub use environment::Environment;
pub use material::{
    get_roots, plan_certval_environment, AnchorFile, CertvalPlan, PrepareError, TrustMaterial,
};
