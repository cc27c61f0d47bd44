//! The workflow core of a newsletter service: validated subscriber data,
//! credential checks, and the decisions of the registration, confirmation and
//! publishing workflows, each with a machine-checked contract.

pub mod application;
pub mod authentication;
pub mod configuration;
pub mod domain;
pub mod email_client;
pub mod routes;
pub mod utils;
