//! Request, pagination and configuration logic of the crates.io registry
//! backend, with contracts proved by Verus.
pub mod badges;
pub mod config;
pub mod crate_settings;
pub mod delete;
pub mod deleted;
pub mod downloads;
pub mod git_backend;
pub mod invitations;
pub mod legacy;
pub mod listings;
pub mod metrics;
pub mod notifications;
pub mod owners;
pub mod pagination;
pub mod publish;
pub mod query_params;
pub mod response_parts;
pub mod responses;
pub mod search;
pub mod secret_scanning;
pub mod semver;
pub mod session;
pub mod text;
pub mod time;
pub mod tokens;
pub mod username;
