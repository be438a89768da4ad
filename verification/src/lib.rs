//! Verified core of the Velora services: the domain rules, validators,
//! error mappings and session bookkeeping of the auth, gateway and users
//! services.

pub mod auth_app;
pub mod auth_config;
pub mod auth_domain;
pub mod config;
pub mod crypto;
pub mod events;
pub mod gateway;
pub mod grpc;
pub mod hexcodec;
pub mod ids;
pub mod paseto;
pub mod text;
pub mod users_domain;
pub mod users_app;
