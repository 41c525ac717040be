//! Local DNS interception and forwarding: rule matching, query logging,
//! upstream selection and the per-query decision logic.

pub mod dns_types;
pub mod text;
pub mod ipv4;
pub mod ipv6;
pub mod record_type;
pub mod upstream;
pub mod dns_rules;
pub mod dns_log_store;
pub mod dns_resolver;
pub mod dns_server;
pub mod net_interfaces;
pub mod interface;
pub mod dns_utils;
pub mod types;
pub mod commands;
