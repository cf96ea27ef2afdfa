//! Settings read from the process environment.

use vstd::prelude::*;

verus! {

/// Environment settings (variables named after the fields in lower case).
#[derive(Clone, Debug)]
pub struct Config {
    pub cargo_pkg_name: String,
    pub jaeger_url: String,
    pub database_url: String,
    pub redis_url: String,
    pub nats_url: String,
    pub kafka_broker_url: String,
    pub kafka_message_timeout: String,
    pub secret_key: String,
    pub server: String,
    pub smtp_username: String,
    pub smtp_password: String,
    pub smtp_host: String,
    pub smtp_port: i64,
    pub domain: String,
    pub dev_mode: bool,
    /// Defaults to the default hash scheme version when unset.
    pub scheme_hasher_version: usize,
}

} // verus!
