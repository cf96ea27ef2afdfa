//! Settings of the service and where they are loaded from.

use vstd::prelude::*;
use crate::text::{lower_seq, to_ascii_lowercase, decimal_digits, u64_to_text};
use crate::utils::hasher::default_hasher_scheme_version;
use crate::utils::project_profile::{profile_name, Profile};

verus! {

/// All settings.
#[derive(Clone, Debug)]
pub struct Settings {
    pub server: Server,
    pub datasource: DataSource,
    pub message_broker: MessageBroker,
    pub rules: Vec<Rule>,
    pub log: Log,
    pub tracer: Tracer,
    pub cargo_pkg_name: String,
    pub hasher: Hasher,
    pub mail: Mail,
}

/// Password hashing.
#[derive(Clone, Debug)]
pub struct Hasher {
    pub scheme_version: usize,
}

/// Outgoing mail server.
#[derive(Clone, Debug)]
pub struct Mail {
    pub username: String,
    pub password: String,
    pub host: String,
    pub port: i64,
}

/// Tracing export.
#[derive(Clone, Debug)]
pub struct Tracer {
    pub jaeger: Jaeger,
}

/// Jaeger agent.
#[derive(Clone, Debug)]
pub struct Jaeger {
    pub url: String,
}

/// Logging.
#[derive(Clone, Debug)]
pub struct Log {
    pub level: String,
}

/// HTTP listener.
#[derive(Clone, Debug)]
pub struct Server {
    pub listen_port: u16,
    pub listen_url: String,
}

/// Storage back ends.
#[derive(Clone, Debug)]
pub struct DataSource {
    pub database: Database,
    pub redis: Redis,
}

/// Relational database.
#[derive(Clone, Debug)]
pub struct Database {
    pub url: String,
}

/// Redis server.
#[derive(Clone, Debug)]
pub struct Redis {
    pub url: String,
}

/// Message brokers.
#[derive(Clone, Debug)]
pub struct MessageBroker {
    pub nats: Nats,
    pub kafka: Kafka,
}

/// NATS server.
#[derive(Clone, Debug)]
pub struct Nats {
    pub url: String,
}

/// Kafka brokers.
#[derive(Clone, Debug)]
pub struct Kafka {
    pub url: String,
    pub message_timeout: String,
}

/// A named rule set.
#[derive(Clone, Debug)]
pub struct Rule {
    pub name: String,
    pub rule_set: Vec<String>,
}

/// Where settings come from, lowest precedence first: one default value,
/// then the files, then the process environment.
pub struct SettingsSources {
    pub default_key: String,
    pub default_value: String,
    pub files: Vec<String>,
}

/// The settings files read under a profile: the shared defaults, then the
/// profile's own file (named after the profile in lower case; the file
/// extension is found by the loader).
pub open spec fn settings_files(profile: Profile) -> Seq<Seq<char>> {
    seq!["./config/default.toml"@, "./config/"@ + lower_seq(profile_name(profile))]
}

impl Settings {
    /// Sources of the settings under a profile; the hash scheme version
    /// defaults to the default scheme version.
    pub fn sources(profile: Profile) -> (r: SettingsSources)
        ensures
            r.default_key@ == "hasher.scheme_version"@,
            r.default_value@ == decimal_digits(1),
            r.files@.map_values(|f: String| f@) == settings_files(profile),
    {
        let env = to_ascii_lowercase(profile.as_str());
        let mut profile_file = String::from_str("./config/");
        profile_file.append(env.as_str());
        let mut files: Vec<String> = Vec::new();
        files.push(String::from_str("./config/default.toml"));
        files.push(profile_file);
        let v = default_hasher_scheme_version();
        let default_value = u64_to_text(v as u64);
        assert(files@.map_values(|f: String| f@) =~= settings_files(profile));
        SettingsSources { default_key: String::from_str("hasher.scheme_version"), default_value, files }
    }
}

} // verus!
