//! Service configuration, resolved from the values the environment
//! supplied. Reading the environment is the caller's work; resolution —
//! required variables, defaults, port parsing — is pure and verified.

use vstd::prelude::*;
use vstd::string::StringExecFns;
use crate::strutil::{parse_u16, spec_digits_val, spec_is_digits};

verus! {

/// The resolved configuration.
#[derive(Debug)]
pub struct Config {
    pub database_url: String,
    pub server_host: String,
    pub server_port: u16,
    pub health_port: u16,
    pub keycloak_url: String,
    pub keycloak_internal_url: String,
    pub keycloak_realm: String,
    pub keycloak_client_id: String,
    pub keycloak_client_secret: String,
    pub jwt_secret: String,
}

/// The raw environment values the configuration is resolved from; absent
/// members stand for unset variables.
#[derive(Debug)]
pub struct EnvValues {
    pub database_url: Option<String>,
    pub server_host: Option<String>,
    pub server_port: Option<String>,
    pub health_port: Option<String>,
    pub keycloak_url: Option<String>,
    pub keycloak_internal_url: Option<String>,
    pub keycloak_realm: Option<String>,
    pub keycloak_client_id: Option<String>,
    pub keycloak_client_secret: Option<String>,
    pub jwt_secret: Option<String>,
}

/// Why resolution failed: a required variable is unset, or a port
/// variable does not hold a 16-bit decimal number. Either way the variable
/// is named.
#[derive(Debug)]
pub enum ConfigError {
    MissingVar(String),
    InvalidPort(String),
}

/// Whether a provided port value is a decimal number fitting a port.
pub open spec fn spec_port_ok(v: Option<String>) -> bool {
    match v {
        None => true,
        Some(s) => spec_is_digits(s@) && spec_digits_val(s@) <= 65535,
    }
}

/// The port a value resolves to, against its default.
pub open spec fn spec_port_value(v: Option<String>, default: int) -> int {
    match v {
        None => default,
        Some(s) => spec_digits_val(s@),
    }
}

impl Config {
    /// Resolves the configuration: the database URL, the provider's URL,
    /// realm, client credentials and the token secret are required; the
    /// listen host and the two ports default; the provider's internal URL
    /// falls back to its public one. Unset or bad variables are reported
    /// in the order the environment is read at startup.
    pub fn resolve(env: EnvValues) -> (r: Result<Config, ConfigError>)
        ensures
            match r {
                Ok(c) => {
                    &&& env.keycloak_url is Some && env.database_url is Some
                        && env.keycloak_realm is Some && env.keycloak_client_id is Some
                        && env.keycloak_client_secret is Some && env.jwt_secret is Some
                    &&& spec_port_ok(env.server_port) && spec_port_ok(env.health_port)
                    &&& c.database_url == env.database_url->Some_0
                    &&& (env.server_host is Some ==> c.server_host == env.server_host->Some_0)
                    &&& (env.server_host is None ==> c.server_host@ == "0.0.0.0"@)
                    &&& c.server_port as int == spec_port_value(env.server_port, 3000)
                    &&& c.health_port as int == spec_port_value(env.health_port, 3001)
                    &&& c.keycloak_url == env.keycloak_url->Some_0
                    &&& (env.keycloak_internal_url is Some ==> c.keycloak_internal_url
                        == env.keycloak_internal_url->Some_0)
                    &&& (env.keycloak_internal_url is None ==> c.keycloak_internal_url
                        == env.keycloak_url->Some_0)
                    &&& c.keycloak_realm == env.keycloak_realm->Some_0
                    &&& c.keycloak_client_id == env.keycloak_client_id->Some_0
                    &&& c.keycloak_client_secret == env.keycloak_client_secret->Some_0
                    &&& c.jwt_secret == env.jwt_secret->Some_0
                },
                Err(e) => {
                    if env.keycloak_url is None {
                        e matches ConfigError::MissingVar(m) && m@ == "KEYCLOAK_URL"@
                    } else if env.database_url is None {
                        e matches ConfigError::MissingVar(m) && m@ == "DATABASE_URL"@
                    } else if !spec_port_ok(env.server_port) {
                        e matches ConfigError::InvalidPort(m) && m@ == "SERVER_PORT"@
                    } else if !spec_port_ok(env.health_port) {
                        e matches ConfigError::InvalidPort(m) && m@ == "HEALTH_PORT"@
                    } else if env.keycloak_realm is None {
                        e matches ConfigError::MissingVar(m) && m@ == "KEYCLOAK_REALM"@
                    } else if env.keycloak_client_id is None {
                        e matches ConfigError::MissingVar(m) && m@ == "KEYCLOAK_CLIENT_ID"@
                    } else if env.keycloak_client_secret is None {
                        e matches ConfigError::MissingVar(m) && m@ == "KEYCLOAK_CLIENT_SECRET"@
                    } else {
                        env.jwt_secret is None && (e matches ConfigError::MissingVar(m) && m@
                            == "JWT_SECRET"@)
                    }
                },
            },
    {
        let keycloak_url = match env.keycloak_url {
            Some(u) => u,
            None => {
                return Err(ConfigError::MissingVar(String::from_str("KEYCLOAK_URL")));
            },
        };
        let database_url = match env.database_url {
            Some(u) => u,
            None => {
                return Err(ConfigError::MissingVar(String::from_str("DATABASE_URL")));
            },
        };
        let server_port: u16 = match &env.server_port {
            Some(s) => match parse_u16(s.as_str()) {
                Some(p) => p,
                None => {
                    return Err(ConfigError::InvalidPort(String::from_str("SERVER_PORT")));
                },
            },
            None => 3000,
        };
        let health_port: u16 = match &env.health_port {
            Some(s) => match parse_u16(s.as_str()) {
                Some(p) => p,
                None => {
                    return Err(ConfigError::InvalidPort(String::from_str("HEALTH_PORT")));
                },
            },
            None => 3001,
        };
        let keycloak_realm = match env.keycloak_realm {
            Some(v) => v,
            None => {
                return Err(ConfigError::MissingVar(String::from_str("KEYCLOAK_REALM")));
            },
        };
        let keycloak_client_id = match env.keycloak_client_id {
            Some(v) => v,
            None => {
                return Err(ConfigError::MissingVar(String::from_str("KEYCLOAK_CLIENT_ID")));
            },
        };
        let keycloak_client_secret = match env.keycloak_client_secret {
            Some(v) => v,
            None => {
                return Err(ConfigError::MissingVar(String::from_str("KEYCLOAK_CLIENT_SECRET")));
            },
        };
        let jwt_secret = match env.jwt_secret {
            Some(v) => v,
            None => {
                return Err(ConfigError::MissingVar(String::from_str("JWT_SECRET")));
            },
        };
        let server_host = match env.server_host {
            Some(v) => v,
            None => String::from_str("0.0.0.0"),
        };
        let keycloak_internal_url = match env.keycloak_internal_url {
            Some(v) => v,
            None => keycloak_url.clone(),
        };
        Ok(
            Config {
                database_url,
                server_host,
                server_port,
                health_port,
                keycloak_url,
                keycloak_internal_url,
                keycloak_realm,
                keycloak_client_id,
                keycloak_client_secret,
                jwt_secret,
            },
        )
    }
}

} // verus!
