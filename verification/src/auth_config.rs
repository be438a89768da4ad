//! Configuration of the auth service.

use vstd::prelude::*;
use crate::config::{
    env_lookup, fold_digits, number_or_default, optional_number, parse_unsigned_spec, required,
    required_parse, required_parse_spec, required_spec, ConfigError, Env,
};

verus! {

pub struct Config {
    pub database_url: String,
    pub redis_url: String,
    pub grpc_port: u16,
    pub paseto_secret_hex: String,
    pub access_ttl_secs: u64,
    pub refresh_ttl_secs: u64,
}

/// The auth configuration read from `vars`: `DATABASE_URL`, `REDIS_URL`,
/// `GRPC_PORT` and `PASETO_SECRET_KEY` are required, in this order;
/// `ACCESS_TTL_SECS` (900 by default) and `REFRESH_TTL_SECS` (30 days by
/// default) are optional.
pub open spec fn auth_config_outcome(vars: Seq<(String, String)>, r: Result<Config, ConfigError>) -> bool {
    match required_spec(vars, "DATABASE_URL"@) {
        Err(f) => r matches Err(e) && e@ == f,
        Ok(db) => match required_spec(vars, "REDIS_URL"@) {
            Err(f) => r matches Err(e) && e@ == f,
            Ok(redis) => match required_parse_spec(vars, "GRPC_PORT"@, 65535) {
                Err(f) => r matches Err(e) && e@ == f,
                Ok(port) => match required_spec(vars, "PASETO_SECRET_KEY"@) {
                    Err(f) => r matches Err(e) && e@ == f,
                    Ok(key) => r matches Ok(c) && c.database_url@ == db && c.redis_url@ == redis
                        && c.grpc_port == port && c.paseto_secret_hex@ == key && c.access_ttl_secs
                        == number_or_default(vars, "ACCESS_TTL_SECS"@, "900"@, 900)
                        && c.refresh_ttl_secs == number_or_default(
                        vars,
                        "REFRESH_TTL_SECS"@,
                        "2592000"@,
                        2_592_000,
                    ),
                },
            },
        },
    }
}

/// The lifetime read from the variable `key`: the number its value holds
/// when it is set to the decimal text of a `u64`, else `default`.
pub open spec fn lifetime_from(vars: Seq<(String, String)>, key: Seq<char>, default: u64) -> u64 {
    match env_lookup(vars, key) {
        Some(v) => match parse_unsigned_spec(v, u64::MAX as nat) {
            Ok(n) => n as u64,
            Err(_) => default,
        },
        None => default,
    }
}

/// A loaded auth configuration takes its access-token lifetime from the
/// variable `ACCESS_TTL_SECS` (900 seconds when it is absent or not a
/// number) and its refresh-token lifetime from `REFRESH_TTL_SECS` (30 days
/// when absent or not a number).
pub proof fn lemma_auth_lifetimes_come_from_their_variables(
    vars: Seq<(String, String)>,
    r: Result<Config, ConfigError>,
)
    requires
        auth_config_outcome(vars, r),
    ensures
        r matches Ok(c) ==> c.access_ttl_secs == lifetime_from(vars, "ACCESS_TTL_SECS"@, 900),
        r matches Ok(c) ==> c.refresh_ttl_secs == lifetime_from(
            vars,
            "REFRESH_TTL_SECS"@,
            2_592_000,
        ),
{
    reveal_strlit("900");
    reveal_strlit("2592000");
    reveal_with_fuel(fold_digits, 8);
    assert(parse_unsigned_spec("900"@, u64::MAX as nat) == Ok::<nat, crate::config::IntErrorKind>(900));
    assert(parse_unsigned_spec("2592000"@, u64::MAX as nat) == Ok::<nat, crate::config::IntErrorKind>(
        2_592_000,
    ));
}

impl Config {
    pub fn load(env: &Env) -> (r: Result<Config, ConfigError>)
        ensures
            auth_config_outcome(env.entries(), r),
            r matches Ok(c) ==> c.access_ttl_secs == lifetime_from(
                env.entries(),
                "ACCESS_TTL_SECS"@,
                900,
            ),
            r matches Ok(c) ==> c.refresh_ttl_secs == lifetime_from(
                env.entries(),
                "REFRESH_TTL_SECS"@,
                2_592_000,
            ),
    {
        let database_url = match required(env, "DATABASE_URL") {
            Ok(v) => v,
            Err(e) => {
                return Err(e);
            },
        };
        let redis_url = match required(env, "REDIS_URL") {
            Ok(v) => v,
            Err(e) => {
                return Err(e);
            },
        };
        let grpc_port = match required_parse(env, "GRPC_PORT") {
            Ok(v) => v,
            Err(e) => {
                return Err(e);
            },
        };
        let paseto_secret_hex = match required(env, "PASETO_SECRET_KEY") {
            Ok(v) => v,
            Err(e) => {
                return Err(e);
            },
        };
        let access_ttl_secs = optional_number(env, "ACCESS_TTL_SECS", "900", 900);
        let refresh_ttl_secs = optional_number(env, "REFRESH_TTL_SECS", "2592000", 2_592_000);
        proof {
            lemma_auth_lifetimes_come_from_their_variables(
                env.entries(),
                Ok(
                    Config {
                        database_url,
                        redis_url,
                        grpc_port,
                        paseto_secret_hex,
                        access_ttl_secs,
                        refresh_ttl_secs,
                    },
                ),
            );
        }
        Ok(
            Config {
                database_url,
                redis_url,
                grpc_port,
                paseto_secret_hex,
                access_ttl_secs,
                refresh_ttl_secs,
            },
        )
    }
}

} // verus!
