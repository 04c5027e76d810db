//! How the connection pool is set up.
use vstd::prelude::*;
use crate::db::error::DbResult;
use std::time::Duration;

verus! {

/// How the database is reached, as it is configured.
#[derive(Debug)]
pub struct DatabaseConfig {
    pub username: String,
    pub password: String,
    pub connect_string: String,
    pub min_connections: u32,
    pub max_connections: u32,
    pub acquire_timeout: Duration,
    pub idle_timeout: Duration,
    pub max_lifetime: Duration,
    pub statement_cache_capacity: usize,
}

/// How the connection pool is set up.
#[derive(Debug)]
pub struct OracleConnectConfig {
    pub username: String,
    pub password: String,
    pub connect_string: String,
    pub min_connections: u32,
    pub max_connections: u32,
    pub connection_increment: u32,
    pub acquire_timeout: Duration,
    pub idle_timeout: Duration,
    pub max_lifetime: Duration,
    pub statement_cache_capacity: u32,
}

/// At least one connection is held.
pub open spec fn least_connections(configured: u32) -> u32 {
    if configured < 1 {
        1
    } else {
        configured
    }
}

/// As many connections may be held as are configured, and no fewer than are held at least.
pub open spec fn most_connections(configured: u32, least: u32) -> u32 {
    if configured < least {
        least
    } else {
        configured
    }
}

/// The pool grows by four connections at a time, or by as many as it has room for.
pub open spec fn growth(least: u32, most: u32) -> int {
    if most - least < 4 {
        most - least
    } else {
        4
    }
}

impl OracleConnectConfig {
    /// The set-up of the pool that a configuration asks for.
    pub fn from_driver_config(config: &DatabaseConfig) -> (r: DbResult<OracleConnectConfig>)
        ensures
            r matches Ok(pool) && {
                &&& pool.username == config.username
                &&& pool.password == config.password
                &&& pool.connect_string == config.connect_string
                &&& pool.min_connections == least_connections(config.min_connections)
                &&& pool.max_connections == most_connections(
                    config.max_connections,
                    pool.min_connections,
                )
                &&& pool.connection_increment == growth(pool.min_connections, pool.max_connections)
                &&& pool.acquire_timeout == config.acquire_timeout
                &&& pool.idle_timeout == config.idle_timeout
                &&& pool.max_lifetime == config.max_lifetime
                &&& pool.statement_cache_capacity == (if config.statement_cache_capacity
                    <= u32::MAX {
                    config.statement_cache_capacity as int
                } else {
                    u32::MAX as int
                })
            },
    {
        let min_connections: u32 = if config.min_connections < 1 {
            1
        } else {
            config.min_connections
        };
        let max_connections: u32 = if config.max_connections < min_connections {
            min_connections
        } else {
            config.max_connections
        };
        let room: u32 = max_connections - min_connections;
        let connection_increment: u32 = if room < 4 {
            room
        } else {
            4
        };
        let statement_cache_capacity: u32 = if config.statement_cache_capacity <= u32::MAX as usize {
            config.statement_cache_capacity as u32
        } else {
            u32::MAX
        };
        Ok(
            OracleConnectConfig {
                username: config.username.clone(),
                password: config.password.clone(),
                connect_string: config.connect_string.clone(),
                min_connections,
                max_connections,
                connection_increment,
                acquire_timeout: config.acquire_timeout,
                idle_timeout: config.idle_timeout,
                max_lifetime: config.max_lifetime,
                statement_cache_capacity,
            },
        )
    }
}

/// The pool of any configuration holds at least one connection, no more at least than at most, and
/// never grows beyond what it may hold.
pub proof fn pool_bounds_are_in_order(min_configured: u32, max_configured: u32)
    ensures
        ({
            let least = least_connections(min_configured);
            let most = most_connections(max_configured, least);
            1 <= least <= most && 0 <= growth(least, most) <= 4 && least + growth(least, most)
                <= most
        }),
{
}

} // verus!
