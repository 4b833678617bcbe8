//! Pool configuration: bounds and timeouts of the connection pool.
//!
//! A configuration is valid only when the pool has room for at least
//! one connection and the idle floor does not exceed the size cap;
//! construction and every mutation enforce that invariant.

use vstd::prelude::*;
use crate::errors::Error;

verus! {

/// Bounds and timeouts of the connection pool. Durations are carried
/// in whole seconds.
#[derive(Clone, Copy)]
pub struct PoolConfig {
    /// Hard cap on the number of physical connections; always positive.
    pub max_size: u32,
    /// Optional floor of idle connections kept warm; never above `max_size`.
    pub min_idle: Option<u32>,
    /// Optional forced-recycle age of a connection, in seconds.
    pub max_lifetime_secs: Option<u64>,
    /// Optional forced recycle of connections unused this long, in seconds.
    pub idle_timeout_secs: Option<u64>,
    /// Optional bound on how long a checkout may wait, in seconds.
    pub connection_timeout_secs: Option<u64>,
    /// Optional liveness probe before a connection is handed out.
    pub test_on_checkout: Option<bool>,
    /// Optional retry of transient dial failures during the initial fill.
    pub retry_on_connect: Option<bool>,
}

impl PoolConfig {
    /// The construction invariant: a positive cap, and an idle floor
    /// that fits under it.
    pub open spec fn wf(&self) -> bool {
        &&& self.max_size > 0
        &&& (self.min_idle matches Some(m) ==> m <= self.max_size)
    }

    /// Builds a configuration, rejecting a zero cap and an idle floor
    /// above the cap.
    pub fn new(
        max_size: u32,
        min_idle: Option<u32>,
        max_lifetime_secs: Option<u64>,
        idle_timeout_secs: Option<u64>,
        connection_timeout_secs: Option<u64>,
    ) -> (r: Result<PoolConfig, Error>)
        ensures
            r is Ok <==> max_size > 0 && (min_idle matches Some(m) ==> m <= max_size),
            r matches Ok(c) ==> {
                &&& c.wf()
                &&& c.max_size == max_size
                &&& c.min_idle == min_idle
                &&& c.max_lifetime_secs == max_lifetime_secs
                &&& c.idle_timeout_secs == idle_timeout_secs
                &&& c.connection_timeout_secs == connection_timeout_secs
                &&& c.test_on_checkout is None
                &&& c.retry_on_connect is None
            },
            r matches Err(e) ==> e is Configuration,
    {
        if max_size == 0 {
            return Err(Error::Configuration(String::from_str(
                "max_size must be greater than 0",
            )));
        }
        if let Some(m) = min_idle {
            if m > max_size {
                return Err(Error::Configuration(String::from_str(
                    "min_idle cannot be greater than max_size",
                )));
            }
        }
        Ok(PoolConfig {
            max_size,
            min_idle,
            max_lifetime_secs,
            idle_timeout_secs,
            connection_timeout_secs,
            test_on_checkout: None,
            retry_on_connect: None,
        })
    }

    /// Raises or lowers the size cap; refused when zero or below the
    /// idle floor, leaving the configuration unchanged.
    pub fn set_max_size(&mut self, value: u32) -> (r: Result<(), Error>)
        requires
            old(self).wf(),
        ensures
            r is Ok <==> value > 0 && (old(self).min_idle matches Some(m) ==> m <= value),
            r is Ok ==> *final(self) == (PoolConfig { max_size: value, ..*old(self) }),
            r is Err ==> *final(self) == *old(self),
            final(self).wf(),
            r matches Err(e) ==> e is Configuration,
    {
        if value == 0 {
            return Err(Error::Configuration(String::from_str(
                "max_size must be greater than 0",
            )));
        }
        if let Some(m) = self.min_idle {
            if m > value {
                return Err(Error::Configuration(String::from_str(
                    "max_size cannot be less than min_idle",
                )));
            }
        }
        self.max_size = value;
        Ok(())
    }

    /// Moves the idle floor; refused above the size cap, leaving the
    /// configuration unchanged.
    pub fn set_min_idle(&mut self, value: Option<u32>) -> (r: Result<(), Error>)
        requires
            old(self).wf(),
        ensures
            r is Ok <==> (value matches Some(m) ==> m <= old(self).max_size),
            r is Ok ==> *final(self) == (PoolConfig { min_idle: value, ..*old(self) }),
            r is Err ==> *final(self) == *old(self),
            final(self).wf(),
            r matches Err(e) ==> e is Configuration,
    {
        if let Some(m) = value {
            if m > self.max_size {
                return Err(Error::Configuration(String::from_str(
                    "min_idle cannot be greater than max_size",
                )));
            }
        }
        self.min_idle = value;
        Ok(())
    }

    /// Replaces the forced-recycle age.
    pub fn set_max_lifetime_secs(&mut self, value: Option<u64>)
        ensures
            *final(self) == (PoolConfig { max_lifetime_secs: value, ..*old(self) }),
    {
        self.max_lifetime_secs = value;
    }

    /// Replaces the idle recycle timeout.
    pub fn set_idle_timeout_secs(&mut self, value: Option<u64>)
        ensures
            *final(self) == (PoolConfig { idle_timeout_secs: value, ..*old(self) }),
    {
        self.idle_timeout_secs = value;
    }

    /// Replaces the checkout wait bound.
    pub fn set_connection_timeout_secs(&mut self, value: Option<u64>)
        ensures
            *final(self) == (PoolConfig { connection_timeout_secs: value, ..*old(self) }),
    {
        self.connection_timeout_secs = value;
    }

    /// A large pool for sustained high request rates.
    pub fn high_throughput() -> (r: PoolConfig)
        ensures
            r.wf(),
            r.max_size == 50,
            r.min_idle == Some(15u32),
            r.max_lifetime_secs == Some(1800u64),
            r.idle_timeout_secs == Some(600u64),
            r.connection_timeout_secs == Some(30u64),
    {
        PoolConfig {
            max_size: 50,
            min_idle: Some(15),
            max_lifetime_secs: Some(1800),
            idle_timeout_secs: Some(600),
            connection_timeout_secs: Some(30),
            test_on_checkout: None,
            retry_on_connect: None,
        }
    }

    /// A small pool for constrained environments.
    pub fn low_resource() -> (r: PoolConfig)
        ensures
            r.wf(),
            r.max_size == 3,
            r.min_idle == Some(1u32),
            r.max_lifetime_secs == Some(900u64),
            r.idle_timeout_secs == Some(300u64),
            r.connection_timeout_secs == Some(15u64),
    {
        PoolConfig {
            max_size: 3,
            min_idle: Some(1),
            max_lifetime_secs: Some(900),
            idle_timeout_secs: Some(300),
            connection_timeout_secs: Some(15),
            test_on_checkout: None,
            retry_on_connect: None,
        }
    }

    /// A modest pool for local development.
    pub fn development() -> (r: PoolConfig)
        ensures
            r.wf(),
            r.max_size == 5,
            r.min_idle == Some(1u32),
            r.max_lifetime_secs == Some(600u64),
            r.idle_timeout_secs == Some(180u64),
            r.connection_timeout_secs == Some(10u64),
    {
        PoolConfig {
            max_size: 5,
            min_idle: Some(1),
            max_lifetime_secs: Some(600),
            idle_timeout_secs: Some(180),
            connection_timeout_secs: Some(10),
            test_on_checkout: None,
            retry_on_connect: None,
        }
    }

    /// A very large pool for peak throughput.
    pub fn maximum_performance() -> (r: PoolConfig)
        ensures
            r.wf(),
            r.max_size == 100,
            r.min_idle == Some(30u32),
            r.max_lifetime_secs == Some(7200u64),
            r.idle_timeout_secs == Some(1800u64),
            r.connection_timeout_secs == Some(10u64),
    {
        PoolConfig {
            max_size: 100,
            min_idle: Some(30),
            max_lifetime_secs: Some(7200),
            idle_timeout_secs: Some(1800),
            connection_timeout_secs: Some(10),
            test_on_checkout: None,
            retry_on_connect: None,
        }
    }

    /// A per-worker pool for multi-process load generation.
    pub fn load_test_worker() -> (r: PoolConfig)
        ensures
            r.wf(),
            r.max_size == 12,
            r.min_idle == Some(4u32),
            r.max_lifetime_secs == Some(3600u64),
            r.idle_timeout_secs == Some(600u64),
            r.connection_timeout_secs == Some(5u64),
    {
        PoolConfig {
            max_size: 12,
            min_idle: Some(4),
            max_lifetime_secs: Some(3600),
            idle_timeout_secs: Some(600),
            connection_timeout_secs: Some(5),
            test_on_checkout: None,
            retry_on_connect: None,
        }
    }

    /// A pool sized for extreme concurrent load.
    pub fn ultra_high_concurrency() -> (r: PoolConfig)
        ensures
            r.wf(),
            r.max_size == 200,
            r.min_idle == Some(50u32),
            r.max_lifetime_secs == Some(3600u64),
            r.idle_timeout_secs == Some(900u64),
            r.connection_timeout_secs == Some(15u64),
    {
        PoolConfig {
            max_size: 200,
            min_idle: Some(50),
            max_lifetime_secs: Some(3600),
            idle_timeout_secs: Some(900),
            connection_timeout_secs: Some(15),
            test_on_checkout: None,
            retry_on_connect: None,
        }
    }
}

impl Default for PoolConfig {
    /// The stock configuration: a moderate cap with a small warm floor.
    fn default() -> (r: PoolConfig)
        ensures
            r.wf(),
            r.max_size == 10,
            r.min_idle == Some(2u32),
            r.max_lifetime_secs == Some(1800u64),
            r.idle_timeout_secs == Some(300u64),
            r.connection_timeout_secs == Some(30u64),
    {
        PoolConfig {
            max_size: 10,
            min_idle: Some(2),
            max_lifetime_secs: Some(1800),
            idle_timeout_secs: Some(300),
            connection_timeout_secs: Some(30),
            test_on_checkout: None,
            retry_on_connect: None,
        }
    }
}

/// Every configuration whose idle floor exceeds its size cap is
/// refused at construction, whatever the other fields hold.
pub proof fn lemma_floor_above_cap_is_refused(
    max_size: u32,
    min_idle: u32,
    max_lifetime_secs: Option<u64>,
    idle_timeout_secs: Option<u64>,
    connection_timeout_secs: Option<u64>,
)
    requires
        min_idle > max_size,
    ensures
        forall|r: Result<PoolConfig, Error>|
            call_ensures(
                PoolConfig::new,
                (max_size, Some(min_idle), max_lifetime_secs, idle_timeout_secs,
                connection_timeout_secs),
                r,
            ) ==> r is Err,
{
}

} // verus!
