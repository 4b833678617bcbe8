//! Pool lifecycle: the write-once initialization cell, modelled as a
//! state machine, and the pool statistics surface.
//!
//! A pool goes `Uninitialized → Ready` exactly once in the life of
//! its owning handle and is never reset: racing initializers all
//! [`PoolLifecycle::install`] their freshly dialed pool, the first
//! write wins, every later installer discards its redundant pool and
//! observes the winner's, and no caller ever errors on that account.
//! The runtime wraps this state machine in its synchronization
//! primitive; the decisions proved here are what that wrapper
//! executes. Tearing a pool down is the owning handle's drop, not a
//! transition of this machine.

use vstd::prelude::*;
use crate::config::PoolConfig;

verus! {

/// The lifecycle phase of the shared pool cell. A `Ready` pool is
/// named by an identity token, under which the runtime keeps the one
/// physical pool object.
pub enum PoolPhase {
    /// No pool has been installed yet; `connect` must dial.
    Uninitialized,
    /// The one physical pool, by its identity token.
    Ready(u64),
}

/// The write-once pool cell of one client handle.
pub struct PoolLifecycle {
    /// The current phase.
    pub phase: PoolPhase,
}

/// What installing a freshly dialed pool does: the first write wins,
/// a loser keeps the winner's pool. The second component names the
/// pool every caller observes afterwards.
pub open spec fn spec_install(s: PoolLifecycle, pool_id: u64) -> (PoolLifecycle, u64) {
    match s.phase {
        PoolPhase::Ready(p) => (s, p),
        PoolPhase::Uninitialized => (PoolLifecycle { phase: PoolPhase::Ready(pool_id) }, pool_id),
    }
}

impl PoolLifecycle {
    /// A fresh handle: no pool yet.
    pub fn new() -> (r: PoolLifecycle)
        ensures
            r.phase is Uninitialized,
    {
        PoolLifecycle { phase: PoolPhase::Uninitialized }
    }

    /// The read-mostly fast path of `connect`: true once a pool is
    /// installed.
    pub fn is_connected(&self) -> (r: bool)
        ensures
            r == (self.phase is Ready),
    {
        matches!(self.phase, PoolPhase::Ready(_))
    }

    /// Whether a `connect` call must dial at all: only before the
    /// first install.
    pub fn needs_dial(&self) -> (r: bool)
        ensures
            r == (self.phase is Uninitialized),
    {
        matches!(self.phase, PoolPhase::Uninitialized)
    }

    /// Installs a freshly dialed pool: the first write wins and is
    /// never overwritten; the returned token is the pool every
    /// caller observes from now on.
    pub fn install(&mut self, pool_id: u64) -> (winner: u64)
        ensures
            (*final(self), winner) == spec_install(*old(self), pool_id),
            final(self).phase is Ready,
    {
        match self.phase {
            PoolPhase::Ready(p) => p,
            PoolPhase::Uninitialized => {
                self.phase = PoolPhase::Ready(pool_id);
                pool_id
            },
        }
    }
}

/// Single-flight initialization: when racing `connect` calls each
/// install the pool they dialed, the first install decides; every
/// later install leaves the cell exactly as it found it and hands
/// its caller that same first pool, so concurrent first calls agree
/// on one physical pool and none of them errors.
pub proof fn lemma_install_single_flight(s0: PoolLifecycle, a: u64, b: u64)
    requires
        s0.phase is Uninitialized,
    ensures
        ({
            let (s1, w1) = spec_install(s0, a);
            let (s2, w2) = spec_install(s1, b);
            &&& s1.phase == PoolPhase::Ready(a)
            &&& w1 == a
            &&& s2 == s1
            &&& w2 == w1
        }),
{
}

/// Idempotent connect: once the cell is `Ready`, any further install
/// changes nothing and observes the existing pool.
pub proof fn lemma_install_idempotent(s0: PoolLifecycle, p: u64, b: u64)
    requires
        s0.phase == PoolPhase::Ready(p),
    ensures
        spec_install(s0, b).0 == s0,
        spec_install(s0, b).1 == p,
{
}

/// The pool statistics surface: what `pool_stats` reports.
pub struct PoolStats {
    /// Whether a pool has been installed.
    pub connected: bool,
    /// Physical connections currently open.
    pub active_connections: u32,
    /// Connections currently idle in the pool.
    pub idle_connections: u32,
    /// The configured size cap.
    pub max_size: u32,
    /// The configured idle floor.
    pub min_idle: Option<u32>,
}

/// Assembles the statistics of one handle: live counters from the
/// runtime's pool state when connected, zeros and no configuration
/// otherwise.
pub fn make_pool_stats(
    lifecycle: &PoolLifecycle,
    connections: u32,
    idle_connections: u32,
    config: &PoolConfig,
) -> (r: PoolStats)
    ensures
        r.connected == (lifecycle.phase is Ready),
        lifecycle.phase is Ready ==> {
            &&& r.active_connections == connections
            &&& r.idle_connections == idle_connections
            &&& r.max_size == config.max_size
            &&& r.min_idle == config.min_idle
        },
        lifecycle.phase is Uninitialized ==> {
            &&& r.active_connections == 0
            &&& r.idle_connections == 0
            &&& r.max_size == 0
            &&& r.min_idle is None
        },
{
    if lifecycle.is_connected() {
        PoolStats {
            connected: true,
            active_connections: connections,
            idle_connections,
            max_size: config.max_size,
            min_idle: config.min_idle,
        }
    } else {
        PoolStats {
            connected: false,
            active_connections: 0,
            idle_connections: 0,
            max_size: 0,
            min_idle: None,
        }
    }
}

} // verus!
