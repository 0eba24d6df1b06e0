use std::time::Duration;
use vstd::prelude::*;

verus! {

/// The total number of nanoseconds that a `Duration` spans, as
/// `Duration::as_nanos` reports it.
pub uninterp spec fn duration_nanos(d: Duration) -> nat;

/// Calls `Duration::from_secs`. Trusted: the result spans exactly `secs`
/// whole seconds, as std documents.
#[verifier::external_body]
fn duration_from_secs(secs: u64) -> (d: Duration)
    ensures
        duration_nanos(d) == secs * 1_000_000_000,
{
    Duration::from_secs(secs)
}

/// Calls `Duration::is_zero`. Trusted: the result is true exactly when the
/// duration spans no time, as std documents.
#[verifier::external_body]
pub(crate) fn duration_is_zero(d: &Duration) -> (b: bool)
    ensures
        b <==> duration_nanos(*d) == 0,
{
    d.is_zero()
}

/// Abstract view of a pool policy.
pub struct ConnectPolicyView {
    pub max_connections: u32,
    pub min_connections: u32,
    pub acquire_timeout: Duration,
    pub idle_timeout: Duration,
}

/// Bounds and timeouts of the SeaORM connection pool of a context.
///
/// The pool always admits at least one connection, and never keeps more
/// idle connections than it admits.
#[derive(Debug, Clone, Copy, PartialEq, Eq)]
pub struct ConnectPolicy {
    max_connections: u32,
    min_connections: u32,
    acquire_timeout: Duration,
    idle_timeout: Duration,
}

impl View for ConnectPolicy {
    type V = ConnectPolicyView;

    closed spec fn view(&self) -> ConnectPolicyView {
        ConnectPolicyView {
            max_connections: self.max_connections,
            min_connections: self.min_connections,
            acquire_timeout: self.acquire_timeout,
            idle_timeout: self.idle_timeout,
        }
    }
}

/// The bounds every pool policy keeps: at least one connection, and no more
/// minimum connections than maximum ones.
pub open spec fn policy_bounds_hold(v: ConnectPolicyView) -> bool {
    &&& 1 <= v.max_connections
    &&& v.min_connections <= v.max_connections
}

impl ConnectPolicy {
    #[verifier::type_invariant]
    spec fn bounds(self) -> bool {
        1 <= self.max_connections && self.min_connections <= self.max_connections
    }

    /// The pool caps at `max(value, 1)` connections; the minimum is lowered
    /// to that cap where it exceeds it.
    pub fn with_max_connections(self, value: u32) -> (p: Self)
        ensures
            p@.max_connections == if value >= 1 { value } else { 1 },
            p@.min_connections == if self@.min_connections <= p@.max_connections {
                self@.min_connections
            } else {
                p@.max_connections
            },
            p@.acquire_timeout == self@.acquire_timeout,
            p@.idle_timeout == self@.idle_timeout,
            policy_bounds_hold(p@),
    {
        let max_connections: u32 = if value >= 1 { value } else { 1 };
        let min_connections: u32 = if self.min_connections <= max_connections {
            self.min_connections
        } else {
            max_connections
        };
        ConnectPolicy { max_connections, min_connections, ..self }
    }

    /// The pool keeps at least `min(value, max_connections)` connections.
    pub fn with_min_connections(self, value: u32) -> (p: Self)
        ensures
            p@.min_connections == if value <= self@.max_connections {
                value
            } else {
                self@.max_connections
            },
            p@.max_connections == self@.max_connections,
            p@.acquire_timeout == self@.acquire_timeout,
            p@.idle_timeout == self@.idle_timeout,
            policy_bounds_hold(p@),
    {
        proof { use_type_invariant(&self); }
        let min_connections: u32 = if value <= self.max_connections { value } else { self.max_connections };
        ConnectPolicy { min_connections, ..self }
    }

    /// The pool waits at most `value` to acquire a connection.
    pub fn with_acquire_timeout(self, value: Duration) -> (p: Self)
        ensures
            p@ == (ConnectPolicyView { acquire_timeout: value, ..self@ }),
            policy_bounds_hold(p@),
    {
        proof { use_type_invariant(&self); }
        ConnectPolicy { acquire_timeout: value, ..self }
    }

    /// The pool closes connections idle for longer than `value`.
    pub fn with_idle_timeout(self, value: Duration) -> (p: Self)
        ensures
            p@ == (ConnectPolicyView { idle_timeout: value, ..self@ }),
            policy_bounds_hold(p@),
    {
        proof { use_type_invariant(&self); }
        ConnectPolicy { idle_timeout: value, ..self }
    }

    /// The maximum number of pooled connections.
    pub fn max_connections(&self) -> (n: u32)
        ensures
            n == self@.max_connections,
            policy_bounds_hold(self@),
    {
        proof { use_type_invariant(self); }
        self.max_connections
    }

    /// The minimum number of pooled connections.
    pub fn min_connections(&self) -> (n: u32)
        ensures
            n == self@.min_connections,
            policy_bounds_hold(self@),
    {
        proof { use_type_invariant(self); }
        self.min_connections
    }

    /// How long acquiring a connection may take.
    pub fn acquire_timeout(&self) -> (d: Duration)
        ensures
            d == self@.acquire_timeout,
    {
        self.acquire_timeout
    }

    /// How long a connection may stay idle.
    pub fn idle_timeout(&self) -> (d: Duration)
        ensures
            d == self@.idle_timeout,
    {
        self.idle_timeout
    }
}

impl Default for ConnectPolicy {
    /// Ten connections at most, one at least, ten seconds to acquire one and
    /// five minutes of idleness before one is closed.
    fn default() -> (p: Self)
        ensures
            p@.max_connections == 10,
            p@.min_connections == 1,
            duration_nanos(p@.acquire_timeout) == 10 * 1_000_000_000,
            duration_nanos(p@.idle_timeout) == 300 * 1_000_000_000,
            policy_bounds_hold(p@),
    {
        ConnectPolicy {
            max_connections: 10,
            min_connections: 1,
            acquire_timeout: duration_from_secs(10),
            idle_timeout: duration_from_secs(300),
        }
    }
}

} // verus!
