//! The connection pool, as the resolvers see it.
//!
//! The pool is the one shared resource: a bounded set of live store
//! connections. Each operation checks one connection out for its whole
//! duration and releases it on exit, so across a completed operation the
//! number of free connections is unchanged; all the resolvers need of
//! the pool is whether a connection can be had at all, and the store it
//! reaches. Acquisition is fallible: a pool with no free connection
//! yields a distinct, recoverable error, never an abort.

use vstd::prelude::*;
use crate::store::Store;

verus! {

/// The default number of connections a fresh pool maintains.
pub const DEFAULT_POOL_SIZE: usize = 10;

/// A handle on the shared connection pool and the store behind it.
pub struct Pool {
    /// How many connections the pool can hand out.
    pub connections: usize,
    /// The store every connection reaches.
    pub store: Store,
}

impl Pool {
    /// A pool is well-formed when the store behind it is.
    pub open spec fn wf(&self) -> bool {
        self.store.wf()
    }

    /// A pool of `connections` connections onto `store`.
    pub fn new(connections: usize, store: Store) -> (p: Pool)
        ensures
            p.connections == connections,
            p.store == store,
    {
        Pool { connections, store }
    }

    /// True when acquisition can succeed.
    pub fn has_connection(&self) -> (b: bool)
        ensures
            b == (self.connections > 0),
    {
        self.connections > 0
    }
}

/// A pool of the default size onto an empty store.
pub fn get_pool() -> (p: Pool)
    ensures
        p.connections == DEFAULT_POOL_SIZE,
        p.store.rows() == Seq::<crate::models::Vacancy>::empty(),
        p.wf(),
{
    Pool::new(DEFAULT_POOL_SIZE, Store::new())
}

} // verus!
