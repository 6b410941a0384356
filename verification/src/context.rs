//! The per-operation context.
//!
//! A `GraphQLContext` is built fresh for each incoming operation and
//! carries nothing but the pool handle that the root resolvers acquire
//! their connection from; it has no other state.

use vstd::prelude::*;
use crate::db::Pool;

verus! {

/// The value threaded into every field resolution: the pool handle.
pub struct GraphQLContext {
    pub pool: Pool,
}

impl GraphQLContext {
    /// A context is well-formed when its pool is.
    pub open spec fn wf(&self) -> bool {
        self.pool.wf()
    }

    /// A fresh context around the shared pool handle.
    pub fn new(pool: Pool) -> (ctx: GraphQLContext)
        ensures
            ctx.pool == pool,
    {
        GraphQLContext { pool }
    }
}

} // verus!
