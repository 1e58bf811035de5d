//! Access to the stored questions by similarity.

use crate::traits::{AccessorError, VectorAccessor};
use vstd::prelude::*;

verus! {

/// Looks up similar questions in the database, through a connection pool of
/// type `Pool`. The accessor only holds the pool: the similarity index is
/// not populated yet, so every lookup finds nothing and no query is made.
pub struct PostgresVectorAccessor<Pool> {
    pool: Pool,
}

impl<Pool> PostgresVectorAccessor<Pool> {
    /// The pool that the accessor holds.
    pub closed spec fn pool(&self) -> Pool {
        self.pool
    }

    /// An accessor that will query through `pool`.
    pub fn new(pool: Pool) -> (r: PostgresVectorAccessor<Pool>)
        ensures
            r.pool() == pool,
    {
        PostgresVectorAccessor { pool }
    }
}

impl<Pool> VectorAccessor for PostgresVectorAccessor<Pool> {
    open spec fn may_find(
        &self,
        vector: Seq<u32>,
        limit: i64,
        outcome: Result<Seq<serde_json::Value>, Seq<char>>,
    ) -> bool {
        outcome == Ok::<Seq<serde_json::Value>, Seq<char>>(Seq::empty())
    }

    fn find_similar_questions(&self, vector: &[u32], limit: i64) -> (r: Result<
        Vec<serde_json::Value>,
        AccessorError,
    >) {
        let found: Vec<serde_json::Value> = Vec::new();
        Ok(found)
    }
}

/// A lookup in an index that holds nothing gives an empty list and no error.
pub proof fn lemma_empty_index_finds_nothing<Pool>(
    accessor: PostgresVectorAccessor<Pool>,
    vector: Seq<u32>,
    limit: i64,
    outcome: Result<Seq<serde_json::Value>, Seq<char>>,
)
    requires
        accessor.may_find(vector, limit, outcome),
    ensures
        outcome is Ok,
        outcome->Ok_0.len() == 0,
{
}

} // verus!
