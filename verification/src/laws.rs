//! Laws of the resolver and orchestrator, stated over the same spec
//! functions and views that the executable functions' contracts use.
//!
//! Each law composes the contracts of `put_transaction`,
//! `resolve_transaction`, `resolve_cell` and `finish_run`: those
//! contracts pin each operation's effect on the cache maps and the
//! outbox, and the lemmas here state what the compositions yield.

use vstd::prelude::*;

use crate::executor::spec_cell_at;
use crate::fingerprint::spec_fingerprint;
use crate::protocol::{spec_transaction_request, ExecutionModeV, OutboundRequestV};
use crate::types::{Hex, SearchKey, TransactionRecordV};

verus! {

/// Fingerprint consistency: the fingerprint of a cells query is a
/// function of the query's field values alone. Two queries whose fields
/// are equal in value — whatever their in-memory representation —
/// fingerprint identically, so they hit the same cache entry; and both
/// `resolve_cells_page` and `put_cells_page` state their cache key as
/// `spec_fingerprint`, so lookups can never use a different key than
/// inserts.
pub proof fn lemma_fingerprint_consistent(
    q1: SearchKey,
    q2: SearchKey,
    order: crate::types::Order,
    limit: u32,
    a1: Option<Hex>,
    a2: Option<Hex>,
)
    requires
        q1@ == q2@,
        a1.deep_view() == a2.deep_view(),
    ensures
        spec_fingerprint(q1@, order, limit, a1.deep_view()) == spec_fingerprint(
            q2@,
            order,
            limit,
            a2.deep_view(),
        ),
{
}

/// Cache-then-fetch: after `put_transaction(id, v)` the transaction map
/// holds exactly `v` under `id`, so by `resolve_transaction`'s contract
/// an immediately following `resolve_transaction(id)` returns `v` and
/// leaves the outbox unchanged — no outbound fetch.
pub proof fn lemma_cache_then_fetch(
    transactions: Map<Seq<u8>, TransactionRecordV>,
    id: Seq<u8>,
    v: TransactionRecordV,
)
    ensures
        transactions.insert(id, v).contains_key(id),
        transactions.insert(id, v)[id] == v,
{
}

/// Retry convergence: on a cache with no record for `id`,
/// `resolve_transaction(id)` defers and appends exactly one outbound
/// request — the one the mode calls for — and after the supervising fill
/// `put_transaction(id, v)` the identical call resolves to `v` without
/// emitting anything further.
pub proof fn lemma_retry_convergence(
    transactions: Map<Seq<u8>, TransactionRecordV>,
    outbox: Seq<OutboundRequestV>,
    mode: ExecutionModeV,
    id: Seq<u8>,
    v: TransactionRecordV,
)
    requires
        !transactions.contains_key(id),
    ensures
        outbox.push(spec_transaction_request(mode, id)).len() == outbox.len() + 1,
        outbox.push(spec_transaction_request(mode, id)).last() == spec_transaction_request(
            mode,
            id,
        ),
        transactions.insert(id, v).contains_key(id),
        transactions.insert(id, v)[id] == v,
{
}

/// Post-success invalidation: a successful `finish_run` leaves both
/// cache maps empty, and the empty map holds no identifier, so by
/// `resolve_transaction`'s contract every previously cached identifier
/// now misses and must be re-fetched.
pub proof fn lemma_post_success_invalidation(id: Seq<u8>)
    ensures
        !Map::<Seq<u8>, TransactionRecordV>::empty().contains_key(id),
{
}

/// Failure preserves the cache: a failed `finish_run` ensures both cache
/// maps are unchanged, so any identifier the transaction map held before
/// the failed run it still holds after, with the same record — a
/// following `resolve_transaction` still hits.
pub proof fn lemma_failure_preserves_cache(
    pre: Map<Seq<u8>, TransactionRecordV>,
    post: Map<Seq<u8>, TransactionRecordV>,
    id: Seq<u8>,
)
    requires
        post == pre,
        pre.contains_key(id),
    ensures
        post.contains_key(id),
        post[id] == pre[id],
{
}

/// Index-out-of-range yields not-found: a record whose output sequences
/// are shorter than `index + 1` — or a record for an unknown transaction
/// — has no cell at `index`, so by `resolve_cell`'s contract the
/// resolution is `Resolved(None)`, never a panic and never an error.
pub proof fn lemma_index_out_of_range(t: TransactionRecordV, index: int)
    requires
        match t.transaction {
            None => true,
            Some(d) => index >= d.outputs.len() || index >= d.outputs_data.len(),
        },
    ensures
        spec_cell_at(t, index) is None,
{
}

} // verus!
