//! Verified core of an on-chain script executor: a context cache for
//! transactions and indexer query pages, a canonical fingerprint for query
//! keys, a mode-switched resolution adapter (bridged message passing or
//! standalone request-response), and the orchestration of script runs
//! around an opaque interpreter supplied by the host.

use vstd::prelude::*;

mod error;
mod executor;
mod fingerprint;
mod hexstr;
mod laws;
mod protocol;
mod store;
mod types;

pub use error::Error;
pub use executor::{
    entry_outcome_ok, prepare_outcome_ok, spec_cell_at, spec_invocation, ExecutionContext, ExecutionContextV,
    Executor, InterpreterFault, InterpreterInvocation, InterpreterInvocationV, RunStep,
    ScriptExecutionRequest, ScriptExecutionRequestV,
};
pub use fingerprint::{
    bounded_query, dec_fingerprint, fingerprint, lemma_fingerprint_injective,
    lemma_fingerprint_roundtrip, spec_fingerprint,
};
pub use hexstr::{parse_hex, parse_tx_hash, spec_hex_decode, spec_parse_hex};
pub use laws::{
    lemma_cache_then_fetch, lemma_failure_preserves_cache, lemma_fingerprint_consistent,
    lemma_index_out_of_range, lemma_post_success_invalidation, lemma_retry_convergence,
};
pub use protocol::{
    cells_request, spec_cells_request, spec_transaction_request, transaction_request,
    BroadcastChannelMessagePacket, BroadcastChannelMessagePacketV, ExecutionMode, ExecutionModeV,
    GetCellsArguments, GetCellsArgumentsV, OutboundRequest, OutboundRequestV, RequestPayload,
    RequestPayloadV, Resolution, RpcEnvelope, RpcEnvelopeV,
};
pub use types::{
    Cell, CellOutput, CellOutputWithData, HashType, Hex, Order, OutPoint, Pagination,
    ScriptDescriptor, ScriptType, SearchKey, SearchKeyFilter, SearchMode, TransactionData,
    TransactionRecord, VmResult,
};
pub use types::{
    CellOutputV, CellOutputWithDataV, CellV, OutPointV, PaginationV, ScriptDescriptorV,
    SearchKeyFilterV, SearchKeyV, TransactionDataV, TransactionRecordV, VmResultV,
};

verus! {

/// Number of bytes in a transaction identifier.
pub const TX_HASH_BYTES: usize = 32;

} // verus!
