//! The resolution protocol: the two adapter modes, the outbound requests
//! a cache miss produces, and the tagged outcome of a resolution.
//!
//! A miss never blocks. In bridged mode it publishes a request packet for
//! a supervising context and defers; in standalone mode it prepares a
//! request-response envelope for the configured endpoint. Retry logic is
//! driven by the [`Resolution`] tag, never by error text.

use vstd::prelude::*;

use crate::error::Error;
use crate::types::{Hex, Order, SearchKey, SearchKeyV};

verus! {

/// How a cache miss is turned into an answer: by delegating the fetch to
/// a supervising context, or by a direct request-response call against a
/// configured endpoint.
#[derive(Debug, PartialEq, Eq)]
pub enum ExecutionMode {
    Bridged,
    Standalone { endpoint: String },
}

/// Mathematical value of an [`ExecutionMode`].
pub ghost enum ExecutionModeV {
    Bridged,
    Standalone { endpoint: Seq<char> },
}

impl View for ExecutionMode {
    type V = ExecutionModeV;

    open spec fn view(&self) -> ExecutionModeV {
        match self {
            ExecutionMode::Bridged => ExecutionModeV::Bridged,
            ExecutionMode::Standalone { endpoint } => ExecutionModeV::Standalone {
                endpoint: endpoint@,
            },
        }
    }
}

/// The arguments of an indexer cells query, as sent outbound on a miss.
#[derive(Debug, PartialEq, Eq)]
pub struct GetCellsArguments {
    pub search_key: SearchKey,
    pub order: Order,
    pub limit: u32,
    pub after_cursor: Option<Hex>,
}

/// Mathematical value of a [`GetCellsArguments`].
#[verifier::ext_equal]
pub ghost struct GetCellsArgumentsV {
    pub search_key: SearchKeyV,
    pub order: Order,
    pub limit: u32,
    pub after_cursor: Option<Seq<u8>>,
}

impl View for GetCellsArguments {
    type V = GetCellsArgumentsV;

    open spec fn view(&self) -> GetCellsArgumentsV {
        GetCellsArgumentsV {
            search_key: self.search_key@,
            order: self.order,
            limit: self.limit,
            after_cursor: self.after_cursor.deep_view(),
        }
    }
}

/// What a pending request asks for: a transaction by identifier, or a
/// cells page by query arguments.
#[derive(Debug, PartialEq, Eq)]
pub enum RequestPayload {
    Transaction { tx_hash: Hex },
    Cells(GetCellsArguments),
}

/// Mathematical value of a [`RequestPayload`].
pub ghost enum RequestPayloadV {
    Transaction { tx_hash: Seq<u8> },
    Cells(GetCellsArgumentsV),
}

impl View for RequestPayload {
    type V = RequestPayloadV;

    open spec fn view(&self) -> RequestPayloadV {
        match self {
            RequestPayload::Transaction { tx_hash } => RequestPayloadV::Transaction {
                tx_hash: tx_hash@,
            },
            RequestPayload::Cells(args) => RequestPayloadV::Cells(args@),
        }
    }
}

/// A message published for the supervising context in bridged mode.
#[derive(Debug, PartialEq, Eq)]
pub struct BroadcastChannelMessagePacket {
    pub sender_name: String,
    pub target_name: String,
    pub message_label: String,
    pub data_type_hint: String,
    pub data: RequestPayload,
}

/// Mathematical value of a [`BroadcastChannelMessagePacket`].
#[verifier::ext_equal]
pub ghost struct BroadcastChannelMessagePacketV {
    pub sender_name: Seq<char>,
    pub target_name: Seq<char>,
    pub message_label: Seq<char>,
    pub data_type_hint: Seq<char>,
    pub data: RequestPayloadV,
}

impl View for BroadcastChannelMessagePacket {
    type V = BroadcastChannelMessagePacketV;

    open spec fn view(&self) -> BroadcastChannelMessagePacketV {
        BroadcastChannelMessagePacketV {
            sender_name: self.sender_name@,
            target_name: self.target_name@,
            message_label: self.message_label@,
            data_type_hint: self.data_type_hint@,
            data: self.data@,
        }
    }
}

/// A request-response envelope prepared in standalone mode: the endpoint
/// it is for, the method name, the positional parameters, and the fixed
/// request identifier.
#[derive(Debug, PartialEq, Eq)]
pub struct RpcEnvelope {
    pub endpoint: String,
    pub method: String,
    pub id: u64,
    pub params: RequestPayload,
}

/// Mathematical value of an [`RpcEnvelope`].
#[verifier::ext_equal]
pub ghost struct RpcEnvelopeV {
    pub endpoint: Seq<char>,
    pub method: Seq<char>,
    pub id: u64,
    pub params: RequestPayloadV,
}

impl View for RpcEnvelope {
    type V = RpcEnvelopeV;

    open spec fn view(&self) -> RpcEnvelopeV {
        RpcEnvelopeV {
            endpoint: self.endpoint@,
            method: self.method@,
            id: self.id,
            params: self.params@,
        }
    }
}

/// One outbound request, in the shape the mode calls for.
#[derive(Debug, PartialEq, Eq)]
pub enum OutboundRequest {
    Broadcast(BroadcastChannelMessagePacket),
    Rpc(RpcEnvelope),
}

/// Mathematical value of an [`OutboundRequest`].
pub ghost enum OutboundRequestV {
    Broadcast(BroadcastChannelMessagePacketV),
    Rpc(RpcEnvelopeV),
}

impl View for OutboundRequest {
    type V = OutboundRequestV;

    open spec fn view(&self) -> OutboundRequestV {
        match self {
            OutboundRequest::Broadcast(p) => OutboundRequestV::Broadcast(p@),
            OutboundRequest::Rpc(e) => OutboundRequestV::Rpc(e@),
        }
    }
}

impl DeepView for OutboundRequest {
    type V = OutboundRequestV;

    open spec fn deep_view(&self) -> OutboundRequestV {
        self@
    }
}

/// The outcome of one resolution step.
///
/// `Deferred` is not a failure: it asks the caller to re-issue the same
/// request once the cache has been filled out of band.
#[derive(Debug, PartialEq, Eq)]
pub enum Resolution<T> {
    Resolved(T),
    Deferred,
    Failed(Error),
}

/// The request a transaction-cache miss emits under the given mode.
pub open spec fn spec_transaction_request(mode: ExecutionModeV, tx_hash: Seq<u8>) -> OutboundRequestV {
    match mode {
        ExecutionModeV::Bridged => OutboundRequestV::Broadcast(
            BroadcastChannelMessagePacketV {
                sender_name: "ssriExecutorWasm"@,
                target_name: "ssriRpcWorker"@,
                message_label: "getTransaction"@,
                data_type_hint: "H256"@,
                data: RequestPayloadV::Transaction { tx_hash },
            },
        ),
        ExecutionModeV::Standalone { endpoint } => OutboundRequestV::Rpc(
            RpcEnvelopeV {
                endpoint,
                method: "get_transaction"@,
                id: 0,
                params: RequestPayloadV::Transaction { tx_hash },
            },
        ),
    }
}

/// The request a cells-cache miss emits under the given mode.
pub open spec fn spec_cells_request(mode: ExecutionModeV, args: GetCellsArgumentsV) -> OutboundRequestV {
    match mode {
        ExecutionModeV::Bridged => OutboundRequestV::Broadcast(
            BroadcastChannelMessagePacketV {
                sender_name: "ssriExecutorWasm"@,
                target_name: "ssriRpcWorker"@,
                message_label: "getCells"@,
                data_type_hint: "GetCellsArguments"@,
                data: RequestPayloadV::Cells(args),
            },
        ),
        ExecutionModeV::Standalone { endpoint } => OutboundRequestV::Rpc(
            RpcEnvelopeV {
                endpoint,
                method: "get_cells"@,
                id: 0,
                params: RequestPayloadV::Cells(args),
            },
        ),
    }
}

/// Builds the outbound request for a missing transaction.
pub fn transaction_request(mode: &ExecutionMode, tx_hash: Hex) -> (r: OutboundRequest)
    ensures
        r@ == spec_transaction_request(mode@, tx_hash@),
{
    match mode {
        ExecutionMode::Bridged => OutboundRequest::Broadcast(
            BroadcastChannelMessagePacket {
                sender_name: "ssriExecutorWasm".to_owned(),
                target_name: "ssriRpcWorker".to_owned(),
                message_label: "getTransaction".to_owned(),
                data_type_hint: "H256".to_owned(),
                data: RequestPayload::Transaction { tx_hash },
            },
        ),
        ExecutionMode::Standalone { endpoint } => OutboundRequest::Rpc(
            RpcEnvelope {
                endpoint: endpoint.clone(),
                method: "get_transaction".to_owned(),
                id: 0,
                params: RequestPayload::Transaction { tx_hash },
            },
        ),
    }
}

/// Builds the outbound request for a missing cells page.
pub fn cells_request(mode: &ExecutionMode, args: GetCellsArguments) -> (r: OutboundRequest)
    ensures
        r@ == spec_cells_request(mode@, args@),
{
    match mode {
        ExecutionMode::Bridged => OutboundRequest::Broadcast(
            BroadcastChannelMessagePacket {
                sender_name: "ssriExecutorWasm".to_owned(),
                target_name: "ssriRpcWorker".to_owned(),
                message_label: "getCells".to_owned(),
                data_type_hint: "GetCellsArguments".to_owned(),
                data: RequestPayload::Cells(args),
            },
        ),
        ExecutionMode::Standalone { endpoint } => OutboundRequest::Rpc(
            RpcEnvelope {
                endpoint: endpoint.clone(),
                method: "get_cells".to_owned(),
                id: 0,
                params: RequestPayload::Cells(args),
            },
        ),
    }
}

} // verus!
