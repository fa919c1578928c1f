//! End-to-end scenarios: a bridged script run driven to completion, and
//! a standalone cells query answered by its endpoint.

use ssri_executor::{
    BroadcastChannelMessagePacket, CellOutput, Error, ExecutionMode, Executor, HashType, Hex,
    Order, OutboundRequest, Pagination, Resolution, RequestPayload, RpcEnvelope, RunStep,
    ScriptDescriptor, ScriptType, SearchKey, TransactionData, TransactionRecord, VmResult,
};

fn binary_cell_record(binary: Vec<u8>) -> TransactionRecord {
    TransactionRecord {
        transaction: Some(TransactionData {
            outputs: vec![CellOutput {
                capacity: 500,
                lock: ScriptDescriptor {
                    code_hash: Hex { hex: vec![0u8; 32] },
                    hash_type: HashType::Data,
                    args: Hex { hex: vec![] },
                },
                type_script: None,
            }],
            outputs_data: vec![Hex { hex: binary }],
        }),
    }
}

#[test]
fn bridged_code_level_run_defers_then_executes() {
    let mut e = Executor::new(ExecutionMode::Bridged);
    let tx_hash = format!("0x{}", "11".repeat(32));

    // Cold cache: the run defers and emits a getTransaction message.
    match e.run_script_level_code(&tx_hash, 0, vec![], false) {
        Ok(RunStep::Deferred) => {}
        other => panic!("expected a deferred run, got {:?}", other),
    }
    let outbox = e.take_outbox();
    assert_eq!(outbox.len(), 1);
    match &outbox[0] {
        OutboundRequest::Broadcast(BroadcastChannelMessagePacket { message_label, data, .. }) => {
            assert_eq!(message_label, "getTransaction");
            match data {
                RequestPayload::Transaction { tx_hash } => {
                    assert_eq!(tx_hash.hex, vec![0x11u8; 32])
                }
                other => panic!("expected a transaction payload, got {:?}", other),
            }
        }
        other => panic!("expected a broadcast packet, got {:?}", other),
    }

    // The supervising context fills the cache with a transaction whose
    // first output data is the binary; the identical request now yields
    // an interpreter invocation carrying that binary.
    let binary = vec![0x7f, 0x45, 0x4c, 0x46];
    e.put_transaction(Hex { hex: vec![0x11u8; 32] }, binary_cell_record(binary.clone()));
    let invocation = match e.run_script_level_code(&tx_hash, 0, vec![], false) {
        Ok(RunStep::Invoke(inv)) => inv,
        other => panic!("expected an invocation, got {:?}", other),
    };
    assert_eq!(invocation.binary.hex, binary);
    assert!(invocation.script.is_none());
    assert!(invocation.cell.is_none());
    assert!(invocation.tx.is_none());

    // The host runs the interpreter; a successful run returns its result
    // with non-empty content and wipes the cache.
    let out = e
        .finish_run(Ok(VmResult { content: Hex { hex: vec![0x01, 0x02] }, cell_deps: vec![] }))
        .unwrap();
    assert!(!out.content.hex.is_empty());
    match e.resolve_transaction(&Hex { hex: vec![0x11u8; 32] }) {
        Resolution::Deferred => {}
        other => panic!("expected a deferred resolution after the wipe, got {:?}", other),
    }
}

#[test]
fn bridged_run_rejects_malformed_hash() {
    let mut e = Executor::new(ExecutionMode::Bridged);
    match e.run_script_level_code("0x1234", 0, vec![], false) {
        Err(Error::Encoding(_)) => {}
        other => panic!("expected an Encoding error, got {:?}", other),
    }
    assert!(e.take_outbox().is_empty());
}

#[test]
fn missing_cell_fails_with_runtime_error() {
    let mut e = Executor::new(ExecutionMode::Bridged);
    let tx_hash = format!("0x{}", "22".repeat(32));
    e.put_transaction(Hex { hex: vec![0x22u8; 32] }, TransactionRecord { transaction: None });
    match e.run_script_level_code(&tx_hash, 0, vec![], false) {
        Ok(RunStep::Failed(Error::Runtime(m))) => assert_eq!(m, "Cell not found"),
        other => panic!("expected a Runtime failure, got {:?}", other),
    }
}

#[test]
fn standalone_cells_page_resolves_after_endpoint_answer() {
    let mut e = Executor::new(ExecutionMode::Standalone {
        endpoint: "http://127.0.0.1:8114".to_string(),
    });
    let query = SearchKey {
        script: ScriptDescriptor {
            code_hash: Hex { hex: vec![0xeeu8; 32] },
            hash_type: HashType::Type,
            args: Hex { hex: vec![0x01] },
        },
        script_type: ScriptType::Type,
        script_search_mode: None,
        filter: None,
        with_data: Some(true),
        group_by_transaction: None,
    };

    // The miss prepares one request-response envelope for the endpoint.
    match e.resolve_cells_page(query.clone(), Order::Asc, 20, None) {
        Resolution::Deferred => {}
        other => panic!("expected a deferred resolution, got {:?}", other),
    }
    let outbox = e.take_outbox();
    assert_eq!(outbox.len(), 1);
    match &outbox[0] {
        OutboundRequest::Rpc(RpcEnvelope { endpoint, method, id, params }) => {
            assert_eq!(endpoint, "http://127.0.0.1:8114");
            assert_eq!(method, "get_cells");
            assert_eq!(*id, 0);
            match params {
                RequestPayload::Cells(args) => assert_eq!(args.limit, 20),
                other => panic!("expected cells arguments, got {:?}", other),
            }
        }
        other => panic!("expected an rpc envelope, got {:?}", other),
    }

    // The endpoint's `result` page fills the cache; the same query now
    // resolves from the cache without re-querying.
    let page = Pagination { objects: vec![], last_cursor: Hex { hex: vec![0x10] } };
    e.put_cells_page(
        &query,
        Order::Asc,
        20,
        &None,
        Pagination { objects: vec![], last_cursor: Hex { hex: vec![0x10] } },
    );
    match e.resolve_cells_page(query, Order::Asc, 20, None) {
        Resolution::Resolved(p) => assert_eq!(p, page),
        other => panic!("expected a resolved page, got {:?}", other),
    }
    assert!(e.take_outbox().is_empty());
}

#[test]
fn standalone_transaction_miss_prepares_get_transaction_envelope() {
    let mut e = Executor::new(ExecutionMode::Standalone {
        endpoint: "http://127.0.0.1:8114".to_string(),
    });
    match e.resolve_transaction(&Hex { hex: vec![0x44u8; 32] }) {
        Resolution::Deferred => {}
        other => panic!("expected a deferred resolution, got {:?}", other),
    }
    let outbox = e.take_outbox();
    assert_eq!(outbox.len(), 1);
    match &outbox[0] {
        OutboundRequest::Rpc(RpcEnvelope { method, .. }) => assert_eq!(method, "get_transaction"),
        other => panic!("expected an rpc envelope, got {:?}", other),
    }
}

#[test]
fn script_level_run_carries_the_override() {
    let mut e = Executor::new(ExecutionMode::Bridged);
    let tx_hash = format!("0x{}", "33".repeat(32));
    e.put_transaction(Hex { hex: vec![0x33u8; 32] }, binary_cell_record(vec![0xaa]));
    let script = ScriptDescriptor {
        code_hash: Hex { hex: vec![0x05u8; 32] },
        hash_type: HashType::Data1,
        args: Hex { hex: vec![0x09] },
    };
    match e.run_script_level_script(&tx_hash, 0, vec![Hex { hex: vec![0x01] }], script.clone(), true)
    {
        Ok(RunStep::Invoke(inv)) => {
            assert_eq!(inv.script, Some(script));
            assert!(inv.cell.is_none());
            assert!(inv.tx.is_none());
            assert!(inv.script_debug);
            assert_eq!(inv.args.len(), 1);
        }
        other => panic!("expected an invocation, got {:?}", other),
    }
}
