//! Tests of the context resolver: cache hits, deferred misses, fills,
//! invalidation, and cell lookup.

use ssri_executor::{
    BroadcastChannelMessagePacket, CellOutput, Error, ExecutionMode, Executor, HashType, Hex,
    InterpreterFault, Order, OutboundRequest, Pagination, Resolution, RequestPayload,
    ScriptDescriptor, ScriptType, SearchKey, TransactionData, TransactionRecord, VmResult,
};

fn tx_id(byte: u8) -> Hex {
    Hex { hex: vec![byte; 32] }
}

fn lock_script() -> ScriptDescriptor {
    ScriptDescriptor {
        code_hash: Hex { hex: vec![0xcdu8; 32] },
        hash_type: HashType::Data,
        args: Hex { hex: vec![] },
    }
}

fn record_with_data(data: Vec<Vec<u8>>) -> TransactionRecord {
    let outputs = data
        .iter()
        .map(|_| CellOutput { capacity: 1000, lock: lock_script(), type_script: None })
        .collect();
    let outputs_data = data.into_iter().map(|d| Hex { hex: d }).collect();
    TransactionRecord { transaction: Some(TransactionData { outputs, outputs_data }) }
}

fn cells_query() -> SearchKey {
    SearchKey {
        script: lock_script(),
        script_type: ScriptType::Lock,
        script_search_mode: None,
        filter: None,
        with_data: None,
        group_by_transaction: None,
    }
}

#[test]
fn cache_then_fetch_returns_value_without_outbound_fetch() {
    let mut e = Executor::new(ExecutionMode::Bridged);
    let id = tx_id(0x42);
    let rec = record_with_data(vec![vec![1, 2, 3]]);
    e.put_transaction(id.clone(), record_with_data(vec![vec![1, 2, 3]]));
    match e.resolve_transaction(&id) {
        Resolution::Resolved(t) => assert_eq!(t, rec),
        other => panic!("expected a resolved transaction, got {:?}", other),
    }
    assert!(e.take_outbox().is_empty());
}

#[test]
fn retry_convergence_defers_once_then_resolves() {
    let mut e = Executor::new(ExecutionMode::Bridged);
    let id = tx_id(0x11);

    // Cold cache: deferred, and exactly one outbound message.
    match e.resolve_transaction(&id) {
        Resolution::Deferred => {}
        other => panic!("expected a deferred resolution, got {:?}", other),
    }
    let outbox = e.take_outbox();
    assert_eq!(outbox.len(), 1);
    match &outbox[0] {
        OutboundRequest::Broadcast(BroadcastChannelMessagePacket {
            sender_name,
            target_name,
            message_label,
            data_type_hint,
            data,
        }) => {
            assert_eq!(sender_name, "ssriExecutorWasm");
            assert_eq!(target_name, "ssriRpcWorker");
            assert_eq!(message_label, "getTransaction");
            assert_eq!(data_type_hint, "H256");
            match data {
                RequestPayload::Transaction { tx_hash } => assert_eq!(tx_hash.hex, vec![0x11; 32]),
                other => panic!("expected a transaction payload, got {:?}", other),
            }
        }
        other => panic!("expected a broadcast packet, got {:?}", other),
    }

    // Supervising fill, then the identical request resolves.
    let rec = record_with_data(vec![vec![7]]);
    e.put_transaction(id.clone(), record_with_data(vec![vec![7]]));
    match e.resolve_transaction(&id) {
        Resolution::Resolved(t) => assert_eq!(t, rec),
        other => panic!("expected a resolved transaction, got {:?}", other),
    }
    assert!(e.take_outbox().is_empty());
}

#[test]
fn put_transaction_overwrites_wholesale() {
    let mut e = Executor::new(ExecutionMode::Bridged);
    let id = tx_id(0x33);
    e.put_transaction(id.clone(), record_with_data(vec![vec![1]]));
    e.put_transaction(id.clone(), record_with_data(vec![vec![2, 2]]));
    match e.resolve_transaction(&id) {
        Resolution::Resolved(t) => assert_eq!(t, record_with_data(vec![vec![2, 2]])),
        other => panic!("expected a resolved transaction, got {:?}", other),
    }
}

#[test]
fn post_success_invalidation_clears_both_stores() {
    let mut e = Executor::new(ExecutionMode::Bridged);
    let id = tx_id(0x55);
    e.put_transaction(id.clone(), record_with_data(vec![vec![1]]));
    let q = cells_query();
    e.put_cells_page(
        &q,
        Order::Asc,
        10,
        &None,
        Pagination { objects: vec![], last_cursor: Hex { hex: vec![] } },
    );

    let out = e.finish_run(Ok(VmResult { content: Hex { hex: vec![1] }, cell_deps: vec![] }));
    assert!(out.is_ok());

    // Previously cached entries now miss and must be re-fetched.
    match e.resolve_transaction(&id) {
        Resolution::Deferred => {}
        other => panic!("expected a deferred resolution, got {:?}", other),
    }
    match e.resolve_cells_page(cells_query(), Order::Asc, 10, None) {
        Resolution::Deferred => {}
        other => panic!("expected a deferred resolution, got {:?}", other),
    }
}

#[test]
fn failure_preserves_cached_entries() {
    let mut e = Executor::new(ExecutionMode::Bridged);
    let id = tx_id(0x66);
    let rec = record_with_data(vec![vec![9]]);
    e.put_transaction(id.clone(), record_with_data(vec![vec![9]]));
    let q = cells_query();
    let page = Pagination { objects: vec![], last_cursor: Hex { hex: vec![0xaa] } };
    e.put_cells_page(
        &q,
        Order::Desc,
        5,
        &None,
        Pagination { objects: vec![], last_cursor: Hex { hex: vec![0xaa] } },
    );

    match e.finish_run(Err(InterpreterFault::Vm("illegal instruction".to_string()))) {
        Err(Error::Vm(m)) => assert_eq!(m, "illegal instruction"),
        other => panic!("expected a Vm error, got {:?}", other),
    }

    match e.resolve_transaction(&id) {
        Resolution::Resolved(t) => assert_eq!(t, rec),
        other => panic!("expected a resolved transaction, got {:?}", other),
    }
    match e.resolve_cells_page(cells_query(), Order::Desc, 5, None) {
        Resolution::Resolved(p) => assert_eq!(p, page),
        other => panic!("expected a resolved page, got {:?}", other),
    }
}

#[test]
fn script_exit_code_is_preserved() {
    let mut e = Executor::new(ExecutionMode::Bridged);
    match e.finish_run(Err(InterpreterFault::Script(3))) {
        Err(Error::Script(code)) => assert_eq!(code, 3),
        other => panic!("expected a Script error, got {:?}", other),
    }
}

#[test]
fn resolve_cell_returns_output_and_data() {
    let mut e = Executor::new(ExecutionMode::Bridged);
    let id = tx_id(0x77);
    e.put_transaction(id.clone(), record_with_data(vec![vec![1], vec![2, 2]]));
    match e.resolve_cell(&id, 1) {
        Resolution::Resolved(Some(cell)) => {
            assert_eq!(cell.cell_output.capacity, 1000);
            assert_eq!(cell.hex_data.unwrap().hex, vec![2, 2]);
        }
        other => panic!("expected a resolved cell, got {:?}", other),
    }
}

#[test]
fn index_out_of_range_yields_not_found() {
    let mut e = Executor::new(ExecutionMode::Bridged);
    let id = tx_id(0x88);
    e.put_transaction(id.clone(), record_with_data(vec![vec![1]]));
    match e.resolve_cell(&id, 1) {
        Resolution::Resolved(None) => {}
        other => panic!("expected no such cell, got {:?}", other),
    }
    match e.resolve_cell(&id, u32::MAX) {
        Resolution::Resolved(None) => {}
        other => panic!("expected no such cell, got {:?}", other),
    }
}

#[test]
fn unknown_transaction_yields_not_found() {
    let mut e = Executor::new(ExecutionMode::Bridged);
    let id = tx_id(0x99);
    e.put_transaction(id.clone(), TransactionRecord { transaction: None });
    match e.resolve_cell(&id, 0) {
        Resolution::Resolved(None) => {}
        other => panic!("expected no such cell, got {:?}", other),
    }
}

#[test]
fn cells_page_hit_returns_cached_page() {
    let mut e = Executor::new(ExecutionMode::Bridged);
    let page = Pagination { objects: vec![], last_cursor: Hex { hex: vec![0x01] } };
    let q = cells_query();
    e.put_cells_page(
        &q,
        Order::Asc,
        25,
        &Some(Hex { hex: vec![5] }),
        Pagination { objects: vec![], last_cursor: Hex { hex: vec![0x01] } },
    );
    match e.resolve_cells_page(cells_query(), Order::Asc, 25, Some(Hex { hex: vec![5] })) {
        Resolution::Resolved(p) => assert_eq!(p, page),
        other => panic!("expected a resolved page, got {:?}", other),
    }
    assert!(e.take_outbox().is_empty());
}
