//! The context resolver and the script execution orchestrator.
//!
//! The [`Executor`] owns the two halves of the context cache, the mode of
//! its resolution adapter, and the outbox of requests that cache misses
//! emitted. Resolution never blocks: a hit answers from the cache, a miss
//! appends exactly one outbound request and defers. A script run is
//! prepared by resolving the target cell's binary, handed to the host's
//! interpreter, and finished by either wiping both caches (on success) or
//! leaving them untouched (on any fault).

use vstd::prelude::*;
use vstd::string::StringSliceAdditionalSpecFns;

use crate::error::Error;
use crate::fingerprint::{fingerprint, spec_fingerprint};
use crate::hexstr::{parse_tx_hash, spec_parse_hex};
use crate::protocol::{
    cells_request, spec_cells_request, spec_transaction_request, transaction_request,
    ExecutionMode, ExecutionModeV, GetCellsArguments, GetCellsArgumentsV, OutboundRequest,
    OutboundRequestV, Resolution,
};
use crate::store::KeyedStore;
use crate::types::{
    CellOutputWithData, CellOutputWithDataV, Hex, Order, Pagination, PaginationV,
    ScriptDescriptor, ScriptDescriptorV, SearchKey, TransactionData, TransactionDataV,
    TransactionRecord, TransactionRecordV, VmResult,
};

verus! {

/// The cell a transaction record holds at an output index: its output
/// and its data, or nothing when the record is for an unknown
/// transaction or either sequence is too short. The two forms of absence
/// are indistinguishable to the caller.
pub open spec fn spec_cell_at(t: TransactionRecordV, index: int) -> Option<CellOutputWithDataV> {
    match t.transaction {
        None => None,
        Some(d) => if 0 <= index && index < d.outputs.len() && index < d.outputs_data.len() {
            Some(
                CellOutputWithDataV {
                    cell_output: d.outputs[index],
                    hex_data: Some(d.outputs_data[index]),
                },
            )
        } else {
            None
        },
    }
}

/// How much surrounding state a script run supplies to the interpreter:
/// nothing, an owning script, a target cell, or a full transaction.
/// Levels are strictly additive in information.
#[derive(Debug, PartialEq, Eq)]
pub enum ExecutionContext {
    Code,
    Script(ScriptDescriptor),
    Cell(CellOutputWithData),
    Transaction(TransactionData),
}

/// Mathematical value of an [`ExecutionContext`].
pub ghost enum ExecutionContextV {
    Code,
    Script(ScriptDescriptorV),
    Cell(CellOutputWithDataV),
    Transaction(TransactionDataV),
}

impl View for ExecutionContext {
    type V = ExecutionContextV;

    open spec fn view(&self) -> ExecutionContextV {
        match self {
            ExecutionContext::Code => ExecutionContextV::Code,
            ExecutionContext::Script(s) => ExecutionContextV::Script(s@),
            ExecutionContext::Cell(c) => ExecutionContextV::Cell(c@),
            ExecutionContext::Transaction(t) => ExecutionContextV::Transaction(t@),
        }
    }
}

/// One script-execution request: the cell holding the binary, the
/// arguments, the debug flag, and the context level.
#[derive(Debug, PartialEq, Eq)]
pub struct ScriptExecutionRequest {
    pub tx_hash: Hex,
    pub index: u32,
    pub args: Vec<Hex>,
    pub script_debug: bool,
    pub context: ExecutionContext,
}

/// Mathematical value of a [`ScriptExecutionRequest`].
#[verifier::ext_equal]
pub ghost struct ScriptExecutionRequestV {
    pub tx_hash: Seq<u8>,
    pub index: u32,
    pub args: Seq<Seq<u8>>,
    pub script_debug: bool,
    pub context: ExecutionContextV,
}

impl View for ScriptExecutionRequest {
    type V = ScriptExecutionRequestV;

    open spec fn view(&self) -> ScriptExecutionRequestV {
        ScriptExecutionRequestV {
            tx_hash: self.tx_hash@,
            index: self.index,
            args: self.args.deep_view(),
            script_debug: self.script_debug,
            context: self.context@,
        }
    }
}

/// Everything the host's interpreter is invoked with.
#[derive(Debug, PartialEq, Eq)]
pub struct InterpreterInvocation {
    pub script_debug: bool,
    pub binary: Hex,
    pub args: Vec<Hex>,
    pub script: Option<ScriptDescriptor>,
    pub cell: Option<CellOutputWithData>,
    pub tx: Option<TransactionData>,
}

/// Mathematical value of an [`InterpreterInvocation`].
#[verifier::ext_equal]
pub ghost struct InterpreterInvocationV {
    pub script_debug: bool,
    pub binary: Seq<u8>,
    pub args: Seq<Seq<u8>>,
    pub script: Option<ScriptDescriptorV>,
    pub cell: Option<CellOutputWithDataV>,
    pub tx: Option<TransactionDataV>,
}

impl View for InterpreterInvocation {
    type V = InterpreterInvocationV;

    open spec fn view(&self) -> InterpreterInvocationV {
        InterpreterInvocationV {
            script_debug: self.script_debug,
            binary: self.binary@,
            args: self.args.deep_view(),
            script: self.script.deep_view(),
            cell: self.cell.deep_view(),
            tx: self.tx.deep_view(),
        }
    }
}

/// The interpreter invocation a request maps to once its binary is
/// resolved: the context level fills exactly one of the optional slots.
pub open spec fn spec_invocation(req: ScriptExecutionRequestV, binary: Seq<u8>) -> InterpreterInvocationV {
    InterpreterInvocationV {
        script_debug: req.script_debug,
        binary,
        args: req.args,
        script: match req.context {
            ExecutionContextV::Script(s) => Some(s),
            _ => None,
        },
        cell: match req.context {
            ExecutionContextV::Cell(c) => Some(c),
            _ => None,
        },
        tx: match req.context {
            ExecutionContextV::Transaction(t) => Some(t),
            _ => None,
        },
    }
}

/// The next move of a script run: hand this invocation to the
/// interpreter, retry the whole request once the cache is warm, or give
/// up with an error.
#[derive(Debug, PartialEq, Eq)]
pub enum RunStep {
    Invoke(InterpreterInvocation),
    Deferred,
    Failed(Error),
}

/// What a failed interpreter run reported: a script-level non-zero exit,
/// or an interpreter-internal fault.
#[derive(Debug, PartialEq, Eq)]
pub enum InterpreterFault {
    Script(i8),
    Vm(String),
}

/// What preparing a run guarantees, given the transaction cache, the
/// mode, and the outbox before and after the call.
pub open spec fn prepare_outcome_ok(
    transactions: Map<Seq<u8>, TransactionRecordV>,
    mode: ExecutionModeV,
    outbox0: Seq<OutboundRequestV>,
    outbox1: Seq<OutboundRequestV>,
    req: ScriptExecutionRequestV,
    r: RunStep,
) -> bool {
    match r {
        RunStep::Deferred => !transactions.contains_key(req.tx_hash) && outbox1 == outbox0.push(
            spec_transaction_request(mode, req.tx_hash),
        ),
        RunStep::Failed(e) => transactions.contains_key(req.tx_hash) && spec_cell_at(
            transactions[req.tx_hash],
            req.index as int,
        ) is None && (e matches Error::Runtime(m) && m@ == "Cell not found"@) && outbox1 == outbox0,
        RunStep::Invoke(inv) => transactions.contains_key(req.tx_hash) && (match spec_cell_at(
            transactions[req.tx_hash],
            req.index as int,
        ) {
            Some(c) => c.hex_data matches Some(b) && inv@ == spec_invocation(req, b),
            None => false,
        }) && outbox1 == outbox0,
    }
}

/// What one of the four entry points guarantees: a malformed or
/// wrongly-sized transaction identifier is an `Encoding` error with
/// nothing emitted; a well-formed one prepares the run for the given
/// context level.
pub open spec fn entry_outcome_ok(
    transactions: Map<Seq<u8>, TransactionRecordV>,
    mode: ExecutionModeV,
    outbox0: Seq<OutboundRequestV>,
    outbox1: Seq<OutboundRequestV>,
    tx_hash_text: Seq<u8>,
    index: u32,
    args: Seq<Seq<u8>>,
    script_debug: bool,
    context: ExecutionContextV,
    r: Result<RunStep, Error>,
) -> bool {
    match r {
        Ok(step) => (match spec_parse_hex(tx_hash_text) {
            Some(h) => h.len() == crate::TX_HASH_BYTES && prepare_outcome_ok(
                transactions,
                mode,
                outbox0,
                outbox1,
                ScriptExecutionRequestV { tx_hash: h, index, args, script_debug, context },
                step,
            ),
            None => false,
        }),
        Err(e) => (e matches Error::Encoding(_)) && outbox1 == outbox0 && (match spec_parse_hex(
            tx_hash_text,
        ) {
            Some(h) => h.len() != crate::TX_HASH_BYTES,
            None => true,
        }),
    }
}

/// The executor: context cache, resolution adapter mode, and outbox.
pub struct Executor {
    mode: ExecutionMode,
    transactions: KeyedStore<TransactionRecord>,
    cells: KeyedStore<Pagination>,
    outbox: Vec<OutboundRequest>,
}

impl Executor {
    /// Both cache halves are well formed.
    pub closed spec fn wf(&self) -> bool {
        self.transactions.wf() && self.cells.wf()
    }

    /// The adapter mode the executor was constructed with.
    pub closed spec fn mode_v(&self) -> ExecutionModeV {
        self.mode@
    }

    /// The transaction cache, as a map from identifier bytes to records.
    pub closed spec fn transactions(&self) -> Map<Seq<u8>, TransactionRecordV> {
        self.transactions@
    }

    /// The cells-page cache, as a map from fingerprint bytes to pages.
    pub closed spec fn cells(&self) -> Map<Seq<u8>, PaginationV> {
        self.cells@
    }

    /// The outbound requests emitted so far and not yet taken.
    pub closed spec fn outbox(&self) -> Seq<OutboundRequestV> {
        self.outbox.deep_view()
    }

    /// A fresh executor: empty caches, empty outbox.
    pub fn new(mode: ExecutionMode) -> (r: Executor)
        ensures
            r.wf(),
            r.mode_v() == mode@,
            r.transactions() == Map::<Seq<u8>, TransactionRecordV>::empty(),
            r.cells() == Map::<Seq<u8>, PaginationV>::empty(),
            r.outbox() == Seq::<OutboundRequestV>::empty(),
    {
        let outbox: Vec<OutboundRequest> = Vec::new();
        proof {
            assert(outbox.deep_view() =~= Seq::<OutboundRequestV>::empty());
        }
        Executor {
            mode,
            transactions: KeyedStore::new(),
            cells: KeyedStore::new(),
            outbox,
        }
    }

    /// Resolves a transaction by identifier.
    ///
    /// A cache hit returns exactly the cached record and emits nothing.
    /// A miss emits exactly one outbound request for the identifier — in
    /// the shape the mode calls for — and defers; the caller retries the
    /// identical request once the cache has been filled. Resolution
    /// itself never fails.
    pub fn resolve_transaction(&mut self, tx_hash: &Hex) -> (r: Resolution<TransactionRecord>)
        requires
            old(self).wf(),
        ensures
            final(self).wf(),
            final(self).mode_v() == old(self).mode_v(),
            final(self).transactions() == old(self).transactions(),
            final(self).cells() == old(self).cells(),
            match r {
                Resolution::Resolved(t) => old(self).transactions().contains_key(tx_hash@) && t@
                    == old(self).transactions()[tx_hash@] && final(self).outbox() == old(self).outbox(),
                Resolution::Deferred => !old(self).transactions().contains_key(tx_hash@) && final(self).outbox() == old(self).outbox().push(
                    spec_transaction_request(old(self).mode_v(), tx_hash@),
                ),
                Resolution::Failed(_) => false,
            },
    {
        let cached = match self.transactions.get(tx_hash) {
            Some(t) => Some(t.clone()),
            None => None,
        };
        match cached {
            Some(t) => Resolution::Resolved(t),
            None => {
                let ghost outbox0 = self.outbox.deep_view();
                let req = transaction_request(&self.mode, tx_hash.clone());
                self.outbox.push(req);
                proof {
                    assert(self.outbox.deep_view() =~= outbox0.push(
                        spec_transaction_request(self.mode@, tx_hash@),
                    ));
                }
                Resolution::Deferred
            },
        }
    }

    /// Fills the transaction cache, overwriting any earlier record for
    /// the identifier. Exposed to the supervising context that answers
    /// bridged requests, and used by standalone drivers after the
    /// request-response call.
    pub fn put_transaction(&mut self, tx_hash: Hex, record: TransactionRecord)
        requires
            old(self).wf(),
        ensures
            final(self).wf(),
            final(self).mode_v() == old(self).mode_v(),
            final(self).transactions() == old(self).transactions().insert(tx_hash@, record@),
            final(self).cells() == old(self).cells(),
            final(self).outbox() == old(self).outbox(),
    {
        self.transactions.put(tx_hash, record);
    }

    /// Resolves one page of an indexer cells query.
    ///
    /// The cache key is the canonical fingerprint of the four query
    /// fields, the same fingerprint `put_cells_page` keys by. A hit
    /// returns exactly the cached page and emits nothing; a miss emits
    /// exactly one outbound request carrying the query and defers.
    pub fn resolve_cells_page(
        &mut self,
        search_key: SearchKey,
        order: Order,
        limit: u32,
        after_cursor: Option<Hex>,
    ) -> (r: Resolution<Pagination>)
        requires
            old(self).wf(),
        ensures
            final(self).wf(),
            final(self).mode_v() == old(self).mode_v(),
            final(self).transactions() == old(self).transactions(),
            final(self).cells() == old(self).cells(),
            match r {
                Resolution::Resolved(p) => {
                    let key = spec_fingerprint(search_key@, order, limit, after_cursor.deep_view());
                    old(self).cells().contains_key(key) && p@ == old(self).cells()[key] && final(self).outbox() == old(self).outbox()
                },
                Resolution::Deferred => {
                    let key = spec_fingerprint(search_key@, order, limit, after_cursor.deep_view());
                    !old(self).cells().contains_key(key) && final(self).outbox() == old(self).outbox().push(
                        spec_cells_request(
                            old(self).mode_v(),
                            GetCellsArgumentsV {
                                search_key: search_key@,
                                order,
                                limit,
                                after_cursor: after_cursor.deep_view(),
                            },
                        ),
                    )
                },
                Resolution::Failed(_) => false,
            },
    {
        let key = fingerprint(&search_key, order, limit, &after_cursor);
        let cached = match self.cells.get(&key) {
            Some(p) => Some(p.clone()),
            None => None,
        };
        match cached {
            Some(p) => Resolution::Resolved(p),
            None => {
                let ghost outbox0 = self.outbox.deep_view();
                let ghost argsv = GetCellsArgumentsV {
                    search_key: search_key@,
                    order,
                    limit,
                    after_cursor: after_cursor.deep_view(),
                };
                let req = cells_request(
                    &self.mode,
                    GetCellsArguments { search_key, order, limit, after_cursor },
                );
                self.outbox.push(req);
                proof {
                    assert(self.outbox.deep_view() =~= outbox0.push(
                        spec_cells_request(self.mode@, argsv),
                    ));
                }
                Resolution::Deferred
            },
        }
    }

    /// Fills the cells-page cache under the query's canonical
    /// fingerprint, overwriting any earlier page for the same query.
    pub fn put_cells_page(
        &mut self,
        search_key: &SearchKey,
        order: Order,
        limit: u32,
        after_cursor: &Option<Hex>,
        page: Pagination,
    )
        requires
            old(self).wf(),
        ensures
            final(self).wf(),
            final(self).mode_v() == old(self).mode_v(),
            final(self).transactions() == old(self).transactions(),
            final(self).cells() == old(self).cells().insert(
                spec_fingerprint(search_key@, order, limit, after_cursor.deep_view()),
                page@,
            ),
            final(self).outbox() == old(self).outbox(),
    {
        let key = fingerprint(search_key, order, limit, after_cursor);
        self.cells.put(key, page);
    }

    /// Resolves the cell at `(tx_hash, index)`: the transaction's output
    /// and output data at that index.
    ///
    /// An index past either sequence, like an unknown transaction, is
    /// `Resolved(None)` — "no such cell", never an error. A transaction
    /// cache miss defers exactly as `resolve_transaction` does.
    pub fn resolve_cell(&mut self, tx_hash: &Hex, index: u32) -> (r: Resolution<
        Option<CellOutputWithData>,
    >)
        requires
            old(self).wf(),
        ensures
            final(self).wf(),
            final(self).mode_v() == old(self).mode_v(),
            final(self).transactions() == old(self).transactions(),
            final(self).cells() == old(self).cells(),
            match r {
                Resolution::Resolved(c) => old(self).transactions().contains_key(tx_hash@)
                    && c.deep_view() == spec_cell_at(
                    old(self).transactions()[tx_hash@],
                    index as int,
                ) && final(self).outbox() == old(self).outbox(),
                Resolution::Deferred => !old(self).transactions().contains_key(tx_hash@) && final(self).outbox() == old(self).outbox().push(
                    spec_transaction_request(old(self).mode_v(), tx_hash@),
                ),
                Resolution::Failed(_) => false,
            },
    {
        match self.resolve_transaction(tx_hash) {
            Resolution::Resolved(t) => {
                match t.transaction {
                    None => Resolution::Resolved(None),
                    Some(d) => {
                        let idx = index as usize;
                        if idx < d.outputs.len() && idx < d.outputs_data.len() {
                            let output = d.outputs[idx].clone();
                            let data = d.outputs_data[idx].clone();
                            proof {
                                assert(d@.outputs[idx as int] == d.outputs@[idx as int]@);
                                assert(d@.outputs_data[idx as int] == d.outputs_data@[idx as int]@);
                            }
                            Resolution::Resolved(
                                Some(CellOutputWithData { cell_output: output, hex_data: Some(data) }),
                            )
                        } else {
                            Resolution::Resolved(None)
                        }
                    },
                }
            },
            Resolution::Deferred => Resolution::Deferred,
            Resolution::Failed(e) => Resolution::Failed(e),
        }
    }

    /// Hands the caller every outbound request emitted so far, leaving
    /// the outbox empty. The host publishes bridged packets on its
    /// broadcast topic and performs standalone envelopes as blocking
    /// request-response calls.
    pub fn take_outbox(&mut self) -> (r: Vec<OutboundRequest>)
        requires
            old(self).wf(),
        ensures
            final(self).wf(),
            final(self).mode_v() == old(self).mode_v(),
            final(self).transactions() == old(self).transactions(),
            final(self).cells() == old(self).cells(),
            final(self).outbox() == Seq::<OutboundRequestV>::empty(),
            r.deep_view() == old(self).outbox(),
    {
        let mut out: Vec<OutboundRequest> = Vec::new();
        proof {
            assert(out.deep_view() =~= Seq::<OutboundRequestV>::empty());
        }
        core::mem::swap(&mut out, &mut self.outbox);
        out
    }

    /// Prepares a script run: resolves the binary at the request's
    /// target cell and assembles the interpreter invocation for the
    /// request's context level.
    ///
    /// A transaction cache miss is surfaced as `Deferred` — re-issue the
    /// identical request later — and emits exactly one outbound request.
    /// A missing cell is a `Runtime` failure. Nothing here touches the
    /// caches.
    pub fn prepare_run(&mut self, req: ScriptExecutionRequest) -> (r: RunStep)
        requires
            old(self).wf(),
        ensures
            final(self).wf(),
            final(self).mode_v() == old(self).mode_v(),
            final(self).transactions() == old(self).transactions(),
            final(self).cells() == old(self).cells(),
            prepare_outcome_ok(
                old(self).transactions(),
                old(self).mode_v(),
                old(self).outbox(),
                final(self).outbox(),
                req@,
                r,
            ),
    {
        let ScriptExecutionRequest { tx_hash, index, args, script_debug, context } = req;
        match self.resolve_cell(&tx_hash, index) {
            Resolution::Deferred => RunStep::Deferred,
            Resolution::Failed(e) => RunStep::Failed(e),
            Resolution::Resolved(None) => RunStep::Failed(
                Error::Runtime("Cell not found".to_owned()),
            ),
            Resolution::Resolved(Some(found)) => {
                match found.hex_data {
                    None => RunStep::Failed(Error::Runtime("Cell not found".to_owned())),
                    Some(binary) => {
                        let (script, cell, tx) = match context {
                            ExecutionContext::Code => (None, None, None),
                            ExecutionContext::Script(s) => (Some(s), None, None),
                            ExecutionContext::Cell(c) => (None, Some(c), None),
                            ExecutionContext::Transaction(t) => (None, None, Some(t)),
                        };
                        RunStep::Invoke(
                            InterpreterInvocation { script_debug, binary, args, script, cell, tx },
                        )
                    },
                }
            },
        }
    }

    /// Finishes a script run with what the interpreter reported.
    ///
    /// Success wipes both cache halves — every later resolution must
    /// re-fetch, so no successful run observes context older than its
    /// own invocation — and returns the interpreter's result. Any fault
    /// leaves both caches untouched, so a retry after a deferred
    /// resolution keeps its already-fetched context, and is surfaced
    /// with the fault's own variant: a script exit as `Script`, an
    /// interpreter-internal fault as `Vm`.
    pub fn finish_run(&mut self, outcome: Result<VmResult, InterpreterFault>) -> (r: Result<
        VmResult,
        Error,
    >)
        requires
            old(self).wf(),
        ensures
            final(self).wf(),
            final(self).mode_v() == old(self).mode_v(),
            final(self).outbox() == old(self).outbox(),
            match outcome {
                Ok(v) => final(self).transactions() == Map::<Seq<u8>, TransactionRecordV>::empty()
                    && final(self).cells() == Map::<Seq<u8>, PaginationV>::empty() && (r matches Ok(
                    out,
                ) && out@ == v@),
                Err(InterpreterFault::Script(code)) => final(self).transactions() == old(self).transactions() && final(self).cells() == old(self).cells() && (r matches Err(e)
                    && e matches Error::Script(c2) && c2 == code),
                Err(InterpreterFault::Vm(msg)) => final(self).transactions() == old(self).transactions() && final(self).cells() == old(self).cells() && (r matches Err(e)
                    && e matches Error::Vm(m2) && m2@ == msg@),
            },
    {
        match outcome {
            Ok(v) => {
                self.transactions.clear();
                self.cells.clear();
                Ok(v)
            },
            Err(InterpreterFault::Script(code)) => Err(Error::Script(code)),
            Err(InterpreterFault::Vm(msg)) => Err(Error::Vm(msg)),
        }
    }
    /// Requests a run at code level: the binary alone, no context.
    ///
    /// The transaction identifier arrives as a `0x`-prefixed hex string
    /// of 32 bytes; anything else is an `Encoding` error, and then
    /// nothing is emitted or changed.
    pub fn run_script_level_code(
        &mut self,
        tx_hash: &str,
        index: u32,
        args: Vec<Hex>,
        script_debug: bool,
    ) -> (r: Result<RunStep, Error>)
        requires
            old(self).wf(),
        ensures
            final(self).wf(),
            final(self).mode_v() == old(self).mode_v(),
            final(self).transactions() == old(self).transactions(),
            final(self).cells() == old(self).cells(),
            entry_outcome_ok(
                old(self).transactions(),
                old(self).mode_v(),
                old(self).outbox(),
                final(self).outbox(),
                tx_hash.spec_bytes(),
                index,
                args.deep_view(),
                script_debug,
                ExecutionContextV::Code,
                r,
            ),
    {
        let h = parse_tx_hash(tx_hash)?;
        Ok(
            self.prepare_run(
                ScriptExecutionRequest {
                    tx_hash: h,
                    index,
                    args,
                    script_debug,
                    context: ExecutionContext::Code,
                },
            ),
        )
    }

    /// Requests a run at script level: the owning script is supplied.
    pub fn run_script_level_script(
        &mut self,
        tx_hash: &str,
        index: u32,
        args: Vec<Hex>,
        script: ScriptDescriptor,
        script_debug: bool,
    ) -> (r: Result<RunStep, Error>)
        requires
            old(self).wf(),
        ensures
            final(self).wf(),
            final(self).mode_v() == old(self).mode_v(),
            final(self).transactions() == old(self).transactions(),
            final(self).cells() == old(self).cells(),
            entry_outcome_ok(
                old(self).transactions(),
                old(self).mode_v(),
                old(self).outbox(),
                final(self).outbox(),
                tx_hash.spec_bytes(),
                index,
                args.deep_view(),
                script_debug,
                ExecutionContextV::Script(script@),
                r,
            ),
    {
        let h = parse_tx_hash(tx_hash)?;
        Ok(
            self.prepare_run(
                ScriptExecutionRequest {
                    tx_hash: h,
                    index,
                    args,
                    script_debug,
                    context: ExecutionContext::Script(script),
                },
            ),
        )
    }

    /// Requests a run at cell level: the target cell is supplied.
    pub fn run_script_level_cell(
        &mut self,
        tx_hash: &str,
        index: u32,
        args: Vec<Hex>,
        cell: CellOutputWithData,
        script_debug: bool,
    ) -> (r: Result<RunStep, Error>)
        requires
            old(self).wf(),
        ensures
            final(self).wf(),
            final(self).mode_v() == old(self).mode_v(),
            final(self).transactions() == old(self).transactions(),
            final(self).cells() == old(self).cells(),
            entry_outcome_ok(
                old(self).transactions(),
                old(self).mode_v(),
                old(self).outbox(),
                final(self).outbox(),
                tx_hash.spec_bytes(),
                index,
                args.deep_view(),
                script_debug,
                ExecutionContextV::Cell(cell@),
                r,
            ),
    {
        let h = parse_tx_hash(tx_hash)?;
        Ok(
            self.prepare_run(
                ScriptExecutionRequest {
                    tx_hash: h,
                    index,
                    args,
                    script_debug,
                    context: ExecutionContext::Cell(cell),
                },
            ),
        )
    }

    /// Requests a run at transaction level: a full transaction is
    /// supplied.
    pub fn run_script_level_tx(
        &mut self,
        tx_hash: &str,
        index: u32,
        args: Vec<Hex>,
        tx: TransactionData,
        script_debug: bool,
    ) -> (r: Result<RunStep, Error>)
        requires
            old(self).wf(),
        ensures
            final(self).wf(),
            final(self).mode_v() == old(self).mode_v(),
            final(self).transactions() == old(self).transactions(),
            final(self).cells() == old(self).cells(),
            entry_outcome_ok(
                old(self).transactions(),
                old(self).mode_v(),
                old(self).outbox(),
                final(self).outbox(),
                tx_hash.spec_bytes(),
                index,
                args.deep_view(),
                script_debug,
                ExecutionContextV::Transaction(tx@),
                r,
            ),
    {
        let h = parse_tx_hash(tx_hash)?;
        Ok(
            self.prepare_run(
                ScriptExecutionRequest {
                    tx_hash: h,
                    index,
                    args,
                    script_debug,
                    context: ExecutionContext::Transaction(tx),
                },
            ),
        )
    }
}

} // verus!
