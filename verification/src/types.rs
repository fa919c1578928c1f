//! Plain data model of the executor: byte strings, scripts, indexer search
//! keys, cells, pages, transaction records, and interpreter results.
//!
//! Every type here is plain data with a mathematical view, so that cache
//! keys compare by value and the canonical fingerprint of a query is a
//! total function of its fields.

use vstd::prelude::*;

verus! {

/// A byte string, written `0x`-prefixed hex at the boundary.
#[derive(Debug, PartialEq, Eq)]
pub struct Hex {
    pub hex: Vec<u8>,
}

impl View for Hex {
    type V = Seq<u8>;

    open spec fn view(&self) -> Seq<u8> {
        self.hex@
    }
}

impl Clone for Hex {
    fn clone(&self) -> (r: Self)
        ensures
            r@ == self@,
    {
        let mut out: Vec<u8> = Vec::new();
        let mut i: usize = 0;
        while i < self.hex.len()
            invariant
                i <= self.hex.len(),
                out@ == self.hex@.subrange(0, i as int),
            decreases self.hex.len() - i,
        {
            out.push(self.hex[i]);
            i = i + 1;
        }
        proof {
            assert(out@ =~= self.hex@);
        }
        Hex { hex: out }
    }
}

/// Whether a search key's script is matched as a lock or as a type script.
#[derive(Clone, Copy, Debug, PartialEq, Eq, Structural)]
pub enum ScriptType {
    Lock,
    Type,
}

/// How a script is matched: by prefix, exactly, or by partial match.
#[derive(Clone, Copy, Debug, PartialEq, Eq, Structural)]
pub enum SearchMode {
    Prefix,
    Exact,
    Partial,
}

impl Default for SearchMode {
    /// The default search mode is prefix matching.
    fn default() -> (r: Self)
        ensures
            r == SearchMode::Prefix,
    {
        SearchMode::Prefix
    }
}

/// Ordering of an indexer query's result page.
#[derive(Clone, Copy, Debug, PartialEq, Eq, Structural)]
pub enum Order {
    Desc,
    Asc,
}

/// How a script's code hash is interpreted on chain.
#[derive(Clone, Copy, Debug, PartialEq, Eq, Structural)]
pub enum HashType {
    Data,
    Type,
    Data1,
    Data2,
}

/// A script: executable logic attached to a cell.
#[derive(Debug, PartialEq, Eq)]
pub struct ScriptDescriptor {
    pub code_hash: Hex,
    pub hash_type: HashType,
    pub args: Hex,
}

/// Mathematical value of a [`ScriptDescriptor`].
#[verifier::ext_equal]
pub ghost struct ScriptDescriptorV {
    pub code_hash: Seq<u8>,
    pub hash_type: HashType,
    pub args: Seq<u8>,
}

impl View for ScriptDescriptor {
    type V = ScriptDescriptorV;

    open spec fn view(&self) -> ScriptDescriptorV {
        ScriptDescriptorV { code_hash: self.code_hash@, hash_type: self.hash_type, args: self.args@ }
    }
}

impl Clone for ScriptDescriptor {
    fn clone(&self) -> (r: Self)
        ensures
            r@ == self@,
    {
        ScriptDescriptor {
            code_hash: self.code_hash.clone(),
            hash_type: self.hash_type,
            args: self.args.clone(),
        }
    }
}

impl DeepView for Hex {
    type V = Seq<u8>;

    open spec fn deep_view(&self) -> Seq<u8> {
        self@
    }
}

impl DeepView for ScriptDescriptor {
    type V = ScriptDescriptorV;

    open spec fn deep_view(&self) -> ScriptDescriptorV {
        self@
    }
}

fn push_deep<T: DeepView>(v: &mut Vec<T>, x: T)
    ensures
        final(v).deep_view() == old(v).deep_view().push(x.deep_view()),
{
    let ghost prefix = v.deep_view();
    v.push(x);
    proof {
        assert(v.deep_view() =~= prefix.push(x.deep_view()));
    }
}

fn clone_opt_script(s: &Option<ScriptDescriptor>) -> (r: Option<ScriptDescriptor>)
    ensures
        r.deep_view() == s.deep_view(),
{
    match s {
        Some(sd) => Some(sd.clone()),
        None => None,
    }
}

fn clone_opt_hex(h: &Option<Hex>) -> (r: Option<Hex>)
    ensures
        r.deep_view() == h.deep_view(),
{
    match h {
        Some(x) => Some(x.clone()),
        None => None,
    }
}

/// Conditions an indexer query may filter its matching cells by.
#[derive(Debug, PartialEq, Eq)]
pub struct SearchKeyFilter {
    pub script: Option<ScriptDescriptor>,
    pub script_len_range: Option<(u64, u64)>,
    pub output_data: Option<Hex>,
    pub output_data_filter_mode: Option<SearchMode>,
    pub output_data_len_range: Option<(u64, u64)>,
    pub output_capacity_range: Option<(u64, u64)>,
    pub block_range: Option<(u64, u64)>,
}

/// Mathematical value of a [`SearchKeyFilter`].
#[verifier::ext_equal]
pub ghost struct SearchKeyFilterV {
    pub script: Option<ScriptDescriptorV>,
    pub script_len_range: Option<(u64, u64)>,
    pub output_data: Option<Seq<u8>>,
    pub output_data_filter_mode: Option<SearchMode>,
    pub output_data_len_range: Option<(u64, u64)>,
    pub output_capacity_range: Option<(u64, u64)>,
    pub block_range: Option<(u64, u64)>,
}

impl View for SearchKeyFilter {
    type V = SearchKeyFilterV;

    open spec fn view(&self) -> SearchKeyFilterV {
        SearchKeyFilterV {
            script: self.script.deep_view(),
            script_len_range: self.script_len_range,
            output_data: self.output_data.deep_view(),
            output_data_filter_mode: self.output_data_filter_mode,
            output_data_len_range: self.output_data_len_range,
            output_capacity_range: self.output_capacity_range,
            block_range: self.block_range,
        }
    }
}

impl DeepView for SearchKeyFilter {
    type V = SearchKeyFilterV;

    open spec fn deep_view(&self) -> SearchKeyFilterV {
        self@
    }
}

impl Clone for SearchKeyFilter {
    fn clone(&self) -> (r: Self)
        ensures
            r@ == self@,
    {
        SearchKeyFilter {
            script: clone_opt_script(&self.script),
            script_len_range: self.script_len_range,
            output_data: clone_opt_hex(&self.output_data),
            output_data_filter_mode: self.output_data_filter_mode,
            output_data_len_range: self.output_data_len_range,
            output_capacity_range: self.output_capacity_range,
            block_range: self.block_range,
        }
    }
}

/// The search criteria of an indexer cells query.
#[derive(Debug, PartialEq, Eq)]
pub struct SearchKey {
    pub script: ScriptDescriptor,
    pub script_type: ScriptType,
    pub script_search_mode: Option<SearchMode>,
    pub filter: Option<SearchKeyFilter>,
    pub with_data: Option<bool>,
    pub group_by_transaction: Option<bool>,
}

/// Mathematical value of a [`SearchKey`].
#[verifier::ext_equal]
pub ghost struct SearchKeyV {
    pub script: ScriptDescriptorV,
    pub script_type: ScriptType,
    pub script_search_mode: Option<SearchMode>,
    pub filter: Option<SearchKeyFilterV>,
    pub with_data: Option<bool>,
    pub group_by_transaction: Option<bool>,
}

impl View for SearchKey {
    type V = SearchKeyV;

    open spec fn view(&self) -> SearchKeyV {
        SearchKeyV {
            script: self.script@,
            script_type: self.script_type,
            script_search_mode: self.script_search_mode,
            filter: self.filter.deep_view(),
            with_data: self.with_data,
            group_by_transaction: self.group_by_transaction,
        }
    }
}

impl DeepView for SearchKey {
    type V = SearchKeyV;

    open spec fn deep_view(&self) -> SearchKeyV {
        self@
    }
}

impl Clone for SearchKey {
    fn clone(&self) -> (r: Self)
        ensures
            r@ == self@,
    {
        let filter = match &self.filter {
            Some(f) => Some(f.clone()),
            None => None,
        };
        SearchKey {
            script: self.script.clone(),
            script_type: self.script_type,
            script_search_mode: self.script_search_mode,
            filter,
            with_data: self.with_data,
            group_by_transaction: self.group_by_transaction,
        }
    }
}

/// A reference to a cell: the transaction that created it and the index of
/// its output.
#[derive(Debug, PartialEq, Eq)]
pub struct OutPoint {
    pub tx_hash: Hex,
    pub index: u32,
}

/// Mathematical value of an [`OutPoint`].
#[verifier::ext_equal]
pub ghost struct OutPointV {
    pub tx_hash: Seq<u8>,
    pub index: u32,
}

impl View for OutPoint {
    type V = OutPointV;

    open spec fn view(&self) -> OutPointV {
        OutPointV { tx_hash: self.tx_hash@, index: self.index }
    }
}

impl DeepView for OutPoint {
    type V = OutPointV;

    open spec fn deep_view(&self) -> OutPointV {
        self@
    }
}

impl Clone for OutPoint {
    fn clone(&self) -> (r: Self)
        ensures
            r@ == self@,
    {
        OutPoint { tx_hash: self.tx_hash.clone(), index: self.index }
    }
}

/// The output half of a cell: its capacity, lock script and optional type
/// script.
#[derive(Debug, PartialEq, Eq)]
pub struct CellOutput {
    pub capacity: u64,
    pub lock: ScriptDescriptor,
    pub type_script: Option<ScriptDescriptor>,
}

/// Mathematical value of a [`CellOutput`].
#[verifier::ext_equal]
pub ghost struct CellOutputV {
    pub capacity: u64,
    pub lock: ScriptDescriptorV,
    pub type_script: Option<ScriptDescriptorV>,
}

impl View for CellOutput {
    type V = CellOutputV;

    open spec fn view(&self) -> CellOutputV {
        CellOutputV {
            capacity: self.capacity,
            lock: self.lock@,
            type_script: self.type_script.deep_view(),
        }
    }
}

impl DeepView for CellOutput {
    type V = CellOutputV;

    open spec fn deep_view(&self) -> CellOutputV {
        self@
    }
}

impl Clone for CellOutput {
    fn clone(&self) -> (r: Self)
        ensures
            r@ == self@,
    {
        CellOutput {
            capacity: self.capacity,
            lock: self.lock.clone(),
            type_script: clone_opt_script(&self.type_script),
        }
    }
}

/// A matching cell of an indexer query result page.
#[derive(Debug, PartialEq, Eq)]
pub struct Cell {
    pub output: CellOutput,
    pub output_data: Option<Hex>,
    pub out_point: OutPoint,
    pub block_number: u64,
    pub tx_index: u32,
}

/// Mathematical value of a [`Cell`].
#[verifier::ext_equal]
pub ghost struct CellV {
    pub output: CellOutputV,
    pub output_data: Option<Seq<u8>>,
    pub out_point: OutPointV,
    pub block_number: u64,
    pub tx_index: u32,
}

impl View for Cell {
    type V = CellV;

    open spec fn view(&self) -> CellV {
        CellV {
            output: self.output@,
            output_data: self.output_data.deep_view(),
            out_point: self.out_point@,
            block_number: self.block_number,
            tx_index: self.tx_index,
        }
    }
}

impl DeepView for Cell {
    type V = CellV;

    open spec fn deep_view(&self) -> CellV {
        self@
    }
}

impl Clone for Cell {
    fn clone(&self) -> (r: Self)
        ensures
            r@ == self@,
    {
        Cell {
            output: self.output.clone(),
            output_data: clone_opt_hex(&self.output_data),
            out_point: self.out_point.clone(),
            block_number: self.block_number,
            tx_index: self.tx_index,
        }
    }
}

/// One page of an indexer query result: the matching cells in order, and
/// the opaque cursor where the next page starts.
#[derive(Debug, PartialEq, Eq)]
pub struct Pagination {
    pub objects: Vec<Cell>,
    pub last_cursor: Hex,
}

/// Mathematical value of a [`Pagination`].
#[verifier::ext_equal]
pub ghost struct PaginationV {
    pub objects: Seq<CellV>,
    pub last_cursor: Seq<u8>,
}

impl View for Pagination {
    type V = PaginationV;

    open spec fn view(&self) -> PaginationV {
        PaginationV { objects: self.objects.deep_view(), last_cursor: self.last_cursor@ }
    }
}

impl Clone for Pagination {
    fn clone(&self) -> (r: Self)
        ensures
            r@ == self@,
    {
        let mut objects: Vec<Cell> = Vec::new();
        let mut i: usize = 0;
        while i < self.objects.len()
            invariant
                i <= self.objects.len(),
                objects.deep_view() =~= self.objects.deep_view().subrange(0, i as int),
            decreases self.objects.len() - i,
        {
            push_deep(&mut objects, self.objects[i].clone());
            proof {
                assert(objects.deep_view() =~= self.objects.deep_view().subrange(0, i + 1));
            }
            i = i + 1;
        }
        proof {
            assert(objects.deep_view() =~= self.objects.deep_view());
        }
        Pagination { objects, last_cursor: self.last_cursor.clone() }
    }
}

/// The output half and data half of one cell, as handed to the
/// interpreter for a cell-level context.
#[derive(Debug, PartialEq, Eq)]
pub struct CellOutputWithData {
    pub cell_output: CellOutput,
    pub hex_data: Option<Hex>,
}

/// Mathematical value of a [`CellOutputWithData`].
#[verifier::ext_equal]
pub ghost struct CellOutputWithDataV {
    pub cell_output: CellOutputV,
    pub hex_data: Option<Seq<u8>>,
}

impl View for CellOutputWithData {
    type V = CellOutputWithDataV;

    open spec fn view(&self) -> CellOutputWithDataV {
        CellOutputWithDataV {
            cell_output: self.cell_output@,
            hex_data: self.hex_data.deep_view(),
        }
    }
}

impl DeepView for CellOutputWithData {
    type V = CellOutputWithDataV;

    open spec fn deep_view(&self) -> CellOutputWithDataV {
        self@
    }
}

impl Clone for CellOutputWithData {
    fn clone(&self) -> (r: Self)
        ensures
            r@ == self@,
    {
        CellOutputWithData {
            cell_output: self.cell_output.clone(),
            hex_data: clone_opt_hex(&self.hex_data),
        }
    }
}

/// What a successful interpreter run produced: the script's output bytes
/// and the cell dependencies it declared.
#[derive(Debug, PartialEq, Eq)]
pub struct VmResult {
    pub content: Hex,
    pub cell_deps: Vec<OutPoint>,
}

/// Mathematical value of a [`VmResult`].
#[verifier::ext_equal]
pub ghost struct VmResultV {
    pub content: Seq<u8>,
    pub cell_deps: Seq<OutPointV>,
}

impl View for VmResult {
    type V = VmResultV;

    open spec fn view(&self) -> VmResultV {
        VmResultV { content: self.content@, cell_deps: self.cell_deps.deep_view() }
    }
}

impl Clone for VmResult {
    fn clone(&self) -> (r: Self)
        ensures
            r@ == self@,
    {
        let mut cell_deps: Vec<OutPoint> = Vec::new();
        let mut i: usize = 0;
        while i < self.cell_deps.len()
            invariant
                i <= self.cell_deps.len(),
                cell_deps.deep_view() =~= self.cell_deps.deep_view().subrange(0, i as int),
            decreases self.cell_deps.len() - i,
        {
            push_deep(&mut cell_deps, self.cell_deps[i].clone());
            proof {
                assert(cell_deps.deep_view() =~= self.cell_deps.deep_view().subrange(0, i + 1));
            }
            i = i + 1;
        }
        proof {
            assert(cell_deps.deep_view() =~= self.cell_deps.deep_view());
        }
        VmResult { content: self.content.clone(), cell_deps }
    }
}

/// The body of a known transaction: its outputs and their data, in order.
#[derive(Debug, PartialEq, Eq)]
pub struct TransactionData {
    pub outputs: Vec<CellOutput>,
    pub outputs_data: Vec<Hex>,
}

/// Mathematical value of a [`TransactionData`].
#[verifier::ext_equal]
pub ghost struct TransactionDataV {
    pub outputs: Seq<CellOutputV>,
    pub outputs_data: Seq<Seq<u8>>,
}

impl View for TransactionData {
    type V = TransactionDataV;

    open spec fn view(&self) -> TransactionDataV {
        TransactionDataV {
            outputs: self.outputs.deep_view(),
            outputs_data: self.outputs_data.deep_view(),
        }
    }
}

impl DeepView for TransactionData {
    type V = TransactionDataV;

    open spec fn deep_view(&self) -> TransactionDataV {
        self@
    }
}

impl Clone for TransactionData {
    fn clone(&self) -> (r: Self)
        ensures
            r@ == self@,
    {
        let mut outputs: Vec<CellOutput> = Vec::new();
        let mut i: usize = 0;
        while i < self.outputs.len()
            invariant
                i <= self.outputs.len(),
                outputs.deep_view() =~= self.outputs.deep_view().subrange(0, i as int),
            decreases self.outputs.len() - i,
        {
            push_deep(&mut outputs, self.outputs[i].clone());
            proof {
                assert(outputs.deep_view() =~= self.outputs.deep_view().subrange(0, i + 1));
            }
            i = i + 1;
        }
        let mut outputs_data: Vec<Hex> = Vec::new();
        let mut j: usize = 0;
        while j < self.outputs_data.len()
            invariant
                j <= self.outputs_data.len(),
                outputs_data.deep_view() =~= self.outputs_data.deep_view().subrange(0, j as int),
            decreases self.outputs_data.len() - j,
        {
            push_deep(&mut outputs_data, self.outputs_data[j].clone());
            proof {
                assert(outputs_data.deep_view() =~= self.outputs_data.deep_view().subrange(0, j + 1));
            }
            j = j + 1;
        }
        proof {
            assert(outputs.deep_view() =~= self.outputs.deep_view());
            assert(outputs_data.deep_view() =~= self.outputs_data.deep_view());
        }
        TransactionData { outputs, outputs_data }
    }
}

/// A cached transaction: either its full body, or nothing, when the chain
/// reported the transaction as pruned or unknown.
#[derive(Debug, PartialEq, Eq)]
pub struct TransactionRecord {
    pub transaction: Option<TransactionData>,
}

/// Mathematical value of a [`TransactionRecord`].
#[verifier::ext_equal]
pub ghost struct TransactionRecordV {
    pub transaction: Option<TransactionDataV>,
}

impl View for TransactionRecord {
    type V = TransactionRecordV;

    open spec fn view(&self) -> TransactionRecordV {
        TransactionRecordV { transaction: self.transaction.deep_view() }
    }
}

impl Clone for TransactionRecord {
    fn clone(&self) -> (r: Self)
        ensures
            r@ == self@,
    {
        let transaction = match &self.transaction {
            Some(d) => Some(d.clone()),
            None => None,
        };
        TransactionRecord { transaction }
    }
}

} // verus!
