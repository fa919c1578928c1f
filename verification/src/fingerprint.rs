//! Canonical fingerprint of an indexer cells query.
//!
//! The fingerprint is a byte encoding of the four query fields
//! `(search_key, order, limit, after_cursor)`. It is a total function of
//! the fields' values — never of their in-memory representation — and
//! both cache inserts and cache lookups key by it, so the two can never
//! disagree. Variable-length fields are length-prefixed, and every
//! optional field carries a presence tag, so distinct queries keep
//! distinct encodings.

use vstd::prelude::*;

use crate::types::{
    HashType, Hex, Order, ScriptDescriptor, ScriptDescriptorV, ScriptType, SearchKey,
    SearchKeyFilter, SearchKeyFilterV, SearchKeyV, SearchMode,
};

verus! {

/// Little-endian bytes of a 32-bit value.
pub open spec fn enc_u32(x: u32) -> Seq<u8> {
    seq![
        (x & 0xff) as u8,
        ((x >> 8) & 0xff) as u8,
        ((x >> 16) & 0xff) as u8,
        ((x >> 24) & 0xff) as u8,
    ]
}

/// Little-endian bytes of a 64-bit value.
pub open spec fn enc_u64(x: u64) -> Seq<u8> {
    seq![
        (x & 0xff) as u8,
        ((x >> 8) & 0xff) as u8,
        ((x >> 16) & 0xff) as u8,
        ((x >> 24) & 0xff) as u8,
        ((x >> 32) & 0xff) as u8,
        ((x >> 40) & 0xff) as u8,
        ((x >> 48) & 0xff) as u8,
        ((x >> 56) & 0xff) as u8,
    ]
}

/// A length-prefixed byte string.
pub open spec fn enc_bytes(b: Seq<u8>) -> Seq<u8> {
    enc_u64(b.len() as u64) + b
}

/// Tag byte of a hash type.
pub open spec fn hash_type_tag(h: HashType) -> u8 {
    match h {
        HashType::Data => 0,
        HashType::Type => 1,
        HashType::Data1 => 2,
        HashType::Data2 => 3,
    }
}

/// Tag byte of a script type.
pub open spec fn script_type_tag(t: ScriptType) -> u8 {
    match t {
        ScriptType::Lock => 0,
        ScriptType::Type => 1,
    }
}

/// Tag byte of a search mode.
pub open spec fn search_mode_tag(m: SearchMode) -> u8 {
    match m {
        SearchMode::Prefix => 0,
        SearchMode::Exact => 1,
        SearchMode::Partial => 2,
    }
}

/// Tag byte of a page order.
pub open spec fn order_tag(o: Order) -> u8 {
    match o {
        Order::Desc => 0,
        Order::Asc => 1,
    }
}

/// A script, encoded field by field.
pub open spec fn enc_script(s: ScriptDescriptorV) -> Seq<u8> {
    enc_bytes(s.code_hash) + seq![hash_type_tag(s.hash_type)] + enc_bytes(s.args)
}

/// An optional search mode: absence tag, or presence tag and value.
pub open spec fn enc_opt_mode(m: Option<SearchMode>) -> Seq<u8> {
    match m {
        None => seq![0u8],
        Some(v) => seq![1u8, search_mode_tag(v)],
    }
}

/// An optional boolean: absence tag, or presence tag and value.
pub open spec fn enc_opt_bool(b: Option<bool>) -> Seq<u8> {
    match b {
        None => seq![0u8],
        Some(v) => seq![1u8, if v { 1u8 } else { 0u8 }],
    }
}

/// An optional inclusive-exclusive range of 64-bit values.
pub open spec fn enc_opt_range(r: Option<(u64, u64)>) -> Seq<u8> {
    match r {
        None => seq![0u8],
        Some((lo, hi)) => seq![1u8] + enc_u64(lo) + enc_u64(hi),
    }
}

/// An optional byte string.
pub open spec fn enc_opt_bytes(b: Option<Seq<u8>>) -> Seq<u8> {
    match b {
        None => seq![0u8],
        Some(v) => seq![1u8] + enc_bytes(v),
    }
}

/// An optional script.
pub open spec fn enc_opt_script(s: Option<ScriptDescriptorV>) -> Seq<u8> {
    match s {
        None => seq![0u8],
        Some(v) => seq![1u8] + enc_script(v),
    }
}

/// A search-key filter, encoded field by field.
pub open spec fn enc_filter(f: SearchKeyFilterV) -> Seq<u8> {
    enc_opt_script(f.script) + enc_opt_range(f.script_len_range) + enc_opt_bytes(f.output_data)
        + enc_opt_mode(f.output_data_filter_mode) + enc_opt_range(f.output_data_len_range)
        + enc_opt_range(f.output_capacity_range) + enc_opt_range(f.block_range)
}

/// An optional search-key filter.
pub open spec fn enc_opt_filter(f: Option<SearchKeyFilterV>) -> Seq<u8> {
    match f {
        None => seq![0u8],
        Some(v) => seq![1u8] + enc_filter(v),
    }
}

/// The canonical fingerprint of a cells query: a deterministic, total
/// function of the four query fields.
pub open spec fn spec_fingerprint(
    key: SearchKeyV,
    order: Order,
    limit: u32,
    after_cursor: Option<Seq<u8>>,
) -> Seq<u8> {
    enc_script(key.script) + seq![script_type_tag(key.script_type)] + enc_opt_mode(
        key.script_search_mode,
    ) + enc_opt_filter(key.filter) + enc_opt_bool(key.with_data) + enc_opt_bool(
        key.group_by_transaction,
    ) + seq![order_tag(order)] + enc_u32(limit) + enc_opt_bytes(after_cursor)
}

fn push_u8(out: &mut Vec<u8>, b: u8)
    ensures
        final(out)@ == old(out)@ + seq![b],
{
    let ghost prefix = out@;
    out.push(b);
    proof {
        assert(out@ =~= prefix + seq![b]);
    }
}

fn push_u32(out: &mut Vec<u8>, x: u32)
    ensures
        final(out)@ == old(out)@ + enc_u32(x),
{
    let ghost prefix = out@;
    out.push((x & 0xff) as u8);
    out.push(((x >> 8) & 0xff) as u8);
    out.push(((x >> 16) & 0xff) as u8);
    out.push(((x >> 24) & 0xff) as u8);
    proof {
        assert(out@ =~= prefix + enc_u32(x));
    }
}

fn push_u64(out: &mut Vec<u8>, x: u64)
    ensures
        final(out)@ == old(out)@ + enc_u64(x),
{
    let ghost prefix = out@;
    out.push((x & 0xff) as u8);
    out.push(((x >> 8) & 0xff) as u8);
    out.push(((x >> 16) & 0xff) as u8);
    out.push(((x >> 24) & 0xff) as u8);
    out.push(((x >> 32) & 0xff) as u8);
    out.push(((x >> 40) & 0xff) as u8);
    out.push(((x >> 48) & 0xff) as u8);
    out.push(((x >> 56) & 0xff) as u8);
    proof {
        assert(out@ =~= prefix + enc_u64(x));
    }
}

fn push_bytes(out: &mut Vec<u8>, b: &Hex)
    ensures
        final(out)@ == old(out)@ + enc_bytes(b@),
{
    let ghost prefix = out@;
    push_u64(out, b.hex.len() as u64);
    let mut i: usize = 0;
    while i < b.hex.len()
        invariant
            i <= b.hex.len(),
            out@ == prefix + enc_u64(b.hex@.len() as u64) + b.hex@.subrange(0, i as int),
        decreases b.hex.len() - i,
    {
        out.push(b.hex[i]);
        proof {
            assert(out@ =~= prefix + enc_u64(b.hex@.len() as u64) + b.hex@.subrange(
                0,
                i as int + 1,
            ));
        }
        i = i + 1;
    }
    proof {
        assert(b.hex@.subrange(0, b.hex@.len() as int) =~= b.hex@);
        assert(out@ =~= prefix + enc_bytes(b@));
    }
}

fn hash_type_tag_exec(h: HashType) -> (r: u8)
    ensures
        r == hash_type_tag(h),
{
    match h {
        HashType::Data => 0,
        HashType::Type => 1,
        HashType::Data1 => 2,
        HashType::Data2 => 3,
    }
}

fn search_mode_tag_exec(m: SearchMode) -> (r: u8)
    ensures
        r == search_mode_tag(m),
{
    match m {
        SearchMode::Prefix => 0,
        SearchMode::Exact => 1,
        SearchMode::Partial => 2,
    }
}

fn push_script(out: &mut Vec<u8>, s: &ScriptDescriptor)
    ensures
        final(out)@ == old(out)@ + enc_script(s@),
{
    let ghost prefix = out@;
    push_bytes(out, &s.code_hash);
    push_u8(out, hash_type_tag_exec(s.hash_type));
    push_bytes(out, &s.args);
    proof {
        assert(out@ =~= prefix + enc_script(s@));
    }
}

fn push_opt_mode(out: &mut Vec<u8>, m: &Option<SearchMode>)
    ensures
        final(out)@ == old(out)@ + enc_opt_mode(*m),
{
    let ghost prefix = out@;
    match m {
        None => push_u8(out, 0),
        Some(v) => {
            push_u8(out, 1);
            push_u8(out, search_mode_tag_exec(*v));
        },
    }
    proof {
        assert(out@ =~= prefix + enc_opt_mode(*m));
    }
}

fn push_opt_bool(out: &mut Vec<u8>, b: &Option<bool>)
    ensures
        final(out)@ == old(out)@ + enc_opt_bool(*b),
{
    let ghost prefix = out@;
    match b {
        None => push_u8(out, 0),
        Some(v) => {
            push_u8(out, 1);
            push_u8(out, if *v { 1 } else { 0 });
        },
    }
    proof {
        assert(out@ =~= prefix + enc_opt_bool(*b));
    }
}

fn push_opt_range(out: &mut Vec<u8>, r: &Option<(u64, u64)>)
    ensures
        final(out)@ == old(out)@ + enc_opt_range(*r),
{
    let ghost prefix = out@;
    match r {
        None => push_u8(out, 0),
        Some((lo, hi)) => {
            push_u8(out, 1);
            push_u64(out, *lo);
            push_u64(out, *hi);
        },
    }
    proof {
        assert(out@ =~= prefix + enc_opt_range(*r));
    }
}

fn push_opt_bytes(out: &mut Vec<u8>, b: &Option<Hex>)
    ensures
        final(out)@ == old(out)@ + enc_opt_bytes(b.deep_view()),
{
    let ghost prefix = out@;
    match b {
        None => push_u8(out, 0),
        Some(v) => {
            push_u8(out, 1);
            push_bytes(out, v);
        },
    }
    proof {
        assert(out@ =~= prefix + enc_opt_bytes(b.deep_view()));
    }
}

fn push_opt_script(out: &mut Vec<u8>, s: &Option<ScriptDescriptor>)
    ensures
        final(out)@ == old(out)@ + enc_opt_script(s.deep_view()),
{
    let ghost prefix = out@;
    match s {
        None => push_u8(out, 0),
        Some(v) => {
            push_u8(out, 1);
            push_script(out, v);
        },
    }
    proof {
        assert(out@ =~= prefix + enc_opt_script(s.deep_view()));
    }
}

fn push_filter(out: &mut Vec<u8>, f: &SearchKeyFilter)
    ensures
        final(out)@ == old(out)@ + enc_filter(f@),
{
    let ghost prefix = out@;
    let ghost e1 = enc_opt_script(f@.script);
    let ghost e2 = enc_opt_range(f@.script_len_range);
    let ghost e3 = enc_opt_bytes(f@.output_data);
    let ghost e4 = enc_opt_mode(f@.output_data_filter_mode);
    let ghost e5 = enc_opt_range(f@.output_data_len_range);
    let ghost e6 = enc_opt_range(f@.output_capacity_range);
    let ghost e7 = enc_opt_range(f@.block_range);
    push_opt_script(out, &f.script);
    push_opt_range(out, &f.script_len_range);
    proof {
        vstd::seq_lib::lemma_concat_associative(prefix, e1, e2);
    }
    push_opt_bytes(out, &f.output_data);
    proof {
        vstd::seq_lib::lemma_concat_associative(prefix, e1 + e2, e3);
    }
    push_opt_mode(out, &f.output_data_filter_mode);
    proof {
        vstd::seq_lib::lemma_concat_associative(prefix, e1 + e2 + e3, e4);
    }
    push_opt_range(out, &f.output_data_len_range);
    proof {
        vstd::seq_lib::lemma_concat_associative(prefix, e1 + e2 + e3 + e4, e5);
    }
    push_opt_range(out, &f.output_capacity_range);
    proof {
        vstd::seq_lib::lemma_concat_associative(prefix, e1 + e2 + e3 + e4 + e5, e6);
    }
    push_opt_range(out, &f.block_range);
    proof {
        vstd::seq_lib::lemma_concat_associative(prefix, e1 + e2 + e3 + e4 + e5 + e6, e7);
        assert(out@ == prefix + enc_filter(f@));
    }
}

fn push_opt_filter(out: &mut Vec<u8>, f: &Option<SearchKeyFilter>)
    ensures
        final(out)@ == old(out)@ + enc_opt_filter(f.deep_view()),
{
    let ghost prefix = out@;
    match f {
        None => push_u8(out, 0),
        Some(v) => {
            push_u8(out, 1);
            push_filter(out, v);
        },
    }
    proof {
        assert(out@ =~= prefix + enc_opt_filter(f.deep_view()));
    }
}

/// Computes the canonical fingerprint of a cells query.
///
/// The result is exactly `spec_fingerprint` of the query's values, so a
/// repeated call on equal values yields an equal key, and inserts and
/// lookups that both use this function can never disagree.
pub fn fingerprint(
    search_key: &SearchKey,
    order: Order,
    limit: u32,
    after_cursor: &Option<Hex>,
) -> (r: Hex)
    ensures
        r@ == spec_fingerprint(search_key@, order, limit, after_cursor.deep_view()),
{
    let mut out: Vec<u8> = Vec::new();
    let ghost e1 = enc_script(search_key@.script);
    let ghost e2 = seq![script_type_tag(search_key@.script_type)];
    let ghost e3 = enc_opt_mode(search_key@.script_search_mode);
    let ghost e4 = enc_opt_filter(search_key@.filter);
    let ghost e5 = enc_opt_bool(search_key@.with_data);
    let ghost e6 = enc_opt_bool(search_key@.group_by_transaction);
    let ghost e7 = seq![order_tag(order)];
    let ghost e8 = enc_u32(limit);
    let ghost e9 = enc_opt_bytes(after_cursor.deep_view());
    push_script(&mut out, &search_key.script);
    proof {
        assert(out@ =~= e1);
    }
    push_u8(
        &mut out,
        match search_key.script_type {
            ScriptType::Lock => 0,
            ScriptType::Type => 1,
        },
    );
    proof {
        assert(e2 =~= seq![script_type_tag(search_key@.script_type)]);
    }
    push_opt_mode(&mut out, &search_key.script_search_mode);
    proof {
        vstd::seq_lib::lemma_concat_associative(e1, e2, e3);
        assert(out@ == e1 + e2 + e3);
    }
    push_opt_filter(&mut out, &search_key.filter);
    push_opt_bool(&mut out, &search_key.with_data);
    push_opt_bool(&mut out, &search_key.group_by_transaction);
    push_u8(
        &mut out,
        match order {
            Order::Desc => 0,
            Order::Asc => 1,
        },
    );
    push_u32(&mut out, limit);
    push_opt_bytes(&mut out, after_cursor);
    proof {
        assert(out@ == spec_fingerprint(search_key@, order, limit, after_cursor.deep_view()));
    }
    Hex { hex: out }
}


/// The 32-bit value of four little-endian bytes.
pub open spec fn dec_u32(s: Seq<u8>) -> u32
    recommends
        s.len() == 4,
{
    (s[0] as u32) | ((s[1] as u32) << 8) | ((s[2] as u32) << 16) | ((s[3] as u32) << 24)
}

/// The 64-bit value of eight little-endian bytes.
pub open spec fn dec_u64(s: Seq<u8>) -> u64
    recommends
        s.len() == 8,
{
    (s[0] as u64) | ((s[1] as u64) << 8) | ((s[2] as u64) << 16) | ((s[3] as u64) << 24) | (
    (s[4] as u64) << 32) | ((s[5] as u64) << 40) | ((s[6] as u64) << 48) | ((s[7] as u64) << 56)
}

proof fn lemma_dec_enc_u32(x: u32)
    ensures
        dec_u32(enc_u32(x)) == x,
{
    assert((((x & 0xff) as u8) as u32) | ((((x >> 8) & 0xff) as u8) as u32) << 8 | ((((x >> 16)
        & 0xff) as u8) as u32) << 16 | ((((x >> 24) & 0xff) as u8) as u32) << 24 == x)
        by (bit_vector);
}

proof fn lemma_dec_enc_u64(x: u64)
    ensures
        dec_u64(enc_u64(x)) == x,
{
    assert((((x & 0xff) as u8) as u64) | ((((x >> 8) & 0xff) as u8) as u64) << 8 | ((((x >> 16)
        & 0xff) as u8) as u64) << 16 | ((((x >> 24) & 0xff) as u8) as u64) << 24 | ((((x >> 32)
        & 0xff) as u8) as u64) << 32 | ((((x >> 40) & 0xff) as u8) as u64) << 40 | ((((x >> 48)
        & 0xff) as u8) as u64) << 48 | ((((x >> 56) & 0xff) as u8) as u64) << 56 == x)
        by (bit_vector);
}


/// A byte string short enough for its length prefix.
pub open spec fn bounded_bytes(b: Seq<u8>) -> bool {
    b.len() <= u64::MAX
}

/// Both byte strings of a script are short enough for their prefixes.
pub open spec fn bounded_script(v: ScriptDescriptorV) -> bool {
    bounded_bytes(v.code_hash) && bounded_bytes(v.args)
}

/// Every byte string of a filter is short enough for its prefix.
pub open spec fn bounded_filter(f: SearchKeyFilterV) -> bool {
    (match f.script {
        Some(v) => bounded_script(v),
        None => true,
    }) && (match f.output_data {
        Some(b) => bounded_bytes(b),
        None => true,
    })
}

/// Every byte string of a query is short enough for its prefix. Holds of
/// every query built from in-memory values.
pub open spec fn bounded_query(key: SearchKeyV, after_cursor: Option<Seq<u8>>) -> bool {
    bounded_script(key.script) && (match key.filter {
        Some(f) => bounded_filter(f),
        None => true,
    }) && (match after_cursor {
        Some(b) => bounded_bytes(b),
        None => true,
    })
}

pub open spec fn dec_byte(s: Seq<u8>) -> Option<(u8, Seq<u8>)> {
    if s.len() < 1 {
        None
    } else {
        Some((s[0], s.subrange(1, s.len() as int)))
    }
}

pub open spec fn dec_u32_field(s: Seq<u8>) -> Option<(u32, Seq<u8>)> {
    if s.len() < 4 {
        None
    } else {
        Some((dec_u32(s.subrange(0, 4)), s.subrange(4, s.len() as int)))
    }
}

pub open spec fn dec_u64_field(s: Seq<u8>) -> Option<(u64, Seq<u8>)> {
    if s.len() < 8 {
        None
    } else {
        Some((dec_u64(s.subrange(0, 8)), s.subrange(8, s.len() as int)))
    }
}

pub open spec fn dec_lp_bytes(s: Seq<u8>) -> Option<(Seq<u8>, Seq<u8>)> {
    match dec_u64_field(s) {
        None => None,
        Some((n, r)) => if r.len() < n {
            None
        } else {
            Some((r.subrange(0, n as int), r.subrange(n as int, r.len() as int)))
        },
    }
}

pub open spec fn dec_hash_type(s: Seq<u8>) -> Option<(HashType, Seq<u8>)> {
    match dec_byte(s) {
        None => None,
        Some((t, r)) => if t == 0 {
            Some((HashType::Data, r))
        } else if t == 1 {
            Some((HashType::Type, r))
        } else if t == 2 {
            Some((HashType::Data1, r))
        } else if t == 3 {
            Some((HashType::Data2, r))
        } else {
            None
        },
    }
}

pub open spec fn dec_script_type(s: Seq<u8>) -> Option<(ScriptType, Seq<u8>)> {
    match dec_byte(s) {
        None => None,
        Some((t, r)) => if t == 0 {
            Some((ScriptType::Lock, r))
        } else if t == 1 {
            Some((ScriptType::Type, r))
        } else {
            None
        },
    }
}

pub open spec fn dec_search_mode(s: Seq<u8>) -> Option<(SearchMode, Seq<u8>)> {
    match dec_byte(s) {
        None => None,
        Some((t, r)) => if t == 0 {
            Some((SearchMode::Prefix, r))
        } else if t == 1 {
            Some((SearchMode::Exact, r))
        } else if t == 2 {
            Some((SearchMode::Partial, r))
        } else {
            None
        },
    }
}

pub open spec fn dec_order(s: Seq<u8>) -> Option<(Order, Seq<u8>)> {
    match dec_byte(s) {
        None => None,
        Some((t, r)) => if t == 0 {
            Some((Order::Desc, r))
        } else if t == 1 {
            Some((Order::Asc, r))
        } else {
            None
        },
    }
}

pub open spec fn dec_bool_byte(s: Seq<u8>) -> Option<(bool, Seq<u8>)> {
    match dec_byte(s) {
        None => None,
        Some((t, r)) => if t == 0 {
            Some((false, r))
        } else if t == 1 {
            Some((true, r))
        } else {
            None
        },
    }
}

pub open spec fn dec_script(s: Seq<u8>) -> Option<(ScriptDescriptorV, Seq<u8>)> {
    match dec_lp_bytes(s) {
        None => None,
        Some((code_hash, r1)) => match dec_hash_type(r1) {
            None => None,
            Some((hash_type, r2)) => match dec_lp_bytes(r2) {
                None => None,
                Some((args, r3)) => Some((ScriptDescriptorV { code_hash, hash_type, args }, r3)),
            },
        },
    }
}

pub open spec fn dec_opt_mode(s: Seq<u8>) -> Option<(Option<SearchMode>, Seq<u8>)> {
    match dec_byte(s) {
        None => None,
        Some((t, r)) => if t == 0 {
            Some((None, r))
        } else if t == 1 {
            match dec_search_mode(r) {
                None => None,
                Some((m, r2)) => Some((Some(m), r2)),
            }
        } else {
            None
        },
    }
}

pub open spec fn dec_opt_bool(s: Seq<u8>) -> Option<(Option<bool>, Seq<u8>)> {
    match dec_byte(s) {
        None => None,
        Some((t, r)) => if t == 0 {
            Some((None, r))
        } else if t == 1 {
            match dec_bool_byte(r) {
                None => None,
                Some((b, r2)) => Some((Some(b), r2)),
            }
        } else {
            None
        },
    }
}

pub open spec fn dec_opt_range(s: Seq<u8>) -> Option<(Option<(u64, u64)>, Seq<u8>)> {
    match dec_byte(s) {
        None => None,
        Some((t, r)) => if t == 0 {
            Some((None, r))
        } else if t == 1 {
            match dec_u64_field(r) {
                None => None,
                Some((lo, r2)) => match dec_u64_field(r2) {
                    None => None,
                    Some((hi, r3)) => Some((Some((lo, hi)), r3)),
                },
            }
        } else {
            None
        },
    }
}

pub open spec fn dec_opt_bytes(s: Seq<u8>) -> Option<(Option<Seq<u8>>, Seq<u8>)> {
    match dec_byte(s) {
        None => None,
        Some((t, r)) => if t == 0 {
            Some((None, r))
        } else if t == 1 {
            match dec_lp_bytes(r) {
                None => None,
                Some((b, r2)) => Some((Some(b), r2)),
            }
        } else {
            None
        },
    }
}

pub open spec fn dec_opt_script(s: Seq<u8>) -> Option<(Option<ScriptDescriptorV>, Seq<u8>)> {
    match dec_byte(s) {
        None => None,
        Some((t, r)) => if t == 0 {
            Some((None, r))
        } else if t == 1 {
            match dec_script(r) {
                None => None,
                Some((v, r2)) => Some((Some(v), r2)),
            }
        } else {
            None
        },
    }
}

pub open spec fn dec_filter(s: Seq<u8>) -> Option<(SearchKeyFilterV, Seq<u8>)> {
    match dec_opt_script(s) {
        None => None,
        Some((script, r1)) => match dec_opt_range(r1) {
            None => None,
            Some((script_len_range, r2)) => match dec_opt_bytes(r2) {
                None => None,
                Some((output_data, r3)) => match dec_opt_mode(r3) {
                    None => None,
                    Some((output_data_filter_mode, r4)) => match dec_opt_range(r4) {
                        None => None,
                        Some((output_data_len_range, r5)) => match dec_opt_range(r5) {
                            None => None,
                            Some((output_capacity_range, r6)) => match dec_opt_range(r6) {
                                None => None,
                                Some((block_range, r7)) => Some(
                                    (
                                        SearchKeyFilterV {
                                            script,
                                            script_len_range,
                                            output_data,
                                            output_data_filter_mode,
                                            output_data_len_range,
                                            output_capacity_range,
                                            block_range,
                                        },
                                        r7,
                                    ),
                                ),
                            },
                        },
                    },
                },
            },
        },
    }
}

pub open spec fn dec_opt_filter(s: Seq<u8>) -> Option<(Option<SearchKeyFilterV>, Seq<u8>)> {
    match dec_byte(s) {
        None => None,
        Some((t, r)) => if t == 0 {
            Some((None, r))
        } else if t == 1 {
            match dec_filter(r) {
                None => None,
                Some((f, r2)) => Some((Some(f), r2)),
            }
        } else {
            None
        },
    }
}

/// The decoder of a fingerprint: the four query fields back, when the
/// bytes are exactly one canonical encoding.
pub open spec fn dec_fingerprint(s: Seq<u8>) -> Option<
    (SearchKeyV, Order, u32, Option<Seq<u8>>),
> {
    match dec_script(s) {
        None => None,
        Some((script, r1)) => match dec_script_type(r1) {
            None => None,
            Some((script_type, r2)) => match dec_opt_mode(r2) {
                None => None,
                Some((script_search_mode, r3)) => match dec_opt_filter(r3) {
                    None => None,
                    Some((filter, r4)) => match dec_opt_bool(r4) {
                        None => None,
                        Some((with_data, r5)) => match dec_opt_bool(r5) {
                            None => None,
                            Some((group_by_transaction, r6)) => match dec_order(r6) {
                                None => None,
                                Some((order, r7)) => match dec_u32_field(r7) {
                                    None => None,
                                    Some((limit, r8)) => match dec_opt_bytes(r8) {
                                        None => None,
                                        Some((after_cursor, r9)) => if r9.len() == 0 {
                                            Some(
                                                (
                                                    SearchKeyV {
                                                        script,
                                                        script_type,
                                                        script_search_mode,
                                                        filter,
                                                        with_data,
                                                        group_by_transaction,
                                                    },
                                                    order,
                                                    limit,
                                                    after_cursor,
                                                ),
                                            )
                                        } else {
                                            None
                                        },
                                    },
                                },
                            },
                        },
                    },
                },
            },
        },
    }
}

proof fn lemma_dec_byte(t: u8, rest: Seq<u8>)
    ensures
        dec_byte(seq![t] + rest) == Some((t, rest)),
{
    let s = seq![t] + rest;
    assert(s[0] == t);
    assert(s.subrange(1, s.len() as int) =~= rest);
}

proof fn lemma_dec_u32_field(x: u32, rest: Seq<u8>)
    ensures
        dec_u32_field(enc_u32(x) + rest) == Some((x, rest)),
{
    let s = enc_u32(x) + rest;
    assert(s.subrange(0, 4) =~= enc_u32(x));
    lemma_dec_enc_u32(x);
    assert(s.subrange(4, s.len() as int) =~= rest);
}

proof fn lemma_dec_u64_field(x: u64, rest: Seq<u8>)
    ensures
        dec_u64_field(enc_u64(x) + rest) == Some((x, rest)),
{
    let s = enc_u64(x) + rest;
    assert(s.subrange(0, 8) =~= enc_u64(x));
    lemma_dec_enc_u64(x);
    assert(s.subrange(8, s.len() as int) =~= rest);
}

proof fn lemma_dec_lp_bytes(b: Seq<u8>, rest: Seq<u8>)
    requires
        bounded_bytes(b),
    ensures
        dec_lp_bytes(enc_bytes(b) + rest) == Some((b, rest)),
{
    let n = b.len() as u64;
    vstd::seq_lib::lemma_concat_associative(enc_u64(n), b, rest);
    lemma_dec_u64_field(n, b + rest);
    assert((b + rest).subrange(0, n as int) =~= b);
    assert((b + rest).subrange(n as int, (b + rest).len() as int) =~= rest);
}

proof fn lemma_dec_hash_type(h: HashType, rest: Seq<u8>)
    ensures
        dec_hash_type(seq![hash_type_tag(h)] + rest) == Some((h, rest)),
{
    lemma_dec_byte(hash_type_tag(h), rest);
}

proof fn lemma_dec_script_type(t: ScriptType, rest: Seq<u8>)
    ensures
        dec_script_type(seq![script_type_tag(t)] + rest) == Some((t, rest)),
{
    lemma_dec_byte(script_type_tag(t), rest);
}

proof fn lemma_dec_order(o: Order, rest: Seq<u8>)
    ensures
        dec_order(seq![order_tag(o)] + rest) == Some((o, rest)),
{
    lemma_dec_byte(order_tag(o), rest);
}

proof fn lemma_dec_script(v: ScriptDescriptorV, rest: Seq<u8>)
    requires
        bounded_script(v),
    ensures
        dec_script(enc_script(v) + rest) == Some((v, rest)),
{
    let e1 = enc_bytes(v.code_hash);
    let e2 = seq![hash_type_tag(v.hash_type)];
    let e3 = enc_bytes(v.args);
    let s3 = e3 + rest;
    let s2 = e2 + s3;
    vstd::seq_lib::lemma_concat_associative(e1 + e2, e3, rest);
    vstd::seq_lib::lemma_concat_associative(e1, e2, s3);
    lemma_dec_lp_bytes(v.code_hash, s2);
    lemma_dec_hash_type(v.hash_type, s3);
    lemma_dec_lp_bytes(v.args, rest);
    assert(ScriptDescriptorV {
        code_hash: v.code_hash,
        hash_type: v.hash_type,
        args: v.args,
    } =~= v);
}

proof fn lemma_dec_opt_mode(m: Option<SearchMode>, rest: Seq<u8>)
    ensures
        dec_opt_mode(enc_opt_mode(m) + rest) == Some((m, rest)),
{
    match m {
        None => {
            lemma_dec_byte(0, rest);
        },
        Some(v) => {
            assert(enc_opt_mode(m) =~= seq![1u8] + seq![search_mode_tag(v)]);
            vstd::seq_lib::lemma_concat_associative(
                seq![1u8],
                seq![search_mode_tag(v)],
                rest,
            );
            lemma_dec_byte(1, seq![search_mode_tag(v)] + rest);
            lemma_dec_byte(search_mode_tag(v), rest);
        },
    }
}

proof fn lemma_dec_opt_bool(b: Option<bool>, rest: Seq<u8>)
    ensures
        dec_opt_bool(enc_opt_bool(b) + rest) == Some((b, rest)),
{
    match b {
        None => {
            lemma_dec_byte(0, rest);
        },
        Some(v) => {
            let t: u8 = if v { 1 } else { 0 };
            assert(enc_opt_bool(b) =~= seq![1u8] + seq![t]);
            vstd::seq_lib::lemma_concat_associative(seq![1u8], seq![t], rest);
            lemma_dec_byte(1, seq![t] + rest);
            lemma_dec_byte(t, rest);
        },
    }
}

proof fn lemma_dec_opt_range(r: Option<(u64, u64)>, rest: Seq<u8>)
    ensures
        dec_opt_range(enc_opt_range(r) + rest) == Some((r, rest)),
{
    match r {
        None => {
            lemma_dec_byte(0, rest);
        },
        Some((lo, hi)) => {
            let e1 = seq![1u8];
            let e2 = enc_u64(lo);
            let e3 = enc_u64(hi);
            let s3 = e3 + rest;
            let s2 = e2 + s3;
            vstd::seq_lib::lemma_concat_associative(e1 + e2, e3, rest);
            vstd::seq_lib::lemma_concat_associative(e1, e2, s3);
            lemma_dec_byte(1, s2);
            lemma_dec_u64_field(lo, s3);
            lemma_dec_u64_field(hi, rest);
        },
    }
}

proof fn lemma_dec_opt_bytes(b: Option<Seq<u8>>, rest: Seq<u8>)
    requires
        match b {
            Some(v) => bounded_bytes(v),
            None => true,
        },
    ensures
        dec_opt_bytes(enc_opt_bytes(b) + rest) == Some((b, rest)),
{
    match b {
        None => {
            lemma_dec_byte(0, rest);
        },
        Some(v) => {
            vstd::seq_lib::lemma_concat_associative(seq![1u8], enc_bytes(v), rest);
            lemma_dec_byte(1, enc_bytes(v) + rest);
            lemma_dec_lp_bytes(v, rest);
        },
    }
}

proof fn lemma_dec_opt_script(sd: Option<ScriptDescriptorV>, rest: Seq<u8>)
    requires
        match sd {
            Some(v) => bounded_script(v),
            None => true,
        },
    ensures
        dec_opt_script(enc_opt_script(sd) + rest) == Some((sd, rest)),
{
    match sd {
        None => {
            lemma_dec_byte(0, rest);
        },
        Some(v) => {
            vstd::seq_lib::lemma_concat_associative(seq![1u8], enc_script(v), rest);
            lemma_dec_byte(1, enc_script(v) + rest);
            lemma_dec_script(v, rest);
        },
    }
}

proof fn lemma_dec_filter(f: SearchKeyFilterV, rest: Seq<u8>)
    requires
        bounded_filter(f),
    ensures
        dec_filter(enc_filter(f) + rest) == Some((f, rest)),
{
    let e1 = enc_opt_script(f.script);
    let e2 = enc_opt_range(f.script_len_range);
    let e3 = enc_opt_bytes(f.output_data);
    let e4 = enc_opt_mode(f.output_data_filter_mode);
    let e5 = enc_opt_range(f.output_data_len_range);
    let e6 = enc_opt_range(f.output_capacity_range);
    let e7 = enc_opt_range(f.block_range);
    let s7 = e7 + rest;
    let s6 = e6 + s7;
    let s5 = e5 + s6;
    let s4 = e4 + s5;
    let s3 = e3 + s4;
    let s2 = e2 + s3;
    let a2 = e1 + e2;
    let a3 = a2 + e3;
    let a4 = a3 + e4;
    let a5 = a4 + e5;
    let a6 = a5 + e6;
    vstd::seq_lib::lemma_concat_associative(a6, e7, rest);
    vstd::seq_lib::lemma_concat_associative(a5, e6, s7);
    vstd::seq_lib::lemma_concat_associative(a4, e5, s6);
    vstd::seq_lib::lemma_concat_associative(a3, e4, s5);
    vstd::seq_lib::lemma_concat_associative(a2, e3, s4);
    vstd::seq_lib::lemma_concat_associative(e1, e2, s3);
    lemma_dec_opt_script(f.script, s2);
    lemma_dec_opt_range(f.script_len_range, s3);
    lemma_dec_opt_bytes(f.output_data, s4);
    lemma_dec_opt_mode(f.output_data_filter_mode, s5);
    lemma_dec_opt_range(f.output_data_len_range, s6);
    lemma_dec_opt_range(f.output_capacity_range, s7);
    lemma_dec_opt_range(f.block_range, rest);
    assert(SearchKeyFilterV {
        script: f.script,
        script_len_range: f.script_len_range,
        output_data: f.output_data,
        output_data_filter_mode: f.output_data_filter_mode,
        output_data_len_range: f.output_data_len_range,
        output_capacity_range: f.output_capacity_range,
        block_range: f.block_range,
    } =~= f);
}

proof fn lemma_dec_opt_filter(f: Option<SearchKeyFilterV>, rest: Seq<u8>)
    requires
        match f {
            Some(v) => bounded_filter(v),
            None => true,
        },
    ensures
        dec_opt_filter(enc_opt_filter(f) + rest) == Some((f, rest)),
{
    match f {
        None => {
            lemma_dec_byte(0, rest);
        },
        Some(v) => {
            vstd::seq_lib::lemma_concat_associative(seq![1u8], enc_filter(v), rest);
            lemma_dec_byte(1, enc_filter(v) + rest);
            lemma_dec_filter(v, rest);
        },
    }
}

/// Decoding a canonical fingerprint yields exactly the four query fields
/// it was computed from.
pub proof fn lemma_fingerprint_roundtrip(
    key: SearchKeyV,
    order: Order,
    limit: u32,
    after_cursor: Option<Seq<u8>>,
)
    requires
        bounded_query(key, after_cursor),
    ensures
        dec_fingerprint(spec_fingerprint(key, order, limit, after_cursor)) == Some(
            (key, order, limit, after_cursor),
        ),
{
    let e1 = enc_script(key.script);
    let e2 = seq![script_type_tag(key.script_type)];
    let e3 = enc_opt_mode(key.script_search_mode);
    let e4 = enc_opt_filter(key.filter);
    let e5 = enc_opt_bool(key.with_data);
    let e6 = enc_opt_bool(key.group_by_transaction);
    let e7 = seq![order_tag(order)];
    let e8 = enc_u32(limit);
    let e9 = enc_opt_bytes(after_cursor);
    let empty = Seq::<u8>::empty();
    let s9 = e9 + empty;
    let s8 = e8 + s9;
    let s7 = e7 + s8;
    let s6 = e6 + s7;
    let s5 = e5 + s6;
    let s4 = e4 + s5;
    let s3 = e3 + s4;
    let s2 = e2 + s3;
    let a2 = e1 + e2;
    let a3 = a2 + e3;
    let a4 = a3 + e4;
    let a5 = a4 + e5;
    let a6 = a5 + e6;
    let a7 = a6 + e7;
    let a8 = a7 + e8;
    let a9 = a8 + e9;
    assert(a9 + empty =~= a9);
    vstd::seq_lib::lemma_concat_associative(a8, e9, empty);
    vstd::seq_lib::lemma_concat_associative(a7, e8, s9);
    vstd::seq_lib::lemma_concat_associative(a6, e7, s8);
    vstd::seq_lib::lemma_concat_associative(a5, e6, s7);
    vstd::seq_lib::lemma_concat_associative(a4, e5, s6);
    vstd::seq_lib::lemma_concat_associative(a3, e4, s5);
    vstd::seq_lib::lemma_concat_associative(a2, e3, s4);
    vstd::seq_lib::lemma_concat_associative(e1, e2, s3);
    lemma_dec_script(key.script, s2);
    lemma_dec_script_type(key.script_type, s3);
    lemma_dec_opt_mode(key.script_search_mode, s4);
    lemma_dec_opt_filter(key.filter, s5);
    lemma_dec_opt_bool(key.with_data, s6);
    lemma_dec_opt_bool(key.group_by_transaction, s7);
    lemma_dec_order(order, s8);
    lemma_dec_u32_field(limit, s9);
    lemma_dec_opt_bytes(after_cursor, empty);
    assert(SearchKeyV {
        script: key.script,
        script_type: key.script_type,
        script_search_mode: key.script_search_mode,
        filter: key.filter,
        with_data: key.with_data,
        group_by_transaction: key.group_by_transaction,
    } =~= key);
}

/// The canonical fingerprint is injective: two queries with the same
/// fingerprint have the same four field values. Together with
/// determinism — the fingerprint is a function of the values — keys
/// compare equal exactly when their fingerprints do.
pub proof fn lemma_fingerprint_injective(
    k1: SearchKeyV,
    o1: Order,
    l1: u32,
    a1: Option<Seq<u8>>,
    k2: SearchKeyV,
    o2: Order,
    l2: u32,
    a2: Option<Seq<u8>>,
)
    requires
        bounded_query(k1, a1),
        bounded_query(k2, a2),
        spec_fingerprint(k1, o1, l1, a1) == spec_fingerprint(k2, o2, l2, a2),
    ensures
        k1 == k2,
        o1 == o2,
        l1 == l2,
        a1 == a2,
{
    lemma_fingerprint_roundtrip(k1, o1, l1, a1);
    lemma_fingerprint_roundtrip(k2, o2, l2, a2);
}

} // verus!
