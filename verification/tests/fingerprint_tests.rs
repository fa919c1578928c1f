//! Tests of the canonical query fingerprint.

use ssri_executor::{
    fingerprint, HashType, Hex, Order, ScriptDescriptor, ScriptType, SearchKey, SearchKeyFilter,
    SearchMode,
};

fn sample_key(args: Vec<u8>) -> SearchKey {
    SearchKey {
        script: ScriptDescriptor {
            code_hash: Hex { hex: vec![0xabu8; 32] },
            hash_type: HashType::Type,
            args: Hex { hex: args },
        },
        script_type: ScriptType::Lock,
        script_search_mode: Some(SearchMode::Prefix),
        filter: Some(SearchKeyFilter {
            script: None,
            script_len_range: Some((0, 100)),
            output_data: None,
            output_data_filter_mode: None,
            output_data_len_range: None,
            output_capacity_range: None,
            block_range: Some((5, 10)),
        }),
        with_data: Some(true),
        group_by_transaction: None,
    }
}

#[test]
fn fingerprint_repeated_calls_agree() {
    let q = sample_key(vec![1, 2, 3]);
    let a = fingerprint(&q, Order::Asc, 50, &None);
    let b = fingerprint(&q, Order::Asc, 50, &None);
    assert_eq!(a.hex, b.hex);
}

#[test]
fn fingerprint_equal_values_agree() {
    // Two independently built queries with the same field values.
    let q1 = sample_key(vec![1, 2, 3]);
    let q2 = sample_key(vec![1, 2, 3]);
    let cursor1 = Some(Hex { hex: vec![9, 9] });
    let cursor2 = Some(Hex { hex: vec![9, 9] });
    let a = fingerprint(&q1, Order::Desc, 7, &cursor1);
    let b = fingerprint(&q2, Order::Desc, 7, &cursor2);
    assert_eq!(a.hex, b.hex);
}

#[test]
fn fingerprint_differs_on_limit() {
    let q = sample_key(vec![1]);
    let a = fingerprint(&q, Order::Asc, 50, &None);
    let b = fingerprint(&q, Order::Asc, 51, &None);
    assert_ne!(a.hex, b.hex);
}

#[test]
fn fingerprint_differs_on_order() {
    let q = sample_key(vec![1]);
    let a = fingerprint(&q, Order::Asc, 50, &None);
    let b = fingerprint(&q, Order::Desc, 50, &None);
    assert_ne!(a.hex, b.hex);
}

#[test]
fn fingerprint_differs_on_cursor_presence() {
    let q = sample_key(vec![1]);
    let a = fingerprint(&q, Order::Asc, 50, &None);
    let b = fingerprint(&q, Order::Asc, 50, &Some(Hex { hex: vec![] }));
    assert_ne!(a.hex, b.hex);
}

#[test]
fn fingerprint_differs_on_script_args() {
    let a = fingerprint(&sample_key(vec![1]), Order::Asc, 50, &None);
    let b = fingerprint(&sample_key(vec![2]), Order::Asc, 50, &None);
    assert_ne!(a.hex, b.hex);
}

#[test]
fn search_mode_default_is_prefix() {
    assert_eq!(SearchMode::default(), SearchMode::Prefix);
}

#[test]
fn fingerprint_exact_encoding_of_minimal_query() {
    // Empty script fields, no optional fields: the encoding is the two
    // empty length prefixes, the tag bytes, the limit, and the absence
    // tags, in order.
    let q = SearchKey {
        script: ScriptDescriptor {
            code_hash: Hex { hex: vec![] },
            hash_type: HashType::Data,
            args: Hex { hex: vec![] },
        },
        script_type: ScriptType::Lock,
        script_search_mode: None,
        filter: None,
        with_data: None,
        group_by_transaction: None,
    };
    let fp = fingerprint(&q, Order::Desc, 1, &None);
    let mut expected = vec![0u8; 8]; // code_hash length prefix
    expected.push(0); // hash type tag: data
    expected.extend_from_slice(&[0u8; 8]); // args length prefix
    expected.push(0); // script type tag: lock
    expected.push(0); // no search mode
    expected.push(0); // no filter
    expected.push(0); // no with_data
    expected.push(0); // no group_by_transaction
    expected.push(0); // order tag: desc
    expected.extend_from_slice(&[1, 0, 0, 0]); // limit, little endian
    expected.push(0); // no cursor
    assert_eq!(fp.hex, expected);
}
