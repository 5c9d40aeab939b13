use ckb_graphql::error::QueryError;
use ckb_graphql::input_types::InputOutPoint;
use ckb_graphql::memory_store::MemoryStore;
use ckb_graphql::query::Query;
use ckb_graphql::store::TxMeta;
use ckb_graphql::types::{Block, Header, OutPoint, Transaction};

fn q_hash_text(pair: &str) -> String {
    let mut text = String::from("0x");
    for _ in 0..32 {
        text.push_str(pair);
    }
    text
}

fn q_header(number: u64, fill: u8) -> Header {
    Header {
        version: 0,
        compact_target: 1,
        parent_hash: [fill.wrapping_sub(1); 32],
        timestamp: 1_000 + number,
        number,
        epoch: 0,
        transactions_root: [0; 32],
        proposals_hash: [0; 32],
        uncles_hash: [0; 32],
        dao: [0; 32],
        nonce: 0,
        hash: [fill; 32],
    }
}

fn q_transaction(fill: u8) -> Transaction {
    Transaction {
        version: 0,
        cell_deps: vec![],
        header_deps: vec![],
        inputs: vec![],
        outputs: vec![],
        outputs_data: vec![],
        witnesses: vec![vec![fill]],
        hash: [fill; 32],
    }
}

fn q_block(number: u64, fill: u8) -> Block {
    Block {
        header: q_header(number, fill),
        uncles: vec![],
        transactions: vec![q_transaction(fill.wrapping_add(0x40))],
        proposals: vec![],
    }
}

fn q_chain() -> MemoryStore {
    let mut store = MemoryStore::new();
    for (number, fill) in [(0u64, 0xa0u8), (1, 0xa1), (2, 0xa2)] {
        store.insert_block(q_block(number, fill));
        store.insert_block_hash(number, [fill; 32]);
        store.insert_header(q_header(number, fill));
        store.insert_transaction(q_transaction(fill.wrapping_add(0x40)));
        store.insert_tx_meta(
            [fill.wrapping_add(0x40); 32],
            TxMeta { block_hash: [fill; 32], output_count: 3 },
        );
    }
    store.set_tip_header(q_header(2, 0xa2));
    store
}

fn q_input(pair: &str, index: &str) -> InputOutPoint {
    InputOutPoint { tx_hash: q_hash_text(pair), index: String::from(index) }
}

#[test]
fn tip_of_an_empty_store_is_absent() {
    let store = MemoryStore::new();
    assert_eq!(Query::tip_header(&store), None);
    assert_eq!(Query::tip_block(&store), None);
}

#[test]
fn tip_header_and_block() {
    let store = q_chain();
    assert_eq!(Query::tip_header(&store), Some(q_header(2, 0xa2)));
    assert_eq!(Query::tip_block(&store), Some(q_block(2, 0xa2)));
}

#[test]
fn tip_block_is_absent_where_the_store_lacks_it() {
    let mut store = MemoryStore::new();
    store.set_tip_header(q_header(2, 0xa2));
    assert_eq!(Query::tip_header(&store), Some(q_header(2, 0xa2)));
    assert_eq!(Query::tip_block(&store), None);
}

#[test]
fn get_transaction_by_hash() {
    let store = q_chain();
    assert_eq!(Query::get_transaction(&store, q_hash_text("e1")), Ok(Some(q_transaction(0xe1))));
    assert_eq!(Query::get_transaction(&store, q_hash_text("e9")), Ok(None));
}

#[test]
fn get_transaction_rejects_what_is_no_hash() {
    let store = q_chain();
    let outcome = Query::get_transaction(&store, String::from("e1"));
    assert!(matches!(outcome, Err(QueryError::InvalidInput(_))));
    let outcome = Query::get_transaction(&store, String::from("0xe1"));
    assert!(matches!(outcome, Err(QueryError::InvalidInput(_))));
}

#[test]
fn get_block_needs_a_selector() {
    let store = q_chain();
    assert_eq!(Query::get_block(&store, None, None), Err(QueryError::MissingSelector));
}

#[test]
fn get_block_by_number() {
    let store = q_chain();
    assert_eq!(
        Query::get_block(&store, Some(String::from("0x1")), None),
        Ok(Some(q_block(1, 0xa1)))
    );
    assert_eq!(
        Query::get_block(&store, Some(String::from("0x0")), None),
        Ok(Some(q_block(0, 0xa0)))
    );
    assert_eq!(Query::get_block(&store, Some(String::from("0x3")), None), Ok(None));
}

#[test]
fn get_block_by_hash() {
    let store = q_chain();
    assert_eq!(Query::get_block(&store, None, Some(q_hash_text("a2"))), Ok(Some(q_block(2, 0xa2))));
    assert_eq!(Query::get_block(&store, None, Some(q_hash_text("a3"))), Ok(None));
}

#[test]
fn get_block_by_number_and_its_own_hash_is_get_block_by_hash() {
    let store = q_chain();
    for (number, pair) in [("0x0", "a0"), ("0x1", "a1"), ("0x2", "a2")] {
        let both = Query::get_block(&store, Some(String::from(number)), Some(q_hash_text(pair)));
        let by_hash = Query::get_block(&store, None, Some(q_hash_text(pair)));
        assert!(matches!(both, Ok(Some(_))));
        assert_eq!(both, by_hash);
    }
}

#[test]
fn get_block_by_number_and_another_hash_fails() {
    let store = q_chain();
    assert_eq!(
        Query::get_block(&store, Some(String::from("0x1")), Some(q_hash_text("a2"))),
        Err(QueryError::HashMismatch)
    );
    assert_eq!(
        Query::get_block(&store, Some(String::from("0x1")), Some(q_hash_text("ff"))),
        Err(QueryError::HashMismatch)
    );
}

#[test]
fn get_block_at_a_number_without_block_fails_on_another_blocks_hash() {
    let store = q_chain();
    assert_eq!(
        Query::get_block(&store, None, Some(q_hash_text("a2"))),
        Ok(Some(q_block(2, 0xa2)))
    );
    assert_eq!(
        Query::get_block(&store, Some(String::from("0x9")), Some(q_hash_text("a2"))),
        Err(QueryError::HashMismatch)
    );
    assert_eq!(
        Query::get_block(&store, Some(String::from("0x9")), Some(q_hash_text("ff"))),
        Err(QueryError::HashMismatch)
    );
    let mut store = q_chain();
    store.insert_block_hash(9, [0xa9; 32]);
    assert_eq!(
        Query::get_block(&store, Some(String::from("0x9")), Some(q_hash_text("a2"))),
        Err(QueryError::HashMismatch)
    );
}

#[test]
fn get_block_is_absent_where_only_the_body_of_the_numbers_block_is_missing() {
    let mut store = q_chain();
    store.insert_block_hash(9, [0xa9; 32]);
    assert_eq!(Query::get_block(&store, None, Some(q_hash_text("a9"))), Ok(None));
    assert_eq!(
        Query::get_block(&store, Some(String::from("0x9")), Some(q_hash_text("a9"))),
        Ok(None)
    );
    assert_eq!(Query::get_block(&store, Some(String::from("0x9")), None), Ok(None));
}

#[test]
fn confirmed_block_takes_a_number_and_a_hash() {
    let mut store = q_chain();
    store.insert_block_hash(9, [0xa9; 32]);
    assert_eq!(Query::confirmed_block(&store, 1, &[0xa1; 32]), Ok(Some(q_block(1, 0xa1))));
    assert_eq!(Query::confirmed_block(&store, 1, &[0xa2; 32]), Err(QueryError::HashMismatch));
    assert_eq!(Query::confirmed_block(&store, 9, &[0xa9; 32]), Ok(None));
    assert_eq!(Query::confirmed_block(&store, 9, &[0xa1; 32]), Err(QueryError::HashMismatch));
    assert_eq!(Query::confirmed_block(&store, 8, &[0xa1; 32]), Err(QueryError::HashMismatch));
    assert_eq!(
        Query::block_by(&store, Some(Ok(8)), Some(Ok([0xa1; 32]))),
        Err(QueryError::HashMismatch)
    );
}

#[test]
fn confirmed_block_goes_by_the_hash_that_the_block_carries() {
    let mut store = q_chain();
    store.insert_block_hash(5, [0xa1; 32]);
    assert_eq!(Query::confirmed_block(&store, 5, &[0xa1; 32]), Ok(Some(q_block(1, 0xa1))));
    assert_eq!(Query::confirmed_block(&store, 5, &[0xa5; 32]), Err(QueryError::HashMismatch));
}

#[test]
fn get_block_rejects_texts_that_cannot_be_read() {
    let store = q_chain();
    let outcome = Query::get_block(&store, Some(String::from("1")), None);
    assert!(matches!(outcome, Err(QueryError::InvalidInput(_))));
    let outcome = Query::get_block(&store, None, Some(String::from("0xa1")));
    assert!(matches!(outcome, Err(QueryError::InvalidInput(_))));
    let outcome = Query::get_block(&store, Some(String::from("0x1")), Some(String::from("a1")));
    assert!(matches!(outcome, Err(QueryError::InvalidInput(_))));
}

#[test]
fn get_block_reports_the_number_before_the_hash() {
    let store = q_chain();
    let number_only = Query::get_block(&store, Some(String::from("0x01")), None);
    let both = Query::get_block(&store, Some(String::from("0x01")), Some(String::from("a1")));
    assert!(matches!(number_only, Err(QueryError::InvalidInput(_))));
    assert_eq!(both, number_only);
}

#[test]
fn block_by_takes_what_was_read() {
    let store = q_chain();
    assert_eq!(Query::block_by(&store, None, None), Err(QueryError::MissingSelector));
    assert_eq!(Query::block_by(&store, Some(Ok(1)), None), Ok(Some(q_block(1, 0xa1))));
    assert_eq!(Query::block_by(&store, None, Some(Ok([0xa1; 32]))), Ok(Some(q_block(1, 0xa1))));
    assert_eq!(
        Query::block_by(&store, Some(Ok(1)), Some(Ok([0xa1; 32]))),
        Ok(Some(q_block(1, 0xa1)))
    );
    assert_eq!(
        Query::block_by(&store, Some(Ok(1)), Some(Ok([0xa0; 32]))),
        Err(QueryError::HashMismatch)
    );
    assert_eq!(
        Query::block_by(&store, Some(Err(String::from("n"))), Some(Err(String::from("h")))),
        Err(QueryError::InvalidInput(String::from("n")))
    );
    assert_eq!(
        Query::block_by(&store, Some(Ok(1)), Some(Err(String::from("h")))),
        Err(QueryError::InvalidInput(String::from("h")))
    );
    assert_eq!(
        Query::block_by(&store, None, Some(Err(String::from("h")))),
        Err(QueryError::InvalidInput(String::from("h")))
    );
    assert_eq!(Query::block_at_number(&store, 2), Some(q_block(2, 0xa2)));
    assert_eq!(Query::block_at_number(&store, 3), None);
}

#[test]
fn get_cells_keeps_an_out_point_within_the_declared_outputs() {
    let store = q_chain();
    for index in ["0x0", "0x1", "0x2"] {
        let expected = OutPoint { tx_hash: [0xe1; 32], index: index[2..].parse().unwrap() };
        assert_eq!(Query::get_cells(&store, vec![q_input("e1", index)], None), Ok(vec![expected]));
        assert_eq!(
            Query::get_cells(&store, vec![q_input("e1", index)], Some(false)),
            Ok(vec![expected])
        );
        assert_eq!(
            Query::get_cells(&store, vec![q_input("e1", index)], Some(true)),
            Ok(vec![expected])
        );
    }
}

#[test]
fn get_cells_fails_on_an_index_beyond_the_declared_outputs() {
    let store = q_chain();
    let missing = OutPoint { tx_hash: [0xe1; 32], index: 3 };
    assert_eq!(
        Query::get_cells(&store, vec![q_input("e1", "0x3")], Some(false)),
        Err(QueryError::CellNotFound(missing))
    );
    assert_eq!(
        Query::get_cells(&store, vec![q_input("e1", "0x3")], None),
        Err(QueryError::CellNotFound(missing))
    );
    assert_eq!(Query::get_cells(&store, vec![q_input("e1", "0x3")], Some(true)), Ok(vec![]));
}

#[test]
fn get_cells_fails_on_an_unknown_transaction() {
    let store = q_chain();
    let missing = OutPoint { tx_hash: [0x77; 32], index: 0 };
    assert_eq!(
        Query::get_cells(&store, vec![q_input("77", "0x0")], Some(false)),
        Err(QueryError::CellNotFound(missing))
    );
    assert_eq!(Query::get_cells(&store, vec![q_input("77", "0x0")], Some(true)), Ok(vec![]));
}

#[test]
fn get_cells_keeps_the_order_of_the_survivors() {
    let store = q_chain();
    let inputs = || {
        vec![
            q_input("e2", "0x2"),
            q_input("77", "0x0"),
            q_input("e0", "0x1"),
            q_input("e1", "0x3"),
            q_input("e2", "0x2"),
            q_input("e1", "0x0"),
        ]
    };
    assert_eq!(
        Query::get_cells(&store, inputs(), Some(true)),
        Ok(vec![
            OutPoint { tx_hash: [0xe2; 32], index: 2 },
            OutPoint { tx_hash: [0xe0; 32], index: 1 },
            OutPoint { tx_hash: [0xe2; 32], index: 2 },
            OutPoint { tx_hash: [0xe1; 32], index: 0 },
        ])
    );
    assert_eq!(
        Query::get_cells(&store, inputs(), Some(false)),
        Err(QueryError::CellNotFound(OutPoint { tx_hash: [0x77; 32], index: 0 }))
    );
}

#[test]
fn get_cells_of_nothing_is_nothing() {
    let store = q_chain();
    assert_eq!(Query::get_cells(&store, vec![], None), Ok(vec![]));
    assert_eq!(Query::get_cells(&store, vec![], Some(true)), Ok(vec![]));
}

#[test]
fn get_cells_fails_on_the_first_entry_that_fails() {
    let store = q_chain();
    let unreadable_later = vec![q_input("77", "0x0"), q_input("e1", "1")];
    assert_eq!(
        Query::get_cells(&store, unreadable_later, Some(false)),
        Err(QueryError::CellNotFound(OutPoint { tx_hash: [0x77; 32], index: 0 }))
    );
    let unreadable_first = vec![q_input("e1", "1"), q_input("77", "0x0")];
    assert!(matches!(
        Query::get_cells(&store, unreadable_first, Some(false)),
        Err(QueryError::InvalidInput(_))
    ));
}

#[test]
fn get_cells_does_not_skip_what_cannot_be_read() {
    let store = q_chain();
    let inputs = vec![q_input("e1", "0x0"), q_input("e1", "0x")];
    assert!(matches!(
        Query::get_cells(&store, inputs, Some(true)),
        Err(QueryError::InvalidInput(_))
    ));
    let bad_hash = InputOutPoint { tx_hash: String::from("0xe1e1"), index: String::from("0x0") };
    assert!(matches!(
        Query::get_cells(&store, vec![bad_hash], Some(true)),
        Err(QueryError::InvalidInput(_))
    ));
}

#[test]
fn select_cells_takes_what_was_read() {
    let store = q_chain();
    let kept = OutPoint { tx_hash: [0xe1; 32], index: 2 };
    let missing = OutPoint { tx_hash: [0xe1; 32], index: 3 };
    assert!(Query::cell_exists(&store, &kept));
    assert!(!Query::cell_exists(&store, &missing));
    assert!(!Query::cell_exists(&store, &OutPoint { tx_hash: [0x00; 32], index: 0 }));
    let entries = vec![Ok(kept), Ok(missing), Ok(kept)];
    assert_eq!(Query::select_cells(&store, &entries, true), Ok(vec![kept, kept]));
    assert_eq!(
        Query::select_cells(&store, &entries, false),
        Err(QueryError::CellNotFound(missing))
    );
    let entries = vec![Ok(kept), Err(String::from("unreadable")), Ok(missing)];
    assert_eq!(
        Query::select_cells(&store, &entries, true),
        Err(QueryError::InvalidInput(String::from("unreadable")))
    );
    assert_eq!(
        Query::select_cells(&store, &entries, false),
        Err(QueryError::InvalidInput(String::from("unreadable")))
    );
}

#[test]
fn inputs_are_read_one_by_one() {
    let inputs = vec![q_input("e1", "0x2"), q_input("e1", "2"), q_input("e1", "0xffffffff")];
    let entries = Query::read_inputs(&inputs);
    assert_eq!(entries.len(), 3);
    assert_eq!(entries[0], Ok(OutPoint { tx_hash: [0xe1; 32], index: 2 }));
    assert!(entries[1].is_err());
    assert_eq!(entries[2], Ok(OutPoint { tx_hash: [0xe1; 32], index: u32::MAX }));
    assert_eq!(OutPoint::try_from(&inputs[0]), Ok(OutPoint { tx_hash: [0xe1; 32], index: 2 }));
}

#[test]
fn input_hash_is_read_before_its_index() {
    let both_bad = InputOutPoint { tx_hash: String::from("e1"), index: String::from("2") };
    let hash_bad = InputOutPoint { tx_hash: String::from("e1"), index: String::from("0x2") };
    let message = OutPoint::try_from(&both_bad).unwrap_err();
    assert_eq!(OutPoint::try_from(&hash_bad), Err(message));
}
