//! The statements and readers of the store, without an engine.
use blocktop::codec::{encode_header, encode_transaction};
use blocktop::model::{Block, Header, Transaction, TxPayload};
use blocktop::primitives::{FixedBytes, U256};
use blocktop::sql::{DecodeError, SqlValue, WriteError};
use blocktop::store::{
    add_block, add_block_header, add_transaction, add_transactions, all_block_hashes,
    block_from_parts, decode_transactions, distinct_hashes, header_from_rows,
    latest_block_header, next_write_step, query_all_block_hashes, query_header_by_hash,
    query_header_by_number, query_latest_header, query_transaction,
    query_transactions_by_block_hash, schema_statements, transactions_from_rows, Statement,
    WriteStep, CONN_GET_TIMEOUT_MILLIS, CONN_IDLE_TIMEOUT_MILLIS, INSERT_BLOCK_HEADER,
    INSERT_TRANSACTION,
};

fn hash(byte: u8) -> FixedBytes<32> {
    FixedBytes { bytes: [byte; 32] }
}

fn header(number: u64, byte: u8) -> Header {
    let mut h = Header::default();
    h.number = number;
    h.hash = hash(byte);
    h
}

fn tx(byte: u8, block: u8, position: u64) -> Transaction {
    Transaction {
        hash: hash(byte),
        from: FixedBytes { bytes: [7; 20] },
        nonce: 1,
        gas_limit: 21_000,
        value: U256::from_u64(9),
        input: vec![],
        block_hash: Some(hash(block)),
        block_number: Some(100),
        position: Some(position),
        payload: TxPayload::Legacy { chain_id: Some(1), gas_price: 5, to: None },
    }
}

fn stored(h: &Header, marker: i64) -> Vec<SqlValue> {
    let mut row = vec![SqlValue::Integer(marker)];
    row.extend(encode_header(h).unwrap());
    row
}

#[test]
fn schema_creates_two_tables_if_absent() {
    let schema = schema_statements();
    assert_eq!(schema.len(), 2);
    assert!(schema[0].sql.starts_with("CREATE TABLE IF NOT EXISTS block_headers ("));
    assert!(schema[1].sql.starts_with("CREATE TABLE IF NOT EXISTS transactions ("));
    assert!(schema.iter().all(|s| s.params.is_empty()));
    assert_eq!(CONN_GET_TIMEOUT_MILLIS, 1_000);
    assert_eq!(CONN_IDLE_TIMEOUT_MILLIS, 1_000);
}

#[test]
fn block_plan_writes_the_header_first_then_each_transaction() {
    let block = Block {
        header: header(100, 0xa1),
        transactions: vec![tx(1, 0xa1, 0), tx(2, 0xa1, 1), tx(3, 0xa1, 2)],
    };
    let plan = add_block(&block).unwrap();
    assert_eq!(plan.len(), 4);
    assert_eq!(plan[0], add_block_header(&block.header).unwrap());
    assert_eq!(plan[0].sql, INSERT_BLOCK_HEADER);
    assert_eq!(plan[0].params, encode_header(&block.header).unwrap());
    for (i, t) in block.transactions.iter().enumerate() {
        assert_eq!(plan[i + 1], add_transaction(t).unwrap());
        assert_eq!(plan[i + 1].sql, INSERT_TRANSACTION);
        assert_eq!(plan[i + 1].params, encode_transaction(t).unwrap());
        assert_eq!(plan[i + 1].params[1], plan[0].params[0]);
        assert_eq!(plan[i + 1].params[3], SqlValue::Integer(i as i64));
    }
}

#[test]
fn block_plan_is_all_or_nothing() {
    let mut block = Block {
        header: header(100, 0xa1),
        transactions: vec![tx(1, 0xa1, 0), tx(2, 0xa2, 1), tx(3, 0xa1, 2)],
    };
    assert_eq!(add_block(&block), Err(WriteError::BlockMismatch));
    block.transactions[1].block_hash = None;
    assert_eq!(add_block(&block), Err(WriteError::MissingBlockInfo));
    block.transactions[1].block_hash = Some(hash(0xa1));
    block.transactions[2].gas_limit = u64::MAX;
    assert_eq!(add_block(&block), Err(WriteError::IntegerOutOfRange));
    block.transactions[2].gas_limit = 1;
    block.header.timestamp = u64::MAX;
    assert_eq!(add_block(&block), Err(WriteError::IntegerOutOfRange));
    block.header.timestamp = 1;
    assert_eq!(add_block(&block).unwrap().len(), 4);
}

#[test]
fn first_unwritable_transaction_decides_the_error() {
    let mut txs = vec![tx(1, 0xa1, 0), tx(2, 0xb2, 1), tx(3, 0xc3, 2)];
    // Transactions written on their own may belong to different blocks.
    assert_eq!(add_transactions(&txs).unwrap().len(), 3);
    txs[1].nonce = u64::MAX;
    txs[2].position = None;
    assert_eq!(add_transactions(&txs), Err(WriteError::IntegerOutOfRange));
    txs[0].block_number = None;
    assert_eq!(add_transactions(&txs), Err(WriteError::MissingBlockInfo));
    assert_eq!(add_transactions(&vec![]), Ok(vec![]));
}

#[test]
fn writer_commits_only_after_every_statement() {
    assert_eq!(next_write_step(3, 0, false), WriteStep::Execute(0));
    assert_eq!(next_write_step(3, 2, false), WriteStep::Execute(2));
    assert_eq!(next_write_step(3, 3, false), WriteStep::Commit);
    assert_eq!(next_write_step(0, 0, false), WriteStep::Commit);
    assert_eq!(next_write_step(3, 0, true), WriteStep::Rollback);
    assert_eq!(next_write_step(3, 2, true), WriteStep::Rollback);
    assert_eq!(next_write_step(3, 3, true), WriteStep::Rollback);
}

#[test]
fn queries_bind_what_they_look_for() {
    let text = SqlValue::Text(format!("0x{}", "a1".repeat(32)));
    assert!(query_latest_header().params.is_empty());
    assert!(query_latest_header().sql.contains("ORDER BY inserted_at DESC"));
    assert_eq!(query_header_by_hash(&hash(0xa1)).params, vec![text.clone()]);
    assert_eq!(query_transaction(&hash(0xa1)).params, vec![text.clone()]);
    assert_eq!(query_transactions_by_block_hash(&hash(0xa1)).params, vec![text]);
    assert!(query_transactions_by_block_hash(&hash(0xa1)).sql.contains("ORDER BY position"));
    assert_eq!(query_header_by_number(7).unwrap().params, vec![SqlValue::Integer(7)]);
    assert_eq!(query_header_by_number(1 << 63), None);
    assert!(query_all_block_hashes().params.is_empty());
}

#[test]
fn latest_is_the_row_with_the_greatest_marker() {
    let rows = vec![
        stored(&header(300, 3), 10),
        stored(&header(100, 1), 30),
        stored(&header(200, 2), 20),
    ];
    assert_eq!(latest_block_header(&rows), Ok(Some(header(100, 1))));
    // Among equal markers the row written last counts.
    let rows = vec![stored(&header(1, 1), 9), stored(&header(2, 2), 9), stored(&header(3, 3), 5)];
    assert_eq!(latest_block_header(&rows), Ok(Some(header(2, 2))));
    assert_eq!(latest_block_header(&vec![]), Ok(None));
    assert_eq!(latest_block_header(&vec![stored(&header(1, 1), i64::MIN)]), Ok(Some(header(1, 1))));
}

#[test]
fn faulty_rows_do_not_touch_the_others() {
    let mut broken = stored(&header(300, 3), 10);
    broken[2] = SqlValue::Null;
    let good = stored(&header(100, 1), 30);
    // A fault in an older row does not affect the latest.
    assert_eq!(latest_block_header(&vec![broken.clone(), good.clone()]), Ok(Some(header(100, 1))));
    // A row without a marker takes no part.
    let mut unmarked = stored(&header(500, 5), 0);
    unmarked[0] = SqlValue::Text("now".to_string());
    assert_eq!(
        latest_block_header(&vec![unmarked.clone(), good.clone(), vec![]]),
        Ok(Some(header(100, 1)))
    );
    assert_eq!(latest_block_header(&vec![unmarked, vec![]]), Ok(None));
    // A fault in the latest row itself is reported.
    broken[0] = SqlValue::Integer(99);
    assert_eq!(latest_block_header(&vec![good, broken]), Err(DecodeError::Malformed(2)));

    let first = encode_transaction(&tx(1, 0xa1, 0)).unwrap();
    let mut second = encode_transaction(&tx(2, 0xa1, 1)).unwrap();
    second[5] = SqlValue::Integer(77);
    let third = encode_transaction(&tx(3, 0xa1, 2)).unwrap();
    let rows = vec![first, second, third];
    assert_eq!(
        decode_transactions(&rows),
        vec![Ok(tx(1, 0xa1, 0)), Err(DecodeError::UnknownType(77)), Ok(tx(3, 0xa1, 2))]
    );
    assert_eq!(transactions_from_rows(&rows), Err(DecodeError::UnknownType(77)));
    assert_eq!(transactions_from_rows(&rows[..1].to_vec()), Ok(vec![tx(1, 0xa1, 0)]));
    assert_eq!(transactions_from_rows(&vec![]), Ok(vec![]));
}

#[test]
fn lookups_take_the_first_row() {
    let rows = vec![stored(&header(100, 1), 30), stored(&header(100, 2), 20)];
    assert_eq!(header_from_rows(&rows), Ok(Some(header(100, 1))));
    assert_eq!(header_from_rows(&vec![]), Ok(None));
    assert_eq!(header_from_rows(&vec![vec![]]), Err(DecodeError::ColumnCount));
    assert_eq!(block_from_parts(None, vec![tx(1, 1, 0)]), None);
    assert_eq!(
        block_from_parts(Some(header(100, 1)), vec![tx(1, 1, 0)]),
        Some(Block { header: header(100, 1), transactions: vec![tx(1, 1, 0)] })
    );
}

#[test]
fn block_hashes_form_a_set() {
    let cell = |byte: u8| vec![SqlValue::Text(hash(byte).to_hex())];
    let rows = vec![cell(2), cell(1), cell(2), cell(3), cell(1)];
    assert_eq!(all_block_hashes(&rows), Ok(vec![hash(2), hash(1), hash(3)]));
    assert_eq!(all_block_hashes(&vec![]), Ok(vec![]));
    assert_eq!(
        all_block_hashes(&vec![cell(1), vec![SqlValue::Integer(1)]]),
        Err(DecodeError::Malformed(0))
    );
    assert_eq!(all_block_hashes(&vec![cell(1), vec![]]), Err(DecodeError::ColumnCount));
    assert_eq!(distinct_hashes(&vec![hash(1), hash(1), hash(1)]), vec![hash(1)]);
}

#[test]
fn statements_compare_by_text_and_values() {
    let a = Statement { sql: "SELECT 1".to_string(), params: vec![SqlValue::Null] };
    let b = Statement { sql: "SELECT 1".to_string(), params: vec![SqlValue::Integer(0)] };
    assert_ne!(a, b);
    assert_eq!(a.clone(), a);
}
