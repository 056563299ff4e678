//! The row codec of transactions and headers.
use blocktop::codec::{encode_header, encode_transaction, row_to_header, row_to_transaction};
use blocktop::model::{Header, Transaction, TxPayload, TxType};
use blocktop::primitives::{FixedBytes, U256};
use blocktop::sql::{DecodeError, SqlValue, WriteError};

fn base(payload: TxPayload) -> Transaction {
    Transaction {
        hash: FixedBytes { bytes: [0x11; 32] },
        from: FixedBytes { bytes: [0x22; 20] },
        nonce: 42,
        gas_limit: 21_000,
        value: U256 { limbs: [1, 2, 3, 4] },
        input: vec![1, 2, 3],
        block_hash: Some(FixedBytes { bytes: [0x33; 32] }),
        block_number: Some(19_000_000),
        position: Some(3),
        payload,
    }
}

fn recipient() -> FixedBytes<20> {
    FixedBytes { bytes: [0x44; 20] }
}

fn round_trip(tx: &Transaction) -> Transaction {
    row_to_transaction(&encode_transaction(tx).unwrap()).unwrap()
}

#[test]
fn legacy_round_trip() {
    let tx = base(TxPayload::Legacy { chain_id: Some(1), gas_price: 5, to: Some(recipient()) });
    assert_eq!(round_trip(&tx), tx);
    assert_eq!(round_trip(&tx).tx_type(), TxType::Legacy);
}

#[test]
fn legacy_without_chain_and_recipient_round_trip() {
    let tx = base(TxPayload::Legacy { chain_id: None, gas_price: 0, to: None });
    let back = round_trip(&tx);
    assert_eq!(back, tx);
    assert_eq!(back.chain_id(), None);
    assert_eq!(back.to(), None);
    assert_eq!(back.gas_price(), Some(0));
}

#[test]
fn access_list_round_trip() {
    let tx = base(TxPayload::AccessList { chain_id: 5, gas_price: u128::MAX, to: None });
    assert_eq!(round_trip(&tx), tx);
    assert_eq!(round_trip(&tx).gas_price(), Some(u128::MAX));
}

#[test]
fn dynamic_fee_round_trip() {
    let tx = base(TxPayload::DynamicFee {
        chain_id: 1,
        max_fee_per_gas: 30,
        max_priority_fee_per_gas: 2,
        to: Some(recipient()),
    });
    let back = round_trip(&tx);
    assert_eq!(back, tx);
    assert_eq!(back.gas_price(), None);
    assert_eq!(back.max_fee_per_gas(), Some(30));
    assert_eq!(back.max_priority_fee_per_gas(), Some(2));
}

#[test]
fn blob_round_trip() {
    let tx = base(TxPayload::Blob {
        chain_id: 1,
        max_fee_per_gas: 1 << 100,
        max_priority_fee_per_gas: 0,
        to: recipient(),
    });
    assert_eq!(round_trip(&tx), tx);
}

#[test]
fn delegation_round_trip() {
    let tx = base(TxPayload::Delegation {
        chain_id: 17,
        max_fee_per_gas: 9,
        max_priority_fee_per_gas: 8,
        to: recipient(),
    });
    assert_eq!(round_trip(&tx), tx);
    assert_eq!(round_trip(&tx).tx_type(), TxType::Delegation);
}

#[test]
fn transaction_row_has_the_columns_of_the_schema() {
    let tx = base(TxPayload::DynamicFee {
        chain_id: 1,
        max_fee_per_gas: 30,
        max_priority_fee_per_gas: 2,
        to: None,
    });
    let row = encode_transaction(&tx).unwrap();
    let digits_11 = "11".repeat(32);
    let digits_33 = "33".repeat(32);
    let digits_22 = "22".repeat(20);
    // 1 + 2 * 2^64 + 3 * 2^128 + 4 * 2^192
    let value = "25108406941546723056364004793593481054836439088298861789185";
    assert_eq!(
        row,
        vec![
            SqlValue::Text(format!("0x{digits_11}")),
            SqlValue::Text(format!("0x{digits_33}")),
            SqlValue::Integer(19_000_000),
            SqlValue::Integer(3),
            SqlValue::Text(format!("0x{digits_22}")),
            SqlValue::Integer(2),
            SqlValue::Integer(1),
            SqlValue::Integer(42),
            SqlValue::Null,
            SqlValue::Integer(21_000),
            SqlValue::Null,
            SqlValue::Text(value.to_string()),
            SqlValue::Blob(vec![1, 2, 3]),
            SqlValue::Text("30".to_string()),
            SqlValue::Text("2".to_string()),
        ]
    );
}

#[test]
fn zero_gas_price_is_not_absent() {
    let legacy = base(TxPayload::Legacy { chain_id: Some(1), gas_price: 0, to: None });
    let row = encode_transaction(&legacy).unwrap();
    assert_eq!(row[8], SqlValue::Text("0".to_string()));
    assert_eq!(row[13], SqlValue::Null);
    assert_eq!(row[14], SqlValue::Null);
}

#[test]
fn transaction_outside_a_block_is_not_written() {
    let mut tx = base(TxPayload::Legacy { chain_id: Some(1), gas_price: 5, to: None });
    tx.block_hash = None;
    assert_eq!(encode_transaction(&tx), Err(WriteError::MissingBlockInfo));
    let mut tx = base(TxPayload::Legacy { chain_id: Some(1), gas_price: 5, to: None });
    tx.position = None;
    assert_eq!(encode_transaction(&tx), Err(WriteError::MissingBlockInfo));
    let mut tx = base(TxPayload::Legacy { chain_id: Some(1), gas_price: 5, to: None });
    tx.block_number = None;
    assert_eq!(encode_transaction(&tx), Err(WriteError::MissingBlockInfo));
}

#[test]
fn oversized_integer_is_not_written() {
    let mut tx = base(TxPayload::Legacy { chain_id: Some(1), gas_price: 5, to: None });
    tx.nonce = u64::MAX;
    assert_eq!(encode_transaction(&tx), Err(WriteError::IntegerOutOfRange));
    tx.nonce = i64::MAX as u64;
    assert!(encode_transaction(&tx).is_ok());
    let mut h = Header::default();
    h.gas_used = (i64::MAX as u64) + 1;
    assert_eq!(encode_header(&h), Err(WriteError::IntegerOutOfRange));
}

#[test]
fn unknown_type_tag_is_rejected() {
    let tx = base(TxPayload::Legacy { chain_id: Some(1), gas_price: 5, to: None });
    let mut row = encode_transaction(&tx).unwrap();
    row[5] = SqlValue::Integer(5);
    assert_eq!(row_to_transaction(&row), Err(DecodeError::UnknownType(5)));
    row[5] = SqlValue::Integer(-1);
    assert_eq!(row_to_transaction(&row), Err(DecodeError::UnknownType(-1)));
    row[5] = SqlValue::Text("0".to_string());
    assert_eq!(row_to_transaction(&row), Err(DecodeError::Malformed(5)));
}

#[test]
fn malformed_transaction_rows_are_rejected() {
    let tx = base(TxPayload::Legacy { chain_id: Some(1), gas_price: 5, to: None });
    let good = encode_transaction(&tx).unwrap();
    assert_eq!(row_to_transaction(&good[..14].to_vec()), Err(DecodeError::ColumnCount));

    let mut row = good.clone();
    row[0] = SqlValue::Text("0x1234".to_string());
    assert_eq!(row_to_transaction(&row), Err(DecodeError::Malformed(0)));

    let mut row = good.clone();
    row[2] = SqlValue::Integer(-5);
    assert_eq!(row_to_transaction(&row), Err(DecodeError::Malformed(2)));

    let mut row = good.clone();
    row[8] = SqlValue::Null;
    assert_eq!(row_to_transaction(&row), Err(DecodeError::Malformed(8)));

    let mut row = good.clone();
    row[11] = SqlValue::Text("12x".to_string());
    assert_eq!(row_to_transaction(&row), Err(DecodeError::Malformed(11)));

    let mut row = good.clone();
    row[12] = SqlValue::Real;
    assert_eq!(row_to_transaction(&row), Err(DecodeError::Malformed(12)));

    // The first faulty column is the one reported.
    let mut row = good.clone();
    row[4] = SqlValue::Null;
    row[9] = SqlValue::Null;
    assert_eq!(row_to_transaction(&row), Err(DecodeError::Malformed(4)));
}

#[test]
fn the_tag_decides_which_columns_are_read() {
    let tx = base(TxPayload::DynamicFee {
        chain_id: 1,
        max_fee_per_gas: 30,
        max_priority_fee_per_gas: 2,
        to: None,
    });
    let good = encode_transaction(&tx).unwrap();

    // A stray gas price does not turn a fee-market row into anything else.
    let mut row = good.clone();
    row[8] = SqlValue::Text("77".to_string());
    assert_eq!(row_to_transaction(&row), Ok(tx.clone()));

    let mut row = good.clone();
    row[6] = SqlValue::Null;
    assert_eq!(row_to_transaction(&row), Err(DecodeError::Malformed(6)));

    let mut row = good.clone();
    row[14] = SqlValue::Null;
    assert_eq!(row_to_transaction(&row), Err(DecodeError::Malformed(14)));

    // A fee above 128 bits is no fee.
    let mut row = good.clone();
    row[13] = SqlValue::Text("340282366920938463463374607431768211456".to_string());
    assert_eq!(row_to_transaction(&row), Err(DecodeError::Malformed(13)));

    // The blob format has no form without a recipient.
    let mut row = good.clone();
    row[5] = SqlValue::Integer(3);
    assert_eq!(row_to_transaction(&row), Err(DecodeError::Malformed(10)));
    row[5] = SqlValue::Integer(4);
    assert_eq!(row_to_transaction(&row), Err(DecodeError::Malformed(10)));
}

fn full_header() -> Header {
    Header {
        hash: FixedBytes { bytes: [1; 32] },
        number: 19_000_000,
        parent_hash: FixedBytes { bytes: [2; 32] },
        ommers_hash: FixedBytes { bytes: [3; 32] },
        beneficiary: FixedBytes { bytes: [4; 20] },
        state_root: FixedBytes { bytes: [5; 32] },
        transactions_root: FixedBytes { bytes: [6; 32] },
        receipts_root: FixedBytes { bytes: [7; 32] },
        logs_bloom: FixedBytes { bytes: [8; 256] },
        difficulty: U256 { limbs: [u64::MAX; 4] },
        gas_limit: 30_000_000,
        gas_used: 12_345_678,
        timestamp: 1_700_000_000,
        extra_data: b"beaverbuild.org".to_vec(),
        mix_hash: FixedBytes { bytes: [9; 32] },
        nonce: FixedBytes { bytes: [10; 8] },
        base_fee_per_gas: Some(0),
        withdrawals_root: Some(FixedBytes { bytes: [0; 32] }),
        blob_gas_used: Some(131_072),
        excess_blob_gas: None,
        parent_beacon_block_root: Some(FixedBytes { bytes: [11; 32] }),
        requests_hash: None,
    }
}

fn stored(header: &Header, marker: i64) -> Vec<SqlValue> {
    let mut row = vec![SqlValue::Integer(marker)];
    row.extend(encode_header(header).unwrap());
    row
}

#[test]
fn header_round_trip() {
    let h = full_header();
    assert_eq!(row_to_header(&stored(&h, 1_700_000_123)), Ok(h));
    let h = Header::default();
    assert_eq!(row_to_header(&stored(&h, 0)), Ok(h));
}

#[test]
fn absent_header_fields_are_not_zero() {
    let h = full_header();
    let params = encode_header(&h).unwrap();
    assert_eq!(params.len(), 22);
    assert_eq!(params[16], SqlValue::Integer(0));
    assert_eq!(params[17], SqlValue::Text(format!("0x{}", "00".repeat(32))));
    assert_eq!(params[19], SqlValue::Null);
    assert_eq!(params[21], SqlValue::Null);
    let back = row_to_header(&stored(&h, 5)).unwrap();
    assert_eq!(back.base_fee_per_gas, Some(0));
    assert_eq!(back.excess_blob_gas, None);
    assert_eq!(back.withdrawals_root, Some(FixedBytes { bytes: [0; 32] }));
    assert_eq!(back.requests_hash, None);
}

#[test]
fn header_difficulty_is_persisted_in_decimal() {
    let params = encode_header(&full_header()).unwrap();
    assert_eq!(
        params[9],
        SqlValue::Text(
            "115792089237316195423570985008687907853269984665640564039457584007913129639935"
                .to_string()
        )
    );
}

#[test]
fn malformed_header_rows_are_rejected() {
    let good = stored(&full_header(), 9);
    assert_eq!(row_to_header(&good[1..].to_vec()), Err(DecodeError::ColumnCount));
    let mut row = good.clone();
    row[0] = SqlValue::Null;
    assert_eq!(row_to_header(&row), Err(DecodeError::Malformed(0)));
    let mut row = good.clone();
    row[5] = SqlValue::Text(format!("0x{}", "04".repeat(32)));
    assert_eq!(row_to_header(&row), Err(DecodeError::Malformed(5)));
    let mut row = good.clone();
    row[10] = SqlValue::Integer(7);
    assert_eq!(row_to_header(&row), Err(DecodeError::Malformed(10)));
    let mut row = good.clone();
    row[22] = SqlValue::Text("".to_string());
    assert_eq!(row_to_header(&row), Err(DecodeError::Malformed(22)));
}
