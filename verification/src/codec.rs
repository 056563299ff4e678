//! The flat relational encoding of transactions and headers.
//!
//! A transaction is one row of fifteen columns. The `type` column holds the
//! tag of its format, and only the columns meaningful to that format are
//! filled: the others hold the "not present" marker. Decoding dispatches on
//! the tag, never on which columns are filled.
use crate::model::{
    type_of_tag, Header, HeaderView, Transaction, TransactionView, TxPayload, TxType,
};
use crate::sql::{
    amount_cell, cell_amount, cell_blob, cell_fee, cell_fixed, cell_i64, cell_opt_fixed,
    cell_opt_u64, cell_u64, cells, fits_integer, fixed_cell, integer_cell,
    lemma_cell_round_trip, opt_fee_cell, opt_fits_integer, opt_fixed_cell, opt_integer_cell,
    read_amount, read_blob, read_fee, read_fixed, read_i64, read_opt_fixed, read_opt_u64,
    read_u64, write_amount, write_blob, write_fixed, write_opt_fee, write_opt_fixed,
    write_opt_u64, write_u64, DecodeError, SqlValue, SqlValueView, WriteError,
};
use vstd::prelude::*;

verus! {

/// The number of columns of the `transactions` table.
pub const TRANSACTION_COLUMNS: usize = 15;

/// The row that persists a transaction, column by column:
/// `hash`, `block_hash`, `block_number`, `position`, `from_address`, `type`,
/// `chain_id`, `nonce`, `gas_price`, `gas_limit`, `to_address`, `value`,
/// `input`, `max_fee_per_gas`, `max_priority_fee_per_gas`.
///
/// A transaction that does not say where it stands in which block has no
/// row, nor has one with a 64-bit field too large for an integer column.
pub open spec fn transaction_row(tx: TransactionView) -> Result<Seq<SqlValueView>, WriteError> {
    if tx.block_hash is None || tx.block_number is None || tx.position is None {
        Err(WriteError::MissingBlockInfo)
    } else if !fits_integer(tx.block_number.unwrap()) || !fits_integer(tx.position.unwrap())
        || !opt_fits_integer(tx.chain_id) || !fits_integer(tx.nonce) || !fits_integer(
        tx.gas_limit,
    ) {
        Err(WriteError::IntegerOutOfRange)
    } else {
        Ok(
            seq![
                fixed_cell(tx.hash),
                fixed_cell(tx.block_hash.unwrap()),
                integer_cell(tx.block_number.unwrap()),
                integer_cell(tx.position.unwrap()),
                fixed_cell(tx.from),
                SqlValueView::Integer(tx.tx_type.tag() as i64),
                opt_integer_cell(tx.chain_id),
                integer_cell(tx.nonce),
                opt_fee_cell(tx.gas_price),
                integer_cell(tx.gas_limit),
                opt_fixed_cell(tx.to),
                amount_cell(tx.value),
                SqlValueView::Blob(tx.input),
                opt_fee_cell(tx.max_fee_per_gas),
                opt_fee_cell(tx.max_priority_fee_per_gas),
            ],
        )
    }
}

/// The format that the `type` column of a row selects.
pub open spec fn row_tx_type(row: Seq<SqlValueView>) -> TxType {
    type_of_tag(cell_i64(row[5]).unwrap() as int).unwrap()
}

/// What is wrong with a row of the `transactions` table: the first column, in
/// column order, that the format selected by the tag cannot accept. `None`
/// for a row that holds a transaction.
pub open spec fn transaction_row_fault(row: Seq<SqlValueView>) -> Option<DecodeError> {
    if row.len() != 15 {
        Some(DecodeError::ColumnCount)
    } else if cell_fixed(row[0], 32) is None {
        Some(DecodeError::Malformed(0))
    } else if cell_fixed(row[1], 32) is None {
        Some(DecodeError::Malformed(1))
    } else if cell_u64(row[2]) is None {
        Some(DecodeError::Malformed(2))
    } else if cell_u64(row[3]) is None {
        Some(DecodeError::Malformed(3))
    } else if cell_fixed(row[4], 20) is None {
        Some(DecodeError::Malformed(4))
    } else if cell_i64(row[5]) is None {
        Some(DecodeError::Malformed(5))
    } else if type_of_tag(cell_i64(row[5]).unwrap() as int) is None {
        Some(DecodeError::UnknownType(cell_i64(row[5]).unwrap()))
    } else if cell_opt_u64(row[6]) is None || (row_tx_type(row) != TxType::Legacy
        && cell_opt_u64(row[6]) == Some(None::<u64>)) {
        Some(DecodeError::Malformed(6))
    } else if cell_u64(row[7]) is None {
        Some(DecodeError::Malformed(7))
    } else if row_tx_type(row).has_gas_price() && cell_fee(row[8]) is None {
        Some(DecodeError::Malformed(8))
    } else if cell_u64(row[9]) is None {
        Some(DecodeError::Malformed(9))
    } else if cell_opt_fixed(row[10], 20) is None || (row_tx_type(row).needs_recipient()
        && cell_opt_fixed(row[10], 20) == Some(None::<Seq<u8>>)) {
        Some(DecodeError::Malformed(10))
    } else if cell_amount(row[11]) is None {
        Some(DecodeError::Malformed(11))
    } else if cell_blob(row[12]) is None {
        Some(DecodeError::Malformed(12))
    } else if !row_tx_type(row).has_gas_price() && cell_fee(row[13]) is None {
        Some(DecodeError::Malformed(13))
    } else if !row_tx_type(row).has_gas_price() && cell_fee(row[14]) is None {
        Some(DecodeError::Malformed(14))
    } else {
        None
    }
}

/// The transaction that a faultless row holds. Columns that the format does
/// not have are not read: their fields are absent whatever the columns hold.
pub open spec fn transaction_of_row(row: Seq<SqlValueView>) -> TransactionView {
    let tx_type = row_tx_type(row);
    TransactionView {
        hash: cell_fixed(row[0], 32).unwrap(),
        from: cell_fixed(row[4], 20).unwrap(),
        nonce: cell_u64(row[7]).unwrap(),
        gas_limit: cell_u64(row[9]).unwrap(),
        value: cell_amount(row[11]).unwrap(),
        input: cell_blob(row[12]).unwrap(),
        block_hash: Some(cell_fixed(row[1], 32).unwrap()),
        block_number: Some(cell_u64(row[2]).unwrap()),
        position: Some(cell_u64(row[3]).unwrap()),
        tx_type,
        chain_id: cell_opt_u64(row[6]).unwrap(),
        to: cell_opt_fixed(row[10], 20).unwrap(),
        gas_price: if tx_type.has_gas_price() {
            Some(cell_fee(row[8]).unwrap())
        } else {
            None
        },
        max_fee_per_gas: if tx_type.has_gas_price() {
            None
        } else {
            Some(cell_fee(row[13]).unwrap())
        },
        max_priority_fee_per_gas: if tx_type.has_gas_price() {
            None
        } else {
            Some(cell_fee(row[14]).unwrap())
        },
    }
}

/// What a row of the `transactions` table decodes to.
pub open spec fn row_transaction(row: Seq<SqlValueView>) -> Result<TransactionView, DecodeError> {
    match transaction_row_fault(row) {
        Some(fault) => Err(fault),
        None => Ok(transaction_of_row(row)),
    }
}

/// Encodes a transaction as the row that persists it.
pub fn encode_transaction(tx: &Transaction) -> (r: Result<Vec<SqlValue>, WriteError>)
    ensures
        match r {
            Ok(row) => transaction_row(tx@) == Ok::<_, WriteError>(cells(row@)),
            Err(e) => transaction_row(tx@) == Err::<Seq<SqlValueView>, _>(e),
        },
{
    let (block_hash, block_number, position) = match (
        tx.block_hash,
        tx.block_number,
        tx.position,
    ) {
        (Some(h), Some(n), Some(p)) => (h, n, p),
        _ => {
            return Err(WriteError::MissingBlockInfo);
        },
    };
    let chain_id = tx.chain_id();
    let (number_cell, position_cell, chain_cell, nonce_cell, limit_cell) = match (
        write_u64(block_number),
        write_u64(position),
        write_opt_u64(chain_id),
        write_u64(tx.nonce),
        write_u64(tx.gas_limit),
    ) {
        (Some(a), Some(b), Some(c), Some(d), Some(e)) => (a, b, c, d, e),
        _ => {
            return Err(WriteError::IntegerOutOfRange);
        },
    };
    let to = tx.to();
    let mut row: Vec<SqlValue> = Vec::new();
    row.push(write_fixed(&tx.hash));
    row.push(write_fixed(&block_hash));
    row.push(number_cell);
    row.push(position_cell);
    row.push(write_fixed(&tx.from));
    row.push(SqlValue::Integer(tx.tx_type().to_tag() as i64));
    row.push(chain_cell);
    row.push(nonce_cell);
    row.push(write_opt_fee(tx.gas_price()));
    row.push(limit_cell);
    row.push(write_opt_fixed(&to));
    row.push(write_amount(&tx.value));
    row.push(write_blob(tx.input.as_slice()));
    row.push(write_opt_fee(tx.max_fee_per_gas()));
    row.push(write_opt_fee(tx.max_priority_fee_per_gas()));
    assert(cells(row@) =~= transaction_row(tx@).unwrap());
    Ok(row)
}

/// Decodes a row of the `transactions` table. The tag selects the format;
/// a tag outside the five known ones is an error, as is any column that the
/// selected format cannot accept.
pub fn row_to_transaction(row: &Vec<SqlValue>) -> (r: Result<Transaction, DecodeError>)
    ensures
        match r {
            Ok(tx) => row_transaction(cells(row@)) == Ok::<_, DecodeError>(tx@),
            Err(e) => row_transaction(cells(row@)) == Err::<TransactionView, _>(e),
        },
{
    if row.len() != TRANSACTION_COLUMNS {
        return Err(DecodeError::ColumnCount);
    }
    let ghost view = cells(row@);
    assert(forall|i: int| 0 <= i < 15 ==> view[i] == row@[i]@);
    let hash = match read_fixed::<32>(&row[0]) {
        Some(v) => v,
        None => {
            return Err(DecodeError::Malformed(0));
        },
    };
    let block_hash = match read_fixed::<32>(&row[1]) {
        Some(v) => v,
        None => {
            return Err(DecodeError::Malformed(1));
        },
    };
    let block_number = match read_u64(&row[2]) {
        Some(v) => v,
        None => {
            return Err(DecodeError::Malformed(2));
        },
    };
    let position = match read_u64(&row[3]) {
        Some(v) => v,
        None => {
            return Err(DecodeError::Malformed(3));
        },
    };
    let from = match read_fixed::<20>(&row[4]) {
        Some(v) => v,
        None => {
            return Err(DecodeError::Malformed(4));
        },
    };
    let tag = match read_i64(&row[5]) {
        Some(v) => v,
        None => {
            return Err(DecodeError::Malformed(5));
        },
    };
    let tx_type = match TxType::from_tag(tag) {
        Some(v) => v,
        None => {
            return Err(DecodeError::UnknownType(tag));
        },
    };
    let chain_id = match read_opt_u64(&row[6]) {
        Some(v) => v,
        None => {
            return Err(DecodeError::Malformed(6));
        },
    };
    if chain_id.is_none() && !is_legacy(tx_type) {
        return Err(DecodeError::Malformed(6));
    }
    let nonce = match read_u64(&row[7]) {
        Some(v) => v,
        None => {
            return Err(DecodeError::Malformed(7));
        },
    };
    let gas_price = if priced_by_gas_price(tx_type) {
        match read_fee(&row[8]) {
            Some(v) => Some(v),
            None => {
                return Err(DecodeError::Malformed(8));
            },
        }
    } else {
        None
    };
    let gas_limit = match read_u64(&row[9]) {
        Some(v) => v,
        None => {
            return Err(DecodeError::Malformed(9));
        },
    };
    let to = match read_opt_fixed::<20>(&row[10]) {
        Some(v) => v,
        None => {
            return Err(DecodeError::Malformed(10));
        },
    };
    if to.is_none() && must_name_recipient(tx_type) {
        return Err(DecodeError::Malformed(10));
    }
    let value = match read_amount(&row[11]) {
        Some(v) => v,
        None => {
            return Err(DecodeError::Malformed(11));
        },
    };
    let input = match read_blob(&row[12]) {
        Some(v) => v,
        None => {
            return Err(DecodeError::Malformed(12));
        },
    };
    let fees = if priced_by_gas_price(tx_type) {
        None
    } else {
        let max_fee_per_gas = match read_fee(&row[13]) {
            Some(v) => v,
            None => {
                return Err(DecodeError::Malformed(13));
            },
        };
        let max_priority_fee_per_gas = match read_fee(&row[14]) {
            Some(v) => v,
            None => {
                return Err(DecodeError::Malformed(14));
            },
        };
        Some((max_fee_per_gas, max_priority_fee_per_gas))
    };
    let payload = match tx_type {
        TxType::Legacy => TxPayload::Legacy { chain_id, gas_price: gas_price.unwrap(), to },
        TxType::AccessList => TxPayload::AccessList {
            chain_id: chain_id.unwrap(),
            gas_price: gas_price.unwrap(),
            to,
        },
        TxType::DynamicFee => TxPayload::DynamicFee {
            chain_id: chain_id.unwrap(),
            max_fee_per_gas: fees.unwrap().0,
            max_priority_fee_per_gas: fees.unwrap().1,
            to,
        },
        TxType::Blob => TxPayload::Blob {
            chain_id: chain_id.unwrap(),
            max_fee_per_gas: fees.unwrap().0,
            max_priority_fee_per_gas: fees.unwrap().1,
            to: to.unwrap(),
        },
        TxType::Delegation => TxPayload::Delegation {
            chain_id: chain_id.unwrap(),
            max_fee_per_gas: fees.unwrap().0,
            max_priority_fee_per_gas: fees.unwrap().1,
            to: to.unwrap(),
        },
    };
    let tx = Transaction {
        hash,
        from,
        nonce,
        gas_limit,
        value,
        input,
        block_hash: Some(block_hash),
        block_number: Some(block_number),
        position: Some(position),
        payload,
    };
    assert(tx@ == transaction_of_row(view));
    Ok(tx)
}

fn is_legacy(tx_type: TxType) -> (r: bool)
    ensures
        r == (tx_type == TxType::Legacy),
{
    match tx_type {
        TxType::Legacy => true,
        _ => false,
    }
}

fn must_name_recipient(tx_type: TxType) -> (r: bool)
    ensures
        r == tx_type.needs_recipient(),
{
    match tx_type {
        TxType::Blob => true,
        TxType::Delegation => true,
        _ => false,
    }
}

fn priced_by_gas_price(tx_type: TxType) -> (r: bool)
    ensures
        r == tx_type.has_gas_price(),
{
    match tx_type {
        TxType::Legacy => true,
        TxType::AccessList => true,
        _ => false,
    }
}

} // verus!

verus! {

/// Round trip of transactions: a transaction that has a row decodes from that
/// row to itself, in every format, with each optional field present or
/// absent exactly as it was.
pub proof fn lemma_transaction_round_trip(tx: TransactionView)
    requires
        tx.wf(),
    ensures
        transaction_row(tx) matches Ok(row) ==> row_transaction(row) == Ok::<_, DecodeError>(tx),
{
    lemma_cell_round_trip();
    if let Ok(row) = transaction_row(tx) {
        assert(cell_i64(row[5]) == Some(tx.tx_type.tag() as i64));
        assert(row_tx_type(row) == tx.tx_type);
        assert(cell_fixed(row[0], 32) == Some(tx.hash));
        assert(cell_fixed(row[1], 32) == Some(tx.block_hash.unwrap()));
        assert(cell_fixed(row[4], 20) == Some(tx.from));
        assert(cell_opt_fixed(row[10], 20) == Some(tx.to));
        assert(cell_opt_u64(row[6]) == Some(tx.chain_id));
        assert(transaction_row_fault(row) is None);
        assert(transaction_of_row(row) == tx);
    }
}

/// Round trip of transactions, stated of the values the library hands out.
pub proof fn lemma_transaction_round_trip_exec(tx: Transaction)
    ensures
        transaction_row(tx@) matches Ok(row) ==> row_transaction(row) == Ok::<_, DecodeError>(
            tx@,
        ),
{
    tx.lemma_view_wf();
    lemma_transaction_round_trip(tx@);
}

/// The number of columns of the `block_headers` table.
pub const HEADER_COLUMNS: usize = 23;

/// The values bound to the statement that inserts a header, column by
/// column after `inserted_at`, which the engine fills in:
/// `hash`, `number`, `parent_hash`, `ommers_hash`, `beneficiary`,
/// `state_root`, `transactions_root`, `receipts_root`, `logs_bloom`,
/// `difficulty`, `gas_limit`, `gas_used`, `timestamp`, `extra_data`,
/// `mix_hash`, `nonce`, `base_fee_per_gas`, `withdrawals_root`,
/// `blob_gas_used`, `excess_blob_gas`, `parent_beacon_block_root`,
/// `requests_hash`.
pub open spec fn header_params(h: HeaderView) -> Result<Seq<SqlValueView>, WriteError> {
    if !fits_integer(h.number) || !fits_integer(h.gas_limit) || !fits_integer(h.gas_used)
        || !fits_integer(h.timestamp) || !opt_fits_integer(h.base_fee_per_gas)
        || !opt_fits_integer(h.blob_gas_used) || !opt_fits_integer(h.excess_blob_gas) {
        Err(WriteError::IntegerOutOfRange)
    } else {
        Ok(
            seq![
                fixed_cell(h.hash),
                integer_cell(h.number),
                fixed_cell(h.parent_hash),
                fixed_cell(h.ommers_hash),
                fixed_cell(h.beneficiary),
                fixed_cell(h.state_root),
                fixed_cell(h.transactions_root),
                fixed_cell(h.receipts_root),
                fixed_cell(h.logs_bloom),
                amount_cell(h.difficulty),
                integer_cell(h.gas_limit),
                integer_cell(h.gas_used),
                integer_cell(h.timestamp),
                SqlValueView::Blob(h.extra_data),
                fixed_cell(h.mix_hash),
                fixed_cell(h.nonce),
                opt_integer_cell(h.base_fee_per_gas),
                opt_fixed_cell(h.withdrawals_root),
                opt_integer_cell(h.blob_gas_used),
                opt_integer_cell(h.excess_blob_gas),
                opt_fixed_cell(h.parent_beacon_block_root),
                opt_fixed_cell(h.requests_hash),
            ],
        )
    }
}

/// The stored row of a header: its insertion marker, then its columns.
pub open spec fn stored_header_row(marker: i64, params: Seq<SqlValueView>) -> Seq<SqlValueView> {
    seq![SqlValueView::Integer(marker)] + params
}

/// What is wrong with a row of the `block_headers` table: the first column,
/// in column order, that its field cannot accept. `None` for a row that
/// holds a header.
pub open spec fn header_row_fault(row: Seq<SqlValueView>) -> Option<DecodeError> {
    if row.len() != 23 {
        Some(DecodeError::ColumnCount)
    } else if cell_i64(row[0]) is None {
        Some(DecodeError::Malformed(0))
    } else if cell_fixed(row[1], 32) is None {
        Some(DecodeError::Malformed(1))
    } else if cell_u64(row[2]) is None {
        Some(DecodeError::Malformed(2))
    } else if cell_fixed(row[3], 32) is None {
        Some(DecodeError::Malformed(3))
    } else if cell_fixed(row[4], 32) is None {
        Some(DecodeError::Malformed(4))
    } else if cell_fixed(row[5], 20) is None {
        Some(DecodeError::Malformed(5))
    } else if cell_fixed(row[6], 32) is None {
        Some(DecodeError::Malformed(6))
    } else if cell_fixed(row[7], 32) is None {
        Some(DecodeError::Malformed(7))
    } else if cell_fixed(row[8], 32) is None {
        Some(DecodeError::Malformed(8))
    } else if cell_fixed(row[9], 256) is None {
        Some(DecodeError::Malformed(9))
    } else if cell_amount(row[10]) is None {
        Some(DecodeError::Malformed(10))
    } else if cell_u64(row[11]) is None {
        Some(DecodeError::Malformed(11))
    } else if cell_u64(row[12]) is None {
        Some(DecodeError::Malformed(12))
    } else if cell_u64(row[13]) is None {
        Some(DecodeError::Malformed(13))
    } else if cell_blob(row[14]) is None {
        Some(DecodeError::Malformed(14))
    } else if cell_fixed(row[15], 32) is None {
        Some(DecodeError::Malformed(15))
    } else if cell_fixed(row[16], 8) is None {
        Some(DecodeError::Malformed(16))
    } else if cell_opt_u64(row[17]) is None {
        Some(DecodeError::Malformed(17))
    } else if cell_opt_fixed(row[18], 32) is None {
        Some(DecodeError::Malformed(18))
    } else if cell_opt_u64(row[19]) is None {
        Some(DecodeError::Malformed(19))
    } else if cell_opt_u64(row[20]) is None {
        Some(DecodeError::Malformed(20))
    } else if cell_opt_fixed(row[21], 32) is None {
        Some(DecodeError::Malformed(21))
    } else if cell_opt_fixed(row[22], 32) is None {
        Some(DecodeError::Malformed(22))
    } else {
        None
    }
}

/// The header that a faultless row holds.
pub open spec fn header_of_row(row: Seq<SqlValueView>) -> HeaderView {
    HeaderView {
        hash: cell_fixed(row[1], 32).unwrap(),
        number: cell_u64(row[2]).unwrap(),
        parent_hash: cell_fixed(row[3], 32).unwrap(),
        ommers_hash: cell_fixed(row[4], 32).unwrap(),
        beneficiary: cell_fixed(row[5], 20).unwrap(),
        state_root: cell_fixed(row[6], 32).unwrap(),
        transactions_root: cell_fixed(row[7], 32).unwrap(),
        receipts_root: cell_fixed(row[8], 32).unwrap(),
        logs_bloom: cell_fixed(row[9], 256).unwrap(),
        difficulty: cell_amount(row[10]).unwrap(),
        gas_limit: cell_u64(row[11]).unwrap(),
        gas_used: cell_u64(row[12]).unwrap(),
        timestamp: cell_u64(row[13]).unwrap(),
        extra_data: cell_blob(row[14]).unwrap(),
        mix_hash: cell_fixed(row[15], 32).unwrap(),
        nonce: cell_fixed(row[16], 8).unwrap(),
        base_fee_per_gas: cell_opt_u64(row[17]).unwrap(),
        withdrawals_root: cell_opt_fixed(row[18], 32).unwrap(),
        blob_gas_used: cell_opt_u64(row[19]).unwrap(),
        excess_blob_gas: cell_opt_u64(row[20]).unwrap(),
        parent_beacon_block_root: cell_opt_fixed(row[21], 32).unwrap(),
        requests_hash: cell_opt_fixed(row[22], 32).unwrap(),
    }
}

/// What a row of the `block_headers` table decodes to.
pub open spec fn row_header(row: Seq<SqlValueView>) -> Result<HeaderView, DecodeError> {
    match header_row_fault(row) {
        Some(fault) => Err(fault),
        None => Ok(header_of_row(row)),
    }
}

/// The insertion marker of a faultless row of the `block_headers` table.
pub open spec fn row_marker(row: Seq<SqlValueView>) -> i64 {
    cell_i64(row[0]).unwrap()
}

/// Encodes a header as the values bound to the statement that inserts it.
pub fn encode_header(header: &Header) -> (r: Result<Vec<SqlValue>, WriteError>)
    ensures
        match r {
            Ok(params) => header_params(header@) == Ok::<_, WriteError>(cells(params@)),
            Err(e) => header_params(header@) == Err::<Seq<SqlValueView>, _>(e),
        },
{
    let (number, gas_limit, gas_used, timestamp, base_fee, blob_gas, excess) = match (
        write_u64(header.number),
        write_u64(header.gas_limit),
        write_u64(header.gas_used),
        write_u64(header.timestamp),
        write_opt_u64(header.base_fee_per_gas),
        write_opt_u64(header.blob_gas_used),
        write_opt_u64(header.excess_blob_gas),
    ) {
        (Some(a), Some(b), Some(c), Some(d), Some(e), Some(f), Some(g)) => (a, b, c, d, e, f, g),
        _ => {
            return Err(WriteError::IntegerOutOfRange);
        },
    };
    let mut params: Vec<SqlValue> = Vec::new();
    params.push(write_fixed(&header.hash));
    params.push(number);
    params.push(write_fixed(&header.parent_hash));
    params.push(write_fixed(&header.ommers_hash));
    params.push(write_fixed(&header.beneficiary));
    params.push(write_fixed(&header.state_root));
    params.push(write_fixed(&header.transactions_root));
    params.push(write_fixed(&header.receipts_root));
    params.push(write_fixed(&header.logs_bloom));
    params.push(write_amount(&header.difficulty));
    params.push(gas_limit);
    params.push(gas_used);
    params.push(timestamp);
    params.push(write_blob(header.extra_data.as_slice()));
    params.push(write_fixed(&header.mix_hash));
    params.push(write_fixed(&header.nonce));
    params.push(base_fee);
    params.push(write_opt_fixed(&header.withdrawals_root));
    params.push(blob_gas);
    params.push(excess);
    params.push(write_opt_fixed(&header.parent_beacon_block_root));
    params.push(write_opt_fixed(&header.requests_hash));
    assert(cells(params@) =~= header_params(header@).unwrap());
    Ok(params)
}

/// Decodes a row of the `block_headers` table.
pub fn row_to_header(row: &Vec<SqlValue>) -> (r: Result<Header, DecodeError>)
    ensures
        match r {
            Ok(header) => row_header(cells(row@)) == Ok::<_, DecodeError>(header@),
            Err(e) => row_header(cells(row@)) == Err::<HeaderView, _>(e),
        },
{
    if row.len() != HEADER_COLUMNS {
        return Err(DecodeError::ColumnCount);
    }
    let ghost view = cells(row@);
    assert(forall|i: int| 0 <= i < 23 ==> view[i] == row@[i]@);
    if read_i64(&row[0]).is_none() {
        return Err(DecodeError::Malformed(0));
    }
    let hash = match read_fixed::<32>(&row[1]) {
        Some(v) => v,
        None => {
            return Err(DecodeError::Malformed(1));
        },
    };
    let number = match read_u64(&row[2]) {
        Some(v) => v,
        None => {
            return Err(DecodeError::Malformed(2));
        },
    };
    let parent_hash = match read_fixed::<32>(&row[3]) {
        Some(v) => v,
        None => {
            return Err(DecodeError::Malformed(3));
        },
    };
    let ommers_hash = match read_fixed::<32>(&row[4]) {
        Some(v) => v,
        None => {
            return Err(DecodeError::Malformed(4));
        },
    };
    let beneficiary = match read_fixed::<20>(&row[5]) {
        Some(v) => v,
        None => {
            return Err(DecodeError::Malformed(5));
        },
    };
    let state_root = match read_fixed::<32>(&row[6]) {
        Some(v) => v,
        None => {
            return Err(DecodeError::Malformed(6));
        },
    };
    let transactions_root = match read_fixed::<32>(&row[7]) {
        Some(v) => v,
        None => {
            return Err(DecodeError::Malformed(7));
        },
    };
    let receipts_root = match read_fixed::<32>(&row[8]) {
        Some(v) => v,
        None => {
            return Err(DecodeError::Malformed(8));
        },
    };
    let logs_bloom = match read_fixed::<256>(&row[9]) {
        Some(v) => v,
        None => {
            return Err(DecodeError::Malformed(9));
        },
    };
    let difficulty = match read_amount(&row[10]) {
        Some(v) => v,
        None => {
            return Err(DecodeError::Malformed(10));
        },
    };
    let gas_limit = match read_u64(&row[11]) {
        Some(v) => v,
        None => {
            return Err(DecodeError::Malformed(11));
        },
    };
    let gas_used = match read_u64(&row[12]) {
        Some(v) => v,
        None => {
            return Err(DecodeError::Malformed(12));
        },
    };
    let timestamp = match read_u64(&row[13]) {
        Some(v) => v,
        None => {
            return Err(DecodeError::Malformed(13));
        },
    };
    let extra_data = match read_blob(&row[14]) {
        Some(v) => v,
        None => {
            return Err(DecodeError::Malformed(14));
        },
    };
    let mix_hash = match read_fixed::<32>(&row[15]) {
        Some(v) => v,
        None => {
            return Err(DecodeError::Malformed(15));
        },
    };
    let nonce = match read_fixed::<8>(&row[16]) {
        Some(v) => v,
        None => {
            return Err(DecodeError::Malformed(16));
        },
    };
    let base_fee_per_gas = match read_opt_u64(&row[17]) {
        Some(v) => v,
        None => {
            return Err(DecodeError::Malformed(17));
        },
    };
    let withdrawals_root = match read_opt_fixed::<32>(&row[18]) {
        Some(v) => v,
        None => {
            return Err(DecodeError::Malformed(18));
        },
    };
    let blob_gas_used = match read_opt_u64(&row[19]) {
        Some(v) => v,
        None => {
            return Err(DecodeError::Malformed(19));
        },
    };
    let excess_blob_gas = match read_opt_u64(&row[20]) {
        Some(v) => v,
        None => {
            return Err(DecodeError::Malformed(20));
        },
    };
    let parent_beacon_block_root = match read_opt_fixed::<32>(&row[21]) {
        Some(v) => v,
        None => {
            return Err(DecodeError::Malformed(21));
        },
    };
    let requests_hash = match read_opt_fixed::<32>(&row[22]) {
        Some(v) => v,
        None => {
            return Err(DecodeError::Malformed(22));
        },
    };
    let header = Header {
        hash,
        number,
        parent_hash,
        ommers_hash,
        beneficiary,
        state_root,
        transactions_root,
        receipts_root,
        logs_bloom,
        difficulty,
        gas_limit,
        gas_used,
        timestamp,
        extra_data,
        mix_hash,
        nonce,
        base_fee_per_gas,
        withdrawals_root,
        blob_gas_used,
        excess_blob_gas,
        parent_beacon_block_root,
        requests_hash,
    };
    assert(header@ == header_of_row(view));
    Ok(header)
}

/// Reads the insertion marker of a row of the `block_headers` table.
pub fn row_to_marker(row: &Vec<SqlValue>) -> (r: Option<i64>)
    ensures
        r is Some <==> row@.len() > 0 && cell_i64(cells(row@)[0]) is Some,
        r matches Some(m) ==> m == row_marker(cells(row@)),
{
    if row.len() == 0 {
        return None;
    }
    assert(cells(row@)[0] == row@[0]@);
    read_i64(&row[0])
}

/// Round trip of headers: a header that can be written decodes, from the row
/// stored for it under any insertion marker, to itself, with each optional
/// field present or absent exactly as it was.
pub proof fn lemma_header_round_trip(h: HeaderView, marker: i64)
    requires
        h.wf(),
    ensures
        header_params(h) matches Ok(params) ==> row_header(stored_header_row(marker, params))
            == Ok::<_, DecodeError>(h) && row_marker(stored_header_row(marker, params)) == marker,
{
    lemma_cell_round_trip();
    if let Ok(params) = header_params(h) {
        let row = stored_header_row(marker, params);
        assert(row.len() == 23);
        assert(forall|i: int| 0 <= i < 22 ==> row[i + 1] == params[i]);
        assert(cell_fixed(row[1], 32) == Some(h.hash));
        assert(cell_fixed(row[3], 32) == Some(h.parent_hash));
        assert(cell_fixed(row[4], 32) == Some(h.ommers_hash));
        assert(cell_fixed(row[5], 20) == Some(h.beneficiary));
        assert(cell_fixed(row[6], 32) == Some(h.state_root));
        assert(cell_fixed(row[7], 32) == Some(h.transactions_root));
        assert(cell_fixed(row[8], 32) == Some(h.receipts_root));
        assert(cell_fixed(row[9], 256) == Some(h.logs_bloom));
        assert(cell_fixed(row[15], 32) == Some(h.mix_hash));
        assert(cell_fixed(row[16], 8) == Some(h.nonce));
        assert(cell_opt_fixed(row[18], 32) == Some(h.withdrawals_root));
        assert(cell_opt_fixed(row[21], 32) == Some(h.parent_beacon_block_root));
        assert(cell_opt_fixed(row[22], 32) == Some(h.requests_hash));
        assert(header_row_fault(row) is None);
        assert(header_of_row(row) == h);
    }
}

/// Round trip of headers, stated of the values the library hands out.
pub proof fn lemma_header_round_trip_exec(header: Header, marker: i64)
    ensures
        header_params(header@) matches Ok(params) ==> row_header(
            stored_header_row(marker, params),
        ) == Ok::<_, DecodeError>(header@),
{
    header.lemma_view_wf();
    lemma_header_round_trip(header@, marker);
}

} // verus!
