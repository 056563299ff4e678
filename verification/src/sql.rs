//! The values that cross the boundary to the relational engine, and how the
//! columns of the schema read and write them.
use crate::decimal::decimal_text;
use crate::hex::hex_text;
use crate::primitives::{parse_amount, parse_fixed, FixedBytes, U256};
use vstd::prelude::*;

verus! {

/// A value bound to a statement or found in a column of a result row.
#[derive(Clone, Debug, PartialEq, Eq)]
pub enum SqlValue {
    /// The explicit "not present" marker.
    Null,
    /// A signed 64-bit integer.
    Integer(i64),
    /// A text.
    Text(String),
    /// A binary blob.
    Blob(Vec<u8>),
    /// A floating-point number. No column of the schema holds one, so every
    /// reader rejects it.
    Real,
}

/// A column value as a mathematical value.
pub enum SqlValueView {
    Null,
    Integer(i64),
    Text(Seq<char>),
    Blob(Seq<u8>),
    Real,
}

impl View for SqlValue {
    type V = SqlValueView;

    open spec fn view(&self) -> SqlValueView {
        match self {
            SqlValue::Null => SqlValueView::Null,
            SqlValue::Integer(v) => SqlValueView::Integer(*v),
            SqlValue::Text(t) => SqlValueView::Text(t@),
            SqlValue::Blob(b) => SqlValueView::Blob(b@),
            SqlValue::Real => SqlValueView::Real,
        }
    }
}

/// The views of the values of a row, in column order.
pub open spec fn cells(row: Seq<SqlValue>) -> Seq<SqlValueView> {
    row.map_values(|v: SqlValue| v@)
}

/// The views of the rows of a result, in order.
pub open spec fn table(rows: Seq<Vec<SqlValue>>) -> Seq<Seq<SqlValueView>> {
    rows.map_values(|r: Vec<SqlValue>| cells(r@))
}

/// Why a block or a transaction cannot be written.
#[derive(Clone, Copy, Debug, PartialEq, Eq, Structural)]
pub enum WriteError {
    /// The transaction does not say which block it belongs to, or where.
    MissingBlockInfo,
    /// A 64-bit field exceeds what an integer column holds.
    IntegerOutOfRange,
    /// A transaction of the block names another block as its own.
    BlockMismatch,
}

/// Why a stored row cannot be read.
#[derive(Clone, Copy, Debug, PartialEq, Eq, Structural)]
pub enum DecodeError {
    /// The row does not have the columns of its table.
    ColumnCount,
    /// The column with this index holds a value that its field cannot have.
    Malformed(usize),
    /// The type tag is none of the five known ones.
    UnknownType(i64),
}

/// The unsigned number in an integer column.
pub open spec fn cell_u64(cell: SqlValueView) -> Option<u64> {
    match cell {
        SqlValueView::Integer(v) => if v >= 0 {
            Some(v as u64)
        } else {
            None
        },
        _ => None,
    }
}

/// The unsigned number in a nullable integer column.
pub open spec fn cell_opt_u64(cell: SqlValueView) -> Option<Option<u64>> {
    match cell {
        SqlValueView::Null => Some(None),
        _ => match cell_u64(cell) {
            Some(v) => Some(Some(v)),
            None => None,
        },
    }
}

/// The signed number in an integer column.
pub open spec fn cell_i64(cell: SqlValueView) -> Option<i64> {
    match cell {
        SqlValueView::Integer(v) => Some(v),
        _ => None,
    }
}

/// The `n` bytes spelled by a text column.
pub open spec fn cell_fixed(cell: SqlValueView, n: nat) -> Option<Seq<u8>> {
    match cell {
        SqlValueView::Text(t) => parse_fixed(t, n),
        _ => None,
    }
}

/// The `n` bytes spelled by a nullable text column.
pub open spec fn cell_opt_fixed(cell: SqlValueView, n: nat) -> Option<Option<Seq<u8>>> {
    match cell {
        SqlValueView::Null => Some(None),
        _ => match cell_fixed(cell, n) {
            Some(b) => Some(Some(b)),
            None => None,
        },
    }
}

/// The 256-bit amount spelled in decimal by a text column.
pub open spec fn cell_amount(cell: SqlValueView) -> Option<nat> {
    match cell {
        SqlValueView::Text(t) => parse_amount(t),
        _ => None,
    }
}

/// The 128-bit fee spelled in decimal by a text column.
pub open spec fn cell_fee(cell: SqlValueView) -> Option<u128> {
    match cell_amount(cell) {
        Some(v) => if v <= u128::MAX {
            Some(v as u128)
        } else {
            None
        },
        None => None,
    }
}

/// The bytes of a blob column.
pub open spec fn cell_blob(cell: SqlValueView) -> Option<Seq<u8>> {
    match cell {
        SqlValueView::Blob(b) => Some(b),
        _ => None,
    }
}

/// Whether an unsigned number fits in an integer column.
pub open spec fn fits_integer(v: u64) -> bool {
    v <= i64::MAX
}

/// Whether an optional unsigned number fits in an integer column.
pub open spec fn opt_fits_integer(v: Option<u64>) -> bool {
    v matches Some(x) ==> fits_integer(x)
}

/// The integer column that holds an unsigned number.
pub open spec fn integer_cell(v: u64) -> SqlValueView {
    SqlValueView::Integer(v as i64)
}

/// The nullable integer column that holds an optional unsigned number.
pub open spec fn opt_integer_cell(v: Option<u64>) -> SqlValueView {
    match v {
        Some(x) => integer_cell(x),
        None => SqlValueView::Null,
    }
}

/// The text column that holds a byte string in canonical hexadecimal.
pub open spec fn fixed_cell(bytes: Seq<u8>) -> SqlValueView {
    SqlValueView::Text(hex_text(bytes))
}

/// The nullable text column that holds an optional byte string.
pub open spec fn opt_fixed_cell(bytes: Option<Seq<u8>>) -> SqlValueView {
    match bytes {
        Some(b) => fixed_cell(b),
        None => SqlValueView::Null,
    }
}

/// The text column that holds an amount in decimal.
pub open spec fn amount_cell(v: nat) -> SqlValueView {
    SqlValueView::Text(decimal_text(v))
}

/// The nullable text column that holds an optional fee in decimal.
pub open spec fn opt_fee_cell(v: Option<u128>) -> SqlValueView {
    match v {
        Some(x) => amount_cell(x as nat),
        None => SqlValueView::Null,
    }
}

/// Reads an unsigned number from an integer column.
pub fn read_u64(cell: &SqlValue) -> (r: Option<u64>)
    ensures
        r == cell_u64(cell@),
{
    match cell {
        SqlValue::Integer(v) => if *v >= 0 {
            Some(*v as u64)
        } else {
            None
        },
        _ => None,
    }
}

/// Reads an unsigned number from a nullable integer column.
pub fn read_opt_u64(cell: &SqlValue) -> (r: Option<Option<u64>>)
    ensures
        r == cell_opt_u64(cell@),
{
    match cell {
        SqlValue::Null => Some(None),
        _ => match read_u64(cell) {
            Some(v) => Some(Some(v)),
            None => None,
        },
    }
}

/// Reads a signed number from an integer column.
pub fn read_i64(cell: &SqlValue) -> (r: Option<i64>)
    ensures
        r == cell_i64(cell@),
{
    match cell {
        SqlValue::Integer(v) => Some(*v),
        _ => None,
    }
}

/// Reads a byte string of `N` bytes from a text column.
pub fn read_fixed<const N: usize>(cell: &SqlValue) -> (r: Option<FixedBytes<N>>)
    ensures
        r is Some <==> cell_fixed(cell@, N as nat) is Some,
        r matches Some(b) ==> Some(b@) == cell_fixed(cell@, N as nat),
{
    match cell {
        SqlValue::Text(t) => FixedBytes::<N>::from_hex(t.as_str()),
        _ => None,
    }
}

/// Reads a byte string of `N` bytes from a nullable text column.
pub fn read_opt_fixed<const N: usize>(cell: &SqlValue) -> (r: Option<Option<FixedBytes<N>>>)
    ensures
        r is Some <==> cell_opt_fixed(cell@, N as nat) is Some,
        r matches Some(b) ==> Some(crate::model::opt_bytes(b)) == cell_opt_fixed(
            cell@,
            N as nat,
        ),
{
    match cell {
        SqlValue::Null => Some(None),
        _ => match read_fixed::<N>(cell) {
            Some(b) => Some(Some(b)),
            None => None,
        },
    }
}

/// Reads a 256-bit amount from a decimal text column.
pub fn read_amount(cell: &SqlValue) -> (r: Option<U256>)
    ensures
        r is Some <==> cell_amount(cell@) is Some,
        r matches Some(v) ==> Some(v@) == cell_amount(cell@),
{
    match cell {
        SqlValue::Text(t) => U256::from_decimal(t.as_str()),
        _ => None,
    }
}

/// Reads a 128-bit fee from a decimal text column.
pub fn read_fee(cell: &SqlValue) -> (r: Option<u128>)
    ensures
        r == cell_fee(cell@),
{
    match read_amount(cell) {
        Some(v) => v.to_u128(),
        None => None,
    }
}

/// Reads the bytes of a blob column.
pub fn read_blob(cell: &SqlValue) -> (r: Option<Vec<u8>>)
    ensures
        r is Some <==> cell_blob(cell@) is Some,
        r matches Some(b) ==> Some(b@) == cell_blob(cell@),
{
    match cell {
        SqlValue::Blob(b) => Some(copy_bytes(b.as_slice())),
        _ => None,
    }
}

/// A fresh vector with the bytes of a slice.
pub fn copy_bytes(source: &[u8]) -> (r: Vec<u8>)
    ensures
        r@ == source@,
{
    let mut out: Vec<u8> = Vec::new();
    let mut i: usize = 0;
    while i < source.len()
        invariant
            i <= source@.len(),
            out@ == source@.take(i as int),
        decreases source@.len() - i,
    {
        out.push(source[i]);
        assert(out@ =~= source@.take(i + 1));
        i = i + 1;
    }
    assert(source@.take(source@.len() as int) =~= source@);
    out
}

/// The integer column for an unsigned number; `None` where it does not fit.
pub fn write_u64(v: u64) -> (r: Option<SqlValue>)
    ensures
        r is Some <==> fits_integer(v),
        r matches Some(cell) ==> cell@ == integer_cell(v),
{
    if v <= 0x7fff_ffff_ffff_ffff {
        Some(SqlValue::Integer(v as i64))
    } else {
        None
    }
}

/// The nullable integer column for an optional unsigned number; `None` where
/// the number does not fit.
pub fn write_opt_u64(v: Option<u64>) -> (r: Option<SqlValue>)
    ensures
        r is Some <==> opt_fits_integer(v),
        r matches Some(cell) ==> cell@ == opt_integer_cell(v),
{
    match v {
        Some(x) => write_u64(x),
        None => Some(SqlValue::Null),
    }
}

/// The text column for a byte string.
pub fn write_fixed<const N: usize>(bytes: &FixedBytes<N>) -> (cell: SqlValue)
    ensures
        cell@ == fixed_cell(bytes@),
{
    SqlValue::Text(bytes.to_hex())
}

/// The nullable text column for an optional byte string.
pub fn write_opt_fixed<const N: usize>(bytes: &Option<FixedBytes<N>>) -> (cell: SqlValue)
    ensures
        cell@ == opt_fixed_cell(crate::model::opt_bytes(*bytes)),
{
    match bytes {
        Some(b) => write_fixed(b),
        None => SqlValue::Null,
    }
}

/// The text column for an amount.
pub fn write_amount(v: &U256) -> (cell: SqlValue)
    ensures
        cell@ == amount_cell(v@),
{
    SqlValue::Text(v.to_decimal())
}

/// The nullable text column for an optional fee.
pub fn write_opt_fee(v: Option<u128>) -> (cell: SqlValue)
    ensures
        cell@ == opt_fee_cell(v),
{
    match v {
        Some(x) => write_amount(&U256::from_u128(x)),
        None => SqlValue::Null,
    }
}

/// The blob column for a byte string.
pub fn write_blob(bytes: &[u8]) -> (cell: SqlValue)
    ensures
        cell@ == SqlValueView::Blob(bytes@),
{
    SqlValue::Blob(copy_bytes(bytes))
}

} // verus!

verus! {

/// Every writer of a column is undone by the reader of that column.
pub proof fn lemma_cell_round_trip()
    ensures
        forall|v: u64| fits_integer(v) ==> #[trigger] cell_u64(integer_cell(v)) == Some(v),
        forall|v: u64|
            fits_integer(v) ==> #[trigger] cell_i64(integer_cell(v)) == Some(v as i64),
        forall|v: Option<u64>|
            opt_fits_integer(v) ==> #[trigger] cell_opt_u64(opt_integer_cell(v)) == Some(v),
        forall|b: Seq<u8>| #[trigger] cell_fixed(fixed_cell(b), b.len()) == Some(b),
        forall|b: Option<Seq<u8>>, n: nat|
            (b matches Some(s) ==> s.len() == n) ==> #[trigger] cell_opt_fixed(
                opt_fixed_cell(b),
                n,
            ) == Some(b),
        forall|v: nat|
            v < crate::primitives::amount_limit() ==> #[trigger] cell_amount(amount_cell(v))
                == Some(v),
        forall|v: u128| #[trigger] cell_fee(amount_cell(v as nat)) == Some(v),
{
    assert forall|b: Seq<u8>| #[trigger] cell_fixed(fixed_cell(b), b.len()) == Some(b) by {
        crate::hex::lemma_hex_round_trip(b);
    }
    assert forall|b: Option<Seq<u8>>, n: nat|
        (b matches Some(s) ==> s.len() == n) implies #[trigger] cell_opt_fixed(
        opt_fixed_cell(b),
        n,
    ) == Some(b) by {
        if let Some(s) = b {
            crate::hex::lemma_hex_round_trip(s);
        }
    }
    assert forall|v: nat| v < crate::primitives::amount_limit() implies #[trigger] cell_amount(
        amount_cell(v),
    ) == Some(v) by {
        crate::decimal::lemma_decimal_round_trip(v);
    }
    assert forall|v: u128| #[trigger] cell_fee(amount_cell(v as nat)) == Some(v) by {
        crate::decimal::lemma_decimal_round_trip(v as nat);
        crate::primitives::lemma_fee_below_limit();
    }
}

} // verus!
