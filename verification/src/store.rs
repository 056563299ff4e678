//! The persisted store: its schema, the statements that write and query it,
//! and the reading of what the queries return.
//!
//! The relational engine itself runs outside this library. Everything here
//! is a function from values to values: a caller executes the statements it
//! is given and hands back the rows it got.
use crate::codec::{
    encode_header, encode_transaction, header_params, row_header, row_marker, row_to_header,
    row_to_transaction, row_transaction, transaction_row,
};
use crate::model::{
    opt_bytes, transaction_views, Block, BlockId, BlockView, Header, HeaderView, Transaction,
    TransactionView,
};
use crate::primitives::{BlockHash, TxHash};
use crate::sql::{
    cell_fixed, cell_i64, cells, fits_integer, fixed_cell, integer_cell, read_fixed, table,
    write_fixed, write_u64, DecodeError, SqlValue, SqlValueView, WriteError,
};
use std::path::PathBuf;
use vstd::prelude::*;

verus! {

/// A filesystem path, kept as the standard library has it.
#[verifier::external_type_specification]
#[verifier::external_body]
pub struct ExPathBuf(PathBuf);

/// Cloning a path gives an equal path.
pub assume_specification[ <PathBuf as Clone>::clone ](path: &PathBuf) -> (r: PathBuf)
    ensures
        r == *path,
;

/// How long a caller waits for a pooled connection, in milliseconds, before
/// the attempt fails.
pub const CONN_GET_TIMEOUT_MILLIS: u64 = 1_000;

/// How long a pooled connection may sit idle, in milliseconds.
pub const CONN_IDLE_TIMEOUT_MILLIS: u64 = 1_000;

/// Where a store keeps its data.
#[derive(Clone, Debug, PartialEq, Eq)]
pub enum Location {
    /// On disk, at the given path.
    Disk(PathBuf),
    /// In memory: all data is lost when the process ends.
    Memory,
}

impl Default for Location {
    fn default() -> (r: Self)
        ensures
            r is Memory,
    {
        Location::Memory
    }
}

/// Creates the table of block headers unless it exists.
pub const CREATE_BLOCK_HEADERS: &'static str =
    "CREATE TABLE IF NOT EXISTS block_headers (\
    inserted_at INTEGER NOT NULL, \
    hash TEXT NOT NULL, \
    number INTEGER NOT NULL, \
    parent_hash TEXT NOT NULL, \
    ommers_hash TEXT NOT NULL, \
    beneficiary TEXT NOT NULL, \
    state_root TEXT NOT NULL, \
    transactions_root TEXT NOT NULL, \
    receipts_root TEXT NOT NULL, \
    logs_bloom TEXT NOT NULL, \
    difficulty TEXT NOT NULL, \
    gas_limit INTEGER NOT NULL, \
    gas_used INTEGER NOT NULL, \
    timestamp INTEGER NOT NULL, \
    extra_data BLOB NOT NULL, \
    mix_hash TEXT NOT NULL, \
    nonce TEXT NOT NULL, \
    base_fee_per_gas INTEGER, \
    withdrawals_root TEXT, \
    blob_gas_used INTEGER, \
    excess_blob_gas INTEGER, \
    parent_beacon_block_root TEXT, \
    requests_hash TEXT)";

/// Creates the table of transactions unless it exists.
pub const CREATE_TRANSACTIONS: &'static str =
    "CREATE TABLE IF NOT EXISTS transactions (\
    hash TEXT NOT NULL, \
    block_hash TEXT NOT NULL, \
    block_number INTEGER NOT NULL, \
    position INTEGER NOT NULL, \
    from_address TEXT NOT NULL, \
    type INTEGER NOT NULL, \
    chain_id INTEGER, \
    nonce INTEGER NOT NULL, \
    gas_price TEXT, \
    gas_limit INTEGER NOT NULL, \
    to_address TEXT, \
    value TEXT NOT NULL, \
    input BLOB NOT NULL, \
    max_fee_per_gas TEXT, \
    max_priority_fee_per_gas TEXT)";

/// Inserts one header. The engine stamps the row with its own clock: the
/// insertion marker is the time of writing, not the block's timestamp.
pub const INSERT_BLOCK_HEADER: &'static str =
    "INSERT INTO block_headers (\
    inserted_at, hash, number, parent_hash, ommers_hash, beneficiary, state_root, \
    transactions_root, receipts_root, logs_bloom, difficulty, gas_limit, gas_used, \
    timestamp, extra_data, mix_hash, nonce, base_fee_per_gas, withdrawals_root, \
    blob_gas_used, excess_blob_gas, parent_beacon_block_root, requests_hash) \
    VALUES (CAST(strftime('%s', 'now') AS INTEGER), \
    ?1, ?2, ?3, ?4, ?5, ?6, ?7, ?8, ?9, ?10, ?11, ?12, ?13, ?14, ?15, ?16, ?17, ?18, \
    ?19, ?20, ?21, ?22)";

/// Inserts one transaction.
pub const INSERT_TRANSACTION: &'static str =
    "INSERT INTO transactions (\
    hash, block_hash, block_number, position, from_address, type, chain_id, nonce, \
    gas_price, gas_limit, to_address, value, input, max_fee_per_gas, \
    max_priority_fee_per_gas) \
    VALUES (?1, ?2, ?3, ?4, ?5, ?6, ?7, ?8, ?9, ?10, ?11, ?12, ?13, ?14, ?15)";

/// Selects the headers by recency of insertion, the most recent first. Rows
/// stamped within the same second rank by the order in which they were
/// written.
pub const SELECT_LATEST_HEADER: &'static str =
    "SELECT * FROM block_headers ORDER BY inserted_at DESC, rowid DESC LIMIT 1";

/// Selects the headers with a given hash, the most recently inserted first.
pub const SELECT_HEADER_BY_HASH: &'static str =
    "SELECT * FROM block_headers WHERE hash = ?1 ORDER BY inserted_at DESC, rowid DESC LIMIT 1";

/// Selects the headers with a given number, the most recently inserted first.
pub const SELECT_HEADER_BY_NUMBER: &'static str =
    "SELECT * FROM block_headers WHERE number = ?1 ORDER BY inserted_at DESC, rowid DESC LIMIT 1";

/// Selects the transaction with a given hash.
pub const SELECT_TRANSACTION: &'static str = "SELECT * FROM transactions WHERE hash = ?1 LIMIT 1";

/// Selects the transactions of the block with a given hash, by position.
pub const SELECT_TRANSACTIONS_BY_BLOCK: &'static str =
    "SELECT * FROM transactions WHERE block_hash = ?1 ORDER BY position ASC";

/// Selects the hash of every stored header.
pub const SELECT_ALL_BLOCK_HASHES: &'static str = "SELECT DISTINCT hash FROM block_headers";

/// A statement for the engine: its text and the values bound to its
/// numbered parameters, in order.
#[derive(Clone, Debug, PartialEq, Eq)]
pub struct Statement {
    pub sql: String,
    pub params: Vec<SqlValue>,
}

/// A statement as a mathematical value.
pub struct StatementView {
    pub sql: Seq<char>,
    pub params: Seq<SqlValueView>,
}

impl View for Statement {
    type V = StatementView;

    open spec fn view(&self) -> StatementView {
        StatementView { sql: self.sql@, params: cells(self.params@) }
    }
}

/// The views of a run of statements, in order.
pub open spec fn statement_views(statements: Seq<Statement>) -> Seq<StatementView> {
    statements.map_values(|s: Statement| s@)
}

fn statement(sql: &str, params: Vec<SqlValue>) -> (r: Statement)
    ensures
        r@ == (StatementView { sql: sql@, params: cells(params@) }),
{
    Statement { sql: sql.to_owned(), params }
}

/// The statements that set up the schema. Each creates its table only where
/// the table does not exist yet, so running them against a store that is
/// already set up changes nothing.
pub fn schema_statements() -> (r: Vec<Statement>)
    ensures
        statement_views(r@) == seq![
            StatementView { sql: CREATE_BLOCK_HEADERS@, params: Seq::<SqlValueView>::empty() },
            StatementView { sql: CREATE_TRANSACTIONS@, params: Seq::<SqlValueView>::empty() },
        ],
{
    let mut out: Vec<Statement> = Vec::new();
    out.push(statement(CREATE_BLOCK_HEADERS, Vec::new()));
    out.push(statement(CREATE_TRANSACTIONS, Vec::new()));
    assert(cells(Seq::<SqlValue>::empty()) =~= Seq::<SqlValueView>::empty());
    assert(statement_views(out@) =~= seq![
        StatementView { sql: CREATE_BLOCK_HEADERS@, params: Seq::<SqlValueView>::empty() },
        StatementView { sql: CREATE_TRANSACTIONS@, params: Seq::<SqlValueView>::empty() },
    ]);
    out
}

/// The statement that writes a header.
pub open spec fn header_insert(h: HeaderView) -> Result<StatementView, WriteError> {
    match header_params(h) {
        Ok(params) => Ok(StatementView { sql: INSERT_BLOCK_HEADER@, params }),
        Err(e) => Err(e),
    }
}

/// The statement that writes a transaction.
pub open spec fn transaction_insert(tx: TransactionView) -> Result<StatementView, WriteError> {
    match transaction_row(tx) {
        Ok(params) => Ok(StatementView { sql: INSERT_TRANSACTION@, params }),
        Err(e) => Err(e),
    }
}

/// The statement that writes a transaction as part of a block, or on its
/// own where `owner` is `None`: there is none for a transaction that names a
/// block other than the owner.
pub open spec fn member_insert(
    owner: Option<Seq<u8>>,
    tx: TransactionView,
) -> Result<StatementView, WriteError> {
    if owner is Some && tx.block_hash is Some && tx.block_hash.unwrap() != owner.unwrap() {
        Err(WriteError::BlockMismatch)
    } else {
        transaction_insert(tx)
    }
}

/// The statements that write a run of transactions, in order; the error of
/// the first transaction that cannot be written, if there is one.
pub open spec fn member_inserts(
    owner: Option<Seq<u8>>,
    txs: Seq<TransactionView>,
) -> Result<Seq<StatementView>, WriteError>
    decreases txs.len(),
{
    if txs.len() == 0 {
        Ok(Seq::empty())
    } else {
        match member_inserts(owner, txs.drop_last()) {
            Err(e) => Err(e),
            Ok(head) => match member_insert(owner, txs.last()) {
                Err(e) => Err(e),
                Ok(s) => Ok(head.push(s)),
            },
        }
    }
}

/// The statements that write a run of transactions that need not belong to
/// one block.
pub open spec fn transaction_inserts(
    txs: Seq<TransactionView>,
) -> Result<Seq<StatementView>, WriteError> {
    member_inserts(None, txs)
}

/// The statements that write a block: the header first, then every
/// transaction in the order of the block.
pub open spec fn block_inserts(block: BlockView) -> Result<Seq<StatementView>, WriteError> {
    match header_insert(block.header) {
        Err(e) => Err(e),
        Ok(first) => match member_inserts(Some(block.header.hash), block.transactions) {
            Err(e) => Err(e),
            Ok(rest) => Ok(seq![first] + rest),
        },
    }
}

/// The statement that writes one header row, stamped by the engine at
/// insertion. Fails where a 64-bit field does not fit an integer column.
pub fn add_block_header(header: &Header) -> (r: Result<Statement, WriteError>)
    ensures
        match r {
            Ok(s) => header_insert(header@) == Ok::<_, WriteError>(s@),
            Err(e) => header_insert(header@) == Err::<StatementView, _>(e),
        },
{
    match encode_header(header) {
        Ok(params) => Ok(statement(INSERT_BLOCK_HEADER, params)),
        Err(e) => Err(e),
    }
}

/// The statement that writes one transaction row. Fails where the
/// transaction does not say where it stands in which block, or where a
/// 64-bit field does not fit an integer column.
pub fn add_transaction(transaction: &Transaction) -> (r: Result<Statement, WriteError>)
    ensures
        match r {
            Ok(s) => transaction_insert(transaction@) == Ok::<_, WriteError>(s@),
            Err(e) => transaction_insert(transaction@) == Err::<StatementView, _>(e),
        },
{
    match encode_transaction(transaction) {
        Ok(params) => Ok(statement(INSERT_TRANSACTION, params)),
        Err(e) => Err(e),
    }
}

fn member_statements(owner: Option<BlockHash>, transactions: &Vec<Transaction>) -> (r: Result<
    Vec<Statement>,
    WriteError,
>)
    ensures
        match r {
            Ok(s) => member_inserts(opt_bytes(owner), transaction_views(transactions@)) == Ok::<
                _,
                WriteError,
            >(statement_views(s@)),
            Err(e) => member_inserts(opt_bytes(owner), transaction_views(transactions@))
                == Err::<Seq<StatementView>, _>(e),
        },
{
    let ghost all = transaction_views(transactions@);
    let ghost own = opt_bytes(owner);
    let mut out: Vec<Statement> = Vec::new();
    let mut i: usize = 0;
    assert(all.take(0) =~= Seq::<TransactionView>::empty());
    assert(statement_views(out@) =~= Seq::<StatementView>::empty());
    while i < transactions.len()
        invariant
            i <= transactions@.len(),
            all == transaction_views(transactions@),
            own == opt_bytes(owner),
            member_inserts(own, all.take(i as int)) == Ok::<_, WriteError>(
                statement_views(out@),
            ),
        decreases transactions@.len() - i,
    {
        let ghost before = statement_views(out@);
        proof {
            assert(all.take(i + 1).drop_last() =~= all.take(i as int));
            assert(all.take(i + 1).last() == transactions@[i as int]@);
        }
        let foreign = match (owner, transactions[i].block_hash) {
            (Some(o), Some(h)) => !h.same(&o),
            _ => false,
        };
        let next = if foreign {
            Err(WriteError::BlockMismatch)
        } else {
            add_transaction(&transactions[i])
        };
        match next {
            Ok(s) => {
                out.push(s);
                assert(statement_views(out@) =~= before.push(s@));
            },
            Err(e) => {
                proof {
                    lemma_member_inserts_err_extends(own, all, i + 1);
                }
                return Err(e);
            },
        }
        i = i + 1;
    }
    assert(all.take(i as int) =~= all);
    Ok(out)
}

/// The statements that write each transaction, in order. Where one of them
/// cannot be written there is no statement at all, and the error is that of
/// the first such transaction.
pub fn add_transactions(transactions: &Vec<Transaction>) -> (r: Result<
    Vec<Statement>,
    WriteError,
>)
    ensures
        match r {
            Ok(s) => transaction_inserts(transaction_views(transactions@)) == Ok::<
                _,
                WriteError,
            >(statement_views(s@)),
            Err(e) => transaction_inserts(transaction_views(transactions@)) == Err::<
                Seq<StatementView>,
                _,
            >(e),
        },
{
    member_statements(None, transactions)
}

/// The statements that write a block as one atomic unit: the header row
/// first, then one row per transaction in the order of the block. Where any
/// part cannot be written there is no statement at all, so nothing partial
/// can reach the store.
pub fn add_block(block: &Block) -> (r: Result<Vec<Statement>, WriteError>)
    ensures
        match r {
            Ok(s) => block_inserts(block@) == Ok::<_, WriteError>(statement_views(s@)),
            Err(e) => block_inserts(block@) == Err::<Seq<StatementView>, _>(e),
        },
{
    let first = match add_block_header(&block.header) {
        Ok(s) => s,
        Err(e) => {
            return Err(e);
        },
    };
    let mut plan = match member_statements(Some(block.header.hash), &block.transactions) {
        Ok(s) => s,
        Err(e) => {
            return Err(e);
        },
    };
    let ghost rest = statement_views(plan@);
    plan.insert(0, first);
    assert(statement_views(plan@) =~= seq![first@] + rest);
    Ok(plan)
}

/// An error of a prefix is the error of the whole run.
pub proof fn lemma_member_inserts_err_extends(
    owner: Option<Seq<u8>>,
    txs: Seq<TransactionView>,
    k: int,
)
    requires
        0 <= k <= txs.len(),
        member_inserts(owner, txs.take(k)) is Err,
    ensures
        member_inserts(owner, txs) == member_inserts(owner, txs.take(k)),
    decreases txs.len() - k,
{
    if k == txs.len() {
        assert(txs.take(k) =~= txs);
    } else {
        assert(txs.take(k + 1).drop_last() =~= txs.take(k));
        lemma_member_inserts_err_extends(owner, txs, k + 1);
    }
}

/// The statements for a run of transactions exist exactly when each
/// transaction has one, and then they are those, one per transaction and
/// in order.
pub proof fn lemma_member_inserts_each(owner: Option<Seq<u8>>, txs: Seq<TransactionView>)
    ensures
        member_inserts(owner, txs) is Ok <==> (forall|i: int|
            0 <= i < txs.len() ==> (#[trigger] member_insert(owner, txs[i])) is Ok),
        member_inserts(owner, txs) matches Ok(s) ==> s.len() == txs.len() && (forall|i: int|
            0 <= i < txs.len() ==> member_insert(owner, txs[i]) == Ok::<_, WriteError>(
                #[trigger] s[i],
            )),
    decreases txs.len(),
{
    if txs.len() > 0 {
        let head = txs.drop_last();
        lemma_member_inserts_each(owner, head);
        assert(forall|i: int| 0 <= i < head.len() ==> head[i] == txs[i]);
        if member_inserts(owner, txs) is Ok {
            assert forall|i: int| 0 <= i < txs.len() implies (#[trigger] member_insert(
                owner,
                txs[i],
            )) is Ok by {
                if i < head.len() {
                    assert(member_insert(owner, head[i]) is Ok);
                }
            }
        }
        if forall|i: int| 0 <= i < txs.len() ==> (#[trigger] member_insert(owner, txs[i])) is Ok {
            assert forall|i: int| 0 <= i < head.len() implies (#[trigger] member_insert(
                owner,
                head[i],
            )) is Ok by {
                assert(member_insert(owner, txs[i]) is Ok);
            }
            assert(member_insert(owner, txs[txs.len() - 1]) is Ok);
        }
    }
}

/// What the statements of a block look like. The first writes the header;
/// statement `i + 1` writes transaction `i` of the block; and every
/// transaction row names, as its block, the header that the first statement
/// writes.
pub proof fn lemma_block_inserts_shape(block: BlockView)
    requires
        block_inserts(block) is Ok,
    ensures
        ({
            let plan = block_inserts(block)->Ok_0;
            &&& plan.len() == block.transactions.len() + 1
            &&& header_insert(block.header) == Ok::<_, WriteError>(plan[0])
            &&& forall|i: int|
                0 <= i < block.transactions.len() ==> transaction_insert(block.transactions[i])
                    == Ok::<_, WriteError>(#[trigger] plan[i + 1]) && plan[i + 1].params[1]
                    == plan[0].params[0]
        }),
{
    let plan = block_inserts(block)->Ok_0;
    let owner = Some(block.header.hash);
    let rest = member_inserts(owner, block.transactions)->Ok_0;
    lemma_member_inserts_each(owner, block.transactions);
    assert forall|i: int| 0 <= i < block.transactions.len() implies transaction_insert(
        block.transactions[i],
    ) == Ok::<_, WriteError>(#[trigger] plan[i + 1]) && plan[i + 1].params[1]
        == plan[0].params[0] by {
        assert(plan[i + 1] == rest[i]);
        assert(member_insert(owner, block.transactions[i]) == Ok::<_, WriteError>(rest[i]));
    }
}

/// What a writer does next with the statements of one atomic unit.
#[derive(Clone, Copy, Debug, PartialEq, Eq, Structural)]
pub enum WriteStep {
    /// Execute the statement with this index inside the open transaction.
    Execute(usize),
    /// Every statement succeeded: commit the transaction.
    Commit,
    /// A statement failed: roll the transaction back, so that no row of the
    /// unit stays, the header row included.
    Rollback,
}

/// The next step of a writer that has executed `done` of `total` statements
/// and has, or has not, seen one fail.
pub open spec fn write_step(total: nat, done: nat, failed: bool) -> WriteStep {
    if failed {
        WriteStep::Rollback
    } else if done < total {
        WriteStep::Execute(done as usize)
    } else {
        WriteStep::Commit
    }
}

/// Decides the next step of an atomic write. A unit is committed only after
/// each of its statements has succeeded, and after a failure the only step
/// left is the rollback.
pub fn next_write_step(total: usize, done: usize, failed: bool) -> (r: WriteStep)
    ensures
        r == write_step(total as nat, done as nat, failed),
        r is Commit <==> !failed && done >= total,
        r is Rollback <==> failed,
        r matches WriteStep::Execute(i) ==> i == done && i < total,
{
    if failed {
        WriteStep::Rollback
    } else if done < total {
        WriteStep::Execute(done)
    } else {
        WriteStep::Commit
    }
}

/// The query for the most recently inserted header.
pub fn query_latest_header() -> (r: Statement)
    ensures
        r@ == (StatementView { sql: SELECT_LATEST_HEADER@, params: Seq::empty() }),
{
    assert(cells(Seq::<SqlValue>::empty()) =~= Seq::<SqlValueView>::empty());
    statement(SELECT_LATEST_HEADER, Vec::new())
}

/// The query for the header with the given hash.
pub fn query_header_by_hash(hash: &BlockHash) -> (r: Statement)
    ensures
        r@ == (StatementView { sql: SELECT_HEADER_BY_HASH@, params: seq![fixed_cell(hash@)] }),
{
    let mut params: Vec<SqlValue> = Vec::new();
    params.push(write_fixed(hash));
    assert(cells(params@) =~= seq![fixed_cell(hash@)]);
    statement(SELECT_HEADER_BY_HASH, params)
}

/// The query for the header with the given number. There is none for a
/// number that no integer column holds: no stored header has such a number.
pub fn query_header_by_number(number: u64) -> (r: Option<Statement>)
    ensures
        r is Some <==> fits_integer(number),
        r matches Some(s) ==> s@ == (StatementView {
            sql: SELECT_HEADER_BY_NUMBER@,
            params: seq![integer_cell(number)],
        }),
{
    match write_u64(number) {
        Some(cell) => {
            let mut params: Vec<SqlValue> = Vec::new();
            params.push(cell);
            assert(cells(params@) =~= seq![integer_cell(number)]);
            Some(statement(SELECT_HEADER_BY_NUMBER, params))
        },
        None => None,
    }
}

/// The query for the header of the block that a request identifies; `None`
/// where no stored block can match.
pub fn query_block_header(id: &BlockId) -> (r: Option<Statement>)
    ensures
        match *id {
            BlockId::Hash(h) => r matches Some(s) && s@ == (StatementView {
                sql: SELECT_HEADER_BY_HASH@,
                params: seq![fixed_cell(h@)],
            }),
            BlockId::Number(n) => (r is Some <==> fits_integer(n)) && (r matches Some(s) ==> s@
                == (StatementView {
                sql: SELECT_HEADER_BY_NUMBER@,
                params: seq![integer_cell(n)],
            })),
            BlockId::Latest => r matches Some(s) && s@ == (StatementView {
                sql: SELECT_LATEST_HEADER@,
                params: Seq::empty(),
            }),
        },
{
    match id {
        BlockId::Hash(h) => Some(query_header_by_hash(h)),
        BlockId::Number(n) => query_header_by_number(*n),
        BlockId::Latest => Some(query_latest_header()),
    }
}

/// The query for the transaction with the given hash.
pub fn query_transaction(hash: &TxHash) -> (r: Statement)
    ensures
        r@ == (StatementView { sql: SELECT_TRANSACTION@, params: seq![fixed_cell(hash@)] }),
{
    let mut params: Vec<SqlValue> = Vec::new();
    params.push(write_fixed(hash));
    assert(cells(params@) =~= seq![fixed_cell(hash@)]);
    statement(SELECT_TRANSACTION, params)
}

/// The query for the transactions of the block with the given hash, in
/// the order of their positions.
pub fn query_transactions_by_block_hash(hash: &BlockHash) -> (r: Statement)
    ensures
        r@ == (StatementView {
            sql: SELECT_TRANSACTIONS_BY_BLOCK@,
            params: seq![fixed_cell(hash@)],
        }),
{
    let mut params: Vec<SqlValue> = Vec::new();
    params.push(write_fixed(hash));
    assert(cells(params@) =~= seq![fixed_cell(hash@)]);
    statement(SELECT_TRANSACTIONS_BY_BLOCK, params)
}

/// The query for the hashes of all stored headers.
pub fn query_all_block_hashes() -> (r: Statement)
    ensures
        r@ == (StatementView { sql: SELECT_ALL_BLOCK_HASHES@, params: Seq::empty() }),
{
    assert(cells(Seq::<SqlValue>::empty()) =~= Seq::<SqlValueView>::empty());
    statement(SELECT_ALL_BLOCK_HASHES, Vec::new())
}

/// Whether a row of the `block_headers` table shows when it was inserted.
pub open spec fn has_marker(row: Seq<SqlValueView>) -> bool {
    row.len() > 0 && cell_i64(row[0]) is Some
}

/// Whether row `p` is the most recently inserted of `rows`, which come in
/// the order in which they were written: it has the greatest insertion
/// marker, and comes last among the rows that have it. Rows that do not
/// show a marker do not take part.
pub open spec fn is_latest(rows: Seq<Seq<SqlValueView>>, p: int) -> bool {
    &&& 0 <= p < rows.len()
    &&& has_marker(rows[p])
    &&& forall|j: int|
        0 <= j < rows.len() && has_marker(#[trigger] rows[j]) ==> row_marker(rows[j])
            <= row_marker(rows[p])
    &&& forall|j: int|
        p < j < rows.len() && has_marker(#[trigger] rows[j]) ==> row_marker(rows[j])
            < row_marker(rows[p])
}

/// The header, or the error, that a result row of a header query gives.
pub open spec fn found_header(r: Result<Option<Header>, DecodeError>) -> Result<
    Option<HeaderView>,
    DecodeError,
> {
    match r {
        Ok(Some(h)) => Ok(Some(h@)),
        Ok(None) => Ok(None),
        Err(e) => Err(e),
    }
}

/// What a single decoded row gives as the answer of a lookup.
pub open spec fn some_header(r: Result<HeaderView, DecodeError>) -> Result<
    Option<HeaderView>,
    DecodeError,
> {
    match r {
        Ok(h) => Ok(Some(h)),
        Err(e) => Err(e),
    }
}

/// The most recently inserted header among the rows of a header query,
/// taken in the order in which they were written: the one with the greatest
/// insertion marker, whatever its block number, and the last of those that
/// share it. `None` where no row shows a marker, as before the very first
/// write. A fault in another row does not affect the answer.
pub fn latest_block_header(rows: &Vec<Vec<SqlValue>>) -> (r: Result<Option<Header>, DecodeError>)
    ensures
        (r matches Ok(None)) <==> (forall|j: int|
            0 <= j < rows@.len() ==> !has_marker(#[trigger] table(rows@)[j])),
        !(r matches Ok(None)) ==> exists|p: int|
            is_latest(table(rows@), p) && found_header(r) == some_header(
                row_header(table(rows@)[p]),
            ),
{
    let ghost all = table(rows@);
    assert(forall|j: int| 0 <= j < rows@.len() ==> all[j] == cells(rows@[j]@));
    let mut best: Option<(usize, i64)> = None;
    let mut i: usize = 0;
    while i < rows.len()
        invariant
            i <= rows@.len(),
            all == table(rows@),
            forall|j: int| 0 <= j < rows@.len() ==> all[j] == cells(rows@[j]@),
            best is None ==> forall|j: int| 0 <= j < i ==> !has_marker(#[trigger] all[j]),
            best matches Some((p, m)) ==> p < i && has_marker(all[p as int]) && m == row_marker(
                all[p as int],
            ) && (forall|j: int|
                0 <= j < i && has_marker(#[trigger] all[j]) ==> row_marker(all[j]) <= m)
                && (forall|j: int|
                p < j < i && has_marker(#[trigger] all[j]) ==> row_marker(all[j]) < m),
        decreases rows@.len() - i,
    {
        match crate::codec::row_to_marker(&rows[i]) {
            Some(m) => {
                let better = match best {
                    Some((_, top)) => m >= top,
                    None => true,
                };
                if better {
                    best = Some((i, m));
                }
            },
            None => {},
        }
        i = i + 1;
    }
    match best {
        None => Ok(None),
        Some((p, _)) => {
            assert(is_latest(all, p as int));
            match row_to_header(&rows[p]) {
                Ok(h) => Ok(Some(h)),
                Err(e) => Err(e),
            }
        },
    }
}

/// The most recently inserted row is unique.
pub proof fn lemma_latest_unique(rows: Seq<Seq<SqlValueView>>, p: int, q: int)
    requires
        is_latest(rows, p),
        is_latest(rows, q),
    ensures
        p == q,
{
}

/// Ordering: a row whose insertion marker exceeds that of every other row
/// is the most recently inserted one, wherever it stands and whatever the
/// numbers of the blocks are.
pub proof fn lemma_latest_by_marker(rows: Seq<Seq<SqlValueView>>, p: int)
    requires
        0 <= p < rows.len(),
        has_marker(rows[p]),
        forall|j: int|
            0 <= j < rows.len() && j != p && has_marker(#[trigger] rows[j]) ==> row_marker(
                rows[j],
            ) < row_marker(rows[p]),
    ensures
        is_latest(rows, p),
        forall|q: int| is_latest(rows, q) ==> q == p,
{
}

/// The header that a lookup found: the first row of the result, or `None`
/// where the result is empty. Finding nothing is an answer, not an error.
pub fn header_from_rows(rows: &Vec<Vec<SqlValue>>) -> (r: Result<Option<Header>, DecodeError>)
    ensures
        rows@.len() == 0 ==> r matches Ok(None),
        rows@.len() > 0 ==> found_header(r) == some_header(row_header(table(rows@)[0])),
{
    if rows.len() == 0 {
        return Ok(None);
    }
    assert(table(rows@)[0] == cells(rows@[0]@));
    match row_to_header(&rows[0]) {
        Ok(h) => Ok(Some(h)),
        Err(e) => Err(e),
    }
}

/// The transaction that a lookup found: the first row of the result, or
/// `None` where the result is empty. Finding nothing is an answer, not an
/// error.
pub fn transaction_from_rows(rows: &Vec<Vec<SqlValue>>) -> (r: Result<
    Option<Transaction>,
    DecodeError,
>)
    ensures
        rows@.len() == 0 ==> r matches Ok(None),
        rows@.len() > 0 ==> match r {
            Ok(Some(tx)) => row_transaction(table(rows@)[0]) == Ok::<_, DecodeError>(tx@),
            Ok(None) => false,
            Err(e) => row_transaction(table(rows@)[0]) == Err::<TransactionView, _>(e),
        },
{
    if rows.len() == 0 {
        return Ok(None);
    }
    assert(table(rows@)[0] == cells(rows@[0]@));
    match row_to_transaction(&rows[0]) {
        Ok(tx) => Ok(Some(tx)),
        Err(e) => Err(e),
    }
}

/// What a decoded transaction row gives, as a mathematical value.
pub open spec fn decoded_transaction(r: Result<Transaction, DecodeError>) -> Result<
    TransactionView,
    DecodeError,
> {
    match r {
        Ok(tx) => Ok(tx@),
        Err(e) => Err(e),
    }
}

/// Decodes every row of a result on its own: entry `i` is what row `i`
/// decodes to, so a fault in one row touches no other.
pub fn decode_transactions(rows: &Vec<Vec<SqlValue>>) -> (r: Vec<Result<Transaction, DecodeError>>)
    ensures
        r@.len() == rows@.len(),
        forall|i: int|
            0 <= i < rows@.len() ==> decoded_transaction(#[trigger] r@[i]) == row_transaction(
                table(rows@)[i],
            ),
{
    let mut out: Vec<Result<Transaction, DecodeError>> = Vec::new();
    let mut i: usize = 0;
    while i < rows.len()
        invariant
            i <= rows@.len(),
            out@.len() == i,
            forall|j: int|
                0 <= j < i ==> decoded_transaction(#[trigger] out@[j]) == row_transaction(
                    table(rows@)[j],
                ),
        decreases rows@.len() - i,
    {
        assert(table(rows@)[i as int] == cells(rows@[i as int]@));
        out.push(row_to_transaction(&rows[i]));
        i = i + 1;
    }
    out
}

/// The transactions of a block, decoded from the rows of a result in the
/// order of the rows. An empty result gives an empty sequence. Where a row
/// is faulty the error is that of the first such row.
pub fn transactions_from_rows(rows: &Vec<Vec<SqlValue>>) -> (r: Result<
    Vec<Transaction>,
    DecodeError,
>)
    ensures
        match r {
            Ok(txs) => txs@.len() == rows@.len() && forall|i: int|
                0 <= i < rows@.len() ==> row_transaction(#[trigger] table(rows@)[i]) == Ok::<
                    _,
                    DecodeError,
                >(txs@[i]@),
            Err(e) => exists|k: int|
                0 <= k < rows@.len() && row_transaction(table(rows@)[k]) == Err::<
                    TransactionView,
                    _,
                >(e) && forall|i: int|
                    0 <= i < k ==> (#[trigger] row_transaction(table(rows@)[i])) is Ok,
        },
{
    let mut out: Vec<Transaction> = Vec::new();
    let mut i: usize = 0;
    while i < rows.len()
        invariant
            i <= rows@.len(),
            out@.len() == i,
            forall|j: int|
                0 <= j < i ==> row_transaction(#[trigger] table(rows@)[j]) == Ok::<
                    _,
                    DecodeError,
                >(out@[j]@),
        decreases rows@.len() - i,
    {
        assert(table(rows@)[i as int] == cells(rows@[i as int]@));
        match row_to_transaction(&rows[i]) {
            Ok(tx) => {
                out.push(tx);
            },
            Err(e) => {
                assert(row_transaction(table(rows@)[i as int]) == Err::<TransactionView, _>(e));
                return Err(e);
            },
        }
        i = i + 1;
    }
    Ok(out)
}

/// The block made of a header that a lookup found and of its transactions;
/// `None` where the lookup found no header.
pub fn block_from_parts(header: Option<Header>, transactions: Vec<Transaction>) -> (r: Option<
    Block,
>)
    ensures
        header is None ==> r is None,
        header matches Some(h) ==> r matches Some(b) && b@ == (BlockView {
            header: h@,
            transactions: transaction_views(transactions@),
        }),
{
    match header {
        Some(h) => Some(Block { header: h, transactions }),
        None => None,
    }
}

/// The hash in a row of the query for all block hashes.
pub open spec fn row_block_hash(row: Seq<SqlValueView>) -> Result<Seq<u8>, DecodeError> {
    if row.len() != 1 {
        Err(DecodeError::ColumnCount)
    } else {
        match cell_fixed(row[0], 32) {
            Some(h) => Ok(h),
            None => Err(DecodeError::Malformed(0)),
        }
    }
}

fn row_to_block_hash(row: &Vec<SqlValue>) -> (r: Result<BlockHash, DecodeError>)
    ensures
        match r {
            Ok(h) => row_block_hash(cells(row@)) == Ok::<_, DecodeError>(h@),
            Err(e) => row_block_hash(cells(row@)) == Err::<Seq<u8>, _>(e),
        },
{
    if row.len() != 1 {
        return Err(DecodeError::ColumnCount);
    }
    assert(cells(row@)[0] == row@[0]@);
    match read_fixed::<32>(&row[0]) {
        Some(h) => Ok(h),
        None => Err(DecodeError::Malformed(0)),
    }
}

/// The byte strings of a run of hashes, in order.
pub open spec fn hash_views(hashes: Seq<BlockHash>) -> Seq<Seq<u8>> {
    hashes.map_values(|h: BlockHash| h@)
}

fn block_hashes_of_rows(rows: &Vec<Vec<SqlValue>>) -> (r: Result<Vec<BlockHash>, DecodeError>)
    ensures
        match r {
            Ok(hashes) => hashes@.len() == rows@.len() && forall|i: int|
                0 <= i < rows@.len() ==> row_block_hash(#[trigger] table(rows@)[i]) == Ok::<
                    _,
                    DecodeError,
                >(hashes@[i]@),
            Err(e) => exists|k: int|
                0 <= k < rows@.len() && row_block_hash(table(rows@)[k]) == Err::<Seq<u8>, _>(e)
                    && forall|i: int|
                    0 <= i < k ==> (#[trigger] row_block_hash(table(rows@)[i])) is Ok,
        },
{
    let mut out: Vec<BlockHash> = Vec::new();
    let mut i: usize = 0;
    while i < rows.len()
        invariant
            i <= rows@.len(),
            out@.len() == i,
            forall|j: int|
                0 <= j < i ==> row_block_hash(#[trigger] table(rows@)[j]) == Ok::<
                    _,
                    DecodeError,
                >(out@[j]@),
        decreases rows@.len() - i,
    {
        assert(table(rows@)[i as int] == cells(rows@[i as int]@));
        match row_to_block_hash(&rows[i]) {
            Ok(h) => {
                out.push(h);
            },
            Err(e) => {
                assert(row_block_hash(table(rows@)[i as int]) == Err::<Seq<u8>, _>(e));
                return Err(e);
            },
        }
        i = i + 1;
    }
    Ok(out)
}

/// Drops every hash that occurred before: the result holds the same hashes,
/// each once, in the order of their first occurrence.
pub fn distinct_hashes(hashes: &Vec<BlockHash>) -> (r: Vec<BlockHash>)
    ensures
        hash_views(r@).no_duplicates(),
        forall|x: Seq<u8>| hash_views(r@).contains(x) <==> hash_views(hashes@).contains(x),
{
    let ghost all = hash_views(hashes@);
    let mut out: Vec<BlockHash> = Vec::new();
    let mut i: usize = 0;
    while i < hashes.len()
        invariant
            i <= hashes@.len(),
            all == hash_views(hashes@),
            hash_views(out@).no_duplicates(),
            forall|j: int| 0 <= j < i ==> hash_views(out@).contains(#[trigger] all[j]),
            forall|k: int|
                0 <= k < out@.len() ==> all.take(i as int).contains(
                    #[trigger] hash_views(out@)[k],
                ),
        decreases hashes@.len() - i,
    {
        let hash = hashes[i];
        let ghost seen = hash_views(out@);
        let mut known = false;
        let mut k: usize = 0;
        while k < out.len()
            invariant
                k <= out@.len(),
                seen == hash_views(out@),
                known <==> seen.take(k as int).contains(hash@),
            decreases out@.len() - k,
        {
            let same = out[k].same(&hash);
            proof {
                let next = seen.take(k + 1);
                assert(next.drop_last() =~= seen.take(k as int));
                assert(next.last() == out@[k as int]@);
                if same {
                    assert(next[k as int] == hash@);
                }
                if next.contains(hash@) && !same {
                    let w = choose|w: int| 0 <= w < next.len() && next[w] == hash@;
                    assert(seen.take(k as int)[w] == hash@);
                }
                if seen.take(k as int).contains(hash@) {
                    let w = choose|w: int| 0 <= w < k && seen.take(k as int)[w] == hash@;
                    assert(next[w] == hash@);
                }
            }
            if same {
                known = true;
            }
            k = k + 1;
        }
        assert(seen.take(seen.len() as int) =~= seen);
        proof {
            let grown = all.take(i + 1);
            assert(grown.drop_last() =~= all.take(i as int));
            assert(grown.last() == hash@);
            assert forall|k: int| 0 <= k < seen.len() implies grown.contains(
                #[trigger] seen[k],
            ) by {
                let w = choose|w: int| 0 <= w < i && all.take(i as int)[w] == seen[k];
                assert(grown[w] == seen[k]);
            }
        }
        if !known {
            out.push(hash);
            proof {
                let now = hash_views(out@);
                assert(now =~= seen.push(hash@));
                assert forall|j: int| 0 <= j < i + 1 implies now.contains(#[trigger] all[j]) by {
                    if j < i {
                        let w = choose|w: int| 0 <= w < seen.len() && seen[w] == all[j];
                        assert(now[w] == all[j]);
                    } else {
                        assert(now[seen.len() as int] == all[j]);
                    }
                }
                assert(all.take(i + 1)[i as int] == hash@);
            }
        } else {
            proof {
                assert(hash_views(out@).contains(all[i as int]));
            }
        }
        i = i + 1;
    }
    proof {
        assert(all.take(i as int) =~= all);
        let now = hash_views(out@);
        assert forall|x: Seq<u8>| now.contains(x) <==> all.contains(x) by {
            if now.contains(x) {
                let w = choose|w: int| 0 <= w < now.len() && now[w] == x;
                assert(all.contains(now[w]));
            }
            if all.contains(x) {
                let w = choose|w: int| 0 <= w < all.len() && all[w] == x;
                assert(now.contains(all[w]));
            }
        }
    }
    out
}

/// The hashes of all stored blocks, each once: a set, handed out as a
/// sequence. Where a row is faulty the error is that of the first such row.
pub fn all_block_hashes(rows: &Vec<Vec<SqlValue>>) -> (r: Result<Vec<BlockHash>, DecodeError>)
    ensures
        match r {
            Ok(hashes) => {
                &&& hash_views(hashes@).no_duplicates()
                &&& forall|i: int|
                    0 <= i < rows@.len() ==> (#[trigger] row_block_hash(table(rows@)[i])) is Ok
                &&& forall|x: Seq<u8>|
                    hash_views(hashes@).contains(x) <==> exists|i: int|
                        0 <= i < rows@.len() && #[trigger] row_block_hash(table(rows@)[i])
                            == Ok::<_, DecodeError>(x)
            },
            Err(e) => exists|k: int|
                0 <= k < rows@.len() && row_block_hash(table(rows@)[k]) == Err::<Seq<u8>, _>(e)
                    && forall|i: int|
                    0 <= i < k ==> (#[trigger] row_block_hash(table(rows@)[i])) is Ok,
        },
{
    let listed = match block_hashes_of_rows(rows) {
        Ok(v) => v,
        Err(e) => {
            return Err(e);
        },
    };
    let out = distinct_hashes(&listed);
    proof {
        let all = hash_views(listed@);
        let now = hash_views(out@);
        assert forall|x: Seq<u8>| now.contains(x) <==> exists|i: int|
            0 <= i < rows@.len() && #[trigger] row_block_hash(table(rows@)[i]) == Ok::<
                _,
                DecodeError,
            >(x) by {
            if now.contains(x) {
                assert(all.contains(x));
                let w = choose|w: int| 0 <= w < all.len() && all[w] == x;
                assert(row_block_hash(table(rows@)[w]) == Ok::<_, DecodeError>(x));
            }
            if exists|i: int|
                0 <= i < rows@.len() && #[trigger] row_block_hash(table(rows@)[i]) == Ok::<
                    _,
                    DecodeError,
                >(x) {
                let w = choose|i: int|
                    0 <= i < rows@.len() && #[trigger] row_block_hash(table(rows@)[i]) == Ok::<
                        _,
                        DecodeError,
                    >(x);
                assert(all[w] == x);
                assert(all.contains(x));
            }
        }
    }
    Ok(out)
}

} // verus!
