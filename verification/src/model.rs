//! The chain data that the store holds: headers, transactions and blocks.
use crate::primitives::{Address, BlockHash, Bloom, FixedBytes, TxHash, B256, B64, U256};
use crate::sql::copy_bytes;
use crate::text::bytes_equal;
use vstd::prelude::*;

verus! {

/// The bytes of an optional byte string.
pub open spec fn opt_bytes<const N: usize>(value: Option<FixedBytes<N>>) -> Option<Seq<u8>> {
    match value {
        Some(bytes) => Some(bytes@),
        None => None,
    }
}

/// The fixed-shape record that identifies and describes a block.
///
/// The fields from `base_fee_per_gas` on exist only from certain chain
/// upgrades onward and are absent before.
#[derive(Clone, Debug, PartialEq, Eq)]
pub struct Header {
    pub hash: BlockHash,
    pub number: u64,
    pub parent_hash: B256,
    pub ommers_hash: B256,
    pub beneficiary: Address,
    pub state_root: B256,
    pub transactions_root: B256,
    pub receipts_root: B256,
    pub logs_bloom: Bloom,
    pub difficulty: U256,
    pub gas_limit: u64,
    pub gas_used: u64,
    pub timestamp: u64,
    pub extra_data: Vec<u8>,
    pub mix_hash: B256,
    pub nonce: B64,
    pub base_fee_per_gas: Option<u64>,
    pub withdrawals_root: Option<B256>,
    pub blob_gas_used: Option<u64>,
    pub excess_blob_gas: Option<u64>,
    pub parent_beacon_block_root: Option<B256>,
    pub requests_hash: Option<B256>,
}

/// A header as a mathematical value.
pub struct HeaderView {
    pub hash: Seq<u8>,
    pub number: u64,
    pub parent_hash: Seq<u8>,
    pub ommers_hash: Seq<u8>,
    pub beneficiary: Seq<u8>,
    pub state_root: Seq<u8>,
    pub transactions_root: Seq<u8>,
    pub receipts_root: Seq<u8>,
    pub logs_bloom: Seq<u8>,
    pub difficulty: nat,
    pub gas_limit: u64,
    pub gas_used: u64,
    pub timestamp: u64,
    pub extra_data: Seq<u8>,
    pub mix_hash: Seq<u8>,
    pub nonce: Seq<u8>,
    pub base_fee_per_gas: Option<u64>,
    pub withdrawals_root: Option<Seq<u8>>,
    pub blob_gas_used: Option<u64>,
    pub excess_blob_gas: Option<u64>,
    pub parent_beacon_block_root: Option<Seq<u8>>,
    pub requests_hash: Option<Seq<u8>>,
}

impl View for Header {
    type V = HeaderView;

    open spec fn view(&self) -> HeaderView {
        HeaderView {
            hash: self.hash@,
            number: self.number,
            parent_hash: self.parent_hash@,
            ommers_hash: self.ommers_hash@,
            beneficiary: self.beneficiary@,
            state_root: self.state_root@,
            transactions_root: self.transactions_root@,
            receipts_root: self.receipts_root@,
            logs_bloom: self.logs_bloom@,
            difficulty: self.difficulty@,
            gas_limit: self.gas_limit,
            gas_used: self.gas_used,
            timestamp: self.timestamp,
            extra_data: self.extra_data@,
            mix_hash: self.mix_hash@,
            nonce: self.nonce@,
            base_fee_per_gas: self.base_fee_per_gas,
            withdrawals_root: opt_bytes(self.withdrawals_root),
            blob_gas_used: self.blob_gas_used,
            excess_blob_gas: self.excess_blob_gas,
            parent_beacon_block_root: opt_bytes(self.parent_beacon_block_root),
            requests_hash: opt_bytes(self.requests_hash),
        }
    }
}

impl HeaderView {
    /// Whether every byte string has the width of its field and the
    /// difficulty fits in 256 bits.
    pub open spec fn wf(self) -> bool {
        &&& self.hash.len() == 32
        &&& self.parent_hash.len() == 32
        &&& self.ommers_hash.len() == 32
        &&& self.beneficiary.len() == 20
        &&& self.state_root.len() == 32
        &&& self.transactions_root.len() == 32
        &&& self.receipts_root.len() == 32
        &&& self.logs_bloom.len() == 256
        &&& self.difficulty < crate::primitives::amount_limit()
        &&& self.mix_hash.len() == 32
        &&& self.nonce.len() == 8
        &&& (self.withdrawals_root matches Some(root) ==> root.len() == 32)
        &&& (self.parent_beacon_block_root matches Some(root) ==> root.len() == 32)
        &&& (self.requests_hash matches Some(root) ==> root.len() == 32)
    }
}

/// Whether two optional byte strings are both absent or hold the same bytes.
pub fn same_opt_bytes<const N: usize>(a: &Option<FixedBytes<N>>, b: &Option<FixedBytes<N>>) -> (r:
    bool)
    ensures
        r == (opt_bytes(*a) == opt_bytes(*b)),
{
    match (a, b) {
        (Some(x), Some(y)) => x.same(y),
        (None, None) => true,
        _ => false,
    }
}

impl Header {
    /// Whether two headers agree in every field.
    pub fn same(&self, other: &Header) -> (r: bool)
        ensures
            r == (self@ == other@),
    {
        self.hash.same(&other.hash) && self.number == other.number && self.parent_hash.same(
            &other.parent_hash,
        ) && self.ommers_hash.same(&other.ommers_hash) && self.beneficiary.same(
            &other.beneficiary,
        ) && self.state_root.same(&other.state_root) && self.transactions_root.same(
            &other.transactions_root,
        ) && self.receipts_root.same(&other.receipts_root) && self.logs_bloom.same(
            &other.logs_bloom,
        ) && self.difficulty.same(&other.difficulty) && self.gas_limit == other.gas_limit
            && self.gas_used == other.gas_used && self.timestamp == other.timestamp
            && bytes_equal(self.extra_data.as_slice(), other.extra_data.as_slice())
            && self.mix_hash.same(&other.mix_hash) && self.nonce.same(&other.nonce)
            && self.base_fee_per_gas == other.base_fee_per_gas && same_opt_bytes(
            &self.withdrawals_root,
            &other.withdrawals_root,
        ) && self.blob_gas_used == other.blob_gas_used && self.excess_blob_gas
            == other.excess_blob_gas && same_opt_bytes(
            &self.parent_beacon_block_root,
            &other.parent_beacon_block_root,
        ) && same_opt_bytes(&self.requests_hash, &other.requests_hash)
    }

    /// A copy of the header.
    pub fn duplicate(&self) -> (r: Header)
        ensures
            r@ == self@,
    {
        Header {
            hash: self.hash,
            number: self.number,
            parent_hash: self.parent_hash,
            ommers_hash: self.ommers_hash,
            beneficiary: self.beneficiary,
            state_root: self.state_root,
            transactions_root: self.transactions_root,
            receipts_root: self.receipts_root,
            logs_bloom: self.logs_bloom,
            difficulty: self.difficulty,
            gas_limit: self.gas_limit,
            gas_used: self.gas_used,
            timestamp: self.timestamp,
            extra_data: copy_bytes(self.extra_data.as_slice()),
            mix_hash: self.mix_hash,
            nonce: self.nonce,
            base_fee_per_gas: self.base_fee_per_gas,
            withdrawals_root: self.withdrawals_root,
            blob_gas_used: self.blob_gas_used,
            excess_blob_gas: self.excess_blob_gas,
            parent_beacon_block_root: self.parent_beacon_block_root,
            requests_hash: self.requests_hash,
        }
    }

    /// The view of a header is well formed.
    pub proof fn lemma_view_wf(self)
        ensures
            self@.wf(),
    {
        broadcast use vstd::array::array_len_matches_n;

        crate::primitives::lemma_amount_below_limit(self.difficulty.limbs@);
    }
}

/// The wire format of a transaction.
#[derive(Clone, Copy, Debug, PartialEq, Eq, Structural, Hash)]
pub enum TxType {
    /// The first format, priced by a single gas price.
    Legacy,
    /// The access-list format, still priced by a single gas price.
    AccessList,
    /// The dynamic-fee format, priced by a fee cap and a priority fee.
    DynamicFee,
    /// The blob-carrying format.
    Blob,
    /// The delegation format.
    Delegation,
}

/// The format that a persisted tag selects, if the tag is known.
pub open spec fn type_of_tag(tag: int) -> Option<TxType> {
    if tag == 0 {
        Some(TxType::Legacy)
    } else if tag == 1 {
        Some(TxType::AccessList)
    } else if tag == 2 {
        Some(TxType::DynamicFee)
    } else if tag == 3 {
        Some(TxType::Blob)
    } else if tag == 4 {
        Some(TxType::Delegation)
    } else {
        None
    }
}

impl TxType {
    /// The tag under which the format is persisted.
    pub open spec fn tag(self) -> int {
        match self {
            TxType::Legacy => 0,
            TxType::AccessList => 1,
            TxType::DynamicFee => 2,
            TxType::Blob => 3,
            TxType::Delegation => 4,
        }
    }

    /// Whether the format is priced by a single gas price.
    pub open spec fn has_gas_price(self) -> bool {
        self == TxType::Legacy || self == TxType::AccessList
    }

    /// Whether the format must name a recipient: it has no form that creates
    /// a contract.
    pub open spec fn needs_recipient(self) -> bool {
        self == TxType::Blob || self == TxType::Delegation
    }

    /// The tag under which the format is persisted.
    pub fn to_tag(self) -> (tag: u8)
        ensures
            tag == self.tag(),
            type_of_tag(tag as int) == Some(self),
    {
        match self {
            TxType::Legacy => 0,
            TxType::AccessList => 1,
            TxType::DynamicFee => 2,
            TxType::Blob => 3,
            TxType::Delegation => 4,
        }
    }

    /// The format that a persisted tag selects; `None` for an unknown tag.
    pub fn from_tag(tag: i64) -> (r: Option<TxType>)
        ensures
            r == type_of_tag(tag as int),
    {
        if tag == 0 {
            Some(TxType::Legacy)
        } else if tag == 1 {
            Some(TxType::AccessList)
        } else if tag == 2 {
            Some(TxType::DynamicFee)
        } else if tag == 3 {
            Some(TxType::Blob)
        } else if tag == 4 {
            Some(TxType::Delegation)
        } else {
            None
        }
    }
}

/// What a transaction carries beyond the common fields, by format.
///
/// A recipient of `None` means that the transaction creates a contract.
#[allow(inconsistent_fields)]
#[derive(Clone, Copy, Debug, PartialEq, Eq)]
pub enum TxPayload {
    Legacy { chain_id: Option<u64>, gas_price: u128, to: Option<Address> },
    AccessList { chain_id: u64, gas_price: u128, to: Option<Address> },
    DynamicFee {
        chain_id: u64,
        max_fee_per_gas: u128,
        max_priority_fee_per_gas: u128,
        to: Option<Address>,
    },
    Blob { chain_id: u64, max_fee_per_gas: u128, max_priority_fee_per_gas: u128, to: Address },
    Delegation {
        chain_id: u64,
        max_fee_per_gas: u128,
        max_priority_fee_per_gas: u128,
        to: Address,
    },
}

impl TxPayload {
    /// The format of the payload.
    pub open spec fn spec_tx_type(self) -> TxType {
        match self {
            TxPayload::Legacy { .. } => TxType::Legacy,
            TxPayload::AccessList { .. } => TxType::AccessList,
            TxPayload::DynamicFee { .. } => TxType::DynamicFee,
            TxPayload::Blob { .. } => TxType::Blob,
            TxPayload::Delegation { .. } => TxType::Delegation,
        }
    }

    /// The chain that the transaction is bound to, if it names one.
    pub open spec fn spec_chain_id(self) -> Option<u64> {
        match self {
            TxPayload::Legacy { chain_id, .. } => chain_id,
            TxPayload::AccessList { chain_id, .. } => Some(chain_id),
            TxPayload::DynamicFee { chain_id, .. } => Some(chain_id),
            TxPayload::Blob { chain_id, .. } => Some(chain_id),
            TxPayload::Delegation { chain_id, .. } => Some(chain_id),
        }
    }

    /// The recipient, if the transaction has one.
    pub open spec fn spec_to(self) -> Option<Address> {
        match self {
            TxPayload::Legacy { to, .. } => to,
            TxPayload::AccessList { to, .. } => to,
            TxPayload::DynamicFee { to, .. } => to,
            TxPayload::Blob { to, .. } => Some(to),
            TxPayload::Delegation { to, .. } => Some(to),
        }
    }

    /// The gas price, for the formats that have one.
    pub open spec fn spec_gas_price(self) -> Option<u128> {
        match self {
            TxPayload::Legacy { gas_price, .. } => Some(gas_price),
            TxPayload::AccessList { gas_price, .. } => Some(gas_price),
            _ => None,
        }
    }

    /// The fee cap, for the formats that have one.
    pub open spec fn spec_max_fee_per_gas(self) -> Option<u128> {
        match self {
            TxPayload::DynamicFee { max_fee_per_gas, .. } => Some(max_fee_per_gas),
            TxPayload::Blob { max_fee_per_gas, .. } => Some(max_fee_per_gas),
            TxPayload::Delegation { max_fee_per_gas, .. } => Some(max_fee_per_gas),
            _ => None,
        }
    }

    /// The priority fee, for the formats that have one.
    pub open spec fn spec_max_priority_fee_per_gas(self) -> Option<u128> {
        match self {
            TxPayload::DynamicFee { max_priority_fee_per_gas, .. } => Some(
                max_priority_fee_per_gas,
            ),
            TxPayload::Blob { max_priority_fee_per_gas, .. } => Some(max_priority_fee_per_gas),
            TxPayload::Delegation { max_priority_fee_per_gas, .. } => Some(
                max_priority_fee_per_gas,
            ),
            _ => None,
        }
    }
}

/// A transaction, with the place it has in its block where it has one.
///
/// Only what the store indexes is held: signatures, access lists, blob
/// hashes and authorizations are not.
#[derive(Clone, Debug, PartialEq, Eq)]
pub struct Transaction {
    pub hash: TxHash,
    pub from: Address,
    pub nonce: u64,
    pub gas_limit: u64,
    pub value: U256,
    pub input: Vec<u8>,
    pub block_hash: Option<BlockHash>,
    pub block_number: Option<u64>,
    pub position: Option<u64>,
    pub payload: TxPayload,
}

/// A transaction as a mathematical value: the common fields, the format, and
/// each format-specific field as present or absent.
pub struct TransactionView {
    pub hash: Seq<u8>,
    pub from: Seq<u8>,
    pub nonce: u64,
    pub gas_limit: u64,
    pub value: nat,
    pub input: Seq<u8>,
    pub block_hash: Option<Seq<u8>>,
    pub block_number: Option<u64>,
    pub position: Option<u64>,
    pub tx_type: TxType,
    pub chain_id: Option<u64>,
    pub to: Option<Seq<u8>>,
    pub gas_price: Option<u128>,
    pub max_fee_per_gas: Option<u128>,
    pub max_priority_fee_per_gas: Option<u128>,
}

impl View for Transaction {
    type V = TransactionView;

    open spec fn view(&self) -> TransactionView {
        TransactionView {
            hash: self.hash@,
            from: self.from@,
            nonce: self.nonce,
            gas_limit: self.gas_limit,
            value: self.value@,
            input: self.input@,
            block_hash: opt_bytes(self.block_hash),
            block_number: self.block_number,
            position: self.position,
            tx_type: self.payload.spec_tx_type(),
            chain_id: self.payload.spec_chain_id(),
            to: opt_bytes(self.payload.spec_to()),
            gas_price: self.payload.spec_gas_price(),
            max_fee_per_gas: self.payload.spec_max_fee_per_gas(),
            max_priority_fee_per_gas: self.payload.spec_max_priority_fee_per_gas(),
        }
    }
}

impl TransactionView {
    /// Whether the value is that of some transaction: byte strings have the
    /// width of their field, the amount fits in 256 bits, and exactly the
    /// fields that the format has are present.
    pub open spec fn wf(self) -> bool {
        &&& self.hash.len() == 32
        &&& self.from.len() == 20
        &&& self.value < crate::primitives::amount_limit()
        &&& (self.block_hash matches Some(hash) ==> hash.len() == 32)
        &&& (self.to matches Some(to) ==> to.len() == 20)
        &&& (self.tx_type != TxType::Legacy ==> self.chain_id is Some)
        &&& (self.tx_type.needs_recipient() ==> self.to is Some)
        &&& (self.gas_price is Some <==> self.tx_type.has_gas_price())
        &&& (self.max_fee_per_gas is Some <==> !self.tx_type.has_gas_price())
        &&& (self.max_priority_fee_per_gas is Some <==> !self.tx_type.has_gas_price())
    }
}

impl Transaction {
    /// A copy of the transaction.
    pub fn duplicate(&self) -> (r: Transaction)
        ensures
            r@ == self@,
    {
        Transaction {
            hash: self.hash,
            from: self.from,
            nonce: self.nonce,
            gas_limit: self.gas_limit,
            value: self.value,
            input: copy_bytes(self.input.as_slice()),
            block_hash: self.block_hash,
            block_number: self.block_number,
            position: self.position,
            payload: self.payload,
        }
    }

    /// The view of a transaction is well formed.
    pub proof fn lemma_view_wf(self)
        ensures
            self@.wf(),
    {
        broadcast use vstd::array::array_len_matches_n;

        crate::primitives::lemma_amount_below_limit(self.value.limbs@);
    }

    /// The wire format of the transaction.
    pub fn tx_type(&self) -> (r: TxType)
        ensures
            r == self@.tx_type,
    {
        match self.payload {
            TxPayload::Legacy { .. } => TxType::Legacy,
            TxPayload::AccessList { .. } => TxType::AccessList,
            TxPayload::DynamicFee { .. } => TxType::DynamicFee,
            TxPayload::Blob { .. } => TxType::Blob,
            TxPayload::Delegation { .. } => TxType::Delegation,
        }
    }

    /// The chain that the transaction is bound to, if it names one.
    pub fn chain_id(&self) -> (r: Option<u64>)
        ensures
            r == self@.chain_id,
    {
        match self.payload {
            TxPayload::Legacy { chain_id, .. } => chain_id,
            TxPayload::AccessList { chain_id, .. } => Some(chain_id),
            TxPayload::DynamicFee { chain_id, .. } => Some(chain_id),
            TxPayload::Blob { chain_id, .. } => Some(chain_id),
            TxPayload::Delegation { chain_id, .. } => Some(chain_id),
        }
    }

    /// The recipient; `None` where the transaction creates a contract.
    pub fn to(&self) -> (r: Option<Address>)
        ensures
            opt_bytes(r) == self@.to,
    {
        match self.payload {
            TxPayload::Legacy { to, .. } => to,
            TxPayload::AccessList { to, .. } => to,
            TxPayload::DynamicFee { to, .. } => to,
            TxPayload::Blob { to, .. } => Some(to),
            TxPayload::Delegation { to, .. } => Some(to),
        }
    }

    /// The gas price; `None` for the formats priced by a fee cap.
    pub fn gas_price(&self) -> (r: Option<u128>)
        ensures
            r == self@.gas_price,
    {
        match self.payload {
            TxPayload::Legacy { gas_price, .. } => Some(gas_price),
            TxPayload::AccessList { gas_price, .. } => Some(gas_price),
            _ => None,
        }
    }

    /// The fee cap; `None` for the formats priced by a gas price.
    pub fn max_fee_per_gas(&self) -> (r: Option<u128>)
        ensures
            r == self@.max_fee_per_gas,
    {
        match self.payload {
            TxPayload::DynamicFee { max_fee_per_gas, .. } => Some(max_fee_per_gas),
            TxPayload::Blob { max_fee_per_gas, .. } => Some(max_fee_per_gas),
            TxPayload::Delegation { max_fee_per_gas, .. } => Some(max_fee_per_gas),
            _ => None,
        }
    }

    /// The priority fee; `None` for the formats priced by a gas price.
    pub fn max_priority_fee_per_gas(&self) -> (r: Option<u128>)
        ensures
            r == self@.max_priority_fee_per_gas,
    {
        match self.payload {
            TxPayload::DynamicFee { max_priority_fee_per_gas, .. } => Some(
                max_priority_fee_per_gas,
            ),
            TxPayload::Blob { max_priority_fee_per_gas, .. } => Some(max_priority_fee_per_gas),
            TxPayload::Delegation { max_priority_fee_per_gas, .. } => Some(
                max_priority_fee_per_gas,
            ),
            _ => None,
        }
    }
}

/// The views of a run of transactions, in order.
pub open spec fn transaction_views(transactions: Seq<Transaction>) -> Seq<TransactionView> {
    transactions.map_values(|t: Transaction| t@)
}

/// Copies of a run of transactions, in order.
pub fn duplicate_transactions(transactions: &Vec<Transaction>) -> (r: Vec<Transaction>)
    ensures
        transaction_views(r@) == transaction_views(transactions@),
{
    let mut out: Vec<Transaction> = Vec::new();
    let mut i: usize = 0;
    while i < transactions.len()
        invariant
            i <= transactions@.len(),
            out@.len() == i,
            forall|j: int| 0 <= j < i ==> out@[j]@ == transactions@[j]@,
        decreases transactions@.len() - i,
    {
        out.push(transactions[i].duplicate());
        i = i + 1;
    }
    assert(transaction_views(out@) =~= transaction_views(transactions@));
    out
}

/// An ordered batch of transactions with the header that describes it.
#[derive(Clone, Debug, PartialEq, Eq)]
pub struct Block {
    pub header: Header,
    pub transactions: Vec<Transaction>,
}

/// A block as a mathematical value.
pub struct BlockView {
    pub header: HeaderView,
    pub transactions: Seq<TransactionView>,
}

impl View for Block {
    type V = BlockView;

    open spec fn view(&self) -> BlockView {
        BlockView { header: self.header@, transactions: transaction_views(self.transactions@) }
    }
}

/// A byte string of `n` zero bytes.
pub open spec fn zeros(n: nat) -> Seq<u8> {
    Seq::new(n, |i: int| 0u8)
}

/// The header with every field zero or empty and no optional field.
pub open spec fn zero_header() -> HeaderView {
    HeaderView {
        hash: zeros(32),
        number: 0,
        parent_hash: zeros(32),
        ommers_hash: zeros(32),
        beneficiary: zeros(20),
        state_root: zeros(32),
        transactions_root: zeros(32),
        receipts_root: zeros(32),
        logs_bloom: zeros(256),
        difficulty: 0,
        gas_limit: 0,
        gas_used: 0,
        timestamp: 0,
        extra_data: zeros(0),
        mix_hash: zeros(32),
        nonce: zeros(8),
        base_fee_per_gas: None,
        withdrawals_root: None,
        blob_gas_used: None,
        excess_blob_gas: None,
        parent_beacon_block_root: None,
        requests_hash: None,
    }
}

impl Default for Header {
    /// The header with every field zero or empty and no optional field.
    fn default() -> (r: Self)
        ensures
            r@ == zero_header(),
    {
        proof {
            broadcast use vstd::array::array_len_matches_n;

        }
        let hash = FixedBytes::<32>::zero();
        let address = FixedBytes::<20>::zero();
        let bloom = FixedBytes::<256>::zero();
        let nonce = FixedBytes::<8>::zero();
        assert(hash@ =~= zeros(32));
        assert(address@ =~= zeros(20));
        assert(bloom@ =~= zeros(256));
        assert(nonce@ =~= zeros(8));
        assert(Seq::<u8>::empty() =~= zeros(0));
        Header {
            hash,
            number: 0,
            parent_hash: hash,
            ommers_hash: hash,
            beneficiary: address,
            state_root: hash,
            transactions_root: hash,
            receipts_root: hash,
            logs_bloom: bloom,
            difficulty: U256::zero(),
            gas_limit: 0,
            gas_used: 0,
            timestamp: 0,
            extra_data: Vec::new(),
            mix_hash: hash,
            nonce,
            base_fee_per_gas: None,
            withdrawals_root: None,
            blob_gas_used: None,
            excess_blob_gas: None,
            parent_beacon_block_root: None,
            requests_hash: None,
        }
    }
}

impl Default for Block {
    /// The block with the default header and no transactions.
    fn default() -> (r: Self)
        ensures
            r@ == (BlockView { header: zero_header(), transactions: Seq::empty() }),
    {
        let r = Block { header: Header::default(), transactions: Vec::new() };
        assert(r@.transactions =~= Seq::<TransactionView>::empty());
        r
    }
}

/// What identifies a block in a request: its hash, its number, or the most
/// recent one.
#[derive(Clone, Copy, Debug, PartialEq, Eq)]
pub enum BlockId {
    Hash(BlockHash),
    Number(u64),
    Latest,
}

} // verus!
