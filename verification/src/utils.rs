//! Builder identities, link and display texts, and other small helpers.
use crate::decimal::{decimal_text, u64_to_decimal};
use crate::hex::{encode_hex, hex_text};
use crate::model::{Transaction, TxPayload};
use crate::primitives::{Address, TxHash, B256};
use crate::text::{bytes_equal, concat, leading, lemma_utf8_injective, take_chars};
use std::time::{Duration, SystemTime};
use vstd::prelude::*;
use vstd::slice::slice_subrange;
use vstd::string::StringSliceAdditionalSpecFns;

verus! {

/// The number of characters of a hash that its short form keeps.
pub const HASH_TRUNCATION_LEN: usize = 8;

/// The number of digits that the short form of an address keeps at each end.
pub const ADDRESS_HEAD_TAIL_LEN: usize = 4;

/// The greatest number of characters of a label that is shown.
pub const MAX_ADDR_LEN: usize = 32;

/// What parsing an unknown operator says.
pub const UNKNOWN_OPERATOR: &'static str = "Unknown BuilderNet operator";

/// The operators of the BuilderNet network.
#[derive(Clone, Copy, Debug, Eq, Hash, PartialEq, Structural)]
pub enum BuilderNetIdentity {
    Flashbots,
    Nethermind,
    Beaver,
}

/// The known block builders, by what they write into the extra data of the
/// blocks they build.
#[derive(Clone, Copy, Debug, Eq, Hash, PartialEq, Structural)]
pub enum BuilderIdentity {
    Beaver,
    Titan,
    Rsync,
    Penguin,
    Flashbots,
    Nethermind,
    Jet,
    Loki,
    SixtyNine,
    BuildAI,
    Beelder,
    Blocksmith,
    Bob,
    Boba,
    Manifold,
    Bitget,
    Btcs,
    Local,
    BuilderNet(BuilderNetIdentity),
}

/// Whether a byte string is the UTF-8 encoding of a tag.
pub open spec fn is_tag(data: Seq<u8>, tag: &str) -> bool {
    data == tag.spec_bytes()
}

/// The BuilderNet operator that a tag names, if it names one.
pub open spec fn operator_of(data: Seq<u8>) -> Option<BuilderNetIdentity> {
    if is_tag(data, "BuilderNet (Flashbots)") || is_tag(data, "Illuminate Dmocrtz Dstrib Prtct") {
        Some(BuilderNetIdentity::Flashbots)
    } else if is_tag(data, "BuilderNet (Nethermind)") {
        Some(BuilderNetIdentity::Nethermind)
    } else if is_tag(data, "BuilderNet (Beaverbuild)") {
        Some(BuilderNetIdentity::Beaver)
    } else {
        None
    }
}

/// The BuilderNet operator that a text names, if it names one.
pub open spec fn operator_of_text(text: Seq<char>) -> Option<BuilderNetIdentity> {
    if text == "BuilderNet (Flashbots)"@ || text == "Illuminate Dmocrtz Dstrib Prtct"@ {
        Some(BuilderNetIdentity::Flashbots)
    } else if text == "BuilderNet (Nethermind)"@ {
        Some(BuilderNetIdentity::Nethermind)
    } else if text == "BuilderNet (Beaverbuild)"@ {
        Some(BuilderNetIdentity::Beaver)
    } else {
        None
    }
}

/// What parsing a text as a BuilderNet operator gives: the operator that
/// the text names, or the error text for a text that names none.
pub open spec fn parsed_operator(
    text: Seq<char>,
    r: Result<BuilderNetIdentity, &'static str>,
) -> bool {
    match r {
        Ok(operator) => operator_of_text(text) == Some(operator),
        Err(message) => operator_of_text(text) is None && message@ == UNKNOWN_OPERATOR@,
    }
}

/// A text names the operator that its UTF-8 encoding names.
pub proof fn lemma_operator_of_text(s: &str)
    ensures
        operator_of(s.spec_bytes()) == operator_of_text(s@),
{
    lemma_utf8_injective(s@, "BuilderNet (Nethermind)"@);
    lemma_utf8_injective(s@, "BuilderNet (Beaverbuild)"@);
    lemma_utf8_injective(s@, "BuilderNet (Flashbots)"@);
    lemma_utf8_injective(s@, "Illuminate Dmocrtz Dstrib Prtct"@);
}

/// The builder that a block's extra data names. Extra data that is no known
/// tag, or no text at all, means that the block was built locally.
pub open spec fn builder_of(data: Seq<u8>) -> BuilderIdentity {
    if is_tag(data, "beaverbuild.org") {
        BuilderIdentity::Beaver
    } else if is_tag(data, "Titan (titanbuilder.xyz)") {
        BuilderIdentity::Titan
    } else if is_tag(data, "@rsyncbuilder") || is_tag(data, "rsync-builder.xyz") {
        BuilderIdentity::Rsync
    } else if is_tag(data, "Illuminate Dmocratize Dstribute") || is_tag(
        data,
        "Illuminate Dmocrtz Dstrib Prtct",
    ) {
        BuilderIdentity::Flashbots
    } else if is_tag(data, "penguinbuild.org") || is_tag(data, "@penguinbuild.org") || is_tag(
        data,
        "@@penguinbuild.org",
    ) {
        BuilderIdentity::Penguin
    } else if is_tag(data, "Nethermind") {
        BuilderIdentity::Nethermind
    } else if is_tag(data, "jetbldr.xyz") {
        BuilderIdentity::Jet
    } else if is_tag(data, "lokibuilder.xyz") {
        BuilderIdentity::Loki
    } else if is_tag(data, "builder0x69") || is_tag(data, "by builder0x69") || is_tag(
        data,
        "by @builder0x69",
    ) {
        BuilderIdentity::SixtyNine
    } else if is_tag(data, "BuildAI (https://buildai.net)") {
        BuilderIdentity::BuildAI
    } else if is_tag(data, "https://blockbeelder.com \u{1f41d}") {
        BuilderIdentity::Beelder
    } else if is_tag(data, "blocksmith.org") {
        BuilderIdentity::Blocksmith
    } else if is_tag(data, "bobTheBuilder.xyz") {
        BuilderIdentity::Bob
    } else if is_tag(data, "boba-builder.com") {
        BuilderIdentity::Boba
    } else if is_tag(data, "Manifold: coinbase") {
        BuilderIdentity::Manifold
    } else if is_tag(data, "Bitget(https://www.bitget.com/)") {
        BuilderIdentity::Bitget
    } else if is_tag(data, "Builder+ www.btcs.com/builder") {
        BuilderIdentity::Btcs
    } else {
        match operator_of(data) {
            Some(operator) => BuilderIdentity::BuilderNet(operator),
            None => BuilderIdentity::Local,
        }
    }
}

fn tagged(data: &[u8], tag: &str) -> (r: bool)
    ensures
        r == is_tag(data@, tag),
{
    bytes_equal(data, tag.as_bytes())
}

impl BuilderNetIdentity {
    /// The name of the operator.
    pub open spec fn name(self) -> Seq<char> {
        match self {
            BuilderNetIdentity::Flashbots => "Flashbots"@,
            BuilderNetIdentity::Nethermind => "Nethermind"@,
            BuilderNetIdentity::Beaver => "Beaver"@,
        }
    }

    /// The name of the operator.
    pub fn to_string(&self) -> (r: String)
        ensures
            r@ == self.name(),
    {
        match self {
            BuilderNetIdentity::Flashbots => "Flashbots".to_owned(),
            BuilderNetIdentity::Nethermind => "Nethermind".to_owned(),
            BuilderNetIdentity::Beaver => "Beaver".to_owned(),
        }
    }

    /// The operator that the bytes of a tag name; `None` for an unknown tag.
    pub fn from_bytes(data: &[u8]) -> (r: Option<Self>)
        ensures
            r == operator_of(data@),
    {
        if tagged(data, "BuilderNet (Flashbots)") || tagged(
            data,
            "Illuminate Dmocrtz Dstrib Prtct",
        ) {
            Some(BuilderNetIdentity::Flashbots)
        } else if tagged(data, "BuilderNet (Nethermind)") {
            Some(BuilderNetIdentity::Nethermind)
        } else if tagged(data, "BuilderNet (Beaverbuild)") {
            Some(BuilderNetIdentity::Beaver)
        } else {
            None
        }
    }

    /// The operator that a tag names; an error for an unknown tag.
    pub fn from_str(s: &str) -> (r: Result<Self, &'static str>)
        ensures
            parsed_operator(s@, r),
    {
        proof {
            lemma_operator_of_text(s);
        }
        match Self::from_bytes(s.as_bytes()) {
            Some(operator) => Ok(operator),
            None => Err(UNKNOWN_OPERATOR),
        }
    }
}

impl std::str::FromStr for BuilderNetIdentity {
    type Err = &'static str;

    /// Parses the tag of a BuilderNet operator: `Ok` of the operator that
    /// the text names, and the error text for a text that names none.
    fn from_str(s: &str) -> (r: Result<Self, Self::Err>)
        ensures
            parsed_operator(s@, r),
    {
        BuilderNetIdentity::from_str(s)
    }
}

impl BuilderIdentity {
    /// The name under which the builder is shown.
    pub open spec fn name(self) -> Seq<char> {
        match self {
            BuilderIdentity::Beaver => "beaverbuild"@,
            BuilderIdentity::Titan => "Titan Builder"@,
            BuilderIdentity::Rsync => "rsync-builder"@,
            BuilderIdentity::Penguin => "penguinbuild.org"@,
            BuilderIdentity::Flashbots => "Flashbots"@,
            BuilderIdentity::Nethermind => "Nethermind"@,
            BuilderIdentity::Jet => "JetBuilder"@,
            BuilderIdentity::Loki => "Loki Builder"@,
            BuilderIdentity::SixtyNine => "Builder0x69"@,
            BuilderIdentity::BuildAI => "BuildAI"@,
            BuilderIdentity::Beelder => "beelder.eth"@,
            BuilderIdentity::Blocksmith => "Blocksmith"@,
            BuilderIdentity::Bob => "Bob The Builder"@,
            BuilderIdentity::Boba => "Boba Builder"@,
            BuilderIdentity::Manifold => "Manifold"@,
            BuilderIdentity::Bitget => "Bitget"@,
            BuilderIdentity::Btcs => "Builder+"@,
            BuilderIdentity::Local => "<local>"@,
            BuilderIdentity::BuilderNet(operator) => "BuilderNet - "@ + operator.name(),
        }
    }

    /// The name under which the builder is shown.
    pub fn to_string(&self) -> (r: String)
        ensures
            r@ == self.name(),
    {
        match self {
            BuilderIdentity::Beaver => "beaverbuild".to_owned(),
            BuilderIdentity::Titan => "Titan Builder".to_owned(),
            BuilderIdentity::Rsync => "rsync-builder".to_owned(),
            BuilderIdentity::Penguin => "penguinbuild.org".to_owned(),
            BuilderIdentity::Flashbots => "Flashbots".to_owned(),
            BuilderIdentity::Nethermind => "Nethermind".to_owned(),
            BuilderIdentity::Jet => "JetBuilder".to_owned(),
            BuilderIdentity::Loki => "Loki Builder".to_owned(),
            BuilderIdentity::SixtyNine => "Builder0x69".to_owned(),
            BuilderIdentity::BuildAI => "BuildAI".to_owned(),
            BuilderIdentity::Beelder => "beelder.eth".to_owned(),
            BuilderIdentity::Blocksmith => "Blocksmith".to_owned(),
            BuilderIdentity::Bob => "Bob The Builder".to_owned(),
            BuilderIdentity::Boba => "Boba Builder".to_owned(),
            BuilderIdentity::Manifold => "Manifold".to_owned(),
            BuilderIdentity::Bitget => "Bitget".to_owned(),
            BuilderIdentity::Btcs => "Builder+".to_owned(),
            BuilderIdentity::Local => "<local>".to_owned(),
            BuilderIdentity::BuilderNet(operator) => {
                let name = operator.to_string();
                concat("BuilderNet - ", name.as_str())
            },
        }
    }

    /// The builder that a block's extra data names.
    pub fn from_extra_data(data: &[u8]) -> (r: Self)
        ensures
            r == builder_of(data@),
    {
        if tagged(data, "beaverbuild.org") {
            BuilderIdentity::Beaver
        } else if tagged(data, "Titan (titanbuilder.xyz)") {
            BuilderIdentity::Titan
        } else if tagged(data, "@rsyncbuilder") || tagged(data, "rsync-builder.xyz") {
            BuilderIdentity::Rsync
        } else if tagged(data, "Illuminate Dmocratize Dstribute") || tagged(
            data,
            "Illuminate Dmocrtz Dstrib Prtct",
        ) {
            BuilderIdentity::Flashbots
        } else if tagged(data, "penguinbuild.org") || tagged(data, "@penguinbuild.org") || tagged(
            data,
            "@@penguinbuild.org",
        ) {
            BuilderIdentity::Penguin
        } else if tagged(data, "Nethermind") {
            BuilderIdentity::Nethermind
        } else if tagged(data, "jetbldr.xyz") {
            BuilderIdentity::Jet
        } else if tagged(data, "lokibuilder.xyz") {
            BuilderIdentity::Loki
        } else if tagged(data, "builder0x69") || tagged(data, "by builder0x69") || tagged(
            data,
            "by @builder0x69",
        ) {
            BuilderIdentity::SixtyNine
        } else if tagged(data, "BuildAI (https://buildai.net)") {
            BuilderIdentity::BuildAI
        } else if tagged(data, "https://blockbeelder.com \u{1f41d}") {
            BuilderIdentity::Beelder
        } else if tagged(data, "blocksmith.org") {
            BuilderIdentity::Blocksmith
        } else if tagged(data, "bobTheBuilder.xyz") {
            BuilderIdentity::Bob
        } else if tagged(data, "boba-builder.com") {
            BuilderIdentity::Boba
        } else if tagged(data, "Manifold: coinbase") {
            BuilderIdentity::Manifold
        } else if tagged(data, "Bitget(https://www.bitget.com/)") {
            BuilderIdentity::Bitget
        } else if tagged(data, "Builder+ www.btcs.com/builder") {
            BuilderIdentity::Btcs
        } else {
            match BuilderNetIdentity::from_bytes(data) {
                Some(operator) => BuilderIdentity::BuilderNet(operator),
                None => BuilderIdentity::Local,
            }
        }
    }
}

impl From<Vec<u8>> for BuilderIdentity {
    fn from(value: Vec<u8>) -> (r: Self)
        ensures
            r == builder_of(value@),
    {
        BuilderIdentity::from_extra_data(value.as_slice())
    }
}

impl vstd::std_specs::convert::FromSpecImpl<Vec<u8>> for BuilderIdentity {
    open spec fn obeys_from_spec() -> bool {
        true
    }

    open spec fn from_spec(value: Vec<u8>) -> Self {
        builder_of(value@)
    }
}

/// The link to a block on the public explorer.
pub fn etherscan_block_url(block_number: u64) -> (r: String)
    ensures
        r@ == "https://etherscan.io/block/"@ + decimal_text(block_number as nat),
{
    let number = u64_to_decimal(block_number);
    concat("https://etherscan.io/block/", number.as_str())
}

/// The link to a transaction on the public explorer.
pub fn etherscan_transaction_url(transaction_hash: &TxHash) -> (r: String)
    ensures
        r@ == "https://etherscan.io/tx/"@ + hex_text(transaction_hash@),
{
    let hash = transaction_hash.to_hex();
    concat("https://etherscan.io/tx/", hash.as_str())
}

/// The short form of a hash: the first eight characters of its text, then
/// three dots.
pub fn shorten_hash(hash: &B256) -> (r: String)
    ensures
        r@ == hex_text(hash@).subrange(0, 8) + "..."@,
{
    let text = hash.to_hex();
    let head = take_chars(text.as_str(), HASH_TRUNCATION_LEN);
    proof {
        crate::hex::lemma_hex_round_trip(hash@);
        broadcast use vstd::array::array_len_matches_n;

    }
    concat(head.as_str(), "...")
}

/// The checksummed text of an address, as the alloy crate writes it.
pub uninterp spec fn checksum_text(address: Seq<u8>) -> Seq<char>;

/// Writes an address in its checksummed form.
///
/// Trusted: `Address::to_checksum` of alloy, without a chain identity. The
/// contract gives the text a name and claims that it has 42 characters: `0x`
/// and forty hexadecimal digits.
#[verifier::external_body]
fn address_checksum(address: &[u8; 20]) -> (s: String)
    ensures
        s@ == checksum_text(address@),
        s@.len() == 42,
{
    alloy::primitives::Address::from(*address).to_checksum(None)
}

/// The short form of a text of at least six characters: its first six
/// characters, three dots, and its last four characters.
pub open spec fn shortened(text: Seq<char>) -> Seq<char> {
    text.subrange(0, 6) + "..."@ + text.subrange(text.len() - 4, text.len() as int)
}

/// Shortens the text of an address to its head and tail.
pub fn shorten_text(text: &str) -> (r: String)
    requires
        text@.len() >= 6,
    ensures
        r@ == shortened(text@),
{
    let n = text.unicode_len();
    let head = text.substring_char(0, ADDRESS_HEAD_TAIL_LEN + 2);
    let tail = text.substring_char(n - ADDRESS_HEAD_TAIL_LEN, n);
    let start = concat(head, "...");
    concat(start.as_str(), tail)
}

/// The short form of an address: the head and the tail of its checksummed
/// text.
pub fn shorten_address(address: &Address) -> (r: String)
    ensures
        r@ == shortened(checksum_text(address@)),
{
    let text = address_checksum(&address.bytes);
    shorten_text(text.as_str())
}

/// The time between a Unix timestamp and a later instant.
#[derive(Clone, Copy, Debug, PartialEq, Eq, Structural)]
pub struct Elapsed {
    /// Whole seconds.
    pub secs: u64,
    /// The rest, in nanoseconds: below one second.
    pub nanos: u32,
}

/// A point in time of the system clock, kept as the standard library has it.
#[verifier::external_type_specification]
#[verifier::external_body]
pub struct ExSystemTime(SystemTime);

/// Reads the system clock.
///
/// Trusted: `SystemTime::now`. Nothing is claimed of the result.
#[verifier::external_body]
fn clock_now() -> SystemTime {
    SystemTime::now()
}

/// The time since the Unix epoch at a point in time.
///
/// Trusted: `SystemTime::duration_since`. Nothing is claimed of the result;
/// `None` stands for a clock set before the epoch.
#[verifier::external_body]
fn since_epoch(now: &SystemTime) -> Option<Duration> {
    now.duration_since(SystemTime::UNIX_EPOCH).ok()
}

/// The whole seconds of a duration.
///
/// Trusted: `Duration::as_secs`. Nothing is claimed of the result.
#[verifier::external_body]
fn whole_seconds(duration: &Duration) -> u64 {
    duration.as_secs()
}

/// The part of a duration below one second, in nanoseconds.
///
/// Trusted: `Duration::subsec_nanos`, which is documented to stay below one
/// second.
#[verifier::external_body]
fn subsecond_nanos(duration: &Duration) -> (nanos: u32)
    ensures
        nanos < 1_000_000_000,
{
    duration.subsec_nanos()
}

/// The time from a timestamp to an instant given as seconds and nanoseconds
/// since the epoch; `None` where the timestamp lies after the instant.
pub open spec fn elapsed_of(now_secs: u64, now_nanos: u32, timestamp: u64) -> Option<Elapsed> {
    if now_secs >= timestamp {
        Some(Elapsed { secs: (now_secs - timestamp) as u64, nanos: now_nanos })
    } else {
        None
    }
}

/// The time from a timestamp to an instant given as seconds and nanoseconds
/// since the epoch; `None` where the timestamp lies after the instant.
pub fn elapsed_between(now_secs: u64, now_nanos: u32, timestamp: u64) -> (r: Option<Elapsed>)
    ensures
        r == elapsed_of(now_secs, now_nanos, timestamp),
{
    if now_secs >= timestamp {
        Some(Elapsed { secs: now_secs - timestamp, nanos: now_nanos })
    } else {
        None
    }
}

/// The time that has passed since a Unix timestamp, by the system clock:
/// the time from the timestamp to the instant that the clock shows. `None`
/// where the timestamp lies after that instant or the clock is set before
/// the epoch. Which instant the clock shows is for the clock to say.
pub fn duration_since_timestamp(timestamp: u64) -> (r: Option<Elapsed>)
    ensures
        r is None || exists|now_secs: u64, now_nanos: u32|
            now_nanos < 1_000_000_000 && r == #[trigger] elapsed_of(
                now_secs,
                now_nanos,
                timestamp,
            ),
        r matches Some(elapsed) ==> elapsed.nanos < 1_000_000_000 && elapsed.secs + timestamp
            <= u64::MAX,
{
    let now = clock_now();
    match since_epoch(&now) {
        Some(duration) => {
            let now_secs = whole_seconds(&duration);
            let now_nanos = subsecond_nanos(&duration);
            elapsed_between(now_secs, now_nanos, timestamp)
        },
        None => None,
    }
}

/// How the input data of a transaction is shown in a list.
pub open spec fn readable_data(data: Seq<u8>) -> Seq<char> {
    if data.len() == 0 {
        "\u{2205}"@
    } else if data.len() > 10 {
        hex_text(data).subrange(0, 10) + "..."@
    } else {
        hex_text(data)
    }
}

/// The input data of a transaction for a list: a sign for empty data, the
/// first ten characters of the text and three dots for data of more than ten
/// bytes, and the whole text otherwise.
pub fn human_readable_tx_data(data: &[u8]) -> (r: String)
    ensures
        r@ == readable_data(data@),
{
    let buflen = data.len();
    if buflen == 0 {
        "\u{2205}".to_owned()
    } else if buflen > 10 {
        let text = encode_hex(data);
        let head = take_chars(text.as_str(), 10);
        concat(head.as_str(), "...")
    } else {
        encode_hex(data)
    }
}

/// The price per gas that a transaction offers at most: its gas price, or
/// its fee cap where it has one.
pub fn useful_gas_price(tx: &Transaction) -> (r: u128)
    ensures
        r == match tx@.gas_price {
            Some(price) => price,
            None => tx@.max_fee_per_gas.unwrap(),
        },
{
    match tx.payload {
        TxPayload::Legacy { gas_price, .. } => gas_price,
        TxPayload::AccessList { gas_price, .. } => gas_price,
        TxPayload::DynamicFee { max_fee_per_gas, .. } => max_fee_per_gas,
        TxPayload::Blob { max_fee_per_gas, .. } => max_fee_per_gas,
        TxPayload::Delegation { max_fee_per_gas, .. } => max_fee_per_gas,
    }
}

/// The bytes of `xs` from index `a` up to, not including, index `b`, cut at
/// the end of `xs`.
pub open spec fn range_of(xs: Seq<u8>, a: int, b: int) -> Seq<u8> {
    if a >= xs.len() {
        Seq::empty()
    } else if b > xs.len() {
        xs.subrange(a, xs.len() as int)
    } else {
        xs.subrange(a, b)
    }
}

/// Copies a range of bytes, cut at the end of the input. A range that
/// starts within the input must not end before it starts.
pub fn grab_range(xs: &[u8], a: usize, b: usize) -> (r: Vec<u8>)
    requires
        a < xs@.len() && b <= xs@.len() ==> a <= b,
    ensures
        r@ == range_of(xs@, a as int, b as int),
{
    if a >= xs.len() {
        Vec::new()
    } else if b > xs.len() {
        crate::sql::copy_bytes(slice_subrange(xs, a, xs.len()))
    } else {
        crate::sql::copy_bytes(slice_subrange(xs, a, b))
    }
}

/// A name for an address.
#[derive(Clone, Debug, PartialEq, Eq)]
pub struct LabelEntry {
    pub address: Address,
    pub name_tag: String,
}

/// The table of address labels, loaded once and passed to whoever formats
/// addresses. Where an address occurs more than once the last entry counts.
#[derive(Clone, Debug)]
pub struct AddressLabels {
    pub entries: Vec<LabelEntry>,
}

impl AddressLabels {
    /// Whether entry `k` is the one that names `address`: the last entry
    /// with that address.
    pub open spec fn names(self, k: int, address: Seq<u8>) -> bool {
        &&& 0 <= k < self.entries@.len()
        &&& self.entries@[k].address@ == address
        &&& forall|j: int|
            k < j < self.entries@.len() ==> (#[trigger] self.entries@[j]).address@ != address
    }

    /// Whether the table has no name for `address`.
    pub open spec fn unnamed(self, address: Seq<u8>) -> bool {
        forall|j: int|
            0 <= j < self.entries@.len() ==> (#[trigger] self.entries@[j]).address@ != address
    }

    /// The label shown for `address`: the name that the table has for it,
    /// cut to 32 characters, or the short form of the address where the
    /// table has none.
    pub open spec fn label_of(self, address: Seq<u8>) -> Seq<char> {
        if self.unnamed(address) {
            shortened(checksum_text(address))
        } else {
            let k = choose|k: int| self.names(k, address);
            leading(self.entries@[k].name_tag@, MAX_ADDR_LEN as nat)
        }
    }

    /// An empty table.
    pub fn new() -> (r: Self)
        ensures
            r.entries@.len() == 0,
    {
        AddressLabels { entries: Vec::new() }
    }

    /// The index of the entry that names an address, if there is one.
    pub fn find(&self, address: &Address) -> (r: Option<usize>)
        ensures
            match r {
                Some(k) => self.names(k as int, address@),
                None => self.unnamed(address@),
            },
    {
        let mut i: usize = self.entries.len();
        while i > 0
            invariant
                i <= self.entries@.len(),
                forall|j: int|
                    i <= j < self.entries@.len() ==> (#[trigger] self.entries@[j]).address@
                        != address@,
            decreases i,
        {
            i = i - 1;
            if self.entries[i].address.same(address) {
                return Some(i);
            }
        }
        None
    }
}

/// The label of an address: its name from the table, cut to 32 characters,
/// or its short form where the table has no name for it.
pub fn label_address(address: &Address, labels: &AddressLabels) -> (r: String)
    ensures
        r@ == labels.label_of(address@),
{
    match labels.find(address) {
        Some(k) => {
            proof {
                let w = choose|w: int| labels.names(w, address@);
                assert(labels.names(k as int, address@));
                assert(w == k);
            }
            take_chars(labels.entries[k].name_tag.as_str(), MAX_ADDR_LEN)
        },
        None => shorten_address(address),
    }
}

} // verus!
