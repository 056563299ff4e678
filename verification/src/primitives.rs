//! Fixed-width byte strings and 256-bit amounts.
use crate::decimal::{all_digits, decimal_text, decimal_value, is_decimal, lemma_decimal_round_trip};
use crate::hex::{decode_hex, encode_hex, hex_text, lemma_hex_round_trip, parse_hex};
use vstd::prelude::*;

verus! {

/// A byte string of exactly `N` bytes.
#[derive(Clone, Copy, Debug, PartialEq, Eq, Hash)]
pub struct FixedBytes<const N: usize> {
    pub bytes: [u8; N],
}

/// A 32-byte digest.
pub type B256 = FixedBytes<32>;

/// The digest that identifies a block.
pub type BlockHash = FixedBytes<32>;

/// The digest that identifies a transaction.
pub type TxHash = FixedBytes<32>;

/// A 20-byte account address.
pub type Address = FixedBytes<20>;

/// A 256-byte log filter.
pub type Bloom = FixedBytes<256>;

/// An 8-byte proof-of-work nonce.
pub type B64 = FixedBytes<8>;

impl<const N: usize> View for FixedBytes<N> {
    type V = Seq<u8>;

    open spec fn view(&self) -> Seq<u8> {
        self.bytes@
    }
}

impl<const N: usize> Default for FixedBytes<N> {
    /// The byte string of `N` zero bytes.
    fn default() -> (r: Self)
        ensures
            r@.len() == N,
            forall|i: int| 0 <= i < N ==> r@[i] == 0,
    {
        FixedBytes { bytes: [0u8;N] }
    }
}

/// The bytes that a text spells, where it spells exactly `n` of them.
pub open spec fn parse_fixed(text: Seq<char>, n: nat) -> Option<Seq<u8>> {
    match parse_hex(text) {
        Some(bytes) => if bytes.len() == n {
            Some(bytes)
        } else {
            None
        },
        None => None,
    }
}

impl<const N: usize> FixedBytes<N> {
    /// The byte string of `N` zero bytes.
    pub fn zero() -> (r: Self)
        ensures
            r@.len() == N,
            forall|i: int| 0 <= i < N ==> r@[i] == 0,
    {
        FixedBytes { bytes: [0u8;N] }
    }

    /// The byte string that holds the bytes of `source`, which must be `N`.
    pub fn from_slice(source: &[u8]) -> (r: Option<Self>)
        ensures
            r is Some <==> source@.len() == N,
            r matches Some(b) ==> b@ == source@,
    {
        if source.len() != N {
            return None;
        }
        let mut bytes = [0u8;N];
        let mut i: usize = 0;
        while i < N
            invariant
                i <= N,
                source@.len() == N,
                forall|j: int| 0 <= j < i ==> bytes@[j] == source@[j],
            decreases N - i,
        {
            bytes[i] = source[i];
            i = i + 1;
        }
        let r = FixedBytes { bytes };
        assert(r@ =~= source@);
        Some(r)
    }

    /// Whether all bytes are zero.
    pub fn is_zero(&self) -> (r: bool)
        ensures
            r == (forall|i: int| 0 <= i < N ==> self@[i] == 0),
    {
        let mut i: usize = 0;
        while i < N
            invariant
                i <= N,
                forall|j: int| 0 <= j < i ==> self@[j] == 0,
            decreases N - i,
        {
            if self.bytes[i] != 0 {
                assert(self@[i as int] != 0);
                return false;
            }
            i = i + 1;
        }
        true
    }

    /// Whether two byte strings hold the same bytes.
    pub fn same(&self, other: &Self) -> (r: bool)
        ensures
            r == (self@ == other@),
    {
        let mut i: usize = 0;
        while i < N
            invariant
                i <= N,
                forall|j: int| 0 <= j < i ==> self@[j] == other@[j],
            decreases N - i,
        {
            if self.bytes[i] != other.bytes[i] {
                return false;
            }
            i = i + 1;
        }
        assert(self@ =~= other@);
        true
    }

    /// The canonical text: `0x` and two lower-case digits per byte.
    pub fn to_hex(&self) -> (s: String)
        ensures
            s@ == hex_text(self@),
            parse_fixed(s@, N as nat) == Some(self@),
    {
        proof {
            lemma_hex_round_trip(self@);
        }
        encode_hex(self.bytes.as_slice())
    }

    /// Reads hexadecimal text that spells exactly `N` bytes.
    pub fn from_hex(text: &str) -> (r: Option<Self>)
        ensures
            r is Some <==> parse_fixed(text@, N as nat) is Some,
            r matches Some(b) ==> Some(b@) == parse_fixed(text@, N as nat),
    {
        match decode_hex(text) {
            Some(bytes) => Self::from_slice(bytes.as_slice()),
            None => None,
        }
    }
}

/// Two to the power 64: the weight of the second limb.
pub open spec fn limb_base() -> nat {
    0x1_0000_0000_0000_0000
}

/// One more than the greatest 256-bit amount.
pub open spec fn amount_limit() -> nat {
    limb_base() * limb_base() * limb_base() * limb_base()
}

/// The number that four 64-bit limbs hold, least significant first.
pub open spec fn limbs_value(limbs: Seq<u64>) -> nat {
    limbs[0] as nat + limbs[1] as nat * limb_base() + limbs[2] as nat * limb_base() * limb_base()
        + limbs[3] as nat * limb_base() * limb_base() * limb_base()
}

/// The amount that a decimal text spells, if it is a non-empty run of digits
/// whose number fits in 256 bits.
pub open spec fn parse_amount(text: Seq<char>) -> Option<nat> {
    if text.len() > 0 && all_digits(text) && decimal_value(text) < amount_limit() {
        Some(decimal_value(text))
    } else {
        None
    }
}

/// An unsigned 256-bit amount, held as four limbs, least significant first.
#[derive(Clone, Copy, Debug, PartialEq, Eq, Hash)]
pub struct U256 {
    pub limbs: [u64; 4],
}

impl View for U256 {
    type V = nat;

    open spec fn view(&self) -> nat {
        limbs_value(self.limbs@)
    }
}

impl Default for U256 {
    /// The amount zero.
    fn default() -> (r: Self)
        ensures
            r@ == 0,
    {
        U256 { limbs: [0u64;4] }
    }
}

/// Formats four limbs as a decimal number.
///
/// Trusted: `Uint::<256, 4>::from_limbs` and the `Display` of `ruint::Uint`
/// as re-exported by alloy. The contract claims that the text is the plain
/// decimal text of the number the limbs hold.
#[verifier::external_body]
fn limbs_to_decimal(limbs: &[u64; 4]) -> (s: String)
    ensures
        s@ == decimal_text(limbs_value(limbs@)),
{
    alloy::primitives::U256::from_limbs(*limbs).to_string()
}

/// Parses a run of decimal digits into four limbs.
///
/// Trusted: the `FromStr` of `ruint::Uint` as re-exported by alloy. On text
/// made of decimal digits only it reads base ten; the contract claims that it
/// succeeds exactly when the number fits in 256 bits and then returns the
/// limbs of that number.
#[verifier::external_body]
fn limbs_from_decimal(text: &str) -> (r: Option<[u64; 4]>)
    requires
        text@.len() > 0,
        all_digits(text@),
    ensures
        r is Some <==> decimal_value(text@) < amount_limit(),
        r matches Some(limbs) ==> limbs_value(limbs@) == decimal_value(text@),
{
    match text.parse::<alloy::primitives::U256>() {
        Ok(value) => Some(value.into_limbs()),
        Err(_) => None,
    }
}

impl U256 {
    /// The amount zero.
    pub fn zero() -> (r: Self)
        ensures
            r@ == 0,
    {
        U256 { limbs: [0u64;4] }
    }

    /// The amount equal to a 64-bit number.
    pub fn from_u64(value: u64) -> (r: Self)
        ensures
            r@ == value,
    {
        let mut limbs = [0u64;4];
        limbs[0] = value;
        U256 { limbs }
    }

    /// The amount equal to a 128-bit number.
    pub fn from_u128(value: u128) -> (r: Self)
        ensures
            r@ == value,
    {
        let mut limbs = [0u64;4];
        limbs[0] = (value % 0x1_0000_0000_0000_0000) as u64;
        limbs[1] = (value / 0x1_0000_0000_0000_0000) as u64;
        U256 { limbs }
    }

    /// The amount as a 128-bit number, where it fits.
    pub fn to_u128(&self) -> (r: Option<u128>)
        ensures
            r is Some <==> self@ <= u128::MAX,
            r matches Some(v) ==> v == self@,
    {
        if self.limbs[2] == 0 && self.limbs[3] == 0 {
            let high: u128 = self.limbs[1] as u128;
            let low: u128 = self.limbs[0] as u128;
            Some(high * 0x1_0000_0000_0000_0000 + low)
        } else {
            assert(self@ >= limb_base() * limb_base()) by (nonlinear_arith)
                requires
                    self@ == self.limbs@[0] as nat + self.limbs@[1] as nat * limb_base()
                        + self.limbs@[2] as nat * limb_base() * limb_base() + self.limbs@[3] as nat
                        * limb_base() * limb_base() * limb_base(),
                    self.limbs@[2] > 0 || self.limbs@[3] > 0,
                    limb_base() > 0,
            ;
            None
        }
    }

    /// Whether two amounts are the same number.
    pub fn same(&self, other: &Self) -> (r: bool)
        ensures
            r == (self@ == other@),
    {
        let r = self.limbs[0] == other.limbs[0] && self.limbs[1] == other.limbs[1]
            && self.limbs[2] == other.limbs[2] && self.limbs[3] == other.limbs[3];
        proof {
            if self@ == other@ {
                lemma_limbs_injective(self.limbs@, other.limbs@);
            }
            if r {
                assert(self.limbs@ =~= other.limbs@);
            }
        }
        r
    }

    /// The plain decimal text of the amount.
    pub fn to_decimal(&self) -> (s: String)
        ensures
            s@ == decimal_text(self@),
            parse_amount(s@) == Some(self@),
    {
        proof {
            lemma_decimal_round_trip(self@);
            lemma_amount_below_limit(self.limbs@);
        }
        limbs_to_decimal(&self.limbs)
    }

    /// Reads an amount from decimal text. Returns `None` unless the text is a
    /// non-empty run of digits whose number fits in 256 bits.
    pub fn from_decimal(text: &str) -> (r: Option<Self>)
        ensures
            r is Some <==> parse_amount(text@) is Some,
            r matches Some(v) ==> Some(v@) == parse_amount(text@),
    {
        if !is_decimal(text) {
            return None;
        }
        match limbs_from_decimal(text) {
            Some(limbs) => Some(U256 { limbs }),
            None => None,
        }
    }
}

/// Different limbs hold different numbers.
pub proof fn lemma_limbs_injective(a: Seq<u64>, b: Seq<u64>)
    requires
        a.len() == 4,
        b.len() == 4,
        limbs_value(a) == limbs_value(b),
    ensures
        a[0] == b[0],
        a[1] == b[1],
        a[2] == b[2],
        a[3] == b[3],
{
    let w = limb_base() as int;
    let high_a = a[1] as int + a[2] as int * w + a[3] as int * w * w;
    let high_b = b[1] as int + b[2] as int * w + b[3] as int * w * w;
    assert(limbs_value(a) == a[0] as int + high_a * w) by (nonlinear_arith)
        requires
            limbs_value(a) == a[0] as int + a[1] as int * w + a[2] as int * w * w + a[3] as int
                * w * w * w,
            high_a == a[1] as int + a[2] as int * w + a[3] as int * w * w,
    ;
    assert(limbs_value(b) == b[0] as int + high_b * w) by (nonlinear_arith)
        requires
            limbs_value(b) == b[0] as int + b[1] as int * w + b[2] as int * w * w + b[3] as int
                * w * w * w,
            high_b == b[1] as int + b[2] as int * w + b[3] as int * w * w,
    ;
    lemma_split_unique(a[0] as int, high_a, b[0] as int, high_b, w);
    let top_a = a[2] as int + a[3] as int * w;
    let top_b = b[2] as int + b[3] as int * w;
    assert(high_a == a[1] as int + top_a * w) by (nonlinear_arith)
        requires
            high_a == a[1] as int + a[2] as int * w + a[3] as int * w * w,
            top_a == a[2] as int + a[3] as int * w,
    ;
    assert(high_b == b[1] as int + top_b * w) by (nonlinear_arith)
        requires
            high_b == b[1] as int + b[2] as int * w + b[3] as int * w * w,
            top_b == b[2] as int + b[3] as int * w,
    ;
    lemma_split_unique(a[1] as int, top_a, b[1] as int, top_b, w);
    lemma_split_unique(a[2] as int, a[3] as int, b[2] as int, b[3] as int, w);
}

/// A number splits in only one way into a digit and a multiple of the base.
proof fn lemma_split_unique(low_a: int, high_a: int, low_b: int, high_b: int, w: int)
    requires
        0 <= low_a < w,
        0 <= low_b < w,
        low_a + high_a * w == low_b + high_b * w,
    ensures
        low_a == low_b,
        high_a == high_b,
{
    assert(high_a == high_b) by (nonlinear_arith)
        requires
            0 <= low_a < w,
            0 <= low_b < w,
            low_a + high_a * w == low_b + high_b * w,
    ;
}

/// Every 128-bit number is a 256-bit amount.
pub proof fn lemma_fee_below_limit()
    ensures
        u128::MAX < amount_limit(),
{
    let b = limb_base();
    assert(b * b == 0x1_0000_0000_0000_0000_0000_0000_0000_0000);
    assert(b * b * b * b == (b * b) * (b * b)) by (nonlinear_arith);
    assert((b * b) * (b * b) >= b * b) by (nonlinear_arith)
        requires
            b * b >= 1,
    ;
}

/// Four limbs hold a number below two to the power 256.
pub proof fn lemma_amount_below_limit(limbs: Seq<u64>)
    requires
        limbs.len() == 4,
    ensures
        limbs_value(limbs) < amount_limit(),
{
    let b = limb_base();
    let l0 = limbs[0] as nat;
    let l1 = limbs[1] as nat;
    let l2 = limbs[2] as nat;
    let l3 = limbs[3] as nat;
    assert(l0 + l1 * b + l2 * b * b + l3 * b * b * b < b * b * b * b) by (nonlinear_arith)
        requires
            l0 < b,
            l1 < b,
            l2 < b,
            l3 < b,
    ;
}

} // verus!
