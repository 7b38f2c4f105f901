//! Unsigned 256-bit quantities with overflow-detecting arithmetic.
//!
//! An [`Amount`] holds its value as four 64-bit words, least significant
//! first, which is the layout of `ethers::types::U256`. Its view is the
//! natural number the words stand for. Subtraction, multiplication and
//! division are carried out by `U256`; everything else is computed here.

use ethers::types::U256;
use vstd::prelude::*;

verus! {

/// An unsigned 256-bit integer: token amounts, gas prices, nonces, timestamps.
#[derive(Clone, Copy, Debug, PartialEq, Eq)]
pub struct Amount {
    /// The four 64-bit words of the value, least significant first.
    pub limbs: [u64; 4],
}

/// `2^256`: every [`Amount`] is below it.
pub open spec fn amount_limit() -> nat {
    0x1_0000_0000_0000_0000_0000_0000_0000_0000_0000_0000_0000_0000_0000_0000_0000_0000nat
}

/// The number that four words stand for, least significant word first.
pub open spec fn limbs_value(l: Seq<u64>) -> nat {
    (l[0] + l[1] * 0x1_0000_0000_0000_0000 + l[2] * 0x1_0000_0000_0000_0000_0000_0000_0000_0000
        + l[3] * 0x1_0000_0000_0000_0000_0000_0000_0000_0000_0000_0000_0000_0000) as nat
}

impl View for Amount {
    type V = nat;

    open spec fn view(&self) -> nat {
        limbs_value(self.limbs@)
    }
}

/// The amount whose value is `n`, for `n` below [`amount_limit`].
pub open spec fn amount_of(n: nat) -> Amount {
    Amount {
        limbs: [
            (n % 0x1_0000_0000_0000_0000nat) as u64,
            ((n / 0x1_0000_0000_0000_0000nat) % 0x1_0000_0000_0000_0000nat) as u64,
            ((n / 0x1_0000_0000_0000_0000_0000_0000_0000_0000nat) % 0x1_0000_0000_0000_0000nat) as u64,
            ((n / 0x1_0000_0000_0000_0000_0000_0000_0000_0000_0000_0000_0000_0000nat)
                % 0x1_0000_0000_0000_0000nat) as u64,
        ],
    }
}

/// Splits `low + rest * d` at the divisor `d`, for `low` below `d`.
proof fn lemma_split(low: nat, rest: nat, d: nat)
    requires
        low < d,
    ensures
        (low + rest * d) / d == rest,
        (low + rest * d) % d == low,
{
    vstd::arithmetic::div_mod::lemma_fundamental_div_mod_converse(
        (low + rest * d) as int,
        d as int,
        rest as int,
        low as int,
    );
}

/// Every amount is below `2^256`, and is the one amount that has its value.
pub proof fn lemma_amount_of_view(a: Amount)
    ensures
        a@ < amount_limit(),
        amount_of(a@) == a,
{
    let base = 0x1_0000_0000_0000_0000nat;
    let base2 = 0x1_0000_0000_0000_0000_0000_0000_0000_0000nat;
    let base3 = 0x1_0000_0000_0000_0000_0000_0000_0000_0000_0000_0000_0000_0000nat;
    let w0 = a.limbs@[0] as nat;
    let w1 = a.limbs@[1] as nat;
    let w2 = a.limbs@[2] as nat;
    let w3 = a.limbs@[3] as nat;
    let n = a@;
    lemma_split(w0, w1 + w2 * base + w3 * base2, base);
    lemma_split(w1, w2 + w3 * base, base);
    lemma_split(w0 + w1 * base, w2 + w3 * base, base2);
    lemma_split(w2, w3, base);
    lemma_split(w0 + w1 * base + w2 * base2, w3, base3);
    lemma_split(w3, 0, base);
    assert(n % base == w0);
    assert(n / base % base == w1);
    assert(n / base2 % base == w2);
    assert(n / base3 % base == w3);
    let b = amount_of(n);
    assert(b.limbs@ =~= a.limbs@);
    assert(b.limbs == a.limbs);
}

/// `amount_of(n)` has the value `n` whenever `n` fits in 256 bits.
pub proof fn lemma_view_amount_of(n: nat)
    requires
        n < amount_limit(),
    ensures
        amount_of(n)@ == n,
{
    let base = 0x1_0000_0000_0000_0000nat;
    let q1 = n / base;
    let q2 = q1 / base;
    let q3 = q2 / base;
    vstd::arithmetic::div_mod::lemma_div_denominator(n as int, base as int, base as int);
    vstd::arithmetic::div_mod::lemma_div_denominator(q1 as int, base as int, base as int);
    vstd::arithmetic::div_mod::lemma_div_denominator(
        n as int,
        0x1_0000_0000_0000_0000_0000_0000_0000_0000int,
        base as int,
    );
    assert(q2 == n / 0x1_0000_0000_0000_0000_0000_0000_0000_0000nat);
    assert(q3 == n / 0x1_0000_0000_0000_0000_0000_0000_0000_0000_0000_0000_0000_0000nat);
    assert(n == q1 * base + n % base);
    assert(q1 == q2 * base + q1 % base);
    assert(q2 == q3 * base + q2 % base);
    assert(q3 < base);
    assert(q3 % base == q3);
}

/// Two amounts with the same value are the same amount.
pub proof fn lemma_view_injective(a: Amount, b: Amount)
    requires
        a@ == b@,
    ensures
        a == b,
{
    lemma_amount_of_view(a);
    lemma_amount_of_view(b);
}

/// Calls `U256::checked_sub`. Claims what its source shows: the difference
/// when `a` is at least `b`, and `None` exactly when the subtraction would
/// go below zero.
#[verifier::external_body]
fn u256_checked_sub(a: Amount, b: Amount) -> (r: Option<Amount>)
    ensures
        a@ >= b@ ==> r.is_some() && r.unwrap()@ == a@ - b@,
        a@ < b@ ==> r.is_none(),
{
    match U256(a.limbs).checked_sub(U256(b.limbs)) {
        Some(d) => Some(Amount { limbs: d.0 }),
        None => None,
    }
}

/// Calls `U256::checked_mul`. Claims what its source shows: the product when
/// it fits in 256 bits, and `None` exactly when it does not.
#[verifier::external_body]
fn u256_checked_mul(a: Amount, b: Amount) -> (r: Option<Amount>)
    ensures
        a@ * b@ < amount_limit() ==> r.is_some() && r.unwrap()@ == a@ * b@,
        a@ * b@ >= amount_limit() ==> r.is_none(),
{
    match U256(a.limbs).checked_mul(U256(b.limbs)) {
        Some(p) => Some(Amount { limbs: p.0 }),
        None => None,
    }
}

/// Calls `U256::checked_div`. Claims what its source shows: the quotient
/// rounded down when `b` is not zero, and `None` exactly when `b` is zero.
#[verifier::external_body]
fn u256_checked_div(a: Amount, b: Amount) -> (r: Option<Amount>)
    ensures
        b@ != 0 ==> r.is_some() && r.unwrap()@ == a@ / b@,
        b@ == 0 ==> r.is_none(),
{
    match U256(a.limbs).checked_div(U256(b.limbs)) {
        Some(q) => Some(Amount { limbs: q.0 }),
        None => None,
    }
}

impl Amount {
    /// The amount zero.
    pub fn zero() -> (r: Amount)
        ensures
            r@ == 0,
            r == amount_of(0),
    {
        let r = Amount { limbs: [0, 0, 0, 0] };
        proof {
            lemma_amount_of_view(r);
        }
        r
    }

    /// The largest amount, `2^256 - 1`.
    pub fn max_value() -> (r: Amount)
        ensures
            r@ == amount_limit() - 1,
    {
        Amount {
            limbs: [
                0xffff_ffff_ffff_ffff,
                0xffff_ffff_ffff_ffff,
                0xffff_ffff_ffff_ffff,
                0xffff_ffff_ffff_ffff,
            ],
        }
    }

    /// The amount with the value of `x`.
    pub fn from_u64(x: u64) -> (r: Amount)
        ensures
            r@ == x,
            r == amount_of(x as nat),
    {
        let r = Amount { limbs: [x, 0, 0, 0] };
        proof {
            lemma_amount_of_view(r);
        }
        r
    }

    /// The amount with the value of `x`.
    pub fn from_u128(x: u128) -> (r: Amount)
        ensures
            r@ == x,
            r == amount_of(x as nat),
    {
        let low: u128 = x & 0xffff_ffff_ffff_ffff;
        let high: u128 = x >> 64;
        assert(low <= 0xffff_ffff_ffff_ffff && high <= 0xffff_ffff_ffff_ffff && x == low + high
            * 0x1_0000_0000_0000_0000) by (bit_vector)
            requires
                low == x & 0xffff_ffff_ffff_ffff,
                high == x >> 64,
        ;
        let r = Amount { limbs: [low as u64, high as u64, 0, 0] };
        proof {
            lemma_amount_of_view(r);
        }
        r
    }

    /// Whether the value is zero.
    pub fn is_zero(&self) -> (r: bool)
        ensures
            r == (self@ == 0),
    {
        self.limbs[0] == 0 && self.limbs[1] == 0 && self.limbs[2] == 0 && self.limbs[3] == 0
    }

    /// `self - other`, or `None` when `other` is the larger.
    pub fn checked_sub(self, other: Amount) -> (r: Option<Amount>)
        ensures
            r == (if self@ >= other@ {
                Some(amount_of((self@ - other@) as nat))
            } else {
                None
            }),
            r matches Some(d) ==> d@ == self@ - other@,
    {
        let r = u256_checked_sub(self, other);
        proof {
            if let Some(d) = r {
                lemma_amount_of_view(d);
            }
        }
        r
    }

    /// `self * other`, or `None` when the product does not fit in 256 bits.
    pub fn checked_mul(self, other: Amount) -> (r: Option<Amount>)
        ensures
            r == (if self@ * other@ < amount_limit() {
                Some(amount_of(self@ * other@))
            } else {
                None
            }),
            r matches Some(p) ==> p@ == self@ * other@,
    {
        let r = u256_checked_mul(self, other);
        proof {
            if let Some(p) = r {
                lemma_amount_of_view(p);
            }
        }
        r
    }

    /// `self / other` rounded down, or `None` when `other` is zero.
    pub fn checked_div(self, other: Amount) -> (r: Option<Amount>)
        ensures
            r == (if other@ != 0 {
                Some(amount_of(self@ / other@))
            } else {
                None
            }),
            r matches Some(q) ==> q@ == self@ / other@,
    {
        let r = u256_checked_div(self, other);
        proof {
            if let Some(q) = r {
                lemma_amount_of_view(q);
            }
        }
        r
    }
}

} // verus!
