//! Unsigned 256-bit integers, as two 128-bit halves.

use vstd::prelude::*;
use crate::text::{decimal, decimal_digit, digit_char};

verus! {

/// 2 to the power 128.
pub open spec fn pow2_128() -> nat {
    0x1_0000_0000_0000_0000_0000_0000_0000_0000nat
}

/// 2 to the power 256.
pub open spec fn pow2_256() -> nat {
    0x1_0000_0000_0000_0000_0000_0000_0000_0000_0000_0000_0000_0000_0000_0000_0000_0000nat
}

/// An unsigned integer below 2^256. Its value is `hi * 2^128 + lo`.
#[derive(Clone, Copy, Debug, PartialEq, Eq, Structural)]
pub struct Uint256 {
    pub hi: u128,
    pub lo: u128,
}

impl View for Uint256 {
    type V = nat;

    open spec fn view(&self) -> nat {
        self.hi as nat * pow2_128() + self.lo as nat
    }
}

/// The digits `d`, least significant first, read as text: most significant
/// first.
spec fn reversed_digits(d: Seq<u8>) -> Seq<char> {
    Seq::new(d.len(), |i: int| digit_char(d[d.len() - 1 - i] as int))
}

/// Adds two halves and a carry, and hands back the sum's low half and the
/// carry out of it.
fn add_with_carry(a: u128, b: u128, carry: bool) -> (r: (u128, bool))
    ensures
        r.0 as nat + (if r.1 { pow2_128() } else { 0 }) == a as nat + b as nat + (if carry { 1nat } else { 0 }),
{
    let c: u128 = if carry { 1 } else { 0 };
    if a <= u128::MAX - b {
        let s: u128 = a + b;
        if s <= u128::MAX - c {
            (s + c, false)
        } else {
            (0, true)
        }
    } else {
        let s: u128 = a - (u128::MAX - b) - 1;
        (s + c, true)
    }
}

/// Subtracts a half and a borrow from a half, and hands back the
/// difference's low half and the borrow out of it.
fn sub_with_borrow(a: u128, b: u128, borrow: bool) -> (r: (u128, bool))
    ensures
        r.0 as int - (if r.1 { pow2_128() as int } else { 0 }) == a as int - b as int - (if borrow { 1int } else { 0 }),
{
    let c: u128 = if borrow { 1 } else { 0 };
    if a >= b {
        let d: u128 = a - b;
        if d >= c {
            (d - c, false)
        } else {
            (u128::MAX, true)
        }
    } else {
        let d: u128 = u128::MAX - (b - a) + 1;
        (d - c, true)
    }
}

/// Divides `top * 2^256 + v` by ten.
fn div_rem_10(top: u8, v: Uint256) -> (r: (Uint256, u8))
    requires
        top < 10,
    ensures
        top as nat * pow2_256() + v@ == 10 * r.0@ + r.1 as nat,
        r.1 < 10,
{
    let m: u128 = 0x1_0000_0000_0000_0000;
    let h1: u128 = v.hi / m;
    let h0: u128 = v.hi % m;
    let l1: u128 = v.lo / m;
    let l0: u128 = v.lo % m;
    let t3: u128 = (top as u128) * m + h1;
    let q3: u128 = t3 / 10;
    let r3: u128 = t3 % 10;
    let t2: u128 = r3 * m + h0;
    let q2: u128 = t2 / 10;
    let r2: u128 = t2 % 10;
    let t1: u128 = r2 * m + l1;
    let q1: u128 = t1 / 10;
    let r1: u128 = t1 % 10;
    let t0: u128 = r1 * m + l0;
    let q0: u128 = t0 / 10;
    let r0: u128 = t0 % 10;
    (Uint256 { hi: q3 * m + q2, lo: q1 * m + q0 }, r0 as u8)
}

/// The decimal text of `top * 2^256 + v`.
fn wide_decimal(top: u8, v: Uint256) -> (s: String)
    requires
        top < 10,
    ensures
        s@ == decimal(top as nat * pow2_256() + v@),
{
    let ghost n: nat = top as nat * pow2_256() + v@;
    let mut digits: Vec<u8> = Vec::new();
    let (first_q, first_r) = div_rem_10(top, v);
    let mut q: Uint256 = first_q;
    digits.push(first_r);
    proof {
        assert(reversed_digits(digits@) =~= seq![digit_char(first_r as int)]);
        if n >= 10 {
            assert(n / 10 == q@ && n % 10 == first_r as nat);
            assert(decimal(n) =~= decimal(q@) + reversed_digits(digits@));
        }
    }
    while !q.is_zero()
        invariant
            digits@.len() > 0,
            forall|i: int| 0 <= i < digits@.len() ==> digits@[i] < 10,
            q@ > 0 ==> decimal(n) == decimal(q@) + reversed_digits(digits@),
            q@ == 0 ==> decimal(n) == reversed_digits(digits@),
        decreases q@,
    {
        let ghost before = digits@;
        let ghost old_q = q@;
        let (next_q, next_r) = div_rem_10(0, q);
        digits.push(next_r);
        q = next_q;
        proof {
            assert(reversed_digits(digits@) =~= seq![digit_char(next_r as int)] + reversed_digits(before));
            if old_q >= 10 {
                assert(old_q / 10 == q@ && old_q % 10 == next_r as nat);
                assert(decimal(old_q) == decimal(q@).push(digit_char(next_r as int)));
                assert(decimal(n) =~= decimal(q@) + reversed_digits(digits@));
            } else {
                assert(q@ == 0 && next_r as nat == old_q);
                assert(decimal(old_q) =~= seq![digit_char(next_r as int)]);
                assert(decimal(n) =~= reversed_digits(digits@));
            }
        }
    }
    let mut s = String::new();
    let mut i: usize = digits.len();
    while i > 0
        invariant
            i <= digits@.len(),
            forall|k: int| 0 <= k < digits@.len() ==> digits@[k] < 10,
            s@ == reversed_digits(digits@).subrange(0, digits@.len() - i),
        decreases i,
    {
        i -= 1;
        s.append(decimal_digit(digits[i]));
        assert(s@ =~= reversed_digits(digits@).subrange(0, digits@.len() - i));
    }
    assert(s@ =~= reversed_digits(digits@));
    s
}

impl Uint256 {
    /// Zero.
    pub fn zero() -> (r: Uint256)
        ensures
            r@ == 0,
    {
        Uint256 { hi: 0, lo: 0 }
    }

    /// The 256-bit integer with the value of `v`.
    pub fn from_u128(v: u128) -> (r: Uint256)
        ensures
            r@ == v,
    {
        Uint256 { hi: 0, lo: v }
    }

    /// Whether the value is zero.
    pub fn is_zero(&self) -> (b: bool)
        ensures
            b == (self@ == 0),
    {
        self.hi == 0 && self.lo == 0
    }

    /// Whether `self` is less than `other`.
    pub fn lt(&self, other: &Uint256) -> (b: bool)
        ensures
            b == (self@ < other@),
    {
        self.hi < other.hi || (self.hi == other.hi && self.lo < other.lo)
    }

    /// Whether `self` is at most `other`.
    pub fn le(&self, other: &Uint256) -> (b: bool)
        ensures
            b == (self@ <= other@),
    {
        self.hi < other.hi || (self.hi == other.hi && self.lo <= other.lo)
    }

    /// The sum modulo 2^256, and whether it wrapped.
    pub fn overflowing_add(self, rhs: Uint256) -> (r: (Uint256, bool))
        ensures
            r.0@ + (if r.1 { pow2_256() } else { 0 }) == self@ + rhs@,
    {
        let (lo, c1) = add_with_carry(self.lo, rhs.lo, false);
        let (hi, c2) = add_with_carry(self.hi, rhs.hi, c1);
        (Uint256 { hi, lo }, c2)
    }

    /// The sum, or `None` where it does not fit.
    pub fn checked_add(self, rhs: Uint256) -> (r: Option<Uint256>)
        ensures
            match r {
                Some(sum) => sum@ == self@ + rhs@,
                None => self@ + rhs@ >= pow2_256(),
            },
    {
        let (sum, wrapped) = self.overflowing_add(rhs);
        if wrapped {
            None
        } else {
            Some(sum)
        }
    }

    /// The difference, or `None` where `rhs` is the larger.
    pub fn checked_sub(self, rhs: Uint256) -> (r: Option<Uint256>)
        ensures
            match r {
                Some(diff) => diff@ == self@ - rhs@,
                None => self@ < rhs@,
            },
    {
        let (lo, b1) = sub_with_borrow(self.lo, rhs.lo, false);
        let (hi, b2) = sub_with_borrow(self.hi, rhs.hi, b1);
        proof {
            let borrow: int = if b1 { 1 } else { 0 };
            let out: int = if b2 { 1 } else { 0 };
            assert(lo as int - borrow * pow2_128() == self.lo as int - rhs.lo as int);
            assert(hi as int - out * pow2_128() == self.hi as int - rhs.hi as int - borrow);
            assert((hi as int - out * pow2_128()) * pow2_128() + lo as int == self@ as int - rhs@ as int);
        }
        if b2 {
            None
        } else {
            Some(Uint256 { hi, lo })
        }
    }

    /// The value as a 128-bit integer, or `None` where it does not fit.
    pub fn to_u128(&self) -> (r: Option<u128>)
        ensures
            match r {
                Some(v) => v == self@,
                None => self@ > u128::MAX,
            },
    {
        if self.hi == 0 {
            Some(self.lo)
        } else {
            None
        }
    }

    /// The value in decimal digits.
    pub fn to_string(&self) -> (s: String)
        ensures
            s@ == decimal(self@),
    {
        wide_decimal(0, *self)
    }

    /// The decimal digits of `self + rhs`, also where the sum does not fit
    /// in 256 bits.
    pub fn sum_to_string(self, rhs: Uint256) -> (s: String)
        ensures
            s@ == decimal(self@ + rhs@),
    {
        let (sum, wrapped) = self.overflowing_add(rhs);
        wide_decimal(if wrapped { 1 } else { 0 }, sum)
    }
}

/// Two 256-bit integers with the same value have the same halves.
pub proof fn lemma_view_injective(a: Uint256, b: Uint256)
    requires
        a@ == b@,
    ensures
        a == b,
{
}

} // verus!
