//! Natural numbers of any size, held as little-endian limbs of 32 bits.

use vstd::prelude::*;

verus! {

/// The radix of one limb.
spec fn radix() -> nat {
    0x1_0000_0000
}

/// The weight of limb `n`: `radix()` to the power `n`.
spec fn weight(n: nat) -> nat
    decreases n,
{
    if n == 0 {
        1
    } else {
        radix() * weight((n - 1) as nat)
    }
}

/// The number that little-endian limbs stand for.
spec fn limbs_value(limbs: Seq<u32>) -> nat
    decreases limbs.len(),
{
    if limbs.len() == 0 {
        0
    } else {
        limbs[0] as nat + radix() * limbs_value(limbs.skip(1))
    }
}

/// Limb `i` of a number, zero past its last limb.
spec fn limb_at(limbs: Seq<u32>, i: int) -> nat {
    if 0 <= i < limbs.len() {
        limbs[i] as nat
    } else {
        0
    }
}

/// The number that the first `n` limbs stand for.
spec fn low_value(limbs: Seq<u32>, n: nat) -> nat {
    if n <= limbs.len() {
        limbs_value(limbs.take(n as int))
    } else {
        limbs_value(limbs)
    }
}

/// Appending a limb adds it at the weight of its place.
proof fn lemma_value_push(limbs: Seq<u32>, x: u32)
    ensures
        limbs_value(limbs.push(x)) == limbs_value(limbs) + x * weight(limbs.len()),
    decreases limbs.len(),
{
    let ext = limbs.push(x);
    if limbs.len() == 0 {
        assert(ext.skip(1) =~= Seq::<u32>::empty());
        assert(limbs_value(ext.skip(1)) == 0);
        assert(x * weight(0) == x) by (nonlinear_arith)
            requires
                weight(0) == 1,
        ;
    } else {
        let rest = limbs.skip(1);
        assert(ext.skip(1) =~= rest.push(x));
        lemma_value_push(rest, x);
        let w = weight(rest.len());
        let v = limbs_value(rest);
        assert(weight(limbs.len()) == radix() * w);
        assert(radix() * (v + x * w) == radix() * v + x * (radix() * w)) by (nonlinear_arith);
    }
}

/// A number of `n` limbs is below the weight of limb `n`.
proof fn lemma_value_bound(limbs: Seq<u32>)
    ensures
        limbs_value(limbs) < weight(limbs.len()),
    decreases limbs.len(),
{
    if limbs.len() > 0 {
        let rest = limbs.skip(1);
        lemma_value_bound(rest);
        let w = weight(rest.len());
        let v = limbs_value(rest);
        assert(radix() * v + radix() <= radix() * w) by (nonlinear_arith)
            requires
                v + 1 <= w,
        ;
    }
}

/// Taking one more limb adds that limb at the weight of its place.
proof fn lemma_low_value_step(limbs: Seq<u32>, n: nat)
    ensures
        low_value(limbs, n + 1) == low_value(limbs, n) + limb_at(limbs, n as int) * weight(n),
{
    if n < limbs.len() {
        assert(limbs.take((n + 1) as int) =~= limbs.take(n as int).push(limbs[n as int]));
        lemma_value_push(limbs.take(n as int), limbs[n as int]);
    } else {
        assert(limbs.take(limbs.len() as int) =~= limbs);
        assert(0 * weight(n) == 0) by (nonlinear_arith);
    }
}

/// All limbs, or more, stand for the whole number.
proof fn lemma_low_value_all(limbs: Seq<u32>, n: nat)
    requires
        n >= limbs.len(),
    ensures
        low_value(limbs, n) == limbs_value(limbs),
{
    assert(limbs.take(limbs.len() as int) =~= limbs);
}

/// A last limb of zero adds nothing.
proof fn lemma_value_drop_zero(limbs: Seq<u32>)
    requires
        limbs.len() > 0,
        limbs.last() == 0,
    ensures
        limbs_value(limbs.drop_last()) == limbs_value(limbs),
{
    assert(limbs.drop_last().push(0u32) =~= limbs);
    lemma_value_push(limbs.drop_last(), 0u32);
    assert(0 * weight(limbs.drop_last().len()) == 0) by (nonlinear_arith);
}

/// 256 to the power `n`.
pub open spec fn byte_weight(n: nat) -> nat
    decreases n,
{
    if n == 0 {
        1
    } else {
        256 * byte_weight((n - 1) as nat)
    }
}

/// The number that big-endian bytes stand for. Leading zero bytes add nothing.
pub open spec fn be_bytes_value(bytes: Seq<u8>) -> nat
    decreases bytes.len(),
{
    if bytes.len() == 0 {
        0
    } else {
        be_bytes_value(bytes.drop_last()) * 256 + bytes.last() as nat
    }
}

/// A byte put in front counts at the weight of the bytes behind it.
pub proof fn lemma_be_bytes_prepend(x: u8, bytes: Seq<u8>)
    ensures
        be_bytes_value(seq![x] + bytes) == x * byte_weight(bytes.len()) + be_bytes_value(bytes),
    decreases bytes.len(),
{
    let all = seq![x] + bytes;
    if bytes.len() == 0 {
        assert(all.drop_last() =~= Seq::<u8>::empty());
        assert(be_bytes_value(all.drop_last()) == 0);
        assert(x * byte_weight(0) == x) by (nonlinear_arith)
            requires
                byte_weight(0) == 1,
        ;
    } else {
        let front = bytes.drop_last();
        assert(all.drop_last() =~= seq![x] + front);
        assert(all.last() == bytes.last());
        lemma_be_bytes_prepend(x, front);
        let w = byte_weight(front.len());
        assert(byte_weight(bytes.len()) == 256 * w);
        assert((x * w + be_bytes_value(front)) * 256 == x * (256 * w) + be_bytes_value(front)
            * 256) by (nonlinear_arith);
    }
}

/// Limb `i` of `limbs`, zero past the last limb.
fn limb_or_zero(limbs: &Vec<u32>, i: usize) -> (x: u32)
    ensures
        x as nat == limb_at(limbs@, i as int),
{
    if i < limbs.len() {
        limbs[i]
    } else {
        0
    }
}

/// The same number without limbs of zero at its end.
fn trimmed(limbs: Vec<u32>) -> (out: Vec<u32>)
    ensures
        limbs_value(out@) == limbs_value(limbs@),
        out.len() > 0 ==> out@.last() != 0,
{
    let mut out: Vec<u32> = limbs;
    while out.len() > 0 && out[out.len() - 1] == 0
        invariant
            limbs_value(out@) == limbs_value(limbs@),
        decreases out.len(),
    {
        proof {
            lemma_value_drop_zero(out@);
            assert(out@.subrange(0, out@.len() - 1) =~= out@.drop_last());
        }
        out.pop();
    }
    out
}

/// Subtracts limb by limb and reports whether the subtraction ran below zero.
fn borrowing_sub(a: &Vec<u32>, b: &Vec<u32>) -> (r: (Vec<u32>, bool))
    ensures
        r.1 == (limbs_value(a@) < limbs_value(b@)),
        !r.1 ==> limbs_value(r.0@) == limbs_value(a@) - limbs_value(b@),
{
    let n: usize = if a.len() >= b.len() {
        a.len()
    } else {
        b.len()
    };
    let mut out: Vec<u32> = Vec::new();
    let mut borrow: u64 = 0;
    let mut i: usize = 0;
    while i < n
        invariant
            i <= n,
            n >= a.len(),
            n >= b.len(),
            out.len() == i,
            borrow <= 1,
            limbs_value(out@) + low_value(b@, i as nat) == low_value(a@, i as nat) + borrow
                * weight(i as nat),
        decreases n - i,
    {
        let x: u64 = limb_or_zero(a, i) as u64;
        let y: u64 = limb_or_zero(b, i) as u64 + borrow;
        let next: u64 = if x >= y {
            0
        } else {
            1
        };
        let d: u64 = x + next * 0x1_0000_0000 - y;
        proof {
            let w = weight(i as nat);
            lemma_low_value_step(a@, i as nat);
            lemma_low_value_step(b@, i as nat);
            lemma_value_push(out@, d as u32);
            assert(weight((i + 1) as nat) == radix() * w);
            assert(d * w + (y - borrow) * w + borrow * w == x * w + next * (radix() * w))
                by (nonlinear_arith)
                requires
                    d + y == x + next * radix(),
            ;
        }
        out.push(d as u32);
        borrow = next;
        i = i + 1;
    }
    proof {
        lemma_low_value_all(a@, n as nat);
        lemma_low_value_all(b@, n as nat);
        lemma_value_bound(out@);
        assert(1 * weight(n as nat) == weight(n as nat)) by (nonlinear_arith);
        assert(0 * weight(n as nat) == 0) by (nonlinear_arith);
    }
    (trimmed(out), borrow == 1)
}

/// Adds limb by limb.
fn carrying_add(a: &Vec<u32>, b: &Vec<u32>) -> (out: Vec<u32>)
    ensures
        limbs_value(out@) == limbs_value(a@) + limbs_value(b@),
{
    let n: usize = if a.len() >= b.len() {
        a.len()
    } else {
        b.len()
    };
    let mut out: Vec<u32> = Vec::new();
    let mut carry: u64 = 0;
    let mut i: usize = 0;
    while i < n
        invariant
            i <= n,
            n >= a.len(),
            n >= b.len(),
            out.len() == i,
            carry <= 1,
            limbs_value(out@) + carry * weight(i as nat) == low_value(a@, i as nat) + low_value(
                b@,
                i as nat,
            ),
        decreases n - i,
    {
        let x: u64 = limb_or_zero(a, i) as u64;
        let y: u64 = limb_or_zero(b, i) as u64;
        let sum: u64 = x + y + carry;
        let low: u64 = sum % 0x1_0000_0000;
        let high: u64 = sum / 0x1_0000_0000;
        proof {
            let w = weight(i as nat);
            lemma_low_value_step(a@, i as nat);
            lemma_low_value_step(b@, i as nat);
            lemma_value_push(out@, low as u32);
            assert(weight((i + 1) as nat) == radix() * w);
            assert(low * w + high * (radix() * w) == x * w + y * w + carry * w) by (nonlinear_arith)
                requires
                    low + high * radix() == x + y + carry,
            ;
        }
        out.push(low as u32);
        carry = high;
        i = i + 1;
    }
    proof {
        lemma_low_value_all(a@, n as nat);
        lemma_low_value_all(b@, n as nat);
        lemma_value_push(out@, carry as u32);
    }
    out.push(carry as u32);
    trimmed(out)
}

/// Multiplies by one limb.
fn mul_limb(a: &Vec<u32>, m: u32) -> (out: Vec<u32>)
    ensures
        limbs_value(out@) == limbs_value(a@) * m,
{
    let n: usize = a.len();
    let mut out: Vec<u32> = Vec::new();
    let mut carry: u64 = 0;
    let mut i: usize = 0;
    proof {
        assert(low_value(a@, 0) == 0);
        assert(0 * m == 0) by (nonlinear_arith);
        assert(0 * weight(0) == 0) by (nonlinear_arith);
    }
    while i < n
        invariant
            i <= n,
            n == a.len(),
            out.len() == i,
            carry < 0x1_0000_0000,
            limbs_value(out@) + carry * weight(i as nat) == low_value(a@, i as nat) * m,
        decreases n - i,
    {
        let x: u64 = a[i] as u64;
        assert(x * m + carry <= 0xffff_ffff_0000_0000) by (nonlinear_arith)
            requires
                x <= 0xffff_ffff,
                m <= 0xffff_ffff,
                carry <= 0xffff_ffff,
        ;
        let product: u64 = x * (m as u64) + carry;
        let low: u64 = product % 0x1_0000_0000;
        let high: u64 = product / 0x1_0000_0000;
        proof {
            let w = weight(i as nat);
            let p = low_value(a@, i as nat);
            lemma_low_value_step(a@, i as nat);
            lemma_value_push(out@, low as u32);
            assert(weight((i + 1) as nat) == radix() * w);
            assert(low * w + high * (radix() * w) + p * m == (p + x * w) * m + carry * w)
                by (nonlinear_arith)
                requires
                    low + high * radix() == x * m + carry,
            ;
        }
        out.push(low as u32);
        carry = high;
        i = i + 1;
    }
    proof {
        lemma_low_value_all(a@, n as nat);
        lemma_value_push(out@, carry as u32);
    }
    out.push(carry as u32);
    trimmed(out)
}

/// Moves every limb one place up and puts `x` in the lowest place.
fn shift_in(a: &Vec<u32>, x: u32) -> (out: Vec<u32>)
    ensures
        limbs_value(out@) == limbs_value(a@) * radix() + x,
{
    let mut out: Vec<u32> = Vec::new();
    out.push(x);
    let mut i: usize = 0;
    while i < a.len()
        invariant
            i <= a.len(),
            out@ =~= seq![x] + a@.take(i as int),
        decreases a.len() - i,
    {
        out.push(a[i]);
        i = i + 1;
    }
    proof {
        assert(a@.take(a.len() as int) =~= a@);
        assert(out@.skip(1) =~= a@);
        assert(radix() * limbs_value(a@) == limbs_value(a@) * radix()) by (nonlinear_arith);
    }
    out
}

/// Multiplies limb by limb of `b`, from the highest limb down.
fn mul_limbs(a: &Vec<u32>, b: &Vec<u32>) -> (out: Vec<u32>)
    ensures
        limbs_value(out@) == limbs_value(a@) * limbs_value(b@),
{
    let mut out: Vec<u32> = Vec::new();
    let mut j: usize = b.len();
    proof {
        assert(b@.skip(b.len() as int).len() == 0);
        assert(limbs_value(a@) * 0 == 0) by (nonlinear_arith);
    }
    while j > 0
        invariant
            j <= b.len(),
            limbs_value(out@) == limbs_value(a@) * limbs_value(b@.skip(j as int)),
        decreases j,
    {
        j = j - 1;
        let shifted: Vec<u32> = shift_in(&out, 0);
        let partial: Vec<u32> = mul_limb(a, b[j]);
        proof {
            let va = limbs_value(a@);
            let high = limbs_value(b@.skip(j + 1));
            assert(b@.skip(j as int).skip(1) =~= b@.skip(j + 1));
            assert(b@.skip(j as int)[0] == b@[j as int]);
            assert(va * high * radix() + va * b@[j as int] == va * (b@[j as int] + radix() * high))
                by (nonlinear_arith);
        }
        out = carrying_add(&shifted, &partial);
    }
    proof {
        assert(b@.skip(0) =~= b@);
    }
    out
}

/// The one limb `g` with `g * d <= cur < (g + 1) * d`, found by bisection.
fn quotient_limb(cur: &Vec<u32>, d: &Vec<u32>) -> (g: u32)
    requires
        limbs_value(cur@) < limbs_value(d@) * radix(),
    ensures
        g * limbs_value(d@) <= limbs_value(cur@) < (g + 1) * limbs_value(d@),
{
    let mut lo: u64 = 0;
    let mut hi: u64 = 0x1_0000_0000;
    proof {
        let vd = limbs_value(d@);
        assert(0 * vd == 0) by (nonlinear_arith);
        assert(0x1_0000_0000 * vd == vd * radix()) by (nonlinear_arith);
    }
    while hi - lo > 1
        invariant
            lo < hi <= 0x1_0000_0000,
            lo * limbs_value(d@) <= limbs_value(cur@) < hi * limbs_value(d@),
        decreases hi - lo,
    {
        let mid: u64 = lo + (hi - lo) / 2;
        let multiple: Vec<u32> = mul_limb(d, mid as u32);
        let (_, below) = borrowing_sub(cur, &multiple);
        proof {
            let vd = limbs_value(d@);
            assert(vd * (mid as u32) == mid * vd) by (nonlinear_arith)
                requires
                    mid < 0x1_0000_0000,
            ;
        }
        if below {
            hi = mid;
        } else {
            lo = mid;
        }
    }
    lo as u32
}

/// Long division, one limb of the quotient at a time.
fn div_rem_limbs(n: &Vec<u32>, d: &Vec<u32>) -> (r: (Vec<u32>, Vec<u32>))
    requires
        limbs_value(d@) > 0,
    ensures
        limbs_value(n@) == limbs_value(r.0@) * limbs_value(d@) + limbs_value(r.1@),
        limbs_value(r.1@) < limbs_value(d@),
{
    let mut quotient: Vec<u32> = Vec::new();
    let mut rem: Vec<u32> = Vec::new();
    let mut i: usize = n.len();
    proof {
        assert(n@.skip(n.len() as int).len() == 0);
        assert(0 * limbs_value(d@) == 0) by (nonlinear_arith);
    }
    while i > 0
        invariant
            i <= n.len(),
            limbs_value(d@) > 0,
            limbs_value(n@.skip(i as int)) == limbs_value(quotient@) * limbs_value(d@)
                + limbs_value(rem@),
            limbs_value(rem@) < limbs_value(d@),
        decreases i,
    {
        i = i - 1;
        let cur: Vec<u32> = shift_in(&rem, n[i]);
        proof {
            let vd = limbs_value(d@);
            let vr = limbs_value(rem@);
            assert(vr * radix() + n@[i as int] < vd * radix()) by (nonlinear_arith)
                requires
                    vr + 1 <= vd,
                    n@[i as int] < radix(),
            ;
        }
        let g: u32 = quotient_limb(&cur, d);
        let multiple: Vec<u32> = mul_limb(d, g);
        proof {
            let vd = limbs_value(d@);
            assert(vd * g == g * vd) by (nonlinear_arith);
            assert((g + 1) * vd == g * vd + vd) by (nonlinear_arith);
        }
        let (rest, _) = borrowing_sub(&cur, &multiple);
        let next: Vec<u32> = shift_in(&quotient, g);
        proof {
            let vd = limbs_value(d@);
            let vq = limbs_value(quotient@);
            let vr = limbs_value(rem@);
            assert(n@.skip(i as int).skip(1) =~= n@.skip(i + 1));
            assert(n@.skip(i as int)[0] == n@[i as int]);
            assert((vq * radix() + g) * vd == radix() * (vq * vd) + g * vd) by (nonlinear_arith);
            assert(radix() * (vq * vd + vr) == radix() * (vq * vd) + vr * radix())
                by (nonlinear_arith);
        }
        rem = rest;
        quotient = next;
    }
    proof {
        assert(n@.skip(0) =~= n@);
    }
    (quotient, rem)
}

/// An exact natural number of any size.
#[derive(Debug)]
pub struct BigUint {
    limbs: Vec<u32>,
}

impl View for BigUint {
    type V = nat;

    closed spec fn view(&self) -> nat {
        limbs_value(self.limbs@)
    }
}

impl BigUint {
    /// The number zero.
    pub fn zero() -> (r: BigUint)
        ensures
            r@ == 0,
    {
        BigUint { limbs: Vec::new() }
    }

    /// The number that `x` holds.
    pub fn from_u64(x: u64) -> (r: BigUint)
        ensures
            r@ == x,
    {
        let none: Vec<u32> = Vec::new();
        let high: Vec<u32> = shift_in(&none, (x / 0x1_0000_0000) as u32);
        BigUint { limbs: trimmed(shift_in(&high, (x % 0x1_0000_0000) as u32)) }
    }

    /// The number that `x` holds.
    pub fn from_u128(x: u128) -> (r: BigUint)
        ensures
            r@ == x,
    {
        let low: BigUint = BigUint::from_u64((x % 0x1_0000_0000_0000_0000) as u64);
        let high: BigUint = BigUint::from_u64((x / 0x1_0000_0000_0000_0000) as u64);
        let shifted: Vec<u32> = shift_in(&shift_in(&high.limbs, 0), 0);
        proof {
            assert(high@ * radix() * radix() + low@ == x) by (nonlinear_arith)
                requires
                    radix() == 0x1_0000_0000,
                    low@ == x % 0x1_0000_0000_0000_0000,
                    high@ == x / 0x1_0000_0000_0000_0000,
            ;
        }
        BigUint { limbs: carrying_add(&shifted, &low.limbs) }
    }

    /// Whether the number is zero.
    pub fn is_zero(&self) -> (r: bool)
        ensures
            r == (self@ == 0),
    {
        let none: Vec<u32> = Vec::new();
        let (_, below) = borrowing_sub(&none, &self.limbs);
        !below
    }

    /// Whether the two numbers are equal.
    pub fn equals(&self, other: &BigUint) -> (r: bool)
        ensures
            r == (self@ == other@),
    {
        let (_, below) = borrowing_sub(&self.limbs, &other.limbs);
        let (_, above) = borrowing_sub(&other.limbs, &self.limbs);
        !below && !above
    }

    /// Whether `self` is less than `other`.
    pub fn lt(&self, other: &BigUint) -> (r: bool)
        ensures
            r == (self@ < other@),
    {
        let (_, below) = borrowing_sub(&self.limbs, &other.limbs);
        below
    }

    /// Whether `self` is at most `other`.
    pub fn le(&self, other: &BigUint) -> (r: bool)
        ensures
            r == (self@ <= other@),
    {
        let (_, above) = borrowing_sub(&other.limbs, &self.limbs);
        !above
    }

    /// Whether `self` is greater than `other`.
    pub fn gt(&self, other: &BigUint) -> (r: bool)
        ensures
            r == (self@ > other@),
    {
        other.lt(self)
    }

    /// Whether `self` is at least `other`.
    pub fn ge(&self, other: &BigUint) -> (r: bool)
        ensures
            r == (self@ >= other@),
    {
        other.le(self)
    }

    /// The sum of the two numbers.
    pub fn add(&self, other: &BigUint) -> (r: BigUint)
        ensures
            r@ == self@ + other@,
    {
        BigUint { limbs: carrying_add(&self.limbs, &other.limbs) }
    }

    /// `self - other`, or `None` where `other` is the greater.
    pub fn checked_sub(&self, other: &BigUint) -> (r: Option<BigUint>)
        ensures
            match r {
                Some(d) => self@ >= other@ && d@ == self@ - other@,
                None => self@ < other@,
            },
    {
        let (limbs, below) = borrowing_sub(&self.limbs, &other.limbs);
        if below {
            None
        } else {
            Some(BigUint { limbs })
        }
    }

    /// The product of the two numbers.
    pub fn mul(&self, other: &BigUint) -> (r: BigUint)
        ensures
            r@ == self@ * other@,
    {
        BigUint { limbs: mul_limbs(&self.limbs, &other.limbs) }
    }

    /// Quotient and remainder of the division by `divisor`, or `None` where
    /// `divisor` is zero. The quotient is rounded down.
    pub fn checked_div_rem(&self, divisor: &BigUint) -> (r: Option<(BigUint, BigUint)>)
        ensures
            match r {
                Some(qr) => divisor@ > 0 && qr.0@ == self@ / divisor@ && qr.1@ == self@ % divisor@,
                None => divisor@ == 0,
            },
    {
        if divisor.is_zero() {
            return None;
        }
        let (quotient, rem) = div_rem_limbs(&self.limbs, &divisor.limbs);
        proof {
            let q = limbs_value(quotient@) as int;
            let d = divisor@ as int;
            assert(q * d == d * q) by (nonlinear_arith);
            vstd::arithmetic::div_mod::lemma_fundamental_div_mod_converse(
                self@ as int,
                d,
                q,
                limbs_value(rem@) as int,
            );
        }
        Some((BigUint { limbs: quotient }, BigUint { limbs: rem }))
    }

    /// The quotient of the division by `divisor`, rounded down, or `None`
    /// where `divisor` is zero.
    pub fn checked_div(&self, divisor: &BigUint) -> (r: Option<BigUint>)
        ensures
            match r {
                Some(q) => divisor@ > 0 && q@ == self@ / divisor@,
                None => divisor@ == 0,
            },
    {
        match self.checked_div_rem(divisor) {
            Some(qr) => Some(qr.0),
            None => None,
        }
    }
}

impl BigUint {
    /// The number that big-endian bytes stand for; no bytes stand for zero.
    pub fn from_bytes_be(bytes: &[u8]) -> (r: BigUint)
        ensures
            r@ == be_bytes_value(bytes@),
    {
        let mut limbs: Vec<u32> = Vec::new();
        let mut i: usize = 0;
        while i < bytes.len()
            invariant
                i <= bytes.len(),
                limbs_value(limbs@) == be_bytes_value(bytes@.take(i as int)),
            decreases bytes.len() - i,
        {
            let mut digit: Vec<u32> = Vec::new();
            proof {
                lemma_value_push(digit@, bytes[i as int] as u32);
                assert(bytes[i as int] * weight(0) == bytes[i as int]) by (nonlinear_arith)
                    requires
                        weight(0) == 1,
                ;
                assert(bytes@.take(i + 1).drop_last() =~= bytes@.take(i as int));
            }
            digit.push(bytes[i] as u32);
            limbs = carrying_add(&mul_limb(&limbs, 256), &digit);
            i = i + 1;
        }
        proof {
            assert(bytes@.take(bytes.len() as int) =~= bytes@);
        }
        BigUint { limbs }
    }

    /// The big-endian bytes of the number, without leading zero bytes; zero
    /// has no bytes.
    pub fn to_bytes_be(&self) -> (bytes: Vec<u8>)
        ensures
            be_bytes_value(bytes@) == self@,
            bytes.len() > 0 ==> bytes[0] != 0,
    {
        let mut base: Vec<u32> = Vec::new();
        proof {
            lemma_value_push(base@, 256u32);
            assert(256 * weight(0) == 256) by (nonlinear_arith)
                requires
                    weight(0) == 1,
            ;
        }
        base.push(256);
        let none: Vec<u32> = Vec::new();
        let mut rest: Vec<u32> = self.limbs.clone();
        let mut bytes: Vec<u8> = Vec::new();
        proof {
            assert(rest@ =~= self.limbs@);
            assert(limbs_value(rest@) * byte_weight(0) == limbs_value(rest@)) by (nonlinear_arith)
                requires
                    byte_weight(0) == 1,
            ;
        }
        loop
            invariant
                limbs_value(base@) == 256,
                limbs_value(none@) == 0,
                self@ == limbs_value(rest@) * byte_weight(bytes.len() as nat) + be_bytes_value(
                    bytes@,
                ),
                limbs_value(rest@) == 0 ==> bytes.len() == 0 || bytes[0] != 0,
            ensures
                limbs_value(rest@) == 0,
                self@ == limbs_value(rest@) * byte_weight(bytes.len() as nat) + be_bytes_value(
                    bytes@,
                ),
                bytes.len() == 0 || bytes[0] != 0,
            decreases limbs_value(rest@),
        {
            let (_, positive) = borrowing_sub(&none, &rest);
            if !positive {
                break ;
            }
            let (quotient, rem) = div_rem_limbs(&rest, &base);
            let byte: u8 = limb_or_zero(&rem, 0) as u8;
            proof {
                let q = limbs_value(quotient@);
                let w = byte_weight(bytes.len() as nat);
                if rem.len() > 0 {
                    assert(limbs_value(rem@) == rem@[0] + radix() * limbs_value(rem@.skip(1)));
                    assert(radix() * limbs_value(rem@.skip(1)) < 256 ==> limbs_value(
                        rem@.skip(1),
                    ) == 0) by (nonlinear_arith)
                        requires
                            radix() == 0x1_0000_0000,
                    ;
                }
                assert(byte == limbs_value(rem@));
                lemma_be_bytes_prepend(byte, bytes@);
                assert(bytes@.insert(0, byte) =~= seq![byte] + bytes@);
                assert((q * 256 + byte) * w == q * (256 * w) + byte * w) by (nonlinear_arith);
            }
            bytes.insert(0, byte);
            rest = quotient;
        }
        proof {
            assert(0 * byte_weight(bytes.len() as nat) == 0) by (nonlinear_arith);
        }
        bytes
    }
}

impl PartialEq for BigUint {
    fn eq(&self, other: &BigUint) -> (r: bool) {
        self.equals(other)
    }
}

impl Eq for BigUint {

}

impl vstd::std_specs::cmp::PartialEqSpecImpl for BigUint {
    open spec fn obeys_eq_spec() -> bool {
        true
    }

    open spec fn eq_spec(&self, other: &BigUint) -> bool {
        self@ == other@
    }
}

impl Clone for BigUint {
    fn clone(&self) -> (r: BigUint)
        ensures
            r@ == self@,
    {
        let limbs: Vec<u32> = self.limbs.clone();
        proof {
            assert(limbs@ =~= self.limbs@);
        }
        BigUint { limbs }
    }
}

} // verus!
