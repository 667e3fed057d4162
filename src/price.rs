//! Exact comparison of decimal-scaled prices.

use std::cmp::Ordering;
use vstd::prelude::*;

verus! {

/// Largest decimal gap across which two prices are still aligned: `10^38` fits in a `u128`,
/// `10^39` does not.
pub const MAX_U128_DECIMALS: u8 = 38;

/// `10^n`.
pub open spec fn pow10(n: nat) -> nat
    decreases n,
{
    if n == 0 {
        1
    } else {
        10 * pow10((n - 1) as nat)
    }
}

/// The ordering of two integers.
pub open spec fn ord_of(x: int, y: int) -> Ordering {
    if x < y {
        Ordering::Less
    } else if x == y {
        Ordering::Equal
    } else {
        Ordering::Greater
    }
}

/// The ordering with its sides swapped.
pub open spec fn flip(o: Ordering) -> Ordering {
    match o {
        Ordering::Less => Ordering::Greater,
        Ordering::Equal => Ordering::Equal,
        Ordering::Greater => Ordering::Less,
    }
}

/// A non-negative quantity `multiplier / 10^decimals`.
#[derive(Clone, Copy, Debug)]
pub struct Price {
    pub multiplier: u128,
    pub decimals: u8,
}

impl Price {
    /// The multiplier brought to the sum of both prices' decimals: comparing `a.cross(b)` with
    /// `b.cross(a)` compares the two values exactly.
    pub open spec fn cross(self, other: Price) -> int {
        self.multiplier * pow10(other.decimals as nat)
    }

    /// The exact ordering of the two rational values.
    pub open spec fn exact_cmp(self, other: Price) -> Ordering {
        ord_of(self.cross(other), other.cross(self))
    }

    /// Ordering of `self` against `other` where `self` has at least as many decimals:
    /// `other` is scaled up to `self`'s decimals; past the largest gap `self` is the smaller.
    pub open spec fn cmp_aligned(self, other: Price) -> Ordering {
        let gap = (self.decimals - other.decimals) as nat;
        if gap > MAX_U128_DECIMALS {
            Ordering::Less
        } else {
            ord_of(self.multiplier as int, other.multiplier * pow10(gap))
        }
    }

    /// The ordering of two prices.
    pub open spec fn spec_cmp(self, other: Price) -> Ordering {
        if self.decimals < other.decimals {
            flip(other.cmp_aligned(self))
        } else {
            self.cmp_aligned(other)
        }
    }

    /// The decimals gap exceeds the largest one and the operand with fewer decimals is zero:
    /// the one case where the ordering differs from the exact one.
    pub open spec fn gap_clamped(self, other: Price) -> bool {
        if self.decimals < other.decimals {
            other.decimals - self.decimals > MAX_U128_DECIMALS && self.multiplier == 0
        } else {
            self.decimals - other.decimals > MAX_U128_DECIMALS && other.multiplier == 0
        }
    }

    /// `self` with multiplier and decimals both scaled by `10^k`.
    pub open spec fn scaled(self, k: nat) -> Price {
        Price { multiplier: (self.multiplier * pow10(k)) as u128, decimals: (self.decimals + k) as u8 }
    }

    pub fn new(multiplier: u128, decimals: u8) -> (r: Price)
        ensures
            r.multiplier == multiplier,
            r.decimals == decimals,
    {
        Price { multiplier, decimals }
    }

    pub fn multiplier(&self) -> (r: u128)
        ensures
            r == self.multiplier,
    {
        self.multiplier
    }

    pub fn decimals(&self) -> (r: u8)
        ensures
            r == self.decimals,
    {
        self.decimals
    }

    /// Orders two prices.
    pub fn compare(&self, other: &Price) -> (r: Ordering)
        ensures
            r == self.spec_cmp(*other),
    {
        if self.decimals < other.decimals {
            match other.compare_aligned(self) {
                Ordering::Less => Ordering::Greater,
                Ordering::Equal => Ordering::Equal,
                Ordering::Greater => Ordering::Less,
            }
        } else {
            self.compare_aligned(other)
        }
    }

    fn compare_aligned(&self, other: &Price) -> (r: Ordering)
        requires
            self.decimals >= other.decimals,
        ensures
            r == self.cmp_aligned(*other),
    {
        let gap: u8 = self.decimals - other.decimals;
        if gap > MAX_U128_DECIMALS {
            return Ordering::Less;
        }
        let scale = pow10_u128(gap);
        match other.multiplier.checked_mul(scale) {
            Some(scaled) => {
                if self.multiplier < scaled {
                    Ordering::Less
                } else if self.multiplier == scaled {
                    Ordering::Equal
                } else {
                    Ordering::Greater
                }
            },
            None => Ordering::Less,
        }
    }
}

impl PartialEq for Price {
    fn eq(&self, other: &Price) -> (r: bool) {
        match self.compare(other) {
            Ordering::Equal => true,
            _ => false,
        }
    }
}

impl vstd::std_specs::cmp::PartialEqSpecImpl for Price {
    open spec fn obeys_eq_spec() -> bool {
        true
    }

    open spec fn eq_spec(&self, other: &Price) -> bool {
        self.spec_cmp(*other) == Ordering::Equal
    }
}

impl PartialOrd for Price {
    fn partial_cmp(&self, other: &Price) -> (r: Option<Ordering>) {
        Some(self.compare(other))
    }
}

impl vstd::std_specs::cmp::PartialOrdSpecImpl for Price {
    open spec fn obeys_partial_cmp_spec() -> bool {
        true
    }

    open spec fn partial_cmp_spec(&self, other: &Price) -> Option<Ordering> {
        Some(self.spec_cmp(*other))
    }
}

proof fn lemma_pow10_positive(n: nat)
    ensures
        pow10(n) >= 1,
    decreases n,
{
    if n > 0 {
        lemma_pow10_positive((n - 1) as nat);
    }
}

proof fn lemma_pow10_add(m: nat, n: nat)
    ensures
        pow10(m + n) == pow10(m) * pow10(n),
    decreases n,
{
    if n == 0 {
        assert(pow10(0) == 1);
    } else {
        let n1 = (n - 1) as nat;
        lemma_pow10_add(m, n1);
        assert(m + n == (m + n1) + 1);
        assert(pow10(m + n) == 10 * pow10(m + n1));
        assert(pow10(n) == 10 * pow10(n1));
        assert(pow10(m) * (10 * pow10(n1)) == 10 * (pow10(m) * pow10(n1))) by (nonlinear_arith);
    }
}

proof fn lemma_pow10_monotone(m: nat, n: nat)
    requires
        m <= n,
    ensures
        pow10(m) <= pow10(n),
    decreases n,
{
    if m < n {
        lemma_pow10_monotone(m, (n - 1) as nat);
    }
}

proof fn lemma_pow10_38()
    ensures
        pow10(38) == 100000000000000000000000000000000000000,
{
    reveal_with_fuel(pow10, 39);
}

/// `10^n` for `n` up to the largest gap.
fn pow10_u128(n: u8) -> (r: u128)
    requires
        n <= MAX_U128_DECIMALS,
    ensures
        r == pow10(n as nat),
{
    let mut r: u128 = 1;
    let mut i: u8 = 0;
    while i < n
        invariant
            i <= n <= MAX_U128_DECIMALS,
            r == pow10(i as nat),
        decreases n - i,
    {
        proof {
            lemma_pow10_monotone((i + 1) as nat, 38);
            lemma_pow10_38();
        }
        r = r * 10;
        i = i + 1;
    }
    r
}

/// Multiplying both sides by the same positive factor keeps their ordering.
proof fn lemma_ord_scale(x: int, y: int, f: int)
    requires
        f > 0,
    ensures
        ord_of(x * f, y * f) == ord_of(x, y),
{
    if x < y {
        assert(x * f < y * f) by (nonlinear_arith)
            requires
                x < y,
                f > 0,
        ;
    } else if x > y {
        assert(x * f > y * f) by (nonlinear_arith)
            requires
                x > y,
                f > 0,
        ;
    }
}

/// Where `a` has at least as many decimals, the aligned ordering is the exact one unless clamped.
proof fn lemma_aligned_exact(a: Price, b: Price)
    requires
        a.decimals >= b.decimals,
        !a.gap_clamped(b),
    ensures
        a.cmp_aligned(b) == a.exact_cmp(b),
{
    let g = (a.decimals - b.decimals) as nat;
    let pb = pow10(b.decimals as nat);
    let pg = pow10(g);
    lemma_pow10_add(b.decimals as nat, g);
    lemma_pow10_positive(b.decimals as nat);
    lemma_ord_scale(a.multiplier as int, b.multiplier * pg, pb as int);
    assert(b.multiplier * pg * pb == b.multiplier * (pb * pg)) by (nonlinear_arith);
    if g > MAX_U128_DECIMALS {
        lemma_pow10_monotone(39, g);
        reveal_with_fuel(pow10, 40);
        assert(b.multiplier >= 1);
        assert(b.multiplier * pg >= pg) by (nonlinear_arith)
            requires
                b.multiplier >= 1,
                pg >= 0,
        ;
    }
}

/// Unless clamped, the ordering of two prices is the exact ordering of their values.
proof fn lemma_cmp_exact(a: Price, b: Price)
    requires
        !a.gap_clamped(b),
    ensures
        a.spec_cmp(b) == a.exact_cmp(b),
{
    if a.decimals < b.decimals {
        lemma_aligned_exact(b, a);
    } else {
        lemma_aligned_exact(a, b);
    }
}

/// Comparing `b` with `a` gives the reverse of comparing `a` with `b`.
pub proof fn lemma_cmp_antisymmetric(a: Price, b: Price)
    ensures
        b.spec_cmp(a) == flip(a.spec_cmp(b)),
{
    if a.decimals == b.decimals {
        assert(pow10(0) == 1);
        assert(b.multiplier * pow10(0) == b.multiplier) by (nonlinear_arith)
            requires
                pow10(0) == 1,
        ;
        assert(a.multiplier * pow10(0) == a.multiplier) by (nonlinear_arith)
            requires
                pow10(0) == 1,
        ;
        assert(pow10((a.decimals - b.decimals) as nat) == 1);
        assert(pow10((b.decimals - a.decimals) as nat) == 1);
        assert(a.cmp_aligned(b) == ord_of(a.multiplier as int, b.multiplier as int));
        assert(b.cmp_aligned(a) == ord_of(b.multiplier as int, a.multiplier as int));
    }
}

/// Scaling multiplier and decimals of one operand by the same power of ten keeps the
/// ordering, except where the decimals gap clamps the comparison of exactly one of the
/// two (or clamps both on opposite sides).
pub proof fn lemma_cmp_scale_invariant(a: Price, b: Price, k: nat)
    requires
        a.multiplier * pow10(k) <= u128::MAX,
        a.decimals + k <= u8::MAX,
        a.gap_clamped(b) == a.scaled(k).gap_clamped(b),
        a.gap_clamped(b) ==> ((a.decimals > b.decimals) == (a.scaled(k).decimals > b.decimals)),
    ensures
        a.scaled(k).spec_cmp(b) == a.spec_cmp(b),
{
    let s = a.scaled(k);
    if !a.gap_clamped(b) {
        lemma_cmp_exact(a, b);
        lemma_cmp_exact(s, b);
        let pk = pow10(k);
        lemma_pow10_positive(k);
        lemma_pow10_add(a.decimals as nat, k);
        lemma_ord_scale(a.cross(b), b.cross(a), pk as int);
        assert(a.multiplier * pk * pow10(b.decimals as nat) == a.multiplier * pow10(
            b.decimals as nat,
        ) * pk) by (nonlinear_arith);
        assert(b.multiplier * (pow10(a.decimals as nat) * pk) == b.multiplier * pow10(
            a.decimals as nat,
        ) * pk) by (nonlinear_arith);
    }
}

} // verus!
