//! Exact vector and matrix arithmetic over rational numbers. Values are
//! kept as numerator/denominator pairs with a positive denominator, every
//! operation computes the exact unreduced result, and an operation whose
//! exact result does not fit the word size reports that instead of
//! rounding. Equality is cross-multiplication, so it compares the
//! rationals themselves, not their representations.

use vstd::prelude::*;

verus! {

/// A rational number `num / den` with `den > 0`.
#[derive(Clone, Copy, Debug)]
pub struct Rational {
    num: i64,
    den: i64,
}

/// Exact sum of two pairs: `(a.0/a.1) + (b.0/b.1)` over the common
/// denominator.
pub open spec fn rat_add(a: (int, int), b: (int, int)) -> (int, int) {
    (a.0 * b.1 + b.0 * a.1, a.1 * b.1)
}

/// Exact difference.
pub open spec fn rat_sub(a: (int, int), b: (int, int)) -> (int, int) {
    (a.0 * b.1 - b.0 * a.1, a.1 * b.1)
}

/// Exact product.
pub open spec fn rat_mul(a: (int, int), b: (int, int)) -> (int, int) {
    (a.0 * b.0, a.1 * b.1)
}

/// Exact quotient, with the sign moved into the numerator so the
/// denominator stays positive. Meaningful only for `b.0 != 0`.
pub open spec fn rat_div(a: (int, int), b: (int, int)) -> (int, int) {
    if b.0 > 0 {
        (a.0 * b.1, a.1 * b.0)
    } else {
        (-(a.0 * b.1), -(a.1 * b.0))
    }
}

/// Exact negation.
pub open spec fn rat_neg(a: (int, int)) -> (int, int) {
    (-a.0, a.1)
}

/// The two pairs denote the same rational.
pub open spec fn rat_eq(a: (int, int), b: (int, int)) -> bool {
    a.0 * b.1 == b.0 * a.1
}

/// Whether a pair fits the stored representation.
pub open spec fn rat_fits(p: (int, int)) -> bool {
    &&& -0x8000_0000_0000_0000 <= p.0 <= 0x7fff_ffff_ffff_ffff
    &&& 0 < p.1 <= 0x7fff_ffff_ffff_ffff
}

/// A product of an `i64` by a positive `i64` stays well inside `i128`:
/// two such products can still be added without overflow.
proof fn lemma_prod_bound(x: int, y: int)
    requires
        -0x8000_0000_0000_0000 <= x <= 0x7fff_ffff_ffff_ffff,
        0 < y <= 0x7fff_ffff_ffff_ffff,
    ensures
        -0x3fff_ffff_ffff_ffff_8000_0000_0000_0000 <= x * y
            <= 0x3fff_ffff_ffff_ffff_8000_0000_0000_0000,
    decreases 0int,
{
    assert(-0x3fff_ffff_ffff_ffff_8000_0000_0000_0000 <= x * y
        <= 0x3fff_ffff_ffff_ffff_8000_0000_0000_0000) by (nonlinear_arith)
        requires
            -0x8000_0000_0000_0000 <= x <= 0x7fff_ffff_ffff_ffff,
            0 < y <= 0x7fff_ffff_ffff_ffff,
    ;
}

/// A product of two `i64`s stays well inside `i128`.
proof fn lemma_prod_bound_signed(x: int, y: int)
    requires
        -0x8000_0000_0000_0000 <= x <= 0x7fff_ffff_ffff_ffff,
        -0x8000_0000_0000_0000 <= y <= 0x7fff_ffff_ffff_ffff,
    ensures
        -0x4000_0000_0000_0000_0000_0000_0000_0000 <= x * y
            <= 0x4000_0000_0000_0000_0000_0000_0000_0000,
    decreases 0int,
{
    assert(-0x4000_0000_0000_0000_0000_0000_0000_0000 <= x * y
        <= 0x4000_0000_0000_0000_0000_0000_0000_0000) by (nonlinear_arith)
        requires
            -0x8000_0000_0000_0000 <= x <= 0x7fff_ffff_ffff_ffff,
            -0x8000_0000_0000_0000 <= y <= 0x7fff_ffff_ffff_ffff,
    ;
}

/// A product of two positive `i64`s is positive.
proof fn lemma_prod_pos(x: int, y: int)
    requires
        0 < x,
        0 < y,
    ensures
        0 < x * y,
    decreases 0int,
{
    assert(0 < x * y) by (nonlinear_arith)
        requires
            0 < x,
            0 < y,
    ;
}

impl Rational {
    pub closed spec fn spec_num(self) -> int {
        self.num as int
    }

    pub closed spec fn spec_den(self) -> int {
        self.den as int
    }

    /// The numerator/denominator pair this value stores.
    pub open spec fn pair(self) -> (int, int) {
        (self.spec_num(), self.spec_den())
    }

    /// The representation invariant: a positive denominator.
    pub open spec fn wf(self) -> bool {
        self.spec_den() > 0
    }

    /// The whole number `n`.
    pub fn from_int(n: i64) -> (r: Rational)
        ensures
            r.wf(),
            r.pair() == (n as int, 1int),
    {
        Rational { num: n, den: 1 }
    }

    /// The fraction `num / den`; `None` for a zero denominator or when the
    /// sign-normalized pair does not fit.
    pub fn new(num: i64, den: i64) -> (r: Option<Rational>)
        ensures
            den == 0 ==> r is None,
            den > 0 ==> (r matches Some(v) && v.wf() && v.pair() == (num as int, den as int)),
            den < 0 ==> ({
                &&& (r is Some <==> rat_fits((-(num as int), -(den as int))))
                &&& (r matches Some(v) ==> v.wf() && v.pair() == (-(num as int), -(den as int)))
            }),
            r matches Some(v) ==> v.wf() && rat_eq(v.pair(), (num as int, den as int)),
    {
        if den == 0 {
            None
        } else if den > 0 {
            Some(Rational { num, den })
        } else {
            let n = -(num as i128);
            let d = -(den as i128);
            let r = Rational::make(n, d);
            proof {
                assert((-(num as int)) * (den as int) == (num as int) * (-(den as int)))
                    by (nonlinear_arith);
            }
            r
        }
    }

    /// Build from an exact wide pair with positive denominator; `None`
    /// exactly when the pair does not fit the stored width.
    fn make(num: i128, den: i128) -> (r: Option<Rational>)
        requires
            den > 0,
        ensures
            r is Some <==> rat_fits((num as int, den as int)),
            r matches Some(v) ==> v.wf() && v.pair() == (num as int, den as int),
    {
        if num >= -0x8000_0000_0000_0000i128 && num <= 0x7fff_ffff_ffff_ffffi128 && den
            <= 0x7fff_ffff_ffff_ffffi128 {
            Some(Rational { num: num as i64, den: den as i64 })
        } else {
            None
        }
    }

    pub fn num(&self) -> (r: i64)
        ensures
            r as int == self.spec_num(),
    {
        self.num
    }

    pub fn den(&self) -> (r: i64)
        ensures
            r as int == self.spec_den(),
    {
        self.den
    }

    /// Exact addition; `None` exactly when the exact result does not fit.
    pub fn add(self, other: Rational) -> (r: Option<Rational>)
        requires
            self.wf(),
            other.wf(),
        ensures
            r is Some <==> rat_fits(rat_add(self.pair(), other.pair())),
            r matches Some(v) ==> v.wf() && v.pair() == rat_add(self.pair(), other.pair()),
    {
        proof {
            lemma_prod_bound(self.spec_num(), other.spec_den());
            lemma_prod_bound(other.spec_num(), self.spec_den());
            lemma_prod_bound(self.spec_den(), other.spec_den());
            lemma_prod_pos(self.spec_den(), other.spec_den());
        }
        let num = self.num as i128 * other.den as i128 + other.num as i128 * self.den as i128;
        let den = self.den as i128 * other.den as i128;
        Rational::make(num, den)
    }

    /// Exact subtraction; `None` exactly when the exact result does not
    /// fit.
    pub fn sub(self, other: Rational) -> (r: Option<Rational>)
        requires
            self.wf(),
            other.wf(),
        ensures
            r is Some <==> rat_fits(rat_sub(self.pair(), other.pair())),
            r matches Some(v) ==> v.wf() && v.pair() == rat_sub(self.pair(), other.pair()),
    {
        proof {
            lemma_prod_bound(self.spec_num(), other.spec_den());
            lemma_prod_bound(other.spec_num(), self.spec_den());
            lemma_prod_bound(self.spec_den(), other.spec_den());
            lemma_prod_pos(self.spec_den(), other.spec_den());
        }
        let num = self.num as i128 * other.den as i128 - other.num as i128 * self.den as i128;
        let den = self.den as i128 * other.den as i128;
        Rational::make(num, den)
    }

    /// Exact multiplication; `None` exactly when the exact result does not
    /// fit.
    pub fn mul(self, other: Rational) -> (r: Option<Rational>)
        requires
            self.wf(),
            other.wf(),
        ensures
            r is Some <==> rat_fits(rat_mul(self.pair(), other.pair())),
            r matches Some(v) ==> v.wf() && v.pair() == rat_mul(self.pair(), other.pair()),
    {
        proof {
            lemma_prod_bound_signed(self.spec_num(), other.spec_num());
            lemma_prod_bound(self.spec_den(), other.spec_den());
            lemma_prod_pos(self.spec_den(), other.spec_den());
        }
        let num = self.num as i128 * other.num as i128;
        let den = self.den as i128 * other.den as i128;
        Rational::make(num, den)
    }

    /// Exact division; `None` exactly for a zero divisor or when the exact
    /// result does not fit.
    pub fn div(self, other: Rational) -> (r: Option<Rational>)
        requires
            self.wf(),
            other.wf(),
        ensures
            other.spec_num() == 0 ==> r is None,
            other.spec_num() != 0 ==> {
                &&& (r is Some <==> rat_fits(rat_div(self.pair(), other.pair())))
                &&& (r matches Some(v) ==> v.wf() && v.pair() == rat_div(
                    self.pair(),
                    other.pair(),
                ))
            },
    {
        if other.num == 0 {
            return None;
        }
        proof {
            lemma_prod_bound(self.spec_num(), other.spec_den());
            lemma_prod_bound_signed(self.spec_den(), other.spec_num());
        }
        let num = self.num as i128 * other.den as i128;
        let den = self.den as i128 * other.num as i128;
        if other.num > 0 {
            proof {
                lemma_prod_pos(self.spec_den(), other.spec_num());
            }
            Rational::make(num, den)
        } else {
            proof {
                lemma_prod_pos(self.spec_den(), -other.spec_num());
                assert(self.spec_den() * -other.spec_num() == -(self.spec_den()
                    * other.spec_num())) by (nonlinear_arith);
            }
            Rational::make(-num, -den)
        }
    }

    /// Exact negation; always representable.
    pub fn neg(self) -> (r: Rational)
        requires
            self.wf(),
            self.spec_num() > -0x8000_0000_0000_0000,
        ensures
            r.wf(),
            r.pair() == rat_neg(self.pair()),
    {
        Rational { num: -self.num, den: self.den }
    }

    /// Whether the two values denote the same rational; total, by
    /// cross-multiplication.
    pub fn equals(self, other: Rational) -> (r: bool)
        requires
            self.wf(),
            other.wf(),
        ensures
            r == rat_eq(self.pair(), other.pair()),
    {
        proof {
            lemma_prod_bound(self.spec_num(), other.spec_den());
            lemma_prod_bound(other.spec_num(), self.spec_den());
        }
        self.num as i128 * other.den as i128 == other.num as i128 * self.den as i128
    }

    /// Whether this value is zero.
    pub fn is_zero(self) -> (r: bool)
        ensures
            r == (self.spec_num() == 0),
    {
        self.num == 0
    }
}

/// Denoting the same rational is transitive over positive denominators.
pub proof fn lemma_rat_eq_transitive(a: (int, int), b: (int, int), c: (int, int))
    requires
        a.1 > 0,
        b.1 > 0,
        c.1 > 0,
        rat_eq(a, b),
        rat_eq(b, c),
    ensures
        rat_eq(a, c),
{
    assert(a.0 * c.1 == c.0 * a.1) by (nonlinear_arith)
        requires
            a.1 > 0,
            b.1 > 0,
            c.1 > 0,
            a.0 * b.1 == b.0 * a.1,
            b.0 * c.1 == c.0 * b.1,
    ;
}

/// Addition of rationals is commutative: the exact sums denote the same
/// rational (indeed the numerators and denominators agree).
pub proof fn lemma_rat_add_commutes(a: (int, int), b: (int, int))
    requires
        a.1 > 0,
        b.1 > 0,
    ensures
        rat_eq(rat_add(a, b), rat_add(b, a)),
{
    assert(rat_eq(rat_add(a, b), rat_add(b, a))) by (nonlinear_arith)
        requires
            a.1 > 0,
            b.1 > 0,
    ;
}

/// The integer square root: the largest `r` with `r * r <= x`.
pub fn isqrt_u128(x: u128) -> (r: u128)
    ensures
        (r as int) * (r as int) <= x,
        x < (r as int + 1) * (r as int + 1),
{
    let mut lo: u128 = 0;
    let mut hi: u128 = 0x1_0000_0000_0000_0000u128;
    if x >= 0xffff_ffff_ffff_fffe_0000_0000_0000_0001u128 {
        // sqrt(x) would reach 2^64 only for x >= (2^64 - 1)^2 + ...; handle
        // the extreme top range directly.
        proof {
            assert((0xffff_ffff_ffff_ffffu128 as int) * (0xffff_ffff_ffff_ffffu128 as int)
                == 0xffff_ffff_ffff_fffe_0000_0000_0000_0001int) by (nonlinear_arith);
            assert((0x1_0000_0000_0000_0000u128 as int) * (0x1_0000_0000_0000_0000u128 as int)
                > u128::MAX) by (nonlinear_arith);
        }
        return 0xffff_ffff_ffff_ffffu128;
    }
    proof {
        assert((0x1_0000_0000_0000_0000u128 as int) * (0x1_0000_0000_0000_0000u128 as int)
            > 0xffff_ffff_ffff_fffe_0000_0000_0000_0000int) by (nonlinear_arith);
    }
    while lo + 1 < hi
        invariant
            lo < hi <= 0x1_0000_0000_0000_0000u128,
            (lo as int) * (lo as int) <= x,
            x < (hi as int) * (hi as int),
        decreases hi - lo,
    {
        let mid: u128 = lo + (hi - lo) / 2;
        proof {
            assert((mid as int) * (mid as int) <= u128::MAX) by (nonlinear_arith)
                requires
                    0 <= mid < 0x1_0000_0000_0000_0000,
            ;
        }
        if mid * mid <= x {
            lo = mid;
        } else {
            hi = mid;
        }
    }
    lo
}

/// If an exact square root exists, it is the integer square root.
pub proof fn lemma_exact_sqrt_unique(x: int, r: int, t: int)
    requires
        0 <= r,
        0 <= t,
        r * r <= x,
        x < (r + 1) * (r + 1),
        t * t == x,
    ensures
        t == r,
{
    assert(t == r) by (nonlinear_arith)
        requires
            0 <= r,
            0 <= t,
            r * r <= x,
            x < (r + 1) * (r + 1),
            t * t == x,
    ;
}


/// All components well-formed.
pub open spec fn wf3(v: [Rational; 3]) -> bool {
    v[0].wf() && v[1].wf() && v[2].wf()
}

pub open spec fn wf4(v: [Rational; 4]) -> bool {
    v[0].wf() && v[1].wf() && v[2].wf() && v[3].wf()
}

/// The exact dot product of two triples.
pub open spec fn rat_dot3(
    a0: (int, int),
    a1: (int, int),
    a2: (int, int),
    b0: (int, int),
    b1: (int, int),
    b2: (int, int),
) -> (int, int) {
    rat_add(rat_add(rat_mul(a0, b0), rat_mul(a1, b1)), rat_mul(a2, b2))
}


/// The exact dot product of two quadruples.
pub open spec fn rat_dot4(
    a0: (int, int),
    a1: (int, int),
    a2: (int, int),
    a3: (int, int),
    b0: (int, int),
    b1: (int, int),
    b2: (int, int),
    b3: (int, int),
) -> (int, int) {
    rat_add(rat_add(rat_add(rat_mul(a0, b0), rat_mul(a1, b1)), rat_mul(a2, b2)), rat_mul(a3, b3))
}


/// All intermediate exact values of a 3-component dot product fit.
pub open spec fn dot3_fits(
    a0: (int, int),
    a1: (int, int),
    a2: (int, int),
    b0: (int, int),
    b1: (int, int),
    b2: (int, int),
) -> bool {
    &&& rat_fits(rat_mul(a0, b0))
    &&& rat_fits(rat_mul(a1, b1))
    &&& rat_fits(rat_mul(a2, b2))
    &&& rat_fits(rat_add(rat_mul(a0, b0), rat_mul(a1, b1)))
    &&& rat_fits(rat_dot3(a0, a1, a2, b0, b1, b2))
}

/// All intermediate exact values of a 4-component dot product fit.
pub open spec fn dot4_fits(
    a0: (int, int),
    a1: (int, int),
    a2: (int, int),
    a3: (int, int),
    b0: (int, int),
    b1: (int, int),
    b2: (int, int),
    b3: (int, int),
) -> bool {
    &&& rat_fits(rat_mul(a0, b0))
    &&& rat_fits(rat_mul(a1, b1))
    &&& rat_fits(rat_mul(a2, b2))
    &&& rat_fits(rat_mul(a3, b3))
    &&& rat_fits(rat_add(rat_mul(a0, b0), rat_mul(a1, b1)))
    &&& rat_fits(rat_add(rat_add(rat_mul(a0, b0), rat_mul(a1, b1)), rat_mul(a2, b2)))
    &&& rat_fits(rat_dot4(a0, a1, a2, a3, b0, b1, b2, b3))
}


/// The exact determinant of a row-major 4x4 matrix, by cofactor expansion
/// along the first row.
pub open spec fn mat4_det_spec(m: [Rational; 16]) -> (int, int) {
    rat_sub(rat_add(rat_sub(rat_mul(m[0].pair(), rat_add(rat_sub(rat_mul(m[5].pair(), rat_sub(rat_mul(m[10].pair(), m[15].pair()), rat_mul(m[11].pair(), m[14].pair()))), rat_mul(m[6].pair(), rat_sub(rat_mul(m[9].pair(), m[15].pair()), rat_mul(m[11].pair(), m[13].pair())))), rat_mul(m[7].pair(), rat_sub(rat_mul(m[9].pair(), m[14].pair()), rat_mul(m[10].pair(), m[13].pair()))))), rat_mul(m[1].pair(), rat_add(rat_sub(rat_mul(m[4].pair(), rat_sub(rat_mul(m[10].pair(), m[15].pair()), rat_mul(m[11].pair(), m[14].pair()))), rat_mul(m[6].pair(), rat_sub(rat_mul(m[8].pair(), m[15].pair()), rat_mul(m[11].pair(), m[12].pair())))), rat_mul(m[7].pair(), rat_sub(rat_mul(m[8].pair(), m[14].pair()), rat_mul(m[10].pair(), m[12].pair())))))), rat_mul(m[2].pair(), rat_add(rat_sub(rat_mul(m[4].pair(), rat_sub(rat_mul(m[9].pair(), m[15].pair()), rat_mul(m[11].pair(), m[13].pair()))), rat_mul(m[5].pair(), rat_sub(rat_mul(m[8].pair(), m[15].pair()), rat_mul(m[11].pair(), m[12].pair())))), rat_mul(m[7].pair(), rat_sub(rat_mul(m[8].pair(), m[13].pair()), rat_mul(m[9].pair(), m[12].pair())))))), rat_mul(m[3].pair(), rat_add(rat_sub(rat_mul(m[4].pair(), rat_sub(rat_mul(m[9].pair(), m[14].pair()), rat_mul(m[10].pair(), m[13].pair()))), rat_mul(m[5].pair(), rat_sub(rat_mul(m[8].pair(), m[14].pair()), rat_mul(m[10].pair(), m[12].pair())))), rat_mul(m[6].pair(), rat_sub(rat_mul(m[8].pair(), m[13].pair()), rat_mul(m[9].pair(), m[12].pair()))))))
}

/// All intermediate exact values of the determinant fit.
pub open spec fn mat4_det_fits(m: [Rational; 16]) -> bool {
    rat_fits(rat_mul(m[10].pair(), m[15].pair())) && rat_fits(rat_mul(m[11].pair(), m[14].pair())) && rat_fits(rat_sub(rat_mul(m[10].pair(), m[15].pair()), rat_mul(m[11].pair(), m[14].pair()))) && rat_fits(rat_mul(m[5].pair(), rat_sub(rat_mul(m[10].pair(), m[15].pair()), rat_mul(m[11].pair(), m[14].pair())))) && rat_fits(rat_mul(m[9].pair(), m[15].pair())) && rat_fits(rat_mul(m[11].pair(), m[13].pair())) && rat_fits(rat_sub(rat_mul(m[9].pair(), m[15].pair()), rat_mul(m[11].pair(), m[13].pair()))) && rat_fits(rat_mul(m[6].pair(), rat_sub(rat_mul(m[9].pair(), m[15].pair()), rat_mul(m[11].pair(), m[13].pair())))) && rat_fits(rat_sub(rat_mul(m[5].pair(), rat_sub(rat_mul(m[10].pair(), m[15].pair()), rat_mul(m[11].pair(), m[14].pair()))), rat_mul(m[6].pair(), rat_sub(rat_mul(m[9].pair(), m[15].pair()), rat_mul(m[11].pair(), m[13].pair()))))) && rat_fits(rat_mul(m[9].pair(), m[14].pair())) && rat_fits(rat_mul(m[10].pair(), m[13].pair())) && rat_fits(rat_sub(rat_mul(m[9].pair(), m[14].pair()), rat_mul(m[10].pair(), m[13].pair()))) && rat_fits(rat_mul(m[7].pair(), rat_sub(rat_mul(m[9].pair(), m[14].pair()), rat_mul(m[10].pair(), m[13].pair())))) && rat_fits(rat_add(rat_sub(rat_mul(m[5].pair(), rat_sub(rat_mul(m[10].pair(), m[15].pair()), rat_mul(m[11].pair(), m[14].pair()))), rat_mul(m[6].pair(), rat_sub(rat_mul(m[9].pair(), m[15].pair()), rat_mul(m[11].pair(), m[13].pair())))), rat_mul(m[7].pair(), rat_sub(rat_mul(m[9].pair(), m[14].pair()), rat_mul(m[10].pair(), m[13].pair()))))) && rat_fits(rat_mul(m[0].pair(), rat_add(rat_sub(rat_mul(m[5].pair(), rat_sub(rat_mul(m[10].pair(), m[15].pair()), rat_mul(m[11].pair(), m[14].pair()))), rat_mul(m[6].pair(), rat_sub(rat_mul(m[9].pair(), m[15].pair()), rat_mul(m[11].pair(), m[13].pair())))), rat_mul(m[7].pair(), rat_sub(rat_mul(m[9].pair(), m[14].pair()), rat_mul(m[10].pair(), m[13].pair())))))) && rat_fits(rat_mul(m[10].pair(), m[15].pair())) && rat_fits(rat_mul(m[11].pair(), m[14].pair())) && rat_fits(rat_sub(rat_mul(m[10].pair(), m[15].pair()), rat_mul(m[11].pair(), m[14].pair()))) && rat_fits(rat_mul(m[4].pair(), rat_sub(rat_mul(m[10].pair(), m[15].pair()), rat_mul(m[11].pair(), m[14].pair())))) && rat_fits(rat_mul(m[8].pair(), m[15].pair())) && rat_fits(rat_mul(m[11].pair(), m[12].pair())) && rat_fits(rat_sub(rat_mul(m[8].pair(), m[15].pair()), rat_mul(m[11].pair(), m[12].pair()))) && rat_fits(rat_mul(m[6].pair(), rat_sub(rat_mul(m[8].pair(), m[15].pair()), rat_mul(m[11].pair(), m[12].pair())))) && rat_fits(rat_sub(rat_mul(m[4].pair(), rat_sub(rat_mul(m[10].pair(), m[15].pair()), rat_mul(m[11].pair(), m[14].pair()))), rat_mul(m[6].pair(), rat_sub(rat_mul(m[8].pair(), m[15].pair()), rat_mul(m[11].pair(), m[12].pair()))))) && rat_fits(rat_mul(m[8].pair(), m[14].pair())) && rat_fits(rat_mul(m[10].pair(), m[12].pair())) && rat_fits(rat_sub(rat_mul(m[8].pair(), m[14].pair()), rat_mul(m[10].pair(), m[12].pair()))) && rat_fits(rat_mul(m[7].pair(), rat_sub(rat_mul(m[8].pair(), m[14].pair()), rat_mul(m[10].pair(), m[12].pair())))) && rat_fits(rat_add(rat_sub(rat_mul(m[4].pair(), rat_sub(rat_mul(m[10].pair(), m[15].pair()), rat_mul(m[11].pair(), m[14].pair()))), rat_mul(m[6].pair(), rat_sub(rat_mul(m[8].pair(), m[15].pair()), rat_mul(m[11].pair(), m[12].pair())))), rat_mul(m[7].pair(), rat_sub(rat_mul(m[8].pair(), m[14].pair()), rat_mul(m[10].pair(), m[12].pair()))))) && rat_fits(rat_mul(m[1].pair(), rat_add(rat_sub(rat_mul(m[4].pair(), rat_sub(rat_mul(m[10].pair(), m[15].pair()), rat_mul(m[11].pair(), m[14].pair()))), rat_mul(m[6].pair(), rat_sub(rat_mul(m[8].pair(), m[15].pair()), rat_mul(m[11].pair(), m[12].pair())))), rat_mul(m[7].pair(), rat_sub(rat_mul(m[8].pair(), m[14].pair()), rat_mul(m[10].pair(), m[12].pair())))))) && rat_fits(rat_sub(rat_mul(m[0].pair(), rat_add(rat_sub(rat_mul(m[5].pair(), rat_sub(rat_mul(m[10].pair(), m[15].pair()), rat_mul(m[11].pair(), m[14].pair()))), rat_mul(m[6].pair(), rat_sub(rat_mul(m[9].pair(), m[15].pair()), rat_mul(m[11].pair(), m[13].pair())))), rat_mul(m[7].pair(), rat_sub(rat_mul(m[9].pair(), m[14].pair()), rat_mul(m[10].pair(), m[13].pair()))))), rat_mul(m[1].pair(), rat_add(rat_sub(rat_mul(m[4].pair(), rat_sub(rat_mul(m[10].pair(), m[15].pair()), rat_mul(m[11].pair(), m[14].pair()))), rat_mul(m[6].pair(), rat_sub(rat_mul(m[8].pair(), m[15].pair()), rat_mul(m[11].pair(), m[12].pair())))), rat_mul(m[7].pair(), rat_sub(rat_mul(m[8].pair(), m[14].pair()), rat_mul(m[10].pair(), m[12].pair()))))))) && rat_fits(rat_mul(m[9].pair(), m[15].pair())) && rat_fits(rat_mul(m[11].pair(), m[13].pair())) && rat_fits(rat_sub(rat_mul(m[9].pair(), m[15].pair()), rat_mul(m[11].pair(), m[13].pair()))) && rat_fits(rat_mul(m[4].pair(), rat_sub(rat_mul(m[9].pair(), m[15].pair()), rat_mul(m[11].pair(), m[13].pair())))) && rat_fits(rat_mul(m[8].pair(), m[15].pair())) && rat_fits(rat_mul(m[11].pair(), m[12].pair())) && rat_fits(rat_sub(rat_mul(m[8].pair(), m[15].pair()), rat_mul(m[11].pair(), m[12].pair()))) && rat_fits(rat_mul(m[5].pair(), rat_sub(rat_mul(m[8].pair(), m[15].pair()), rat_mul(m[11].pair(), m[12].pair())))) && rat_fits(rat_sub(rat_mul(m[4].pair(), rat_sub(rat_mul(m[9].pair(), m[15].pair()), rat_mul(m[11].pair(), m[13].pair()))), rat_mul(m[5].pair(), rat_sub(rat_mul(m[8].pair(), m[15].pair()), rat_mul(m[11].pair(), m[12].pair()))))) && rat_fits(rat_mul(m[8].pair(), m[13].pair())) && rat_fits(rat_mul(m[9].pair(), m[12].pair())) && rat_fits(rat_sub(rat_mul(m[8].pair(), m[13].pair()), rat_mul(m[9].pair(), m[12].pair()))) && rat_fits(rat_mul(m[7].pair(), rat_sub(rat_mul(m[8].pair(), m[13].pair()), rat_mul(m[9].pair(), m[12].pair())))) && rat_fits(rat_add(rat_sub(rat_mul(m[4].pair(), rat_sub(rat_mul(m[9].pair(), m[15].pair()), rat_mul(m[11].pair(), m[13].pair()))), rat_mul(m[5].pair(), rat_sub(rat_mul(m[8].pair(), m[15].pair()), rat_mul(m[11].pair(), m[12].pair())))), rat_mul(m[7].pair(), rat_sub(rat_mul(m[8].pair(), m[13].pair()), rat_mul(m[9].pair(), m[12].pair()))))) && rat_fits(rat_mul(m[2].pair(), rat_add(rat_sub(rat_mul(m[4].pair(), rat_sub(rat_mul(m[9].pair(), m[15].pair()), rat_mul(m[11].pair(), m[13].pair()))), rat_mul(m[5].pair(), rat_sub(rat_mul(m[8].pair(), m[15].pair()), rat_mul(m[11].pair(), m[12].pair())))), rat_mul(m[7].pair(), rat_sub(rat_mul(m[8].pair(), m[13].pair()), rat_mul(m[9].pair(), m[12].pair())))))) && rat_fits(rat_add(rat_sub(rat_mul(m[0].pair(), rat_add(rat_sub(rat_mul(m[5].pair(), rat_sub(rat_mul(m[10].pair(), m[15].pair()), rat_mul(m[11].pair(), m[14].pair()))), rat_mul(m[6].pair(), rat_sub(rat_mul(m[9].pair(), m[15].pair()), rat_mul(m[11].pair(), m[13].pair())))), rat_mul(m[7].pair(), rat_sub(rat_mul(m[9].pair(), m[14].pair()), rat_mul(m[10].pair(), m[13].pair()))))), rat_mul(m[1].pair(), rat_add(rat_sub(rat_mul(m[4].pair(), rat_sub(rat_mul(m[10].pair(), m[15].pair()), rat_mul(m[11].pair(), m[14].pair()))), rat_mul(m[6].pair(), rat_sub(rat_mul(m[8].pair(), m[15].pair()), rat_mul(m[11].pair(), m[12].pair())))), rat_mul(m[7].pair(), rat_sub(rat_mul(m[8].pair(), m[14].pair()), rat_mul(m[10].pair(), m[12].pair())))))), rat_mul(m[2].pair(), rat_add(rat_sub(rat_mul(m[4].pair(), rat_sub(rat_mul(m[9].pair(), m[15].pair()), rat_mul(m[11].pair(), m[13].pair()))), rat_mul(m[5].pair(), rat_sub(rat_mul(m[8].pair(), m[15].pair()), rat_mul(m[11].pair(), m[12].pair())))), rat_mul(m[7].pair(), rat_sub(rat_mul(m[8].pair(), m[13].pair()), rat_mul(m[9].pair(), m[12].pair()))))))) && rat_fits(rat_mul(m[9].pair(), m[14].pair())) && rat_fits(rat_mul(m[10].pair(), m[13].pair())) && rat_fits(rat_sub(rat_mul(m[9].pair(), m[14].pair()), rat_mul(m[10].pair(), m[13].pair()))) && rat_fits(rat_mul(m[4].pair(), rat_sub(rat_mul(m[9].pair(), m[14].pair()), rat_mul(m[10].pair(), m[13].pair())))) && rat_fits(rat_mul(m[8].pair(), m[14].pair())) && rat_fits(rat_mul(m[10].pair(), m[12].pair())) && rat_fits(rat_sub(rat_mul(m[8].pair(), m[14].pair()), rat_mul(m[10].pair(), m[12].pair()))) && rat_fits(rat_mul(m[5].pair(), rat_sub(rat_mul(m[8].pair(), m[14].pair()), rat_mul(m[10].pair(), m[12].pair())))) && rat_fits(rat_sub(rat_mul(m[4].pair(), rat_sub(rat_mul(m[9].pair(), m[14].pair()), rat_mul(m[10].pair(), m[13].pair()))), rat_mul(m[5].pair(), rat_sub(rat_mul(m[8].pair(), m[14].pair()), rat_mul(m[10].pair(), m[12].pair()))))) && rat_fits(rat_mul(m[8].pair(), m[13].pair())) && rat_fits(rat_mul(m[9].pair(), m[12].pair())) && rat_fits(rat_sub(rat_mul(m[8].pair(), m[13].pair()), rat_mul(m[9].pair(), m[12].pair()))) && rat_fits(rat_mul(m[6].pair(), rat_sub(rat_mul(m[8].pair(), m[13].pair()), rat_mul(m[9].pair(), m[12].pair())))) && rat_fits(rat_add(rat_sub(rat_mul(m[4].pair(), rat_sub(rat_mul(m[9].pair(), m[14].pair()), rat_mul(m[10].pair(), m[13].pair()))), rat_mul(m[5].pair(), rat_sub(rat_mul(m[8].pair(), m[14].pair()), rat_mul(m[10].pair(), m[12].pair())))), rat_mul(m[6].pair(), rat_sub(rat_mul(m[8].pair(), m[13].pair()), rat_mul(m[9].pair(), m[12].pair()))))) && rat_fits(rat_mul(m[3].pair(), rat_add(rat_sub(rat_mul(m[4].pair(), rat_sub(rat_mul(m[9].pair(), m[14].pair()), rat_mul(m[10].pair(), m[13].pair()))), rat_mul(m[5].pair(), rat_sub(rat_mul(m[8].pair(), m[14].pair()), rat_mul(m[10].pair(), m[12].pair())))), rat_mul(m[6].pair(), rat_sub(rat_mul(m[8].pair(), m[13].pair()), rat_mul(m[9].pair(), m[12].pair())))))) && rat_fits(rat_sub(rat_add(rat_sub(rat_mul(m[0].pair(), rat_add(rat_sub(rat_mul(m[5].pair(), rat_sub(rat_mul(m[10].pair(), m[15].pair()), rat_mul(m[11].pair(), m[14].pair()))), rat_mul(m[6].pair(), rat_sub(rat_mul(m[9].pair(), m[15].pair()), rat_mul(m[11].pair(), m[13].pair())))), rat_mul(m[7].pair(), rat_sub(rat_mul(m[9].pair(), m[14].pair()), rat_mul(m[10].pair(), m[13].pair()))))), rat_mul(m[1].pair(), rat_add(rat_sub(rat_mul(m[4].pair(), rat_sub(rat_mul(m[10].pair(), m[15].pair()), rat_mul(m[11].pair(), m[14].pair()))), rat_mul(m[6].pair(), rat_sub(rat_mul(m[8].pair(), m[15].pair()), rat_mul(m[11].pair(), m[12].pair())))), rat_mul(m[7].pair(), rat_sub(rat_mul(m[8].pair(), m[14].pair()), rat_mul(m[10].pair(), m[12].pair())))))), rat_mul(m[2].pair(), rat_add(rat_sub(rat_mul(m[4].pair(), rat_sub(rat_mul(m[9].pair(), m[15].pair()), rat_mul(m[11].pair(), m[13].pair()))), rat_mul(m[5].pair(), rat_sub(rat_mul(m[8].pair(), m[15].pair()), rat_mul(m[11].pair(), m[12].pair())))), rat_mul(m[7].pair(), rat_sub(rat_mul(m[8].pair(), m[13].pair()), rat_mul(m[9].pair(), m[12].pair())))))), rat_mul(m[3].pair(), rat_add(rat_sub(rat_mul(m[4].pair(), rat_sub(rat_mul(m[9].pair(), m[14].pair()), rat_mul(m[10].pair(), m[13].pair()))), rat_mul(m[5].pair(), rat_sub(rat_mul(m[8].pair(), m[14].pair()), rat_mul(m[10].pair(), m[12].pair())))), rat_mul(m[6].pair(), rat_sub(rat_mul(m[8].pair(), m[13].pair()), rat_mul(m[9].pair(), m[12].pair())))))))
}

/// All components of a 4x4 matrix are well-formed.
pub open spec fn wf16(m: [Rational; 16]) -> bool {
    m[0].wf() && m[1].wf() && m[2].wf() && m[3].wf() && m[4].wf() && m[5].wf() && m[6].wf() && m[7].wf() && m[8].wf() && m[9].wf() && m[10].wf() && m[11].wf() && m[12].wf() && m[13].wf() && m[14].wf() && m[15].wf()
}


/// Everything the exact inverse computes fits, and the matrix is
/// invertible.
pub open spec fn mat4_inverse_fits(m: [Rational; 16]) -> bool {
    mat4_det_fits(m) && mat4_det_spec(m).0 != 0 && rat_fits(rat_mul(m[10].pair(), m[15].pair())) && rat_fits(rat_mul(m[11].pair(), m[14].pair())) && rat_fits(rat_sub(rat_mul(m[10].pair(), m[15].pair()), rat_mul(m[11].pair(), m[14].pair()))) && rat_fits(rat_mul(m[5].pair(), rat_sub(rat_mul(m[10].pair(), m[15].pair()), rat_mul(m[11].pair(), m[14].pair())))) && rat_fits(rat_mul(m[9].pair(), m[15].pair())) && rat_fits(rat_mul(m[11].pair(), m[13].pair())) && rat_fits(rat_sub(rat_mul(m[9].pair(), m[15].pair()), rat_mul(m[11].pair(), m[13].pair()))) && rat_fits(rat_mul(m[6].pair(), rat_sub(rat_mul(m[9].pair(), m[15].pair()), rat_mul(m[11].pair(), m[13].pair())))) && rat_fits(rat_sub(rat_mul(m[5].pair(), rat_sub(rat_mul(m[10].pair(), m[15].pair()), rat_mul(m[11].pair(), m[14].pair()))), rat_mul(m[6].pair(), rat_sub(rat_mul(m[9].pair(), m[15].pair()), rat_mul(m[11].pair(), m[13].pair()))))) && rat_fits(rat_mul(m[9].pair(), m[14].pair())) && rat_fits(rat_mul(m[10].pair(), m[13].pair())) && rat_fits(rat_sub(rat_mul(m[9].pair(), m[14].pair()), rat_mul(m[10].pair(), m[13].pair()))) && rat_fits(rat_mul(m[7].pair(), rat_sub(rat_mul(m[9].pair(), m[14].pair()), rat_mul(m[10].pair(), m[13].pair())))) && rat_fits(rat_add(rat_sub(rat_mul(m[5].pair(), rat_sub(rat_mul(m[10].pair(), m[15].pair()), rat_mul(m[11].pair(), m[14].pair()))), rat_mul(m[6].pair(), rat_sub(rat_mul(m[9].pair(), m[15].pair()), rat_mul(m[11].pair(), m[13].pair())))), rat_mul(m[7].pair(), rat_sub(rat_mul(m[9].pair(), m[14].pair()), rat_mul(m[10].pair(), m[13].pair()))))) && rat_fits(rat_mul(m[10].pair(), m[15].pair())) && rat_fits(rat_mul(m[11].pair(), m[14].pair())) && rat_fits(rat_sub(rat_mul(m[10].pair(), m[15].pair()), rat_mul(m[11].pair(), m[14].pair()))) && rat_fits(rat_mul(m[4].pair(), rat_sub(rat_mul(m[10].pair(), m[15].pair()), rat_mul(m[11].pair(), m[14].pair())))) && rat_fits(rat_mul(m[8].pair(), m[15].pair())) && rat_fits(rat_mul(m[11].pair(), m[12].pair())) && rat_fits(rat_sub(rat_mul(m[8].pair(), m[15].pair()), rat_mul(m[11].pair(), m[12].pair()))) && rat_fits(rat_mul(m[6].pair(), rat_sub(rat_mul(m[8].pair(), m[15].pair()), rat_mul(m[11].pair(), m[12].pair())))) && rat_fits(rat_sub(rat_mul(m[4].pair(), rat_sub(rat_mul(m[10].pair(), m[15].pair()), rat_mul(m[11].pair(), m[14].pair()))), rat_mul(m[6].pair(), rat_sub(rat_mul(m[8].pair(), m[15].pair()), rat_mul(m[11].pair(), m[12].pair()))))) && rat_fits(rat_mul(m[8].pair(), m[14].pair())) && rat_fits(rat_mul(m[10].pair(), m[12].pair())) && rat_fits(rat_sub(rat_mul(m[8].pair(), m[14].pair()), rat_mul(m[10].pair(), m[12].pair()))) && rat_fits(rat_mul(m[7].pair(), rat_sub(rat_mul(m[8].pair(), m[14].pair()), rat_mul(m[10].pair(), m[12].pair())))) && rat_fits(rat_add(rat_sub(rat_mul(m[4].pair(), rat_sub(rat_mul(m[10].pair(), m[15].pair()), rat_mul(m[11].pair(), m[14].pair()))), rat_mul(m[6].pair(), rat_sub(rat_mul(m[8].pair(), m[15].pair()), rat_mul(m[11].pair(), m[12].pair())))), rat_mul(m[7].pair(), rat_sub(rat_mul(m[8].pair(), m[14].pair()), rat_mul(m[10].pair(), m[12].pair()))))) && rat_fits(rat_mul(rat_add(rat_sub(rat_mul(m[4].pair(), rat_sub(rat_mul(m[10].pair(), m[15].pair()), rat_mul(m[11].pair(), m[14].pair()))), rat_mul(m[6].pair(), rat_sub(rat_mul(m[8].pair(), m[15].pair()), rat_mul(m[11].pair(), m[12].pair())))), rat_mul(m[7].pair(), rat_sub(rat_mul(m[8].pair(), m[14].pair()), rat_mul(m[10].pair(), m[12].pair())))), (-1int, 1int))) && rat_fits(rat_mul(m[9].pair(), m[15].pair())) && rat_fits(rat_mul(m[11].pair(), m[13].pair())) && rat_fits(rat_sub(rat_mul(m[9].pair(), m[15].pair()), rat_mul(m[11].pair(), m[13].pair()))) && rat_fits(rat_mul(m[4].pair(), rat_sub(rat_mul(m[9].pair(), m[15].pair()), rat_mul(m[11].pair(), m[13].pair())))) && rat_fits(rat_mul(m[8].pair(), m[15].pair())) && rat_fits(rat_mul(m[11].pair(), m[12].pair())) && rat_fits(rat_sub(rat_mul(m[8].pair(), m[15].pair()), rat_mul(m[11].pair(), m[12].pair()))) && rat_fits(rat_mul(m[5].pair(), rat_sub(rat_mul(m[8].pair(), m[15].pair()), rat_mul(m[11].pair(), m[12].pair())))) && rat_fits(rat_sub(rat_mul(m[4].pair(), rat_sub(rat_mul(m[9].pair(), m[15].pair()), rat_mul(m[11].pair(), m[13].pair()))), rat_mul(m[5].pair(), rat_sub(rat_mul(m[8].pair(), m[15].pair()), rat_mul(m[11].pair(), m[12].pair()))))) && rat_fits(rat_mul(m[8].pair(), m[13].pair())) && rat_fits(rat_mul(m[9].pair(), m[12].pair())) && rat_fits(rat_sub(rat_mul(m[8].pair(), m[13].pair()), rat_mul(m[9].pair(), m[12].pair()))) && rat_fits(rat_mul(m[7].pair(), rat_sub(rat_mul(m[8].pair(), m[13].pair()), rat_mul(m[9].pair(), m[12].pair())))) && rat_fits(rat_add(rat_sub(rat_mul(m[4].pair(), rat_sub(rat_mul(m[9].pair(), m[15].pair()), rat_mul(m[11].pair(), m[13].pair()))), rat_mul(m[5].pair(), rat_sub(rat_mul(m[8].pair(), m[15].pair()), rat_mul(m[11].pair(), m[12].pair())))), rat_mul(m[7].pair(), rat_sub(rat_mul(m[8].pair(), m[13].pair()), rat_mul(m[9].pair(), m[12].pair()))))) && rat_fits(rat_mul(m[9].pair(), m[14].pair())) && rat_fits(rat_mul(m[10].pair(), m[13].pair())) && rat_fits(rat_sub(rat_mul(m[9].pair(), m[14].pair()), rat_mul(m[10].pair(), m[13].pair()))) && rat_fits(rat_mul(m[4].pair(), rat_sub(rat_mul(m[9].pair(), m[14].pair()), rat_mul(m[10].pair(), m[13].pair())))) && rat_fits(rat_mul(m[8].pair(), m[14].pair())) && rat_fits(rat_mul(m[10].pair(), m[12].pair())) && rat_fits(rat_sub(rat_mul(m[8].pair(), m[14].pair()), rat_mul(m[10].pair(), m[12].pair()))) && rat_fits(rat_mul(m[5].pair(), rat_sub(rat_mul(m[8].pair(), m[14].pair()), rat_mul(m[10].pair(), m[12].pair())))) && rat_fits(rat_sub(rat_mul(m[4].pair(), rat_sub(rat_mul(m[9].pair(), m[14].pair()), rat_mul(m[10].pair(), m[13].pair()))), rat_mul(m[5].pair(), rat_sub(rat_mul(m[8].pair(), m[14].pair()), rat_mul(m[10].pair(), m[12].pair()))))) && rat_fits(rat_mul(m[8].pair(), m[13].pair())) && rat_fits(rat_mul(m[9].pair(), m[12].pair())) && rat_fits(rat_sub(rat_mul(m[8].pair(), m[13].pair()), rat_mul(m[9].pair(), m[12].pair()))) && rat_fits(rat_mul(m[6].pair(), rat_sub(rat_mul(m[8].pair(), m[13].pair()), rat_mul(m[9].pair(), m[12].pair())))) && rat_fits(rat_add(rat_sub(rat_mul(m[4].pair(), rat_sub(rat_mul(m[9].pair(), m[14].pair()), rat_mul(m[10].pair(), m[13].pair()))), rat_mul(m[5].pair(), rat_sub(rat_mul(m[8].pair(), m[14].pair()), rat_mul(m[10].pair(), m[12].pair())))), rat_mul(m[6].pair(), rat_sub(rat_mul(m[8].pair(), m[13].pair()), rat_mul(m[9].pair(), m[12].pair()))))) && rat_fits(rat_mul(rat_add(rat_sub(rat_mul(m[4].pair(), rat_sub(rat_mul(m[9].pair(), m[14].pair()), rat_mul(m[10].pair(), m[13].pair()))), rat_mul(m[5].pair(), rat_sub(rat_mul(m[8].pair(), m[14].pair()), rat_mul(m[10].pair(), m[12].pair())))), rat_mul(m[6].pair(), rat_sub(rat_mul(m[8].pair(), m[13].pair()), rat_mul(m[9].pair(), m[12].pair())))), (-1int, 1int))) && rat_fits(rat_mul(m[10].pair(), m[15].pair())) && rat_fits(rat_mul(m[11].pair(), m[14].pair())) && rat_fits(rat_sub(rat_mul(m[10].pair(), m[15].pair()), rat_mul(m[11].pair(), m[14].pair()))) && rat_fits(rat_mul(m[1].pair(), rat_sub(rat_mul(m[10].pair(), m[15].pair()), rat_mul(m[11].pair(), m[14].pair())))) && rat_fits(rat_mul(m[9].pair(), m[15].pair())) && rat_fits(rat_mul(m[11].pair(), m[13].pair())) && rat_fits(rat_sub(rat_mul(m[9].pair(), m[15].pair()), rat_mul(m[11].pair(), m[13].pair()))) && rat_fits(rat_mul(m[2].pair(), rat_sub(rat_mul(m[9].pair(), m[15].pair()), rat_mul(m[11].pair(), m[13].pair())))) && rat_fits(rat_sub(rat_mul(m[1].pair(), rat_sub(rat_mul(m[10].pair(), m[15].pair()), rat_mul(m[11].pair(), m[14].pair()))), rat_mul(m[2].pair(), rat_sub(rat_mul(m[9].pair(), m[15].pair()), rat_mul(m[11].pair(), m[13].pair()))))) && rat_fits(rat_mul(m[9].pair(), m[14].pair())) && rat_fits(rat_mul(m[10].pair(), m[13].pair())) && rat_fits(rat_sub(rat_mul(m[9].pair(), m[14].pair()), rat_mul(m[10].pair(), m[13].pair()))) && rat_fits(rat_mul(m[3].pair(), rat_sub(rat_mul(m[9].pair(), m[14].pair()), rat_mul(m[10].pair(), m[13].pair())))) && rat_fits(rat_add(rat_sub(rat_mul(m[1].pair(), rat_sub(rat_mul(m[10].pair(), m[15].pair()), rat_mul(m[11].pair(), m[14].pair()))), rat_mul(m[2].pair(), rat_sub(rat_mul(m[9].pair(), m[15].pair()), rat_mul(m[11].pair(), m[13].pair())))), rat_mul(m[3].pair(), rat_sub(rat_mul(m[9].pair(), m[14].pair()), rat_mul(m[10].pair(), m[13].pair()))))) && rat_fits(rat_mul(rat_add(rat_sub(rat_mul(m[1].pair(), rat_sub(rat_mul(m[10].pair(), m[15].pair()), rat_mul(m[11].pair(), m[14].pair()))), rat_mul(m[2].pair(), rat_sub(rat_mul(m[9].pair(), m[15].pair()), rat_mul(m[11].pair(), m[13].pair())))), rat_mul(m[3].pair(), rat_sub(rat_mul(m[9].pair(), m[14].pair()), rat_mul(m[10].pair(), m[13].pair())))), (-1int, 1int))) && rat_fits(rat_mul(m[10].pair(), m[15].pair())) && rat_fits(rat_mul(m[11].pair(), m[14].pair())) && rat_fits(rat_sub(rat_mul(m[10].pair(), m[15].pair()), rat_mul(m[11].pair(), m[14].pair()))) && rat_fits(rat_mul(m[0].pair(), rat_sub(rat_mul(m[10].pair(), m[15].pair()), rat_mul(m[11].pair(), m[14].pair())))) && rat_fits(rat_mul(m[8].pair(), m[15].pair())) && rat_fits(rat_mul(m[11].pair(), m[12].pair())) && rat_fits(rat_sub(rat_mul(m[8].pair(), m[15].pair()), rat_mul(m[11].pair(), m[12].pair()))) && rat_fits(rat_mul(m[2].pair(), rat_sub(rat_mul(m[8].pair(), m[15].pair()), rat_mul(m[11].pair(), m[12].pair())))) && rat_fits(rat_sub(rat_mul(m[0].pair(), rat_sub(rat_mul(m[10].pair(), m[15].pair()), rat_mul(m[11].pair(), m[14].pair()))), rat_mul(m[2].pair(), rat_sub(rat_mul(m[8].pair(), m[15].pair()), rat_mul(m[11].pair(), m[12].pair()))))) && rat_fits(rat_mul(m[8].pair(), m[14].pair())) && rat_fits(rat_mul(m[10].pair(), m[12].pair())) && rat_fits(rat_sub(rat_mul(m[8].pair(), m[14].pair()), rat_mul(m[10].pair(), m[12].pair()))) && rat_fits(rat_mul(m[3].pair(), rat_sub(rat_mul(m[8].pair(), m[14].pair()), rat_mul(m[10].pair(), m[12].pair())))) && rat_fits(rat_add(rat_sub(rat_mul(m[0].pair(), rat_sub(rat_mul(m[10].pair(), m[15].pair()), rat_mul(m[11].pair(), m[14].pair()))), rat_mul(m[2].pair(), rat_sub(rat_mul(m[8].pair(), m[15].pair()), rat_mul(m[11].pair(), m[12].pair())))), rat_mul(m[3].pair(), rat_sub(rat_mul(m[8].pair(), m[14].pair()), rat_mul(m[10].pair(), m[12].pair()))))) && rat_fits(rat_mul(m[9].pair(), m[15].pair())) && rat_fits(rat_mul(m[11].pair(), m[13].pair())) && rat_fits(rat_sub(rat_mul(m[9].pair(), m[15].pair()), rat_mul(m[11].pair(), m[13].pair()))) && rat_fits(rat_mul(m[0].pair(), rat_sub(rat_mul(m[9].pair(), m[15].pair()), rat_mul(m[11].pair(), m[13].pair())))) && rat_fits(rat_mul(m[8].pair(), m[15].pair())) && rat_fits(rat_mul(m[11].pair(), m[12].pair())) && rat_fits(rat_sub(rat_mul(m[8].pair(), m[15].pair()), rat_mul(m[11].pair(), m[12].pair()))) && rat_fits(rat_mul(m[1].pair(), rat_sub(rat_mul(m[8].pair(), m[15].pair()), rat_mul(m[11].pair(), m[12].pair())))) && rat_fits(rat_sub(rat_mul(m[0].pair(), rat_sub(rat_mul(m[9].pair(), m[15].pair()), rat_mul(m[11].pair(), m[13].pair()))), rat_mul(m[1].pair(), rat_sub(rat_mul(m[8].pair(), m[15].pair()), rat_mul(m[11].pair(), m[12].pair()))))) && rat_fits(rat_mul(m[8].pair(), m[13].pair())) && rat_fits(rat_mul(m[9].pair(), m[12].pair())) && rat_fits(rat_sub(rat_mul(m[8].pair(), m[13].pair()), rat_mul(m[9].pair(), m[12].pair()))) && rat_fits(rat_mul(m[3].pair(), rat_sub(rat_mul(m[8].pair(), m[13].pair()), rat_mul(m[9].pair(), m[12].pair())))) && rat_fits(rat_add(rat_sub(rat_mul(m[0].pair(), rat_sub(rat_mul(m[9].pair(), m[15].pair()), rat_mul(m[11].pair(), m[13].pair()))), rat_mul(m[1].pair(), rat_sub(rat_mul(m[8].pair(), m[15].pair()), rat_mul(m[11].pair(), m[12].pair())))), rat_mul(m[3].pair(), rat_sub(rat_mul(m[8].pair(), m[13].pair()), rat_mul(m[9].pair(), m[12].pair()))))) && rat_fits(rat_mul(rat_add(rat_sub(rat_mul(m[0].pair(), rat_sub(rat_mul(m[9].pair(), m[15].pair()), rat_mul(m[11].pair(), m[13].pair()))), rat_mul(m[1].pair(), rat_sub(rat_mul(m[8].pair(), m[15].pair()), rat_mul(m[11].pair(), m[12].pair())))), rat_mul(m[3].pair(), rat_sub(rat_mul(m[8].pair(), m[13].pair()), rat_mul(m[9].pair(), m[12].pair())))), (-1int, 1int))) && rat_fits(rat_mul(m[9].pair(), m[14].pair())) && rat_fits(rat_mul(m[10].pair(), m[13].pair())) && rat_fits(rat_sub(rat_mul(m[9].pair(), m[14].pair()), rat_mul(m[10].pair(), m[13].pair()))) && rat_fits(rat_mul(m[0].pair(), rat_sub(rat_mul(m[9].pair(), m[14].pair()), rat_mul(m[10].pair(), m[13].pair())))) && rat_fits(rat_mul(m[8].pair(), m[14].pair())) && rat_fits(rat_mul(m[10].pair(), m[12].pair())) && rat_fits(rat_sub(rat_mul(m[8].pair(), m[14].pair()), rat_mul(m[10].pair(), m[12].pair()))) && rat_fits(rat_mul(m[1].pair(), rat_sub(rat_mul(m[8].pair(), m[14].pair()), rat_mul(m[10].pair(), m[12].pair())))) && rat_fits(rat_sub(rat_mul(m[0].pair(), rat_sub(rat_mul(m[9].pair(), m[14].pair()), rat_mul(m[10].pair(), m[13].pair()))), rat_mul(m[1].pair(), rat_sub(rat_mul(m[8].pair(), m[14].pair()), rat_mul(m[10].pair(), m[12].pair()))))) && rat_fits(rat_mul(m[8].pair(), m[13].pair())) && rat_fits(rat_mul(m[9].pair(), m[12].pair())) && rat_fits(rat_sub(rat_mul(m[8].pair(), m[13].pair()), rat_mul(m[9].pair(), m[12].pair()))) && rat_fits(rat_mul(m[2].pair(), rat_sub(rat_mul(m[8].pair(), m[13].pair()), rat_mul(m[9].pair(), m[12].pair())))) && rat_fits(rat_add(rat_sub(rat_mul(m[0].pair(), rat_sub(rat_mul(m[9].pair(), m[14].pair()), rat_mul(m[10].pair(), m[13].pair()))), rat_mul(m[1].pair(), rat_sub(rat_mul(m[8].pair(), m[14].pair()), rat_mul(m[10].pair(), m[12].pair())))), rat_mul(m[2].pair(), rat_sub(rat_mul(m[8].pair(), m[13].pair()), rat_mul(m[9].pair(), m[12].pair()))))) && rat_fits(rat_mul(m[6].pair(), m[15].pair())) && rat_fits(rat_mul(m[7].pair(), m[14].pair())) && rat_fits(rat_sub(rat_mul(m[6].pair(), m[15].pair()), rat_mul(m[7].pair(), m[14].pair()))) && rat_fits(rat_mul(m[1].pair(), rat_sub(rat_mul(m[6].pair(), m[15].pair()), rat_mul(m[7].pair(), m[14].pair())))) && rat_fits(rat_mul(m[5].pair(), m[15].pair())) && rat_fits(rat_mul(m[7].pair(), m[13].pair())) && rat_fits(rat_sub(rat_mul(m[5].pair(), m[15].pair()), rat_mul(m[7].pair(), m[13].pair()))) && rat_fits(rat_mul(m[2].pair(), rat_sub(rat_mul(m[5].pair(), m[15].pair()), rat_mul(m[7].pair(), m[13].pair())))) && rat_fits(rat_sub(rat_mul(m[1].pair(), rat_sub(rat_mul(m[6].pair(), m[15].pair()), rat_mul(m[7].pair(), m[14].pair()))), rat_mul(m[2].pair(), rat_sub(rat_mul(m[5].pair(), m[15].pair()), rat_mul(m[7].pair(), m[13].pair()))))) && rat_fits(rat_mul(m[5].pair(), m[14].pair())) && rat_fits(rat_mul(m[6].pair(), m[13].pair())) && rat_fits(rat_sub(rat_mul(m[5].pair(), m[14].pair()), rat_mul(m[6].pair(), m[13].pair()))) && rat_fits(rat_mul(m[3].pair(), rat_sub(rat_mul(m[5].pair(), m[14].pair()), rat_mul(m[6].pair(), m[13].pair())))) && rat_fits(rat_add(rat_sub(rat_mul(m[1].pair(), rat_sub(rat_mul(m[6].pair(), m[15].pair()), rat_mul(m[7].pair(), m[14].pair()))), rat_mul(m[2].pair(), rat_sub(rat_mul(m[5].pair(), m[15].pair()), rat_mul(m[7].pair(), m[13].pair())))), rat_mul(m[3].pair(), rat_sub(rat_mul(m[5].pair(), m[14].pair()), rat_mul(m[6].pair(), m[13].pair()))))) && rat_fits(rat_mul(m[6].pair(), m[15].pair())) && rat_fits(rat_mul(m[7].pair(), m[14].pair())) && rat_fits(rat_sub(rat_mul(m[6].pair(), m[15].pair()), rat_mul(m[7].pair(), m[14].pair()))) && rat_fits(rat_mul(m[0].pair(), rat_sub(rat_mul(m[6].pair(), m[15].pair()), rat_mul(m[7].pair(), m[14].pair())))) && rat_fits(rat_mul(m[4].pair(), m[15].pair())) && rat_fits(rat_mul(m[7].pair(), m[12].pair())) && rat_fits(rat_sub(rat_mul(m[4].pair(), m[15].pair()), rat_mul(m[7].pair(), m[12].pair()))) && rat_fits(rat_mul(m[2].pair(), rat_sub(rat_mul(m[4].pair(), m[15].pair()), rat_mul(m[7].pair(), m[12].pair())))) && rat_fits(rat_sub(rat_mul(m[0].pair(), rat_sub(rat_mul(m[6].pair(), m[15].pair()), rat_mul(m[7].pair(), m[14].pair()))), rat_mul(m[2].pair(), rat_sub(rat_mul(m[4].pair(), m[15].pair()), rat_mul(m[7].pair(), m[12].pair()))))) && rat_fits(rat_mul(m[4].pair(), m[14].pair())) && rat_fits(rat_mul(m[6].pair(), m[12].pair())) && rat_fits(rat_sub(rat_mul(m[4].pair(), m[14].pair()), rat_mul(m[6].pair(), m[12].pair()))) && rat_fits(rat_mul(m[3].pair(), rat_sub(rat_mul(m[4].pair(), m[14].pair()), rat_mul(m[6].pair(), m[12].pair())))) && rat_fits(rat_add(rat_sub(rat_mul(m[0].pair(), rat_sub(rat_mul(m[6].pair(), m[15].pair()), rat_mul(m[7].pair(), m[14].pair()))), rat_mul(m[2].pair(), rat_sub(rat_mul(m[4].pair(), m[15].pair()), rat_mul(m[7].pair(), m[12].pair())))), rat_mul(m[3].pair(), rat_sub(rat_mul(m[4].pair(), m[14].pair()), rat_mul(m[6].pair(), m[12].pair()))))) && rat_fits(rat_mul(rat_add(rat_sub(rat_mul(m[0].pair(), rat_sub(rat_mul(m[6].pair(), m[15].pair()), rat_mul(m[7].pair(), m[14].pair()))), rat_mul(m[2].pair(), rat_sub(rat_mul(m[4].pair(), m[15].pair()), rat_mul(m[7].pair(), m[12].pair())))), rat_mul(m[3].pair(), rat_sub(rat_mul(m[4].pair(), m[14].pair()), rat_mul(m[6].pair(), m[12].pair())))), (-1int, 1int))) && rat_fits(rat_mul(m[5].pair(), m[15].pair())) && rat_fits(rat_mul(m[7].pair(), m[13].pair())) && rat_fits(rat_sub(rat_mul(m[5].pair(), m[15].pair()), rat_mul(m[7].pair(), m[13].pair()))) && rat_fits(rat_mul(m[0].pair(), rat_sub(rat_mul(m[5].pair(), m[15].pair()), rat_mul(m[7].pair(), m[13].pair())))) && rat_fits(rat_mul(m[4].pair(), m[15].pair())) && rat_fits(rat_mul(m[7].pair(), m[12].pair())) && rat_fits(rat_sub(rat_mul(m[4].pair(), m[15].pair()), rat_mul(m[7].pair(), m[12].pair()))) && rat_fits(rat_mul(m[1].pair(), rat_sub(rat_mul(m[4].pair(), m[15].pair()), rat_mul(m[7].pair(), m[12].pair())))) && rat_fits(rat_sub(rat_mul(m[0].pair(), rat_sub(rat_mul(m[5].pair(), m[15].pair()), rat_mul(m[7].pair(), m[13].pair()))), rat_mul(m[1].pair(), rat_sub(rat_mul(m[4].pair(), m[15].pair()), rat_mul(m[7].pair(), m[12].pair()))))) && rat_fits(rat_mul(m[4].pair(), m[13].pair())) && rat_fits(rat_mul(m[5].pair(), m[12].pair())) && rat_fits(rat_sub(rat_mul(m[4].pair(), m[13].pair()), rat_mul(m[5].pair(), m[12].pair()))) && rat_fits(rat_mul(m[3].pair(), rat_sub(rat_mul(m[4].pair(), m[13].pair()), rat_mul(m[5].pair(), m[12].pair())))) && rat_fits(rat_add(rat_sub(rat_mul(m[0].pair(), rat_sub(rat_mul(m[5].pair(), m[15].pair()), rat_mul(m[7].pair(), m[13].pair()))), rat_mul(m[1].pair(), rat_sub(rat_mul(m[4].pair(), m[15].pair()), rat_mul(m[7].pair(), m[12].pair())))), rat_mul(m[3].pair(), rat_sub(rat_mul(m[4].pair(), m[13].pair()), rat_mul(m[5].pair(), m[12].pair()))))) && rat_fits(rat_mul(m[5].pair(), m[14].pair())) && rat_fits(rat_mul(m[6].pair(), m[13].pair())) && rat_fits(rat_sub(rat_mul(m[5].pair(), m[14].pair()), rat_mul(m[6].pair(), m[13].pair()))) && rat_fits(rat_mul(m[0].pair(), rat_sub(rat_mul(m[5].pair(), m[14].pair()), rat_mul(m[6].pair(), m[13].pair())))) && rat_fits(rat_mul(m[4].pair(), m[14].pair())) && rat_fits(rat_mul(m[6].pair(), m[12].pair())) && rat_fits(rat_sub(rat_mul(m[4].pair(), m[14].pair()), rat_mul(m[6].pair(), m[12].pair()))) && rat_fits(rat_mul(m[1].pair(), rat_sub(rat_mul(m[4].pair(), m[14].pair()), rat_mul(m[6].pair(), m[12].pair())))) && rat_fits(rat_sub(rat_mul(m[0].pair(), rat_sub(rat_mul(m[5].pair(), m[14].pair()), rat_mul(m[6].pair(), m[13].pair()))), rat_mul(m[1].pair(), rat_sub(rat_mul(m[4].pair(), m[14].pair()), rat_mul(m[6].pair(), m[12].pair()))))) && rat_fits(rat_mul(m[4].pair(), m[13].pair())) && rat_fits(rat_mul(m[5].pair(), m[12].pair())) && rat_fits(rat_sub(rat_mul(m[4].pair(), m[13].pair()), rat_mul(m[5].pair(), m[12].pair()))) && rat_fits(rat_mul(m[2].pair(), rat_sub(rat_mul(m[4].pair(), m[13].pair()), rat_mul(m[5].pair(), m[12].pair())))) && rat_fits(rat_add(rat_sub(rat_mul(m[0].pair(), rat_sub(rat_mul(m[5].pair(), m[14].pair()), rat_mul(m[6].pair(), m[13].pair()))), rat_mul(m[1].pair(), rat_sub(rat_mul(m[4].pair(), m[14].pair()), rat_mul(m[6].pair(), m[12].pair())))), rat_mul(m[2].pair(), rat_sub(rat_mul(m[4].pair(), m[13].pair()), rat_mul(m[5].pair(), m[12].pair()))))) && rat_fits(rat_mul(rat_add(rat_sub(rat_mul(m[0].pair(), rat_sub(rat_mul(m[5].pair(), m[14].pair()), rat_mul(m[6].pair(), m[13].pair()))), rat_mul(m[1].pair(), rat_sub(rat_mul(m[4].pair(), m[14].pair()), rat_mul(m[6].pair(), m[12].pair())))), rat_mul(m[2].pair(), rat_sub(rat_mul(m[4].pair(), m[13].pair()), rat_mul(m[5].pair(), m[12].pair())))), (-1int, 1int))) && rat_fits(rat_mul(m[6].pair(), m[11].pair())) && rat_fits(rat_mul(m[7].pair(), m[10].pair())) && rat_fits(rat_sub(rat_mul(m[6].pair(), m[11].pair()), rat_mul(m[7].pair(), m[10].pair()))) && rat_fits(rat_mul(m[1].pair(), rat_sub(rat_mul(m[6].pair(), m[11].pair()), rat_mul(m[7].pair(), m[10].pair())))) && rat_fits(rat_mul(m[5].pair(), m[11].pair())) && rat_fits(rat_mul(m[7].pair(), m[9].pair())) && rat_fits(rat_sub(rat_mul(m[5].pair(), m[11].pair()), rat_mul(m[7].pair(), m[9].pair()))) && rat_fits(rat_mul(m[2].pair(), rat_sub(rat_mul(m[5].pair(), m[11].pair()), rat_mul(m[7].pair(), m[9].pair())))) && rat_fits(rat_sub(rat_mul(m[1].pair(), rat_sub(rat_mul(m[6].pair(), m[11].pair()), rat_mul(m[7].pair(), m[10].pair()))), rat_mul(m[2].pair(), rat_sub(rat_mul(m[5].pair(), m[11].pair()), rat_mul(m[7].pair(), m[9].pair()))))) && rat_fits(rat_mul(m[5].pair(), m[10].pair())) && rat_fits(rat_mul(m[6].pair(), m[9].pair())) && rat_fits(rat_sub(rat_mul(m[5].pair(), m[10].pair()), rat_mul(m[6].pair(), m[9].pair()))) && rat_fits(rat_mul(m[3].pair(), rat_sub(rat_mul(m[5].pair(), m[10].pair()), rat_mul(m[6].pair(), m[9].pair())))) && rat_fits(rat_add(rat_sub(rat_mul(m[1].pair(), rat_sub(rat_mul(m[6].pair(), m[11].pair()), rat_mul(m[7].pair(), m[10].pair()))), rat_mul(m[2].pair(), rat_sub(rat_mul(m[5].pair(), m[11].pair()), rat_mul(m[7].pair(), m[9].pair())))), rat_mul(m[3].pair(), rat_sub(rat_mul(m[5].pair(), m[10].pair()), rat_mul(m[6].pair(), m[9].pair()))))) && rat_fits(rat_mul(rat_add(rat_sub(rat_mul(m[1].pair(), rat_sub(rat_mul(m[6].pair(), m[11].pair()), rat_mul(m[7].pair(), m[10].pair()))), rat_mul(m[2].pair(), rat_sub(rat_mul(m[5].pair(), m[11].pair()), rat_mul(m[7].pair(), m[9].pair())))), rat_mul(m[3].pair(), rat_sub(rat_mul(m[5].pair(), m[10].pair()), rat_mul(m[6].pair(), m[9].pair())))), (-1int, 1int))) && rat_fits(rat_mul(m[6].pair(), m[11].pair())) && rat_fits(rat_mul(m[7].pair(), m[10].pair())) && rat_fits(rat_sub(rat_mul(m[6].pair(), m[11].pair()), rat_mul(m[7].pair(), m[10].pair()))) && rat_fits(rat_mul(m[0].pair(), rat_sub(rat_mul(m[6].pair(), m[11].pair()), rat_mul(m[7].pair(), m[10].pair())))) && rat_fits(rat_mul(m[4].pair(), m[11].pair())) && rat_fits(rat_mul(m[7].pair(), m[8].pair())) && rat_fits(rat_sub(rat_mul(m[4].pair(), m[11].pair()), rat_mul(m[7].pair(), m[8].pair()))) && rat_fits(rat_mul(m[2].pair(), rat_sub(rat_mul(m[4].pair(), m[11].pair()), rat_mul(m[7].pair(), m[8].pair())))) && rat_fits(rat_sub(rat_mul(m[0].pair(), rat_sub(rat_mul(m[6].pair(), m[11].pair()), rat_mul(m[7].pair(), m[10].pair()))), rat_mul(m[2].pair(), rat_sub(rat_mul(m[4].pair(), m[11].pair()), rat_mul(m[7].pair(), m[8].pair()))))) && rat_fits(rat_mul(m[4].pair(), m[10].pair())) && rat_fits(rat_mul(m[6].pair(), m[8].pair())) && rat_fits(rat_sub(rat_mul(m[4].pair(), m[10].pair()), rat_mul(m[6].pair(), m[8].pair()))) && rat_fits(rat_mul(m[3].pair(), rat_sub(rat_mul(m[4].pair(), m[10].pair()), rat_mul(m[6].pair(), m[8].pair())))) && rat_fits(rat_add(rat_sub(rat_mul(m[0].pair(), rat_sub(rat_mul(m[6].pair(), m[11].pair()), rat_mul(m[7].pair(), m[10].pair()))), rat_mul(m[2].pair(), rat_sub(rat_mul(m[4].pair(), m[11].pair()), rat_mul(m[7].pair(), m[8].pair())))), rat_mul(m[3].pair(), rat_sub(rat_mul(m[4].pair(), m[10].pair()), rat_mul(m[6].pair(), m[8].pair()))))) && rat_fits(rat_mul(m[5].pair(), m[11].pair())) && rat_fits(rat_mul(m[7].pair(), m[9].pair())) && rat_fits(rat_sub(rat_mul(m[5].pair(), m[11].pair()), rat_mul(m[7].pair(), m[9].pair()))) && rat_fits(rat_mul(m[0].pair(), rat_sub(rat_mul(m[5].pair(), m[11].pair()), rat_mul(m[7].pair(), m[9].pair())))) && rat_fits(rat_mul(m[4].pair(), m[11].pair())) && rat_fits(rat_mul(m[7].pair(), m[8].pair())) && rat_fits(rat_sub(rat_mul(m[4].pair(), m[11].pair()), rat_mul(m[7].pair(), m[8].pair()))) && rat_fits(rat_mul(m[1].pair(), rat_sub(rat_mul(m[4].pair(), m[11].pair()), rat_mul(m[7].pair(), m[8].pair())))) && rat_fits(rat_sub(rat_mul(m[0].pair(), rat_sub(rat_mul(m[5].pair(), m[11].pair()), rat_mul(m[7].pair(), m[9].pair()))), rat_mul(m[1].pair(), rat_sub(rat_mul(m[4].pair(), m[11].pair()), rat_mul(m[7].pair(), m[8].pair()))))) && rat_fits(rat_mul(m[4].pair(), m[9].pair())) && rat_fits(rat_mul(m[5].pair(), m[8].pair())) && rat_fits(rat_sub(rat_mul(m[4].pair(), m[9].pair()), rat_mul(m[5].pair(), m[8].pair()))) && rat_fits(rat_mul(m[3].pair(), rat_sub(rat_mul(m[4].pair(), m[9].pair()), rat_mul(m[5].pair(), m[8].pair())))) && rat_fits(rat_add(rat_sub(rat_mul(m[0].pair(), rat_sub(rat_mul(m[5].pair(), m[11].pair()), rat_mul(m[7].pair(), m[9].pair()))), rat_mul(m[1].pair(), rat_sub(rat_mul(m[4].pair(), m[11].pair()), rat_mul(m[7].pair(), m[8].pair())))), rat_mul(m[3].pair(), rat_sub(rat_mul(m[4].pair(), m[9].pair()), rat_mul(m[5].pair(), m[8].pair()))))) && rat_fits(rat_mul(rat_add(rat_sub(rat_mul(m[0].pair(), rat_sub(rat_mul(m[5].pair(), m[11].pair()), rat_mul(m[7].pair(), m[9].pair()))), rat_mul(m[1].pair(), rat_sub(rat_mul(m[4].pair(), m[11].pair()), rat_mul(m[7].pair(), m[8].pair())))), rat_mul(m[3].pair(), rat_sub(rat_mul(m[4].pair(), m[9].pair()), rat_mul(m[5].pair(), m[8].pair())))), (-1int, 1int))) && rat_fits(rat_mul(m[5].pair(), m[10].pair())) && rat_fits(rat_mul(m[6].pair(), m[9].pair())) && rat_fits(rat_sub(rat_mul(m[5].pair(), m[10].pair()), rat_mul(m[6].pair(), m[9].pair()))) && rat_fits(rat_mul(m[0].pair(), rat_sub(rat_mul(m[5].pair(), m[10].pair()), rat_mul(m[6].pair(), m[9].pair())))) && rat_fits(rat_mul(m[4].pair(), m[10].pair())) && rat_fits(rat_mul(m[6].pair(), m[8].pair())) && rat_fits(rat_sub(rat_mul(m[4].pair(), m[10].pair()), rat_mul(m[6].pair(), m[8].pair()))) && rat_fits(rat_mul(m[1].pair(), rat_sub(rat_mul(m[4].pair(), m[10].pair()), rat_mul(m[6].pair(), m[8].pair())))) && rat_fits(rat_sub(rat_mul(m[0].pair(), rat_sub(rat_mul(m[5].pair(), m[10].pair()), rat_mul(m[6].pair(), m[9].pair()))), rat_mul(m[1].pair(), rat_sub(rat_mul(m[4].pair(), m[10].pair()), rat_mul(m[6].pair(), m[8].pair()))))) && rat_fits(rat_mul(m[4].pair(), m[9].pair())) && rat_fits(rat_mul(m[5].pair(), m[8].pair())) && rat_fits(rat_sub(rat_mul(m[4].pair(), m[9].pair()), rat_mul(m[5].pair(), m[8].pair()))) && rat_fits(rat_mul(m[2].pair(), rat_sub(rat_mul(m[4].pair(), m[9].pair()), rat_mul(m[5].pair(), m[8].pair())))) && rat_fits(rat_add(rat_sub(rat_mul(m[0].pair(), rat_sub(rat_mul(m[5].pair(), m[10].pair()), rat_mul(m[6].pair(), m[9].pair()))), rat_mul(m[1].pair(), rat_sub(rat_mul(m[4].pair(), m[10].pair()), rat_mul(m[6].pair(), m[8].pair())))), rat_mul(m[2].pair(), rat_sub(rat_mul(m[4].pair(), m[9].pair()), rat_mul(m[5].pair(), m[8].pair()))))) && rat_fits(rat_div(rat_add(rat_sub(rat_mul(m[5].pair(), rat_sub(rat_mul(m[10].pair(), m[15].pair()), rat_mul(m[11].pair(), m[14].pair()))), rat_mul(m[6].pair(), rat_sub(rat_mul(m[9].pair(), m[15].pair()), rat_mul(m[11].pair(), m[13].pair())))), rat_mul(m[7].pair(), rat_sub(rat_mul(m[9].pair(), m[14].pair()), rat_mul(m[10].pair(), m[13].pair())))), mat4_det_spec(m))) && rat_fits(rat_div(rat_mul(rat_add(rat_sub(rat_mul(m[1].pair(), rat_sub(rat_mul(m[10].pair(), m[15].pair()), rat_mul(m[11].pair(), m[14].pair()))), rat_mul(m[2].pair(), rat_sub(rat_mul(m[9].pair(), m[15].pair()), rat_mul(m[11].pair(), m[13].pair())))), rat_mul(m[3].pair(), rat_sub(rat_mul(m[9].pair(), m[14].pair()), rat_mul(m[10].pair(), m[13].pair())))), (-1int, 1int)), mat4_det_spec(m))) && rat_fits(rat_div(rat_add(rat_sub(rat_mul(m[1].pair(), rat_sub(rat_mul(m[6].pair(), m[15].pair()), rat_mul(m[7].pair(), m[14].pair()))), rat_mul(m[2].pair(), rat_sub(rat_mul(m[5].pair(), m[15].pair()), rat_mul(m[7].pair(), m[13].pair())))), rat_mul(m[3].pair(), rat_sub(rat_mul(m[5].pair(), m[14].pair()), rat_mul(m[6].pair(), m[13].pair())))), mat4_det_spec(m))) && rat_fits(rat_div(rat_mul(rat_add(rat_sub(rat_mul(m[1].pair(), rat_sub(rat_mul(m[6].pair(), m[11].pair()), rat_mul(m[7].pair(), m[10].pair()))), rat_mul(m[2].pair(), rat_sub(rat_mul(m[5].pair(), m[11].pair()), rat_mul(m[7].pair(), m[9].pair())))), rat_mul(m[3].pair(), rat_sub(rat_mul(m[5].pair(), m[10].pair()), rat_mul(m[6].pair(), m[9].pair())))), (-1int, 1int)), mat4_det_spec(m))) && rat_fits(rat_div(rat_mul(rat_add(rat_sub(rat_mul(m[4].pair(), rat_sub(rat_mul(m[10].pair(), m[15].pair()), rat_mul(m[11].pair(), m[14].pair()))), rat_mul(m[6].pair(), rat_sub(rat_mul(m[8].pair(), m[15].pair()), rat_mul(m[11].pair(), m[12].pair())))), rat_mul(m[7].pair(), rat_sub(rat_mul(m[8].pair(), m[14].pair()), rat_mul(m[10].pair(), m[12].pair())))), (-1int, 1int)), mat4_det_spec(m))) && rat_fits(rat_div(rat_add(rat_sub(rat_mul(m[0].pair(), rat_sub(rat_mul(m[10].pair(), m[15].pair()), rat_mul(m[11].pair(), m[14].pair()))), rat_mul(m[2].pair(), rat_sub(rat_mul(m[8].pair(), m[15].pair()), rat_mul(m[11].pair(), m[12].pair())))), rat_mul(m[3].pair(), rat_sub(rat_mul(m[8].pair(), m[14].pair()), rat_mul(m[10].pair(), m[12].pair())))), mat4_det_spec(m))) && rat_fits(rat_div(rat_mul(rat_add(rat_sub(rat_mul(m[0].pair(), rat_sub(rat_mul(m[6].pair(), m[15].pair()), rat_mul(m[7].pair(), m[14].pair()))), rat_mul(m[2].pair(), rat_sub(rat_mul(m[4].pair(), m[15].pair()), rat_mul(m[7].pair(), m[12].pair())))), rat_mul(m[3].pair(), rat_sub(rat_mul(m[4].pair(), m[14].pair()), rat_mul(m[6].pair(), m[12].pair())))), (-1int, 1int)), mat4_det_spec(m))) && rat_fits(rat_div(rat_add(rat_sub(rat_mul(m[0].pair(), rat_sub(rat_mul(m[6].pair(), m[11].pair()), rat_mul(m[7].pair(), m[10].pair()))), rat_mul(m[2].pair(), rat_sub(rat_mul(m[4].pair(), m[11].pair()), rat_mul(m[7].pair(), m[8].pair())))), rat_mul(m[3].pair(), rat_sub(rat_mul(m[4].pair(), m[10].pair()), rat_mul(m[6].pair(), m[8].pair())))), mat4_det_spec(m))) && rat_fits(rat_div(rat_add(rat_sub(rat_mul(m[4].pair(), rat_sub(rat_mul(m[9].pair(), m[15].pair()), rat_mul(m[11].pair(), m[13].pair()))), rat_mul(m[5].pair(), rat_sub(rat_mul(m[8].pair(), m[15].pair()), rat_mul(m[11].pair(), m[12].pair())))), rat_mul(m[7].pair(), rat_sub(rat_mul(m[8].pair(), m[13].pair()), rat_mul(m[9].pair(), m[12].pair())))), mat4_det_spec(m))) && rat_fits(rat_div(rat_mul(rat_add(rat_sub(rat_mul(m[0].pair(), rat_sub(rat_mul(m[9].pair(), m[15].pair()), rat_mul(m[11].pair(), m[13].pair()))), rat_mul(m[1].pair(), rat_sub(rat_mul(m[8].pair(), m[15].pair()), rat_mul(m[11].pair(), m[12].pair())))), rat_mul(m[3].pair(), rat_sub(rat_mul(m[8].pair(), m[13].pair()), rat_mul(m[9].pair(), m[12].pair())))), (-1int, 1int)), mat4_det_spec(m))) && rat_fits(rat_div(rat_add(rat_sub(rat_mul(m[0].pair(), rat_sub(rat_mul(m[5].pair(), m[15].pair()), rat_mul(m[7].pair(), m[13].pair()))), rat_mul(m[1].pair(), rat_sub(rat_mul(m[4].pair(), m[15].pair()), rat_mul(m[7].pair(), m[12].pair())))), rat_mul(m[3].pair(), rat_sub(rat_mul(m[4].pair(), m[13].pair()), rat_mul(m[5].pair(), m[12].pair())))), mat4_det_spec(m))) && rat_fits(rat_div(rat_mul(rat_add(rat_sub(rat_mul(m[0].pair(), rat_sub(rat_mul(m[5].pair(), m[11].pair()), rat_mul(m[7].pair(), m[9].pair()))), rat_mul(m[1].pair(), rat_sub(rat_mul(m[4].pair(), m[11].pair()), rat_mul(m[7].pair(), m[8].pair())))), rat_mul(m[3].pair(), rat_sub(rat_mul(m[4].pair(), m[9].pair()), rat_mul(m[5].pair(), m[8].pair())))), (-1int, 1int)), mat4_det_spec(m))) && rat_fits(rat_div(rat_mul(rat_add(rat_sub(rat_mul(m[4].pair(), rat_sub(rat_mul(m[9].pair(), m[14].pair()), rat_mul(m[10].pair(), m[13].pair()))), rat_mul(m[5].pair(), rat_sub(rat_mul(m[8].pair(), m[14].pair()), rat_mul(m[10].pair(), m[12].pair())))), rat_mul(m[6].pair(), rat_sub(rat_mul(m[8].pair(), m[13].pair()), rat_mul(m[9].pair(), m[12].pair())))), (-1int, 1int)), mat4_det_spec(m))) && rat_fits(rat_div(rat_add(rat_sub(rat_mul(m[0].pair(), rat_sub(rat_mul(m[9].pair(), m[14].pair()), rat_mul(m[10].pair(), m[13].pair()))), rat_mul(m[1].pair(), rat_sub(rat_mul(m[8].pair(), m[14].pair()), rat_mul(m[10].pair(), m[12].pair())))), rat_mul(m[2].pair(), rat_sub(rat_mul(m[8].pair(), m[13].pair()), rat_mul(m[9].pair(), m[12].pair())))), mat4_det_spec(m))) && rat_fits(rat_div(rat_mul(rat_add(rat_sub(rat_mul(m[0].pair(), rat_sub(rat_mul(m[5].pair(), m[14].pair()), rat_mul(m[6].pair(), m[13].pair()))), rat_mul(m[1].pair(), rat_sub(rat_mul(m[4].pair(), m[14].pair()), rat_mul(m[6].pair(), m[12].pair())))), rat_mul(m[2].pair(), rat_sub(rat_mul(m[4].pair(), m[13].pair()), rat_mul(m[5].pair(), m[12].pair())))), (-1int, 1int)), mat4_det_spec(m))) && rat_fits(rat_div(rat_add(rat_sub(rat_mul(m[0].pair(), rat_sub(rat_mul(m[5].pair(), m[10].pair()), rat_mul(m[6].pair(), m[9].pair()))), rat_mul(m[1].pair(), rat_sub(rat_mul(m[4].pair(), m[10].pair()), rat_mul(m[6].pair(), m[8].pair())))), rat_mul(m[2].pair(), rat_sub(rat_mul(m[4].pair(), m[9].pair()), rat_mul(m[5].pair(), m[8].pair())))), mat4_det_spec(m)))
}


/// Entry points for the exact vector and matrix operations.
pub struct Math {
}

impl Math {
    /// Componentwise sum; `None` exactly when a component's exact value
    /// does not fit.
    pub fn vec3_add(a: [Rational; 3], b: [Rational; 3]) -> (r: Option<[Rational; 3]>)
        requires
            wf3(a),
            wf3(b),
        ensures
            r is Some <==> rat_fits(rat_add(a[0].pair(), b[0].pair())) && rat_fits(
                rat_add(a[1].pair(), b[1].pair()),
            ) && rat_fits(rat_add(a[2].pair(), b[2].pair())),
            r matches Some(v) ==> wf3(v) && v[0].pair() == rat_add(a[0].pair(), b[0].pair())
                && v[1].pair() == rat_add(a[1].pair(), b[1].pair()) && v[2].pair() == rat_add(
                a[2].pair(),
                b[2].pair(),
            ),
    {
        match (a[0].add(b[0]), a[1].add(b[1]), a[2].add(b[2])) {
            (Some(x), Some(y), Some(z)) => Some([x, y, z]),
            _ => None,
        }
    }

    /// Componentwise exact operation; `None` exactly when a component's
    /// exact value does not fit.
    pub fn vec3_minus(a: [Rational; 3], b: [Rational; 3]) -> (r: Option<[Rational; 3]>)
        requires
            wf3(a),
            wf3(b),
        ensures
            r is Some <==> rat_fits(rat_sub(a[0].pair(), b[0].pair())) && rat_fits(rat_sub(a[1].pair(), b[1].pair())) && rat_fits(rat_sub(a[2].pair(), b[2].pair())),
            r matches Some(v) ==> wf3(v) && v[0].pair() == rat_sub(a[0].pair(), b[0].pair()) && v[1].pair() == rat_sub(a[1].pair(), b[1].pair()) && v[2].pair() == rat_sub(a[2].pair(), b[2].pair()),
    {
        match (a[0].sub(b[0]), a[1].sub(b[1]), a[2].sub(b[2])) {
            (Some(c0), Some(c1), Some(c2)) => Some([c0, c1, c2]),
            _ => None,
        }
    }

    /// Componentwise exact operation; `None` exactly when a component's
    /// exact value does not fit.
    pub fn vec3_mul(a: [Rational; 3], b: [Rational; 3]) -> (r: Option<[Rational; 3]>)
        requires
            wf3(a),
            wf3(b),
        ensures
            r is Some <==> rat_fits(rat_mul(a[0].pair(), b[0].pair())) && rat_fits(rat_mul(a[1].pair(), b[1].pair())) && rat_fits(rat_mul(a[2].pair(), b[2].pair())),
            r matches Some(v) ==> wf3(v) && v[0].pair() == rat_mul(a[0].pair(), b[0].pair()) && v[1].pair() == rat_mul(a[1].pair(), b[1].pair()) && v[2].pair() == rat_mul(a[2].pair(), b[2].pair()),
    {
        match (a[0].mul(b[0]), a[1].mul(b[1]), a[2].mul(b[2])) {
            (Some(c0), Some(c1), Some(c2)) => Some([c0, c1, c2]),
            _ => None,
        }
    }

    /// Componentwise exact division; `None` exactly when a divisor
    /// component is zero or a quotient does not fit.
    pub fn vec3_div(a: [Rational; 3], b: [Rational; 3]) -> (r: Option<[Rational; 3]>)
        requires
            wf3(a),
            wf3(b),
        ensures
            r is Some <==> (b[0].spec_num() != 0 && b[1].spec_num() != 0 && b[2].spec_num() != 0) && (rat_fits(rat_div(a[0].pair(), b[0].pair())) && rat_fits(rat_div(a[1].pair(), b[1].pair())) && rat_fits(rat_div(a[2].pair(), b[2].pair()))),
            r matches Some(v) ==> wf3(v) && v[0].pair() == rat_div(a[0].pair(), b[0].pair()) && v[1].pair() == rat_div(a[1].pair(), b[1].pair()) && v[2].pair() == rat_div(a[2].pair(), b[2].pair()),
    {
        match (a[0].div(b[0]), a[1].div(b[1]), a[2].div(b[2])) {
            (Some(c0), Some(c1), Some(c2)) => Some([c0, c1, c2]),
            _ => None,
        }
    }

    /// Componentwise exact multiplication by a scalar; `None` exactly when a product does not fit.
    pub fn vec3_mul_f32(a: [Rational; 3], s: Rational) -> (r: Option<[Rational; 3]>)
        requires
            wf3(a),
            s.wf(),
        ensures
            r is Some <==> (rat_fits(rat_mul(a[0].pair(), s.pair())) && rat_fits(rat_mul(a[1].pair(), s.pair())) && rat_fits(rat_mul(a[2].pair(), s.pair()))),
            r matches Some(v) ==> wf3(v) && v[0].pair() == rat_mul(a[0].pair(), s.pair()) && v[1].pair() == rat_mul(a[1].pair(), s.pair()) && v[2].pair() == rat_mul(a[2].pair(), s.pair()),
    {
        match (a[0].mul(s), a[1].mul(s), a[2].mul(s)) {
            (Some(c0), Some(c1), Some(c2)) => Some([c0, c1, c2]),
            _ => None,
        }
    }

    /// Componentwise exact division by a scalar; `None` exactly when the scalar is zero or a quotient does not fit.
    pub fn vec3_div_f32(a: [Rational; 3], s: Rational) -> (r: Option<[Rational; 3]>)
        requires
            wf3(a),
            s.wf(),
        ensures
            r is Some <==> s.spec_num() != 0 && (rat_fits(rat_div(a[0].pair(), s.pair())) && rat_fits(rat_div(a[1].pair(), s.pair())) && rat_fits(rat_div(a[2].pair(), s.pair()))),
            r matches Some(v) ==> wf3(v) && v[0].pair() == rat_div(a[0].pair(), s.pair()) && v[1].pair() == rat_div(a[1].pair(), s.pair()) && v[2].pair() == rat_div(a[2].pair(), s.pair()),
    {
        match (a[0].div(s), a[1].div(s), a[2].div(s)) {
            (Some(c0), Some(c1), Some(c2)) => Some([c0, c1, c2]),
            _ => None,
        }
    }

    /// Whether the vectors denote the same rationals, componentwise.
    pub fn vec3_equals(a: [Rational; 3], b: [Rational; 3]) -> (r: bool)
        requires
            wf3(a),
            wf3(b),
        ensures
            r == (rat_eq(a[0].pair(), b[0].pair()) && rat_eq(a[1].pair(), b[1].pair()) && rat_eq(a[2].pair(), b[2].pair())),
    {
        a[0].equals(b[0]) && a[1].equals(b[1]) && a[2].equals(b[2])
    }

    /// Componentwise exact operation; `None` exactly when a component's
    /// exact value does not fit.
    pub fn vec4_minus(a: [Rational; 4], b: [Rational; 4]) -> (r: Option<[Rational; 4]>)
        requires
            wf4(a),
            wf4(b),
        ensures
            r is Some <==> rat_fits(rat_sub(a[0].pair(), b[0].pair())) && rat_fits(rat_sub(a[1].pair(), b[1].pair())) && rat_fits(rat_sub(a[2].pair(), b[2].pair())) && rat_fits(rat_sub(a[3].pair(), b[3].pair())),
            r matches Some(v) ==> wf4(v) && v[0].pair() == rat_sub(a[0].pair(), b[0].pair()) && v[1].pair() == rat_sub(a[1].pair(), b[1].pair()) && v[2].pair() == rat_sub(a[2].pair(), b[2].pair()) && v[3].pair() == rat_sub(a[3].pair(), b[3].pair()),
    {
        match (a[0].sub(b[0]), a[1].sub(b[1]), a[2].sub(b[2]), a[3].sub(b[3])) {
            (Some(c0), Some(c1), Some(c2), Some(c3)) => Some([c0, c1, c2, c3]),
            _ => None,
        }
    }

    /// Componentwise exact operation; `None` exactly when a component's
    /// exact value does not fit.
    pub fn vec4_mul(a: [Rational; 4], b: [Rational; 4]) -> (r: Option<[Rational; 4]>)
        requires
            wf4(a),
            wf4(b),
        ensures
            r is Some <==> rat_fits(rat_mul(a[0].pair(), b[0].pair())) && rat_fits(rat_mul(a[1].pair(), b[1].pair())) && rat_fits(rat_mul(a[2].pair(), b[2].pair())) && rat_fits(rat_mul(a[3].pair(), b[3].pair())),
            r matches Some(v) ==> wf4(v) && v[0].pair() == rat_mul(a[0].pair(), b[0].pair()) && v[1].pair() == rat_mul(a[1].pair(), b[1].pair()) && v[2].pair() == rat_mul(a[2].pair(), b[2].pair()) && v[3].pair() == rat_mul(a[3].pair(), b[3].pair()),
    {
        match (a[0].mul(b[0]), a[1].mul(b[1]), a[2].mul(b[2]), a[3].mul(b[3])) {
            (Some(c0), Some(c1), Some(c2), Some(c3)) => Some([c0, c1, c2, c3]),
            _ => None,
        }
    }

    /// Componentwise exact division; `None` exactly when a divisor
    /// component is zero or a quotient does not fit.
    pub fn vec4_div(a: [Rational; 4], b: [Rational; 4]) -> (r: Option<[Rational; 4]>)
        requires
            wf4(a),
            wf4(b),
        ensures
            r is Some <==> (b[0].spec_num() != 0 && b[1].spec_num() != 0 && b[2].spec_num() != 0 && b[3].spec_num() != 0) && (rat_fits(rat_div(a[0].pair(), b[0].pair())) && rat_fits(rat_div(a[1].pair(), b[1].pair())) && rat_fits(rat_div(a[2].pair(), b[2].pair())) && rat_fits(rat_div(a[3].pair(), b[3].pair()))),
            r matches Some(v) ==> wf4(v) && v[0].pair() == rat_div(a[0].pair(), b[0].pair()) && v[1].pair() == rat_div(a[1].pair(), b[1].pair()) && v[2].pair() == rat_div(a[2].pair(), b[2].pair()) && v[3].pair() == rat_div(a[3].pair(), b[3].pair()),
    {
        match (a[0].div(b[0]), a[1].div(b[1]), a[2].div(b[2]), a[3].div(b[3])) {
            (Some(c0), Some(c1), Some(c2), Some(c3)) => Some([c0, c1, c2, c3]),
            _ => None,
        }
    }

    /// Componentwise exact multiplication by a scalar; `None` exactly when a product does not fit.
    pub fn vec4_mul_f32(a: [Rational; 4], s: Rational) -> (r: Option<[Rational; 4]>)
        requires
            wf4(a),
            s.wf(),
        ensures
            r is Some <==> (rat_fits(rat_mul(a[0].pair(), s.pair())) && rat_fits(rat_mul(a[1].pair(), s.pair())) && rat_fits(rat_mul(a[2].pair(), s.pair())) && rat_fits(rat_mul(a[3].pair(), s.pair()))),
            r matches Some(v) ==> wf4(v) && v[0].pair() == rat_mul(a[0].pair(), s.pair()) && v[1].pair() == rat_mul(a[1].pair(), s.pair()) && v[2].pair() == rat_mul(a[2].pair(), s.pair()) && v[3].pair() == rat_mul(a[3].pair(), s.pair()),
    {
        match (a[0].mul(s), a[1].mul(s), a[2].mul(s), a[3].mul(s)) {
            (Some(c0), Some(c1), Some(c2), Some(c3)) => Some([c0, c1, c2, c3]),
            _ => None,
        }
    }

    /// Componentwise exact division by a scalar; `None` exactly when the scalar is zero or a quotient does not fit.
    pub fn vec4_div_f32(a: [Rational; 4], s: Rational) -> (r: Option<[Rational; 4]>)
        requires
            wf4(a),
            s.wf(),
        ensures
            r is Some <==> s.spec_num() != 0 && (rat_fits(rat_div(a[0].pair(), s.pair())) && rat_fits(rat_div(a[1].pair(), s.pair())) && rat_fits(rat_div(a[2].pair(), s.pair())) && rat_fits(rat_div(a[3].pair(), s.pair()))),
            r matches Some(v) ==> wf4(v) && v[0].pair() == rat_div(a[0].pair(), s.pair()) && v[1].pair() == rat_div(a[1].pair(), s.pair()) && v[2].pair() == rat_div(a[2].pair(), s.pair()) && v[3].pair() == rat_div(a[3].pair(), s.pair()),
    {
        match (a[0].div(s), a[1].div(s), a[2].div(s), a[3].div(s)) {
            (Some(c0), Some(c1), Some(c2), Some(c3)) => Some([c0, c1, c2, c3]),
            _ => None,
        }
    }

    /// Whether the vectors denote the same rationals, componentwise.
    pub fn vec4_equals(a: [Rational; 4], b: [Rational; 4]) -> (r: bool)
        requires
            wf4(a),
            wf4(b),
        ensures
            r == (rat_eq(a[0].pair(), b[0].pair()) && rat_eq(a[1].pair(), b[1].pair()) && rat_eq(a[2].pair(), b[2].pair()) && rat_eq(a[3].pair(), b[3].pair())),
    {
        a[0].equals(b[0]) && a[1].equals(b[1]) && a[2].equals(b[2]) && a[3].equals(b[3])
    }

    /// Componentwise exact operation; `None` exactly when a component's
    /// exact value does not fit.
    pub fn vec4_add(a: [Rational; 4], b: [Rational; 4]) -> (r: Option<[Rational; 4]>)
        requires
            wf4(a),
            wf4(b),
        ensures
            r is Some <==> rat_fits(rat_add(a[0].pair(), b[0].pair())) && rat_fits(rat_add(a[1].pair(), b[1].pair())) && rat_fits(rat_add(a[2].pair(), b[2].pair())) && rat_fits(rat_add(a[3].pair(), b[3].pair())),
            r matches Some(v) ==> wf4(v) && v[0].pair() == rat_add(a[0].pair(), b[0].pair()) && v[1].pair() == rat_add(a[1].pair(), b[1].pair()) && v[2].pair() == rat_add(a[2].pair(), b[2].pair()) && v[3].pair() == rat_add(a[3].pair(), b[3].pair()),
    {
        match (a[0].add(b[0]), a[1].add(b[1]), a[2].add(b[2]), a[3].add(b[3])) {
            (Some(c0), Some(c1), Some(c2), Some(c3)) => Some([c0, c1, c2, c3]),
            _ => None,
        }
    }

    /// The exact dot product; `None` exactly when an intermediate exact
    /// value does not fit.
    pub fn vec3_dot(a: [Rational; 3], b: [Rational; 3]) -> (r: Option<Rational>)
        requires
            wf3(a),
            wf3(b),
        ensures
            r is Some <==> rat_fits(rat_mul(a[0].pair(), b[0].pair())) && rat_fits(rat_mul(a[1].pair(), b[1].pair())) && rat_fits(rat_mul(a[2].pair(), b[2].pair())) && rat_fits(rat_add(rat_mul(a[0].pair(), b[0].pair()), rat_mul(a[1].pair(), b[1].pair()))) && rat_fits(rat_add(rat_add(rat_mul(a[0].pair(), b[0].pair()), rat_mul(a[1].pair(), b[1].pair())), rat_mul(a[2].pair(), b[2].pair()))),
            r matches Some(v) ==> v.wf() && v.pair() == rat_add(rat_add(rat_mul(a[0].pair(), b[0].pair()), rat_mul(a[1].pair(), b[1].pair())), rat_mul(a[2].pair(), b[2].pair())),
    {
        let m0 = match a[0].mul(b[0]) {
            Some(v) => v,
            None => {
                return None;
            },
        };
        let m1 = match a[1].mul(b[1]) {
            Some(v) => v,
            None => {
                return None;
            },
        };
        let m2 = match a[2].mul(b[2]) {
            Some(v) => v,
            None => {
                return None;
            },
        };
        let s1 = match m0.add(m1) {
            Some(v) => v,
            None => {
                return None;
            },
        };
        let s2 = match s1.add(m2) {
            Some(v) => v,
            None => {
                return None;
            },
        };
        Some(s2)
    }

    /// The exact dot product; `None` exactly when an intermediate exact
    /// value does not fit.
    pub fn vec4_dot(a: [Rational; 4], b: [Rational; 4]) -> (r: Option<Rational>)
        requires
            wf4(a),
            wf4(b),
        ensures
            r is Some <==> rat_fits(rat_mul(a[0].pair(), b[0].pair())) && rat_fits(rat_mul(a[1].pair(), b[1].pair())) && rat_fits(rat_mul(a[2].pair(), b[2].pair())) && rat_fits(rat_mul(a[3].pair(), b[3].pair())) && rat_fits(rat_add(rat_mul(a[0].pair(), b[0].pair()), rat_mul(a[1].pair(), b[1].pair()))) && rat_fits(rat_add(rat_add(rat_mul(a[0].pair(), b[0].pair()), rat_mul(a[1].pair(), b[1].pair())), rat_mul(a[2].pair(), b[2].pair()))) && rat_fits(rat_add(rat_add(rat_add(rat_mul(a[0].pair(), b[0].pair()), rat_mul(a[1].pair(), b[1].pair())), rat_mul(a[2].pair(), b[2].pair())), rat_mul(a[3].pair(), b[3].pair()))),
            r matches Some(v) ==> v.wf() && v.pair() == rat_add(rat_add(rat_add(rat_mul(a[0].pair(), b[0].pair()), rat_mul(a[1].pair(), b[1].pair())), rat_mul(a[2].pair(), b[2].pair())), rat_mul(a[3].pair(), b[3].pair())),
    {
        let m0 = match a[0].mul(b[0]) {
            Some(v) => v,
            None => {
                return None;
            },
        };
        let m1 = match a[1].mul(b[1]) {
            Some(v) => v,
            None => {
                return None;
            },
        };
        let m2 = match a[2].mul(b[2]) {
            Some(v) => v,
            None => {
                return None;
            },
        };
        let m3 = match a[3].mul(b[3]) {
            Some(v) => v,
            None => {
                return None;
            },
        };
        let s1 = match m0.add(m1) {
            Some(v) => v,
            None => {
                return None;
            },
        };
        let s2 = match s1.add(m2) {
            Some(v) => v,
            None => {
                return None;
            },
        };
        let s3 = match s2.add(m3) {
            Some(v) => v,
            None => {
                return None;
            },
        };
        Some(s3)
    }

    /// The exact cross product; `None` exactly when an intermediate exact
    /// value does not fit.
    pub fn vec3_cross(a: [Rational; 3], b: [Rational; 3]) -> (r: Option<[Rational; 3]>)
        requires
            wf3(a),
            wf3(b),
        ensures
            r is Some <==> rat_fits(rat_mul(a[1].pair(), b[2].pair())) && rat_fits(rat_mul(a[2].pair(), b[1].pair())) && rat_fits(rat_sub(rat_mul(a[1].pair(), b[2].pair()), rat_mul(a[2].pair(), b[1].pair()))) && rat_fits(rat_mul(a[2].pair(), b[0].pair())) && rat_fits(rat_mul(a[0].pair(), b[2].pair())) && rat_fits(rat_sub(rat_mul(a[2].pair(), b[0].pair()), rat_mul(a[0].pair(), b[2].pair()))) && rat_fits(rat_mul(a[0].pair(), b[1].pair())) && rat_fits(rat_mul(a[1].pair(), b[0].pair())) && rat_fits(rat_sub(rat_mul(a[0].pair(), b[1].pair()), rat_mul(a[1].pair(), b[0].pair()))),
            r matches Some(v) ==> wf3(v) && v[0].pair() == rat_sub(rat_mul(a[1].pair(), b[2].pair()), rat_mul(a[2].pair(), b[1].pair())) && v[1].pair() == rat_sub(rat_mul(a[2].pair(), b[0].pair()), rat_mul(a[0].pair(), b[2].pair())) && v[2].pair() == rat_sub(rat_mul(a[0].pair(), b[1].pair()), rat_mul(a[1].pair(), b[0].pair())),
    {
        let u0 = match a[1].mul(b[2]) {
            Some(v) => v,
            None => {
                return None;
            },
        };
        let w0 = match a[2].mul(b[1]) {
            Some(v) => v,
            None => {
                return None;
            },
        };
        let c0 = match u0.sub(w0) {
            Some(v) => v,
            None => {
                return None;
            },
        };
        let u1 = match a[2].mul(b[0]) {
            Some(v) => v,
            None => {
                return None;
            },
        };
        let w1 = match a[0].mul(b[2]) {
            Some(v) => v,
            None => {
                return None;
            },
        };
        let c1 = match u1.sub(w1) {
            Some(v) => v,
            None => {
                return None;
            },
        };
        let u2 = match a[0].mul(b[1]) {
            Some(v) => v,
            None => {
                return None;
            },
        };
        let w2 = match a[1].mul(b[0]) {
            Some(v) => v,
            None => {
                return None;
            },
        };
        let c2 = match u2.sub(w2) {
            Some(v) => v,
            None => {
                return None;
            },
        };
        Some([c0, c1, c2])
    }

    /// The exact magnitude, when the squared magnitude has an exact
    /// rational square root that fits; `None` otherwise.
    pub fn vec3_mag(v: [Rational; 3]) -> (r: Option<Rational>)
        requires
            wf3(v),
        ensures
            r matches Some(m) ==> m.wf() && m.spec_num() >= 0 && m.spec_den() == rat_dot3(v[0].pair(), v[1].pair(), v[2].pair(), v[0].pair(), v[1].pair(), v[2].pair()).1
                && m.spec_num() * m.spec_num() == rat_dot3(v[0].pair(), v[1].pair(), v[2].pair(), v[0].pair(), v[1].pair(), v[2].pair()).0 * rat_dot3(v[0].pair(), v[1].pair(), v[2].pair(), v[0].pair(), v[1].pair(), v[2].pair()).1,
            r is None ==> !(exists|t: int|
                0 <= t && #[trigger] (t * t) == rat_dot3(v[0].pair(), v[1].pair(), v[2].pair(), v[0].pair(), v[1].pair(), v[2].pair()).0 * rat_dot3(v[0].pair(), v[1].pair(), v[2].pair(), v[0].pair(), v[1].pair(), v[2].pair()).1 && rat_fits((t, rat_dot3(v[0].pair(), v[1].pair(), v[2].pair(), v[0].pair(), v[1].pair(), v[2].pair()).1)))
                || !dot3_fits(v[0].pair(), v[1].pair(), v[2].pair(), v[0].pair(), v[1].pair(), v[2].pair()),
    {
        let dot = match Math::vec3_dot(v, v) {
            Some(d) => d,
            None => {
                return None;
            },
        };
        let ghost dn = dot.spec_num();
        let ghost dd = dot.spec_den();
        if dot.num() < 0 {
            proof {
                assert(dn * dd < 0) by (nonlinear_arith)
                    requires
                        dn < 0,
                        dd > 0,
                ;
                assert forall|t: int| 0 <= t implies #[trigger] (t * t) != rat_dot3(v[0].pair(), v[1].pair(), v[2].pair(), v[0].pair(), v[1].pair(), v[2].pair()).0 * rat_dot3(v[0].pair(), v[1].pair(), v[2].pair(), v[0].pair(), v[1].pair(), v[2].pair()).1 by {
                    assert(t * t >= 0) by (nonlinear_arith);
                }
            }
            return None;
        }
        proof {
            lemma_prod_bound(dot.spec_num(), dot.spec_den());
            assert(dn * dd >= 0) by (nonlinear_arith)
                requires
                    dn >= 0,
                    dd > 0,
            ;
        }
        let x: u128 = (dot.num() as i128 * dot.den() as i128) as u128;
        proof {
            assert(x as int == dn * dd);
        }
        let s = isqrt_u128(x);
        if s * s != x {
            proof {
                assert forall|t: int|
                    0 <= t && #[trigger] (t * t) == rat_dot3(v[0].pair(), v[1].pair(), v[2].pair(), v[0].pair(), v[1].pair(), v[2].pair()).0 * rat_dot3(v[0].pair(), v[1].pair(), v[2].pair(), v[0].pair(), v[1].pair(), v[2].pair()).1 implies false by {
                    lemma_exact_sqrt_unique(x as int, s as int, t);
                }
            }
            return None;
        }
        if s > 0x7fff_ffff_ffff_ffffu128 {
            proof {
                assert forall|t: int|
                    0 <= t && #[trigger] (t * t) == rat_dot3(v[0].pair(), v[1].pair(), v[2].pair(), v[0].pair(), v[1].pair(), v[2].pair()).0 * rat_dot3(v[0].pair(), v[1].pair(), v[2].pair(), v[0].pair(), v[1].pair(), v[2].pair()).1 && rat_fits((t, rat_dot3(v[0].pair(), v[1].pair(), v[2].pair(), v[0].pair(), v[1].pair(), v[2].pair()).1)) implies false by {
                    lemma_exact_sqrt_unique(x as int, s as int, t);
                }
            }
            return None;
        }
        Some(Rational { num: s as i64, den: dot.den() })
    }

    /// Normalised to unit length, exactly, when the magnitude is exact and
    /// representable; `None` otherwise (including the zero vector).
    pub fn vec3_normalise(v: [Rational; 3]) -> (r: Option<[Rational; 3]>)
        requires
            wf3(v),
        ensures
            r matches Some(u) ==> wf3(u) && (exists|m: (int, int)|
                {
                    &&& m.1 == rat_dot3(v[0].pair(), v[1].pair(), v[2].pair(), v[0].pair(), v[1].pair(), v[2].pair()).1
                    &&& m.0 > 0
                    &&& m.0 * m.0 == rat_dot3(v[0].pair(), v[1].pair(), v[2].pair(), v[0].pair(), v[1].pair(), v[2].pair()).0 * rat_dot3(v[0].pair(), v[1].pair(), v[2].pair(), v[0].pair(), v[1].pair(), v[2].pair()).1
                    &&& u[0].pair() == rat_div(v[0].pair(), m) && u[1].pair() == rat_div(v[1].pair(), m) && u[2].pair() == rat_div(v[2].pair(), m)
                }),
    {
        let mag = match Math::vec3_mag(v) {
            Some(m) => m,
            None => {
                return None;
            },
        };
        if mag.is_zero() {
            return None;
        }
        let ghost mpair = mag.pair();
        let c0 = match v[0].div(mag) {
            Some(x) => x,
            None => {
                return None;
            },
        };
        let c1 = match v[1].div(mag) {
            Some(x) => x,
            None => {
                return None;
            },
        };
        let c2 = match v[2].div(mag) {
            Some(x) => x,
            None => {
                return None;
            },
        };
        proof {
            assert(mpair.1 == rat_dot3(v[0].pair(), v[1].pair(), v[2].pair(), v[0].pair(), v[1].pair(), v[2].pair()).1 && mpair.0 > 0 && mpair.0 * mpair.0 == rat_dot3(v[0].pair(), v[1].pair(), v[2].pair(), v[0].pair(), v[1].pair(), v[2].pair()).0 * rat_dot3(v[0].pair(), v[1].pair(), v[2].pair(), v[0].pair(), v[1].pair(), v[2].pair()).1
                && c0.pair() == rat_div(v[0].pair(), mpair) && c1.pair() == rat_div(v[1].pair(), mpair) && c2.pair() == rat_div(v[2].pair(), mpair));
        }
        Some([c0, c1, c2])
    }

    /// The exact magnitude, when the squared magnitude has an exact
    /// rational square root that fits; `None` otherwise.
    pub fn vec4_mag(v: [Rational; 4]) -> (r: Option<Rational>)
        requires
            wf4(v),
        ensures
            r matches Some(m) ==> m.wf() && m.spec_num() >= 0 && m.spec_den() == rat_dot4(v[0].pair(), v[1].pair(), v[2].pair(), v[3].pair(), v[0].pair(), v[1].pair(), v[2].pair(), v[3].pair()).1
                && m.spec_num() * m.spec_num() == rat_dot4(v[0].pair(), v[1].pair(), v[2].pair(), v[3].pair(), v[0].pair(), v[1].pair(), v[2].pair(), v[3].pair()).0 * rat_dot4(v[0].pair(), v[1].pair(), v[2].pair(), v[3].pair(), v[0].pair(), v[1].pair(), v[2].pair(), v[3].pair()).1,
            r is None ==> !(exists|t: int|
                0 <= t && #[trigger] (t * t) == rat_dot4(v[0].pair(), v[1].pair(), v[2].pair(), v[3].pair(), v[0].pair(), v[1].pair(), v[2].pair(), v[3].pair()).0 * rat_dot4(v[0].pair(), v[1].pair(), v[2].pair(), v[3].pair(), v[0].pair(), v[1].pair(), v[2].pair(), v[3].pair()).1 && rat_fits((t, rat_dot4(v[0].pair(), v[1].pair(), v[2].pair(), v[3].pair(), v[0].pair(), v[1].pair(), v[2].pair(), v[3].pair()).1)))
                || !dot4_fits(v[0].pair(), v[1].pair(), v[2].pair(), v[3].pair(), v[0].pair(), v[1].pair(), v[2].pair(), v[3].pair()),
    {
        let dot = match Math::vec4_dot(v, v) {
            Some(d) => d,
            None => {
                return None;
            },
        };
        let ghost dn = dot.spec_num();
        let ghost dd = dot.spec_den();
        if dot.num() < 0 {
            proof {
                assert(dn * dd < 0) by (nonlinear_arith)
                    requires
                        dn < 0,
                        dd > 0,
                ;
                assert forall|t: int| 0 <= t implies #[trigger] (t * t) != rat_dot4(v[0].pair(), v[1].pair(), v[2].pair(), v[3].pair(), v[0].pair(), v[1].pair(), v[2].pair(), v[3].pair()).0 * rat_dot4(v[0].pair(), v[1].pair(), v[2].pair(), v[3].pair(), v[0].pair(), v[1].pair(), v[2].pair(), v[3].pair()).1 by {
                    assert(t * t >= 0) by (nonlinear_arith);
                }
            }
            return None;
        }
        proof {
            lemma_prod_bound(dot.spec_num(), dot.spec_den());
            assert(dn * dd >= 0) by (nonlinear_arith)
                requires
                    dn >= 0,
                    dd > 0,
            ;
        }
        let x: u128 = (dot.num() as i128 * dot.den() as i128) as u128;
        proof {
            assert(x as int == dn * dd);
        }
        let s = isqrt_u128(x);
        if s * s != x {
            proof {
                assert forall|t: int|
                    0 <= t && #[trigger] (t * t) == rat_dot4(v[0].pair(), v[1].pair(), v[2].pair(), v[3].pair(), v[0].pair(), v[1].pair(), v[2].pair(), v[3].pair()).0 * rat_dot4(v[0].pair(), v[1].pair(), v[2].pair(), v[3].pair(), v[0].pair(), v[1].pair(), v[2].pair(), v[3].pair()).1 implies false by {
                    lemma_exact_sqrt_unique(x as int, s as int, t);
                }
            }
            return None;
        }
        if s > 0x7fff_ffff_ffff_ffffu128 {
            proof {
                assert forall|t: int|
                    0 <= t && #[trigger] (t * t) == rat_dot4(v[0].pair(), v[1].pair(), v[2].pair(), v[3].pair(), v[0].pair(), v[1].pair(), v[2].pair(), v[3].pair()).0 * rat_dot4(v[0].pair(), v[1].pair(), v[2].pair(), v[3].pair(), v[0].pair(), v[1].pair(), v[2].pair(), v[3].pair()).1 && rat_fits((t, rat_dot4(v[0].pair(), v[1].pair(), v[2].pair(), v[3].pair(), v[0].pair(), v[1].pair(), v[2].pair(), v[3].pair()).1)) implies false by {
                    lemma_exact_sqrt_unique(x as int, s as int, t);
                }
            }
            return None;
        }
        Some(Rational { num: s as i64, den: dot.den() })
    }

    /// Normalised to unit length, exactly, when the magnitude is exact and
    /// representable; `None` otherwise (including the zero vector).
    pub fn vec4_normalise(v: [Rational; 4]) -> (r: Option<[Rational; 4]>)
        requires
            wf4(v),
        ensures
            r matches Some(u) ==> wf4(u) && (exists|m: (int, int)|
                {
                    &&& m.1 == rat_dot4(v[0].pair(), v[1].pair(), v[2].pair(), v[3].pair(), v[0].pair(), v[1].pair(), v[2].pair(), v[3].pair()).1
                    &&& m.0 > 0
                    &&& m.0 * m.0 == rat_dot4(v[0].pair(), v[1].pair(), v[2].pair(), v[3].pair(), v[0].pair(), v[1].pair(), v[2].pair(), v[3].pair()).0 * rat_dot4(v[0].pair(), v[1].pair(), v[2].pair(), v[3].pair(), v[0].pair(), v[1].pair(), v[2].pair(), v[3].pair()).1
                    &&& u[0].pair() == rat_div(v[0].pair(), m) && u[1].pair() == rat_div(v[1].pair(), m) && u[2].pair() == rat_div(v[2].pair(), m) && u[3].pair() == rat_div(v[3].pair(), m)
                }),
    {
        let mag = match Math::vec4_mag(v) {
            Some(m) => m,
            None => {
                return None;
            },
        };
        if mag.is_zero() {
            return None;
        }
        let ghost mpair = mag.pair();
        let c0 = match v[0].div(mag) {
            Some(x) => x,
            None => {
                return None;
            },
        };
        let c1 = match v[1].div(mag) {
            Some(x) => x,
            None => {
                return None;
            },
        };
        let c2 = match v[2].div(mag) {
            Some(x) => x,
            None => {
                return None;
            },
        };
        let c3 = match v[3].div(mag) {
            Some(x) => x,
            None => {
                return None;
            },
        };
        proof {
            assert(mpair.1 == rat_dot4(v[0].pair(), v[1].pair(), v[2].pair(), v[3].pair(), v[0].pair(), v[1].pair(), v[2].pair(), v[3].pair()).1 && mpair.0 > 0 && mpair.0 * mpair.0 == rat_dot4(v[0].pair(), v[1].pair(), v[2].pair(), v[3].pair(), v[0].pair(), v[1].pair(), v[2].pair(), v[3].pair()).0 * rat_dot4(v[0].pair(), v[1].pair(), v[2].pair(), v[3].pair(), v[0].pair(), v[1].pair(), v[2].pair(), v[3].pair()).1
                && c0.pair() == rat_div(v[0].pair(), mpair) && c1.pair() == rat_div(v[1].pair(), mpair) && c2.pair() == rat_div(v[2].pair(), mpair) && c3.pair() == rat_div(v[3].pair(), mpair));
        }
        Some([c0, c1, c2, c3])
    }

    /// The identity matrix.
    pub fn mat4_identity() -> (r: [Rational; 16])
        ensures
            wf16(r),
            r[0].pair() == (1int, 1int) && r[1].pair() == (0int, 1int) && r[2].pair() == (0int, 1int) && r[3].pair() == (0int, 1int) && r[4].pair() == (0int, 1int) && r[5].pair() == (1int, 1int) && r[6].pair() == (0int, 1int) && r[7].pair() == (0int, 1int) && r[8].pair() == (0int, 1int) && r[9].pair() == (0int, 1int) && r[10].pair() == (1int, 1int) && r[11].pair() == (0int, 1int) && r[12].pair() == (0int, 1int) && r[13].pair() == (0int, 1int) && r[14].pair() == (0int, 1int) && r[15].pair() == (1int, 1int),
    {
        let one = Rational::from_int(1);
        let zero = Rational::from_int(0);
        [one, zero, zero, zero, zero, one, zero, zero, zero, zero, one, zero, zero, zero, zero, one]
    }

    /// The transpose, exactly.
    pub fn mat4_transpose(m: [Rational; 16]) -> (r: [Rational; 16])
        ensures
            r[0] == m[0] && r[1] == m[4] && r[2] == m[8] && r[3] == m[12] && r[4] == m[1] && r[5] == m[5] && r[6] == m[9] && r[7] == m[13] && r[8] == m[2] && r[9] == m[6] && r[10] == m[10] && r[11] == m[14] && r[12] == m[3] && r[13] == m[7] && r[14] == m[11] && r[15] == m[15],
    {
        [m[0], m[4], m[8], m[12], m[1], m[5], m[9], m[13], m[2], m[6], m[10], m[14], m[3], m[7], m[11], m[15]]
    }

    /// The exact row-major matrix product; `None` exactly when an
    /// intermediate exact value does not fit.
    pub fn mat4_mul(a: [Rational; 16], b: [Rational; 16]) -> (r: Option<[Rational; 16]>)
        requires
            wf16(a),
            wf16(b),
        ensures
            r is Some <==> dot4_fits(a[0].pair(), a[1].pair(), a[2].pair(), a[3].pair(), b[0].pair(), b[4].pair(), b[8].pair(), b[12].pair()) && dot4_fits(a[0].pair(), a[1].pair(), a[2].pair(), a[3].pair(), b[1].pair(), b[5].pair(), b[9].pair(), b[13].pair()) && dot4_fits(a[0].pair(), a[1].pair(), a[2].pair(), a[3].pair(), b[2].pair(), b[6].pair(), b[10].pair(), b[14].pair()) && dot4_fits(a[0].pair(), a[1].pair(), a[2].pair(), a[3].pair(), b[3].pair(), b[7].pair(), b[11].pair(), b[15].pair()) && dot4_fits(a[4].pair(), a[5].pair(), a[6].pair(), a[7].pair(), b[0].pair(), b[4].pair(), b[8].pair(), b[12].pair()) && dot4_fits(a[4].pair(), a[5].pair(), a[6].pair(), a[7].pair(), b[1].pair(), b[5].pair(), b[9].pair(), b[13].pair()) && dot4_fits(a[4].pair(), a[5].pair(), a[6].pair(), a[7].pair(), b[2].pair(), b[6].pair(), b[10].pair(), b[14].pair()) && dot4_fits(a[4].pair(), a[5].pair(), a[6].pair(), a[7].pair(), b[3].pair(), b[7].pair(), b[11].pair(), b[15].pair()) && dot4_fits(a[8].pair(), a[9].pair(), a[10].pair(), a[11].pair(), b[0].pair(), b[4].pair(), b[8].pair(), b[12].pair()) && dot4_fits(a[8].pair(), a[9].pair(), a[10].pair(), a[11].pair(), b[1].pair(), b[5].pair(), b[9].pair(), b[13].pair()) && dot4_fits(a[8].pair(), a[9].pair(), a[10].pair(), a[11].pair(), b[2].pair(), b[6].pair(), b[10].pair(), b[14].pair()) && dot4_fits(a[8].pair(), a[9].pair(), a[10].pair(), a[11].pair(), b[3].pair(), b[7].pair(), b[11].pair(), b[15].pair()) && dot4_fits(a[12].pair(), a[13].pair(), a[14].pair(), a[15].pair(), b[0].pair(), b[4].pair(), b[8].pair(), b[12].pair()) && dot4_fits(a[12].pair(), a[13].pair(), a[14].pair(), a[15].pair(), b[1].pair(), b[5].pair(), b[9].pair(), b[13].pair()) && dot4_fits(a[12].pair(), a[13].pair(), a[14].pair(), a[15].pair(), b[2].pair(), b[6].pair(), b[10].pair(), b[14].pair()) && dot4_fits(a[12].pair(), a[13].pair(), a[14].pair(), a[15].pair(), b[3].pair(), b[7].pair(), b[11].pair(), b[15].pair()),
            r matches Some(v) ==> wf16(v) && v[0].pair() == rat_dot4(a[0].pair(), a[1].pair(), a[2].pair(), a[3].pair(), b[0].pair(), b[4].pair(), b[8].pair(), b[12].pair()) && v[1].pair() == rat_dot4(a[0].pair(), a[1].pair(), a[2].pair(), a[3].pair(), b[1].pair(), b[5].pair(), b[9].pair(), b[13].pair()) && v[2].pair() == rat_dot4(a[0].pair(), a[1].pair(), a[2].pair(), a[3].pair(), b[2].pair(), b[6].pair(), b[10].pair(), b[14].pair()) && v[3].pair() == rat_dot4(a[0].pair(), a[1].pair(), a[2].pair(), a[3].pair(), b[3].pair(), b[7].pair(), b[11].pair(), b[15].pair()) && v[4].pair() == rat_dot4(a[4].pair(), a[5].pair(), a[6].pair(), a[7].pair(), b[0].pair(), b[4].pair(), b[8].pair(), b[12].pair()) && v[5].pair() == rat_dot4(a[4].pair(), a[5].pair(), a[6].pair(), a[7].pair(), b[1].pair(), b[5].pair(), b[9].pair(), b[13].pair()) && v[6].pair() == rat_dot4(a[4].pair(), a[5].pair(), a[6].pair(), a[7].pair(), b[2].pair(), b[6].pair(), b[10].pair(), b[14].pair()) && v[7].pair() == rat_dot4(a[4].pair(), a[5].pair(), a[6].pair(), a[7].pair(), b[3].pair(), b[7].pair(), b[11].pair(), b[15].pair()) && v[8].pair() == rat_dot4(a[8].pair(), a[9].pair(), a[10].pair(), a[11].pair(), b[0].pair(), b[4].pair(), b[8].pair(), b[12].pair()) && v[9].pair() == rat_dot4(a[8].pair(), a[9].pair(), a[10].pair(), a[11].pair(), b[1].pair(), b[5].pair(), b[9].pair(), b[13].pair()) && v[10].pair() == rat_dot4(a[8].pair(), a[9].pair(), a[10].pair(), a[11].pair(), b[2].pair(), b[6].pair(), b[10].pair(), b[14].pair()) && v[11].pair() == rat_dot4(a[8].pair(), a[9].pair(), a[10].pair(), a[11].pair(), b[3].pair(), b[7].pair(), b[11].pair(), b[15].pair()) && v[12].pair() == rat_dot4(a[12].pair(), a[13].pair(), a[14].pair(), a[15].pair(), b[0].pair(), b[4].pair(), b[8].pair(), b[12].pair()) && v[13].pair() == rat_dot4(a[12].pair(), a[13].pair(), a[14].pair(), a[15].pair(), b[1].pair(), b[5].pair(), b[9].pair(), b[13].pair()) && v[14].pair() == rat_dot4(a[12].pair(), a[13].pair(), a[14].pair(), a[15].pair(), b[2].pair(), b[6].pair(), b[10].pair(), b[14].pair()) && v[15].pair() == rat_dot4(a[12].pair(), a[13].pair(), a[14].pair(), a[15].pair(), b[3].pair(), b[7].pair(), b[11].pair(), b[15].pair()),
    {
        let e0 = match Math::vec4_dot([a[0], a[1], a[2], a[3]], [b[0], b[4], b[8], b[12]]) {
            Some(v) => v,
            None => {
                return None;
            },
        };
        let e1 = match Math::vec4_dot([a[0], a[1], a[2], a[3]], [b[1], b[5], b[9], b[13]]) {
            Some(v) => v,
            None => {
                return None;
            },
        };
        let e2 = match Math::vec4_dot([a[0], a[1], a[2], a[3]], [b[2], b[6], b[10], b[14]]) {
            Some(v) => v,
            None => {
                return None;
            },
        };
        let e3 = match Math::vec4_dot([a[0], a[1], a[2], a[3]], [b[3], b[7], b[11], b[15]]) {
            Some(v) => v,
            None => {
                return None;
            },
        };
        let e4 = match Math::vec4_dot([a[4], a[5], a[6], a[7]], [b[0], b[4], b[8], b[12]]) {
            Some(v) => v,
            None => {
                return None;
            },
        };
        let e5 = match Math::vec4_dot([a[4], a[5], a[6], a[7]], [b[1], b[5], b[9], b[13]]) {
            Some(v) => v,
            None => {
                return None;
            },
        };
        let e6 = match Math::vec4_dot([a[4], a[5], a[6], a[7]], [b[2], b[6], b[10], b[14]]) {
            Some(v) => v,
            None => {
                return None;
            },
        };
        let e7 = match Math::vec4_dot([a[4], a[5], a[6], a[7]], [b[3], b[7], b[11], b[15]]) {
            Some(v) => v,
            None => {
                return None;
            },
        };
        let e8 = match Math::vec4_dot([a[8], a[9], a[10], a[11]], [b[0], b[4], b[8], b[12]]) {
            Some(v) => v,
            None => {
                return None;
            },
        };
        let e9 = match Math::vec4_dot([a[8], a[9], a[10], a[11]], [b[1], b[5], b[9], b[13]]) {
            Some(v) => v,
            None => {
                return None;
            },
        };
        let e10 = match Math::vec4_dot([a[8], a[9], a[10], a[11]], [b[2], b[6], b[10], b[14]]) {
            Some(v) => v,
            None => {
                return None;
            },
        };
        let e11 = match Math::vec4_dot([a[8], a[9], a[10], a[11]], [b[3], b[7], b[11], b[15]]) {
            Some(v) => v,
            None => {
                return None;
            },
        };
        let e12 = match Math::vec4_dot([a[12], a[13], a[14], a[15]], [b[0], b[4], b[8], b[12]]) {
            Some(v) => v,
            None => {
                return None;
            },
        };
        let e13 = match Math::vec4_dot([a[12], a[13], a[14], a[15]], [b[1], b[5], b[9], b[13]]) {
            Some(v) => v,
            None => {
                return None;
            },
        };
        let e14 = match Math::vec4_dot([a[12], a[13], a[14], a[15]], [b[2], b[6], b[10], b[14]]) {
            Some(v) => v,
            None => {
                return None;
            },
        };
        let e15 = match Math::vec4_dot([a[12], a[13], a[14], a[15]], [b[3], b[7], b[11], b[15]]) {
            Some(v) => v,
            None => {
                return None;
            },
        };
        Some([e0, e1, e2, e3, e4, e5, e6, e7, e8, e9, e10, e11, e12, e13, e14, e15])
    }

    /// Scale the first three columns by the vector's components, exactly;
    /// `None` exactly when a product does not fit.
    pub fn mat4_scale(m: [Rational; 16], v: [Rational; 3]) -> (r: Option<[Rational; 16]>)
        requires
            wf16(m),
            wf3(v),
        ensures
            r is Some <==> rat_fits(rat_mul(m[0].pair(), v[0].pair())) && rat_fits(rat_mul(m[1].pair(), v[1].pair())) && rat_fits(rat_mul(m[2].pair(), v[2].pair())) && rat_fits(rat_mul(m[4].pair(), v[0].pair())) && rat_fits(rat_mul(m[5].pair(), v[1].pair())) && rat_fits(rat_mul(m[6].pair(), v[2].pair())) && rat_fits(rat_mul(m[8].pair(), v[0].pair())) && rat_fits(rat_mul(m[9].pair(), v[1].pair())) && rat_fits(rat_mul(m[10].pair(), v[2].pair())) && rat_fits(rat_mul(m[12].pair(), v[0].pair())) && rat_fits(rat_mul(m[13].pair(), v[1].pair())) && rat_fits(rat_mul(m[14].pair(), v[2].pair())),
            r matches Some(u) ==> wf16(u) && u[0].pair() == rat_mul(m[0].pair(), v[0].pair()) && u[1].pair() == rat_mul(m[1].pair(), v[1].pair()) && u[2].pair() == rat_mul(m[2].pair(), v[2].pair()) && u[3] == m[3] && u[4].pair() == rat_mul(m[4].pair(), v[0].pair()) && u[5].pair() == rat_mul(m[5].pair(), v[1].pair()) && u[6].pair() == rat_mul(m[6].pair(), v[2].pair()) && u[7] == m[7] && u[8].pair() == rat_mul(m[8].pair(), v[0].pair()) && u[9].pair() == rat_mul(m[9].pair(), v[1].pair()) && u[10].pair() == rat_mul(m[10].pair(), v[2].pair()) && u[11] == m[11] && u[12].pair() == rat_mul(m[12].pair(), v[0].pair()) && u[13].pair() == rat_mul(m[13].pair(), v[1].pair()) && u[14].pair() == rat_mul(m[14].pair(), v[2].pair()) && u[15] == m[15],
    {
        let e0 = match m[0].mul(v[0]) {
            Some(x) => x,
            None => {
                return None;
            },
        };
        let e1 = match m[1].mul(v[1]) {
            Some(x) => x,
            None => {
                return None;
            },
        };
        let e2 = match m[2].mul(v[2]) {
            Some(x) => x,
            None => {
                return None;
            },
        };
        let e4 = match m[4].mul(v[0]) {
            Some(x) => x,
            None => {
                return None;
            },
        };
        let e5 = match m[5].mul(v[1]) {
            Some(x) => x,
            None => {
                return None;
            },
        };
        let e6 = match m[6].mul(v[2]) {
            Some(x) => x,
            None => {
                return None;
            },
        };
        let e8 = match m[8].mul(v[0]) {
            Some(x) => x,
            None => {
                return None;
            },
        };
        let e9 = match m[9].mul(v[1]) {
            Some(x) => x,
            None => {
                return None;
            },
        };
        let e10 = match m[10].mul(v[2]) {
            Some(x) => x,
            None => {
                return None;
            },
        };
        let e12 = match m[12].mul(v[0]) {
            Some(x) => x,
            None => {
                return None;
            },
        };
        let e13 = match m[13].mul(v[1]) {
            Some(x) => x,
            None => {
                return None;
            },
        };
        let e14 = match m[14].mul(v[2]) {
            Some(x) => x,
            None => {
                return None;
            },
        };
        Some([e0, e1, e2, m[3], e4, e5, e6, m[7], e8, e9, e10, m[11], e12, e13, e14, m[15]])
    }


    /// The exact determinant; `None` exactly when an intermediate exact
    /// value does not fit.
    pub fn mat4_determinant(m: [Rational; 16]) -> (r: Option<Rational>)
        requires
            wf16(m),
        ensures
            r is Some <==> mat4_det_fits(m),
            r matches Some(v) ==> v.wf() && v.pair() == mat4_det_spec(m),
    {
        let t1 = match m[10].mul(m[15]) {
            Some(val) => val,
            None => {
                return None;
            },
        };
        let t2 = match m[11].mul(m[14]) {
            Some(val) => val,
            None => {
                return None;
            },
        };
        let t3 = match t1.sub(t2) {
            Some(val) => val,
            None => {
                return None;
            },
        };
        let t4 = match m[5].mul(t3) {
            Some(val) => val,
            None => {
                return None;
            },
        };
        let t5 = match m[9].mul(m[15]) {
            Some(val) => val,
            None => {
                return None;
            },
        };
        let t6 = match m[11].mul(m[13]) {
            Some(val) => val,
            None => {
                return None;
            },
        };
        let t7 = match t5.sub(t6) {
            Some(val) => val,
            None => {
                return None;
            },
        };
        let t8 = match m[6].mul(t7) {
            Some(val) => val,
            None => {
                return None;
            },
        };
        let t9 = match m[9].mul(m[14]) {
            Some(val) => val,
            None => {
                return None;
            },
        };
        let t10 = match m[10].mul(m[13]) {
            Some(val) => val,
            None => {
                return None;
            },
        };
        let t11 = match t9.sub(t10) {
            Some(val) => val,
            None => {
                return None;
            },
        };
        let t12 = match m[7].mul(t11) {
            Some(val) => val,
            None => {
                return None;
            },
        };
        let t13 = match t4.sub(t8) {
            Some(val) => val,
            None => {
                return None;
            },
        };
        let t14 = match t13.add(t12) {
            Some(val) => val,
            None => {
                return None;
            },
        };
        let t15 = match m[10].mul(m[15]) {
            Some(val) => val,
            None => {
                return None;
            },
        };
        let t16 = match m[11].mul(m[14]) {
            Some(val) => val,
            None => {
                return None;
            },
        };
        let t17 = match t15.sub(t16) {
            Some(val) => val,
            None => {
                return None;
            },
        };
        let t18 = match m[4].mul(t17) {
            Some(val) => val,
            None => {
                return None;
            },
        };
        let t19 = match m[8].mul(m[15]) {
            Some(val) => val,
            None => {
                return None;
            },
        };
        let t20 = match m[11].mul(m[12]) {
            Some(val) => val,
            None => {
                return None;
            },
        };
        let t21 = match t19.sub(t20) {
            Some(val) => val,
            None => {
                return None;
            },
        };
        let t22 = match m[6].mul(t21) {
            Some(val) => val,
            None => {
                return None;
            },
        };
        let t23 = match m[8].mul(m[14]) {
            Some(val) => val,
            None => {
                return None;
            },
        };
        let t24 = match m[10].mul(m[12]) {
            Some(val) => val,
            None => {
                return None;
            },
        };
        let t25 = match t23.sub(t24) {
            Some(val) => val,
            None => {
                return None;
            },
        };
        let t26 = match m[7].mul(t25) {
            Some(val) => val,
            None => {
                return None;
            },
        };
        let t27 = match t18.sub(t22) {
            Some(val) => val,
            None => {
                return None;
            },
        };
        let t28 = match t27.add(t26) {
            Some(val) => val,
            None => {
                return None;
            },
        };
        let t29 = match m[9].mul(m[15]) {
            Some(val) => val,
            None => {
                return None;
            },
        };
        let t30 = match m[11].mul(m[13]) {
            Some(val) => val,
            None => {
                return None;
            },
        };
        let t31 = match t29.sub(t30) {
            Some(val) => val,
            None => {
                return None;
            },
        };
        let t32 = match m[4].mul(t31) {
            Some(val) => val,
            None => {
                return None;
            },
        };
        let t33 = match m[8].mul(m[15]) {
            Some(val) => val,
            None => {
                return None;
            },
        };
        let t34 = match m[11].mul(m[12]) {
            Some(val) => val,
            None => {
                return None;
            },
        };
        let t35 = match t33.sub(t34) {
            Some(val) => val,
            None => {
                return None;
            },
        };
        let t36 = match m[5].mul(t35) {
            Some(val) => val,
            None => {
                return None;
            },
        };
        let t37 = match m[8].mul(m[13]) {
            Some(val) => val,
            None => {
                return None;
            },
        };
        let t38 = match m[9].mul(m[12]) {
            Some(val) => val,
            None => {
                return None;
            },
        };
        let t39 = match t37.sub(t38) {
            Some(val) => val,
            None => {
                return None;
            },
        };
        let t40 = match m[7].mul(t39) {
            Some(val) => val,
            None => {
                return None;
            },
        };
        let t41 = match t32.sub(t36) {
            Some(val) => val,
            None => {
                return None;
            },
        };
        let t42 = match t41.add(t40) {
            Some(val) => val,
            None => {
                return None;
            },
        };
        let t43 = match m[9].mul(m[14]) {
            Some(val) => val,
            None => {
                return None;
            },
        };
        let t44 = match m[10].mul(m[13]) {
            Some(val) => val,
            None => {
                return None;
            },
        };
        let t45 = match t43.sub(t44) {
            Some(val) => val,
            None => {
                return None;
            },
        };
        let t46 = match m[4].mul(t45) {
            Some(val) => val,
            None => {
                return None;
            },
        };
        let t47 = match m[8].mul(m[14]) {
            Some(val) => val,
            None => {
                return None;
            },
        };
        let t48 = match m[10].mul(m[12]) {
            Some(val) => val,
            None => {
                return None;
            },
        };
        let t49 = match t47.sub(t48) {
            Some(val) => val,
            None => {
                return None;
            },
        };
        let t50 = match m[5].mul(t49) {
            Some(val) => val,
            None => {
                return None;
            },
        };
        let t51 = match m[8].mul(m[13]) {
            Some(val) => val,
            None => {
                return None;
            },
        };
        let t52 = match m[9].mul(m[12]) {
            Some(val) => val,
            None => {
                return None;
            },
        };
        let t53 = match t51.sub(t52) {
            Some(val) => val,
            None => {
                return None;
            },
        };
        let t54 = match m[6].mul(t53) {
            Some(val) => val,
            None => {
                return None;
            },
        };
        let t55 = match t46.sub(t50) {
            Some(val) => val,
            None => {
                return None;
            },
        };
        let t56 = match t55.add(t54) {
            Some(val) => val,
            None => {
                return None;
            },
        };
        let t57 = match m[0].mul(t14) {
            Some(val) => val,
            None => {
                return None;
            },
        };
        let t58 = match m[1].mul(t28) {
            Some(val) => val,
            None => {
                return None;
            },
        };
        let t59 = match m[2].mul(t42) {
            Some(val) => val,
            None => {
                return None;
            },
        };
        let t60 = match m[3].mul(t56) {
            Some(val) => val,
            None => {
                return None;
            },
        };
        let t61 = match t57.sub(t58) {
            Some(val) => val,
            None => {
                return None;
            },
        };
        let t62 = match t61.add(t59) {
            Some(val) => val,
            None => {
                return None;
            },
        };
        let t63 = match t62.sub(t60) {
            Some(val) => val,
            None => {
                return None;
            },
        };
        Some(t63)
    }


    /// The exact inverse, as the adjugate over the determinant; `None`
    /// exactly when the matrix is singular or an intermediate exact value
    /// does not fit.
    #[verifier::rlimit(100)]
    pub fn mat4_inverse(m: [Rational; 16]) -> (r: Option<[Rational; 16]>)
        requires
            wf16(m),
        ensures
            r is Some <==> mat4_inverse_fits(m),
            r matches Some(u) ==> wf16(u) && u[0].pair() == rat_div(rat_add(rat_sub(rat_mul(m[5].pair(), rat_sub(rat_mul(m[10].pair(), m[15].pair()), rat_mul(m[11].pair(), m[14].pair()))), rat_mul(m[6].pair(), rat_sub(rat_mul(m[9].pair(), m[15].pair()), rat_mul(m[11].pair(), m[13].pair())))), rat_mul(m[7].pair(), rat_sub(rat_mul(m[9].pair(), m[14].pair()), rat_mul(m[10].pair(), m[13].pair())))), mat4_det_spec(m)) && u[1].pair() == rat_div(rat_mul(rat_add(rat_sub(rat_mul(m[1].pair(), rat_sub(rat_mul(m[10].pair(), m[15].pair()), rat_mul(m[11].pair(), m[14].pair()))), rat_mul(m[2].pair(), rat_sub(rat_mul(m[9].pair(), m[15].pair()), rat_mul(m[11].pair(), m[13].pair())))), rat_mul(m[3].pair(), rat_sub(rat_mul(m[9].pair(), m[14].pair()), rat_mul(m[10].pair(), m[13].pair())))), (-1int, 1int)), mat4_det_spec(m)) && u[2].pair() == rat_div(rat_add(rat_sub(rat_mul(m[1].pair(), rat_sub(rat_mul(m[6].pair(), m[15].pair()), rat_mul(m[7].pair(), m[14].pair()))), rat_mul(m[2].pair(), rat_sub(rat_mul(m[5].pair(), m[15].pair()), rat_mul(m[7].pair(), m[13].pair())))), rat_mul(m[3].pair(), rat_sub(rat_mul(m[5].pair(), m[14].pair()), rat_mul(m[6].pair(), m[13].pair())))), mat4_det_spec(m)) && u[3].pair() == rat_div(rat_mul(rat_add(rat_sub(rat_mul(m[1].pair(), rat_sub(rat_mul(m[6].pair(), m[11].pair()), rat_mul(m[7].pair(), m[10].pair()))), rat_mul(m[2].pair(), rat_sub(rat_mul(m[5].pair(), m[11].pair()), rat_mul(m[7].pair(), m[9].pair())))), rat_mul(m[3].pair(), rat_sub(rat_mul(m[5].pair(), m[10].pair()), rat_mul(m[6].pair(), m[9].pair())))), (-1int, 1int)), mat4_det_spec(m)) && u[4].pair() == rat_div(rat_mul(rat_add(rat_sub(rat_mul(m[4].pair(), rat_sub(rat_mul(m[10].pair(), m[15].pair()), rat_mul(m[11].pair(), m[14].pair()))), rat_mul(m[6].pair(), rat_sub(rat_mul(m[8].pair(), m[15].pair()), rat_mul(m[11].pair(), m[12].pair())))), rat_mul(m[7].pair(), rat_sub(rat_mul(m[8].pair(), m[14].pair()), rat_mul(m[10].pair(), m[12].pair())))), (-1int, 1int)), mat4_det_spec(m)) && u[5].pair() == rat_div(rat_add(rat_sub(rat_mul(m[0].pair(), rat_sub(rat_mul(m[10].pair(), m[15].pair()), rat_mul(m[11].pair(), m[14].pair()))), rat_mul(m[2].pair(), rat_sub(rat_mul(m[8].pair(), m[15].pair()), rat_mul(m[11].pair(), m[12].pair())))), rat_mul(m[3].pair(), rat_sub(rat_mul(m[8].pair(), m[14].pair()), rat_mul(m[10].pair(), m[12].pair())))), mat4_det_spec(m)) && u[6].pair() == rat_div(rat_mul(rat_add(rat_sub(rat_mul(m[0].pair(), rat_sub(rat_mul(m[6].pair(), m[15].pair()), rat_mul(m[7].pair(), m[14].pair()))), rat_mul(m[2].pair(), rat_sub(rat_mul(m[4].pair(), m[15].pair()), rat_mul(m[7].pair(), m[12].pair())))), rat_mul(m[3].pair(), rat_sub(rat_mul(m[4].pair(), m[14].pair()), rat_mul(m[6].pair(), m[12].pair())))), (-1int, 1int)), mat4_det_spec(m)) && u[7].pair() == rat_div(rat_add(rat_sub(rat_mul(m[0].pair(), rat_sub(rat_mul(m[6].pair(), m[11].pair()), rat_mul(m[7].pair(), m[10].pair()))), rat_mul(m[2].pair(), rat_sub(rat_mul(m[4].pair(), m[11].pair()), rat_mul(m[7].pair(), m[8].pair())))), rat_mul(m[3].pair(), rat_sub(rat_mul(m[4].pair(), m[10].pair()), rat_mul(m[6].pair(), m[8].pair())))), mat4_det_spec(m)) && u[8].pair() == rat_div(rat_add(rat_sub(rat_mul(m[4].pair(), rat_sub(rat_mul(m[9].pair(), m[15].pair()), rat_mul(m[11].pair(), m[13].pair()))), rat_mul(m[5].pair(), rat_sub(rat_mul(m[8].pair(), m[15].pair()), rat_mul(m[11].pair(), m[12].pair())))), rat_mul(m[7].pair(), rat_sub(rat_mul(m[8].pair(), m[13].pair()), rat_mul(m[9].pair(), m[12].pair())))), mat4_det_spec(m)) && u[9].pair() == rat_div(rat_mul(rat_add(rat_sub(rat_mul(m[0].pair(), rat_sub(rat_mul(m[9].pair(), m[15].pair()), rat_mul(m[11].pair(), m[13].pair()))), rat_mul(m[1].pair(), rat_sub(rat_mul(m[8].pair(), m[15].pair()), rat_mul(m[11].pair(), m[12].pair())))), rat_mul(m[3].pair(), rat_sub(rat_mul(m[8].pair(), m[13].pair()), rat_mul(m[9].pair(), m[12].pair())))), (-1int, 1int)), mat4_det_spec(m)) && u[10].pair() == rat_div(rat_add(rat_sub(rat_mul(m[0].pair(), rat_sub(rat_mul(m[5].pair(), m[15].pair()), rat_mul(m[7].pair(), m[13].pair()))), rat_mul(m[1].pair(), rat_sub(rat_mul(m[4].pair(), m[15].pair()), rat_mul(m[7].pair(), m[12].pair())))), rat_mul(m[3].pair(), rat_sub(rat_mul(m[4].pair(), m[13].pair()), rat_mul(m[5].pair(), m[12].pair())))), mat4_det_spec(m)) && u[11].pair() == rat_div(rat_mul(rat_add(rat_sub(rat_mul(m[0].pair(), rat_sub(rat_mul(m[5].pair(), m[11].pair()), rat_mul(m[7].pair(), m[9].pair()))), rat_mul(m[1].pair(), rat_sub(rat_mul(m[4].pair(), m[11].pair()), rat_mul(m[7].pair(), m[8].pair())))), rat_mul(m[3].pair(), rat_sub(rat_mul(m[4].pair(), m[9].pair()), rat_mul(m[5].pair(), m[8].pair())))), (-1int, 1int)), mat4_det_spec(m)) && u[12].pair() == rat_div(rat_mul(rat_add(rat_sub(rat_mul(m[4].pair(), rat_sub(rat_mul(m[9].pair(), m[14].pair()), rat_mul(m[10].pair(), m[13].pair()))), rat_mul(m[5].pair(), rat_sub(rat_mul(m[8].pair(), m[14].pair()), rat_mul(m[10].pair(), m[12].pair())))), rat_mul(m[6].pair(), rat_sub(rat_mul(m[8].pair(), m[13].pair()), rat_mul(m[9].pair(), m[12].pair())))), (-1int, 1int)), mat4_det_spec(m)) && u[13].pair() == rat_div(rat_add(rat_sub(rat_mul(m[0].pair(), rat_sub(rat_mul(m[9].pair(), m[14].pair()), rat_mul(m[10].pair(), m[13].pair()))), rat_mul(m[1].pair(), rat_sub(rat_mul(m[8].pair(), m[14].pair()), rat_mul(m[10].pair(), m[12].pair())))), rat_mul(m[2].pair(), rat_sub(rat_mul(m[8].pair(), m[13].pair()), rat_mul(m[9].pair(), m[12].pair())))), mat4_det_spec(m)) && u[14].pair() == rat_div(rat_mul(rat_add(rat_sub(rat_mul(m[0].pair(), rat_sub(rat_mul(m[5].pair(), m[14].pair()), rat_mul(m[6].pair(), m[13].pair()))), rat_mul(m[1].pair(), rat_sub(rat_mul(m[4].pair(), m[14].pair()), rat_mul(m[6].pair(), m[12].pair())))), rat_mul(m[2].pair(), rat_sub(rat_mul(m[4].pair(), m[13].pair()), rat_mul(m[5].pair(), m[12].pair())))), (-1int, 1int)), mat4_det_spec(m)) && u[15].pair() == rat_div(rat_add(rat_sub(rat_mul(m[0].pair(), rat_sub(rat_mul(m[5].pair(), m[10].pair()), rat_mul(m[6].pair(), m[9].pair()))), rat_mul(m[1].pair(), rat_sub(rat_mul(m[4].pair(), m[10].pair()), rat_mul(m[6].pair(), m[8].pair())))), rat_mul(m[2].pair(), rat_sub(rat_mul(m[4].pair(), m[9].pair()), rat_mul(m[5].pair(), m[8].pair())))), mat4_det_spec(m)),
    {
        let det = match Math::mat4_determinant(m) {
            Some(d) => d,
            None => {
                return None;
            },
        };
        if det.num() == 0 {
            return None;
        }
        let neg_one = Rational::from_int(-1);
        let t1 = match m[10].mul(m[15]) {
            Some(val) => val,
            None => {
                return None;
            },
        };
        let t2 = match m[11].mul(m[14]) {
            Some(val) => val,
            None => {
                return None;
            },
        };
        let t3 = match t1.sub(t2) {
            Some(val) => val,
            None => {
                return None;
            },
        };
        let t4 = match m[5].mul(t3) {
            Some(val) => val,
            None => {
                return None;
            },
        };
        let t5 = match m[9].mul(m[15]) {
            Some(val) => val,
            None => {
                return None;
            },
        };
        let t6 = match m[11].mul(m[13]) {
            Some(val) => val,
            None => {
                return None;
            },
        };
        let t7 = match t5.sub(t6) {
            Some(val) => val,
            None => {
                return None;
            },
        };
        let t8 = match m[6].mul(t7) {
            Some(val) => val,
            None => {
                return None;
            },
        };
        let t9 = match m[9].mul(m[14]) {
            Some(val) => val,
            None => {
                return None;
            },
        };
        let t10 = match m[10].mul(m[13]) {
            Some(val) => val,
            None => {
                return None;
            },
        };
        let t11 = match t9.sub(t10) {
            Some(val) => val,
            None => {
                return None;
            },
        };
        let t12 = match m[7].mul(t11) {
            Some(val) => val,
            None => {
                return None;
            },
        };
        let t13 = match t4.sub(t8) {
            Some(val) => val,
            None => {
                return None;
            },
        };
        let t14 = match t13.add(t12) {
            Some(val) => val,
            None => {
                return None;
            },
        };
        let t15 = match m[10].mul(m[15]) {
            Some(val) => val,
            None => {
                return None;
            },
        };
        let t16 = match m[11].mul(m[14]) {
            Some(val) => val,
            None => {
                return None;
            },
        };
        let t17 = match t15.sub(t16) {
            Some(val) => val,
            None => {
                return None;
            },
        };
        let t18 = match m[4].mul(t17) {
            Some(val) => val,
            None => {
                return None;
            },
        };
        let t19 = match m[8].mul(m[15]) {
            Some(val) => val,
            None => {
                return None;
            },
        };
        let t20 = match m[11].mul(m[12]) {
            Some(val) => val,
            None => {
                return None;
            },
        };
        let t21 = match t19.sub(t20) {
            Some(val) => val,
            None => {
                return None;
            },
        };
        let t22 = match m[6].mul(t21) {
            Some(val) => val,
            None => {
                return None;
            },
        };
        let t23 = match m[8].mul(m[14]) {
            Some(val) => val,
            None => {
                return None;
            },
        };
        let t24 = match m[10].mul(m[12]) {
            Some(val) => val,
            None => {
                return None;
            },
        };
        let t25 = match t23.sub(t24) {
            Some(val) => val,
            None => {
                return None;
            },
        };
        let t26 = match m[7].mul(t25) {
            Some(val) => val,
            None => {
                return None;
            },
        };
        let t27 = match t18.sub(t22) {
            Some(val) => val,
            None => {
                return None;
            },
        };
        let t28 = match t27.add(t26) {
            Some(val) => val,
            None => {
                return None;
            },
        };
        let t29 = match t28.mul(neg_one) {
            Some(val) => val,
            None => {
                return None;
            },
        };
        let t30 = match m[9].mul(m[15]) {
            Some(val) => val,
            None => {
                return None;
            },
        };
        let t31 = match m[11].mul(m[13]) {
            Some(val) => val,
            None => {
                return None;
            },
        };
        let t32 = match t30.sub(t31) {
            Some(val) => val,
            None => {
                return None;
            },
        };
        let t33 = match m[4].mul(t32) {
            Some(val) => val,
            None => {
                return None;
            },
        };
        let t34 = match m[8].mul(m[15]) {
            Some(val) => val,
            None => {
                return None;
            },
        };
        let t35 = match m[11].mul(m[12]) {
            Some(val) => val,
            None => {
                return None;
            },
        };
        let t36 = match t34.sub(t35) {
            Some(val) => val,
            None => {
                return None;
            },
        };
        let t37 = match m[5].mul(t36) {
            Some(val) => val,
            None => {
                return None;
            },
        };
        let t38 = match m[8].mul(m[13]) {
            Some(val) => val,
            None => {
                return None;
            },
        };
        let t39 = match m[9].mul(m[12]) {
            Some(val) => val,
            None => {
                return None;
            },
        };
        let t40 = match t38.sub(t39) {
            Some(val) => val,
            None => {
                return None;
            },
        };
        let t41 = match m[7].mul(t40) {
            Some(val) => val,
            None => {
                return None;
            },
        };
        let t42 = match t33.sub(t37) {
            Some(val) => val,
            None => {
                return None;
            },
        };
        let t43 = match t42.add(t41) {
            Some(val) => val,
            None => {
                return None;
            },
        };
        let t44 = match m[9].mul(m[14]) {
            Some(val) => val,
            None => {
                return None;
            },
        };
        let t45 = match m[10].mul(m[13]) {
            Some(val) => val,
            None => {
                return None;
            },
        };
        let t46 = match t44.sub(t45) {
            Some(val) => val,
            None => {
                return None;
            },
        };
        let t47 = match m[4].mul(t46) {
            Some(val) => val,
            None => {
                return None;
            },
        };
        let t48 = match m[8].mul(m[14]) {
            Some(val) => val,
            None => {
                return None;
            },
        };
        let t49 = match m[10].mul(m[12]) {
            Some(val) => val,
            None => {
                return None;
            },
        };
        let t50 = match t48.sub(t49) {
            Some(val) => val,
            None => {
                return None;
            },
        };
        let t51 = match m[5].mul(t50) {
            Some(val) => val,
            None => {
                return None;
            },
        };
        let t52 = match m[8].mul(m[13]) {
            Some(val) => val,
            None => {
                return None;
            },
        };
        let t53 = match m[9].mul(m[12]) {
            Some(val) => val,
            None => {
                return None;
            },
        };
        let t54 = match t52.sub(t53) {
            Some(val) => val,
            None => {
                return None;
            },
        };
        let t55 = match m[6].mul(t54) {
            Some(val) => val,
            None => {
                return None;
            },
        };
        let t56 = match t47.sub(t51) {
            Some(val) => val,
            None => {
                return None;
            },
        };
        let t57 = match t56.add(t55) {
            Some(val) => val,
            None => {
                return None;
            },
        };
        let t58 = match t57.mul(neg_one) {
            Some(val) => val,
            None => {
                return None;
            },
        };
        let t59 = match m[10].mul(m[15]) {
            Some(val) => val,
            None => {
                return None;
            },
        };
        let t60 = match m[11].mul(m[14]) {
            Some(val) => val,
            None => {
                return None;
            },
        };
        let t61 = match t59.sub(t60) {
            Some(val) => val,
            None => {
                return None;
            },
        };
        let t62 = match m[1].mul(t61) {
            Some(val) => val,
            None => {
                return None;
            },
        };
        let t63 = match m[9].mul(m[15]) {
            Some(val) => val,
            None => {
                return None;
            },
        };
        let t64 = match m[11].mul(m[13]) {
            Some(val) => val,
            None => {
                return None;
            },
        };
        let t65 = match t63.sub(t64) {
            Some(val) => val,
            None => {
                return None;
            },
        };
        let t66 = match m[2].mul(t65) {
            Some(val) => val,
            None => {
                return None;
            },
        };
        let t67 = match m[9].mul(m[14]) {
            Some(val) => val,
            None => {
                return None;
            },
        };
        let t68 = match m[10].mul(m[13]) {
            Some(val) => val,
            None => {
                return None;
            },
        };
        let t69 = match t67.sub(t68) {
            Some(val) => val,
            None => {
                return None;
            },
        };
        let t70 = match m[3].mul(t69) {
            Some(val) => val,
            None => {
                return None;
            },
        };
        let t71 = match t62.sub(t66) {
            Some(val) => val,
            None => {
                return None;
            },
        };
        let t72 = match t71.add(t70) {
            Some(val) => val,
            None => {
                return None;
            },
        };
        let t73 = match t72.mul(neg_one) {
            Some(val) => val,
            None => {
                return None;
            },
        };
        let t74 = match m[10].mul(m[15]) {
            Some(val) => val,
            None => {
                return None;
            },
        };
        let t75 = match m[11].mul(m[14]) {
            Some(val) => val,
            None => {
                return None;
            },
        };
        let t76 = match t74.sub(t75) {
            Some(val) => val,
            None => {
                return None;
            },
        };
        let t77 = match m[0].mul(t76) {
            Some(val) => val,
            None => {
                return None;
            },
        };
        let t78 = match m[8].mul(m[15]) {
            Some(val) => val,
            None => {
                return None;
            },
        };
        let t79 = match m[11].mul(m[12]) {
            Some(val) => val,
            None => {
                return None;
            },
        };
        let t80 = match t78.sub(t79) {
            Some(val) => val,
            None => {
                return None;
            },
        };
        let t81 = match m[2].mul(t80) {
            Some(val) => val,
            None => {
                return None;
            },
        };
        let t82 = match m[8].mul(m[14]) {
            Some(val) => val,
            None => {
                return None;
            },
        };
        let t83 = match m[10].mul(m[12]) {
            Some(val) => val,
            None => {
                return None;
            },
        };
        let t84 = match t82.sub(t83) {
            Some(val) => val,
            None => {
                return None;
            },
        };
        let t85 = match m[3].mul(t84) {
            Some(val) => val,
            None => {
                return None;
            },
        };
        let t86 = match t77.sub(t81) {
            Some(val) => val,
            None => {
                return None;
            },
        };
        let t87 = match t86.add(t85) {
            Some(val) => val,
            None => {
                return None;
            },
        };
        let t88 = match m[9].mul(m[15]) {
            Some(val) => val,
            None => {
                return None;
            },
        };
        let t89 = match m[11].mul(m[13]) {
            Some(val) => val,
            None => {
                return None;
            },
        };
        let t90 = match t88.sub(t89) {
            Some(val) => val,
            None => {
                return None;
            },
        };
        let t91 = match m[0].mul(t90) {
            Some(val) => val,
            None => {
                return None;
            },
        };
        let t92 = match m[8].mul(m[15]) {
            Some(val) => val,
            None => {
                return None;
            },
        };
        let t93 = match m[11].mul(m[12]) {
            Some(val) => val,
            None => {
                return None;
            },
        };
        let t94 = match t92.sub(t93) {
            Some(val) => val,
            None => {
                return None;
            },
        };
        let t95 = match m[1].mul(t94) {
            Some(val) => val,
            None => {
                return None;
            },
        };
        let t96 = match m[8].mul(m[13]) {
            Some(val) => val,
            None => {
                return None;
            },
        };
        let t97 = match m[9].mul(m[12]) {
            Some(val) => val,
            None => {
                return None;
            },
        };
        let t98 = match t96.sub(t97) {
            Some(val) => val,
            None => {
                return None;
            },
        };
        let t99 = match m[3].mul(t98) {
            Some(val) => val,
            None => {
                return None;
            },
        };
        let t100 = match t91.sub(t95) {
            Some(val) => val,
            None => {
                return None;
            },
        };
        let t101 = match t100.add(t99) {
            Some(val) => val,
            None => {
                return None;
            },
        };
        let t102 = match t101.mul(neg_one) {
            Some(val) => val,
            None => {
                return None;
            },
        };
        let t103 = match m[9].mul(m[14]) {
            Some(val) => val,
            None => {
                return None;
            },
        };
        let t104 = match m[10].mul(m[13]) {
            Some(val) => val,
            None => {
                return None;
            },
        };
        let t105 = match t103.sub(t104) {
            Some(val) => val,
            None => {
                return None;
            },
        };
        let t106 = match m[0].mul(t105) {
            Some(val) => val,
            None => {
                return None;
            },
        };
        let t107 = match m[8].mul(m[14]) {
            Some(val) => val,
            None => {
                return None;
            },
        };
        let t108 = match m[10].mul(m[12]) {
            Some(val) => val,
            None => {
                return None;
            },
        };
        let t109 = match t107.sub(t108) {
            Some(val) => val,
            None => {
                return None;
            },
        };
        let t110 = match m[1].mul(t109) {
            Some(val) => val,
            None => {
                return None;
            },
        };
        let t111 = match m[8].mul(m[13]) {
            Some(val) => val,
            None => {
                return None;
            },
        };
        let t112 = match m[9].mul(m[12]) {
            Some(val) => val,
            None => {
                return None;
            },
        };
        let t113 = match t111.sub(t112) {
            Some(val) => val,
            None => {
                return None;
            },
        };
        let t114 = match m[2].mul(t113) {
            Some(val) => val,
            None => {
                return None;
            },
        };
        let t115 = match t106.sub(t110) {
            Some(val) => val,
            None => {
                return None;
            },
        };
        let t116 = match t115.add(t114) {
            Some(val) => val,
            None => {
                return None;
            },
        };
        let t117 = match m[6].mul(m[15]) {
            Some(val) => val,
            None => {
                return None;
            },
        };
        let t118 = match m[7].mul(m[14]) {
            Some(val) => val,
            None => {
                return None;
            },
        };
        let t119 = match t117.sub(t118) {
            Some(val) => val,
            None => {
                return None;
            },
        };
        let t120 = match m[1].mul(t119) {
            Some(val) => val,
            None => {
                return None;
            },
        };
        let t121 = match m[5].mul(m[15]) {
            Some(val) => val,
            None => {
                return None;
            },
        };
        let t122 = match m[7].mul(m[13]) {
            Some(val) => val,
            None => {
                return None;
            },
        };
        let t123 = match t121.sub(t122) {
            Some(val) => val,
            None => {
                return None;
            },
        };
        let t124 = match m[2].mul(t123) {
            Some(val) => val,
            None => {
                return None;
            },
        };
        let t125 = match m[5].mul(m[14]) {
            Some(val) => val,
            None => {
                return None;
            },
        };
        let t126 = match m[6].mul(m[13]) {
            Some(val) => val,
            None => {
                return None;
            },
        };
        let t127 = match t125.sub(t126) {
            Some(val) => val,
            None => {
                return None;
            },
        };
        let t128 = match m[3].mul(t127) {
            Some(val) => val,
            None => {
                return None;
            },
        };
        let t129 = match t120.sub(t124) {
            Some(val) => val,
            None => {
                return None;
            },
        };
        let t130 = match t129.add(t128) {
            Some(val) => val,
            None => {
                return None;
            },
        };
        let t131 = match m[6].mul(m[15]) {
            Some(val) => val,
            None => {
                return None;
            },
        };
        let t132 = match m[7].mul(m[14]) {
            Some(val) => val,
            None => {
                return None;
            },
        };
        let t133 = match t131.sub(t132) {
            Some(val) => val,
            None => {
                return None;
            },
        };
        let t134 = match m[0].mul(t133) {
            Some(val) => val,
            None => {
                return None;
            },
        };
        let t135 = match m[4].mul(m[15]) {
            Some(val) => val,
            None => {
                return None;
            },
        };
        let t136 = match m[7].mul(m[12]) {
            Some(val) => val,
            None => {
                return None;
            },
        };
        let t137 = match t135.sub(t136) {
            Some(val) => val,
            None => {
                return None;
            },
        };
        let t138 = match m[2].mul(t137) {
            Some(val) => val,
            None => {
                return None;
            },
        };
        let t139 = match m[4].mul(m[14]) {
            Some(val) => val,
            None => {
                return None;
            },
        };
        let t140 = match m[6].mul(m[12]) {
            Some(val) => val,
            None => {
                return None;
            },
        };
        let t141 = match t139.sub(t140) {
            Some(val) => val,
            None => {
                return None;
            },
        };
        let t142 = match m[3].mul(t141) {
            Some(val) => val,
            None => {
                return None;
            },
        };
        let t143 = match t134.sub(t138) {
            Some(val) => val,
            None => {
                return None;
            },
        };
        let t144 = match t143.add(t142) {
            Some(val) => val,
            None => {
                return None;
            },
        };
        let t145 = match t144.mul(neg_one) {
            Some(val) => val,
            None => {
                return None;
            },
        };
        let t146 = match m[5].mul(m[15]) {
            Some(val) => val,
            None => {
                return None;
            },
        };
        let t147 = match m[7].mul(m[13]) {
            Some(val) => val,
            None => {
                return None;
            },
        };
        let t148 = match t146.sub(t147) {
            Some(val) => val,
            None => {
                return None;
            },
        };
        let t149 = match m[0].mul(t148) {
            Some(val) => val,
            None => {
                return None;
            },
        };
        let t150 = match m[4].mul(m[15]) {
            Some(val) => val,
            None => {
                return None;
            },
        };
        let t151 = match m[7].mul(m[12]) {
            Some(val) => val,
            None => {
                return None;
            },
        };
        let t152 = match t150.sub(t151) {
            Some(val) => val,
            None => {
                return None;
            },
        };
        let t153 = match m[1].mul(t152) {
            Some(val) => val,
            None => {
                return None;
            },
        };
        let t154 = match m[4].mul(m[13]) {
            Some(val) => val,
            None => {
                return None;
            },
        };
        let t155 = match m[5].mul(m[12]) {
            Some(val) => val,
            None => {
                return None;
            },
        };
        let t156 = match t154.sub(t155) {
            Some(val) => val,
            None => {
                return None;
            },
        };
        let t157 = match m[3].mul(t156) {
            Some(val) => val,
            None => {
                return None;
            },
        };
        let t158 = match t149.sub(t153) {
            Some(val) => val,
            None => {
                return None;
            },
        };
        let t159 = match t158.add(t157) {
            Some(val) => val,
            None => {
                return None;
            },
        };
        let t160 = match m[5].mul(m[14]) {
            Some(val) => val,
            None => {
                return None;
            },
        };
        let t161 = match m[6].mul(m[13]) {
            Some(val) => val,
            None => {
                return None;
            },
        };
        let t162 = match t160.sub(t161) {
            Some(val) => val,
            None => {
                return None;
            },
        };
        let t163 = match m[0].mul(t162) {
            Some(val) => val,
            None => {
                return None;
            },
        };
        let t164 = match m[4].mul(m[14]) {
            Some(val) => val,
            None => {
                return None;
            },
        };
        let t165 = match m[6].mul(m[12]) {
            Some(val) => val,
            None => {
                return None;
            },
        };
        let t166 = match t164.sub(t165) {
            Some(val) => val,
            None => {
                return None;
            },
        };
        let t167 = match m[1].mul(t166) {
            Some(val) => val,
            None => {
                return None;
            },
        };
        let t168 = match m[4].mul(m[13]) {
            Some(val) => val,
            None => {
                return None;
            },
        };
        let t169 = match m[5].mul(m[12]) {
            Some(val) => val,
            None => {
                return None;
            },
        };
        let t170 = match t168.sub(t169) {
            Some(val) => val,
            None => {
                return None;
            },
        };
        let t171 = match m[2].mul(t170) {
            Some(val) => val,
            None => {
                return None;
            },
        };
        let t172 = match t163.sub(t167) {
            Some(val) => val,
            None => {
                return None;
            },
        };
        let t173 = match t172.add(t171) {
            Some(val) => val,
            None => {
                return None;
            },
        };
        let t174 = match t173.mul(neg_one) {
            Some(val) => val,
            None => {
                return None;
            },
        };
        let t175 = match m[6].mul(m[11]) {
            Some(val) => val,
            None => {
                return None;
            },
        };
        let t176 = match m[7].mul(m[10]) {
            Some(val) => val,
            None => {
                return None;
            },
        };
        let t177 = match t175.sub(t176) {
            Some(val) => val,
            None => {
                return None;
            },
        };
        let t178 = match m[1].mul(t177) {
            Some(val) => val,
            None => {
                return None;
            },
        };
        let t179 = match m[5].mul(m[11]) {
            Some(val) => val,
            None => {
                return None;
            },
        };
        let t180 = match m[7].mul(m[9]) {
            Some(val) => val,
            None => {
                return None;
            },
        };
        let t181 = match t179.sub(t180) {
            Some(val) => val,
            None => {
                return None;
            },
        };
        let t182 = match m[2].mul(t181) {
            Some(val) => val,
            None => {
                return None;
            },
        };
        let t183 = match m[5].mul(m[10]) {
            Some(val) => val,
            None => {
                return None;
            },
        };
        let t184 = match m[6].mul(m[9]) {
            Some(val) => val,
            None => {
                return None;
            },
        };
        let t185 = match t183.sub(t184) {
            Some(val) => val,
            None => {
                return None;
            },
        };
        let t186 = match m[3].mul(t185) {
            Some(val) => val,
            None => {
                return None;
            },
        };
        let t187 = match t178.sub(t182) {
            Some(val) => val,
            None => {
                return None;
            },
        };
        let t188 = match t187.add(t186) {
            Some(val) => val,
            None => {
                return None;
            },
        };
        let t189 = match t188.mul(neg_one) {
            Some(val) => val,
            None => {
                return None;
            },
        };
        let t190 = match m[6].mul(m[11]) {
            Some(val) => val,
            None => {
                return None;
            },
        };
        let t191 = match m[7].mul(m[10]) {
            Some(val) => val,
            None => {
                return None;
            },
        };
        let t192 = match t190.sub(t191) {
            Some(val) => val,
            None => {
                return None;
            },
        };
        let t193 = match m[0].mul(t192) {
            Some(val) => val,
            None => {
                return None;
            },
        };
        let t194 = match m[4].mul(m[11]) {
            Some(val) => val,
            None => {
                return None;
            },
        };
        let t195 = match m[7].mul(m[8]) {
            Some(val) => val,
            None => {
                return None;
            },
        };
        let t196 = match t194.sub(t195) {
            Some(val) => val,
            None => {
                return None;
            },
        };
        let t197 = match m[2].mul(t196) {
            Some(val) => val,
            None => {
                return None;
            },
        };
        let t198 = match m[4].mul(m[10]) {
            Some(val) => val,
            None => {
                return None;
            },
        };
        let t199 = match m[6].mul(m[8]) {
            Some(val) => val,
            None => {
                return None;
            },
        };
        let t200 = match t198.sub(t199) {
            Some(val) => val,
            None => {
                return None;
            },
        };
        let t201 = match m[3].mul(t200) {
            Some(val) => val,
            None => {
                return None;
            },
        };
        let t202 = match t193.sub(t197) {
            Some(val) => val,
            None => {
                return None;
            },
        };
        let t203 = match t202.add(t201) {
            Some(val) => val,
            None => {
                return None;
            },
        };
        let t204 = match m[5].mul(m[11]) {
            Some(val) => val,
            None => {
                return None;
            },
        };
        let t205 = match m[7].mul(m[9]) {
            Some(val) => val,
            None => {
                return None;
            },
        };
        let t206 = match t204.sub(t205) {
            Some(val) => val,
            None => {
                return None;
            },
        };
        let t207 = match m[0].mul(t206) {
            Some(val) => val,
            None => {
                return None;
            },
        };
        let t208 = match m[4].mul(m[11]) {
            Some(val) => val,
            None => {
                return None;
            },
        };
        let t209 = match m[7].mul(m[8]) {
            Some(val) => val,
            None => {
                return None;
            },
        };
        let t210 = match t208.sub(t209) {
            Some(val) => val,
            None => {
                return None;
            },
        };
        let t211 = match m[1].mul(t210) {
            Some(val) => val,
            None => {
                return None;
            },
        };
        let t212 = match m[4].mul(m[9]) {
            Some(val) => val,
            None => {
                return None;
            },
        };
        let t213 = match m[5].mul(m[8]) {
            Some(val) => val,
            None => {
                return None;
            },
        };
        let t214 = match t212.sub(t213) {
            Some(val) => val,
            None => {
                return None;
            },
        };
        let t215 = match m[3].mul(t214) {
            Some(val) => val,
            None => {
                return None;
            },
        };
        let t216 = match t207.sub(t211) {
            Some(val) => val,
            None => {
                return None;
            },
        };
        let t217 = match t216.add(t215) {
            Some(val) => val,
            None => {
                return None;
            },
        };
        let t218 = match t217.mul(neg_one) {
            Some(val) => val,
            None => {
                return None;
            },
        };
        let t219 = match m[5].mul(m[10]) {
            Some(val) => val,
            None => {
                return None;
            },
        };
        let t220 = match m[6].mul(m[9]) {
            Some(val) => val,
            None => {
                return None;
            },
        };
        let t221 = match t219.sub(t220) {
            Some(val) => val,
            None => {
                return None;
            },
        };
        let t222 = match m[0].mul(t221) {
            Some(val) => val,
            None => {
                return None;
            },
        };
        let t223 = match m[4].mul(m[10]) {
            Some(val) => val,
            None => {
                return None;
            },
        };
        let t224 = match m[6].mul(m[8]) {
            Some(val) => val,
            None => {
                return None;
            },
        };
        let t225 = match t223.sub(t224) {
            Some(val) => val,
            None => {
                return None;
            },
        };
        let t226 = match m[1].mul(t225) {
            Some(val) => val,
            None => {
                return None;
            },
        };
        let t227 = match m[4].mul(m[9]) {
            Some(val) => val,
            None => {
                return None;
            },
        };
        let t228 = match m[5].mul(m[8]) {
            Some(val) => val,
            None => {
                return None;
            },
        };
        let t229 = match t227.sub(t228) {
            Some(val) => val,
            None => {
                return None;
            },
        };
        let t230 = match m[2].mul(t229) {
            Some(val) => val,
            None => {
                return None;
            },
        };
        let t231 = match t222.sub(t226) {
            Some(val) => val,
            None => {
                return None;
            },
        };
        let t232 = match t231.add(t230) {
            Some(val) => val,
            None => {
                return None;
            },
        };
        let e0 = match t14.div(det) {
            Some(x) => x,
            None => {
                return None;
            },
        };
        let e1 = match t73.div(det) {
            Some(x) => x,
            None => {
                return None;
            },
        };
        let e2 = match t130.div(det) {
            Some(x) => x,
            None => {
                return None;
            },
        };
        let e3 = match t189.div(det) {
            Some(x) => x,
            None => {
                return None;
            },
        };
        let e4 = match t29.div(det) {
            Some(x) => x,
            None => {
                return None;
            },
        };
        let e5 = match t87.div(det) {
            Some(x) => x,
            None => {
                return None;
            },
        };
        let e6 = match t145.div(det) {
            Some(x) => x,
            None => {
                return None;
            },
        };
        let e7 = match t203.div(det) {
            Some(x) => x,
            None => {
                return None;
            },
        };
        let e8 = match t43.div(det) {
            Some(x) => x,
            None => {
                return None;
            },
        };
        let e9 = match t102.div(det) {
            Some(x) => x,
            None => {
                return None;
            },
        };
        let e10 = match t159.div(det) {
            Some(x) => x,
            None => {
                return None;
            },
        };
        let e11 = match t218.div(det) {
            Some(x) => x,
            None => {
                return None;
            },
        };
        let e12 = match t58.div(det) {
            Some(x) => x,
            None => {
                return None;
            },
        };
        let e13 = match t116.div(det) {
            Some(x) => x,
            None => {
                return None;
            },
        };
        let e14 = match t174.div(det) {
            Some(x) => x,
            None => {
                return None;
            },
        };
        let e15 = match t232.div(det) {
            Some(x) => x,
            None => {
                return None;
            },
        };
        Some([e0, e1, e2, e3, e4, e5, e6, e7, e8, e9, e10, e11, e12, e13, e14, e15])
    }
}

} // verus!
