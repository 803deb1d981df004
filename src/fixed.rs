//! Signed fixed-point numbers with 16 fractional bits.
use vstd::prelude::*;

verus! {

/// Raw units in one whole unit of a [`Fixed`].
pub const ONE: i32 = 65536;

/// The raw value that stands for one whole unit.
pub open spec fn one() -> int {
    65536
}

/// `x` saturated into the range of `i32`.
pub open spec fn clamp_i32(x: int) -> int {
    if x > i32::MAX {
        i32::MAX as int
    } else if x < i32::MIN {
        i32::MIN as int
    } else {
        x
    }
}

/// `x` wrapped into the range of `i32`, as two's-complement arithmetic does.
pub open spec fn wrap_i32(x: int) -> int {
    (x - i32::MIN) % 0x1_0000_0000 + i32::MIN
}

/// `x` bounded below by `lo` and above by `hi`.
pub open spec fn clamp_int(x: int, lo: int, hi: int) -> int {
    if x < lo {
        lo
    } else if x > hi {
        hi
    } else {
        x
    }
}

/// Floor of `a / d` for a positive divisor.
pub fn div_floor(a: i64, d: i64) -> (r: i64)
    requires
        d > 0,
    ensures
        r == a / d,
{
    proof {
        vstd::arithmetic::div_mod::lemma_fundamental_div_mod(a as int, d as int);
        let q = a as int / d as int;
        let m = a as int % d as int;
        assert(i64::MIN <= q <= i64::MAX) by (nonlinear_arith)
            requires
                a == d * q + m,
                0 <= m < d,
                i64::MIN <= a <= i64::MAX,
        ;
    }
    match a.checked_div_euclid(d) {
        Some(q) => q,
        None => 0,
    }
}

/// Euclidean remainder of `a` by a positive divisor: always in `[0, d)`.
pub fn mod_floor(a: i64, d: i64) -> (r: i64)
    requires
        d > 0,
    ensures
        r == a % d,
        0 <= r < d,
{
    match a.checked_rem_euclid(d) {
        Some(m) => m,
        None => 0,
    }
}

/// A fixed-point number: the raw value `r` stands for `r / 65536`.
#[derive(Clone, Copy, Debug, PartialEq, Eq, Structural)]
pub struct Fixed(pub i32);

impl View for Fixed {
    type V = int;

    open spec fn view(&self) -> int {
        self.0 as int
    }
}

impl Fixed {
    /// The whole number `n`.
    pub fn from_int(n: i32) -> (r: Fixed)
        requires
            -32768 <= n <= 32767,
        ensures
            r@ == n * one(),
    {
        Fixed(n * ONE)
    }

    /// The fraction `num / den`, rounded down to the nearest raw unit.
    pub fn from_ratio(num: i32, den: i32) -> (r: Fixed)
        requires
            den > 0,
            i32::MIN <= (num * one()) / (den as int) <= i32::MAX,
        ensures
            r@ == (num * one()) / (den as int),
    {
        let q = div_floor(num as i64 * ONE as i64, den as i64);
        Fixed(q as i32)
    }

    /// Zero.
    pub fn zero() -> (r: Fixed)
        ensures
            r@ == 0,
    {
        Fixed(0)
    }

    /// One.
    pub fn one() -> (r: Fixed)
        ensures
            r@ == one(),
    {
        Fixed(ONE)
    }

    /// The raw integer.
    pub fn raw(self) -> (r: i32)
        ensures
            r == self@,
    {
        self.0
    }

    /// Sum, saturated at the bounds of the representation.
    pub fn saturating_add(self, o: Fixed) -> (r: Fixed)
        ensures
            r@ == clamp_i32(self@ + o@),
    {
        let s = self.0 as i64 + o.0 as i64;
        Fixed(clamp_to_i32(s))
    }

    /// Difference, saturated at the bounds of the representation.
    pub fn saturating_sub(self, o: Fixed) -> (r: Fixed)
        ensures
            r@ == clamp_i32(self@ - o@),
    {
        let s = self.0 as i64 - o.0 as i64;
        Fixed(clamp_to_i32(s))
    }

    /// Product, rounded down to a raw unit and saturated.
    pub fn saturating_mul(self, o: Fixed) -> (r: Fixed)
        ensures
            r@ == clamp_i32((self@ * o@) / one()),
    {
        let p = mul_floor(self, o);
        Fixed(clamp_to_i32(p))
    }

    /// Product by a whole number, saturated.
    pub fn saturating_mul_int(self, k: i32) -> (r: Fixed)
        ensures
            r@ == clamp_i32(self@ * k),
    {
        proof {
            assert(-0x8000_0000_0000_0000 <= self@ * k <= 0x7fff_ffff_ffff_ffff) by (nonlinear_arith)
                requires
                    i32::MIN <= self@ <= i32::MAX,
                    i32::MIN <= k <= i32::MAX,
            ;
        }
        let p = self.0 as i64 * k as i64;
        Fixed(clamp_to_i32(p))
    }

    /// Quotient, rounded down to a raw unit and saturated.
    pub fn saturating_div(self, o: Fixed) -> (r: Fixed)
        requires
            o@ > 0,
        ensures
            r@ == clamp_i32((self@ * one()) / o@),
    {
        let q = div_floor(self.0 as i64 * ONE as i64, o.0 as i64);
        Fixed(clamp_to_i32(q))
    }

    /// Quotient by a positive whole number, rounded down.
    pub fn div_int(self, k: i32) -> (r: Fixed)
        requires
            k > 0,
        ensures
            r@ == self@ / (k as int),
    {
        proof {
            vstd::arithmetic::div_mod::lemma_fundamental_div_mod(self@, k as int);
            let q = self@ / (k as int);
            let m = self@ % (k as int);
            assert(i32::MIN <= q <= i32::MAX) by (nonlinear_arith)
                requires
                    self@ == k * q + m,
                    0 <= m < k,
                    i32::MIN <= self@ <= i32::MAX,
            ;
        }
        Fixed(div_floor(self.0 as i64, k as i64) as i32)
    }

    /// Sum, wrapped as two's-complement arithmetic does.
    pub fn wrapping_add(self, o: Fixed) -> (r: Fixed)
        ensures
            r@ == wrap_i32(self@ + o@),
    {
        Fixed(wrap_to_i32(self.0 as i64 + o.0 as i64))
    }

    /// Difference, wrapped as two's-complement arithmetic does.
    pub fn wrapping_sub(self, o: Fixed) -> (r: Fixed)
        ensures
            r@ == wrap_i32(self@ - o@),
    {
        Fixed(wrap_to_i32(self.0 as i64 - o.0 as i64))
    }

    /// Product, rounded down to a raw unit and wrapped.
    pub fn wrapping_mul(self, o: Fixed) -> (r: Fixed)
        ensures
            r@ == wrap_i32((self@ * o@) / one()),
    {
        let p = mul_floor(self, o);
        Fixed(wrap_to_i32(p))
    }

    /// Negation, saturated (the most negative value maps to the most positive).
    pub fn neg(self) -> (r: Fixed)
        ensures
            r@ == clamp_i32(-self@),
    {
        Fixed(clamp_to_i32(-(self.0 as i64)))
    }

    /// The smaller of two values.
    pub fn min(self, o: Fixed) -> (r: Fixed)
        ensures
            r@ == if self@ <= o@ { self@ } else { o@ },
    {
        if self.0 <= o.0 {
            self
        } else {
            o
        }
    }

    /// The larger of two values.
    pub fn max(self, o: Fixed) -> (r: Fixed)
        ensures
            r@ == if self@ >= o@ { self@ } else { o@ },
    {
        if self.0 >= o.0 {
            self
        } else {
            o
        }
    }

    /// The value bounded to `[lo, hi]`.
    pub fn clamp(self, lo: Fixed, hi: Fixed) -> (r: Fixed)
        requires
            lo@ <= hi@,
        ensures
            r@ == clamp_int(self@, lo@, hi@),
    {
        if self.0 < lo.0 {
            lo
        } else if self.0 > hi.0 {
            hi
        } else {
            self
        }
    }

    /// Linear blend from `self` (weight 0) to `o` (weight one), the step
    /// rounded down; the weight is clamped to `[0, 1]` first.
    pub fn lerp(self, o: Fixed, w: Fixed) -> (r: Fixed)
        ensures
            r@ == self@ + ((o@ - self@) * clamp_int(w@, 0, one())) / one(),
            self@ <= o@ ==> self@ <= r@ <= o@,
            o@ <= self@ ==> o@ <= r@ <= self@,
    {
        let w = w.clamp(Fixed(0), Fixed(ONE));
        let d = o.0 as i64 - self.0 as i64;
        proof {
            lemma_lerp_bounds(self@, o@, w@);
        }
        let step = div_floor(d * w.0 as i64, ONE as i64);
        Fixed((self.0 as i64 + step) as i32)
    }

    /// The largest whole number not above the value.
    pub fn floor(self) -> (r: i32)
        ensures
            r == self@ / one(),
            -32768 <= r <= 32767,
    {
        proof {
            vstd::arithmetic::div_mod::lemma_fundamental_div_mod(self@, one());
            let q = self@ / one();
            let m = self@ % one();
            assert(-32768 <= q <= 32767) by (nonlinear_arith)
                requires
                    self@ == 65536 * q + m,
                    0 <= m < 65536,
                    i32::MIN <= self@ <= i32::MAX,
            ;
        }
        let q = div_floor(self.0 as i64, ONE as i64);
        q as i32
    }

    /// The fractional part, in `[0, 1)`: the value minus its floor.
    pub fn fract(self) -> (r: Fixed)
        ensures
            r@ == self@ % one(),
            0 <= r@ < one(),
    {
        Fixed(mod_floor(self.0 as i64, ONE as i64) as i32)
    }
}

/// `x` saturated into the range of `i32`.
fn clamp_to_i32(x: i64) -> (r: i32)
    ensures
        r == clamp_i32(x as int),
{
    if x > i32::MAX as i64 {
        i32::MAX
    } else if x < i32::MIN as i64 {
        i32::MIN
    } else {
        x as i32
    }
}

/// `x` wrapped into the range of `i32`.
fn wrap_to_i32(x: i64) -> (r: i32)
    requires
        -0x4000_0000_0000_0000 <= x <= 0x4000_0000_0000_0000,
    ensures
        r == wrap_i32(x as int),
{
    let m = mod_floor(x - i32::MIN as i64, 0x1_0000_0000i64);
    (m + i32::MIN as i64) as i32
}

/// Floor of the product of two raw values, over one unit.
fn mul_floor(a: Fixed, b: Fixed) -> (r: i64)
    ensures
        r == (a@ * b@) / one(),
        -0x4000_0000_0000 <= r <= 0x4000_0000_0000,
{
    proof {
        assert(-0x4000_0000_0000_0000 <= a@ * b@ <= 0x4000_0000_0000_0000) by (nonlinear_arith)
            requires
                i32::MIN <= a@ <= i32::MAX,
                i32::MIN <= b@ <= i32::MAX,
        ;
        let p = a@ * b@;
        vstd::arithmetic::div_mod::lemma_fundamental_div_mod(p, one());
        let q = p / one();
        let m = p % one();
        assert(-0x4000_0000_0000 <= q <= 0x4000_0000_0000) by (nonlinear_arith)
            requires
                p == 65536 * q + m,
                0 <= m < 65536,
                -0x4000_0000_0000_0000 <= p <= 0x4000_0000_0000_0000,
        ;
    }
    div_floor(a.0 as i64 * b.0 as i64, ONE as i64)
}

proof fn lemma_lerp_bounds(a: int, b: int, w: int)
    requires
        0 <= w <= one(),
        i32::MIN <= a <= i32::MAX,
        i32::MIN <= b <= i32::MAX,
    ensures
        a <= b ==> 0 <= ((b - a) * w) / one() <= b - a,
        b <= a ==> b - a <= ((b - a) * w) / one() <= 0,
        -0x1_0000_0000 <= b - a <= 0x1_0000_0000,
        -0x1_0000_0000_0000 <= (b - a) * w <= 0x1_0000_0000_0000,
{
    let d = b - a;
    let p = d * w;
    assert(-0x1_0000_0000_0000 <= p <= 0x1_0000_0000_0000) by (nonlinear_arith)
        requires
            p == d * w,
            -0x1_0000_0000 <= d <= 0x1_0000_0000,
            0 <= w <= 65536,
    ;
    vstd::arithmetic::div_mod::lemma_fundamental_div_mod(p, one());
    let q = p / one();
    let m = p % one();
    if d >= 0 {
        assert(0 <= p <= d * 65536) by (nonlinear_arith)
            requires
                p == d * w,
                d >= 0,
                0 <= w <= 65536,
        ;
        assert(0 <= q <= d) by (nonlinear_arith)
            requires
                p == 65536 * q + m,
                0 <= m < 65536,
                0 <= p <= d * 65536,
        ;
    }
    if d <= 0 {
        assert(d * 65536 <= p <= 0) by (nonlinear_arith)
            requires
                p == d * w,
                d <= 0,
                0 <= w <= 65536,
        ;
        assert(d <= q <= 0) by (nonlinear_arith)
            requires
                p == 65536 * q + m,
                0 <= m < 65536,
                d * 65536 <= p <= 0,
        ;
    }
}

} // verus!
