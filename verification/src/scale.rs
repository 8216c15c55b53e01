//! The scale of a surface, and what a length in logical units becomes in pixels.
//!
//! A fractional scale counts in 120ths. A length times such a scale is computed
//! as double-precision arithmetic computes it: the scale is divided by 120 and
//! rounded to 53 significant bits, the length times that quotient is rounded to
//! 53 significant bits again, and the fraction is dropped. Here this is stated and
//! done on integers.
use vstd::prelude::*;
use vstd::arithmetic::power2::{lemma_pow2_adds, lemma_pow2_pos, lemma_pow2_strictly_increases, lemma_pow2_unfold, pow2};

verus! {

/// How many steps of a fractional scale make up a scale of one.
pub const FRACTIONAL_STEPS: u32 = 120;

/// The scale at which a surface is shown.
#[derive(Clone, Copy, Debug, PartialEq, Eq, Structural)]
pub enum SurfaceScale {
    /// A number of 120ths.
    FractionalScale(u32),
    /// A whole number of pixels for each unit.
    BufferScale(i32),
}

/// The integer nearest to `n / d`; of two equally near ones, the even one.
pub open spec fn round_half_even(n: nat, d: nat) -> nat {
    let q = n / d;
    let r = n % d;
    if 2 * r < d || (2 * r == d && q % 2 == 0) {
        q
    } else {
        q + 1
    }
}

/// The first of `w`, `2 * w`, `4 * w`, ... that makes the quotient of `scale`
/// times it by 120 reach 53 binary digits.
pub open spec fn magnifier(scale: nat, w: nat) -> nat
    decreases 2 * 120 * 0x10_0000_0000_0000 - scale * w,
    when scale > 0 && w > 0
{
    if scale * w >= 120 * 0x10_0000_0000_0000 {
        w
    } else {
        proof {
            assert(scale * (2 * w) == 2 * (scale * w)) by (nonlinear_arith);
            assert(scale * w > 0) by (nonlinear_arith)
                requires
                    scale > 0,
                    w > 0,
            ;
        }
        magnifier(scale, 2 * w)
    }
}

/// The first of `u`, `2 * u`, `4 * u`, ... of which `p` holds fewer than `2^53`.
pub open spec fn last_place(p: nat, u: nat) -> nat
    decreases 2 * p - u * 0x20_0000_0000_0000,
    when u > 0
{
    if p < u * 0x20_0000_0000_0000 {
        u
    } else {
        last_place(p, 2 * u)
    }
}

/// `p` rounded to 53 significant binary digits, ties to even.
pub open spec fn to_53_bits(p: nat) -> nat {
    round_half_even(p, last_place(p, 1)) * last_place(p, 1)
}

/// `a` times the quotient of `scale` by 120, both rounded to 53 significant
/// binary digits, with the fraction dropped.
pub open spec fn fractional_product(a: nat, scale: nat) -> nat {
    if scale == 0 {
        0
    } else {
        let w = magnifier(scale, 1);
        to_53_bits(a * round_half_even(scale * w, 120)) / w
    }
}

/// A buffer scale read as an unsigned number.
pub open spec fn buffer_factor(scale: i32) -> int {
    if scale >= 0 {
        scale as int
    } else {
        scale + 0x1_0000_0000
    }
}

/// Whether `a` can be multiplied by `scale` without leaving `u32`.
pub open spec fn u32_fits(a: u32, scale: SurfaceScale) -> bool {
    match scale {
        SurfaceScale::FractionalScale(_) => true,
        SurfaceScale::BufferScale(scale) => a * buffer_factor(scale) <= u32::MAX,
    }
}

/// The length `a` at `scale`; a fractional product that is too large is clipped.
pub open spec fn u32_scaled(a: u32, scale: SurfaceScale) -> u32 {
    match scale {
        SurfaceScale::FractionalScale(scale) => {
            let product = fractional_product(a as nat, scale as nat);
            if product <= u32::MAX {
                product as u32
            } else {
                u32::MAX
            }
        },
        SurfaceScale::BufferScale(scale) => (a * buffer_factor(scale)) as u32,
    }
}

/// Whether `a` can be multiplied by `scale` without leaving `i32`.
pub open spec fn i32_fits(a: i32, scale: SurfaceScale) -> bool {
    match scale {
        SurfaceScale::FractionalScale(_) => true,
        SurfaceScale::BufferScale(scale) => i32::MIN <= a * scale <= i32::MAX,
    }
}

/// The signed length `a` at `scale`; a fractional product that is too large in
/// either direction is clipped.
pub open spec fn i32_scaled(a: i32, scale: SurfaceScale) -> i32 {
    match scale {
        SurfaceScale::FractionalScale(scale) => {
            if a >= 0 {
                let product = fractional_product(a as nat, scale as nat);
                if product <= i32::MAX {
                    product as i32
                } else {
                    i32::MAX
                }
            } else {
                let product = fractional_product((-a) as nat, scale as nat);
                if -product >= i32::MIN {
                    (-product) as i32
                } else {
                    i32::MIN
                }
            }
        },
        SurfaceScale::BufferScale(scale) => (a * scale) as i32,
    }
}

fn round_half_even_exec(n: u128, d: u128) -> (r: u128)
    requires
        0 < d <= 0x1_0000_0000_0000_0000,
        n <= 0x1_0000_0000_0000_0000_0000_0000_0000,
    ensures
        r == round_half_even(n as nat, d as nat),
        r <= n / d + 1,
{
    let q: u128 = n / d;
    let r: u128 = n % d;
    if 2 * r < d || (2 * r == d && q % 2 == 0) {
        q
    } else {
        assert(q <= n) by (nonlinear_arith)
            requires
                d > 0,
                q == n / d,
        ;
        q + 1
    }
}

/// `a` times `scale` 120ths.
fn fractional_product_exec(a: u32, scale: u32) -> (r: u128)
    ensures
        r == fractional_product(a as nat, scale as nat),
{
    if scale == 0 {
        return 0;
    }
    let top: u128 = 120 * 0x10_0000_0000_0000;
    let mut w: u128 = 1;
    let mut n: u128 = scale as u128;
    while n < top
        invariant
            scale > 0,
            w > 0,
            n == scale * w,
            n < 2 * top,
            top == 120 * 0x10_0000_0000_0000,
            w <= n,
            magnifier(scale as nat, w as nat) == magnifier(scale as nat, 1),
        decreases 2 * top - n,
    {
        assert(scale * (2 * w) == 2 * (scale * w)) by (nonlinear_arith);
        w = 2 * w;
        n = 2 * n;
        assert(w <= scale * w) by (nonlinear_arith)
            requires
                scale > 0,
                w > 0,
        ;
    }
    let m: u128 = round_half_even_exec(n, 120);
    assert(m <= 0x20_0000_0000_0001);
    assert(a * m <= 0xffff_ffff * 0x20_0000_0000_0001) by (nonlinear_arith)
        requires
            a <= 0xffff_ffff,
            m <= 0x20_0000_0000_0001,
    ;
    let p: u128 = a as u128 * m;
    let mut u: u128 = 1;
    while p >= u * 0x20_0000_0000_0000
        invariant
            p <= 0xffff_ffff * 0x20_0000_0000_0001,
            0 < u <= 0x2_0000_0000,
            last_place(p as nat, u as nat) == last_place(p as nat, 1),
        decreases 2 * p - u * 0x20_0000_0000_0000,
    {
        u = 2 * u;
    }
    let q: u128 = round_half_even_exec(p, u);
    assert((p / u) * u <= p) by (nonlinear_arith)
        requires
            u > 0,
    ;
    assert(q * u <= (p / u + 1) * u) by (nonlinear_arith)
        requires
            q <= p / u + 1,
            u > 0,
    ;
    assert((p / u + 1) * u == (p / u) * u + u) by (nonlinear_arith);
    q * u / w
}

/// The bits of `scale`, read as an unsigned number.
fn buffer_factor_exec(scale: i32) -> (r: u32)
    ensures
        r == buffer_factor(scale),
{
    let factor: u32 = #[verifier::truncate] (scale as u32);
    assert(scale >= 0 ==> factor == scale) by (bit_vector)
        requires
            factor == scale as u32,
    ;
    assert(scale < 0 ==> factor == scale + 0x1_0000_0000) by (bit_vector)
        requires
            factor == scale as u32,
    ;
    factor
}

impl SurfaceScale {
    /// Whether a length of `a` units can be multiplied by this scale.
    pub fn fits(self, a: u32) -> (r: bool)
        ensures
            r == u32_fits(a, self),
    {
        match self {
            SurfaceScale::FractionalScale(_) => true,
            SurfaceScale::BufferScale(scale) => {
                let factor: u32 = buffer_factor_exec(scale);
                assert(a * factor <= 0xffff_ffff * 0xffff_ffff) by (nonlinear_arith)
                    requires
                        a <= 0xffff_ffff,
                        factor <= 0xffff_ffff,
                ;
                a as u64 * factor as u64 <= 0xffff_ffff
            },
        }
    }

    /// The scale as a numerator and a denominator.
    pub fn ratio(self) -> (r: (i64, u32))
        ensures
            r == (match self {
                SurfaceScale::FractionalScale(scale) => (scale as i64, 120u32),
                SurfaceScale::BufferScale(scale) => (scale as i64, 1u32),
            }),
    {
        match self {
            SurfaceScale::FractionalScale(scale) => (scale as i64, FRACTIONAL_STEPS),
            SurfaceScale::BufferScale(scale) => (scale as i64, 1),
        }
    }
}

impl core::ops::Mul<SurfaceScale> for u32 {
    type Output = u32;

    fn mul(self, rhs: SurfaceScale) -> (r: u32) {
        match rhs {
            SurfaceScale::FractionalScale(scale) => {
                let product: u128 = fractional_product_exec(self, scale);
                if product <= 0xffff_ffff {
                    product as u32
                } else {
                    u32::MAX
                }
            },
            SurfaceScale::BufferScale(scale) => {
                let factor: u32 = buffer_factor_exec(scale);
                self * factor
            },
        }
    }
}

impl vstd::std_specs::ops::MulSpecImpl<SurfaceScale> for u32 {
    open spec fn obeys_mul_spec() -> bool {
        true
    }

    open spec fn mul_req(self, rhs: SurfaceScale) -> bool {
        u32_fits(self, rhs)
    }

    open spec fn mul_spec(self, rhs: SurfaceScale) -> u32 {
        u32_scaled(self, rhs)
    }
}

impl core::ops::Mul<SurfaceScale> for i32 {
    type Output = i32;

    fn mul(self, rhs: SurfaceScale) -> (r: i32) {
        match rhs {
            SurfaceScale::FractionalScale(scale) => {
                if self >= 0 {
                    let product: u128 = fractional_product_exec(self as u32, scale);
                    if product <= 0x7fff_ffff {
                        product as i32
                    } else {
                        i32::MAX
                    }
                } else {
                    let magnitude: i64 = -(self as i64);
                    let product: u128 = fractional_product_exec(magnitude as u32, scale);
                    if product <= 0x8000_0000 {
                        (-(product as i64)) as i32
                    } else {
                        i32::MIN
                    }
                }
            },
            SurfaceScale::BufferScale(scale) => self * scale,
        }
    }
}

impl vstd::std_specs::ops::MulSpecImpl<SurfaceScale> for i32 {
    open spec fn obeys_mul_spec() -> bool {
        true
    }

    open spec fn mul_req(self, rhs: SurfaceScale) -> bool {
        i32_fits(self, rhs)
    }

    open spec fn mul_spec(self, rhs: SurfaceScale) -> i32 {
        i32_scaled(self, rhs)
    }
}

/// The magnifier of a scale is a power of two, and brings the scale to at least
/// 53 binary digits of the quotient but not to twice as much.
proof fn lemma_magnifier(scale: nat, w: nat, e: nat) -> (f: nat)
    requires
        0 < scale,
        w == pow2(e),
        scale * w < 2 * 120 * 0x10_0000_0000_0000,
    ensures
        magnifier(scale, w) == pow2(f),
        magnifier(scale, w) > 0,
        120 * 0x10_0000_0000_0000 <= scale * magnifier(scale, w) < 2 * 120 * 0x10_0000_0000_0000,
    decreases 2 * 120 * 0x10_0000_0000_0000 - scale * w,
{
    lemma_pow2_pos(e);
    if scale * w >= 120 * 0x10_0000_0000_0000 {
        e
    } else {
        assert(scale * (2 * w) == 2 * (scale * w)) by (nonlinear_arith);
        assert(scale * w > 0) by (nonlinear_arith)
            requires
                scale > 0,
                w > 0,
        ;
        lemma_pow2_unfold(e + 1);
        lemma_magnifier(scale, 2 * w, e + 1)
    }
}

/// The last place of a number is a power of two: either one, or so small that the
/// number holds at least `2^52` of it.
proof fn lemma_last_place(p: nat, u: nat, e: nat) -> (f: nat)
    requires
        u == pow2(e),
        u == 1 || p >= u * 0x10_0000_0000_0000,
    ensures
        last_place(p, u) == pow2(f),
        last_place(p, u) > 0,
        last_place(p, u) == 1 || p >= last_place(p, u) * 0x10_0000_0000_0000,
    decreases 2 * p - u * 0x20_0000_0000_0000,
{
    lemma_pow2_pos(e);
    if p < u * 0x20_0000_0000_0000 {
        e
    } else {
        lemma_pow2_unfold(e + 1);
        lemma_last_place(p, 2 * u, e + 1)
    }
}

/// Rounding moves a quotient by at most one half.
proof fn lemma_round_half_even(n: nat, d: nat)
    requires
        d > 0,
    ensures
        2 * n - d <= 2 * (round_half_even(n, d) * d) <= 2 * n + d,
        n % d == 0 ==> round_half_even(n, d) * d == n,
{
    let q = n / d;
    let r = n % d;
    vstd::arithmetic::div_mod::lemma_fundamental_div_mod(n as int, d as int);
    assert(d * q == q * d) by (nonlinear_arith);
    assert((q + 1) * d == q * d + d) by (nonlinear_arith);
}

/// A product that fits in `u32` is scaled to the pixel: the result is never above
/// the exact value, and it is the whole part of it, or one less where the exact
/// value is whole. A product that does not fit is clipped.
pub proof fn law_fractional_scale_is_exact_to_the_pixel(a: u32, scale: u32)
    ensures
        ({
            let r = u32_scaled(a, SurfaceScale::FractionalScale(scale));
            if a * scale <= 120 * u32::MAX {
                &&& 120 * r <= a * scale <= 120 * r + 120
                &&& (a * scale) % 120 != 0 ==> r == (a * scale) / 120
            } else {
                r == u32::MAX
            }
        }),
{
    if scale > 0 {
        if a * scale <= 120 * u32::MAX {
            lemma_fractional_product(a as nat, scale as nat);
        } else {
            lemma_fractional_product_reaches(a as nat, scale as nat, u32::MAX as nat);
        }
    }
}

/// A signed product that fits in `i32` is scaled to the pixel, towards zero, in the
/// same way. One that does not fit is clipped at the end that it passes.
pub proof fn law_signed_fractional_scale_is_exact_to_the_pixel(a: i32, scale: u32)
    ensures
        ({
            let r = i32_scaled(a, SurfaceScale::FractionalScale(scale));
            if a * scale > 120 * i32::MAX {
                r == i32::MAX
            } else if a * scale < 120 * i32::MIN {
                r == i32::MIN
            } else if a >= 0 {
                &&& 120 * r <= a * scale <= 120 * r + 120
                &&& (a * scale) % 120 != 0 ==> r == (a * scale) / 120
            } else {
                &&& 120 * r - 120 <= a * scale <= 120 * r
                &&& (a * scale) % 120 != 0 ==> r == -((-(a * scale)) / 120)
            }
        }),
{
    let m: nat = if a >= 0 {
        a as nat
    } else {
        (-a) as nat
    };
    let limit: nat = if a >= 0 {
        0x7fff_ffff
    } else {
        0x8000_0000
    };
    assert(m * scale == if a >= 0 {
        a * scale
    } else {
        -(a * scale)
    }) by (nonlinear_arith)
        requires
            m == if a >= 0 {
                a as int
            } else {
                -a
            },
    ;
    if scale > 0 {
        if m * scale <= 120 * limit {
            lemma_fractional_product(m, scale as nat);
        } else {
            lemma_fractional_product_reaches(m, scale as nat, limit);
        }
    } else {
        assert(a * scale == 0) by (nonlinear_arith)
            requires
                scale == 0,
        ;
    }
    let x = a * scale;
    let r = i32_scaled(a, SurfaceScale::FractionalScale(scale));
    assert(a < 0 && x >= 120 * i32::MIN && x % 120 != 0 ==> r == -((-x) / 120));
}

/// A fractional product above a whole number is not rounded below that number.
proof fn lemma_fractional_product_reaches(a: nat, scale: nat, limit: nat)
    requires
        0 < scale <= u32::MAX,
        limit <= u32::MAX,
        a * scale > 120 * limit,
    ensures
        fractional_product(a, scale) >= limit,
{
    let x = a * scale;
    vstd::arithmetic::power2::lemma2_to64();
    let e = lemma_magnifier(scale, 1, 0);
    let w = magnifier(scale, 1);
    let m = round_half_even(scale * w, 120);
    lemma_round_half_even(scale * w, 120);
    let p = a * m;
    let q = limit * w;
    assert(a * (scale * w) == x * w) by (nonlinear_arith)
        requires
            x == a * scale,
    ;
    assert(x * w - 60 * a <= 120 * p) by (nonlinear_arith)
        requires
            p == a * m,
            a * (scale * w) == x * w,
            scale * w - 60 <= 120 * m,
    ;
    assert(a * (120 * 0x10_0000_0000_0000) <= a * (scale * w)) by (nonlinear_arith)
        requires
            120 * 0x10_0000_0000_0000 <= scale * w,
    ;
    assert((120 * limit + 1) * w <= x * w) by (nonlinear_arith)
        requires
            120 * limit + 1 <= x,
    ;
    assert((120 * limit + 1) * w == 120 * q + w) by (nonlinear_arith)
        requires
            q == limit * w,
    ;
    assert(q <= u32::MAX * w) by (nonlinear_arith)
        requires
            q == limit * w,
            limit <= u32::MAX,
    ;
    assert(q <= p);
    lemma_to_53_bits_monotonic(q, p);

    let f = lemma_last_place(q, 1, 0);
    let u = last_place(q, 1);
    if f > e {
        lemma_pow2_strictly_increases(e, f);
    }
    lemma_pow2_adds(f, (e - f) as nat);
    let k = pow2((e - f) as nat);
    assert(q == (limit * k) * u) by (nonlinear_arith)
        requires
            q == limit * w,
            w == u * k,
    ;
    vstd::arithmetic::div_mod::lemma_mod_multiples_basic((limit * k) as int, u as int);
    lemma_round_half_even(q, u);
    assert(to_53_bits(q) == q);
    vstd::arithmetic::div_mod::lemma_div_is_ordered(q as int, to_53_bits(p) as int, w as int);
    vstd::arithmetic::div_mod::lemma_div_by_multiple(limit as int, w as int);
}

/// The two roundings of a fractional product together move it by less than the
/// 120th part of a pixel.
proof fn lemma_fractional_product(a: nat, scale: nat)
    requires
        0 < scale <= u32::MAX,
        a * scale <= 120 * u32::MAX,
    ensures
        120 * fractional_product(a, scale) <= a * scale <= 120 * fractional_product(a, scale) + 120,
        last_place(a * round_half_even(scale * magnifier(scale, 1), 120), 1) <= magnifier(scale, 1),
{
    let x = a * scale;
    vstd::arithmetic::power2::lemma2_to64();
    lemma_magnifier(scale, 1, 0);
    let w = magnifier(scale, 1);
    let m = round_half_even(scale * w, 120);
    lemma_round_half_even(scale * w, 120);
    let p = a * m;
    assert(a * (scale * w) == x * w) by (nonlinear_arith)
        requires
            x == a * scale,
    ;
    assert(x * w - 60 * a <= 120 * p <= x * w + 60 * a) by (nonlinear_arith)
        requires
            p == a * m,
            a * (scale * w) == x * w,
            scale * w - 60 <= 120 * m <= scale * w + 60,
    ;
    assert(x * w <= 120 * u32::MAX * w) by (nonlinear_arith)
        requires
            x <= 120 * u32::MAX,
    ;
    assert(a * (120 * 0x10_0000_0000_0000) <= a * (scale * w)) by (nonlinear_arith)
        requires
            120 * 0x10_0000_0000_0000 <= scale * w,
    ;
    lemma_last_place(p, 1, 0);
    let u = last_place(p, 1);
    lemma_round_half_even(p, u);
    let r = round_half_even(p, u) * u;
    let out = r / w;
    vstd::arithmetic::div_mod::lemma_fundamental_div_mod(r as int, w as int);
    assert(120 * w * out < (x + 1) * w) by (nonlinear_arith)
        requires
            240 * (w * out) < 2 * (x * w) + 2 * w,
    ;
    assert(120 * out < x + 1) by (nonlinear_arith)
        requires
            120 * w * out < (x + 1) * w,
            w > 0,
    ;
    assert((x - 1) * w < (120 * out + 120) * w) by (nonlinear_arith)
        requires
            2 * (x * w) - 2 * w < 240 * (w * out) + 240 * w,
    ;
    assert(x - 1 < 120 * out + 120) by (nonlinear_arith)
        requires
            (x - 1) * w < (120 * out + 120) * w,
            w > 0,
    ;
}

/// A fractional scale that amounts to a whole number scales like the buffer scale
/// of that number, as long as the result fits.
pub proof fn law_whole_fractional_scale_is_a_buffer_scale(a: u32, factor: i32)
    requires
        0 <= factor,
        120 * factor <= u32::MAX,
        a * factor <= u32::MAX,
    ensures
        u32_fits(a, SurfaceScale::BufferScale(factor)),
        u32_scaled(a, SurfaceScale::FractionalScale((120 * factor) as u32)) == u32_scaled(
            a,
            SurfaceScale::BufferScale(factor),
        ),
        u32_scaled(a, SurfaceScale::BufferScale(factor)) == a * factor,
{
    let a = a as nat;
    let n = factor as nat;
    let scale = 120 * n;
    if n > 0 {
        let x = a * scale;
        assert(x == 120 * (a * n)) by (nonlinear_arith)
            requires
                x == a * (120 * n),
        ;
        vstd::arithmetic::power2::lemma2_to64();
        let e = lemma_magnifier(scale, 1, 0);
        lemma_fractional_product(a, scale);
        let w = magnifier(scale, 1);
        assert(scale * w == 120 * (n * w)) by (nonlinear_arith)
            requires
                scale == 120 * n,
        ;
        lemma_round_half_even(scale * w, 120);
        let m = round_half_even(scale * w, 120);
        assert(m == n * w);
        let p = a * m;
        let f = lemma_last_place(p, 1, 0);
        let u = last_place(p, 1);
        if f > e {
            lemma_pow2_strictly_increases(e, f);
        }
        lemma_pow2_adds(f, (e - f) as nat);
        let k = pow2((e - f) as nat);
        assert(p == u * (a * n * k)) by (nonlinear_arith)
            requires
                p == a * m,
                m == n * w,
                w == u * k,
        ;
        vstd::arithmetic::div_mod::lemma_mod_multiples_basic((a * n * k) as int, u as int);
        assert(p == (a * n * k) * u) by (nonlinear_arith)
            requires
                p == u * (a * n * k),
        ;
        lemma_round_half_even(p, u);
        assert(p == w * (a * n)) by (nonlinear_arith)
            requires
                p == a * m,
                m == n * w,
        ;
        vstd::arithmetic::div_mod::lemma_div_multiples_vanish((a * n) as int, w as int);
    }
}

/// At a scale of one, fractional or not, a length stays what it is.
pub proof fn law_scale_of_one_is_the_identity(a: u32)
    ensures
        u32_scaled(a, SurfaceScale::FractionalScale(120)) == a,
        u32_scaled(a, SurfaceScale::BufferScale(1)) == a,
{
    law_whole_fractional_scale_is_a_buffer_scale(a, 1);
}

/// The rounding of a quotient keeps order.
proof fn lemma_round_half_even_monotonic(n: nat, m: nat, d: nat)
    requires
        d > 0,
        n <= m,
    ensures
        round_half_even(n, d) <= round_half_even(m, d),
{
    vstd::arithmetic::div_mod::lemma_div_is_ordered(n as int, m as int, d as int);
    vstd::arithmetic::div_mod::lemma_fundamental_div_mod(n as int, d as int);
    vstd::arithmetic::div_mod::lemma_fundamental_div_mod(m as int, d as int);
}

/// A smaller number has no larger last place.
proof fn lemma_last_place_monotonic(p: nat, q: nat, u: nat, e: nat)
    requires
        p <= q,
        u == pow2(e),
    ensures
        last_place(p, u) <= last_place(q, u),
        last_place(p, u) == last_place(q, u) || 2 * last_place(p, u) <= last_place(q, u),
        p < last_place(p, u) * 0x20_0000_0000_0000,
        u <= last_place(q, u),
    decreases 2 * q - u * 0x20_0000_0000_0000,
{
    lemma_pow2_pos(e);
    lemma_pow2_unfold(e + 1);
    if q >= u * 0x20_0000_0000_0000 {
        if p < u * 0x20_0000_0000_0000 {
            lemma_last_place_monotonic(q, q, 2 * u, e + 1);
        } else {
            lemma_last_place_monotonic(p, q, 2 * u, e + 1);
        }
    }
}

/// The rounding to 53 significant binary digits keeps order.
proof fn lemma_to_53_bits_monotonic(p: nat, q: nat)
    requires
        p <= q,
    ensures
        to_53_bits(p) <= to_53_bits(q),
{
    vstd::arithmetic::power2::lemma2_to64();
    lemma_last_place_monotonic(p, q, 1, 0);
    lemma_last_place(p, 1, 0);
    lemma_last_place(q, 1, 0);
    let u = last_place(p, 1);
    let v = last_place(q, 1);
    if u == v {
        lemma_round_half_even_monotonic(p, q, u);
        assert(round_half_even(p, u) * u <= round_half_even(q, u) * u) by (nonlinear_arith)
            requires
                round_half_even(p, u) <= round_half_even(q, u),
        ;
    } else {
        lemma_round_half_even_monotonic(p, 0x20_0000_0000_0000 * u, u);
        vstd::arithmetic::div_mod::lemma_mod_multiples_basic(0x20_0000_0000_0000, u as int);
        vstd::arithmetic::div_mod::lemma_div_by_multiple(0x20_0000_0000_0000, u as int);
        lemma_round_half_even_monotonic(0x10_0000_0000_0000 * v, q, v);
        vstd::arithmetic::div_mod::lemma_mod_multiples_basic(0x10_0000_0000_0000, v as int);
        vstd::arithmetic::div_mod::lemma_div_by_multiple(0x10_0000_0000_0000, v as int);
        assert(round_half_even(p, u) * u <= 0x20_0000_0000_0000 * u) by (nonlinear_arith)
            requires
                round_half_even(p, u) <= 0x20_0000_0000_0000,
        ;
        assert(0x10_0000_0000_0000 * v <= round_half_even(q, v) * v) by (nonlinear_arith)
            requires
                0x10_0000_0000_0000 <= round_half_even(q, v),
        ;
    }
}

/// Scaling keeps order: of two lengths, the longer one takes no fewer pixels.
pub proof fn law_scaling_keeps_order(a: u32, b: u32, scale: SurfaceScale)
    requires
        a <= b,
        u32_fits(b, scale),
    ensures
        u32_fits(a, scale),
        u32_scaled(a, scale) <= u32_scaled(b, scale),
{
    match scale {
        SurfaceScale::FractionalScale(scale) => {
            if scale > 0 {
                vstd::arithmetic::power2::lemma2_to64();
                lemma_magnifier(scale as nat, 1, 0);
                let w = magnifier(scale as nat, 1);
                let m = round_half_even(scale as nat * w, 120);
                let p = a as nat * m;
                let q = b as nat * m;
                assert(p <= q) by (nonlinear_arith)
                    requires
                        p == a as nat * m,
                        q == b as nat * m,
                        a <= b,
                ;
                lemma_to_53_bits_monotonic(p, q);
                vstd::arithmetic::div_mod::lemma_div_is_ordered(
                    to_53_bits(p) as int,
                    to_53_bits(q) as int,
                    w as int,
                );
            }
        },
        SurfaceScale::BufferScale(scale) => {
            let factor = buffer_factor(scale);
            assert(0 <= a * factor <= b * factor) by (nonlinear_arith)
                requires
                    a <= b,
                    0 <= factor,
            ;
        },
    }
}

/// A signed length and its opposite take as many pixels, in opposite directions,
/// unless one of them is clipped or cannot be counted.
pub proof fn law_scaling_is_odd(a: i32, scale: SurfaceScale)
    requires
        i32::MIN < a,
        match scale {
            SurfaceScale::FractionalScale(scale) => fractional_product(
                if a >= 0 {
                    a as nat
                } else {
                    (-a) as nat
                },
                scale as nat,
            ) <= i32::MAX,
            SurfaceScale::BufferScale(scale) => i32::MIN < a * scale <= i32::MAX,
        },
    ensures
        i32_fits((-a) as i32, scale),
        i32_scaled((-a) as i32, scale) == -i32_scaled(a, scale),
{
    if let SurfaceScale::BufferScale(scale) = scale {
        assert((-a) * scale == -(a * scale)) by (nonlinear_arith);
    } else if let SurfaceScale::FractionalScale(scale) = scale {
        assert(fractional_product(0, scale as nat) == 0) by {
            if scale > 0 {
                vstd::arithmetic::power2::lemma2_to64();
                lemma_magnifier(scale as nat, 1, 0);
                let m = round_half_even(scale as nat * magnifier(scale as nat, 1), 120);
                assert(0 * m == 0);
                lemma_round_half_even(0, 1);
            }
        }
    }
}

/// A fractional scale whose steps come in fifteens is a number of eighths, of which
/// nothing is lost: a length at such a scale is the whole part of the exact value, as
/// long as that fits.
#[verifier::spinoff_prover]
pub proof fn law_eighths_scale_exactly(a: u32, scale: u32)
    requires
        scale % 15 == 0,
        a * scale <= 120 * u32::MAX,
    ensures
        u32_scaled(a, SurfaceScale::FractionalScale(scale)) == (a * scale) / 120,
{
    let a = a as nat;
    let n = (scale / 15) as nat;
    let scale = scale as nat;
    if n > 0 {
        let x = a * scale;
        assert(x == 15 * (a * n)) by (nonlinear_arith)
            requires
                x == a * scale,
                scale == 15 * n,
        ;
        vstd::arithmetic::power2::lemma2_to64();
        let e = lemma_magnifier(scale, 1, 0);
        lemma_fractional_product(a, scale);
        let w = magnifier(scale, 1);
        assert(w > 8) by (nonlinear_arith)
            requires
                120 * 0x10_0000_0000_0000 <= scale * w,
                scale <= u32::MAX,
        ;
        if e < 3 {
            lemma_pow2_strictly_increases(e, 3);
        }
        lemma_pow2_adds(3, (e - 3) as nat);
        let v = pow2((e - 3) as nat);
        assert(scale * w == 120 * (n * v)) by (nonlinear_arith)
            requires
                scale == 15 * n,
                w == 8 * v,
        ;
        lemma_round_half_even(scale * w, 120);
        let m = round_half_even(scale * w, 120);
        assert(m == n * v);
        let p = a * m;
        assert(p == (a * n) * v) by (nonlinear_arith)
            requires
                p == a * m,
                m == n * v,
        ;
        let f = lemma_last_place(p, 1, 0);
        let u = last_place(p, 1);
        lemma_pow2_pos((e - 3) as nat);
        if f > e - 3 {
            lemma_pow2_strictly_increases((e - 3) as nat, f);
            lemma_pow2_unfold(f);
            if f > e - 2 {
                lemma_pow2_strictly_increases((e - 2) as nat, f);
            }
            lemma_pow2_unfold((e - 2) as nat);
            assert(p >= 2 * v * 0x10_0000_0000_0000);
            assert(a * n >= 2 * 0x10_0000_0000_0000) by (nonlinear_arith)
                requires
                    p == (a * n) * v,
                    p >= 2 * v * 0x10_0000_0000_0000,
                    v > 0,
            ;
            assert(false);
        }
        lemma_pow2_adds(f, (e - 3 - f) as nat);
        let k = pow2((e - 3 - f) as nat);
        assert(p == (a * n * k) * u) by (nonlinear_arith)
            requires
                p == (a * n) * v,
                v == u * k,
        ;
        vstd::arithmetic::div_mod::lemma_mod_multiples_basic((a * n * k) as int, u as int);
        lemma_round_half_even(p, u);
        assert(to_53_bits(p) == p);
        assert(p == v * (a * n)) by (nonlinear_arith)
            requires
                p == (a * n) * v,
        ;
        vstd::arithmetic::div_mod::lemma_div_multiples_vanish((a * n) as int, v as int);
        vstd::arithmetic::div_mod::lemma_div_denominator(p as int, v as int, 8);
        assert(v * 8 == w);
        assert(p / w == (a * n) / 8);
        assert(fractional_product(a, scale) == p / w);
        assert(x / 120 == (a * n) / 8);
    } else {
        assert(scale == 0);
        assert(a * scale == 0) by (nonlinear_arith)
            requires
                scale == 0,
        ;
    }
}

/// A length times a scale. At a whole scale it is the exact product, where a scale below
/// zero counts as the unsigned number with its bits. At a fractional scale it is the
/// whole part of the exact value or, where that is a whole number, at most one less; and
/// it is exact where the scale is a number of eighths. It is clipped where it does not
/// fit.
pub proof fn law_a_length_is_multiplied(a: u32, scale: SurfaceScale, r: u32)
    requires
        call_ensures(<u32 as core::ops::Mul<SurfaceScale>>::mul, (a, scale), r),
    ensures
        match scale {
            SurfaceScale::BufferScale(factor) => {
                &&& factor >= 0 && a * factor <= u32::MAX ==> r == a * factor
                &&& factor < 0 && a * (factor + 0x1_0000_0000) <= u32::MAX ==> r == a * (factor
                    + 0x1_0000_0000)
            },
            SurfaceScale::FractionalScale(steps) => if a * steps <= 120 * u32::MAX {
                &&& 120 * r <= a * steps <= 120 * r + 120
                &&& (a * steps) % 120 != 0 ==> r == (a * steps) / 120
                &&& steps % 15 == 0 ==> r == (a * steps) / 120
            } else {
                r == u32::MAX
            },
        },
{
    if let SurfaceScale::FractionalScale(steps) = scale {
        law_fractional_scale_is_exact_to_the_pixel(a, steps);
        if steps % 15 == 0 && a * steps <= 120 * u32::MAX {
            law_eighths_scale_exactly(a, steps);
        }
    } else if let SurfaceScale::BufferScale(factor) = scale {
        assert(a * (if factor >= 0 {
            factor as int
        } else {
            factor + 0x1_0000_0000
        }) >= 0) by (nonlinear_arith);
    }
}

/// A signed length times a scale: the exact product at a whole scale, and at a
/// fractional one the exact value with its fraction dropped, or one nearer to zero where
/// that is a whole number. It is clipped at the end that it passes.
pub proof fn law_a_signed_length_is_multiplied(a: i32, scale: SurfaceScale, r: i32)
    requires
        call_ensures(<i32 as core::ops::Mul<SurfaceScale>>::mul, (a, scale), r),
    ensures
        match scale {
            SurfaceScale::BufferScale(factor) => i32::MIN <= a * factor <= i32::MAX ==> r == a
                * factor,
            SurfaceScale::FractionalScale(steps) => if a * steps > 120 * i32::MAX {
                r == i32::MAX
            } else if a * steps < 120 * i32::MIN {
                r == i32::MIN
            } else if a >= 0 {
                &&& 120 * r <= a * steps <= 120 * r + 120
                &&& (a * steps) % 120 != 0 ==> r == (a * steps) / 120
            } else {
                &&& 120 * r - 120 <= a * steps <= 120 * r
                &&& (a * steps) % 120 != 0 ==> r == -((-(a * steps)) / 120)
            },
        },
{
    if let SurfaceScale::FractionalScale(steps) = scale {
        law_signed_fractional_scale_is_exact_to_the_pixel(a, steps);
    }
}

/// A length that is not below zero takes as many pixels signed as unsigned, where both
/// can be counted.
pub proof fn law_signed_and_unsigned_lengths_agree(
    a: i32,
    scale: SurfaceScale,
    signed: i32,
    unsigned: u32,
)
    requires
        0 <= a,
        scale matches SurfaceScale::BufferScale(factor) ==> 0 <= a * factor <= i32::MAX && 0
            <= factor,
        call_ensures(<i32 as core::ops::Mul<SurfaceScale>>::mul, (a, scale), signed),
        call_ensures(<u32 as core::ops::Mul<SurfaceScale>>::mul, (a as u32, scale), unsigned),
    ensures
        unsigned <= i32::MAX ==> signed == unsigned,
        unsigned > i32::MAX ==> signed == i32::MAX,
{
}

/// A length can be multiplied by every fractional scale, and by a whole one exactly when
/// the product can be counted.
pub proof fn law_what_can_be_counted_fits(scale: SurfaceScale, a: u32, r: bool)
    requires
        call_ensures(SurfaceScale::fits, (scale, a), r),
    ensures
        match scale {
            SurfaceScale::FractionalScale(_) => r,
            SurfaceScale::BufferScale(factor) => if factor >= 0 {
                r <==> a * factor <= u32::MAX
            } else {
                r <==> a * (factor + 0x1_0000_0000) <= u32::MAX
            },
        },
{
}

/// The ratio of a scale says how many pixels a length takes: times its denominator they
/// come within one pixel of the length times its numerator.
pub proof fn law_the_ratio_is_that_of_pixels_to_units(
    scale: SurfaceScale,
    ratio: (i64, u32),
    a: u32,
    pixels: u32,
)
    requires
        call_ensures(SurfaceScale::ratio, (scale,), ratio),
        call_ensures(<u32 as core::ops::Mul<SurfaceScale>>::mul, (a, scale), pixels),
    ensures
        ratio.1 == match scale {
            SurfaceScale::FractionalScale(_) => 120int,
            SurfaceScale::BufferScale(_) => 1int,
        },
        ratio.0 == match scale {
            SurfaceScale::FractionalScale(steps) => steps as int,
            SurfaceScale::BufferScale(factor) => factor as int,
        },
        0 <= ratio.0 && a * ratio.0 <= ratio.1 * u32::MAX ==> ratio.1 * pixels <= a * ratio.0
            <= ratio.1 * pixels + ratio.1,
        scale is BufferScale && 0 <= ratio.0 && a * ratio.0 <= u32::MAX ==> pixels == a * ratio.0,
{
    law_a_length_is_multiplied(a, scale, pixels);
}

/// Rounding goes to the nearest integer, and to the even one of two equally near ones.
proof fn lemma_round_half_even_is_nearest(n: nat, d: nat)
    requires
        d > 0,
    ensures
        2 * n - d <= 2 * (round_half_even(n, d) * d) <= 2 * n + d,
        2 * (round_half_even(n, d) * d) == 2 * n - d || 2 * (round_half_even(n, d) * d) == 2 * n + d
            ==> round_half_even(n, d) % 2 == 0,
{
    let q = n / d;
    vstd::arithmetic::div_mod::lemma_fundamental_div_mod(n as int, d as int);
    assert(d * q == q * d) by (nonlinear_arith);
    assert((q + 1) * d == q * d + d) by (nonlinear_arith);
}

/// The last place of a number is the smallest power of two of which it holds fewer than
/// `2^53`.
proof fn lemma_last_place_bounds(p: nat, u: nat, e: nat)
    requires
        u == pow2(e),
    ensures
        p < last_place(p, u) * 0x20_0000_0000_0000,
    decreases 2 * p - u * 0x20_0000_0000_0000,
{
    lemma_pow2_pos(e);
    if p >= u * 0x20_0000_0000_0000 {
        lemma_pow2_unfold(e + 1);
        lemma_last_place_bounds(p, 2 * u, e + 1);
    }
}

/// A length times a fractional scale is rounded as double-precision numbers are. There are
/// two powers of two, `2^e` and `2^f`, with which it can be told: the quotient of the scale
/// by 120, times `2^e`, has 53 binary digits before the point, and `m` is the integer nearest
/// to it, the even one of two; the length times `m` has at most 53 such digits when divided
/// by `2^f`, and no fewer unless `2^f` is one, and `q` is the integer nearest to that, the
/// even one of two. The result is the whole part of `q * 2^f / 2^e`, if it fits, and the
/// largest number else.
pub proof fn law_a_fractional_product_is_rounded_twice(a: u32, steps: u32, r: u32) -> (found: (
    nat,
    nat,
    nat,
    nat,
))
    requires
        steps > 0,
        call_ensures(
            <u32 as core::ops::Mul<SurfaceScale>>::mul,
            (a, SurfaceScale::FractionalScale(steps)),
            r,
        ),
    ensures
        ({
            let (e, m, f, q) = found;
            let n = steps * pow2(e);
            let p = a * m;
            &&& 120 * 0x10_0000_0000_0000 <= n < 240 * 0x10_0000_0000_0000
            &&& 2 * n - 120 <= 2 * (m * 120) <= 2 * n + 120
            &&& 2 * (m * 120) == 2 * n - 120 || 2 * (m * 120) == 2 * n + 120 ==> m % 2 == 0
            &&& p < pow2(f) * 0x20_0000_0000_0000
            &&& pow2(f) == 1 || p >= pow2(f) * 0x10_0000_0000_0000
            &&& 2 * p - pow2(f) <= 2 * (q * pow2(f)) <= 2 * p + pow2(f)
            &&& 2 * (q * pow2(f)) == 2 * p - pow2(f) || 2 * (q * pow2(f)) == 2 * p + pow2(f) ==> q
                % 2 == 0
            &&& (q * pow2(f)) / pow2(e) <= u32::MAX ==> r == (q * pow2(f)) / pow2(e)
            &&& (q * pow2(f)) / pow2(e) > u32::MAX ==> r == u32::MAX
        }),
{
    vstd::arithmetic::power2::lemma2_to64();
    let e = lemma_magnifier(steps as nat, 1, 0);
    let n = steps as nat * pow2(e);
    let m = round_half_even(n, 120);
    lemma_round_half_even_is_nearest(n, 120);
    let p = a as nat * m;
    let f = lemma_last_place(p, 1, 0);
    lemma_last_place_bounds(p, 1, 0);
    let q = round_half_even(p, pow2(f));
    lemma_pow2_pos(f);
    lemma_round_half_even_is_nearest(p, pow2(f));
    assert(a * m == p);
    (e, m, f, q)
}

/// At a scale of zero nothing is left of a length.
pub proof fn law_nothing_is_left_at_zero(a: u32, scale: SurfaceScale, r: u32)
    requires
        scale == SurfaceScale::FractionalScale(0) || scale == SurfaceScale::BufferScale(0),
        call_ensures(<u32 as core::ops::Mul<SurfaceScale>>::mul, (a, scale), r),
    ensures
        r == 0,
{
    assert(a * 0 == 0);
}

/// A length and its opposite take as many pixels, in opposite directions, as long as these
/// can be counted in both.
pub proof fn law_opposite_lengths_take_as_many_pixels(
    a: i32,
    scale: SurfaceScale,
    there: i32,
    back: i32,
)
    requires
        0 <= a,
        scale matches SurfaceScale::BufferScale(factor) ==> i32::MIN < a * factor <= i32::MAX,
        call_ensures(<i32 as core::ops::Mul<SurfaceScale>>::mul, (a, scale), there),
        call_ensures(<i32 as core::ops::Mul<SurfaceScale>>::mul, ((-a) as i32, scale), back),
    ensures
        there < i32::MAX ==> back == -there,
{
    match scale {
        SurfaceScale::FractionalScale(steps) => {
            if there < i32::MAX {
                law_scaling_is_odd(a, scale);
            }
        },
        SurfaceScale::BufferScale(factor) => {
            law_scaling_is_odd(a, scale);
        },
    }
}

} // verus!
