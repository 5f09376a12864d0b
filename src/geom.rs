use vstd::prelude::*;

verus! {

/// Largest value that `ceil_sqrt` accepts: the square of `u64::MAX`.
pub const MAX_SQUARE: u128 = 340282366920938463426481119284349108225;

/// Largest length that `rescale` scales a vector to.
pub const MAX_SCALE: i64 = 0x4000_0000_0000_0000;

/// `r` is the least natural number whose square is at least `n`.
pub open spec fn is_ceil_sqrt(n: nat, r: nat) -> bool {
    r * r >= n && (r == 0 || (r - 1) * (r - 1) < n)
}

/// The least natural number whose square is at least `n`.
pub open spec fn csqrt(n: nat) -> nat {
    choose|r: nat| is_ceil_sqrt(n, r)
}

/// `d` scaled to length `l`: each coordinate is multiplied by `l` and divided
/// by the length of `d` rounded up, then rounded toward zero.
pub open spec fn rescaled(d: Vec2i, l: int) -> Vec2i {
    let c = csqrt(d.norm_sq() as nat) as int;
    Vec2i { x: trunc_div(d.x * l, c) as i64, y: trunc_div(d.y * l, c) as i64 }
}

proof fn lemma_csqrt_unique(n: nat, r: nat)
    requires
        is_ceil_sqrt(n, r),
    ensures
        csqrt(n) == r,
{
    let c = csqrt(n);
    assert(is_ceil_sqrt(n, c));
    if c < r {
        assert(c * c <= (r - 1) * (r - 1)) by (nonlinear_arith)
            requires
                c <= r - 1,
                c >= 0,
        ;
    } else if r < c {
        assert(r * r <= (c - 1) * (c - 1)) by (nonlinear_arith)
            requires
                r <= c - 1,
                r >= 0,
        ;
    }
}

/// Every natural number has a least square root rounded up.
pub proof fn lemma_csqrt_exists(n: nat)
    ensures
        is_ceil_sqrt(n, csqrt(n)),
    decreases n,
{
    let r = ceil_sqrt_witness(n);
    assert(is_ceil_sqrt(n, r));
}

proof fn ceil_sqrt_witness(n: nat) -> (r: nat)
    ensures
        is_ceil_sqrt(n, r),
    decreases n,
{
    if n == 0 {
        0
    } else {
        let p = ceil_sqrt_witness((n - 1) as nat);
        if p * p >= n {
            p
        } else {
            assert((p + 1) * (p + 1) >= n) by (nonlinear_arith)
                requires
                    p * p >= n - 1,
                    p >= 0,
            ;
            p + 1
        }
    }
}

/// A nonzero vector scaled to length `l` is no longer than `l`.
pub proof fn lemma_rescaled_spec_norm(d: Vec2i, l: int)
    requires
        !d.is_zero(),
        0 <= l <= i64::MAX,
    ensures
        rescaled(d, l).norm_sq() <= l * l,
{
    let n = d.norm_sq() as nat;
    assert(d.x * d.x + d.y * d.y > 0) by (nonlinear_arith)
        requires
            d.x != 0 || d.y != 0,
    ;
    lemma_csqrt_exists(n);
    let c = csqrt(n);
    assert(c > 0) by (nonlinear_arith)
        requires
            c * c >= n,
            n > 0,
    ;
    let qx = trunc_div(d.x * l, c as int);
    let qy = trunc_div(d.y * l, c as int);
    lemma_trunc_div_bound(d.x * l, c as int);
    lemma_trunc_div_bound(d.y * l, c as int);
    lemma_coord_le_ceil_sqrt(d.x as int, d.y as int, n, c);
    lemma_coord_le_ceil_sqrt(d.y as int, d.x as int, n, c);
    lemma_quotient_le(qx, d.x as int, l, c as int);
    lemma_quotient_le(qy, d.y as int, l, c as int);
    let r = rescaled(d, l);
    assert(d.is_rescaled(l, r));
    lemma_rescaled_norm(d, l, r);
}

/// Division of `a` by a positive `b`, rounded toward zero (as Rust's `/` does).
pub open spec fn trunc_div(a: int, b: int) -> int {
    if a >= 0 {
        a / b
    } else {
        -((-a) / b)
    }
}

pub open spec fn abs(a: int) -> int {
    if a >= 0 {
        a
    } else {
        -a
    }
}

/// The least `r` with `r * r >= n`, found by bisection.
pub fn ceil_sqrt(n: u128) -> (r: u128)
    requires
        n <= MAX_SQUARE,
    ensures
        is_ceil_sqrt(n as nat, r as nat),
        r <= u64::MAX,
{
    let mut lo: u128 = 0;
    let mut hi: u128 = 18446744073709551615;
    assert(hi * hi == MAX_SQUARE) by (nonlinear_arith)
        requires
            hi == 18446744073709551615u128,
    ;
    while lo < hi
        invariant
            lo <= hi <= u64::MAX,
            hi * hi >= n,
            lo == 0 || (lo - 1) * (lo - 1) < n,
        decreases hi - lo,
    {
        let mid: u128 = lo + (hi - lo) / 2;
        assert(mid * mid <= hi * hi <= MAX_SQUARE) by (nonlinear_arith)
            requires
                mid <= hi,
                hi <= 18446744073709551615u128,
        ;
        if mid * mid >= n {
            hi = mid;
        } else {
            lo = mid + 1;
        }
    }
    lo
}

/// A plane vector with integer coordinates.
#[derive(Clone, Copy, Debug, PartialEq, Eq, Structural)]
pub struct Vec2i {
    pub x: i64,
    pub y: i64,
}

impl Vec2i {
    pub open spec fn norm_sq(self) -> int {
        self.x * self.x + self.y * self.y
    }

    pub open spec fn is_zero(self) -> bool {
        self.x == 0 && self.y == 0
    }

    /// Both coordinates have an absolute value of at most `b`.
    pub open spec fn within(self, b: int) -> bool {
        -b <= self.x <= b && -b <= self.y <= b
    }

    /// This vector, scaled to length `l` with the length rounded up, and each
    /// coordinate then rounded toward zero.
    pub open spec fn is_rescaled(self, l: int, r: Vec2i) -> bool {
        exists|c: nat|
            c > 0 && #[trigger] is_ceil_sqrt(self.norm_sq() as nat, c) && r.x == trunc_div(
                self.x * l,
                c as int,
            ) && r.y == trunc_div(self.y * l, c as int)
    }
}

pub fn vec2(x: i64, y: i64) -> (r: Vec2i)
    ensures
        r.x == x,
        r.y == y,
{
    Vec2i { x, y }
}

proof fn lemma_trunc_div_bound(a: int, b: int)
    requires
        b > 0,
    ensures
        abs(trunc_div(a, b)) * b <= abs(a),
{
    assert(abs(a) / b * b <= abs(a)) by (nonlinear_arith)
        requires
            b > 0,
    ;
    if a < 0 {
        assert(trunc_div(a, b) == -((-a) / b));
        assert((-a) / b >= 0) by (nonlinear_arith)
            requires
                b > 0,
                -a > 0,
        ;
    } else {
        assert(a / b >= 0) by (nonlinear_arith)
            requires
                b > 0,
                a >= 0,
        ;
    }
}

/// A vector scaled to length `l` with its length rounded up is no longer than `l`.
pub proof fn lemma_rescaled_norm(d: Vec2i, l: int, r: Vec2i)
    requires
        l >= 0,
        d.is_rescaled(l, r),
    ensures
        r.norm_sq() <= l * l,
{
    let c = choose|c: nat|
        c > 0 && #[trigger] is_ceil_sqrt(d.norm_sq() as nat, c) && r.x == trunc_div(d.x * l, c as int)
            && r.y == trunc_div(d.y * l, c as int);
    let ci = c as int;
    lemma_trunc_div_bound(d.x * l, ci);
    lemma_trunc_div_bound(d.y * l, ci);
    let qx = abs(r.x as int);
    let qy = abs(r.y as int);
    let ax = abs(d.x as int);
    let ay = abs(d.y as int);
    assert(abs(d.x * l) == ax * l) by (nonlinear_arith)
        requires
            l >= 0,
            ax == abs(d.x as int),
    ;
    assert(abs(d.y * l) == ay * l) by (nonlinear_arith)
        requires
            l >= 0,
            ay == abs(d.y as int),
    ;
    assert(qx * qx * (ci * ci) <= ax * ax * (l * l)) by (nonlinear_arith)
        requires
            0 <= qx * ci <= ax * l,
            qx >= 0,
            ci > 0,
    ;
    assert(qy * qy * (ci * ci) <= ay * ay * (l * l)) by (nonlinear_arith)
        requires
            0 <= qy * ci <= ay * l,
            qy >= 0,
            ci > 0,
    ;
    assert(ax * ax + ay * ay == d.norm_sq()) by (nonlinear_arith)
        requires
            ax == abs(d.x as int),
            ay == abs(d.y as int),
    ;
    assert(qx * qx + qy * qy == r.norm_sq()) by (nonlinear_arith)
        requires
            qx == abs(r.x as int),
            qy == abs(r.y as int),
    ;
    let c2 = ci * ci;
    let l2 = l * l;
    assert((qx * qx + qy * qy) * c2 == qx * qx * c2 + qy * qy * c2) by (nonlinear_arith);
    assert(ax * ax * l2 + ay * ay * l2 == (ax * ax + ay * ay) * l2) by (nonlinear_arith);
    assert((ax * ax + ay * ay) * l2 <= c2 * l2) by (nonlinear_arith)
        requires
            ax * ax + ay * ay <= c2,
            l2 >= 0,
    ;
    assert((qx * qx + qy * qy) * (ci * ci) <= (ci * ci) * (l * l));
    assert(qx * qx + qy * qy <= l * l) by (nonlinear_arith)
        requires
            (qx * qx + qy * qy) * (ci * ci) <= (ci * ci) * (l * l),
            ci > 0,
    ;
}

/// A vector whose squared length is at most `l * l` has coordinates within `l`.
pub proof fn lemma_norm_bounds_coords(v: Vec2i, l: int)
    requires
        l >= 0,
        v.norm_sq() <= l * l,
    ensures
        v.within(l),
{
    assert(v.x * v.x <= l * l && v.y * v.y <= l * l) by (nonlinear_arith)
        requires
            v.x * v.x + v.y * v.y <= l * l,
    ;
    assert(abs(v.x as int) <= l) by (nonlinear_arith)
        requires
            v.x * v.x <= l * l,
            l >= 0,
    ;
    assert(abs(v.y as int) <= l) by (nonlinear_arith)
        requires
            v.y * v.y <= l * l,
            l >= 0,
    ;
}

fn trunc_div_i128(a: i128, b: i128) -> (r: i128)
    requires
        b > 0,
        a > i128::MIN,
    ensures
        r == trunc_div(a as int, b as int),
{
    if a >= 0 {
        a / b
    } else {
        let m: i128 = -a;
        assert(m / b <= m) by (nonlinear_arith)
            requires
                b > 0,
                m > 0,
        ;
        -(m / b)
    }
}

/// Scales a nonzero vector to length `l`: each coordinate is multiplied by `l`
/// and divided by the length rounded up, then rounded toward zero.
pub fn rescale(d: Vec2i, l: i64) -> (r: Vec2i)
    requires
        !d.is_zero(),
        d.within(i64::MAX as int),
        0 <= l <= MAX_SCALE,
    ensures
        r == rescaled(d, l as int),
        r.norm_sq() <= l * l,
        r.within(l as int),
{
    let x = d.x as i128;
    let y = d.y as i128;
    assert(x * x <= 85070591730234615847396907784232501249) by (nonlinear_arith)
        requires
            -9223372036854775807 <= x <= 9223372036854775807,
    ;
    assert(y * y <= 85070591730234615847396907784232501249) by (nonlinear_arith)
        requires
            -9223372036854775807 <= y <= 9223372036854775807,
    ;
    assert(x * x >= 0 && y * y >= 0 && x * x + y * y > 0) by (nonlinear_arith)
        requires
            x != 0 || y != 0,
    ;
    let n: u128 = (x * x) as u128 + (y * y) as u128;
    let c = ceil_sqrt(n);
    assert(c > 0) by (nonlinear_arith)
        requires
            c * c >= n,
            n > 0,
    ;
    let li = l as i128;
    assert(-9223372036854775807 * 4611686018427387904 <= x * li <= 9223372036854775807
        * 4611686018427387904) by (nonlinear_arith)
        requires
            -9223372036854775807 <= x <= 9223372036854775807,
            0 <= li <= 4611686018427387904,
    ;
    assert(-9223372036854775807 * 4611686018427387904 <= y * li <= 9223372036854775807
        * 4611686018427387904) by (nonlinear_arith)
        requires
            -9223372036854775807 <= y <= 9223372036854775807,
            0 <= li <= 4611686018427387904,
    ;
    let rx = trunc_div_i128(x * li, c as i128);
    let ry = trunc_div_i128(y * li, c as i128);
    proof {
        lemma_trunc_div_bound(x * li, c as int);
        lemma_trunc_div_bound(y * li, c as int);
        lemma_coord_le_ceil_sqrt(x as int, y as int, n as nat, c as nat);
        lemma_coord_le_ceil_sqrt(y as int, x as int, n as nat, c as nat);
        lemma_quotient_le(rx as int, x as int, li as int, c as int);
        lemma_quotient_le(ry as int, y as int, li as int, c as int);
    }
    let r = Vec2i { x: rx as i64, y: ry as i64 };
    assert(is_ceil_sqrt(d.norm_sq() as nat, c as nat));
    assert(d.is_rescaled(l as int, r));
    proof {
        lemma_rescaled_norm(d, l as int, r);
        lemma_csqrt_unique(n as nat, c as nat);
    }
    r
}

proof fn lemma_coord_le_ceil_sqrt(a: int, b: int, n: nat, c: nat)
    requires
        n == a * a + b * b,
        c * c >= n,
    ensures
        abs(a) <= c,
{
    assert(abs(a) <= c) by (nonlinear_arith)
        requires
            a * a + b * b <= c * c,
            c >= 0,
    ;
}

proof fn lemma_quotient_le(q: int, a: int, l: int, c: int)
    requires
        c > 0,
        l >= 0,
        abs(a) <= c,
        abs(q) * c <= abs(a * l),
    ensures
        abs(q) <= l,
{
    assert(abs(a * l) == abs(a) * l) by (nonlinear_arith)
        requires
            l >= 0,
    ;
    assert(abs(q) <= l) by (nonlinear_arith)
        requires
            abs(q) * c <= abs(a) * l,
            abs(a) <= c,
            c > 0,
            l >= 0,
            abs(q) >= 0,
    ;
}

} // verus!
