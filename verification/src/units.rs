//! Fixed-point coordinate units and the integer square root.
//!
//! One pixel is `POS_SCALE` position units and one pixel per second is
//! `SPEED_SCALE` speed units.  The simulation runs at `TICK_RATE` ticks per
//! second, and `POS_SCALE == SPEED_SCALE * TICK_RATE`, so advancing a
//! position by one tick of a velocity is the exact addition of the speed
//! value to the position value.

use vstd::prelude::*;

verus! {

/// Position units per pixel.
pub const POS_SCALE: i64 = 60000;

/// Speed units per pixel-per-second.
pub const SPEED_SCALE: i64 = 1000;

/// Simulation ticks per second.
pub const TICK_RATE: i64 = 60;

/// Tiles are squares of this many pixels.
pub const TILE_PIXELS: i64 = 32;

/// `r` is the least natural number whose square is at least `n`.
pub open spec fn is_sqrt_ceil(n: nat, r: nat) -> bool {
    r * r >= n && (r > 0 ==> (r - 1) * (r - 1) < n)
}

/// The least `r` with `r * r >= n` — the rounded-up square root.
pub open spec fn sqrt_ceil(n: nat) -> nat {
    choose|r: nat| is_sqrt_ceil(n, r)
}

/// The chosen witness is the unique one: any `r` satisfying the
/// characterisation equals `sqrt_ceil(n)`.
pub proof fn lemma_sqrt_ceil(n: nat, r: nat)
    requires
        is_sqrt_ceil(n, r),
    ensures
        sqrt_ceil(n) == r,
{
    assert(is_sqrt_ceil(n, sqrt_ceil(n))) by {
        assert(exists|w: nat| is_sqrt_ceil(n, w));
    }
    lemma_sqrt_ceil_unique(n, sqrt_ceil(n), r);
}

/// A coordinate clamped into `[0, bound]`.
pub open spec fn clamped(v: int, bound: int) -> int {
    if v < 0 {
        0
    } else if v > bound {
        bound
    } else {
        v
    }
}

/// A component scaled by `speed / s` and rounded toward zero, keeping
/// its sign.
pub open spec fn signed_scale(a: int, speed: int, s: int) -> int {
    if a >= 0 {
        (a * speed * 1000) / s
    } else {
        -(((-a) * speed * 1000) / s)
    }
}

pub proof fn lemma_sqrt_ceil_unique(n: nat, r1: nat, r2: nat)
    requires
        is_sqrt_ceil(n, r1),
        is_sqrt_ceil(n, r2),
    ensures
        r1 == r2,
{
    if r1 < r2 {
        assert(r1 * r1 < n) by {
            assert(r1 <= r2 - 1);
            assert(r1 * r1 <= (r2 - 1) * (r2 - 1)) by (nonlinear_arith)
                requires r1 <= r2 - 1;
        }
    }
    if r2 < r1 {
        assert(r2 * r2 < n) by {
            assert(r2 <= r1 - 1);
            assert(r2 * r2 <= (r1 - 1) * (r1 - 1)) by (nonlinear_arith)
                requires r2 <= r1 - 1;
        }
    }
}

/// Rounded-up integer square root by bisection: the least `r` with
/// `r * r >= n`.
pub fn isqrt_ceil(n: u64) -> (r: u64)
    requires
        n <= 0x4000_0000_0000_0000,
    ensures
        r * r >= n,
        r > 0 ==> (r - 1) * (r - 1) < n,
        is_sqrt_ceil(n as nat, r as nat),
        r <= 0x8000_0000,
{
    if n == 0 {
        return 0;
    }
    // Invariant: lo * lo < n <= hi * hi.
    let mut lo: u64 = 0;
    let mut hi: u64 = 0x8000_0000;
    assert(hi * hi >= n);
    while lo + 1 < hi
        invariant
            lo < hi,
            hi <= 0x8000_0000,
            lo * lo < n,
            n <= hi * hi,
        decreases hi - lo,
    {
        let mid: u64 = lo + (hi - lo) / 2;
        assert(lo < mid < hi);
        assert(mid * mid <= 0x4000_0000_0000_0000) by (nonlinear_arith)
            requires mid <= 0x8000_0000;
        if mid * mid >= n {
            hi = mid;
        } else {
            lo = mid;
        }
    }
    assert(hi - 1 == lo);
    hi
}

/// Largest magnitude of a movement-input component, in thousandths.
pub const INPUT_SCALE: i64 = 1000;

/// Largest speed the library accepts, in speed units (1000 pixels per
/// second).
pub const SPEED_LIMIT: i64 = 1_000_000;

/// One normalized velocity component: the input component scaled so that
/// the whole vector has magnitude `speed`, rounded toward zero.
fn scale_component(a: i64, s: u64, speed: i64) -> (v: i64)
    requires
        0 <= a <= INPUT_SCALE,
        0 <= speed <= SPEED_LIMIT,
        1000 <= s <= 2_000_000,
        s * s >= a * a * 1_000_000,
    ensures
        v == (a * speed * 1000) / (s as int),
        0 <= v <= speed,
        v * (s as int) <= a * speed * 1000 < (v + 1) * (s as int),
{
    let si: i64 = s as i64;
    proof {
        assert(a * speed * 1000 <= 1_000_000_000_000) by (nonlinear_arith)
            requires 0 <= a <= 1000, 0 <= speed <= 1_000_000;
    }
    let num: i64 = a * speed * 1000;
    let v: i64 = num / si;
    proof {
        assert(s >= 1000 * a) by (nonlinear_arith)
            requires s * s >= a * a * 1_000_000, s >= 0, a >= 0;
        assert(num <= speed * si) by (nonlinear_arith)
            requires num == a * speed * 1000, si >= 1000 * a, speed >= 0, a >= 0;
        vstd::arithmetic::div_mod::lemma_fundamental_div_mod(num as int, si as int);
        vstd::arithmetic::div_mod::lemma_mod_bound(num as int, si as int);
        let qq: int = num as int / (si as int);
        let rr: int = num as int % (si as int);
        assert(num == si * qq + rr);
        assert(0 <= rr);
        assert(rr < si);
        assert(v == qq);
        assert(v * si <= num < (v + 1) * si) by (nonlinear_arith)
            requires
                num == si * (v as int) + rr,
                0 <= rr,
                rr < si,
        ;
        assert(v <= speed) by (nonlinear_arith)
            requires v * si <= num, num <= speed * si, si >= 1000, v >= 0;
        assert(v >= 0) by (nonlinear_arith)
            requires (v + 1) * si > num, v * si <= num, num >= 0, si >= 1000;
    }
    v
}

/// Scale a movement input `(ix, iy)` (components in `[-1000, 1000]`,
/// thousandths of a unit vector) to a velocity of magnitude `speed`.
///
/// A zero input yields zero velocity.  An axis-aligned input yields the
/// full speed on that axis exactly, and every input yields a velocity
/// whose squared magnitude is at most `speed * speed` and falls short of
/// it by at most a 1/500 relative error plus a constant — so diagonal
/// movement is as fast as axis-aligned movement up to rounding.
pub fn normalize_input(ix: i64, iy: i64, speed: i64) -> (v: (i64, i64))
    requires
        -INPUT_SCALE <= ix <= INPUT_SCALE,
        -INPUT_SCALE <= iy <= INPUT_SCALE,
        0 <= speed <= SPEED_LIMIT,
    ensures
        ix == 0 && iy == 0 ==> v.0 == 0 && v.1 == 0,
        -speed <= v.0 <= speed,
        -speed <= v.1 <= speed,
        v.0 * v.0 + v.1 * v.1 <= speed * speed,
        (ix != 0 || iy != 0) ==> v.0 * v.0 + v.1 * v.1
            > speed * speed - speed * speed / 500 - 4 * speed - 2,
        iy == 0 && ix > 0 ==> v.0 == speed && v.1 == 0,
        iy == 0 && ix < 0 ==> v.0 == -speed && v.1 == 0,
        ix == 0 && iy > 0 ==> v.0 == 0 && v.1 == speed,
        ix == 0 && iy < 0 ==> v.0 == 0 && v.1 == -speed,
        ix >= 0 ==> v.0 >= 0,
        ix <= 0 ==> v.0 <= 0,
        iy >= 0 ==> v.1 >= 0,
        iy <= 0 ==> v.1 <= 0,
        (ix != 0 || iy != 0) ==> ({
            let s = sqrt_ceil(((ix * ix + iy * iy) * 1_000_000) as nat) as int;
            v.0 == signed_scale(ix as int, speed as int, s)
                && v.1 == signed_scale(iy as int, speed as int, s)
        }),
    {
    if ix == 0 && iy == 0 {
        return (0, 0);
    }
    let ax: i64 = if ix >= 0 { ix } else { -ix };
    let ay: i64 = if iy >= 0 { iy } else { -iy };
    proof {
        assert(ax * ax <= 1_000_000 && ay * ay <= 1_000_000) by (nonlinear_arith)
            requires 0 <= ax <= 1000, 0 <= ay <= 1000;
    }
    let n2: i64 = ax * ax + ay * ay;
    let scaled: u64 = (n2 as u64) * 1_000_000;
    let s: u64 = isqrt_ceil(scaled);
    proof {
        assert(ax > 0 || ay > 0);
        assert(n2 >= 1) by (nonlinear_arith)
            requires n2 == ax * ax + ay * ay, ax >= 0, ay >= 0, ax > 0 || ay > 0;
        assert(s * s >= scaled);
        assert(s >= 1000) by (nonlinear_arith)
            requires s * s >= 1_000_000, s >= 0;
        assert(scaled <= 2_000_000_000_000);
        assert(s <= 2_000_000) by {
            if s > 2_000_000 {
                assert((s - 1) * (s - 1) >= 2_000_000 * 2_000_000) by (nonlinear_arith)
                    requires s - 1 >= 2_000_000;
            }
        }
        assert(s * s >= ax * ax * 1_000_000) by (nonlinear_arith)
            requires s * s >= (ax * ax + ay * ay) * 1_000_000, ay * ay >= 0;
        assert(s * s >= ay * ay * 1_000_000) by (nonlinear_arith)
            requires s * s >= (ax * ax + ay * ay) * 1_000_000, ax * ax >= 0;
    }
    let mvx: i64 = scale_component(ax, s, speed);
    let mvy: i64 = scale_component(ay, s, speed);
    proof {
        lemma_norm_bounds(ax as int, ay as int, speed as int, s as int, mvx as int, mvy as int);
        if ay == 0 {
            assert((1000 * ax) * (1000 * ax) == ax * ax * 1_000_000
                && (1000 * ax - 1) * (1000 * ax - 1) < ax * ax * 1_000_000) by (nonlinear_arith)
                requires ax >= 1;
            assert(is_sqrt_ceil(scaled as nat, (1000 * ax) as nat));
            lemma_sqrt_ceil_unique(scaled as nat, s as nat, (1000 * ax) as nat);
            assert(s == 1000 * ax);
            assert(ax * speed * 1000 == (1000 * ax) * speed) by (nonlinear_arith);
            vstd::arithmetic::div_mod::lemma_div_multiples_vanish(speed as int, (1000 * ax) as int);
            assert(mvx == speed);
        }
        if ax == 0 {
            assert((1000 * ay) * (1000 * ay) == ay * ay * 1_000_000
                && (1000 * ay - 1) * (1000 * ay - 1) < ay * ay * 1_000_000) by (nonlinear_arith)
                requires ay >= 1;
            assert(is_sqrt_ceil(scaled as nat, (1000 * ay) as nat));
            lemma_sqrt_ceil_unique(scaled as nat, s as nat, (1000 * ay) as nat);
            assert(s == 1000 * ay);
            assert(ay * speed * 1000 == (1000 * ay) * speed) by (nonlinear_arith);
            vstd::arithmetic::div_mod::lemma_div_multiples_vanish(speed as int, (1000 * ay) as int);
            assert(mvy == speed);
        }
    }
    let vx: i64 = if ix >= 0 { mvx } else { -mvx };
    let vy: i64 = if iy >= 0 { mvy } else { -mvy };
    proof {
        assert(vx * vx == mvx * mvx) by (nonlinear_arith)
            requires vx == mvx || vx == -mvx;
        assert(vy * vy == mvy * mvy) by (nonlinear_arith)
            requires vy == mvy || vy == -mvy;
        lemma_sqrt_ceil(scaled as nat, s as nat);
        assert(scaled == (ix * ix + iy * iy) * 1_000_000) by (nonlinear_arith)
            requires
                scaled == n2 * 1_000_000,
                n2 == ax * ax + ay * ay,
                ax == ix || ax == -ix,
                ay == iy || ay == -iy,
        ;
        assert(vx == signed_scale(ix as int, speed as int, s as int));
        assert(vy == signed_scale(iy as int, speed as int, s as int));
    }
    (vx, vy)
}

/// The two-sided magnitude bound behind `normalize_input`.
proof fn lemma_norm_bounds(ax: int, ay: int, speed: int, s: int, mvx: int, mvy: int)
    requires
        0 <= ax <= 1000,
        0 <= ay <= 1000,
        ax + ay > 0,
        0 <= speed <= 1_000_000,
        1000 <= s <= 2_000_000,
        s * s >= (ax * ax + ay * ay) * 1_000_000,
        (s - 1) * (s - 1) < (ax * ax + ay * ay) * 1_000_000,
        0 <= mvx <= speed,
        0 <= mvy <= speed,
        mvx * s <= ax * speed * 1000 < (mvx + 1) * s,
        mvy * s <= ay * speed * 1000 < (mvy + 1) * s,
    ensures
        mvx * mvx + mvy * mvy <= speed * speed,
        mvx * mvx + mvy * mvy > speed * speed - speed * speed / 500 - 4 * speed - 2,
{
    let n2 = ax * ax + ay * ay;
    // Upper bound: (mvx * s)^2 + (mvy * s)^2 <= n2e6 * speed^2 <= (s * speed)^2.
    assert(mvx * s * (mvx * s) <= (ax * speed * 1000) * (ax * speed * 1000)) by (nonlinear_arith)
        requires 0 <= mvx * s, mvx * s <= ax * speed * 1000;
    assert(mvy * s * (mvy * s) <= (ay * speed * 1000) * (ay * speed * 1000)) by (nonlinear_arith)
        requires 0 <= mvy * s, mvy * s <= ay * speed * 1000;
    assert((ax * speed * 1000) * (ax * speed * 1000) + (ay * speed * 1000) * (ay * speed * 1000)
        == n2 * 1_000_000 * (speed * speed)) by (nonlinear_arith)
        requires n2 == ax * ax + ay * ay;
    assert(n2 * 1_000_000 * (speed * speed) <= s * s * (speed * speed)) by (nonlinear_arith)
        requires n2 * 1_000_000 <= s * s, speed * speed >= 0;
    assert(mvx * s * (mvx * s) + mvy * s * (mvy * s) == (mvx * mvx + mvy * mvy) * (s * s))
        by (nonlinear_arith);
    assert(s * s * (speed * speed) == speed * speed * (s * s)) by (nonlinear_arith);
    assert(mvx * mvx + mvy * mvy <= speed * speed) by (nonlinear_arith)
        requires
            (mvx * mvx + mvy * mvy) * (s * s) <= speed * speed * (s * s),
            s * s > 0;
    // Lower bound: ((mvx + 1) * s)^2 + ((mvy + 1) * s)^2 > n2e6 * speed^2,
    // and n2e6 > (s - 1)^2 >= s^2 - 2 * s.
    assert(((mvx + 1) * s) * ((mvx + 1) * s) > (ax * speed * 1000) * (ax * speed * 1000))
        by (nonlinear_arith)
        requires (mvx + 1) * s > ax * speed * 1000, ax * speed * 1000 >= 0;
    assert(((mvy + 1) * s) * ((mvy + 1) * s) > (ay * speed * 1000) * (ay * speed * 1000))
        by (nonlinear_arith)
        requires (mvy + 1) * s > ay * speed * 1000, ay * speed * 1000 >= 0;
    assert(((mvx + 1) * s) * ((mvx + 1) * s) == ((mvx + 1) * (mvx + 1)) * (s * s))
        by (nonlinear_arith);
    assert(((mvy + 1) * s) * ((mvy + 1) * s) == ((mvy + 1) * (mvy + 1)) * (s * s))
        by (nonlinear_arith);
    assert(((mvx + 1) * (mvx + 1) + (mvy + 1) * (mvy + 1)) * (s * s)
        == ((mvx + 1) * (mvx + 1)) * (s * s) + ((mvy + 1) * (mvy + 1)) * (s * s))
        by (nonlinear_arith);
    assert(((mvx + 1) * (mvx + 1) + (mvy + 1) * (mvy + 1)) * (s * s)
        > n2 * 1_000_000 * (speed * speed));
    assert(n2 * 1_000_000 > s * s - 2 * s) by (nonlinear_arith)
        requires (s - 1) * (s - 1) < n2 * 1_000_000;
    assert(n2 * 1_000_000 * (speed * speed) >= (s * s - 2 * s) * (speed * speed))
        by (nonlinear_arith)
        requires n2 * 1_000_000 > s * s - 2 * s, speed * speed >= 0;
    // (s^2 - 2 s) * speed^2 = s^2 speed^2 - 2 s speed^2
    //   >= s^2 speed^2 - s^2 * (speed^2 / 500 + 1), since s >= 1000.
    assert(2 * s * (speed * speed) <= s * s * (speed * speed / 500 + 1)) by (nonlinear_arith)
        requires
            s >= 1000,
            speed * speed >= 0,
            500 * (speed * speed / 500) + 499 >= speed * speed,
            speed * speed / 500 >= 0,
    ;
    assert(500 * (speed * speed / 500) + 499 >= speed * speed) by {
        vstd::arithmetic::div_mod::lemma_fundamental_div_mod(speed * speed, 500);
        vstd::arithmetic::div_mod::lemma_mod_bound(speed * speed, 500);
    }
    assert(speed * speed / 500 >= 0) by {
        vstd::arithmetic::div_mod::lemma_div_pos_is_pos(speed * speed, 500);
    }
    assert((s * s - 2 * s) * (speed * speed)
        >= (speed * speed - speed * speed / 500 - 1) * (s * s)) by (nonlinear_arith)
        requires
            2 * s * (speed * speed) <= s * s * (speed * speed / 500 + 1),
    ;
    assert((mvx + 1) * (mvx + 1) + (mvy + 1) * (mvy + 1)
        > speed * speed - speed * speed / 500 - 1) by (nonlinear_arith)
        requires
            ((mvx + 1) * (mvx + 1) + (mvy + 1) * (mvy + 1)) * (s * s)
                > (speed * speed - speed * speed / 500 - 1) * (s * s),
            s * s > 0,
    ;
    assert((mvx + 1) * (mvx + 1) + (mvy + 1) * (mvy + 1)
        == mvx * mvx + mvy * mvy + 2 * mvx + 2 * mvy + 2) by (nonlinear_arith);
    assert(mvx * mvx + mvy * mvy
        > speed * speed - speed * speed / 500 - 1 - 2 * mvx - 2 * mvy - 2);
}

/// A displacement scaled by `speed / s` and rounded toward zero,
/// keeping its sign.
pub open spec fn steer_scale(d: int, speed: int, s: int) -> int {
    if d >= 0 {
        (d * speed) / s
    } else {
        -(((-d) * speed) / s)
    }
}

/// The velocity steering produces from `(px, py)` toward `(tx, ty)` at
/// `speed`: zero within a pixel of the target, else the displacement
/// scaled by `speed` over the rounded-up distance.
pub open spec fn steer_spec(px: int, py: int, tx: int, ty: int, speed: int) -> (int, int) {
    let d2 = dist_sq_spec(px, py, tx, ty);
    if d2 <= POS_SCALE * POS_SCALE {
        (0, 0)
    } else {
        let s = sqrt_ceil(d2 as nat) as int;
        (steer_scale(tx - px, speed, s), steer_scale(ty - py, speed, s))
    }
}

/// Clamp a coordinate into `[0, bound]`.
pub fn clamp_coord(v: i64, bound: i64) -> (r: i64)
    requires
        bound >= 0,
    ensures
        r == if v < 0 { 0int } else if v > bound { bound as int } else { v as int },
{
    if v < 0 {
        0
    } else if v > bound {
        bound
    } else {
        v
    }
}

/// The squared distance between two points, in squared position units.
pub open spec fn dist_sq_spec(ax: int, ay: int, bx: int, by: int) -> int {
    (ax - bx) * (ax - bx) + (ay - by) * (ay - by)
}

/// Largest coordinate magnitude the distance helpers accept.
pub const COORD_LIMIT: i64 = 1_000_000_000;

/// The squared distance between two points.
pub fn dist_sq(ax: i64, ay: i64, bx: i64, by: i64) -> (r: i64)
    requires
        -COORD_LIMIT <= ax <= COORD_LIMIT,
        -COORD_LIMIT <= ay <= COORD_LIMIT,
        -COORD_LIMIT <= bx <= COORD_LIMIT,
        -COORD_LIMIT <= by <= COORD_LIMIT,
    ensures
        r == dist_sq_spec(ax as int, ay as int, bx as int, by as int),
        r >= 0,
{
    let dx: i64 = ax - bx;
    let dy: i64 = ay - by;
    proof {
        assert(dx * dx <= 4_000_000_000_000_000_000 && dx * dx >= 0) by (nonlinear_arith)
            requires -2_000_000_000 <= dx <= 2_000_000_000;
        assert(dy * dy <= 4_000_000_000_000_000_000 && dy * dy >= 0) by (nonlinear_arith)
            requires -2_000_000_000 <= dy <= 2_000_000_000;
    }
    dx * dx + dy * dy
}

/// One component of a velocity of magnitude at most `speed` pointing
/// from `(px, py)` toward `(tx, ty)`: the displacement scaled by
/// `speed / dist`, rounded toward zero.
fn steer_component(d: i64, s: u64, speed: i64) -> (v: i64)
    requires
        -2_000_000_000 <= d <= 2_000_000_000,
        0 <= speed <= SPEED_LIMIT,
        1 <= s <= 0x8000_0000,
        (s as int) * (s as int) >= d * d,
    ensures
        -speed <= v <= speed,
        d >= 0 ==> v >= 0,
        d <= 0 ==> v <= 0,
        v == steer_scale(d as int, speed as int, s as int),
        ({
            let mag = if d >= 0 { d as int } else { -(d as int) };
            let mv = if v >= 0 { v as int } else { -(v as int) };
            mv * s <= mag * speed < (mv + 1) * s && 0 <= mv <= speed
        }),
{
    let mag: i64 = if d >= 0 { d } else { -d };
    proof {
        assert(mag * mag == d * d) by (nonlinear_arith)
            requires mag == d || mag == -d;
        assert(s >= mag) by (nonlinear_arith)
            requires (s as int) * (s as int) >= mag * mag, s >= 0, mag >= 0;
        assert(mag * speed <= 2_000_000_000 * 1_000_000) by (nonlinear_arith)
            requires 0 <= mag <= 2_000_000_000, 0 <= speed <= 1_000_000;
        assert(mag * speed <= (s as int) * speed) by (nonlinear_arith)
            requires mag <= s, speed >= 0;
    }
    let num: i64 = mag * speed;
    let q: i64 = num / (s as i64);
    proof {
        vstd::arithmetic::div_mod::lemma_fundamental_div_mod(num as int, s as int);
        vstd::arithmetic::div_mod::lemma_mod_bound(num as int, s as int);
        let qq = num as int / (s as int);
        let rr = num as int % (s as int);
        assert(q == qq);
        assert(q * (s as int) <= num < (q + 1) * (s as int)) by (nonlinear_arith)
            requires num == (s as int) * qq + rr, 0 <= rr < s, q == qq;
        assert(q <= speed) by (nonlinear_arith)
            requires q * (s as int) <= num, num <= (s as int) * speed, s >= 1, q >= 0 || q < 0;
        assert(q >= 0) by (nonlinear_arith)
            requires (q + 1) * (s as int) > num, q * (s as int) <= num, num >= 0, s >= 1;
    }
    if d >= 0 { q } else { -q }
}

/// The two-sided magnitude bound behind `steer_towards`: when the
/// target is more than a pixel away, the steered speed is at most
/// `speed` and short of it only by rounding.
proof fn lemma_steer_bounds(ax: int, ay: int, speed: int, s: int, mvx: int, mvy: int)
    requires
        0 <= ax <= 2_000_000_000,
        0 <= ay <= 2_000_000_000,
        0 <= speed <= 1_000_000,
        60001 <= s <= 0x8000_0000,
        s * s >= ax * ax + ay * ay,
        (s - 1) * (s - 1) < ax * ax + ay * ay,
        0 <= mvx <= speed,
        0 <= mvy <= speed,
        mvx * s <= ax * speed < (mvx + 1) * s,
        mvy * s <= ay * speed < (mvy + 1) * s,
    ensures
        mvx * mvx + mvy * mvy <= speed * speed,
        mvx * mvx + mvy * mvy > speed * speed - speed * speed / 30000 - 4 * speed - 2,
{
    let n2 = ax * ax + ay * ay;
    assert(mvx * s * (mvx * s) <= (ax * speed) * (ax * speed)) by (nonlinear_arith)
        requires 0 <= mvx * s, mvx * s <= ax * speed;
    assert(mvy * s * (mvy * s) <= (ay * speed) * (ay * speed)) by (nonlinear_arith)
        requires 0 <= mvy * s, mvy * s <= ay * speed;
    assert((ax * speed) * (ax * speed) + (ay * speed) * (ay * speed)
        == n2 * (speed * speed)) by (nonlinear_arith)
        requires n2 == ax * ax + ay * ay;
    assert(n2 * (speed * speed) <= s * s * (speed * speed)) by (nonlinear_arith)
        requires n2 <= s * s, speed * speed >= 0;
    assert(mvx * s * (mvx * s) + mvy * s * (mvy * s) == (mvx * mvx + mvy * mvy) * (s * s))
        by (nonlinear_arith);
    assert(s * s * (speed * speed) == speed * speed * (s * s)) by (nonlinear_arith);
    assert(mvx * mvx + mvy * mvy <= speed * speed) by (nonlinear_arith)
        requires
            (mvx * mvx + mvy * mvy) * (s * s) <= speed * speed * (s * s),
            s * s > 0;
    assert(((mvx + 1) * s) * ((mvx + 1) * s) > (ax * speed) * (ax * speed))
        by (nonlinear_arith)
        requires (mvx + 1) * s > ax * speed, ax * speed >= 0;
    assert(((mvy + 1) * s) * ((mvy + 1) * s) > (ay * speed) * (ay * speed))
        by (nonlinear_arith)
        requires (mvy + 1) * s > ay * speed, ay * speed >= 0;
    assert(((mvx + 1) * s) * ((mvx + 1) * s) == ((mvx + 1) * (mvx + 1)) * (s * s))
        by (nonlinear_arith);
    assert(((mvy + 1) * s) * ((mvy + 1) * s) == ((mvy + 1) * (mvy + 1)) * (s * s))
        by (nonlinear_arith);
    assert(((mvx + 1) * (mvx + 1) + (mvy + 1) * (mvy + 1)) * (s * s)
        == ((mvx + 1) * (mvx + 1)) * (s * s) + ((mvy + 1) * (mvy + 1)) * (s * s))
        by (nonlinear_arith);
    assert(((mvx + 1) * (mvx + 1) + (mvy + 1) * (mvy + 1)) * (s * s)
        > n2 * (speed * speed));
    assert(n2 > s * s - 2 * s) by (nonlinear_arith)
        requires (s - 1) * (s - 1) < n2;
    assert(n2 * (speed * speed) >= (s * s - 2 * s) * (speed * speed))
        by (nonlinear_arith)
        requires n2 > s * s - 2 * s, speed * speed >= 0;
    assert(2 * s * (speed * speed) <= s * s * (speed * speed / 30000 + 1)) by (nonlinear_arith)
        requires
            s >= 60000,
            speed * speed >= 0,
            30000 * (speed * speed / 30000) + 29999 >= speed * speed,
            speed * speed / 30000 >= 0,
    ;
    assert(30000 * (speed * speed / 30000) + 29999 >= speed * speed) by {
        vstd::arithmetic::div_mod::lemma_fundamental_div_mod(speed * speed, 30000);
        vstd::arithmetic::div_mod::lemma_mod_bound(speed * speed, 30000);
    }
    assert(speed * speed / 30000 >= 0) by {
        vstd::arithmetic::div_mod::lemma_div_pos_is_pos(speed * speed, 30000);
    }
    assert((s * s - 2 * s) * (speed * speed)
        >= (speed * speed - speed * speed / 30000 - 1) * (s * s)) by (nonlinear_arith)
        requires
            2 * s * (speed * speed) <= s * s * (speed * speed / 30000 + 1),
    ;
    assert((mvx + 1) * (mvx + 1) + (mvy + 1) * (mvy + 1)
        > speed * speed - speed * speed / 30000 - 1) by (nonlinear_arith)
        requires
            ((mvx + 1) * (mvx + 1) + (mvy + 1) * (mvy + 1)) * (s * s)
                > (speed * speed - speed * speed / 30000 - 1) * (s * s),
            s * s > 0,
    ;
    assert((mvx + 1) * (mvx + 1) + (mvy + 1) * (mvy + 1)
        == mvx * mvx + mvy * mvy + 2 * mvx + 2 * mvy + 2) by (nonlinear_arith);
}

/// A velocity of magnitude at most `speed` pointing from `(px, py)`
/// toward `(tx, ty)`; the zero velocity when the target is within one
/// pixel.
pub fn steer_towards(px: i64, py: i64, tx: i64, ty: i64, speed: i64) -> (v: (i64, i64))
    requires
        0 <= px <= COORD_LIMIT,
        0 <= py <= COORD_LIMIT,
        0 <= tx <= COORD_LIMIT,
        0 <= ty <= COORD_LIMIT,
        0 <= speed <= SPEED_LIMIT,
    ensures
        -speed <= v.0 <= speed,
        -speed <= v.1 <= speed,
        dist_sq_spec(px as int, py as int, tx as int, ty as int) <= POS_SCALE * POS_SCALE
            ==> v.0 == 0 && v.1 == 0,
        tx >= px ==> v.0 >= 0,
        tx <= px ==> v.0 <= 0,
        ty >= py ==> v.1 >= 0,
        ty <= py ==> v.1 <= 0,
        (v.0 as int, v.1 as int)
            == steer_spec(px as int, py as int, tx as int, ty as int, speed as int),
        v.0 * v.0 + v.1 * v.1 <= speed * speed,
        dist_sq_spec(px as int, py as int, tx as int, ty as int) > POS_SCALE * POS_SCALE
            ==> v.0 * v.0 + v.1 * v.1
                > speed * speed - speed * speed / 30000 - 4 * speed - 2,
{
    let d2: i64 = dist_sq(px, py, tx, ty);
    if d2 <= POS_SCALE * POS_SCALE {
        return (0, 0);
    }
    let dx: i64 = tx - px;
    let dy: i64 = ty - py;
    proof {
        assert(dx * dx == (px - tx) * (px - tx) && dy * dy == (py - ty) * (py - ty))
            by (nonlinear_arith)
            requires dx == tx - px, dy == ty - py;
        assert(dx * dx <= 1_000_000_000_000_000_000 && dx * dx >= 0) by (nonlinear_arith)
            requires -1_000_000_000 <= dx <= 1_000_000_000;
        assert(dy * dy <= 1_000_000_000_000_000_000 && dy * dy >= 0) by (nonlinear_arith)
            requires -1_000_000_000 <= dy <= 1_000_000_000;
        assert(d2 == dx * dx + dy * dy);
        assert(d2 <= 2_000_000_000_000_000_000);
    }
    let s: u64 = isqrt_ceil(d2 as u64);
    proof {
        assert(s >= 1);
        assert((s as int) * (s as int) >= dx * dx) by (nonlinear_arith)
            requires (s as int) * (s as int) >= dx * dx + dy * dy, dy * dy >= 0;
        assert((s as int) * (s as int) >= dy * dy) by (nonlinear_arith)
            requires (s as int) * (s as int) >= dx * dx + dy * dy, dx * dx >= 0;
    }
    let vx: i64 = steer_component(dx, s, speed);
    let vy: i64 = steer_component(dy, s, speed);
    proof {
        lemma_sqrt_ceil(d2 as nat, s as nat);
        assert(s >= 60001) by {
            if s <= 60000 {
                assert(s * s <= 60000 * 60000) by (nonlinear_arith)
                    requires 0 <= s <= 60000;
            }
        }
        let ax = if dx >= 0 { dx as int } else { -(dx as int) };
        let ay = if dy >= 0 { dy as int } else { -(dy as int) };
        let mvx = if vx >= 0 { vx as int } else { -(vx as int) };
        let mvy = if vy >= 0 { vy as int } else { -(vy as int) };
        assert(ax * ax == dx * dx && ay * ay == dy * dy) by (nonlinear_arith)
            requires ax == dx || ax == -dx, ay == dy || ay == -dy;
        lemma_steer_bounds(ax, ay, speed as int, s as int, mvx, mvy);
        assert(vx * vx == mvx * mvx && vy * vy == mvy * mvy) by (nonlinear_arith)
            requires mvx == vx || mvx == -vx, mvy == vy || mvy == -vy;
    }
    (vx, vy)
}

} // verus!
