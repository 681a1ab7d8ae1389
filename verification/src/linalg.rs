//! Fixed-point vector and quaternion arithmetic used by the integrator and
//! the view projection. Every executable function here is pinned to an exact
//! mathematical twin, so the whole pipeline built on top is deterministic by
//! construction.

use vstd::prelude::*;
use crate::SCALE;
use crate::data::Quat;
use crate::data::Vec3;

verus! {

/// Truncated (round-toward-zero) division of `a` by a positive `b`, the
/// behaviour of Rust's `/` on signed integers.
pub open spec fn spec_tdiv(a: int, b: int) -> int {
    if a >= 0 {
        a / b
    } else {
        -((-a) / b)
    }
}

/// The magnitude of a truncated quotient is bounded by the bound on the
/// dividend divided by the divisor.
pub proof fn lemma_tdiv_bound(a: int, b: int, m: int)
    requires
        1 <= b,
        0 <= m,
        -m <= a <= m,
    ensures
        -(m / b) <= spec_tdiv(a, b) <= m / b,
{
    if a >= 0 {
        vstd::arithmetic::div_mod::lemma_div_pos_is_pos(a, b);
        vstd::arithmetic::div_mod::lemma_div_is_ordered(a, m, b);
    } else {
        vstd::arithmetic::div_mod::lemma_div_pos_is_pos(-a, b);
        vstd::arithmetic::div_mod::lemma_div_is_ordered(-a, m, b);
    }
}

/// Truncated division of `a` by a positive `b`.
pub fn idiv(a: i64, b: i64) -> (r: i64)
    requires
        1 <= b,
        -0x7fff_ffff_ffff_ffff <= a,
    ensures
        r == spec_tdiv(a as int, b as int),
        a >= 0 ==> 0 <= r <= a,
        a <= 0 ==> a <= r <= 0,
{
    if a >= 0 {
        proof {
            vstd::arithmetic::div_mod::lemma_div_pos_is_pos(a as int, b as int);
            vstd::arithmetic::div_mod::lemma_div_nonincreasing(a as int, b as int);
        }
        let q: u64 = (a as u64) / (b as u64);
        q as i64
    } else {
        let n: i64 = -a;
        proof {
            vstd::arithmetic::div_mod::lemma_div_pos_is_pos(n as int, b as int);
            vstd::arithmetic::div_mod::lemma_div_nonincreasing(n as int, b as int);
        }
        let q: u64 = (n as u64) / (b as u64);
        -(q as i64)
    }
}

/// Bounds on a product follow from bounds on its factors.
pub proof fn lemma_mul_le(a: int, b: int, ab: int, bb: int)
    by (nonlinear_arith)
    requires
        0 <= ab,
        0 <= bb,
        -ab <= a <= ab,
        -bb <= b <= bb,
    ensures
        -(ab * bb) <= a * b <= ab * bb,
{
}

/// A component of a vector whose squared norm is bounded is itself bounded.
pub proof fn lemma_sq_le(c: int, n: int, b: int)
    by (nonlinear_arith)
    requires
        0 <= b,
        c * c <= n,
        n <= b * b,
    ensures
        -b <= c <= b,
{
}

/// Multiplies two integers whose magnitudes are bounded by `ab` and `bb`.
pub fn mulb(a: i64, b: i64, ab: i64, bb: i64) -> (r: i64)
    requires
        0 <= ab,
        0 <= bb,
        -ab <= a <= ab,
        -bb <= b <= bb,
        ab * bb < 0x7fff_ffff_ffff_ffff,
    ensures
        r == a * b,
        -(ab * bb) <= r <= ab * bb,
{
    proof {
        lemma_mul_le(a as int, b as int, ab as int, bb as int);
    }
    a * b
}

/// Component-wise sum.
pub open spec fn spec_vadd(a: Vec3, b: Vec3) -> (int, int, int) {
    (a.x + b.x, a.y + b.y, a.z + b.z)
}

pub fn vadd(a: Vec3, b: Vec3) -> (r: Vec3)
    requires
        a.abs_le(2_000_000_000_000),
        b.abs_le(2_000_000_000_000),
    ensures
        (r.x as int, r.y as int, r.z as int) == spec_vadd(a, b),
        r.abs_le(4_000_000_000_000),
{
    Vec3 { x: a.x + b.x, y: a.y + b.y, z: a.z + b.z }
}

/// Component-wise difference.
pub open spec fn spec_vsub(a: Vec3, b: Vec3) -> (int, int, int) {
    (a.x - b.x, a.y - b.y, a.z - b.z)
}

pub fn vsub(a: Vec3, b: Vec3) -> (r: Vec3)
    requires
        a.abs_le(2_000_000_000_000),
        b.abs_le(2_000_000_000_000),
    ensures
        (r.x as int, r.y as int, r.z as int) == spec_vsub(a, b),
        r.abs_le(4_000_000_000_000),
{
    Vec3 { x: a.x - b.x, y: a.y - b.y, z: a.z - b.z }
}

/// Each component multiplied by `k`, then divided (truncating) by `d`.
pub open spec fn spec_vscale(v: Vec3, k: int, d: int) -> (int, int, int) {
    (spec_tdiv(v.x * k, d), spec_tdiv(v.y * k, d), spec_tdiv(v.z * k, d))
}

pub fn vscale(v: Vec3, k: i64, d: i64) -> (r: Vec3)
    requires
        v.abs_le(2_000_000_000_000),
        -1_000_000 <= k <= 1_000_000,
        1 <= d,
    ensures
        (r.x as int, r.y as int, r.z as int) == spec_vscale(v, k as int, d as int),
{
    let x: i64 = mulb(v.x, k, 2_000_000_000_000, 1_000_000);
    let y: i64 = mulb(v.y, k, 2_000_000_000_000, 1_000_000);
    let z: i64 = mulb(v.z, k, 2_000_000_000_000, 1_000_000);
    Vec3 { x: idiv(x, d), y: idiv(y, d), z: idiv(z, d) }
}

/// Cross product of two vectors.
pub open spec fn spec_cross(a: Vec3, b: Vec3) -> (int, int, int) {
    (
        a.y * b.z - a.z * b.y,
        a.z * b.x - a.x * b.z,
        a.x * b.y - a.y * b.x,
    )
}

/// Cross product, with the factors' magnitudes bounded by `ab` and `bb`.
pub fn cross(a: Vec3, b: Vec3, ab: i64, bb: i64) -> (r: Vec3)
    requires
        0 <= ab,
        0 <= bb,
        a.abs_le(ab as int),
        b.abs_le(bb as int),
        ab * bb < 0x3fff_ffff_ffff_ffff,
    ensures
        (r.x as int, r.y as int, r.z as int) == spec_cross(a, b),
        r.abs_le(2 * ((ab as int) * (bb as int))),
{
    Vec3 {
        x: mulb(a.y, b.z, ab, bb) - mulb(a.z, b.y, ab, bb),
        y: mulb(a.z, b.x, ab, bb) - mulb(a.x, b.z, ab, bb),
        z: mulb(a.x, b.y, ab, bb) - mulb(a.y, b.x, ab, bb),
    }
}

/// The conjugate rotation (the inverse for a unit quaternion).
pub open spec fn spec_qconj(q: Quat) -> (int, int, int, int) {
    (-q.x as int, -q.y as int, -q.z as int, q.w as int)
}

pub fn qconj(q: Quat) -> (r: Quat)
    requires
        -1_000_000 <= q.x <= 1_000_000,
        -1_000_000 <= q.y <= 1_000_000,
        -1_000_000 <= q.z <= 1_000_000,
    ensures
        (r.x as int, r.y as int, r.z as int, r.w as int) == spec_qconj(q),
        r.norm_sq() == q.norm_sq(),
{
    proof {
        assert((-(q.x as int)) * (-(q.x as int)) == (q.x as int) * (q.x as int))
            by (nonlinear_arith);
        assert((-(q.y as int)) * (-(q.y as int)) == (q.y as int) * (q.y as int))
            by (nonlinear_arith);
        assert((-(q.z as int)) * (-(q.z as int)) == (q.z as int) * (q.z as int))
            by (nonlinear_arith);
    }
    Quat { x: -q.x, y: -q.y, z: -q.z, w: q.w }
}

/// Rotation of `v` by the near-unit quaternion `q`, in fixed point:
/// `t = 2 (qv x v) / SCALE`, `r = v + (w t) / SCALE + (qv x t) / SCALE`.
#[verifier::opaque]
pub open spec fn spec_qrotate(q: Quat, v: Vec3) -> (int, int, int) {
    let qx = q.x as int;
    let qy = q.y as int;
    let qz = q.z as int;
    let qw = q.w as int;
    let tx = spec_tdiv(2 * (qy * v.z - qz * v.y), SCALE as int);
    let ty = spec_tdiv(2 * (qz * v.x - qx * v.z), SCALE as int);
    let tz = spec_tdiv(2 * (qx * v.y - qy * v.x), SCALE as int);
    (
        v.x + spec_tdiv(qw * tx, SCALE as int) + spec_tdiv(qy * tz - qz * ty, SCALE as int),
        v.y + spec_tdiv(qw * ty, SCALE as int) + spec_tdiv(qz * tx - qx * tz, SCALE as int),
        v.z + spec_tdiv(qw * tz, SCALE as int) + spec_tdiv(qx * ty - qy * tx, SCALE as int),
    )
}

/// Rotates `v` by `q`; components of `q` must be near the unit scale and `v`
/// bounded so that every intermediate product fits.
pub fn qrotate(q: Quat, v: Vec3) -> (r: Vec3)
    requires
        -1100 <= q.x <= 1100,
        -1100 <= q.y <= 1100,
        -1100 <= q.z <= 1100,
        -1100 <= q.w <= 1100,
        v.abs_le(4_000_000_000_000),
    ensures
        (r.x as int, r.y as int, r.z as int) == spec_qrotate(q, v),
        r.abs_le(100_000_000_000_000),
{
    proof {
        reveal(spec_qrotate);
    }
    let qv = Vec3 { x: q.x, y: q.y, z: q.z };
    let c = cross(qv, v, 1100, 4_000_000_000_000);
    let t = Vec3 { x: idiv(2 * c.x, 1000), y: idiv(2 * c.y, 1000), z: idiv(2 * c.z, 1000) };
    proof {
        lemma_tdiv_bound(2 * c.x, 1000, 17_600_000_000_000_000);
        lemma_tdiv_bound(2 * c.y, 1000, 17_600_000_000_000_000);
        lemma_tdiv_bound(2 * c.z, 1000, 17_600_000_000_000_000);
    }
    let px: i64 = mulb(q.w, t.x, 1100, 17_600_000_000_000);
    let py: i64 = mulb(q.w, t.y, 1100, 17_600_000_000_000);
    let pz: i64 = mulb(q.w, t.z, 1100, 17_600_000_000_000);
    proof {
        lemma_tdiv_bound(px as int, 1000, 19_360_000_000_000_000);
        lemma_tdiv_bound(py as int, 1000, 19_360_000_000_000_000);
        lemma_tdiv_bound(pz as int, 1000, 19_360_000_000_000_000);
    }
    let wt = Vec3 { x: idiv(px, 1000), y: idiv(py, 1000), z: idiv(pz, 1000) };
    let c2 = cross(qv, t, 1100, 17_600_000_000_000);
    proof {
        lemma_tdiv_bound(c2.x as int, 1000, 38_720_000_000_000_000);
        lemma_tdiv_bound(c2.y as int, 1000, 38_720_000_000_000_000);
        lemma_tdiv_bound(c2.z as int, 1000, 38_720_000_000_000_000);
    }
    let qt = Vec3 { x: idiv(c2.x, 1000), y: idiv(c2.y, 1000), z: idiv(c2.z, 1000) };
    Vec3 { x: v.x + wt.x + qt.x, y: v.y + wt.y + qt.y, z: v.z + wt.z + qt.z }
}

/// A well-formed (near-unit) orientation has every component within 1025
/// milliunits.
pub proof fn lemma_unit_comps(q: Quat)
    requires
        q.is_unit(),
    ensures
        -1025 <= q.x <= 1025,
        -1025 <= q.y <= 1025,
        -1025 <= q.z <= 1025,
        -1025 <= q.w <= 1025,
{
    assert((q.x as int) * (q.x as int) >= 0) by (nonlinear_arith);
    assert((q.y as int) * (q.y as int) >= 0) by (nonlinear_arith);
    assert((q.z as int) * (q.z as int) >= 0) by (nonlinear_arith);
    assert((q.w as int) * (q.w as int) >= 0) by (nonlinear_arith);
    lemma_sq_le(q.x as int, q.norm_sq(), 1025);
    lemma_sq_le(q.y as int, q.norm_sq(), 1025);
    lemma_sq_le(q.z as int, q.norm_sq(), 1025);
    lemma_sq_le(q.w as int, q.norm_sq(), 1025);
}

/// The Hamilton product of two quaternions, each product of components
/// divided (truncating) by `SCALE`.
#[verifier::opaque]
pub open spec fn spec_qmul(a: Quat, b: Quat) -> (int, int, int, int) {
    let s = SCALE as int;
    (
        spec_tdiv(a.w * b.x + a.x * b.w + a.y * b.z - a.z * b.y, s),
        spec_tdiv(a.w * b.y - a.x * b.z + a.y * b.w + a.z * b.x, s),
        spec_tdiv(a.w * b.z + a.x * b.y - a.y * b.x + a.z * b.w, s),
        spec_tdiv(a.w * b.w - a.x * b.x - a.y * b.y - a.z * b.z, s),
    )
}

/// Hamilton product of a near-unit `a` with a small incremental rotation `b`.
pub fn qmul(a: Quat, b: Quat) -> (r: Quat)
    requires
        -1100 <= a.x <= 1100,
        -1100 <= a.y <= 1100,
        -1100 <= a.z <= 1100,
        -1100 <= a.w <= 1100,
        -10_000_000 <= b.x <= 10_000_000,
        -10_000_000 <= b.y <= 10_000_000,
        -10_000_000 <= b.z <= 10_000_000,
        -10_000_000 <= b.w <= 10_000_000,
    ensures
        (r.x as int, r.y as int, r.z as int, r.w as int) == spec_qmul(a, b),
        -100_000_000 <= r.x <= 100_000_000,
        -100_000_000 <= r.y <= 100_000_000,
        -100_000_000 <= r.z <= 100_000_000,
        -100_000_000 <= r.w <= 100_000_000,
{
    proof {
        reveal(spec_qmul);
    }
    let nx: i64 = mulb(a.w, b.x, 1100, 10_000_000) + mulb(a.x, b.w, 1100, 10_000_000)
        + mulb(a.y, b.z, 1100, 10_000_000) - mulb(a.z, b.y, 1100, 10_000_000);
    let ny: i64 = mulb(a.w, b.y, 1100, 10_000_000) - mulb(a.x, b.z, 1100, 10_000_000)
        + mulb(a.y, b.w, 1100, 10_000_000) + mulb(a.z, b.x, 1100, 10_000_000);
    let nz: i64 = mulb(a.w, b.z, 1100, 10_000_000) + mulb(a.x, b.y, 1100, 10_000_000)
        - mulb(a.y, b.x, 1100, 10_000_000) + mulb(a.z, b.w, 1100, 10_000_000);
    let nw: i64 = mulb(a.w, b.w, 1100, 10_000_000) - mulb(a.x, b.x, 1100, 10_000_000)
        - mulb(a.y, b.y, 1100, 10_000_000) - mulb(a.z, b.z, 1100, 10_000_000);
    proof {
        lemma_tdiv_bound(nx as int, 1000, 44_000_000_000);
        lemma_tdiv_bound(ny as int, 1000, 44_000_000_000);
        lemma_tdiv_bound(nz as int, 1000, 44_000_000_000);
        lemma_tdiv_bound(nw as int, 1000, 44_000_000_000);
    }
    Quat { x: idiv(nx, 1000), y: idiv(ny, 1000), z: idiv(nz, 1000), w: idiv(nw, 1000) }
}

/// One Newton step toward unit norm, guarded by range checks: `None` means
/// the quaternion had drifted too far from unit length to be repaired.
#[verifier::opaque]
pub open spec fn spec_qnormalize(q: Quat) -> Option<(int, int, int, int)> {
    let n2 = q.norm_sq();
    if n2 < 950_000 || n2 > 1_050_000 {
        None
    } else {
        let f = 3_000_000 - n2;
        let x = spec_tdiv(q.x * f, 2_000_000);
        let y = spec_tdiv(q.y * f, 2_000_000);
        let z = spec_tdiv(q.z * f, 2_000_000);
        let w = spec_tdiv(q.w * f, 2_000_000);
        let m2 = x * x + y * y + z * z + w * w;
        if 990_000 <= m2 <= 1_010_000 {
            Some((x, y, z, w))
        } else {
            None
        }
    }
}

/// Renormalizes a quaternion that is already close to unit length; rejects
/// (with `None`) one that has drifted out of the correctable range.
pub fn qnormalize(q: Quat) -> (r: Option<Quat>)
    requires
        -100_000_000 <= q.x <= 100_000_000,
        -100_000_000 <= q.y <= 100_000_000,
        -100_000_000 <= q.z <= 100_000_000,
        -100_000_000 <= q.w <= 100_000_000,
    ensures
        match r {
            Some(u) => spec_qnormalize(q) == Some(
                (u.x as int, u.y as int, u.z as int, u.w as int),
            ) && u.is_unit(),
            None => spec_qnormalize(q) is None,
        },
{
    proof {
        reveal(spec_qnormalize);
    }
    let xx: i64 = mulb(q.x, q.x, 100_000_000, 100_000_000);
    let yy: i64 = mulb(q.y, q.y, 100_000_000, 100_000_000);
    let zz: i64 = mulb(q.z, q.z, 100_000_000, 100_000_000);
    let ww: i64 = mulb(q.w, q.w, 100_000_000, 100_000_000);
    let n2: i64 = xx + yy + zz + ww;
    if n2 < 950_000 || n2 > 1_050_000 {
        return None;
    }
    proof {
        assert((q.x as int) * (q.x as int) >= 0) by (nonlinear_arith);
        assert((q.y as int) * (q.y as int) >= 0) by (nonlinear_arith);
        assert((q.z as int) * (q.z as int) >= 0) by (nonlinear_arith);
        assert((q.w as int) * (q.w as int) >= 0) by (nonlinear_arith);
        lemma_sq_le(q.x as int, n2 as int, 1025);
        lemma_sq_le(q.y as int, n2 as int, 1025);
        lemma_sq_le(q.z as int, n2 as int, 1025);
        lemma_sq_le(q.w as int, n2 as int, 1025);
    }
    let f: i64 = 3_000_000 - n2;
    let px: i64 = mulb(q.x, f, 1025, 2_050_000);
    let py: i64 = mulb(q.y, f, 1025, 2_050_000);
    let pz: i64 = mulb(q.z, f, 1025, 2_050_000);
    let pw: i64 = mulb(q.w, f, 1025, 2_050_000);
    proof {
        lemma_tdiv_bound(px as int, 2_000_000, 2_101_250_000);
        lemma_tdiv_bound(py as int, 2_000_000, 2_101_250_000);
        lemma_tdiv_bound(pz as int, 2_000_000, 2_101_250_000);
        lemma_tdiv_bound(pw as int, 2_000_000, 2_101_250_000);
    }
    let rx: i64 = idiv(px, 2_000_000);
    let ry: i64 = idiv(py, 2_000_000);
    let rz: i64 = idiv(pz, 2_000_000);
    let rw: i64 = idiv(pw, 2_000_000);
    let m2: i64 = mulb(rx, rx, 1100, 1100) + mulb(ry, ry, 1100, 1100)
        + mulb(rz, rz, 1100, 1100) + mulb(rw, rw, 1100, 1100);
    if 990_000 <= m2 && m2 <= 1_010_000 {
        Some(Quat { x: rx, y: ry, z: rz, w: rw })
    } else {
        None
    }
}

} // verus!

