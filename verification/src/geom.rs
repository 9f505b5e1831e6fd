//! Integer plane geometry: 2D points and affine transforms over 64-bit
//! coordinates (font units). All arithmetic wraps modulo 2^64, so transform
//! application and composition are total operations with exact algebraic
//! laws (composition, identity, associativity).

use vstd::prelude::*;
use vstd::arithmetic::div_mod::{
    lemma_fundamental_div_mod, lemma_mod_division_less_than_divisor, lemma_mod_multiples_vanish,
    lemma_small_mod,
};
use vstd::arithmetic::mul::{
    lemma_mul_is_associative, lemma_mul_is_distributive_add, lemma_mul_is_distributive_add_other_way,
};

verus! {

/// The modulus of the wrapping coordinate arithmetic: one step past `i64`.
pub open spec fn wrap_modulus() -> int {
    0x1_0000_0000_0000_0000
}

/// Reduce an unbounded integer into the `i64` range; the result is congruent
/// to the argument modulo 2^64.
pub open spec fn wrap(x: int) -> i64 {
    if x % wrap_modulus() > i64::MAX {
        (x % wrap_modulus() - wrap_modulus()) as i64
    } else {
        (x % wrap_modulus()) as i64
    }
}

/// `wrap` is insensitive to shifts by multiples of the modulus.
proof fn lemma_wrap_shift(x: int, k: int)
    ensures
        wrap(x + wrap_modulus() * k) == wrap(x),
{
    lemma_mod_multiples_vanish(k, x, wrap_modulus());
}

/// On values already inside the `i64` range, `wrap` is the identity.
pub proof fn lemma_wrap_small(x: int)
    requires
        i64::MIN <= x <= i64::MAX,
    ensures
        wrap(x) == x,
{
    if x >= 0 {
        lemma_small_mod(x as nat, wrap_modulus() as nat);
    } else {
        lemma_mod_multiples_vanish(1, x, wrap_modulus());
        lemma_small_mod((x + wrap_modulus()) as nat, wrap_modulus() as nat);
    }
}

/// Decompose `wrap(x)` as `x` plus a multiple of the modulus.
proof fn lemma_wrap_decompose(x: int) -> (k: int)
    ensures
        wrap(x) == x + wrap_modulus() * k,
{
    lemma_fundamental_div_mod(x, wrap_modulus());
    lemma_mod_division_less_than_divisor(x, wrap_modulus());
    if x % wrap_modulus() > i64::MAX {
        -(x / wrap_modulus()) - 1
    } else {
        -(x / wrap_modulus())
    }
}

/// Wrapping an addend before the outer `wrap` changes nothing.
proof fn lemma_wrap_add_l(x: int, y: int)
    ensures
        wrap(wrap(x) + y) == wrap(x + y),
{
    let k = lemma_wrap_decompose(x);
    assert(wrap(x) + y == (x + y) + wrap_modulus() * k);
    lemma_wrap_shift(x + y, k);
}

/// Fold a wrapped two-term sum into a single `wrap`.
proof fn lemma_wrap_sum2(u: int, v: int)
    ensures
        wrap(wrap(u) + wrap(v)) == wrap(u + v),
{
    lemma_wrap_add_l(u, wrap(v) as int);
    lemma_wrap_add_l(v, u);
}

/// Fold the wrapped evaluation of `u + v + w` into a single `wrap`.
proof fn lemma_wrap_sum3(u: int, v: int, w: int)
    ensures
        wrap(wrap(wrap(u) + wrap(v)) + w) == wrap(u + v + w),
{
    lemma_wrap_sum2(u, v);
    lemma_wrap_add_l(u + v, w);
}

/// Fold a wrapped linear combination whose two coefficients are wrapped.
proof fn lemma_wrap_coeffs2(ca: int, cb: int, px: int, py: int)
    ensures
        wrap(wrap(ca) * px + wrap(cb) * py) == wrap(ca * px + cb * py),
{
    let m = wrap_modulus();
    let k1 = lemma_wrap_decompose(ca);
    let k2 = lemma_wrap_decompose(cb);
    assert((ca + m * k1) * px + (cb + m * k2) * py == (ca * px + cb * py) + m * (k1 * px + k2
        * py)) by (nonlinear_arith);
    lemma_wrap_shift(ca * px + cb * py, k1 * px + k2 * py);
}

/// Fold a wrapped affine combination whose three coefficients are wrapped.
proof fn lemma_wrap_coeffs3(ca: int, cb: int, cc: int, px: int, py: int)
    ensures
        wrap(wrap(ca) * px + wrap(cb) * py + wrap(cc)) == wrap(ca * px + cb * py + cc),
{
    let m = wrap_modulus();
    let k1 = lemma_wrap_decompose(ca);
    let k2 = lemma_wrap_decompose(cb);
    let k3 = lemma_wrap_decompose(cc);
    assert((ca + m * k1) * px + (cb + m * k2) * py + (cc + m * k3) == (ca * px + cb * py + cc) + m
        * (k1 * px + k2 * py + k3)) by (nonlinear_arith);
    lemma_wrap_shift(ca * px + cb * py + cc, k1 * px + k2 * py + k3);
}

/// Fold a wrapped linear combination whose two arguments are wrapped.
proof fn lemma_wrap_args2(a: int, c: int, u: int, v: int)
    ensures
        wrap(a * wrap(u) + c * wrap(v)) == wrap(a * u + c * v),
{
    let m = wrap_modulus();
    let k1 = lemma_wrap_decompose(u);
    let k2 = lemma_wrap_decompose(v);
    assert(a * (u + m * k1) + c * (v + m * k2) == (a * u + c * v) + m * (a * k1 + c
        * k2)) by (nonlinear_arith);
    lemma_wrap_shift(a * u + c * v, a * k1 + c * k2);
}

/// Fold a wrapped affine combination whose two arguments are wrapped.
proof fn lemma_wrap_args3(a: int, c: int, e: int, u: int, v: int)
    ensures
        wrap(a * wrap(u) + c * wrap(v) + e) == wrap(a * u + c * v + e),
{
    let m = wrap_modulus();
    let k1 = lemma_wrap_decompose(u);
    let k2 = lemma_wrap_decompose(v);
    assert(a * (u + m * k1) + c * (v + m * k2) + e == (a * u + c * v + e) + m * (a * k1 + c
        * k2)) by (nonlinear_arith);
    lemma_wrap_shift(a * u + c * v + e, a * k1 + c * k2);
}

/// One row of the affine-composition identity, distributed into monomials.
proof fn lemma_affine_row(oa: int, oc: int, oe: int, ia: int, ib: int, ic: int, id: int, ie: int, jf: int, px: int, py: int)
    ensures
        (oa * ia + oc * ib) * px + (oa * ic + oc * id) * py + (oa * ie + oc * jf + oe) == oa * (ia
            * px + ic * py + ie) + oc * (ib * px + id * py + jf) + oe,
{
    lemma_mul_is_distributive_add_other_way(px, oa * ia, oc * ib);
    lemma_mul_is_associative(oa, ia, px);
    lemma_mul_is_associative(oc, ib, px);
    lemma_mul_is_distributive_add_other_way(py, oa * ic, oc * id);
    lemma_mul_is_associative(oa, ic, py);
    lemma_mul_is_associative(oc, id, py);
    lemma_mul_is_distributive_add(oa, ia * px + ic * py, ie);
    lemma_mul_is_distributive_add(oa, ia * px, ic * py);
    lemma_mul_is_distributive_add(oc, ib * px + id * py, jf);
    lemma_mul_is_distributive_add(oc, ib * px, id * py);
}

/// One row of the linear part of the composition identity.
proof fn lemma_linear_row(oa: int, oc: int, ia: int, ib: int, ic: int, id: int, px: int, py: int)
    ensures
        (oa * ia + oc * ib) * px + (oa * ic + oc * id) * py == oa * (ia * px + ic * py) + oc * (ib
            * px + id * py),
{
    lemma_mul_is_distributive_add_other_way(px, oa * ia, oc * ib);
    lemma_mul_is_associative(oa, ia, px);
    lemma_mul_is_associative(oc, ib, px);
    lemma_mul_is_distributive_add_other_way(py, oa * ic, oc * id);
    lemma_mul_is_associative(oa, ic, py);
    lemma_mul_is_associative(oc, id, py);
    lemma_mul_is_distributive_add(oa, ia * px, ic * py);
    lemma_mul_is_distributive_add(oc, ib * px, id * py);
}

/// A 2D point with integer (font-unit) coordinates.
#[derive(Debug, Clone, Copy, PartialEq, Eq, Structural)]
pub struct Point {
    pub x: i64,
    pub y: i64,
}

/// A 2D affine transform. Applied to a point `(x, y)` it yields
/// `(xx*x + xy*y + tx, yx*x + yy*y + ty)`, each coordinate reduced by `wrap`.
#[derive(Debug, Clone, Copy, PartialEq, Eq, Structural)]
pub struct Affine {
    pub xx: i64,
    pub yx: i64,
    pub xy: i64,
    pub yy: i64,
    pub tx: i64,
    pub ty: i64,
}

impl Point {
    pub fn new(x: i64, y: i64) -> (r: Point)
        ensures
            r == (Point { x, y }),
    {
        Point { x, y }
    }
}

/// Wrapping 64-bit addition.
fn wadd(a: i64, b: i64) -> (r: i64)
    ensures
        r == wrap(a + b),
{
    proof {
        if a + b > i64::MAX {
            lemma_wrap_shift(a + b - wrap_modulus(), 1);
            lemma_wrap_small(a + b - wrap_modulus());
        } else if a + b < i64::MIN {
            lemma_wrap_shift(a + b + wrap_modulus(), -1);
            lemma_wrap_small(a + b + wrap_modulus());
        } else {
            lemma_wrap_small(a + b);
        }
    }
    a.wrapping_add(b)
}

/// Wrapping 64-bit multiplication.
fn wmul(a: i64, b: i64) -> (r: i64)
    ensures
        r == wrap(a * b),
{
    a.wrapping_mul(b)
}

impl Affine {
    /// What applying this transform to a point means.
    pub open spec fn apply_spec(self, p: Point) -> Point {
        Point {
            x: wrap(self.xx * p.x + self.xy * p.y + self.tx),
            y: wrap(self.yx * p.x + self.yy * p.y + self.ty),
        }
    }

    /// What composing this transform (outer) with `inner` means: applying the
    /// composite equals applying `inner` first, then this transform.
    pub open spec fn compose_spec(self, inner: Affine) -> Affine {
        Affine {
            xx: wrap(self.xx * inner.xx + self.xy * inner.yx),
            yx: wrap(self.yx * inner.xx + self.yy * inner.yx),
            xy: wrap(self.xx * inner.xy + self.xy * inner.yy),
            yy: wrap(self.yx * inner.xy + self.yy * inner.yy),
            tx: wrap(self.xx * inner.tx + self.xy * inner.ty + self.tx),
            ty: wrap(self.yx * inner.tx + self.yy * inner.ty + self.ty),
        }
    }

    /// The identity transform.
    pub open spec fn identity_spec() -> Affine {
        Affine { xx: 1, yx: 0, xy: 0, yy: 1, tx: 0, ty: 0 }
    }

    /// The coefficients in column order: `[xx, yx, xy, yy, tx, ty]`.
    pub fn new(xx: i64, yx: i64, xy: i64, yy: i64, tx: i64, ty: i64) -> (r: Affine)
        ensures
            r == (Affine { xx, yx, xy, yy, tx, ty }),
    {
        Affine { xx, yx, xy, yy, tx, ty }
    }

    pub fn identity() -> (r: Affine)
        ensures
            r == Affine::identity_spec(),
    {
        Affine { xx: 1, yx: 0, xy: 0, yy: 1, tx: 0, ty: 0 }
    }

    /// A pure translation by `(x, y)`.
    pub fn translate(x: i64, y: i64) -> (r: Affine)
        ensures
            r == (Affine { xx: 1, yx: 0, xy: 0, yy: 1, tx: x, ty: y }),
    {
        Affine { xx: 1, yx: 0, xy: 0, yy: 1, tx: x, ty: y }
    }

    /// Apply this transform to a point.
    pub fn apply(self, p: Point) -> (r: Point)
        ensures
            r == self.apply_spec(p),
    {
        proof {
            lemma_wrap_sum3(self.xx * p.x, self.xy * p.y, self.tx as int);
            lemma_wrap_sum3(self.yx * p.x, self.yy * p.y, self.ty as int);
        }
        Point {
            x: wadd(wadd(wmul(self.xx, p.x), wmul(self.xy, p.y)), self.tx),
            y: wadd(wadd(wmul(self.yx, p.x), wmul(self.yy, p.y)), self.ty),
        }
    }

    /// Compose `self` (applied second) with `inner` (applied first).
    pub fn compose(self, inner: Affine) -> (r: Affine)
        ensures
            r == self.compose_spec(inner),
    {
        proof {
            lemma_wrap_sum2(self.xx * inner.xx, self.xy * inner.yx);
            lemma_wrap_sum2(self.yx * inner.xx, self.yy * inner.yx);
            lemma_wrap_sum2(self.xx * inner.xy, self.xy * inner.yy);
            lemma_wrap_sum2(self.yx * inner.xy, self.yy * inner.yy);
            lemma_wrap_sum3(self.xx * inner.tx, self.xy * inner.ty, self.tx as int);
            lemma_wrap_sum3(self.yx * inner.tx, self.yy * inner.ty, self.ty as int);
        }
        Affine {
            xx: wadd(wmul(self.xx, inner.xx), wmul(self.xy, inner.yx)),
            yx: wadd(wmul(self.yx, inner.xx), wmul(self.yy, inner.yx)),
            xy: wadd(wmul(self.xx, inner.xy), wmul(self.xy, inner.yy)),
            yy: wadd(wmul(self.yx, inner.xy), wmul(self.yy, inner.yy)),
            tx: wadd(wadd(wmul(self.xx, inner.tx), wmul(self.xy, inner.ty)), self.tx),
            ty: wadd(wadd(wmul(self.yx, inner.tx), wmul(self.yy, inner.ty)), self.ty),
        }
    }
}

/// Identity law for points: the identity transform moves nothing.
pub proof fn lemma_apply_identity(p: Point)
    ensures
        Affine::identity_spec().apply_spec(p) == p,
{
    lemma_wrap_small(p.x as int);
    lemma_wrap_small(p.y as int);
}

/// Composing the identity on the left changes nothing.
pub proof fn lemma_compose_identity_left(t: Affine)
    ensures
        Affine::identity_spec().compose_spec(t) == t,
{
    lemma_wrap_small(t.xx as int);
    lemma_wrap_small(t.yx as int);
    lemma_wrap_small(t.xy as int);
    lemma_wrap_small(t.yy as int);
    lemma_wrap_small(t.tx as int);
    lemma_wrap_small(t.ty as int);
}

/// Composing the identity on the right changes nothing.
pub proof fn lemma_compose_identity_right(t: Affine)
    ensures
        t.compose_spec(Affine::identity_spec()) == t,
{
    lemma_wrap_small(t.xx as int);
    lemma_wrap_small(t.yx as int);
    lemma_wrap_small(t.xy as int);
    lemma_wrap_small(t.yy as int);
    lemma_wrap_small(t.tx as int);
    lemma_wrap_small(t.ty as int);
}

/// The composition law: applying `outer.compose_spec(inner)` to a point is
/// applying `inner` first and `outer` second.
pub proof fn lemma_apply_compose(outer: Affine, inner: Affine, p: Point)
    ensures
        outer.compose_spec(inner).apply_spec(p) == outer.apply_spec(inner.apply_spec(p)),
{
    lemma_wrap_coeffs3(
        outer.xx * inner.xx + outer.xy * inner.yx,
        outer.xx * inner.xy + outer.xy * inner.yy,
        outer.xx * inner.tx + outer.xy * inner.ty + outer.tx,
        p.x as int,
        p.y as int,
    );
    lemma_wrap_coeffs3(
        outer.yx * inner.xx + outer.yy * inner.yx,
        outer.yx * inner.xy + outer.yy * inner.yy,
        outer.yx * inner.tx + outer.yy * inner.ty + outer.ty,
        p.x as int,
        p.y as int,
    );
    lemma_wrap_args3(
        outer.xx as int,
        outer.xy as int,
        outer.tx as int,
        inner.xx * p.x + inner.xy * p.y + inner.tx,
        inner.yx * p.x + inner.yy * p.y + inner.ty,
    );
    lemma_wrap_args3(
        outer.yx as int,
        outer.yy as int,
        outer.ty as int,
        inner.xx * p.x + inner.xy * p.y + inner.tx,
        inner.yx * p.x + inner.yy * p.y + inner.ty,
    );
    lemma_affine_row(
        outer.xx as int,
        outer.xy as int,
        outer.tx as int,
        inner.xx as int,
        inner.yx as int,
        inner.xy as int,
        inner.yy as int,
        inner.tx as int,
        inner.ty as int,
        p.x as int,
        p.y as int,
    );
    lemma_affine_row(
        outer.yx as int,
        outer.yy as int,
        outer.ty as int,
        inner.xx as int,
        inner.yx as int,
        inner.xy as int,
        inner.yy as int,
        inner.tx as int,
        inner.ty as int,
        p.x as int,
        p.y as int,
    );
}

/// Composition of transforms is associative.
pub proof fn lemma_compose_assoc(a: Affine, b: Affine, c: Affine)
    ensures
        a.compose_spec(b).compose_spec(c) == a.compose_spec(b.compose_spec(c)),
{
    lemma_wrap_coeffs2(a.xx * b.xx + a.xy * b.yx, a.xx * b.xy + a.xy * b.yy, c.xx as int, c.yx as int);
    lemma_wrap_coeffs2(a.yx * b.xx + a.yy * b.yx, a.yx * b.xy + a.yy * b.yy, c.xx as int, c.yx as int);
    lemma_wrap_coeffs2(a.xx * b.xx + a.xy * b.yx, a.xx * b.xy + a.xy * b.yy, c.xy as int, c.yy as int);
    lemma_wrap_coeffs2(a.yx * b.xx + a.yy * b.yx, a.yx * b.xy + a.yy * b.yy, c.xy as int, c.yy as int);
    lemma_wrap_coeffs3(
        a.xx * b.xx + a.xy * b.yx,
        a.xx * b.xy + a.xy * b.yy,
        a.xx * b.tx + a.xy * b.ty + a.tx,
        c.tx as int,
        c.ty as int,
    );
    lemma_wrap_coeffs3(
        a.yx * b.xx + a.yy * b.yx,
        a.yx * b.xy + a.yy * b.yy,
        a.yx * b.tx + a.yy * b.ty + a.ty,
        c.tx as int,
        c.ty as int,
    );
    lemma_wrap_args2(a.xx as int, a.xy as int, b.xx * c.xx + b.xy * c.yx, b.yx * c.xx + b.yy * c.yx);
    lemma_wrap_args2(a.yx as int, a.yy as int, b.xx * c.xx + b.xy * c.yx, b.yx * c.xx + b.yy * c.yx);
    lemma_wrap_args2(a.xx as int, a.xy as int, b.xx * c.xy + b.xy * c.yy, b.yx * c.xy + b.yy * c.yy);
    lemma_wrap_args2(a.yx as int, a.yy as int, b.xx * c.xy + b.xy * c.yy, b.yx * c.xy + b.yy * c.yy);
    lemma_wrap_args3(
        a.xx as int,
        a.xy as int,
        a.tx as int,
        b.xx * c.tx + b.xy * c.ty + b.tx,
        b.yx * c.tx + b.yy * c.ty + b.ty,
    );
    lemma_wrap_args3(
        a.yx as int,
        a.yy as int,
        a.ty as int,
        b.xx * c.tx + b.xy * c.ty + b.tx,
        b.yx * c.tx + b.yy * c.ty + b.ty,
    );
    lemma_linear_row(a.xx as int, a.xy as int, b.xx as int, b.yx as int, b.xy as int, b.yy as int, c.xx as int, c.yx as int);
    lemma_linear_row(a.yx as int, a.yy as int, b.xx as int, b.yx as int, b.xy as int, b.yy as int, c.xx as int, c.yx as int);
    lemma_linear_row(a.xx as int, a.xy as int, b.xx as int, b.yx as int, b.xy as int, b.yy as int, c.xy as int, c.yy as int);
    lemma_linear_row(a.yx as int, a.yy as int, b.xx as int, b.yx as int, b.xy as int, b.yy as int, c.xy as int, c.yy as int);
    lemma_affine_row(
        a.xx as int,
        a.xy as int,
        a.tx as int,
        b.xx as int,
        b.yx as int,
        b.xy as int,
        b.yy as int,
        b.tx as int,
        b.ty as int,
        c.tx as int,
        c.ty as int,
    );
    lemma_affine_row(
        a.yx as int,
        a.yy as int,
        a.ty as int,
        b.xx as int,
        b.yx as int,
        b.xy as int,
        b.yy as int,
        b.tx as int,
        b.ty as int,
        c.tx as int,
        c.ty as int,
    );
}

} // verus!
