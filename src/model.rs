//! The mathematical model of the viewer: its state, the effect of each
//! input event on that state, and the image box that the state denotes.
use vstd::prelude::*;
use vstd::arithmetic::power::{pow, lemma_pow_adds, lemma_pow_positive};
use crate::ratio::Ratio;

verus! {

/// Width of the image box, in pixels, before any zoom.
pub const BASE_WIDTH: i64 = 256;

/// Height of the image box, in pixels, before any zoom.
pub const BASE_HEIGHT: i64 = 256;

/// The zoom factor `mag` is `MAG_NUM / MAG_DEN`: a tick towards the user
/// multiplies the box size by it, a tick away divides by it.
pub const MAG_NUM: i64 = 9;

pub const MAG_DEN: i64 = 10;

pub open spec fn mag() -> Ratio {
    Ratio::frac(MAG_NUM as int, MAG_DEN as int)
}

/// `t` factors of ten and `n` factors of nine.
pub open spec fn tens_nines(t: nat, n: nat) -> int {
    pow(MAG_DEN as int, t) * pow(MAG_NUM as int, n)
}

/// The size factor after `z` net ticks away from the user: `(1 / mag)^z`.
pub open spec fn scale(z: int) -> Ratio {
    if z >= 0 {
        Ratio::frac(pow(MAG_DEN as int, z as nat), pow(MAG_NUM as int, z as nat))
    } else {
        Ratio::frac(pow(MAG_NUM as int, (-z) as nat), pow(MAG_DEN as int, (-z) as nat))
    }
}

pub open spec fn pos_part(z: int) -> nat {
    if z >= 0 { z as nat } else { 0 }
}

pub open spec fn neg_part(z: int) -> nat {
    if z >= 0 { 0 } else { (-z) as nat }
}

proof fn lemma_scale_parts(z: int)
    ensures
        scale(z).num == tens_nines(pos_part(z), neg_part(z)),
        scale(z).den == tens_nines(neg_part(z), pos_part(z)),
        scale(z).den > 0,
        scale(z).num > 0,
{
    assert(pow(MAG_DEN as int, 0) == 1) by { reveal(pow); }
    assert(pow(MAG_NUM as int, 0) == 1) by { reveal(pow); }
    lemma_pow_positive(MAG_DEN as int, pos_part(z));
    lemma_pow_positive(MAG_NUM as int, pos_part(z));
    lemma_pow_positive(MAG_DEN as int, neg_part(z));
    lemma_pow_positive(MAG_NUM as int, neg_part(z));
}

proof fn lemma_tens_nines_mul(t1: nat, n1: nat, t2: nat, n2: nat)
    ensures
        tens_nines(t1, n1) * tens_nines(t2, n2) == tens_nines(t1 + t2, n1 + n2),
{
    let a = pow(MAG_DEN as int, t1);
    let b = pow(MAG_NUM as int, n1);
    let c = pow(MAG_DEN as int, t2);
    let d = pow(MAG_NUM as int, n2);
    lemma_pow_adds(MAG_DEN as int, t1, t2);
    lemma_pow_adds(MAG_NUM as int, n1, n2);
    assert((a * b) * (c * d) == (a * c) * (b * d)) by (nonlinear_arith);
}

/// The size factor has a positive numerator and denominator.
pub proof fn lemma_scale_positive(z: int)
    ensures
        scale(z).num > 0,
        scale(z).den > 0,
{
    lemma_scale_parts(z);
}

/// Zooming by `a` ticks and then by `b` ticks is zooming by `a + b` ticks.
pub proof fn lemma_scale_add(a: int, b: int)
    ensures
        scale(a + b).eqv(scale(a).times(scale(b))),
{
    lemma_scale_parts(a);
    lemma_scale_parts(b);
    lemma_scale_parts(a + b);
    let (pa, qa, pb, qb) = (pos_part(a), neg_part(a), pos_part(b), neg_part(b));
    let (p, q) = (pos_part(a + b), neg_part(a + b));
    lemma_tens_nines_mul(pa, qa, pb, qb);
    lemma_tens_nines_mul(qa, pa, qb, pb);
    lemma_tens_nines_mul(p, q, qa + qb, pa + pb);
    lemma_tens_nines_mul(pa + pb, qa + qb, q, p);
    assert(p + (qa + qb) == (pa + pb) + q);
    assert(q + (pa + pb) == (qa + qb) + p);
}

/// One tick away from the user divides the size by `mag`; one tick
/// towards the user multiplies it by `mag`.
pub proof fn lemma_scale_step(z: int)
    ensures
        scale(z + 1).eqv(scale(z).over(mag())),
        scale(z - 1).eqv(scale(z).times(mag())),
{
    assert(pow(MAG_DEN as int, 1) == MAG_DEN) by { reveal_with_fuel(pow, 2); }
    assert(pow(MAG_NUM as int, 1) == MAG_NUM) by { reveal_with_fuel(pow, 2); }
    lemma_scale_add(z, 1);
    lemma_scale_add(z, -1);
}

/// `v` saturated to the range of `i64`.
pub open spec fn clamp_i64(v: int) -> int {
    if v < i64::MIN {
        i64::MIN as int
    } else if v > i64::MAX {
        i64::MAX as int
    } else {
        v
    }
}

pub open spec fn in_i64(v: int) -> bool {
    i64::MIN <= v <= i64::MAX
}

/// The viewer's state. The image box has its centre at
/// `(center_x, center_y)` and the size `(BASE_WIDTH, BASE_HEIGHT)` times
/// `scale(zoom)`; `last_x`, `last_y` is where the pointer was last seen
/// during a drag.
pub struct ViewerModel {
    pub image_source: Seq<char>,
    pub center_x: int,
    pub center_y: int,
    pub zoom: int,
    pub is_moving: bool,
    pub last_x: int,
    pub last_y: int,
}

impl ViewerModel {
    /// A fresh viewer: box at `(0, 0)` of the base size, not dragging.
    pub open spec fn initial(image_source: Seq<char>) -> ViewerModel {
        ViewerModel {
            image_source,
            center_x: BASE_WIDTH / 2,
            center_y: BASE_HEIGHT / 2,
            zoom: 0,
            is_moving: false,
            last_x: 0,
            last_y: 0,
        }
    }

    /// Primary button pressed at `(x, y)`: a drag starts there.
    pub open spec fn pressed(self, x: int, y: int) -> ViewerModel {
        ViewerModel { is_moving: true, last_x: x, last_y: y, ..self }
    }

    /// Primary button released: the drag ends, the last position stays.
    pub open spec fn released(self) -> ViewerModel {
        ViewerModel { is_moving: false, ..self }
    }

    /// Pointer moved to `(x, y)`: while dragging, the box follows the
    /// pointer by the distance it moved since it was last seen.
    pub open spec fn moved(self, x: int, y: int) -> ViewerModel {
        if self.is_moving {
            ViewerModel {
                center_x: clamp_i64(self.center_x + (x - self.last_x)),
                center_y: clamp_i64(self.center_y + (y - self.last_y)),
                last_x: x,
                last_y: y,
                ..self
            }
        } else {
            self
        }
    }

    /// The wheel turned by `rev`: one zoom step in its direction, about
    /// the centre of the box.
    pub open spec fn wheeled(self, rev: int) -> ViewerModel {
        if rev > 0 {
            ViewerModel { zoom: clamp_i64(self.zoom + 1), ..self }
        } else if rev < 0 {
            ViewerModel { zoom: clamp_i64(self.zoom - 1), ..self }
        } else {
            self
        }
    }

    pub open spec fn width(self) -> Ratio {
        Ratio::from_int(BASE_WIDTH as int).times(scale(self.zoom))
    }

    pub open spec fn height(self) -> Ratio {
        Ratio::from_int(BASE_HEIGHT as int).times(scale(self.zoom))
    }

    /// Left offset of the box within its parent.
    pub open spec fn left(self) -> Ratio {
        Ratio::from_int(self.center_x).minus(self.width().half())
    }

    /// Top offset of the box within its parent.
    pub open spec fn top(self) -> Ratio {
        Ratio::from_int(self.center_y).minus(self.height().half())
    }
}

/// A box edge `c - w / 2` moved by half the change of size from `w` to
/// `w2` is the edge `c - w2 / 2` of the resized box with the same centre.
pub proof fn lemma_recenter(c: int, w: Ratio, w2: Ratio)
    ensures
        Ratio::from_int(c).minus(w2.half()).eqv(
            Ratio::from_int(c).minus(w.half()).plus(w.minus(w2).half()),
        ),
{
    let (a, b, a2, b2) = (w.num, w.den, w2.num, w2.den);
    let x = c * (2 * b2) - a2 * 1;
    let bb = b * b;
    let t1 = (c * (2 * b) - a * 1) * (2 * (b * b2));
    let t2 = (a * b2 - a2 * b) * (1 * (2 * b));
    assert(t1 == 4 * c * bb * b2 - 2 * a * b * b2) by (nonlinear_arith)
        requires
            t1 == (c * (2 * b) - a * 1) * (2 * (b * b2)),
            bb == b * b,
    ;
    assert(t2 == 2 * a * b * b2 - 2 * a2 * bb) by (nonlinear_arith)
        requires
            t2 == (a * b2 - a2 * b) * (1 * (2 * b)),
            bb == b * b,
    ;
    assert(t1 + t2 == 2 * bb * x) by (nonlinear_arith)
        requires
            t1 == 4 * c * bb * b2 - 2 * a * b * b2,
            t2 == 2 * a * b * b2 - 2 * a2 * bb,
            x == c * (2 * b2) - a2 * 1,
    ;
    assert(x * ((1 * (2 * b)) * (2 * (b * b2))) == (t1 + t2) * (1 * (2 * b2)))
        by (nonlinear_arith)
        requires
            t1 + t2 == 2 * bb * x,
            bb == b * b,
    ;
}

/// The edge `c - w / 2` moved by `d` is the edge of the box centred at
/// `c + d`.
pub proof fn lemma_shift(c: int, d: int, w: Ratio)
    ensures
        Ratio::from_int(c + d).minus(w.half()).eqv(
            Ratio::from_int(c).minus(w.half()).plus(Ratio::from_int(d)),
        ),
{
    let (a, b) = (w.num, w.den);
    assert(((c + d) * (2 * b) - a * 1) * ((1 * (2 * b)) * 1) == ((c * (2 * b) - a * 1) * 1 + d * (1
        * (2 * b))) * (1 * (2 * b))) by (nonlinear_arith);
}

/// The centre `(c - w / 2) + w / 2` of a box is `c`.
pub proof fn lemma_center(c: int, w: Ratio)
    requires
        w.den > 0,
    ensures
        Ratio::from_int(c).minus(w.half()).plus(w.half()).eqv(Ratio::from_int(c)),
{
    let (a, b) = (w.num, w.den);
    assert(((c * (2 * b) - a * 1) * (2 * b) + a * (1 * (2 * b))) * 1 == c * ((1 * (2 * b)) * (2
        * b))) by (nonlinear_arith);
}

} // verus!
