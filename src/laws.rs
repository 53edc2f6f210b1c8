//! Laws that relate sequences of input events to the image box.
use vstd::prelude::*;
use crate::model::{in_i64, lemma_center, lemma_scale_add, lemma_scale_positive, lemma_shift,
    scale, ViewerModel};
use crate::ratio::{lemma_eqv_sym, lemma_eqv_trans, Ratio};
use crate::viewer::Point;

verus! {

/// The state after the pointer moved through `ps`, in order.
pub open spec fn moved_along(v: ViewerModel, ps: Seq<Point>) -> ViewerModel
    decreases ps.len(),
{
    if ps.len() == 0 {
        v
    } else {
        moved_along(v, ps.drop_last()).moved(ps.last().x as int, ps.last().y as int)
    }
}

/// The state after the wheel turned by each of `revs`, in order.
pub open spec fn wheeled_along(v: ViewerModel, revs: Seq<i64>) -> ViewerModel
    decreases revs.len(),
{
    if revs.len() == 0 {
        v
    } else {
        wheeled_along(v, revs.drop_last()).wheeled(revs.last() as int)
    }
}

/// How many of `revs` are positive.
pub open spec fn count_positive(revs: Seq<i64>) -> int
    decreases revs.len(),
{
    if revs.len() == 0 {
        0
    } else {
        count_positive(revs.drop_last()) + if revs.last() > 0 { 1int } else { 0 }
    }
}

/// How many of `revs` are negative.
pub open spec fn count_negative(revs: Seq<i64>) -> int
    decreases revs.len(),
{
    if revs.len() == 0 {
        0
    } else {
        count_negative(revs.drop_last()) + if revs.last() < 0 { 1int } else { 0 }
    }
}

/// A drag that presses at `p0`, passes `p1` and is released at `p2`
/// moves the box by `p2 - p0` and leaves no drag in progress, whatever
/// the state it started from.
pub proof fn lemma_pan_additivity(v: ViewerModel, p0: Point, p1: Point, p2: Point)
    requires
        in_i64(v.center_x + (p1.x - p0.x)),
        in_i64(v.center_x + (p2.x - p0.x)),
        in_i64(v.center_y + (p1.y - p0.y)),
        in_i64(v.center_y + (p2.y - p0.y)),
    ensures
        ({
            let r = v.pressed(p0.x as int, p0.y as int).moved(p1.x as int, p1.y as int).moved(
                p2.x as int,
                p2.y as int,
            ).released();
            &&& r.left().eqv(v.left().plus(Ratio::from_int(p2.x - p0.x)))
            &&& r.top().eqv(v.top().plus(Ratio::from_int(p2.y - p0.y)))
            &&& r.width() == v.width()
            &&& r.height() == v.height()
            &&& !r.is_moving
        }),
{
    lemma_shift(v.center_x, p2.x - p0.x, v.width());
    lemma_shift(v.center_y, p2.y - p0.y, v.height());
}

/// With no drag in progress, pointer moves change nothing.
pub proof fn lemma_idle_immobility(v: ViewerModel, ps: Seq<Point>)
    requires
        !v.is_moving,
    ensures
        moved_along(v, ps) == v,
    decreases ps.len(),
{
    if ps.len() > 0 {
        lemma_idle_immobility(v, ps.drop_last());
    }
}

/// After `k` steps away from the user and `m` towards, in any order, the
/// box size is the starting size times `(1 / mag)^(k - m)`, that is
/// `mag^(m - k)`; the centre and the drag state are as they were.
pub proof fn lemma_zoom_ratio(v: ViewerModel, revs: Seq<i64>)
    requires
        i64::MIN + revs.len() <= v.zoom <= i64::MAX - revs.len(),
    ensures
        ({
            let r = wheeled_along(v, revs);
            let d = count_positive(revs) - count_negative(revs);
            &&& r.zoom == v.zoom + d
            &&& r.width().eqv(v.width().times(scale(d)))
            &&& r.height().eqv(v.height().times(scale(d)))
            &&& r.center_x == v.center_x
            &&& r.center_y == v.center_y
            &&& r.is_moving == v.is_moving
        }),
{
    lemma_zoom_count(v, revs);
    let d = count_positive(revs) - count_negative(revs);
    let (z, r) = (v.zoom, wheeled_along(v, revs));
    lemma_scale_add(z, d);
    let (s, sz, sd) = (scale(z + d), scale(z), scale(d));
    let (bw, bh) = (crate::model::BASE_WIDTH as int, crate::model::BASE_HEIGHT as int);
    assert((bw * s.num) * (1 * (sz.den * sd.den)) == ((bw * sz.num) * sd.num) * (1 * s.den))
        by (nonlinear_arith)
        requires
            s.num * (sz.den * sd.den) == (sz.num * sd.num) * s.den,
    ;
    assert((bh * s.num) * (1 * (sz.den * sd.den)) == ((bh * sz.num) * sd.num) * (1 * s.den))
        by (nonlinear_arith)
        requires
            s.num * (sz.den * sd.den) == (sz.num * sd.num) * s.den,
    ;
}

proof fn lemma_zoom_count(v: ViewerModel, revs: Seq<i64>)
    requires
        i64::MIN + revs.len() <= v.zoom <= i64::MAX - revs.len(),
    ensures
        ({
            let r = wheeled_along(v, revs);
            &&& r.zoom == v.zoom + count_positive(revs) - count_negative(revs)
            &&& r == ViewerModel { zoom: r.zoom, ..v }
            &&& count_positive(revs) + count_negative(revs) <= revs.len()
            &&& count_positive(revs) >= 0
            &&& count_negative(revs) >= 0
        }),
    decreases revs.len(),
{
    if revs.len() > 0 {
        lemma_zoom_count(v, revs.drop_last());
    }
}

/// A single zoom step keeps the centre `(left + width / 2, top + height / 2)`
/// of the box where it was.
pub proof fn lemma_zoom_keeps_center(v: ViewerModel, rev: int)
    ensures
        ({
            let r = v.wheeled(rev);
            &&& r.left().plus(r.width().half()).eqv(v.left().plus(v.width().half()))
            &&& r.top().plus(r.height().half()).eqv(v.top().plus(v.height().half()))
        }),
{
    let r = v.wheeled(rev);
    lemma_scale_positive(v.zoom);
    lemma_scale_positive(r.zoom);
    lemma_center(v.center_x, v.width());
    lemma_center(v.center_x, r.width());
    lemma_center(v.center_y, v.height());
    lemma_center(v.center_y, r.height());
    lemma_eqv_sym(v.left().plus(v.width().half()), Ratio::from_int(v.center_x));
    lemma_eqv_sym(v.top().plus(v.height().half()), Ratio::from_int(v.center_y));
    lemma_eqv_trans(
        r.left().plus(r.width().half()),
        Ratio::from_int(v.center_x),
        v.left().plus(v.width().half()),
    );
    lemma_eqv_trans(
        r.top().plus(r.height().half()),
        Ratio::from_int(v.center_y),
        v.top().plus(v.height().half()),
    );
}

/// The box always has a positive width and height.
pub proof fn lemma_size_positive(v: ViewerModel)
    ensures
        v.width().num > 0 && v.width().den > 0,
        v.height().num > 0 && v.height().den > 0,
{
    lemma_scale_positive(v.zoom);
    let s = scale(v.zoom);
    assert(crate::model::BASE_WIDTH * s.num > 0) by (nonlinear_arith)
        requires
            s.num > 0,
    ;
    assert(crate::model::BASE_HEIGHT * s.num > 0) by (nonlinear_arith)
        requires
            s.num > 0,
    ;
}

/// A wheel event with a zero delta changes nothing.
pub proof fn lemma_zero_wheel(v: ViewerModel)
    ensures
        v.wheeled(0) == v,
{
}

/// Dragging never changes the box size, and zooming never changes the
/// drag state.
pub proof fn lemma_independence(v: ViewerModel, x: int, y: int, rev: int)
    ensures
        v.pressed(x, y).zoom == v.zoom,
        v.moved(x, y).zoom == v.zoom,
        v.released().zoom == v.zoom,
        v.moved(x, y).is_moving == v.is_moving,
        v.pressed(x, y).width() == v.width() && v.pressed(x, y).height() == v.height(),
        v.moved(x, y).width() == v.width() && v.moved(x, y).height() == v.height(),
        v.released().width() == v.width() && v.released().height() == v.height(),
        v.wheeled(rev).is_moving == v.is_moving,
        v.wheeled(rev).last_x == v.last_x,
        v.wheeled(rev).last_y == v.last_y,
{
}

} // verus!
