//! The viewer itself: its state and the four input handlers.
use vstd::prelude::*;
use crate::model::{clamp_i64, in_i64, lemma_recenter, lemma_scale_step, lemma_shift, mag, scale,
    ViewerModel, BASE_HEIGHT, BASE_WIDTH};
use crate::ratio::{lemma_eqv_times, Ratio};

verus! {

/// A point in window pixels.
#[derive(Clone, Copy, Debug, PartialEq, Eq, Structural)]
pub struct Point {
    pub x: i64,
    pub y: i64,
}

impl Point {
    pub fn new(x: i64, y: i64) -> (r: Point)
        ensures
            r.x == x,
            r.y == y,
    {
        Point { x, y }
    }
}

/// The primary button went down at `position`.
#[derive(Clone, Copy, Debug, PartialEq, Eq, Structural)]
pub struct MouseDownEvent {
    pub position: Point,
}

/// The primary button went up at `position`.
#[derive(Clone, Copy, Debug, PartialEq, Eq, Structural)]
pub struct MouseUpEvent {
    pub position: Point,
}

/// The pointer is now at `position`.
#[derive(Clone, Copy, Debug, PartialEq, Eq, Structural)]
pub struct MouseMoveEvent {
    pub position: Point,
}

/// The wheel turned; `delta_y` is the vertical part in pixels, positive
/// away from the user.
#[derive(Clone, Copy, Debug, PartialEq, Eq, Structural)]
pub struct ScrollWheelEvent {
    pub delta_y: i64,
}

/// An image shown in a box that the user drags and zooms.
pub struct GifViewer {
    image_source: String,
    center: Point,
    zoom: i64,
    is_moving: bool,
    last_position: Point,
}

impl View for GifViewer {
    type V = ViewerModel;

    closed spec fn view(&self) -> ViewerModel {
        ViewerModel {
            image_source: self.image_source@,
            center_x: self.center.x as int,
            center_y: self.center.y as int,
            zoom: self.zoom as int,
            is_moving: self.is_moving,
            last_x: self.last_position.x as int,
            last_y: self.last_position.y as int,
        }
    }
}

/// `v` saturated to the range of `i64`.
fn saturate(v: i128) -> (r: i64)
    ensures
        r == clamp_i64(v as int),
{
    if v < i64::MIN as i128 {
        i64::MIN
    } else if v > i64::MAX as i128 {
        i64::MAX
    } else {
        v as i64
    }
}

impl GifViewer {
    /// A viewer of `image_source`, its box at `(0, 0)` with the base size.
    pub fn new(image_source: String) -> (r: GifViewer)
        ensures
            r@ == ViewerModel::initial(image_source@),
            r@.left().eqv(Ratio::from_int(0)),
            r@.top().eqv(Ratio::from_int(0)),
            r@.width().eqv(Ratio::from_int(BASE_WIDTH as int)),
            r@.height().eqv(Ratio::from_int(BASE_HEIGHT as int)),
    {
        let r = GifViewer {
            image_source,
            center: Point { x: BASE_WIDTH / 2, y: BASE_HEIGHT / 2 },
            zoom: 0,
            is_moving: false,
            last_position: Point { x: 0, y: 0 },
        };
        proof {
            reveal(vstd::arithmetic::power::pow);
            assert(r@.width().half() == Ratio::frac(BASE_WIDTH as int, 2));
            assert(r@.height().half() == Ratio::frac(BASE_HEIGHT as int, 2));
            assert(r@.center_x * 2 == BASE_WIDTH);
            assert(r@.center_y * 2 == BASE_HEIGHT);
            assert(r@.left().num == r@.center_x * 2 - BASE_WIDTH);
            assert(r@.top().num == r@.center_y * 2 - BASE_HEIGHT);
            assert(r@.left().num * 1 == 0 * r@.left().den);
            assert(r@.top().num * 1 == 0 * r@.top().den);
        }
        r
    }

    /// The path of the image shown.
    pub fn image_source(&self) -> (r: &str)
        ensures
            r@ == self@.image_source,
    {
        self.image_source.as_str()
    }

    /// The centre of the image box.
    pub fn center(&self) -> (r: Point)
        ensures
            r.x == self@.center_x,
            r.y == self@.center_y,
    {
        self.center
    }

    /// Net number of zoom steps away from the user: the box size is the
    /// base size times `scale(zoom)`.
    pub fn zoom(&self) -> (r: i64)
        ensures
            r == self@.zoom,
    {
        self.zoom
    }

    /// Whether a drag is in progress.
    pub fn is_moving(&self) -> (r: bool)
        ensures
            r == self@.is_moving,
    {
        self.is_moving
    }

    /// Where the pointer was last seen during a drag.
    pub fn last_position(&self) -> (r: Point)
        ensures
            r.x == self@.last_x,
            r.y == self@.last_y,
    {
        self.last_position
    }

    /// Starts a drag at the event's position.
    pub fn on_mouse_down(&mut self, event: &MouseDownEvent)
        ensures
            final(self)@ == old(self)@.pressed(event.position.x as int, event.position.y as int),
    {
        self.is_moving = true;
        self.last_position = event.position;
    }

    /// Ends the drag; the last position is kept.
    pub fn on_mouse_up(&mut self, _event: &MouseUpEvent)
        ensures
            final(self)@ == old(self)@.released(),
    {
        self.is_moving = false;
    }

    /// While dragging, moves the box by the distance the pointer moved
    /// since it was last seen; otherwise does nothing.
    pub fn on_mouse_move(&mut self, event: &MouseMoveEvent)
        ensures
            final(self)@ == old(self)@.moved(event.position.x as int, event.position.y as int),
            ({
                let (dx, dy) = (
                    event.position.x - old(self)@.last_x,
                    event.position.y - old(self)@.last_y,
                );
                old(self)@.is_moving && in_i64(old(self)@.center_x + dx) && in_i64(
                    old(self)@.center_y + dy,
                ) ==> final(self)@.left().eqv(old(self)@.left().plus(Ratio::from_int(dx)))
                    && final(self)@.top().eqv(old(self)@.top().plus(Ratio::from_int(dy)))
            }),
            final(self)@.width() == old(self)@.width(),
            final(self)@.height() == old(self)@.height(),
    {
        if self.is_moving {
            let p = event.position;
            self.center.x = saturate(
                self.center.x as i128 + (p.x as i128 - self.last_position.x as i128),
            );
            self.center.y = saturate(
                self.center.y as i128 + (p.y as i128 - self.last_position.y as i128),
            );
            self.last_position = p;
        }
        proof {
            let (o, dx, dy) = (
                old(self)@,
                event.position.x - old(self)@.last_x,
                event.position.y - old(self)@.last_y,
            );
            lemma_shift(o.center_x, dx, o.width());
            lemma_shift(o.center_y, dy, o.height());
        }
    }

    /// Zooms one step in the direction of the vertical wheel delta, keeping
    /// the centre of the box in place; a zero delta does nothing.
    pub fn on_scroll_wheel(&mut self, event: &ScrollWheelEvent)
        ensures
            final(self)@ == old(self)@.wheeled(event.delta_y as int),
            event.delta_y > 0 && old(self)@.zoom < i64::MAX ==> final(self)@.width().eqv(
                old(self)@.width().over(mag()),
            ) && final(self)@.height().eqv(old(self)@.height().over(mag())),
            event.delta_y < 0 && old(self)@.zoom > i64::MIN ==> final(self)@.width().eqv(
                old(self)@.width().times(mag()),
            ) && final(self)@.height().eqv(old(self)@.height().times(mag())),
            final(self)@.left().eqv(
                old(self)@.left().plus(old(self)@.width().minus(final(self)@.width()).half()),
            ),
            final(self)@.top().eqv(
                old(self)@.top().plus(old(self)@.height().minus(final(self)@.height()).half()),
            ),
    {
        let rev = event.delta_y;
        if rev > 0 {
            if self.zoom < i64::MAX {
                self.zoom = self.zoom + 1;
            }
        } else if rev < 0 {
            if self.zoom > i64::MIN {
                self.zoom = self.zoom - 1;
            }
        }
        proof {
            let (o, n) = (old(self)@, self@);
            lemma_scale_step(o.zoom);
            let bw = Ratio::from_int(BASE_WIDTH as int);
            let bh = Ratio::from_int(BASE_HEIGHT as int);
            let z = o.zoom;
            lemma_eqv_times(scale(z + 1), scale(z).over(mag()), bw);
            lemma_eqv_times(scale(z + 1), scale(z).over(mag()), bh);
            lemma_eqv_times(scale(z - 1), scale(z).times(mag()), bw);
            lemma_eqv_times(scale(z - 1), scale(z).times(mag()), bh);
            lemma_recenter(o.center_x, o.width(), n.width());
            lemma_recenter(o.center_y, o.height(), n.height());
        }
    }
}

} // verus!
