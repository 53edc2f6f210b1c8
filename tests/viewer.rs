use gif_viewer::model::{BASE_HEIGHT, BASE_WIDTH, MAG_DEN, MAG_NUM};
use gif_viewer::viewer::{
    GifViewer, MouseDownEvent, MouseMoveEvent, MouseUpEvent, Point, ScrollWheelEvent,
};

const EPS: f64 = 1e-9;

fn viewer() -> GifViewer {
    GifViewer::new(String::from("black-cat-typing.gif"))
}

fn down(v: &mut GifViewer, x: i64, y: i64) {
    v.on_mouse_down(&MouseDownEvent { position: Point::new(x, y) });
}

fn up(v: &mut GifViewer, x: i64, y: i64) {
    v.on_mouse_up(&MouseUpEvent { position: Point::new(x, y) });
}

fn move_to(v: &mut GifViewer, x: i64, y: i64) {
    v.on_mouse_move(&MouseMoveEvent { position: Point::new(x, y) });
}

fn wheel(v: &mut GifViewer, rev: i64) {
    v.on_scroll_wheel(&ScrollWheelEvent { delta_y: rev });
}

/// The box `(l, t, w, h)` in pixels, as the display computes it.
fn box_px(v: &GifViewer) -> (f64, f64, f64, f64) {
    let s = (MAG_DEN as f64 / MAG_NUM as f64).powi(v.zoom() as i32);
    let w = BASE_WIDTH as f64 * s;
    let h = BASE_HEIGHT as f64 * s;
    let c = v.center();
    (c.x as f64 - w / 2.0, c.y as f64 - h / 2.0, w, h)
}

fn assert_box(v: &GifViewer, l: f64, t: f64, w: f64, h: f64) {
    let (bl, bt, bw, bh) = box_px(v);
    assert!((bl - l).abs() < EPS, "l = {bl}, expected {l}");
    assert!((bt - t).abs() < EPS, "t = {bt}, expected {t}");
    assert!((bw - w).abs() < EPS, "w = {bw}, expected {w}");
    assert!((bh - h).abs() < EPS, "h = {bh}, expected {h}");
}

#[test]
fn initial_state() {
    let v = viewer();
    assert_eq!(v.image_source(), "black-cat-typing.gif");
    assert_eq!(v.center(), Point::new(128, 128));
    assert_eq!(v.zoom(), 0);
    assert!(!v.is_moving());
    assert_box(&v, 0.0, 0.0, 256.0, 256.0);
}

#[test]
fn drag_moves_box_by_pointer_delta() {
    let mut v = viewer();
    down(&mut v, 10, 10);
    move_to(&mut v, 15, 20);
    up(&mut v, 15, 20);
    assert_box(&v, 5.0, 10.0, 256.0, 256.0);
    assert_eq!(v.center(), Point::new(133, 138));
    assert!(!v.is_moving());
}

#[test]
fn move_without_press_changes_nothing() {
    let mut v = viewer();
    move_to(&mut v, 50, 50);
    assert_box(&v, 0.0, 0.0, 256.0, 256.0);
    assert_eq!(v.center(), Point::new(128, 128));
    assert_eq!(v.zoom(), 0);
    assert!(!v.is_moving());
}

#[test]
fn one_tick_away_zooms_in_about_center() {
    let mut v = viewer();
    wheel(&mut v, 1);
    let w: f64 = 256.0 / 0.9;
    assert!((w - 284.444_444_444_444).abs() < 1e-9);
    assert_box(&v, -14.222_222_222_222_2, -14.222_222_222_222_2, w, w);
    assert_eq!(v.zoom(), 1);
    assert_eq!(v.center(), Point::new(128, 128));
}

#[test]
fn ten_ticks_each_way_return_to_start() {
    let mut v = viewer();
    for _ in 0..10 {
        wheel(&mut v, 1);
    }
    for _ in 0..10 {
        wheel(&mut v, -1);
    }
    assert_eq!(v.zoom(), 0);
    assert_eq!(v.center(), Point::new(128, 128));
    assert_box(&v, 0.0, 0.0, 256.0, 256.0);
}

#[test]
fn drag_then_zoom() {
    let mut v = viewer();
    down(&mut v, 0, 0);
    move_to(&mut v, 100, 0);
    up(&mut v, 100, 0);
    wheel(&mut v, 1);
    let w: f64 = 256.0 / 0.9;
    let shift = (w - 256.0) / 2.0;
    assert_box(&v, 100.0 - shift, -shift, w, w);
    assert!((shift - 14.222_222_222_222_2).abs() < 1e-9);
}

#[test]
fn drag_accumulates_deltas() {
    let mut v = viewer();
    down(&mut v, 0, 0);
    move_to(&mut v, 10, 0);
    move_to(&mut v, 30, 0);
    up(&mut v, 30, 0);
    assert_box(&v, 30.0, 0.0, 256.0, 256.0);
}

#[test]
fn pan_additivity_from_offset_start() {
    let mut v = viewer();
    down(&mut v, 0, 0);
    move_to(&mut v, -40, 7);
    up(&mut v, -40, 7);
    wheel(&mut v, -3);
    let (l0, t0, w0, h0) = box_px(&v);
    down(&mut v, 5, 5);
    move_to(&mut v, 90, -20);
    move_to(&mut v, 25, -11);
    up(&mut v, 25, -11);
    assert_box(&v, l0 + 20.0, t0 - 16.0, w0, h0);
    assert!(!v.is_moving());
}

#[test]
fn idle_moves_leave_state_unchanged() {
    let mut v = viewer();
    wheel(&mut v, 2);
    down(&mut v, 3, 4);
    move_to(&mut v, 13, 14);
    up(&mut v, 13, 14);
    let before = (v.center(), v.zoom(), v.last_position());
    for i in 0..20 {
        move_to(&mut v, i * 7 - 50, 300 - i * 3);
    }
    assert_eq!((v.center(), v.zoom(), v.last_position()), before);
    assert!(!v.is_moving());
}

#[test]
fn negative_tick_zooms_out_about_center() {
    let mut v = viewer();
    wheel(&mut v, -1);
    assert_eq!(v.zoom(), -1);
    assert_box(&v, 12.8, 12.8, 230.4, 230.4);
}

#[test]
fn zoom_ratio_any_interleaving() {
    let mut v = viewer();
    for rev in [1, -1, 5, 5, -2, 1, 0, 3, -7] {
        wheel(&mut v, rev);
    }
    // five ticks away, three towards
    assert_eq!(v.zoom(), 2);
    let w = 256.0 * 0.9f64.powi(-2);
    assert_box(&v, 128.0 - w / 2.0, 128.0 - w / 2.0, w, w);
}

#[test]
fn zoom_keeps_center_each_step() {
    let mut v = viewer();
    down(&mut v, 0, 0);
    move_to(&mut v, 33, -17);
    up(&mut v, 33, -17);
    for rev in [1, 1, -1, -1, -1, 4] {
        let (l, t, w, h) = box_px(&v);
        wheel(&mut v, rev);
        let (l2, t2, w2, h2) = box_px(&v);
        assert!((l + w / 2.0 - (l2 + w2 / 2.0)).abs() < EPS);
        assert!((t + h / 2.0 - (t2 + h2 / 2.0)).abs() < EPS);
        assert!((l2 - (l + (w - w2) / 2.0)).abs() < EPS);
        assert!((t2 - (t + (h - h2) / 2.0)).abs() < EPS);
    }
}

#[test]
fn zero_wheel_delta_is_noop() {
    let mut v = viewer();
    wheel(&mut v, 1);
    down(&mut v, 9, 9);
    let before = (v.center(), v.zoom(), v.is_moving(), v.last_position());
    wheel(&mut v, 0);
    assert_eq!((v.center(), v.zoom(), v.is_moving(), v.last_position()), before);
}

#[test]
fn pan_keeps_size_and_zoom_keeps_drag() {
    let mut v = viewer();
    wheel(&mut v, -2);
    down(&mut v, 1, 2);
    move_to(&mut v, 40, 50);
    assert_eq!(v.zoom(), -1);
    wheel(&mut v, 1);
    assert!(v.is_moving());
    assert_eq!(v.last_position(), Point::new(40, 50));
    up(&mut v, 40, 50);
    assert_eq!(v.zoom(), 0);
}

#[test]
fn release_keeps_last_position() {
    let mut v = viewer();
    down(&mut v, 4, 6);
    move_to(&mut v, 8, 9);
    up(&mut v, 100, 100);
    assert!(!v.is_moving());
    assert_eq!(v.last_position(), Point::new(8, 9));
}

#[test]
fn repeated_press_restarts_drag_from_new_point() {
    let mut v = viewer();
    down(&mut v, 0, 0);
    down(&mut v, 50, 50);
    move_to(&mut v, 60, 55);
    assert_eq!(v.center(), Point::new(138, 133));
    assert!(v.is_moving());
}

#[test]
fn pan_saturates_at_integer_limits() {
    let mut v = viewer();
    down(&mut v, i64::MIN, 0);
    move_to(&mut v, i64::MAX, 0);
    assert_eq!(v.center(), Point::new(i64::MAX, 128));
    move_to(&mut v, i64::MIN, 0);
    assert_eq!(v.center().x, i64::MIN);
    down(&mut v, i64::MAX, 0);
    move_to(&mut v, i64::MIN, 0);
    assert_eq!(v.center().x, i64::MIN);
}

#[test]
fn large_wheel_delta_is_one_step() {
    let mut v = viewer();
    wheel(&mut v, i64::MAX);
    assert_eq!(v.zoom(), 1);
    wheel(&mut v, i64::MIN);
    assert_eq!(v.zoom(), 0);
}
