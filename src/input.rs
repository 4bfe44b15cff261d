use vstd::prelude::*;
use crate::view::CustomMaterial;

verus! {

/// Center units of keyboard pan per zoom unit per microsecond
/// (200 screen units per second).
pub const KEY_PAN_RATE: i128 = 2;

/// Center units of drag pan per pixel of cursor motion, per zoom unit, per
/// microsecond (100 screen units per second per pixel).
pub const DRAG_PAN_RATE: i128 = 1;

/// Microseconds of key hold that change the zoom by its whole value
/// (a relative rate of 2.5 per second).
pub const KEY_ZOOM_DIVISOR: i128 = 400000;

/// The same rate for wheel steps measured in thousandths of a line.
pub const WHEEL_ZOOM_DIVISOR: i128 = 400000000;

/// The cursor position from which the next drag delta is measured.
#[derive(Clone, Copy, Debug, PartialEq, Eq, Structural)]
pub struct DragOrigin {
    pub x: i32,
    pub y: i32,
}

impl DragOrigin {
    pub fn new() -> (r: DragOrigin)
        ensures
            r == (DragOrigin { x: 0, y: 0 }),
    {
        DragOrigin { x: 0, y: 0 }
    }
}

/// Keys held during the frame.
#[derive(Clone, Copy, Debug, PartialEq, Eq, Structural)]
pub struct HeldKeys {
    pub left: bool,
    pub right: bool,
    pub up: bool,
    pub down: bool,
    /// Grows the zoom at the key rate.
    pub zoom_in: bool,
    /// Shrinks the zoom at the key rate.
    pub zoom_out: bool,
}

/// The primary mouse button during the frame.
#[derive(Clone, Copy, Debug, PartialEq, Eq, Structural)]
pub struct PrimaryButton {
    pub just_pressed: bool,
    pub pressed: bool,
    pub just_released: bool,
}

#[derive(Clone, Copy, Debug, PartialEq, Eq, Structural)]
pub enum ScrollUnit {
    Line,
    Pixel,
}

/// One wheel event; `y_milli` is the signed scroll amount in thousandths.
#[derive(Clone, Copy, Debug, PartialEq, Eq, Structural)]
pub struct WheelEvent {
    pub unit: ScrollUnit,
    pub y_milli: i32,
}

/// What the host reports for one frame.
#[derive(Debug)]
pub struct FrameInput {
    pub keys: HeldKeys,
    pub wheel: Vec<WheelEvent>,
    pub button: PrimaryButton,
    /// Cursor position in pixels, `None` when it is outside the window.
    pub cursor: Option<(i32, i32)>,
    /// Elapsed time since the previous frame.
    pub dt_micros: u32,
}

/// What the host is asked to do with the system cursor.
#[derive(Clone, Copy, Debug, PartialEq, Eq, Structural)]
pub enum CursorRequest {
    Keep,
    Hide,
    Show,
}

/// Cursor x, 0 when unavailable.
pub open spec fn cursor_x(c: Option<(i32, i32)>) -> int {
    match c {
        Some(p) => p.0 as int,
        None => 0,
    }
}

/// Cursor y, 0 when unavailable.
pub open spec fn cursor_y(c: Option<(i32, i32)>) -> int {
    match c {
        Some(p) => p.1 as int,
        None => 0,
    }
}

/// The cursor as a drag origin.
pub open spec fn origin_at(c: Option<(i32, i32)>) -> DragOrigin {
    DragOrigin { x: cursor_x(c) as i32, y: cursor_y(c) as i32 }
}

/// The wheel events applied in order: each line event multiplies the zoom by
/// `1 - 2.5 * dt * y`; pixel events change nothing.
pub open spec fn after_wheel(v: CustomMaterial, events: Seq<WheelEvent>, dt: u32) -> CustomMaterial
    decreases events.len(),
{
    if events.len() == 0 {
        v
    } else {
        let w = after_wheel(v, events.drop_last(), dt);
        let e = events.last();
        match e.unit {
            ScrollUnit::Line => w.zoomed(-(dt * e.y_milli), WHEEL_ZOOM_DIVISOR as int),
            ScrollUnit::Pixel => w,
        }
    }
}

/// The origin after a possible press: the cursor on the press frame.
pub open spec fn origin_after_press(o: DragOrigin, input: FrameInput) -> DragOrigin {
    if input.button.just_pressed {
        origin_at(input.cursor)
    } else {
        o
    }
}

/// The drag pan while the button is held, measured from `o`: dragging right
/// moves the center left, dragging down moves it up.
pub open spec fn after_drag(v: CustomMaterial, o: DragOrigin, input: FrameInput) -> CustomMaterial {
    if input.button.pressed {
        let k = DRAG_PAN_RATE * v.zoom * input.dt_micros;
        v.panned(
            -(k * (cursor_x(input.cursor) - o.x)),
            k * (cursor_y(input.cursor) - o.y),
        )
    } else {
        v
    }
}

/// The origin at the end of the frame.
pub open spec fn origin_after_frame(o: DragOrigin, input: FrameInput) -> DragOrigin {
    if input.button.pressed {
        origin_at(input.cursor)
    } else {
        origin_after_press(o, input)
    }
}

/// One keyboard pan step: `200 * zoom * dt` in the plane.
pub open spec fn key_step(v: CustomMaterial, dt: u32) -> int {
    KEY_PAN_RATE * v.zoom * dt
}

/// The four directional keys applied in the order left, right, up, down.
pub open spec fn after_keys_pan(v: CustomMaterial, keys: HeldKeys, dt: u32) -> CustomMaterial {
    let s = key_step(v, dt);
    let v1 = if keys.left { v.panned(-s, 0) } else { v };
    let v2 = if keys.right { v1.panned(s, 0) } else { v1 };
    let v3 = if keys.up { v2.panned(0, s) } else { v2 };
    if keys.down { v3.panned(0, -s) } else { v3 }
}

/// The zoom keys: zoom in multiplies by `1 + 2.5 * dt`, then zoom out by
/// `1 - 2.5 * dt`.
pub open spec fn after_keys_zoom(v: CustomMaterial, keys: HeldKeys, dt: u32) -> CustomMaterial {
    let v1 = if keys.zoom_in { v.zoomed(dt as int, KEY_ZOOM_DIVISOR as int) } else { v };
    if keys.zoom_out { v1.zoomed(-dt, KEY_ZOOM_DIVISOR as int) } else { v1 }
}

/// The view after one frame.
pub open spec fn frame_view(v: CustomMaterial, o: DragOrigin, input: FrameInput) -> CustomMaterial {
    let dt = input.dt_micros;
    let v1 = after_wheel(v, input.wheel@, dt);
    let v2 = after_drag(v1, origin_after_press(o, input), input);
    let v3 = after_keys_pan(v2, input.keys, dt);
    after_keys_zoom(v3, input.keys, dt)
}

/// The cursor request of one frame: hide while held, show on release.
pub open spec fn cursor_request(b: PrimaryButton) -> CursorRequest {
    if b.just_released {
        CursorRequest::Show
    } else if b.pressed {
        CursorRequest::Hide
    } else {
        CursorRequest::Keep
    }
}

/// Applies the wheel events of a frame to the view.
fn apply_wheel(view: &mut CustomMaterial, wheel: &Vec<WheelEvent>, dt: u32)
    requires
        old(view).wf(),
    ensures
        *final(view) == after_wheel(*old(view), wheel@, dt),
        final(view).wf(),
{
    let ghost v0 = *view;
    let mut i: usize = 0;
    while i < wheel.len()
        invariant
            0 <= i <= wheel@.len(),
            view.wf(),
            *view == after_wheel(v0, wheel@.take(i as int), dt),
        decreases wheel@.len() - i,
    {
        let e = wheel[i];
        assert(wheel@.take(i + 1).drop_last() == wheel@.take(i as int));
        match e.unit {
            ScrollUnit::Line => {
                assert(-0x8000_0000_0000_0000 < dt * e.y_milli < 0x8000_0000_0000_0000) by (nonlinear_arith)
                    requires
                        0 <= dt <= 0xffff_ffff,
                        -0x8000_0000 <= e.y_milli <= 0x7fff_ffff,
                ;
                let prod: i64 = dt as i64 * e.y_milli as i64;
                view.zoom_by(-(prod as i128), WHEEL_ZOOM_DIVISOR);
            },
            ScrollUnit::Pixel => {},
        }
        i = i + 1;
    }
    assert(wheel@.take(wheel@.len() as int) == wheel@);
}

/// Updates the view and the drag origin from one frame of input, and says
/// what to do with the system cursor.
pub fn move_camera(view: &mut CustomMaterial, origin: &mut DragOrigin, input: &FrameInput) -> (r:
    CursorRequest)
    requires
        old(view).wf(),
    ensures
        final(view).wf(),
        *final(view) == frame_view(*old(view), *old(origin), *input),
        *final(origin) == origin_after_frame(*old(origin), *input),
        r == cursor_request(input.button),
{
    let dt = input.dt_micros;
    let cx: i32 = match input.cursor {
        Some(p) => p.0,
        None => 0,
    };
    let cy: i32 = match input.cursor {
        Some(p) => p.1,
        None => 0,
    };
    let mut request = CursorRequest::Keep;

    apply_wheel(view, &input.wheel, dt);

    if input.button.just_pressed {
        origin.x = cx;
        origin.y = cy;
    }

    if input.button.pressed {
        request = CursorRequest::Hide;
        assert(0 <= (view.zoom as int) * dt <= 0x1_0000_0000_0000 * 0x1_0000_0000) by (nonlinear_arith)
            requires
                view.zoom <= 0x1_0000_0000_0000,
                0 <= dt <= 0xffff_ffff,
        ;
        let k: i128 = DRAG_PAN_RATE * view.zoom as i128 * dt as i128;
        let ddx: i128 = cx as i128 - origin.x as i128;
        let ddy: i128 = cy as i128 - origin.y as i128;
        assert(-0x1_0000_0000_0000_0000_0000_0000_0000 <= k * ddx <= 0x1_0000_0000_0000_0000_0000_0000_0000)
            by (nonlinear_arith)
            requires
                0 <= k <= 0x1_0000_0000_0000 * 0x1_0000_0000,
                -0x1_0000_0000 <= ddx <= 0x1_0000_0000,
        ;
        assert(-0x1_0000_0000_0000_0000_0000_0000_0000 <= k * ddy <= 0x1_0000_0000_0000_0000_0000_0000_0000)
            by (nonlinear_arith)
            requires
                0 <= k <= 0x1_0000_0000_0000 * 0x1_0000_0000,
                -0x1_0000_0000 <= ddy <= 0x1_0000_0000,
        ;
        view.pan(-(k * ddx), k * ddy);
        origin.x = cx;
        origin.y = cy;
    }

    if input.button.just_released {
        request = CursorRequest::Show;
    }

    assert(0 <= 2 * (view.zoom as int) * dt <= 2 * 0x1_0000_0000_0000 * 0x1_0000_0000) by (nonlinear_arith)
        requires
            view.zoom <= 0x1_0000_0000_0000,
            0 <= dt <= 0xffff_ffff,
    ;
    let s: i128 = KEY_PAN_RATE * view.zoom as i128 * dt as i128;
    if input.keys.left {
        view.pan(-s, 0);
    }
    if input.keys.right {
        view.pan(s, 0);
    }
    if input.keys.up {
        view.pan(0, s);
    }
    if input.keys.down {
        view.pan(0, -s);
    }
    if input.keys.zoom_in {
        view.zoom_by(dt as i128, KEY_ZOOM_DIVISOR);
    }
    if input.keys.zoom_out {
        view.zoom_by(-(dt as i128), KEY_ZOOM_DIVISOR);
    }
    request
}

} // verus!
