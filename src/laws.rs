use vstd::prelude::*;
use crate::input::{
    after_drag, after_keys_pan, after_keys_zoom, after_wheel, cursor_x, cursor_y, frame_view,
    key_step, origin_after_frame, origin_after_press, origin_at, DragOrigin, FrameInput, HeldKeys,
    ScrollUnit, WheelEvent, DRAG_PAN_RATE, WHEEL_ZOOM_DIVISOR,
};
use crate::resize::{resized_scale, WindowResized};
use crate::view::{clamp_zoom, zoom_change, CustomMaterial, ZOOM_MAX, ZOOM_MIN};

verus! {

/// No wheel event of the frame is measured in lines.
pub open spec fn no_line_scroll(events: Seq<WheelEvent>) -> bool {
    forall|i: int| 0 <= i < events.len() ==> (#[trigger] events[i]).unit == ScrollUnit::Pixel
}

/// `input` with its frame duration replaced by `dt`.
pub open spec fn with_dt(input: FrameInput, dt: u32) -> FrameInput {
    FrameInput {
        keys: input.keys,
        wheel: input.wheel,
        button: input.button,
        cursor: input.cursor,
        dt_micros: dt,
    }
}

/// `v` fits in an `i128`.
pub open spec fn in_i128(v: int) -> bool {
    i128::MIN <= v <= i128::MAX
}

proof fn lemma_pixel_scroll_keeps_view(v: CustomMaterial, events: Seq<WheelEvent>, dt: u32)
    requires
        no_line_scroll(events),
    ensures
        after_wheel(v, events, dt) == v,
    decreases events.len(),
{
    if events.len() > 0 {
        let rest = events.drop_last();
        assert forall|i: int| 0 <= i < rest.len() implies (#[trigger] rest[i]).unit
            == ScrollUnit::Pixel by {
            assert(rest[i] == events[i]);
        }
        lemma_pixel_scroll_keeps_view(v, rest, dt);
        assert(events.last() == events[events.len() - 1]);
    }
}

/// Holding the same input for one frame of `2 * dt` moves the view exactly as
/// two frames of `dt` do, wherever zoom does not change during the frame: no
/// zoom key, no line scroll, and no drag motion; and no coordinate saturates.
pub proof fn frame_rate_independence(v: CustomMaterial, o: DragOrigin, input: FrameInput, dt: u32)
    requires
        v.wf(),
        2 * dt <= u32::MAX,
        !input.keys.zoom_in,
        !input.keys.zoom_out,
        no_line_scroll(input.wheel@),
        input.button.pressed ==> origin_at(input.cursor) == origin_after_press(o, input),
        in_i128(v.center.x - 4 * key_step(v, dt)),
        in_i128(v.center.x + 4 * key_step(v, dt)),
        in_i128(v.center.y - 4 * key_step(v, dt)),
        in_i128(v.center.y + 4 * key_step(v, dt)),
    ensures
        ({
            let half = with_dt(input, dt);
            let whole = with_dt(input, (2 * dt) as u32);
            let o1 = origin_after_frame(o, half);
            &&& frame_view(frame_view(v, o, half), o1, half) == frame_view(v, o, whole)
            &&& origin_after_frame(o1, half) == origin_after_frame(o, whole)
        }),
{
    let half = with_dt(input, dt);
    let whole = with_dt(input, (2 * dt) as u32);
    let o1 = origin_after_frame(o, half);
    let s = key_step(v, dt);
    assert(key_step(v, (2 * dt) as u32) == 2 * s) by (nonlinear_arith)
        requires
            s == 2 * v.zoom * dt,
            key_step(v, (2 * dt) as u32) == 2 * v.zoom * ((2 * dt) as u32),
            (2 * dt) as u32 == 2 * dt,
    ;
    assert(0 <= s) by (nonlinear_arith)
        requires
            s == 2 * v.zoom * dt,
    ;
    lemma_pixel_scroll_keeps_view(v, input.wheel@, dt);
    lemma_pixel_scroll_keeps_view(v, input.wheel@, (2 * dt) as u32);
    if input.button.pressed {
        let p = origin_after_press(o, input);
        match input.cursor {
            Some(c) => {
                assert(cursor_x(input.cursor) == p.x && cursor_y(input.cursor) == p.y);
            },
            None => {
                assert(cursor_x(input.cursor) == p.x && cursor_y(input.cursor) == p.y);
            },
        }
        assert(v.panned(0, 0) == v);
        let dx = cursor_x(input.cursor) - p.x;
        let dy = cursor_y(input.cursor) - p.y;
        assert(DRAG_PAN_RATE * v.zoom * dt * dx == 0) by (nonlinear_arith)
            requires
                dx == 0,
        ;
        assert(DRAG_PAN_RATE * v.zoom * dt * dy == 0) by (nonlinear_arith)
            requires
                dy == 0,
        ;
        assert(DRAG_PAN_RATE * v.zoom * ((2 * dt) as u32) * dx == 0) by (nonlinear_arith)
            requires
                dx == 0,
        ;
        assert(DRAG_PAN_RATE * v.zoom * ((2 * dt) as u32) * dy == 0) by (nonlinear_arith)
            requires
                dy == 0,
        ;
    }
    assert(after_drag(v, origin_after_press(o, half), half) == v);
    assert(after_drag(v, origin_after_press(o, whole), whole) == v);
    let v1 = frame_view(v, o, half);
    assert(v1 == after_keys_pan(v, input.keys, dt));
    assert(v1.zoom == v.zoom);
    assert(key_step(v1, dt) == s);
    assert(o1 == origin_after_press(o1, half)) by {
        if input.button.pressed {
        } else if input.button.just_pressed {
        }
    }
    lemma_pixel_scroll_keeps_view(v1, input.wheel@, dt);
    assert(after_drag(v1, origin_after_press(o1, half), half) == v1);
}

/// A zoom change by a relative amount above -1 keeps the zoom at least one
/// unit without any floor.
pub proof fn zoom_positive_without_floor(z: int, num: int, den: int)
    requires
        z >= 1,
        den > 0,
        num > -den,
    ensures
        z + zoom_change(z, num, den) >= 1,
{
    if num < 0 {
        let p = z * (-num);
        assert(p < z * den) by (nonlinear_arith)
            requires
                z >= 1,
                -num < den,
                p == z * (-num),
        ;
        assert(p / den < z) by (nonlinear_arith)
            requires
                p < z * den,
                den > 0,
                p >= 0,
        ;
    } else {
        assert(z * num / den >= 0) by (nonlinear_arith)
            requires
                z >= 1,
                num >= 0,
                den > 0,
        ;
    }
}

/// The view after the zoom changes `steps` (numerator, denominator) in order.
pub open spec fn zoomed_all(v: CustomMaterial, steps: Seq<(int, int)>) -> CustomMaterial
    decreases steps.len(),
{
    if steps.len() == 0 {
        v
    } else {
        zoomed_all(v, steps.drop_last()).zoomed(steps.last().0, steps.last().1)
    }
}

/// Any sequence of zoom changes, each by a relative amount above -1, keeps the
/// zoom positive, and none of them reaches the lower bound of the range.
pub proof fn zoom_sequence_positive(v: CustomMaterial, steps: Seq<(int, int)>)
    requires
        v.wf(),
        forall|i: int|
            0 <= i < steps.len() ==> 0 < (#[trigger] steps[i]).1 && -steps[i].1 < steps[i].0,
    ensures
        zoomed_all(v, steps).wf(),
        zoomed_all(v, steps).zoom > 0,
        forall|i: int|
            0 <= i < steps.len() ==> {
                let w = #[trigger] zoomed_all(v, steps.take(i));
                w.zoom + zoom_change(w.zoom as int, steps[i].0, steps[i].1) >= ZOOM_MIN
            },
    decreases steps.len(),
{
    if steps.len() > 0 {
        let rest = steps.drop_last();
        assert forall|i: int| 0 <= i < rest.len() implies 0 < (#[trigger] rest[i]).1 && -rest[i].1
            < rest[i].0 by {
            assert(rest[i] == steps[i]);
        }
        zoom_sequence_positive(v, rest);
        let n = steps.len() - 1;
        assert(steps.take(n) == rest);
        let w = zoomed_all(v, rest);
        assert(steps.last() == steps[n]);
        zoom_positive_without_floor(w.zoom as int, steps[n].0, steps[n].1);
        assert forall|i: int| 0 <= i < steps.len() implies {
            let w = #[trigger] zoomed_all(v, steps.take(i));
            w.zoom + zoom_change(w.zoom as int, steps[i].0, steps[i].1) >= ZOOM_MIN
        } by {
            if i < n {
                assert(steps.take(i) == rest.take(i));
                assert(rest[i] == steps[i]);
            }
        }
    }
}

/// The drag pan scale of a frame: center units per pixel of cursor motion.
pub open spec fn drag_scale(v: CustomMaterial, dt: u32) -> int {
    DRAG_PAN_RATE * v.zoom * dt
}

/// The frame holds nothing but a held drag: no key, no line scroll, the
/// button held and not newly pressed.
pub open spec fn drag_only(input: FrameInput) -> bool {
    &&& input.keys == HeldKeys {
        left: false,
        right: false,
        up: false,
        down: false,
        zoom_in: false,
        zoom_out: false,
    }
    &&& no_line_scroll(input.wheel@)
    &&& input.button.pressed
    &&& !input.button.just_pressed
}

proof fn lemma_drag_only_frame(v: CustomMaterial, o: DragOrigin, input: FrameInput)
    requires
        drag_only(input),
    ensures
        frame_view(v, o, input) == after_drag(v, o, input),
        origin_after_frame(o, input) == origin_at(input.cursor),
{
    lemma_pixel_scroll_keeps_view(v, input.wheel@, input.dt_micros);
    let w = after_drag(v, o, input);
    assert(after_keys_pan(w, input.keys, input.dt_micros) == w);
    assert(after_keys_zoom(w, input.keys, input.dt_micros) == w);
}

/// A drag from `a` through `b` to `c` over two frames pans the view exactly as
/// one frame dragged from `a` straight to `c`: the per-frame deltas add up to
/// the whole displacement, where no coordinate saturates.
pub proof fn drag_incremental(
    v: CustomMaterial,
    a: DragOrigin,
    first: FrameInput,
    second: FrameInput,
    direct: FrameInput,
)
    requires
        drag_only(first),
        drag_only(second),
        drag_only(direct),
        first.dt_micros == second.dt_micros,
        direct.dt_micros == second.dt_micros,
        direct.cursor == second.cursor,
        in_i128(v.center.x - drag_scale(v, first.dt_micros) * (cursor_x(first.cursor) - a.x)),
        in_i128(v.center.y + drag_scale(v, first.dt_micros) * (cursor_y(first.cursor) - a.y)),
        in_i128(v.center.x - drag_scale(v, first.dt_micros) * (cursor_x(direct.cursor) - a.x)),
        in_i128(v.center.y + drag_scale(v, first.dt_micros) * (cursor_y(direct.cursor) - a.y)),
    ensures
        ({
            let b = origin_after_frame(a, first);
            &&& frame_view(frame_view(v, a, first), b, second) == frame_view(v, a, direct)
            &&& origin_after_frame(b, second) == origin_after_frame(a, direct)
        }),
{
    let b = origin_after_frame(a, first);
    lemma_drag_only_frame(v, a, first);
    let v1 = frame_view(v, a, first);
    lemma_drag_only_frame(v1, b, second);
    lemma_drag_only_frame(v, a, direct);
    let k = drag_scale(v, first.dt_micros);
    assert(drag_scale(v1, first.dt_micros) == k);
    let (ax, ay, bx, by, cx, cy) = (
        a.x as int,
        a.y as int,
        cursor_x(first.cursor),
        cursor_y(first.cursor),
        cursor_x(direct.cursor),
        cursor_y(direct.cursor),
    );
    assert(b.x == bx && b.y == by);
    assert(-(k * (bx - ax)) + -(k * (cx - bx)) == -(k * (cx - ax))) by (nonlinear_arith);
    assert(k * (by - ay) + k * (cy - by) == k * (cy - ay)) by (nonlinear_arith);
}

/// Of two resize events in one frame only the second decides the scale.
pub proof fn resize_last_wins(scale: u32, e1: WindowResized, e2: WindowResized)
    ensures
        resized_scale(scale, seq![e1, e2]) == e2.height,
{
}

/// One line of upward scroll makes the zoom smaller and one line downward
/// makes it larger, wherever the step is at least one zoom unit and the
/// result is not held at a bound of the range.
pub proof fn wheel_zoom_direction(v: CustomMaterial, dt: u32)
    requires
        v.wf(),
        ZOOM_MIN < v.zoom < ZOOM_MAX,
        v.zoom * dt * 1000 >= WHEEL_ZOOM_DIVISOR,
    ensures
        after_wheel(v, seq![WheelEvent { unit: ScrollUnit::Line, y_milli: 1000 }], dt).zoom
            < v.zoom,
        after_wheel(v, seq![WheelEvent { unit: ScrollUnit::Line, y_milli: -1000i32 }], dt).zoom
            > v.zoom,
{
    let up = seq![WheelEvent { unit: ScrollUnit::Line, y_milli: 1000 }];
    let down = seq![WheelEvent { unit: ScrollUnit::Line, y_milli: -1000i32 }];
    reveal_with_fuel(after_wheel, 2);
    assert(up.drop_last() =~= Seq::<WheelEvent>::empty());
    assert(up.last() == up[0]);
    assert(down.last() == down[0]);
    assert(down.drop_last() =~= Seq::<WheelEvent>::empty());
    let z = v.zoom as int;
    let d = WHEEL_ZOOM_DIVISOR as int;
    assert((z * (dt * 1000)) / d >= 1) by (nonlinear_arith)
        requires
            z * dt * 1000 >= d,
            d > 0,
    ;
    assert(zoom_change(z, -(dt * 1000), d) == -((z * (dt * 1000)) / d));
    assert(zoom_change(z, -(dt * -1000), d) == (z * (dt * 1000)) / d);
    let z_up = z + zoom_change(z, -(dt * 1000), d);
    let z_down = z + zoom_change(z, -(dt * -1000), d);
    assert(after_wheel(v, up, dt) == v.zoomed(-(dt * 1000), d));
    assert(after_wheel(v, down, dt) == v.zoomed(-(dt * -1000), d));
    assert(v.zoomed(-(dt * 1000), d).zoom == clamp_zoom(z_up));
    assert(v.zoomed(-(dt * -1000), d).zoom == clamp_zoom(z_down));
}

} // verus!
