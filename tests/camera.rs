use fractal_view::input::{
    move_camera, CursorRequest, DragOrigin, FrameInput, HeldKeys, PrimaryButton, ScrollUnit,
    WheelEvent, KEY_ZOOM_DIVISOR,
};
use fractal_view::resize::{on_resize, WindowResized, START_SCALE};
use fractal_view::view::{
    saturating_add, CustomMaterial, PlanePoint, EPSILON_START, ZOOM_MAX, ZOOM_MIN, ZOOM_ONE,
    ZOOM_START,
};

fn no_keys() -> HeldKeys {
    HeldKeys { left: false, right: false, up: false, down: false, zoom_in: false, zoom_out: false }
}

fn released() -> PrimaryButton {
    PrimaryButton { just_pressed: false, pressed: false, just_released: false }
}

fn frame(keys: HeldKeys, dt_micros: u32) -> FrameInput {
    FrameInput { keys, wheel: Vec::new(), button: released(), cursor: Some((0, 0)), dt_micros }
}

fn view_at(zoom: u64) -> CustomMaterial {
    CustomMaterial { zoom, center: PlanePoint { x: 0, y: 0 }, epsilon: EPSILON_START }
}

fn line_scroll(y_milli: i32, dt_micros: u32) -> FrameInput {
    FrameInput {
        keys: no_keys(),
        wheel: vec![WheelEvent { unit: ScrollUnit::Line, y_milli }],
        button: released(),
        cursor: None,
        dt_micros,
    }
}

#[test]
fn starting_view() {
    let v = CustomMaterial::new();
    assert_eq!(v.zoom, ZOOM_START);
    assert_eq!(v.center, PlanePoint { x: 0, y: 0 });
    assert_eq!(v.epsilon, 1000);
    let zoom = v.zoom as f64 / ZOOM_ONE as f64;
    assert!((zoom - 0.005).abs() < 1e-12);
    assert_eq!(DragOrigin::new(), DragOrigin { x: 0, y: 0 });
}

#[test]
fn pan_adds_and_saturates() {
    let mut v = view_at(ZOOM_ONE);
    v.pan(7, -3);
    assert_eq!(v.center, PlanePoint { x: 7, y: -3 });
    v.pan(i128::MAX, i128::MIN);
    assert_eq!(v.center, PlanePoint { x: i128::MAX, y: i128::MIN });
    assert_eq!(v.zoom, ZOOM_ONE);
    assert_eq!(saturating_add(i128::MIN, -1), i128::MIN);
    assert_eq!(saturating_add(5, -8), -3);
}

#[test]
fn zoom_by_is_multiplicative() {
    let mut v = view_at(1000);
    v.zoom_by(1, 4);
    assert_eq!(v.zoom, 1250);
    v.zoom_by(-1, 5);
    assert_eq!(v.zoom, 1000);
    // rounds toward zero: 1000 * -1 / 3 is -333
    v.zoom_by(-1, 3);
    assert_eq!(v.zoom, 667);
}

#[test]
fn zoom_by_keeps_the_range() {
    let mut v = view_at(10);
    v.zoom_by(-5, 1);
    assert_eq!(v.zoom, ZOOM_MIN);
    let mut w = view_at(ZOOM_MAX);
    w.zoom_by(1, 1);
    assert_eq!(w.zoom, ZOOM_MAX);
}

#[test]
fn wheel_line_up_zooms_smaller() {
    let mut v = view_at(ZOOM_ONE);
    let mut o = DragOrigin::new();
    move_camera(&mut v, &mut o, &line_scroll(1000, 16_000));
    assert!(v.zoom < ZOOM_ONE);
    // 1 - 2.5 * 0.016 = 0.96
    assert_eq!(v.zoom, ZOOM_ONE - ZOOM_ONE * 16_000 * 1000 / 400_000_000);
}

#[test]
fn wheel_line_down_zooms_larger() {
    let mut v = view_at(ZOOM_ONE);
    let mut o = DragOrigin::new();
    move_camera(&mut v, &mut o, &line_scroll(-1000, 16_000));
    assert!(v.zoom > ZOOM_ONE);
    let zoom = v.zoom as f64 / ZOOM_ONE as f64;
    assert!((zoom - 1.04).abs() < 1e-9);
}

#[test]
fn pixel_wheel_is_ignored() {
    let mut v = view_at(ZOOM_ONE);
    let mut o = DragOrigin::new();
    let input = FrameInput {
        keys: no_keys(),
        wheel: vec![WheelEvent { unit: ScrollUnit::Pixel, y_milli: 5000 }],
        button: released(),
        cursor: None,
        dt_micros: 16_000,
    };
    let r = move_camera(&mut v, &mut o, &input);
    assert_eq!(v, view_at(ZOOM_ONE));
    assert_eq!(r, CursorRequest::Keep);
}

#[test]
fn hold_zoom_in_one_second() {
    let mut v = CustomMaterial::new();
    let mut o = DragOrigin::new();
    let keys = HeldKeys { zoom_in: true, ..no_keys() };
    let mut expected: u64 = ZOOM_START;
    for _ in 0..100 {
        move_camera(&mut v, &mut o, &frame(keys, 10_000));
        expected += expected * 10_000 / KEY_ZOOM_DIVISOR as u64;
    }
    assert_eq!(v.zoom, expected);
    let zoom = v.zoom as f64 / ZOOM_ONE as f64;
    let stepped = 0.005f64 * (1.0f64 + 2.5 * 0.01).powi(100);
    assert!((zoom - stepped).abs() / stepped < 1e-6);
    let continuous = 0.005f64 * 2.5f64.exp();
    assert!((zoom - continuous).abs() / continuous < 0.035);
    assert_eq!(v.center, PlanePoint { x: 0, y: 0 });
}

#[test]
fn zoom_out_key_stays_positive() {
    let mut v = CustomMaterial::new();
    let mut o = DragOrigin::new();
    let keys = HeldKeys { zoom_out: true, ..no_keys() };
    for _ in 0..2000 {
        let before = v.zoom;
        move_camera(&mut v, &mut o, &frame(keys, 100_000));
        assert!(v.zoom > 0);
        assert!(v.zoom <= before);
    }
    // a quarter of 3 rounds to nothing, so the zoom settles above the floor
    assert_eq!(v.zoom, 3);
}

#[test]
fn keyboard_pan_scales_with_zoom() {
    let mut v = view_at(1000);
    let mut o = DragOrigin::new();
    let keys = HeldKeys { left: true, up: true, ..no_keys() };
    move_camera(&mut v, &mut o, &frame(keys, 16_000));
    assert_eq!(v.center, PlanePoint { x: -2 * 1000 * 16_000, y: 2 * 1000 * 16_000 });
    let keys = HeldKeys { right: true, down: true, ..no_keys() };
    move_camera(&mut v, &mut o, &frame(keys, 16_000));
    assert_eq!(v.center, PlanePoint { x: 0, y: 0 });
    assert_eq!(v.zoom, 1000);
}

#[test]
fn keyboard_pan_frame_rate_independent() {
    let keys = HeldKeys { left: true, up: true, ..no_keys() };
    let mut two = CustomMaterial::new();
    let mut o2 = DragOrigin::new();
    move_camera(&mut two, &mut o2, &frame(keys, 8_000));
    move_camera(&mut two, &mut o2, &frame(keys, 8_000));
    let mut one = CustomMaterial::new();
    let mut o1 = DragOrigin::new();
    move_camera(&mut one, &mut o1, &frame(keys, 16_000));
    assert_eq!(one, two);
    assert_eq!(o1, o2);
}

#[test]
fn drag_pans_against_motion() {
    let mut v = view_at(1000);
    let mut o = DragOrigin::new();
    let press = FrameInput {
        keys: no_keys(),
        wheel: Vec::new(),
        button: PrimaryButton { just_pressed: true, pressed: true, just_released: false },
        cursor: Some((100, 100)),
        dt_micros: 10_000,
    };
    assert_eq!(move_camera(&mut v, &mut o, &press), CursorRequest::Hide);
    assert_eq!(o, DragOrigin { x: 100, y: 100 });
    assert_eq!(v, view_at(1000));
    let hold = FrameInput {
        keys: no_keys(),
        wheel: Vec::new(),
        button: PrimaryButton { just_pressed: false, pressed: true, just_released: false },
        cursor: Some((110, 95)),
        dt_micros: 10_000,
    };
    assert_eq!(move_camera(&mut v, &mut o, &hold), CursorRequest::Hide);
    assert_eq!(v.center, PlanePoint { x: -1000 * 10_000 * 10, y: 1000 * 10_000 * -5 });
    assert_eq!(o, DragOrigin { x: 110, y: 95 });
    let release = FrameInput {
        keys: no_keys(),
        wheel: Vec::new(),
        button: PrimaryButton { just_pressed: false, pressed: false, just_released: true },
        cursor: Some((300, 300)),
        dt_micros: 10_000,
    };
    assert_eq!(move_camera(&mut v, &mut o, &release), CursorRequest::Show);
    assert_eq!(v.center, PlanePoint { x: -1000 * 10_000 * 10, y: 1000 * 10_000 * -5 });
    assert_eq!(o, DragOrigin { x: 110, y: 95 });
}

fn held_at(x: i32, y: i32) -> FrameInput {
    FrameInput {
        keys: no_keys(),
        wheel: Vec::new(),
        button: PrimaryButton { just_pressed: false, pressed: true, just_released: false },
        cursor: Some((x, y)),
        dt_micros: 12_000,
    }
}

#[test]
fn drag_deltas_add_up() {
    let start = DragOrigin { x: 10, y: 20 };
    let mut steps = view_at(ZOOM_START);
    let mut o = start;
    move_camera(&mut steps, &mut o, &held_at(40, -5));
    move_camera(&mut steps, &mut o, &held_at(70, 60));
    let mut direct = view_at(ZOOM_START);
    let mut od = start;
    move_camera(&mut direct, &mut od, &held_at(70, 60));
    assert_eq!(steps, direct);
    assert_eq!(o, od);
    let k = ZOOM_START as i128 * 12_000;
    assert_eq!(direct.center, PlanePoint { x: -k * 60, y: k * 40 });
}

#[test]
fn missing_cursor_reads_as_origin() {
    let mut v = view_at(1000);
    let mut o = DragOrigin { x: 3, y: 4 };
    let input = FrameInput {
        keys: no_keys(),
        wheel: Vec::new(),
        button: PrimaryButton { just_pressed: false, pressed: true, just_released: false },
        cursor: None,
        dt_micros: 1_000,
    };
    move_camera(&mut v, &mut o, &input);
    assert_eq!(o, DragOrigin { x: 0, y: 0 });
    assert_eq!(v.center, PlanePoint { x: 1000 * 1_000 * 3, y: -1000 * 1_000 * 4 });
}

#[test]
fn resize_last_event_wins() {
    let mut scale = START_SCALE;
    let events = vec![
        WindowResized { width: 800, height: 600 },
        WindowResized { width: 1280, height: 720 },
    ];
    on_resize(&mut scale, &events);
    assert_eq!(scale, 720);
}

#[test]
fn resize_without_events_keeps_scale() {
    let mut scale = START_SCALE;
    on_resize(&mut scale, &Vec::new());
    assert_eq!(scale, 1080);
}
