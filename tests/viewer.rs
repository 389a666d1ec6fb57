use fractal_viewer::{
    frame, frame_lyapunov, lyapunov_meta, meta, normalize, pack, pack_lyapunov, quad_indices,
    quad_vertices, FractalParameters, Gesture, InputEvent, Key, MouseButton, Response,
    TouchPhase, UniformKind, ViewportState, ITERATIONS, MIN_ZOOM, ONE,
};

fn to_f64(v: i64) -> f64 {
    v as f64 / ONE as f64
}

fn down(button: MouseButton, x: i32, y: i32) -> InputEvent {
    InputEvent::PointerDown { button, x, y }
}

#[test]
fn normalize_center_is_origin() {
    assert_eq!(normalize(400, 300, 800, 600), (0, 0));
}

#[test]
fn normalize_edges_are_half() {
    assert_eq!(normalize(800, 0, 800, 600), (ONE / 2, -ONE / 2));
    assert_eq!(normalize(0, 600, 800, 600), (-ONE / 2, ONE / 2));
}

#[test]
fn normalize_is_cubic() {
    // a quarter of the way from the centre: 4 * 0.25^3 = 1/16
    let (x, _) = normalize(600, 300, 800, 600);
    assert_eq!(x, ONE / 16);
}

#[test]
fn normalize_is_odd_about_center() {
    for d in [1, 7, 100, 399, 400, 1000] {
        let (a, _) = normalize(400 + d, 300, 800, 600);
        let (b, _) = normalize(400 - d, 300, 800, 600);
        assert_eq!(a, -b);
    }
    let (_, a) = normalize(0, 1, 801, 601);
    let (_, b) = normalize(0, 600, 801, 601);
    assert_eq!(a, -b);
}

#[test]
fn new_state_is_idle_at_origin() {
    let v = ViewportState::new();
    assert_eq!(v.center_x, 0);
    assert_eq!(v.center_y, 0);
    assert_eq!(v.zoom, ONE);
    assert_eq!(v.gesture, Gesture::Idle);
}

#[test]
fn gesture_transitions() {
    let mut v = ViewportState::new();
    assert_eq!(v.handle(down(MouseButton::Left, 800, 300), 800, 600), Response::Nothing);
    assert_eq!(v.gesture, Gesture::ZoomingIn(ONE / 2, 0));
    v.handle(InputEvent::PointerMove { x: 0, y: 600 }, 800, 600);
    assert_eq!(v.gesture, Gesture::ZoomingIn(-ONE / 2, ONE / 2));
    v.handle(InputEvent::PointerUp { button: MouseButton::Left, x: 0, y: 0 }, 800, 600);
    assert_eq!(v.gesture, Gesture::Idle);
    v.handle(InputEvent::PointerMove { x: 0, y: 600 }, 800, 600);
    assert_eq!(v.gesture, Gesture::Idle);
    v.handle(down(MouseButton::Right, 400, 300), 800, 600);
    assert_eq!(v.gesture, Gesture::ZoomingOut(0, 0));
    v.handle(InputEvent::PointerMove { x: 800, y: 300 }, 800, 600);
    assert_eq!(v.gesture, Gesture::ZoomingOut(ONE / 2, 0));
    v.handle(down(MouseButton::Middle, 0, 0), 800, 600);
    assert_eq!(v.gesture, Gesture::ZoomingOut(ONE / 2, 0));
    assert_eq!(v.zoom, ONE);
}

#[test]
fn touch_transitions() {
    let mut v = ViewportState::new();
    let touch = |phase| InputEvent::Touch { phase, id: 3, x: 400, y: 300 };
    v.handle(touch(TouchPhase::Started), 800, 600);
    assert_eq!(v.gesture, Gesture::ZoomingIn(0, 0));
    v.handle(touch(TouchPhase::Ended), 800, 600);
    assert_eq!(v.gesture, Gesture::Idle);
    v.handle(touch(TouchPhase::Moved), 800, 600);
    assert_eq!(v.gesture, Gesture::ZoomingIn(0, 0));
    v.handle(touch(TouchPhase::Cancelled), 800, 600);
    assert_eq!(v.gesture, Gesture::Idle);
    v.handle(down(MouseButton::Right, 0, 0), 800, 600);
    v.handle(touch(TouchPhase::Moved), 800, 600);
    assert_eq!(v.gesture, Gesture::ZoomingIn(0, 0));
}

#[test]
fn space_asks_for_new_parameters() {
    let mut v = ViewportState::new();
    assert_eq!(v.handle(InputEvent::KeyDown { key: Key::Space }, 800, 600), Response::Regenerate);
    assert_eq!(v.handle(InputEvent::KeyDown { key: Key::Other }, 800, 600), Response::Nothing);
    assert_eq!(v, ViewportState::new());
}

#[test]
fn idle_tick_changes_nothing() {
    let mut v = ViewportState::new();
    v.tick();
    assert_eq!(v, ViewportState::new());
}

#[test]
fn one_zoom_in_step() {
    let mut v = ViewportState::new();
    v.handle(down(MouseButton::Left, 800, 0), 800, 600);
    v.tick();
    // 16777216 * 1.01 = 16944988.16
    assert_eq!(v.zoom, 16944988);
    // x / zoom = (ONE / 2) * ONE / 16944988
    assert_eq!(v.center_x, -(8388608i64 * ONE / 16944988));
    assert_eq!(v.center_y, -(8388608i64 * ONE / 16944988));
}

#[test]
fn one_zoom_out_step() {
    let mut v = ViewportState::new();
    v.handle(down(MouseButton::Right, 800, 0), 800, 600);
    v.tick();
    // ceil(16777216 / 1.01) = 16611105
    assert_eq!(v.zoom, 16611105);
    assert_eq!(v.center_x, 8388608i64 * ONE / 16611105);
    assert_eq!(v.center_y, 8388608i64 * ONE / 16611105);
}

#[test]
fn zoom_in_compounds() {
    let mut v = ViewportState::new();
    v.handle(down(MouseButton::Left, 123, 456), 800, 600);
    let steps = 250;
    for _ in 0..steps {
        v.tick();
    }
    let expected = 1.01f64.powi(steps);
    assert!((to_f64(v.zoom) - expected).abs() / expected < 1e-4);
    assert!(to_f64(v.zoom) <= expected);
}

#[test]
fn zoom_in_then_out_restores_zoom() {
    for start in [MIN_ZOOM, 101, 199, ONE, 3 * ONE + 17, 1_000_000_007] {
        let mut v = ViewportState::new();
        v.zoom = start;
        v.handle(down(MouseButton::Left, 10, 20), 800, 600);
        v.tick();
        v.handle(down(MouseButton::Right, 10, 20), 800, 600);
        v.tick();
        assert_eq!(v.zoom, start);
    }
}

#[test]
fn zoom_saturates_and_stays_positive() {
    let mut v = ViewportState::new();
    v.zoom = i64::MAX;
    v.handle(down(MouseButton::Left, 0, 0), 800, 600);
    v.tick();
    assert_eq!(v.zoom, i64::MAX);
    let mut w = ViewportState::new();
    w.zoom = MIN_ZOOM;
    w.handle(down(MouseButton::Right, 0, 0), 800, 600);
    w.tick();
    assert_eq!(w.zoom, MIN_ZOOM);
    assert_eq!(w.center_x, -(ONE / 2 * ONE / MIN_ZOOM));
}

#[test]
fn end_to_end_zoom_at_center() {
    let mut v = ViewportState::new();
    v.handle(down(MouseButton::Left, 400, 300), 800, 600);
    let mut last = pack(&v, 800, 600);
    for _ in 0..100 {
        last = frame(&mut v, 800, 600);
    }
    v.handle(InputEvent::PointerUp { button: MouseButton::Left, x: 400, y: 300 }, 800, 600);
    assert_eq!(v.gesture, Gesture::Idle);
    assert!((to_f64(v.zoom) - 2.7048).abs() < 1e-3);
    assert_eq!((v.center_x, v.center_y), (0, 0));
    assert_eq!(last.zoom, v.zoom);
    assert_eq!(last.center, (0, 0));
}

#[test]
fn randomize_draws_in_order() {
    let half = ONE as u32 / 2;
    let p = FractalParameters::randomize([half, half, half, half, 0]);
    assert_eq!(p.color_seed, 5 * ONE);
    assert_eq!(p.x_min, 9 * ONE / 4);
    assert_eq!(p.x_max, 9 * ONE / 4 + 7 * ONE / 8);
    assert_eq!(p.y_min, 9 * ONE / 4);
    assert_eq!(p.y_max, p.y_min);
}

#[test]
fn randomize_orders_bounds() {
    let top = ONE as u32 - 1;
    for s in [[1u32, 1, 1, 1, 1], [top, top, top, top, top], [0, top, 1, top, 1], [7, 0, 1, 0, 1]] {
        let p = FractalParameters::randomize(s);
        assert!(p.x_min < p.x_max);
        assert!(p.y_min < p.y_max);
        assert!(p.x_max < 4 * ONE && p.y_max < 4 * ONE);
        assert!(p.x_min >= 3 * ONE / 2 && p.y_min >= 3 * ONE / 2);
        assert!(0 <= p.color_seed && p.color_seed < 10 * ONE);
    }
}

#[test]
fn escape_time_layout() {
    let m = meta();
    let names: Vec<&str> = m.iter().map(|s| s.name).collect();
    assert_eq!(names, vec!["resolution", "center", "zoom", "iterations"]);
    let kinds: Vec<UniformKind> = m.iter().map(|s| s.kind).collect();
    assert_eq!(
        kinds,
        vec![UniformKind::Float2, UniformKind::Float2, UniformKind::Float1, UniformKind::Int1]
    );
}

#[test]
fn lyapunov_layout() {
    let m = lyapunov_meta();
    let names: Vec<&str> = m.iter().map(|s| s.name).collect();
    assert_eq!(names, vec!["transform", "cxmin", "cxmax", "cymin", "cymax", "colorSeed"]);
    assert_eq!(m[0].kind, UniformKind::Mat4);
    assert!(m[1..].iter().all(|s| s.kind == UniformKind::Float1));
}

#[test]
fn quad_contract() {
    assert_eq!(quad_vertices(), vec![(-1, -1), (1, -1), (1, 1), (-1, 1)]);
    assert_eq!(quad_indices(), vec![0, 1, 2, 0, 2, 3]);
}

#[test]
fn escape_time_packing() {
    let v = ViewportState { center_x: -3, center_y: 5, zoom: 2 * ONE, gesture: Gesture::Idle };
    let u = pack(&v, 1024, 768);
    assert_eq!(u.resolution, (1024, 768));
    assert_eq!(u.center, (-3, 5));
    assert_eq!(u.zoom, 2 * ONE);
    assert_eq!(u.iterations, ITERATIONS);
    assert_eq!(ITERATIONS, 100);
}

#[test]
fn packing_is_deterministic() {
    let v = ViewportState { center_x: 12345, center_y: -999, zoom: 3 * ONE, gesture: Gesture::Idle };
    let p = FractalParameters::randomize([1, 2, 3, 4, 5]);
    assert_eq!(pack(&v, 640, 480), pack(&v.clone(), 640, 480));
    assert_eq!(pack_lyapunov(&v, &p, 640, 480), pack_lyapunov(&v.clone(), &p.clone(), 640, 480));
}

#[test]
fn lyapunov_transform_landscape() {
    let v = ViewportState { center_x: ONE, center_y: -ONE, zoom: 2 * ONE, gesture: Gesture::Idle };
    let p = FractalParameters::randomize([1, 2, 3, 4, 5]);
    let u = pack_lyapunov(&v, &p, 800, 600);
    let sx = ONE * 800 / 600;
    assert_eq!(sx, 22369621);
    let mut want = [0i64; 16];
    want[0] = 2 * sx;
    want[5] = 2 * ONE;
    want[10] = ONE;
    want[12] = sx;
    want[13] = -ONE;
    want[15] = ONE;
    assert_eq!(u.transform, want);
    assert_eq!((u.cxmin, u.cxmax, u.cymin, u.cymax), (p.x_min, p.x_max, p.y_min, p.y_max));
    assert_eq!(u.color_seed, p.color_seed);
}

#[test]
fn lyapunov_transform_portrait() {
    let v = ViewportState { center_x: ONE / 2, center_y: ONE, zoom: ONE, gesture: Gesture::Idle };
    let p = FractalParameters::randomize([0, 0, 0, 0, 0]);
    let u = pack_lyapunov(&v, &p, 600, 800);
    let sy = ONE * 800 / 600;
    assert_eq!(u.transform[0], ONE);
    assert_eq!(u.transform[5], sy);
    assert_eq!(u.transform[12], ONE / 2);
    assert_eq!(u.transform[13], sy);
}

#[test]
fn lyapunov_frame_integrates_then_packs() {
    let mut v = ViewportState::new();
    let p = FractalParameters::randomize([9, 8, 7, 6, 5]);
    v.handle(InputEvent::Touch { phase: TouchPhase::Started, id: 0, x: 400, y: 400 }, 400, 400);
    let u = frame_lyapunov(&mut v, &p, 400, 400);
    assert_eq!(v.zoom, 16944988);
    assert_eq!(u.transform[0], 16944988);
    assert_eq!(u.transform[5], 16944988);
}

#[test]
fn smallest_zoom_still_grows() {
    assert_eq!(MIN_ZOOM, 100);
    let mut v = ViewportState::new();
    v.zoom = MIN_ZOOM;
    v.handle(down(MouseButton::Left, 400, 300), 800, 600);
    v.tick();
    assert_eq!(v.zoom, 101);
}

#[test]
fn zero_offset_keeps_extreme_center() {
    let mut v = ViewportState::new();
    v.center_x = -i64::MAX;
    v.center_y = i64::MAX;
    v.handle(down(MouseButton::Left, 400, 300), 800, 600);
    v.tick();
    v.handle(down(MouseButton::Right, 400, 300), 800, 600);
    v.tick();
    assert_eq!((v.center_x, v.center_y), (-i64::MAX, i64::MAX));
    assert_eq!(v.zoom, ONE);
}

#[test]
fn opposite_offsets_pan_oppositely() {
    let mut a = ViewportState::new();
    let mut b = ViewportState::new();
    a.center_x = 5 * ONE;
    b.center_x = 5 * ONE;
    a.handle(down(MouseButton::Left, 400 + 123, 300), 800, 600);
    b.handle(down(MouseButton::Left, 400 - 123, 300), 800, 600);
    a.tick();
    b.tick();
    assert_eq!(a.zoom, b.zoom);
    assert_eq!(a.center_y, b.center_y);
    assert_eq!(a.center_x - 5 * ONE, -(b.center_x - 5 * ONE));
    assert_ne!(a.center_x, 5 * ONE);
}

#[test]
fn release_then_moves_stays_idle() {
    let mut v = ViewportState::new();
    v.handle(down(MouseButton::Left, 10, 10), 800, 600);
    v.handle(InputEvent::PointerUp { button: MouseButton::Right, x: 50, y: 60 }, 800, 600);
    for k in 0..5 {
        v.handle(InputEvent::PointerMove { x: 100 * k, y: 7 * k }, 800, 600);
    }
    let before = v;
    v.tick();
    assert_eq!(v.gesture, Gesture::Idle);
    assert_eq!(v, before);
}
