//! The zoom/pan gesture state machine and its per-frame integration.
use vstd::prelude::*;
use vstd::arithmetic::div_mod::lemma_fundamental_div_mod_converse;
use crate::fixed::{
    ONE, trunc_div, clamp64, div_trunc, saturate, lemma_trunc_div_bound, lemma_trunc_div_odd,
};
use crate::input::{axis_offset, normalize};

verus! {

/// A pointer button.
#[derive(Clone, Copy, Debug, PartialEq, Eq, Structural)]
pub enum MouseButton {
    Left,
    Right,
    Middle,
    Unknown,
}

/// The phase of a touch contact.
#[derive(Clone, Copy, Debug, PartialEq, Eq, Structural)]
pub enum TouchPhase {
    Started,
    Moved,
    Ended,
    Cancelled,
}

/// A key, as far as the viewer tells keys apart.
#[derive(Clone, Copy, Debug, PartialEq, Eq, Structural)]
pub enum Key {
    Space,
    Other,
}

/// An input event delivered by the window, positions in pixels.
#[derive(Clone, Copy, Debug, PartialEq, Eq, Structural)]
pub enum InputEvent {
    PointerDown { button: MouseButton, x: i32, y: i32 },
    PointerMove { x: i32, y: i32 },
    PointerUp { button: MouseButton, x: i32, y: i32 },
    Touch { phase: TouchPhase, id: u64, x: i32, y: i32 },
    KeyDown { key: Key },
}

/// The active interaction; the non-idle variants carry the last normalized
/// pointer offset (fixed point) that drives the zoom.
#[derive(Clone, Copy, Debug, PartialEq, Eq, Structural)]
pub enum Gesture {
    Idle,
    ZoomingIn(i64, i64),
    ZoomingOut(i64, i64),
}

/// What the caller is asked to do after an event.
#[derive(Clone, Copy, Debug, PartialEq, Eq, Structural)]
pub enum Response {
    Nothing,
    Regenerate,
}

/// Pan offset, zoom factor (both fixed point) and the active gesture.
#[derive(Clone, Copy, Debug, PartialEq, Eq, Structural)]
pub struct ViewportState {
    pub center_x: i64,
    pub center_y: i64,
    pub zoom: i64,
    pub gesture: Gesture,
}

/// The smallest zoom factor a state holds: 100 units of `1 / ONE`. From there
/// up every zoom-in step grows the factor by at least one unit.
pub const MIN_ZOOM: i64 = 100;

/// The zoom factor after one zoom-in step: multiplied by 1.01, rounded down,
/// saturated at `i64::MAX`.
pub open spec fn grown(z: int) -> int {
    if z * 101 / 100 > i64::MAX {
        i64::MAX as int
    } else {
        z * 101 / 100
    }
}

/// The zoom factor after one zoom-out step: divided by 1.01, rounded up, so
/// that it never falls below [`MIN_ZOOM`] (where it stays).
pub open spec fn shrunk(z: int) -> int {
    (z * 100 + 100) / 101
}

/// The world-space distance `x / z` for a normalized offset `x` at zoom `z`,
/// both fixed point, rounded toward zero. It rounds to 0 once `z` exceeds
/// `|x| * ONE`, that is once the zoom factor exceeds `|x|` units of `1 / ONE`.
pub open spec fn pan(x: int, z: int) -> int {
    trunc_div(x * ONE, z)
}

/// The normalized offset of a pixel position, as stored in a gesture.
pub open spec fn offset_of(raw: i32, extent: u32) -> i64 {
    axis_offset(raw as int, extent as int) as i64
}

/// The gesture after an event on a `width` by `height` surface.
pub open spec fn next_gesture(g: Gesture, ev: InputEvent, width: u32, height: u32) -> Gesture {
    match ev {
        InputEvent::PointerDown { button, x, y } => match button {
            MouseButton::Left => Gesture::ZoomingIn(offset_of(x, width), offset_of(y, height)),
            MouseButton::Right => Gesture::ZoomingOut(offset_of(x, width), offset_of(y, height)),
            _ => g,
        },
        InputEvent::PointerMove { x, y } => match g {
            Gesture::Idle => Gesture::Idle,
            Gesture::ZoomingIn(_, _) => Gesture::ZoomingIn(
                offset_of(x, width),
                offset_of(y, height),
            ),
            Gesture::ZoomingOut(_, _) => Gesture::ZoomingOut(
                offset_of(x, width),
                offset_of(y, height),
            ),
        },
        InputEvent::PointerUp { .. } => Gesture::Idle,
        InputEvent::Touch { phase, x, y, .. } => match phase {
            TouchPhase::Started | TouchPhase::Moved => Gesture::ZoomingIn(
                offset_of(x, width),
                offset_of(y, height),
            ),
            _ => Gesture::Idle,
        },
        InputEvent::KeyDown { .. } => g,
    }
}

/// The request an event makes of the caller: the space key asks for new
/// fractal parameters.
pub open spec fn response_to(ev: InputEvent) -> Response {
    match ev {
        InputEvent::KeyDown { key: Key::Space } => Response::Regenerate,
        _ => Response::Nothing,
    }
}

/// One frame of integration: zooming in multiplies the zoom by 1.01 and moves
/// the centre by `(-x, y) / zoom`; zooming out divides it by 1.01 and moves the
/// centre by `(x, -y) / zoom`; idle changes nothing.
pub open spec fn tick_spec(s: ViewportState) -> ViewportState {
    match s.gesture {
        Gesture::Idle => s,
        Gesture::ZoomingIn(x, y) => {
            let z = grown(s.zoom as int);
            ViewportState {
                center_x: clamp64(s.center_x - pan(x as int, z)) as i64,
                center_y: clamp64(s.center_y + pan(y as int, z)) as i64,
                zoom: z as i64,
                gesture: s.gesture,
            }
        },
        Gesture::ZoomingOut(x, y) => {
            let z = shrunk(s.zoom as int);
            ViewportState {
                center_x: clamp64(s.center_x + pan(x as int, z)) as i64,
                center_y: clamp64(s.center_y - pan(y as int, z)) as i64,
                zoom: z as i64,
                gesture: s.gesture,
            }
        },
    }
}

/// The state after `n` frames with no events in between.
pub open spec fn ticks(s: ViewportState, n: nat) -> ViewportState
    decreases n,
{
    if n == 0 {
        s
    } else {
        tick_spec(ticks(s, (n - 1) as nat))
    }
}

impl ViewportState {
    /// The zoom factor is at least [`MIN_ZOOM`] and the centre lies in the
    /// symmetric range `[-i64::MAX, i64::MAX]` that saturation keeps.
    pub open spec fn wf(&self) -> bool {
        &&& self.zoom >= MIN_ZOOM
        &&& -i64::MAX <= self.center_x
        &&& -i64::MAX <= self.center_y
    }

    /// The start state: centre at the origin, zoom 1, idle.
    pub fn new() -> (r: Self)
        ensures
            r == (ViewportState { center_x: 0, center_y: 0, zoom: ONE, gesture: Gesture::Idle }),
            r.wf(),
    {
        ViewportState { center_x: 0, center_y: 0, zoom: ONE, gesture: Gesture::Idle }
    }

    /// Applies an input event. Only the gesture changes; the centre and the
    /// zoom are left to [`ViewportState::tick`].
    pub fn handle(&mut self, ev: InputEvent, width: u32, height: u32) -> (r: Response)
        requires
            0 < width,
            0 < height,
        ensures
            final(self).gesture == next_gesture(old(self).gesture, ev, width, height),
            final(self).center_x == old(self).center_x,
            final(self).center_y == old(self).center_y,
            final(self).zoom == old(self).zoom,
            r == response_to(ev),
    {
        match ev {
            InputEvent::PointerDown { button, x, y } => {
                let (nx, ny) = normalize(x, y, width, height);
                match button {
                    MouseButton::Left => self.gesture = Gesture::ZoomingIn(nx, ny),
                    MouseButton::Right => self.gesture = Gesture::ZoomingOut(nx, ny),
                    _ => {},
                }
                Response::Nothing
            },
            InputEvent::PointerMove { x, y } => {
                let (nx, ny) = normalize(x, y, width, height);
                match self.gesture {
                    Gesture::Idle => {},
                    Gesture::ZoomingIn(_, _) => self.gesture = Gesture::ZoomingIn(nx, ny),
                    Gesture::ZoomingOut(_, _) => self.gesture = Gesture::ZoomingOut(nx, ny),
                }
                Response::Nothing
            },
            InputEvent::PointerUp { .. } => {
                self.gesture = Gesture::Idle;
                Response::Nothing
            },
            InputEvent::Touch { phase, x, y, .. } => {
                match phase {
                    TouchPhase::Started | TouchPhase::Moved => {
                        let (nx, ny) = normalize(x, y, width, height);
                        self.gesture = Gesture::ZoomingIn(nx, ny);
                    },
                    _ => self.gesture = Gesture::Idle,
                }
                Response::Nothing
            },
            InputEvent::KeyDown { key } => match key {
                Key::Space => Response::Regenerate,
                Key::Other => Response::Nothing,
            },
        }
    }

    /// Advances the state by one frame.
    pub fn tick(&mut self)
        requires
            old(self).wf(),
        ensures
            *final(self) == tick_spec(*old(self)),
            final(self).wf(),
    {
        match self.gesture {
            Gesture::Idle => {},
            Gesture::ZoomingIn(x, y) => {
                let z = grow(self.zoom);
                let px = pan_by(x, z);
                let py = pan_by(y, z);
                self.center_x = saturate(self.center_x as i128 - px);
                self.center_y = saturate(self.center_y as i128 + py);
                self.zoom = z;
            },
            Gesture::ZoomingOut(x, y) => {
                let z = shrink(self.zoom);
                let px = pan_by(x, z);
                let py = pan_by(y, z);
                self.center_x = saturate(self.center_x as i128 + px);
                self.center_y = saturate(self.center_y as i128 - py);
                self.zoom = z;
            },
        }
    }
}

fn grow(z: i64) -> (r: i64)
    requires
        z >= MIN_ZOOM,
    ensures
        r == grown(z as int),
        r >= z,
{
    let w: i128 = (z as i128) * 101 / 100;
    assert(w >= z) by (nonlinear_arith)
        requires
            z >= 1,
            w == (z * 101) / 100,
    ;
    if w > i64::MAX as i128 {
        i64::MAX
    } else {
        w as i64
    }
}

fn shrink(z: i64) -> (r: i64)
    requires
        z >= MIN_ZOOM,
    ensures
        r == shrunk(z as int),
        MIN_ZOOM <= r <= z,
{
    let w: i128 = ((z as i128) * 100 + 100) / 101;
    assert(100 <= w <= z) by (nonlinear_arith)
        requires
            z >= 100,
            w == (z * 100 + 100) / 101,
    ;
    w as i64
}

fn pan_by(x: i64, z: i64) -> (r: i128)
    requires
        z >= 1,
    ensures
        r == pan(x as int, z as int),
        -0x80_0000_0000_0000_0000_0000 <= r <= 0x80_0000_0000_0000_0000_0000,
{
    assert(-0x80_0000_0000_0000_0000_0000 <= x * 16777216 <= 0x80_0000_0000_0000_0000_0000)
        by (nonlinear_arith)
        requires
            i64::MIN <= x <= i64::MAX,
    ;
    let m: i128 = (x as i128) * (ONE as i128);
    proof {
        lemma_trunc_div_bound(m as int, z as int, 0x80_0000_0000_0000_0000_0000);
    }
    div_trunc(m, z as i128)
}

/// `b` raised to the power `n`.
pub open spec fn power(b: int, n: nat) -> int
    decreases n,
{
    if n == 0 {
        1
    } else {
        b * power(b, (n - 1) as nat)
    }
}

proof fn lemma_power_positive(b: int, n: nat)
    requires
        b > 0,
    ensures
        power(b, n) > 0,
    decreases n,
{
    if n > 0 {
        lemma_power_positive(b, (n - 1) as nat);
        assert(b * power(b, (n - 1) as nat) > 0) by (nonlinear_arith)
            requires
                b > 0,
                power(b, (n - 1) as nat) > 0,
        ;
    }
}

/// After `n` frames of zooming in, the zoom is `zoom0 * 1.01^n` up to the
/// rounding of each step: `100^n * zoom` lies between
/// `101^n * zoom0 - 100 * (101^n - 100^n)` and `101^n * zoom0`, so the
/// relative error stays below `100 / zoom0`. Holds while the exact product
/// fits in `i64`; the gesture is kept throughout.
pub proof fn lemma_zoom_in_compounds(s: ViewportState, n: nat)
    requires
        s.wf(),
        s.gesture is ZoomingIn,
        power(101, n) * s.zoom <= power(100, n) * i64::MAX,
    ensures
        ticks(s, n).gesture == s.gesture,
        ticks(s, n).wf(),
        power(100, n) * ticks(s, n).zoom <= power(101, n) * s.zoom,
        power(101, n) * s.zoom - 100 * (power(101, n) - power(100, n)) <= power(100, n)
            * ticks(s, n).zoom,
    decreases n,
{
    if n > 0 {
        let m = (n - 1) as nat;
        let a = power(100, m);
        let b = power(101, m);
        let z0 = s.zoom as int;
        let big = i64::MAX as int;
        lemma_power_positive(100, m);
        lemma_power_positive(101, m);
        assert(b * z0 <= a * big) by (nonlinear_arith)
            requires
                101 * b * z0 <= 100 * a * big,
                a > 0,
                b > 0,
                z0 >= 1,
                big > 0,
        ;
        lemma_zoom_in_compounds(s, m);
        let t = ticks(s, m);
        let z = t.zoom as int;
        assert(101 * z <= 100 * big) by (nonlinear_arith)
            requires
                a * z <= b * z0,
                101 * b * z0 <= 100 * a * big,
                a > 0,
        ;
        let q = z * 101 / 100;
        let r = z * 101 % 100;
        lemma_fundamental_div_mod_converse(z * 101, 100, q, z * 101 - q * 100);
        assert(0 <= r < 100);
        assert(q <= big);
        assert(grown(z) == q);
        assert(ticks(s, n) == tick_spec(t));
        assert(ticks(s, n).zoom == q);
        assert(100 * a * q <= 101 * b * z0) by (nonlinear_arith)
            requires
                a * z <= b * z0,
                100 * q + r == 101 * z,
                0 <= r,
                a > 0,
        ;
        assert(101 * b * z0 - 100 * (101 * b - 100 * a) <= 100 * a * q) by (nonlinear_arith)
            requires
                b * z0 - 100 * (b - a) <= a * z,
                100 * q + r == 101 * z,
                r < 100,
                a > 0,
        ;
    }
}

/// A frame of zooming in followed by a frame of zooming out about the same
/// point restores the zoom exactly (while the zoomed-in value fits in `i64`).
pub proof fn lemma_zoom_in_out_restores(s: ViewportState, x: i64, y: i64)
    requires
        s.wf(),
        s.gesture == Gesture::ZoomingIn(x, y),
        s.zoom * 101 / 100 <= i64::MAX,
    ensures
        tick_spec(ViewportState { gesture: Gesture::ZoomingOut(x, y), ..tick_spec(s) }).zoom
            == s.zoom,
{
    let z = s.zoom as int;
    let q = z * 101 / 100;
    lemma_fundamental_div_mod_converse(z * 101, 100, q, z * 101 - q * 100);
    assert(grown(z) == q);
    lemma_fundamental_div_mod_converse(q * 100 + 100, 101, z, q * 100 + 100 - z * 101);
}

/// The gesture transitions: a left press starts zooming in and a right press
/// zooming out at the pressed point; a move keeps the direction and takes the
/// new point; a release, or the end or cancellation of a touch, makes the
/// viewer idle; a touch that starts or moves zooms in at its point.
pub proof fn lemma_gesture_transitions(
    g: Gesture,
    x: i32,
    y: i32,
    button: MouseButton,
    id: u64,
    width: u32,
    height: u32,
)
    ensures
        next_gesture(
            g,
            InputEvent::PointerDown { button: MouseButton::Left, x, y },
            width,
            height,
        ) == Gesture::ZoomingIn(offset_of(x, width), offset_of(y, height)),
        next_gesture(
            g,
            InputEvent::PointerDown { button: MouseButton::Right, x, y },
            width,
            height,
        ) == Gesture::ZoomingOut(offset_of(x, width), offset_of(y, height)),
        next_gesture(g, InputEvent::PointerUp { button, x, y }, width, height) == Gesture::Idle,
        g is ZoomingIn ==> next_gesture(g, InputEvent::PointerMove { x, y }, width, height)
            == Gesture::ZoomingIn(offset_of(x, width), offset_of(y, height)),
        g is ZoomingOut ==> next_gesture(g, InputEvent::PointerMove { x, y }, width, height)
            == Gesture::ZoomingOut(offset_of(x, width), offset_of(y, height)),
        g is Idle ==> next_gesture(g, InputEvent::PointerMove { x, y }, width, height)
            == Gesture::Idle,
        next_gesture(
            g,
            InputEvent::Touch { phase: TouchPhase::Started, id, x, y },
            width,
            height,
        ) == Gesture::ZoomingIn(offset_of(x, width), offset_of(y, height)),
        next_gesture(g, InputEvent::Touch { phase: TouchPhase::Moved, id, x, y }, width, height)
            == Gesture::ZoomingIn(offset_of(x, width), offset_of(y, height)),
        next_gesture(g, InputEvent::Touch { phase: TouchPhase::Ended, id, x, y }, width, height)
            == Gesture::Idle,
        next_gesture(
            g,
            InputEvent::Touch { phase: TouchPhase::Cancelled, id, x, y },
            width,
            height,
        ) == Gesture::Idle,
{
}

proof fn lemma_center_offset_zero(raw: i32, extent: u32)
    requires
        0 < extent,
        2 * raw == extent,
    ensures
        offset_of(raw, extent) == 0,
{
    let e = extent as int;
    let den = 2 * (e * e * e);
    assert(den > 0) by (nonlinear_arith)
        requires
            e > 0,
            den == 2 * (e * e * e),
    ;
    assert(0int / den == 0) by (nonlinear_arith)
        requires
            den > 0,
    ;
}

proof fn lemma_still_center(s: ViewportState, n: nat)
    requires
        s.wf(),
        s.gesture == Gesture::ZoomingIn(0, 0),
        s.center_x == 0,
        s.center_y == 0,
    ensures
        ticks(s, n).center_x == 0,
        ticks(s, n).center_y == 0,
        ticks(s, n).gesture == s.gesture,
        ticks(s, n).wf(),
    decreases n,
{
    if n > 0 {
        let m = (n - 1) as nat;
        lemma_still_center(s, m);
        let z = grown(ticks(s, m).zoom as int);
        assert(z >= 1) by (nonlinear_arith)
            requires
                ticks(s, m).zoom >= 1,
                z == grown(ticks(s, m).zoom as int),
        ;
        assert(0int / z == 0) by (nonlinear_arith)
            requires
                z > 0,
        ;
    }
}

/// Zooming in at the exact centre of the surface, from the start state,
/// leaves the centre at the origin: the press there is the offset `(0, 0)`,
/// and after `n` frames the zoom is `1.01^n` up to the rounding of each step
/// (bounds as in [`lemma_zoom_in_compounds`], with `zoom0 == ONE`).
pub proof fn lemma_zoom_at_center(x: i32, y: i32, width: u32, height: u32, n: nat)
    requires
        0 < width,
        0 < height,
        2 * x == width,
        2 * y == height,
        power(101, n) * ONE <= power(100, n) * i64::MAX,
    ensures
        ({
            let s = ViewportState {
                center_x: 0,
                center_y: 0,
                zoom: ONE,
                gesture: next_gesture(
                    Gesture::Idle,
                    InputEvent::PointerDown { button: MouseButton::Left, x, y },
                    width,
                    height,
                ),
            };
            &&& s.gesture == Gesture::ZoomingIn(0, 0)
            &&& ticks(s, n).center_x == 0
            &&& ticks(s, n).center_y == 0
            &&& power(100, n) * ticks(s, n).zoom <= power(101, n) * ONE
            &&& power(101, n) * ONE - 100 * (power(101, n) - power(100, n)) <= power(100, n)
                * ticks(s, n).zoom
        }),
{
    lemma_center_offset_zero(x, width);
    lemma_center_offset_zero(y, height);
    let s = ViewportState {
        center_x: 0,
        center_y: 0,
        zoom: ONE,
        gesture: Gesture::ZoomingIn(0, 0),
    };
    lemma_still_center(s, n);
    lemma_zoom_in_compounds(s, n);
}

/// Zooming in at offsets `(x, y)` and at `(-x, y)` from the same state gives
/// the same zoom and vertical centre, and opposite horizontal centre moves,
/// as long as neither move saturates the centre.
pub proof fn lemma_zoom_in_pan_odd(s: ViewportState, x: i64, y: i64)
    requires
        s.wf(),
        s.gesture == Gesture::ZoomingIn(x, y),
        x != i64::MIN,
        -(i64::MAX as int) <= s.center_x - pan(x as int, grown(s.zoom as int)) <= i64::MAX,
        -(i64::MAX as int) <= s.center_x + pan(x as int, grown(s.zoom as int)) <= i64::MAX,
    ensures
        ({
            let t = ViewportState { gesture: Gesture::ZoomingIn((-x) as i64, y), ..s };
            &&& tick_spec(t).zoom == tick_spec(s).zoom
            &&& tick_spec(t).center_y == tick_spec(s).center_y
            &&& tick_spec(t).center_x - s.center_x == -(tick_spec(s).center_x - s.center_x)
        }),
{
    let z = grown(s.zoom as int);
    assert(z >= 1);
    assert((-x) * ONE == -(x * ONE)) by (nonlinear_arith);
    lemma_trunc_div_odd(x * ONE, z);
}

/// The gesture after a sequence of events, applied in order.
pub open spec fn after_events(
    g: Gesture,
    evs: Seq<InputEvent>,
    width: u32,
    height: u32,
) -> Gesture
    decreases evs.len(),
{
    if evs.len() == 0 {
        g
    } else {
        after_events(next_gesture(g, evs[0], width, height), evs.drop_first(), width, height)
    }
}

/// After a release, any number of pointer moves leave the viewer idle, and a
/// frame then changes nothing.
pub proof fn lemma_release_then_moves_idle(
    s: ViewportState,
    up: InputEvent,
    moves: Seq<InputEvent>,
    width: u32,
    height: u32,
)
    requires
        up is PointerUp,
        forall|i: int| 0 <= i < moves.len() ==> #[trigger] moves[i] is PointerMove,
    ensures
        ({
            let g = after_events(s.gesture, seq![up].add(moves), width, height);
            &&& g == Gesture::Idle
            &&& tick_spec(ViewportState { gesture: g, ..s }) == ViewportState { gesture: g, ..s }
        }),
{
    let all = seq![up].add(moves);
    assert(all[0] == up);
    assert(all.drop_first() =~= moves);
    lemma_moves_keep_idle(moves, width, height);
}

proof fn lemma_moves_keep_idle(moves: Seq<InputEvent>, width: u32, height: u32)
    requires
        forall|i: int| 0 <= i < moves.len() ==> #[trigger] moves[i] is PointerMove,
    ensures
        after_events(Gesture::Idle, moves, width, height) == Gesture::Idle,
    decreases moves.len(),
{
    if moves.len() > 0 {
        assert(moves[0] is PointerMove);
        let rest = moves.drop_first();
        assert forall|i: int| 0 <= i < rest.len() implies #[trigger] rest[i] is PointerMove by {
            assert(rest[i] == moves[i + 1]);
        }
        lemma_moves_keep_idle(rest, width, height);
    }
}

} // verus!
