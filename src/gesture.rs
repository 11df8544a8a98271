use vstd::prelude::*;

use crate::calibration::CalibrationData;
use crate::error::GestureError;
use crate::geometry::{
    drag_steps, drag_x, lemma_drag_between, fits_i32, slider_point, slider_span, slider_target, wheel_point,
    wheel_target, ScreenPoint, DRAG_STEPS,
};

verus! {

/// Settle time after moving the cursor onto the wheel or the slider, in ms.
pub const SETTLE_MS: u32 = 150;

/// Time the wheel button is held down, in ms.
pub const CLICK_HOLD_MS: u32 = 100;

/// Time for the wheel selection to take effect before the slider is touched.
pub const WHEEL_EFFECT_MS: u32 = 500;

/// Pause after pressing the slider handle, in ms.
pub const SLIDER_PRESS_MS: u32 = 50;

/// Pause after moving the cursor, and again after posting, for each drag step.
pub const DRAG_PAUSE_MS: u32 = 20;

/// Pause after releasing the slider, in ms.
pub const RELEASE_MS: u32 = 300;

/// Pixel offsets that a colour maps to under one calibration: the wheel
/// point relative to the center (`dy` counts upward) and the slider point
/// relative to its left end.
#[derive(Clone, Copy, Debug, PartialEq, Eq, Structural)]
pub struct ColorOffsets {
    pub wheel_dx: i32,
    pub wheel_dy: i32,
    pub slider_dx: i64,
}

/// A synthetic mouse event addressed to the target window.
#[derive(Clone, Copy, Debug, PartialEq, Eq, Structural)]
pub enum MouseEventKind {
    ButtonDown,
    ButtonUp,
    MoveHeld,
}

/// One primitive step of a gesture. Points are in screen coordinates; the
/// backend translates them to the window's client coordinates when posting.
#[derive(Clone, Copy, Debug, PartialEq, Eq, Structural)]
pub enum Action {
    /// Resolve the target window by its title.
    FindWindow,
    /// Move the system cursor.
    MoveCursor(ScreenPoint),
    /// Block for the given number of milliseconds.
    Wait(u32),
    /// Deliver a mouse event to the target window at a point.
    Post(MouseEventKind, ScreenPoint),
}

/// The screen targets of one colour gesture.
#[derive(Clone, Copy, Debug, PartialEq, Eq, Structural)]
pub struct GesturePlan {
    /// Where the wheel is clicked.
    pub wheel: ScreenPoint,
    /// Where the slider drag starts: its right end, assumed to hold the
    /// handle after a fresh wheel selection.
    pub slider_origin: ScreenPoint,
    /// Where the slider drag ends.
    pub slider_target: ScreenPoint,
}

/// The decision taken before any platform call: a colour out of range, a
/// missing or unusable calibration and a platform without a backend are
/// refused, in that order.
pub open spec fn request_result(
    color_in_range: bool,
    snapshot: Option<CalibrationData>,
    platform_supported: bool,
) -> Result<CalibrationData, GestureError> {
    if !color_in_range {
        Err(GestureError::InvalidInput)
    } else {
        match snapshot {
            None => Err(GestureError::MissingCalibration),
            Some(c) => if !c.wf() {
                Err(GestureError::InvalidInput)
            } else if !platform_supported {
                Err(GestureError::UnsupportedPlatform)
            } else {
                Ok(c)
            },
        }
    }
}

/// Offsets that a colour can produce under `cal`: the wheel offsets within
/// the radius and the slider offset within the slider.
pub open spec fn offsets_in_range(cal: CalibrationData, o: ColorOffsets) -> bool {
    &&& -cal.radius <= o.wheel_dx <= cal.radius
    &&& -cal.radius <= o.wheel_dy <= cal.radius
    &&& 0 <= o.slider_dx <= slider_span(cal)
}

/// Whether `p` is the screen point `q`.
pub open spec fn at(p: ScreenPoint, q: (int, int)) -> bool {
    p.x as int == q.0 && p.y as int == q.1
}

/// Whether a gesture plan exists for `cal` and `o`.
pub open spec fn plannable(cal: CalibrationData, o: ColorOffsets) -> bool {
    let w = wheel_point(cal, o.wheel_dx as int, o.wheel_dy as int);
    &&& cal.wf()
    &&& offsets_in_range(cal, o)
    &&& fits_i32(w.0)
    &&& fits_i32(w.1)
}

/// The point of drag step `i` (from 1 to 10) of a plan.
pub open spec fn drag_point(plan: GesturePlan, i: int) -> ScreenPoint {
    ScreenPoint {
        x: drag_x(plan.slider_origin.x as int, plan.slider_target.x as int, i) as i32,
        y: plan.slider_origin.y,
    }
}

/// The four actions of drag step `i`.
pub open spec fn drag_step_actions(plan: GesturePlan, i: int) -> Seq<Action> {
    seq![
        Action::MoveCursor(drag_point(plan, i)),
        Action::Wait(DRAG_PAUSE_MS),
        Action::Post(MouseEventKind::MoveHeld, drag_point(plan, i)),
        Action::Wait(DRAG_PAUSE_MS),
    ]
}

/// The actions of the first `n` drag steps, in order.
pub open spec fn drag_script(plan: GesturePlan, n: nat) -> Seq<Action>
    decreases n,
{
    if n == 0 {
        Seq::empty()
    } else {
        drag_script(plan, (n - 1) as nat) + drag_step_actions(plan, n as int)
    }
}

/// Everything before the drag: find the window, click the wheel, then press
/// the slider handle at its origin.
pub open spec fn opening_script(plan: GesturePlan) -> Seq<Action> {
    seq![
        Action::FindWindow,
        Action::MoveCursor(plan.wheel),
        Action::Wait(SETTLE_MS),
        Action::Post(MouseEventKind::ButtonDown, plan.wheel),
        Action::Wait(CLICK_HOLD_MS),
        Action::Post(MouseEventKind::ButtonUp, plan.wheel),
        Action::Wait(WHEEL_EFFECT_MS),
        Action::MoveCursor(plan.slider_origin),
        Action::Wait(SETTLE_MS),
        Action::Post(MouseEventKind::ButtonDown, plan.slider_origin),
        Action::Wait(SLIDER_PRESS_MS),
    ]
}

/// Release the slider on its target.
pub open spec fn closing_script(plan: GesturePlan) -> Seq<Action> {
    seq![
        Action::Post(MouseEventKind::ButtonUp, plan.slider_target),
        Action::Wait(RELEASE_MS),
    ]
}

/// The whole gesture for a plan, in the order in which it is performed.
pub open spec fn gesture_script(plan: GesturePlan) -> Seq<Action> {
    opening_script(plan) + drag_script(plan, DRAG_STEPS as nat) + closing_script(plan)
}

proof fn lemma_drag_script_index(plan: GesturePlan, n: nat)
    ensures
        drag_script(plan, n).len() == 4 * n,
        forall|k: int, j: int|
            0 <= k < n && 0 <= j < 4 ==> #[trigger] drag_script(plan, n)[4 * k + j]
                == drag_step_actions(plan, k + 1)[j],
    decreases n,
{
    if n > 0 {
        lemma_drag_script_index(plan, (n - 1) as nat);
        assert forall|k: int, j: int| 0 <= k < n && 0 <= j < 4 implies #[trigger] drag_script(
            plan,
            n,
        )[4 * k + j] == drag_step_actions(plan, k + 1)[j] by {
            if k < n - 1 {
                assert(drag_script(plan, n)[4 * k + j] == drag_script(plan, (n - 1) as nat)[4 * k
                    + j]);
            }
        }
    }
}

/// The shape of every gesture: 53 actions, opening with the window lookup;
/// drag step `k` (from 1 to 10) moves the cursor and posts a held move at
/// actions `7 + 4k` and `9 + 4k`; the steps lie between the slider origin and
/// target, the last one on the target, where the button is released.
pub proof fn lemma_script_shape(plan: GesturePlan)
    ensures
        gesture_script(plan).len() == 53,
        gesture_script(plan)[0] == Action::FindWindow,
        forall|k: int|
            1 <= k <= DRAG_STEPS ==> {
                &&& #[trigger] gesture_script(plan)[7 + 4 * k] == Action::MoveCursor(
                    drag_point(plan, k),
                )
                &&& gesture_script(plan)[9 + 4 * k] == Action::Post(
                    MouseEventKind::MoveHeld,
                    drag_point(plan, k),
                )
            },
        forall|k: int|
            1 <= k <= DRAG_STEPS ==> {
                &&& plan.slider_origin.x <= plan.slider_target.x ==> plan.slider_origin.x
                    <= #[trigger] drag_x(plan.slider_origin.x as int, plan.slider_target.x as int, k)
                    <= plan.slider_target.x
                &&& plan.slider_target.x < plan.slider_origin.x ==> plan.slider_target.x
                    <= drag_x(plan.slider_origin.x as int, plan.slider_target.x as int, k)
                    <= plan.slider_origin.x
            },
        drag_x(plan.slider_origin.x as int, plan.slider_target.x as int, DRAG_STEPS as int)
            == plan.slider_target.x,
        gesture_script(plan)[51] == Action::Post(MouseEventKind::ButtonUp, plan.slider_target),
{
    let o = plan.slider_origin.x as int;
    let t = plan.slider_target.x as int;
    lemma_drag_script_index(plan, DRAG_STEPS as nat);
    let g = gesture_script(plan);
    assert forall|k: int| 1 <= k <= DRAG_STEPS implies {
        &&& #[trigger] g[7 + 4 * k] == Action::MoveCursor(drag_point(plan, k))
        &&& g[9 + 4 * k] == Action::Post(MouseEventKind::MoveHeld, drag_point(plan, k))
    } by {
        assert(g[7 + 4 * k] == drag_script(plan, DRAG_STEPS as nat)[4 * (k - 1) + 0]);
        assert(g[9 + 4 * k] == drag_script(plan, DRAG_STEPS as nat)[4 * (k - 1) + 2]);
    }
    assert forall|k: int| 1 <= k <= DRAG_STEPS implies {
        &&& o <= t ==> o <= #[trigger] drag_x(o, t, k) <= t
        &&& t < o ==> t <= drag_x(o, t, k) <= o
    } by {
        lemma_drag_between(o, t, k);
    }
    lemma_drag_between(o, t, DRAG_STEPS as int);
}

/// How long an action blocks, in milliseconds.
pub open spec fn wait_ms(a: Action) -> int {
    match a {
        Action::Wait(ms) => ms as int,
        _ => 0,
    }
}

/// The time a script spends waiting, in milliseconds.
pub open spec fn total_wait(s: Seq<Action>) -> int
    decreases s.len(),
{
    if s.len() == 0 {
        0
    } else {
        total_wait(s.drop_last()) + wait_ms(s.last())
    }
}

proof fn lemma_total_wait_concat(a: Seq<Action>, b: Seq<Action>)
    ensures
        total_wait(a + b) == total_wait(a) + total_wait(b),
    decreases b.len(),
{
    if b.len() == 0 {
        assert(a + b =~= a);
    } else {
        lemma_total_wait_concat(a, b.drop_last());
        assert((a + b).drop_last() =~= a + b.drop_last());
    }
}

broadcast proof fn lemma_total_wait_push(s: Seq<Action>, a: Action)
    ensures
        #[trigger] total_wait(s.push(a)) == total_wait(s) + wait_ms(a),
{
    assert(s.push(a).drop_last() =~= s);
}

proof fn lemma_drag_wait(plan: GesturePlan, n: nat)
    ensures
        total_wait(drag_script(plan, n)) == 40 * n,
    decreases n,
{
    broadcast use lemma_total_wait_push;

    if n > 0 {
        lemma_drag_wait(plan, (n - 1) as nat);
        let d = drag_step_actions(plan, n as int);
        assert(total_wait(Seq::<Action>::empty()) == 0);
        assert(d =~= Seq::empty().push(d[0]).push(d[1]).push(d[2]).push(d[3]));
        assert(total_wait(d) == 40);
        lemma_total_wait_concat(drag_script(plan, (n - 1) as nat), d);
        assert(drag_script(plan, n) == drag_script(plan, (n - 1) as nat) + d);
    } else {
        assert(total_wait(drag_script(plan, n)) == 0);
    }
}

/// Every gesture blocks for the same total time, 1650 ms, whatever its
/// targets: the delays are fixed and the drag always has ten steps.
pub proof fn lemma_gesture_duration(plan: GesturePlan)
    ensures
        total_wait(gesture_script(plan)) == 1650,
{
    broadcast use lemma_total_wait_push;

    let o = opening_script(plan);
    let d = drag_script(plan, DRAG_STEPS as nat);
    let c = closing_script(plan);
    assert(total_wait(Seq::<Action>::empty()) == 0);
    assert(o =~= Seq::empty().push(o[0]).push(o[1]).push(o[2]).push(o[3]).push(o[4]).push(
        o[5],
    ).push(o[6]).push(o[7]).push(o[8]).push(o[9]).push(o[10]));
    assert(total_wait(o) == 950);
    assert(c =~= Seq::empty().push(c[0]).push(c[1]));
    assert(total_wait(c) == 300);
    lemma_total_wait_concat(o + d, c);
    lemma_total_wait_concat(o, d);
    lemma_drag_wait(plan, DRAG_STEPS as nat);
}

/// Checks a colour request before any platform call: `color_in_range` says
/// whether each of h, s and v lies in `[0, 1]`, `snapshot` is the calibration
/// read once at the start, and `platform_supported` whether a native backend
/// exists. Returns the calibration to use.
pub fn check_request(
    color_in_range: bool,
    snapshot: Option<CalibrationData>,
    platform_supported: bool,
) -> (r: Result<CalibrationData, GestureError>)
    ensures
        r == request_result(color_in_range, snapshot, platform_supported),
{
    if !color_in_range {
        return Err(GestureError::InvalidInput);
    }
    let cal = match snapshot {
        None => {
            return Err(GestureError::MissingCalibration);
        },
        Some(c) => c,
    };
    if cal.validate().is_err() {
        return Err(GestureError::InvalidInput);
    }
    if !platform_supported {
        return Err(GestureError::UnsupportedPlatform);
    }
    Ok(cal)
}

/// The screen targets for a colour whose offsets under `cal` are `o`: the
/// wheel point, the slider's right end as drag origin, and the slider point.
/// Fails with `InvalidInput` when the calibration is unusable, an offset is
/// out of range, or the wheel point leaves the coordinate range.
pub fn plan_gesture(cal: &CalibrationData, o: ColorOffsets) -> (r: Result<
    GesturePlan,
    GestureError,
>)
    ensures
        r is Ok <==> plannable(*cal, o),
        r is Err ==> r == Err::<GesturePlan, GestureError>(GestureError::InvalidInput),
        r matches Ok(plan) ==> {
            &&& at(plan.wheel, wheel_point(*cal, o.wheel_dx as int, o.wheel_dy as int))
            &&& plan.slider_origin == ScreenPoint {
                x: cal.brightness_x_end,
                y: cal.brightness_y,
            }
            &&& at(plan.slider_target, slider_point(*cal, o.slider_dx as int))
        },
{
    if cal.validate().is_err() {
        return Err(GestureError::InvalidInput);
    }
    if o.wheel_dx < -cal.radius || o.wheel_dx > cal.radius || o.wheel_dy < -cal.radius
        || o.wheel_dy > cal.radius {
        return Err(GestureError::InvalidInput);
    }
    if o.slider_dx < 0 || o.slider_dx > cal.brightness_x_end as i64 - cal.brightness_x_start as i64 {
        return Err(GestureError::InvalidInput);
    }
    let wheel = match wheel_target(cal, o.wheel_dx, o.wheel_dy) {
        None => {
            return Err(GestureError::InvalidInput);
        },
        Some(p) => p,
    };
    let slider_origin = ScreenPoint { x: cal.brightness_x_end, y: cal.brightness_y };
    let slider_target = slider_target(cal, o.slider_dx);
    Ok(GesturePlan { wheel, slider_origin, slider_target })
}

/// The actions of a plan's gesture, in order.
pub fn build_script(plan: &GesturePlan) -> (r: Vec<Action>)
    ensures
        r@ == gesture_script(*plan),
{
    let mut r: Vec<Action> = Vec::new();
    r.push(Action::FindWindow);
    r.push(Action::MoveCursor(plan.wheel));
    r.push(Action::Wait(SETTLE_MS));
    r.push(Action::Post(MouseEventKind::ButtonDown, plan.wheel));
    r.push(Action::Wait(CLICK_HOLD_MS));
    r.push(Action::Post(MouseEventKind::ButtonUp, plan.wheel));
    r.push(Action::Wait(WHEEL_EFFECT_MS));
    r.push(Action::MoveCursor(plan.slider_origin));
    r.push(Action::Wait(SETTLE_MS));
    r.push(Action::Post(MouseEventKind::ButtonDown, plan.slider_origin));
    r.push(Action::Wait(SLIDER_PRESS_MS));
    assert(r@ =~= opening_script(*plan));
    let steps = drag_steps(plan.slider_origin.x, plan.slider_target.x);
    let y = plan.slider_origin.y;
    let mut i: usize = 0;
    while i < steps.len()
        invariant
            steps@.len() == DRAG_STEPS,
            forall|k: int|
                0 <= k < DRAG_STEPS ==> steps@[k] as int == drag_x(
                    plan.slider_origin.x as int,
                    plan.slider_target.x as int,
                    k + 1,
                ),
            y == plan.slider_origin.y,
            0 <= i <= DRAG_STEPS,
            r@ == opening_script(*plan) + drag_script(*plan, i as nat),
        decreases DRAG_STEPS - i,
    {
        let p = ScreenPoint { x: steps[i], y };
        assert(p == drag_point(*plan, i + 1));
        r.push(Action::MoveCursor(p));
        r.push(Action::Wait(DRAG_PAUSE_MS));
        r.push(Action::Post(MouseEventKind::MoveHeld, p));
        r.push(Action::Wait(DRAG_PAUSE_MS));
        assert(drag_script(*plan, (i + 1) as nat) == drag_script(*plan, i as nat)
            + drag_step_actions(*plan, i + 1));
        assert(r@ =~= opening_script(*plan) + drag_script(*plan, (i + 1) as nat));
        i = i + 1;
    }
    r.push(Action::Post(MouseEventKind::ButtonUp, plan.slider_target));
    r.push(Action::Wait(RELEASE_MS));
    assert(r@ =~= gesture_script(*plan));
    r
}

} // verus!
