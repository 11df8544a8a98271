use vstd::prelude::*;

use crate::calibration::CalibrationData;

verus! {

/// Number of intermediate positions in a slider drag.
pub const DRAG_STEPS: i64 = 10;

/// An absolute screen position, in pixels.
#[derive(Clone, Copy, Debug, PartialEq, Eq, Structural)]
pub struct ScreenPoint {
    pub x: i32,
    pub y: i32,
}

/// Whether `v` can be held in an `i32`.
pub open spec fn fits_i32(v: int) -> bool {
    i32::MIN <= v <= i32::MAX
}

/// Integer division that rounds toward zero, as Rust's `/` does on signed
/// integers.
pub open spec fn trunc_div(a: int, d: int) -> int {
    if a >= 0 {
        a / d
    } else {
        -((-a) / d)
    }
}

/// Column of drag step `i` from `origin` to `target`: the fraction `i / 10`
/// of the way, truncated toward zero.
pub open spec fn drag_x(origin: int, target: int, i: int) -> int {
    origin + trunc_div((target - origin) * i, DRAG_STEPS as int)
}

/// The wheel point for pixel offsets `(dx, dy)` from the center: screen rows
/// grow downward, so the vertical offset is subtracted.
pub open spec fn wheel_point(cal: CalibrationData, dx: int, dy: int) -> (int, int) {
    (cal.center_x + dx, cal.center_y - dy)
}

/// The slider point `dx` pixels right of the slider's left end.
pub open spec fn slider_point(cal: CalibrationData, dx: int) -> (int, int) {
    (cal.brightness_x_start + dx, cal.brightness_y as int)
}

/// How wheel offsets place the point: the point is as far from the center,
/// along each axis, as the offsets say; a rightward offset alone keeps the
/// center's row, and an upward offset alone keeps its column and lies above
/// it on screen.
pub proof fn lemma_wheel_axes(cal: CalibrationData, dx: int, dy: int)
    ensures
        wheel_point(cal, dx, dy).0 - cal.center_x == dx,
        cal.center_y - wheel_point(cal, dx, dy).1 == dy,
        dy == 0 && dx >= 0 ==> wheel_point(cal, dx, dy).1 == cal.center_y && wheel_point(
            cal,
            dx,
            dy,
        ).0 >= cal.center_x,
        dx == 0 && dy > 0 ==> wheel_point(cal, dx, dy).0 == cal.center_x && wheel_point(
            cal,
            dx,
            dy,
        ).1 < cal.center_y,
        dx == 0 && dy == 0 ==> wheel_point(cal, dx, dy) == (cal.center_x as int, cal.center_y as int),
{
}

/// Width of the slider in pixels.
pub open spec fn slider_span(cal: CalibrationData) -> int {
    cal.brightness_x_end - cal.brightness_x_start
}

/// The wheel target for offsets `(dx, dy)` from the center, or `None` when it
/// falls outside the screen coordinate range.
pub fn wheel_target(cal: &CalibrationData, dx: i32, dy: i32) -> (r: Option<ScreenPoint>)
    ensures
        r is Some <==> fits_i32(wheel_point(*cal, dx as int, dy as int).0) && fits_i32(
            wheel_point(*cal, dx as int, dy as int).1,
        ),
        r matches Some(p) ==> (p.x as int, p.y as int) == wheel_point(*cal, dx as int, dy as int),
{
    let x: i64 = cal.center_x as i64 + dx as i64;
    let y: i64 = cal.center_y as i64 - dy as i64;
    if x < i32::MIN as i64 || x > i32::MAX as i64 || y < i32::MIN as i64 || y > i32::MAX as i64 {
        None
    } else {
        Some(ScreenPoint { x: x as i32, y: y as i32 })
    }
}

/// The slider target `dx` pixels right of the slider's left end.
pub fn slider_target(cal: &CalibrationData, dx: i64) -> (r: ScreenPoint)
    requires
        cal.wf(),
        0 <= dx <= slider_span(*cal),
    ensures
        (r.x as int, r.y as int) == slider_point(*cal, dx as int),
{
    let x: i64 = cal.brightness_x_start as i64 + dx;
    ScreenPoint { x: x as i32, y: cal.brightness_y }
}

proof fn lemma_trunc_div_between(d: int, i: int)
    requires
        0 <= i <= DRAG_STEPS,
    ensures
        d >= 0 ==> 0 <= trunc_div(d * i, DRAG_STEPS as int) <= d,
        d < 0 ==> d <= trunc_div(d * i, DRAG_STEPS as int) <= 0,
        i == DRAG_STEPS ==> trunc_div(d * i, DRAG_STEPS as int) == d,
{
    if d >= 0 {
        assert(0 <= d * i <= d * 10) by (nonlinear_arith)
            requires
                d >= 0,
                0 <= i <= 10,
        ;
        assert(0 <= (d * i) / 10 <= d) by (nonlinear_arith)
            requires
                0 <= d * i <= d * 10,
        ;
    } else {
        assert((-d) * i == -(d * i)) by (nonlinear_arith);
        assert(0 <= (-d) * i <= (-d) * 10) by (nonlinear_arith)
            requires
                d < 0,
                0 <= i <= 10,
        ;
        assert(0 <= ((-d) * i) / 10 <= -d) by (nonlinear_arith)
            requires
                0 <= (-d) * i <= (-d) * 10,
        ;
    }
}

/// Every drag step lies between the origin and the target, and the last one
/// lands exactly on the target.
pub proof fn lemma_drag_between(origin: int, target: int, i: int)
    requires
        1 <= i <= DRAG_STEPS,
    ensures
        origin <= target ==> origin <= drag_x(origin, target, i) <= target,
        target < origin ==> target <= drag_x(origin, target, i) <= origin,
        i == DRAG_STEPS ==> drag_x(origin, target, i) == target,
{
    lemma_trunc_div_between(target - origin, i);
}

/// The columns of the ten drag steps from `origin_x` to `target_x`.
pub fn drag_steps(origin_x: i32, target_x: i32) -> (r: Vec<i32>)
    ensures
        r@.len() == DRAG_STEPS,
        forall|k: int| 0 <= k < DRAG_STEPS ==> r@[k] as int == drag_x(origin_x as int, target_x as int, k + 1),
        r@[DRAG_STEPS - 1] == target_x,
{
    let d: i64 = target_x as i64 - origin_x as i64;
    let mut r: Vec<i32> = Vec::new();
    let mut i: i64 = 1;
    while i <= DRAG_STEPS
        invariant
            1 <= i <= DRAG_STEPS + 1,
            d == target_x as int - origin_x as int,
            r@.len() == i - 1,
            forall|k: int| 0 <= k < i - 1 ==> r@[k] as int == drag_x(origin_x as int, target_x as int, k + 1),
        decreases DRAG_STEPS + 1 - i,
    {
        proof {
            lemma_drag_between(origin_x as int, target_x as int, i as int);
            assert(-42949672960 <= d * i <= 42949672960) by (nonlinear_arith)
                requires
                    -4294967296 <= d <= 4294967296,
                    1 <= i <= 10,
            ;
        }
        let p: i64 = d * i;
        let q: i64 = if p >= 0 {
            p / DRAG_STEPS
        } else {
            -((-p) / DRAG_STEPS)
        };
        let x: i64 = origin_x as i64 + q;
        r.push(x as i32);
        i = i + 1;
    }
    proof {
        lemma_drag_between(origin_x as int, target_x as int, DRAG_STEPS as int);
    }
    r
}

} // verus!
