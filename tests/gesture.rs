use palette_input::{
    build_script, check_request, drag_steps, plan_gesture, wheel_target, Action, CalibrationData,
    CalibrationStore, ColorOffsets, GestureError, GesturePlan, GestureRun, MouseEventKind,
    ScreenPoint, DRAG_STEPS,
};

fn calibration() -> CalibrationData {
    CalibrationData {
        center_x: 500,
        center_y: 500,
        radius: 100,
        brightness_x_start: 400,
        brightness_x_end: 600,
        brightness_y: 700,
    }
}

fn plan_for(o: ColorOffsets) -> GesturePlan {
    plan_gesture(&calibration(), o).unwrap()
}

#[test]
fn slider_interpolation_hundred_to_two_hundred() {
    assert_eq!(drag_steps(100, 200), vec![110, 120, 130, 140, 150, 160, 170, 180, 190, 200]);
}

#[test]
fn slider_interpolation_truncates_toward_zero() {
    assert_eq!(drag_steps(0, 15), vec![1, 3, 4, 6, 7, 9, 10, 12, 13, 15]);
    assert_eq!(drag_steps(0, -15), vec![-1, -3, -4, -6, -7, -9, -10, -12, -13, -15]);
}

#[test]
fn slider_interpolation_without_motion() {
    assert_eq!(drag_steps(42, 42), vec![42; 10]);
}

#[test]
fn slider_interpolation_across_the_whole_range() {
    let s = drag_steps(i32::MIN, i32::MAX);
    assert_eq!(s.len(), DRAG_STEPS as usize);
    assert_eq!(s[0], i32::MIN + 429496729);
    assert_eq!(s[9], i32::MAX);
}

#[test]
fn out_of_range_color_is_refused_first() {
    assert_eq!(check_request(false, Some(calibration()), true), Err(GestureError::InvalidInput));
    assert_eq!(check_request(false, None, false), Err(GestureError::InvalidInput));
}

#[test]
fn unsupported_platform_is_refused_before_any_window_lookup() {
    assert_eq!(
        check_request(true, Some(calibration()), false),
        Err(GestureError::UnsupportedPlatform)
    );
}

#[test]
fn missing_calibration_is_refused() {
    let store = CalibrationStore::new();
    assert_eq!(check_request(true, store.get_calibration(), true), Err(GestureError::MissingCalibration));
    assert_eq!(check_request(true, None, false), Err(GestureError::MissingCalibration));
}

#[test]
fn unusable_snapshot_is_refused() {
    let mut bad = calibration();
    bad.radius = 0;
    assert_eq!(check_request(true, Some(bad), true), Err(GestureError::InvalidInput));
}

#[test]
fn accepted_request_returns_snapshot() {
    assert_eq!(check_request(true, Some(calibration()), true), Ok(calibration()));
}

#[test]
fn end_to_end_plan() {
    let plan = plan_for(ColorOffsets { wheel_dx: 100, wheel_dy: 0, slider_dx: 100 });
    assert_eq!(plan.wheel, ScreenPoint { x: 600, y: 500 });
    assert_eq!(plan.slider_origin, ScreenPoint { x: 600, y: 700 });
    assert_eq!(plan.slider_target, ScreenPoint { x: 500, y: 700 });
    let script = build_script(&plan);
    let drags: Vec<i32> = script
        .iter()
        .filter_map(|a| match a {
            Action::Post(MouseEventKind::MoveHeld, p) => Some(p.x),
            _ => None,
        })
        .collect();
    assert_eq!(drags, vec![590, 580, 570, 560, 550, 540, 530, 520, 510, 500]);
}

#[test]
fn wheel_offset_up_is_above_center() {
    let plan = plan_for(ColorOffsets { wheel_dx: 0, wheel_dy: 100, slider_dx: 0 });
    assert_eq!(plan.wheel, ScreenPoint { x: 500, y: 400 });
    assert_eq!(plan.slider_target, ScreenPoint { x: 400, y: 700 });
}

#[test]
fn zero_offsets_hit_center() {
    let plan = plan_for(ColorOffsets { wheel_dx: 0, wheel_dy: 0, slider_dx: 200 });
    assert_eq!(plan.wheel, ScreenPoint { x: 500, y: 500 });
    assert_eq!(plan.slider_target, ScreenPoint { x: 600, y: 700 });
}

#[test]
fn offsets_outside_calibration_are_refused() {
    let cal = calibration();
    let bad = [
        ColorOffsets { wheel_dx: 101, wheel_dy: 0, slider_dx: 0 },
        ColorOffsets { wheel_dx: 0, wheel_dy: -101, slider_dx: 0 },
        ColorOffsets { wheel_dx: 0, wheel_dy: 0, slider_dx: -1 },
        ColorOffsets { wheel_dx: 0, wheel_dy: 0, slider_dx: 201 },
    ];
    for o in bad {
        assert_eq!(plan_gesture(&cal, o), Err(GestureError::InvalidInput));
    }
}

#[test]
fn wheel_off_the_coordinate_range_is_refused() {
    let mut cal = calibration();
    cal.center_x = i32::MAX;
    assert_eq!(
        plan_gesture(&cal, ColorOffsets { wheel_dx: 1, wheel_dy: 0, slider_dx: 0 }),
        Err(GestureError::InvalidInput)
    );
    assert_eq!(wheel_target(&cal, 1, 0), None);
    assert_eq!(wheel_target(&cal, -1, 0), Some(ScreenPoint { x: i32::MAX - 1, y: 500 }));
}

#[test]
fn script_layout() {
    let plan = plan_for(ColorOffsets { wheel_dx: 100, wheel_dy: 0, slider_dx: 100 });
    let s = build_script(&plan);
    let w = ScreenPoint { x: 600, y: 500 };
    let o = ScreenPoint { x: 600, y: 700 };
    let t = ScreenPoint { x: 500, y: 700 };
    assert_eq!(s.len(), 53);
    assert_eq!(
        s[..11].to_vec(),
        vec![
            Action::FindWindow,
            Action::MoveCursor(w),
            Action::Wait(150),
            Action::Post(MouseEventKind::ButtonDown, w),
            Action::Wait(100),
            Action::Post(MouseEventKind::ButtonUp, w),
            Action::Wait(500),
            Action::MoveCursor(o),
            Action::Wait(150),
            Action::Post(MouseEventKind::ButtonDown, o),
            Action::Wait(50),
        ]
    );
    let first = ScreenPoint { x: 590, y: 700 };
    assert_eq!(
        s[11..15].to_vec(),
        vec![
            Action::MoveCursor(first),
            Action::Wait(20),
            Action::Post(MouseEventKind::MoveHeld, first),
            Action::Wait(20),
        ]
    );
    assert_eq!(s[51], Action::Post(MouseEventKind::ButtonUp, t));
    assert_eq!(s[52], Action::Wait(300));
    let total: u32 = s.iter().map(|a| if let Action::Wait(ms) = a { *ms } else { 0 }).sum();
    assert_eq!(total, 1650);
}

#[test]
fn run_succeeds_after_every_action() {
    let plan = plan_for(ColorOffsets { wheel_dx: 100, wheel_dy: 0, slider_dx: 100 });
    let expected = build_script(&plan);
    let mut run = GestureRun::new(&plan);
    let mut seen = Vec::new();
    while let Some(a) = run.next_action() {
        assert_eq!(run.outcome(), None);
        seen.push(a);
        run.report(Ok(()));
    }
    assert_eq!(seen, expected);
    assert_eq!(run.outcome(), Some(Ok(())));
}

#[test]
fn run_stops_at_missing_window() {
    let plan = plan_for(ColorOffsets { wheel_dx: 100, wheel_dy: 0, slider_dx: 100 });
    let mut run = GestureRun::new(&plan);
    assert_eq!(run.next_action(), Some(Action::FindWindow));
    run.report(Err(GestureError::WindowNotFound));
    assert_eq!(run.next_action(), None);
    assert_eq!(run.outcome(), Some(Err(GestureError::WindowNotFound)));
}

#[test]
fn run_stops_mid_drag() {
    let plan = plan_for(ColorOffsets { wheel_dx: 100, wheel_dy: 0, slider_dx: 100 });
    let mut run = GestureRun::new(&plan);
    for _ in 0..21 {
        assert!(run.next_action().is_some());
        run.report(Ok(()));
    }
    assert_eq!(run.next_action(), Some(Action::Post(MouseEventKind::MoveHeld, ScreenPoint { x: 570, y: 700 })));
    run.report(Err(GestureError::OsCallFailure));
    assert_eq!(run.next_action(), None);
    assert_eq!(run.outcome(), Some(Err(GestureError::OsCallFailure)));
}
