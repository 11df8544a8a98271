//! Drives a target application's colour wheel and brightness slider with
//! synthetic mouse input.
//!
//! The library holds the verified logic: the calibration record and its
//! store, the mapping from pixel offsets to screen targets, the fixed click
//! and drag gesture as a script with a runner, and the parsing of hex colours
//! into palettes. Floating-point colour maths and the platform calls live in
//! the program that embeds it.
pub mod calibration;
pub mod error;
pub mod geometry;
pub mod gesture;
pub mod palette;
pub mod runner;

pub use calibration::{CalibrationData, CalibrationStore};
pub use error::GestureError;
pub use geometry::{drag_steps, slider_target, wheel_target, ScreenPoint, DRAG_STEPS};
pub use gesture::{build_script, check_request, plan_gesture, Action, ColorOffsets, GesturePlan, MouseEventKind};
pub use runner::GestureRun;
pub use palette::{palettes_from_rows, parse_hex_color, select_palettes, PaletteRow, Rgb, PALETTE_LEN};
