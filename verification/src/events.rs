//! Input: what the pointer did in a tick, in the form that the controller takes it.
use vstd::prelude::*;
use crate::config::OrbitCameraConfig;
use crate::fixed::{divided, divided_by, saturate, saturated, scaled, scaled_against, scaled_by};
use crate::state::ScreenPos;

verus! {

/// What the pointer asks of the camera in one tick.
#[derive(Clone, Copy, Debug, PartialEq, Eq)]
pub struct OrbitCameraInputEvent {
    /// Where a drag began, on the tick on which it began.
    pub pan_start: Option<ScreenPos>,
    /// Pointer travel in pixels, while the drag button is held.
    pub pan_delta: Option<(i64, i64)>,
    /// Yaw and pitch asked for, in degrees, while the orbit button is held.
    pub orbit_delta: Option<(i64, i64)>,
    /// Change of zoom level asked for.
    pub zoom_delta: i64,
    /// Where the pointer was when the wheel began to turn.
    pub zoom_start_cursor_position: Option<ScreenPos>,
}

impl OrbitCameraInputEvent {
    /// The pointer asks for nothing.
    pub open spec fn is_idle(&self) -> bool {
        &&& self.pan_start is None
        &&& self.pan_delta is None
        &&& self.orbit_delta is None
        &&& self.zoom_delta == 0
        &&& self.zoom_start_cursor_position is None
    }
}

/// Which buttons of the pointer are down in a tick.
#[derive(Clone, Copy, Debug, PartialEq, Eq)]
pub struct PointerButtons {
    /// The drag button is down.
    pub left_pressed: bool,
    /// The drag button went down in this tick.
    pub left_just_pressed: bool,
    /// The orbit button is down.
    pub right_pressed: bool,
}

/// What a wheel counts in.
#[derive(Clone, Copy, Debug, PartialEq, Eq)]
pub enum ScrollUnit {
    Line,
    Pixel,
}

/// One turn of the wheel.
#[derive(Clone, Copy, Debug, PartialEq, Eq)]
pub struct WheelEvent {
    pub unit: ScrollUnit,
    pub y: i64,
}

/// The sum of the first and of the second parts of `motions`.
pub open spec fn travel(motions: Seq<(i64, i64)>) -> (int, int)
    decreases motions.len(),
{
    if motions.len() == 0 {
        (0, 0)
    } else {
        let before = travel(motions.drop_last());
        (before.0 + motions.last().0, before.1 + motions.last().1)
    }
}

/// The lines that one turn of the wheel stands for.
pub open spec fn lines_of(turn: WheelEvent, pixels_per_line: int) -> int {
    match turn.unit {
        ScrollUnit::Line => turn.y as int,
        ScrollUnit::Pixel => divided(turn.y as int, pixels_per_line),
    }
}

/// The zoom-level units that the turns of `wheel` add up to.
pub open spec fn wheel_total(wheel: Seq<WheelEvent>, config: OrbitCameraConfig) -> int
    decreases wheel.len(),
{
    if wheel.len() == 0 {
        0
    } else {
        wheel_total(wheel.drop_last(), config) + scaled(
            lines_of(wheel.last(), config.scroll_wheel_pixels_per_line as int),
            config.zoom_sensitivity as int,
        )
    }
}

/// The event that a tick's raw input stands for.
pub open spec fn mapped(
    config: OrbitCameraConfig,
    buttons: PointerButtons,
    cursor: Option<ScreenPos>,
    motions: Seq<(i64, i64)>,
    wheel: Seq<WheelEvent>,
) -> OrbitCameraInputEvent {
    let dx = saturated(travel(motions).0);
    let dy = saturated(travel(motions).1);
    let zoom_delta = saturated(-wheel_total(wheel, config));
    OrbitCameraInputEvent {
        pan_start: if buttons.left_just_pressed {
            cursor
        } else {
            None
        },
        pan_delta: if buttons.left_pressed {
            Some((dx as i64, dy as i64))
        } else {
            None
        },
        orbit_delta: if buttons.right_pressed {
            Some(
                (
                    scaled(dx, -config.orbit_sensitivity.0) as i64,
                    scaled(dy, -config.orbit_sensitivity.1) as i64,
                ),
            )
        } else {
            None
        },
        zoom_delta: zoom_delta as i64,
        zoom_start_cursor_position: if zoom_delta != 0 {
            cursor
        } else {
            None
        },
    }
}

/// Maps the raw input of one tick to the event that the controller takes. The pointer's travel is
/// summed over the tick. A drag starts where the pointer is when the drag button goes down, and
/// the travel pans while that button is held. While the orbit button is held the travel orbits,
/// against the pointer, by the orbit sensitivity. Each turn of the wheel, counted in lines, zooms
/// against the wheel by the zoom sensitivity, and a tick in which the wheel zooms anchors the zoom
/// where the pointer is.
pub fn step(
    config: &OrbitCameraConfig,
    buttons: PointerButtons,
    cursor: Option<ScreenPos>,
    motions: &Vec<(i64, i64)>,
    wheel: &Vec<WheelEvent>,
) -> (event: OrbitCameraInputEvent)
    requires
        config.valid(),
    ensures
        event == mapped(*config, buttons, cursor, motions@, wheel@),
{
    let (dx, dy) = cursor_travel(motions);
    let zoom_delta: i64 = wheel_zoom(config, wheel);
    let pan_start: Option<ScreenPos> = if buttons.left_just_pressed {
        cursor
    } else {
        None
    };
    let pan_delta: Option<(i64, i64)> = if buttons.left_pressed {
        Some((dx, dy))
    } else {
        None
    };
    let orbit_delta: Option<(i64, i64)> = if buttons.right_pressed {
        Some(
            (
                scaled_against(dx, config.orbit_sensitivity.0),
                scaled_against(dy, config.orbit_sensitivity.1),
            ),
        )
    } else {
        None
    };
    let zoom_start_cursor_position: Option<ScreenPos> = if zoom_delta != 0 {
        cursor
    } else {
        None
    };
    OrbitCameraInputEvent {
        pan_start,
        pan_delta,
        orbit_delta,
        zoom_delta,
        zoom_start_cursor_position,
    }
}

/// The pointer's travel over a tick.
fn cursor_travel(motions: &Vec<(i64, i64)>) -> (sum: (i64, i64))
    ensures
        sum.0 as int == saturated(travel(motions@).0),
        sum.1 as int == saturated(travel(motions@).1),
{
    let mut x: i128 = 0;
    let mut y: i128 = 0;
    let mut i: usize = 0;
    while i < motions.len()
        invariant
            i <= motions.len(),
            x as int == travel(motions@.take(i as int)).0,
            y as int == travel(motions@.take(i as int)).1,
            -(i as int) * 0x8000_0000_0000_0000 <= x as int <= (i as int) * 0x8000_0000_0000_0000,
            -(i as int) * 0x8000_0000_0000_0000 <= y as int <= (i as int) * 0x8000_0000_0000_0000,
        decreases motions.len() - i,
    {
        let m: (i64, i64) = motions[i];
        proof {
            assert(motions@.take(i as int + 1).drop_last() =~= motions@.take(i as int));
        }
        x = x + m.0 as i128;
        y = y + m.1 as i128;
        i = i + 1;
    }
    proof {
        assert(motions@.take(i as int) =~= motions@);
    }
    (saturate(x), saturate(y))
}

/// The change of zoom level that the wheel asks for in a tick.
fn wheel_zoom(config: &OrbitCameraConfig, wheel: &Vec<WheelEvent>) -> (zoom_delta: i64)
    requires
        config.valid(),
    ensures
        zoom_delta as int == saturated(-wheel_total(wheel@, *config)),
{
    let mut total: i128 = 0;
    let mut i: usize = 0;
    while i < wheel.len()
        invariant
            i <= wheel.len(),
            config.valid(),
            total as int == wheel_total(wheel@.take(i as int), *config),
            -(i as int) * 0x8000_0000_0000_0000 <= total as int <= (i as int)
                * 0x8000_0000_0000_0000,
        decreases wheel.len() - i,
    {
        let turn: WheelEvent = wheel[i];
        let lines: i64 = match turn.unit {
            ScrollUnit::Line => turn.y,
            ScrollUnit::Pixel => divided_by(turn.y, config.scroll_wheel_pixels_per_line),
        };
        proof {
            assert(wheel@.take(i as int + 1).drop_last() =~= wheel@.take(i as int));
        }
        total = total + scaled_by(lines, config.zoom_sensitivity) as i128;
        i = i + 1;
    }
    proof {
        assert(wheel@.take(i as int) =~= wheel@);
    }
    saturate(-total)
}

} // verus!
