//! The state that a rig carries from tick to tick.
use vstd::prelude::*;
use crate::config::OrbitCameraConfig;

verus! {

/// A full turn, in millionths of a degree.
pub const FULL_TURN: i64 = 360_000_000;

/// The smallest radius that a rig is given.
pub const MIN_RADIUS: i64 = 1;

/// A place on the screen, in millionths of a pixel.
#[derive(Clone, Copy, Debug, PartialEq, Eq)]
pub struct ScreenPos {
    pub x: i64,
    pub y: i64,
}

/// A place in the world, in millionths of a world unit.
#[derive(Clone, Copy, Debug, PartialEq, Eq)]
pub struct WorldPoint {
    pub x: i64,
    pub y: i64,
    pub z: i64,
}

/// Look angles in millionths of a degree. The camera never rolls.
#[derive(Clone, Copy, Debug, PartialEq, Eq)]
pub struct EulerAngles {
    pub pitch: i64,
    pub yaw: i64,
    pub roll: i64,
}

/// A drag in progress: where it began on the screen, how far the pointer has gone since, and the
/// point of the sphere that was grabbed, with its distance from the centre.
#[derive(Clone, Copy, Debug, PartialEq, Eq)]
pub struct PanState {
    pub start_cursor: ScreenPos,
    pub offset: (i64, i64),
    pub start_world_space: WorldPoint,
    pub start_radius: i64,
}

/// A zoom in progress that is anchored under the pointer: where the pointer was, the point of the
/// sphere under it, and the orbit radius at that moment.
#[derive(Clone, Copy, Debug, PartialEq, Eq)]
pub struct ZoomState {
    pub start_cursor: ScreenPos,
    pub start_world_space: WorldPoint,
    pub start_radius: i64,
}

/// The state of one rig.
#[derive(Clone, Copy, Debug, PartialEq, Eq)]
pub struct OrbitCameraState {
    /// Orbit distance.
    pub radius: i64,
    /// Zoom level that the camera is shown at.
    pub current_zoom_level: i64,
    /// Zoom level that the camera is heading for.
    pub zoom_level_target: i64,
    /// Look angles that the camera is shown at.
    pub current_euler_angles: EulerAngles,
    /// Rotation that was asked for and is not carried out yet.
    pub euler_angles_target_delta: EulerAngles,
    /// The drag in progress, if any.
    pub pan: Option<PanState>,
    /// The anchored zoom in progress, if any.
    pub zoom: Option<ZoomState>,
}

impl OrbitCameraState {
    /// The radius is positive, the pitch is within the limits of `config`, the yaw is within one
    /// turn from zero, and nothing rolls.
    pub open spec fn wf(&self, config: &OrbitCameraConfig) -> bool {
        &&& self.radius >= MIN_RADIUS
        &&& config.min_theta <= self.current_euler_angles.pitch <= config.max_theta
        &&& 0 <= self.current_euler_angles.yaw < FULL_TURN
        &&& self.current_euler_angles.roll == 0
        &&& self.euler_angles_target_delta.roll == 0
    }

    /// Nothing is in motion: the zoom level is on its target, no rotation is pending and no
    /// gesture is open.
    pub open spec fn at_rest(&self) -> bool {
        &&& self.current_zoom_level == self.zoom_level_target
        &&& self.euler_angles_target_delta.pitch == 0
        &&& self.euler_angles_target_delta.yaw == 0
        &&& self.pan is None
        &&& self.zoom is None
    }

    /// The state that `default` returns.
    pub open spec fn initial() -> OrbitCameraState {
        OrbitCameraState {
            radius: 20_000_000,
            current_zoom_level: 0,
            zoom_level_target: 0,
            current_euler_angles: EulerAngles { pitch: 45_000_000, yaw: 0, roll: 0 },
            euler_angles_target_delta: EulerAngles { pitch: 0, yaw: 0, roll: 0 },
            pan: None,
            zoom: None,
        }
    }

    /// Stores the orbit distance that belongs to the current zoom level. A radius below the
    /// smallest one is raised to it.
    pub fn set_radius(&mut self, radius: i64)
        ensures
            final(self).radius == (if radius < MIN_RADIUS { MIN_RADIUS } else { radius }),
            *final(self) == (OrbitCameraState { radius: final(self).radius, ..*old(self) }),
    {
        if radius < MIN_RADIUS {
            self.radius = MIN_RADIUS;
        } else {
            self.radius = radius;
        }
    }
}

impl Default for OrbitCameraState {
    fn default() -> (state: Self)
        ensures
            state == OrbitCameraState::initial(),
            state.wf(&OrbitCameraConfig::standard()),
            state.at_rest(),
    {
        OrbitCameraState {
            radius: 20_000_000,
            current_zoom_level: 0,
            zoom_level_target: 0,
            current_euler_angles: EulerAngles { pitch: 45_000_000, yaw: 0, roll: 0 },
            euler_angles_target_delta: EulerAngles { pitch: 0, yaw: 0, roll: 0 },
            pan: None,
            zoom: None,
        }
    }
}

} // verus!
