//! The settings of a rig, fixed for a session.
use vstd::prelude::*;

verus! {

/// The settings of the orbit controller. Sensitivities, distances and angles are scalars in
/// millionths; smoothing rates are millionths per second.
#[derive(Clone, Copy, Debug, PartialEq, Eq)]
pub struct OrbitCameraConfig {
    /// World units of pan for one unit of pointer travel.
    pub pan_sensitivity: i64,
    /// Zoom-level units for one line of the wheel.
    pub zoom_sensitivity: i64,
    /// Degrees of yaw and of pitch for one pixel of pointer travel, across and down.
    pub orbit_sensitivity: (i64, i64),
    /// Pixels that count as one line where the wheel reports pixels.
    pub scroll_wheel_pixels_per_line: i64,
    /// Rate at which the rig closes on its pan target.
    pub pan_smoothing: u64,
    /// Rate at which pending orbit rotation is carried out.
    pub orbit_smoothing: u64,
    /// Rate at which the zoom level closes on its target.
    pub zoom_smoothing: u64,
    /// Largest orbit distance.
    pub max_distance: i64,
    /// Smallest orbit distance.
    pub min_distance: i64,
    /// Lowest pitch, in degrees.
    pub min_theta: i64,
    /// Highest pitch, in degrees.
    pub max_theta: i64,
    /// Radius of the sphere that the rig rides on.
    pub earth_radius: i64,
}

impl OrbitCameraConfig {
    /// The distances and the pitch angles each span a range, and one line of the wheel is a
    /// positive number of pixels.
    pub open spec fn valid(&self) -> bool {
        &&& self.min_distance < self.max_distance
        &&& self.min_theta < self.max_theta
        &&& self.scroll_wheel_pixels_per_line > 0
    }

    /// Tells whether the settings are valid.
    pub fn is_valid(&self) -> (ok: bool)
        ensures
            ok == self.valid(),
    {
        self.min_distance < self.max_distance && self.min_theta < self.max_theta
            && self.scroll_wheel_pixels_per_line > 0
    }

    /// The settings that `default` returns.
    pub open spec fn standard() -> OrbitCameraConfig {
        OrbitCameraConfig {
            pan_sensitivity: 2_000_000,
            zoom_sensitivity: 50_000,
            orbit_sensitivity: (400_000, 300_000),
            scroll_wheel_pixels_per_line: 16_000_000,
            pan_smoothing: 4_000_000,
            orbit_smoothing: 20_000_000,
            zoom_smoothing: 5_000_000,
            max_distance: 200_000_000,
            min_distance: 5_000_000,
            min_theta: (-80_000_000) as i64,
            max_theta: 80_000_000,
            earth_radius: 1_000_000,
        }
    }
}

impl Default for OrbitCameraConfig {
    fn default() -> (config: Self)
        ensures
            config == OrbitCameraConfig::standard(),
            config.valid(),
    {
        OrbitCameraConfig {
            pan_sensitivity: 2_000_000,
            zoom_sensitivity: 50_000,
            orbit_sensitivity: (400_000, 300_000),
            scroll_wheel_pixels_per_line: 16_000_000,
            pan_smoothing: 4_000_000,
            orbit_smoothing: 20_000_000,
            zoom_smoothing: 5_000_000,
            max_distance: 200_000_000,
            min_distance: 5_000_000,
            min_theta: -80_000_000,
            max_theta: 80_000_000,
            earth_radius: 1_000_000,
        }
    }
}

} // verus!
