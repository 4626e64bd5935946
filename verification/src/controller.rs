//! The controller: what one tick does to the state of a rig.
//!
//! The controller works on numbers alone. What takes a camera to find out (where the ray through
//! a place on the screen meets the sphere, which zoom level belongs to a distance) reaches it in
//! a [`Surroundings`], and what takes rotations to carry out leaves it in a [`TickPlan`].
use vstd::prelude::*;
use crate::config::OrbitCameraConfig;
use crate::events::OrbitCameraInputEvent;
use crate::fixed::{saturate, saturated};
use crate::smoothing::{
    approach,
    approached,
    blend_fraction,
    gap,
    lemma_approach_never_overshoots,
    smoothing,
};
use crate::state::{
    EulerAngles,
    OrbitCameraState,
    PanState,
    ScreenPos,
    WorldPoint,
    ZoomState,
    FULL_TURN,
    MIN_RADIUS,
};

verus! {

/// Half a turn, in millionths of a degree.
pub const HALF_TURN: i64 = 180_000_000;

/// A quarter of a turn, in millionths of a degree: straight up.
pub const QUARTER_TURN: i64 = 90_000_000;

/// An anchored zoom ends once the zoom level is nearer than this to its target.
pub const ZOOM_SETTLED: i64 = 10_000;

/// The longest time that one tick is taken to last, in microseconds.
pub const MAX_FRAME_DT: u64 = 20_000;

/// The zoom levels of the largest and of the smallest orbit distance.
#[derive(Clone, Copy, Debug, PartialEq, Eq)]
pub struct ZoomLimits {
    pub min_level: i64,
    pub max_level: i64,
}

impl ZoomLimits {
    /// The limits span a range.
    pub open spec fn valid(&self) -> bool {
        self.min_level <= self.max_level
    }

    /// Tells whether the limits span a range.
    pub fn is_valid(&self) -> (ok: bool)
        ensures
            ok == self.valid(),
    {
        self.min_level <= self.max_level
    }
}

/// Where a ray from the camera meets the sphere, and how far from the centre.
#[derive(Clone, Copy, Debug, PartialEq, Eq)]
pub struct SphereHit {
    pub point: WorldPoint,
    pub radius: i64,
}

/// What the scene says before a tick.
#[derive(Clone, Copy, Debug, PartialEq, Eq)]
pub struct Surroundings {
    /// The zoom levels that the distance limits of the settings stand for.
    pub zoom_limits: ZoomLimits,
    /// The zoom level that the radius of the rig stands for.
    pub radius_level: i64,
    /// Where the ray through the place at which a drag begins meets the sphere, if it does.
    pub pan_start_hit: Option<SphereHit>,
    /// The point of the sphere under the place at which the wheel began to turn, if there is one.
    pub zoom_start_hit: Option<WorldPoint>,
}

/// A correction that is due: turn the rig so that `anchor` lies again under `cursor`.
#[derive(Clone, Copy, Debug, PartialEq, Eq)]
pub struct AnchorQuery {
    /// The point of the sphere that the gesture holds on to.
    pub anchor: WorldPoint,
    /// The place on the screen under which the anchor belongs.
    pub cursor: ScreenPos,
    /// The radius that the gesture took down when it began: for a drag the distance of the
    /// anchor from the centre, for an anchored zoom the orbit radius.
    pub radius: i64,
}

/// What is left to do with rotations after a tick.
#[derive(Clone, Copy, Debug, PartialEq, Eq)]
pub struct TickPlan {
    /// The correction of the open drag, to be blended in by `rig_smoothing`.
    pub pan: Option<AnchorQuery>,
    /// The correction of the open anchored zoom, to be applied in full.
    pub zoom: Option<AnchorQuery>,
    /// The fraction of the pan correction that this tick carries out.
    pub rig_smoothing: u64,
}

/// `x`, held between `lo` and `hi`.
pub open spec fn clamped(x: int, lo: int, hi: int) -> int {
    if x < lo {
        lo
    } else if x > hi {
        hi
    } else {
        x
    }
}

/// A state whose zoom levels are both zero has not been zoomed yet: its levels are those of its
/// radius.
pub open spec fn zoom_initialized(state: OrbitCameraState, radius_level: i64) -> OrbitCameraState {
    if state.current_zoom_level == 0 && state.zoom_level_target == 0 {
        OrbitCameraState {
            current_zoom_level: radius_level,
            zoom_level_target: radius_level,
            ..state
        }
    } else {
        state
    }
}

/// The anchored zoom that is open once the input is taken in: a tick that zooms from a place on
/// the screen anchors the zoom there, or nowhere if no point of the sphere lies under it.
pub open spec fn zoom_anchored(
    state: OrbitCameraState,
    input: OrbitCameraInputEvent,
    around: Surroundings,
) -> Option<ZoomState> {
    if input.zoom_delta != 0 && input.zoom_start_cursor_position is Some {
        match around.zoom_start_hit {
            Some(point) => Some(
                ZoomState {
                    start_cursor: input.zoom_start_cursor_position->0,
                    start_world_space: point,
                    start_radius: state.radius,
                },
            ),
            None => None,
        }
    } else {
        state.zoom
    }
}

/// The state after the zoom part of a tick of `dt` microseconds.
pub open spec fn zoom_updated(
    config: OrbitCameraConfig,
    state: OrbitCameraState,
    input: OrbitCameraInputEvent,
    around: Surroundings,
    dt: int,
) -> OrbitCameraState {
    let begun = zoom_initialized(state, around.radius_level);
    let target = clamped(
        begun.zoom_level_target - input.zoom_delta,
        around.zoom_limits.min_level as int,
        around.zoom_limits.max_level as int,
    );
    let current = approached(
        begun.current_zoom_level as int,
        target,
        blend_fraction(config.zoom_smoothing as int, dt),
    );
    OrbitCameraState {
        current_zoom_level: current as i64,
        zoom_level_target: target as i64,
        zoom: if gap(current, target) < ZOOM_SETTLED {
            None
        } else {
            zoom_anchored(state, input, around)
        },
        ..state
    }
}

/// A pitch beyond half a turn, taken round by a full turn.
pub open spec fn pitch_wrapped(pitch: int) -> int {
    if pitch > HALF_TURN {
        pitch - FULL_TURN
    } else if pitch < -HALF_TURN {
        pitch + FULL_TURN
    } else {
        pitch
    }
}

/// The rotation that is pending once `orbit_delta` is taken in.
pub open spec fn orbit_pending(state: OrbitCameraState, orbit_delta: Option<(i64, i64)>) -> (
    int,
    int,
) {
    match orbit_delta {
        Some(delta) => (
            saturated(state.euler_angles_target_delta.pitch + delta.1),
            saturated(state.euler_angles_target_delta.yaw + delta.0),
        ),
        None => (
            state.euler_angles_target_delta.pitch as int,
            state.euler_angles_target_delta.yaw as int,
        ),
    }
}

/// The state after the orbit part of a tick of `dt` microseconds.
pub open spec fn orbit_updated(
    config: OrbitCameraConfig,
    state: OrbitCameraState,
    orbit_delta: Option<(i64, i64)>,
    dt: int,
) -> OrbitCameraState {
    let (pending_pitch, pending_yaw) = orbit_pending(state, orbit_delta);
    let fraction = blend_fraction(config.orbit_smoothing as int, dt);
    let step_pitch = approached(0, pending_pitch, fraction);
    let step_yaw = approached(0, pending_yaw, fraction);
    let pitch = state.current_euler_angles.pitch + step_pitch;
    let past_vertical = -HALF_TURN <= pitch <= HALF_TURN && pitch > QUARTER_TURN;
    OrbitCameraState {
        current_euler_angles: EulerAngles {
            pitch: clamped(
                pitch_wrapped(pitch),
                config.min_theta as int,
                config.max_theta as int,
            ) as i64,
            yaw: ((state.current_euler_angles.yaw + step_yaw) % (FULL_TURN as int)) as i64,
            roll: 0,
        },
        euler_angles_target_delta: EulerAngles {
            pitch: if past_vertical {
                0
            } else {
                (pending_pitch - step_pitch) as i64
            },
            yaw: (pending_yaw - step_yaw) as i64,
            roll: 0,
        },
        ..state
    }
}

/// The drag that is open once the input is taken in. A drag that begins on the sphere opens anew,
/// with no travel yet; one that begins off the sphere leaves no drag open. Travel without a
/// beginning adds to the drag that is open. A tick with neither ends the drag.
pub open spec fn pan_updated(
    state: OrbitCameraState,
    input: OrbitCameraInputEvent,
    around: Surroundings,
) -> OrbitCameraState {
    OrbitCameraState {
        pan: match input.pan_start {
            Some(cursor) => match around.pan_start_hit {
                Some(hit) => Some(
                    PanState {
                        start_cursor: cursor,
                        offset: (0, 0),
                        start_world_space: hit.point,
                        start_radius: hit.radius,
                    },
                ),
                None => None,
            },
            None => match (input.pan_delta, state.pan) {
                (Some(delta), Some(drag)) => Some(
                    PanState {
                        offset: (
                            saturated(drag.offset.0 + delta.0) as i64,
                            saturated(drag.offset.1 + delta.1) as i64,
                        ),
                        ..drag
                    },
                ),
                _ => None,
            },
        },
        ..state
    }
}

/// The correction that an open drag calls for: the grabbed point belongs under the place where
/// the drag began, moved by the travel since.
pub open spec fn pan_query(state: OrbitCameraState) -> Option<AnchorQuery> {
    match state.pan {
        Some(drag) => Some(
            AnchorQuery {
                anchor: drag.start_world_space,
                cursor: ScreenPos {
                    x: saturated(drag.start_cursor.x + drag.offset.0) as i64,
                    y: saturated(drag.start_cursor.y + drag.offset.1) as i64,
                },
                radius: drag.start_radius,
            },
        ),
        None => None,
    }
}

/// The correction that an open anchored zoom calls for: the point that was under the pointer
/// belongs under the same place again.
pub open spec fn zoom_query(state: OrbitCameraState) -> Option<AnchorQuery> {
    match state.zoom {
        Some(anchored) => Some(
            AnchorQuery {
                anchor: anchored.start_world_space,
                cursor: anchored.start_cursor,
                radius: anchored.start_radius,
            },
        ),
        None => None,
    }
}

/// The time that a tick of `dt` microseconds is taken to last.
pub open spec fn frame_dt(dt: int) -> int {
    if dt > MAX_FRAME_DT {
        MAX_FRAME_DT as int
    } else {
        dt
    }
}

/// The state after a tick that takes `input` in: the pan part first, then zoom, then orbit.
pub open spec fn ticked(
    config: OrbitCameraConfig,
    state: OrbitCameraState,
    input: OrbitCameraInputEvent,
    around: Surroundings,
    dt: int,
) -> OrbitCameraState {
    orbit_updated(
        config,
        zoom_updated(config, pan_updated(state, input, around), input, around, frame_dt(dt)),
        input.orbit_delta,
        frame_dt(dt),
    )
}

/// What is left to do with rotations once a tick has brought a rig to `state`.
pub open spec fn planned(config: OrbitCameraConfig, state: OrbitCameraState, dt: int) -> TickPlan {
    TickPlan {
        pan: pan_query(state),
        zoom: zoom_query(state),
        rig_smoothing: blend_fraction(config.pan_smoothing as int, frame_dt(dt)) as u64,
    }
}

/// Gives a state that has not been zoomed yet the zoom level of its radius.
pub fn initialize_zoom_state(state: &mut OrbitCameraState, radius_level: i64)
    ensures
        *final(state) == zoom_initialized(*old(state), radius_level),
{
    if state.current_zoom_level == 0 && state.zoom_level_target == 0 {
        state.current_zoom_level = radius_level;
        state.zoom_level_target = radius_level;
    }
}

/// The zoom part of a tick. A state that has not been zoomed yet starts from the zoom level of
/// its radius. The target moves against `zoom_delta` and stays within the limits; the current
/// level closes on it by the blend fraction of the zoom smoothing rate. A tick that zooms from a
/// place on the screen opens an anchored zoom on the point of the sphere under it, or clears the
/// anchored zoom where there is none; the anchored zoom ends when the level has settled.
pub fn update_zoom(
    config: &OrbitCameraConfig,
    state: &mut OrbitCameraState,
    input: &OrbitCameraInputEvent,
    around: &Surroundings,
    dt: u64,
)
    requires
        around.zoom_limits.valid(),
    ensures
        *final(state) == zoom_updated(*config, *old(state), *input, *around, dt as int),
        around.zoom_limits.min_level <= final(state).zoom_level_target
            <= around.zoom_limits.max_level,
{
    let radius: i64 = state.radius;
    initialize_zoom_state(state, around.radius_level);
    if input.zoom_delta != 0 {
        match input.zoom_start_cursor_position {
            Some(cursor) => {
                state.zoom = match around.zoom_start_hit {
                    Some(point) => Some(
                        ZoomState {
                            start_cursor: cursor,
                            start_world_space: point,
                            start_radius: radius,
                        },
                    ),
                    None => None,
                };
            },
            None => {},
        }
    }
    let wanted: i128 = state.zoom_level_target as i128 - input.zoom_delta as i128;
    let target: i64 = clamp_to(wanted, around.zoom_limits.min_level, around.zoom_limits.max_level);
    let fraction: u64 = smoothing(config.zoom_smoothing, dt);
    let current: i64 = approach(state.current_zoom_level, target, fraction);
    state.zoom_level_target = target;
    state.current_zoom_level = current;
    let apart: i128 = if current >= target {
        current as i128 - target as i128
    } else {
        target as i128 - current as i128
    };
    if apart < ZOOM_SETTLED as i128 {
        state.zoom = None;
    }
}

/// The orbit part of a tick. The rotation asked for is added to the pending rotation: the second
/// part of `orbit_delta` to the pitch, the first to the yaw. The tick carries out the blend
/// fraction of what is pending. A pitch beyond half a turn goes round by a full turn; one that
/// has passed straight up without that drops what is left of the pending pitch. The pitch ends
/// within the limits of `config`, the yaw within one turn from zero, and nothing rolls.
pub fn update_orbit(
    config: &OrbitCameraConfig,
    state: &mut OrbitCameraState,
    orbit_delta: Option<(i64, i64)>,
    dt: u64,
)
    requires
        config.valid(),
    ensures
        *final(state) == orbit_updated(*config, *old(state), orbit_delta, dt as int),
        config.min_theta <= final(state).current_euler_angles.pitch <= config.max_theta,
        0 <= final(state).current_euler_angles.yaw < FULL_TURN,
        final(state).current_euler_angles.roll == 0,
{
    let mut pending_pitch: i64 = state.euler_angles_target_delta.pitch;
    let mut pending_yaw: i64 = state.euler_angles_target_delta.yaw;
    match orbit_delta {
        Some(delta) => {
            pending_pitch = saturate(pending_pitch as i128 + delta.1 as i128);
            pending_yaw = saturate(pending_yaw as i128 + delta.0 as i128);
        },
        None => {},
    }
    let fraction: u64 = smoothing(config.orbit_smoothing, dt);
    let step_pitch: i64 = approach(0, pending_pitch, fraction);
    let step_yaw: i64 = approach(0, pending_yaw, fraction);
    proof {
        lemma_approach_never_overshoots(0, pending_pitch as int, fraction as int);
        lemma_approach_never_overshoots(0, pending_yaw as int, fraction as int);
    }
    let mut left_pitch: i64 = pending_pitch - step_pitch;
    let left_yaw: i64 = pending_yaw - step_yaw;
    let mut pitch: i128 = state.current_euler_angles.pitch as i128 + step_pitch as i128;
    if pitch > HALF_TURN as i128 {
        pitch = pitch - FULL_TURN as i128;
    } else if pitch < -(HALF_TURN as i128) {
        pitch = pitch + FULL_TURN as i128;
    } else if pitch > QUARTER_TURN as i128 {
        left_pitch = 0;
    }
    let yaw: i128 = state.current_euler_angles.yaw as i128 + step_yaw as i128;
    state.current_euler_angles = EulerAngles {
        pitch: clamp_to(pitch, config.min_theta, config.max_theta),
        yaw: within_turn(yaw),
        roll: 0,
    };
    state.euler_angles_target_delta = EulerAngles { pitch: left_pitch, yaw: left_yaw, roll: 0 };
}

/// The pan part of a tick: opens, carries on or ends the drag, as [`pan_updated`] says, and
/// returns the correction that the open drag calls for.
pub fn update_pan_targets(
    state: &mut OrbitCameraState,
    input: &OrbitCameraInputEvent,
    around: &Surroundings,
) -> (query: Option<AnchorQuery>)
    ensures
        *final(state) == pan_updated(*old(state), *input, *around),
        query == pan_query(*final(state)),
{
    match input.pan_start {
        Some(cursor) => {
            state.pan = match around.pan_start_hit {
                Some(hit) => Some(
                    PanState {
                        start_cursor: cursor,
                        offset: (0, 0),
                        start_world_space: hit.point,
                        start_radius: hit.radius,
                    },
                ),
                None => None,
            };
        },
        None => {
            state.pan = match (input.pan_delta, state.pan) {
                (Some(delta), Some(drag)) => Some(
                    PanState {
                        start_cursor: drag.start_cursor,
                        offset: (
                            saturate(drag.offset.0 as i128 + delta.0 as i128),
                            saturate(drag.offset.1 as i128 + delta.1 as i128),
                        ),
                        start_world_space: drag.start_world_space,
                        start_radius: drag.start_radius,
                    },
                ),
                _ => None,
            };
        },
    }
    match state.pan {
        Some(drag) => Some(
            AnchorQuery {
                anchor: drag.start_world_space,
                cursor: ScreenPos {
                    x: saturate(drag.start_cursor.x as i128 + drag.offset.0 as i128),
                    y: saturate(drag.start_cursor.y as i128 + drag.offset.1 as i128),
                },
                radius: drag.start_radius,
            },
        ),
        None => None,
    }
}

/// The fraction of the pan correction that a tick of `dt` microseconds carries out: the blend
/// fraction of the pan smoothing rate.
pub fn smooth_pan(config: &OrbitCameraConfig, dt: u64) -> (fraction: u64)
    ensures
        fraction as int == blend_fraction(config.pan_smoothing as int, dt as int),
        fraction <= crate::fixed::WHOLE,
{
    smoothing(config.pan_smoothing, dt)
}

/// One tick of one rig. Only the first event of `inputs` is taken in, and a tick lasts
/// [`MAX_FRAME_DT`] at most. Without an event, or without the surroundings that a rig gets from
/// its camera, the rig sits the tick out. Else the state goes through the pan, the zoom and the
/// orbit part, and the plan says which corrections of the rig are due.
pub fn step(
    config: &OrbitCameraConfig,
    state: &mut OrbitCameraState,
    inputs: &Vec<OrbitCameraInputEvent>,
    around: Option<Surroundings>,
    dt: u64,
) -> (plan: Option<TickPlan>)
    requires
        config.valid(),
        around matches Some(scene) ==> scene.zoom_limits.valid(),
    ensures
        inputs.len() == 0 || around is None ==> plan is None && *final(state) == *old(state),
        inputs.len() > 0 && around is Some ==> *final(state) == ticked(
            *config,
            *old(state),
            inputs[0],
            around->0,
            dt as int,
        ) && plan == Some(planned(*config, *final(state), dt as int)),
        old(state).radius >= MIN_RADIUS && plan is Some ==> final(state).wf(config),
{
    if inputs.len() == 0 {
        return None;
    }
    match around {
        None => None,
        Some(scene) => {
            let input: OrbitCameraInputEvent = inputs[0];
            let frame: u64 = if dt > MAX_FRAME_DT {
                MAX_FRAME_DT
            } else {
                dt
            };
            let pan: Option<AnchorQuery> = update_pan_targets(state, &input, &scene);
            update_zoom(config, state, &input, &scene, frame);
            update_orbit(config, state, input.orbit_delta, frame);
            let zoom: Option<AnchorQuery> = match state.zoom {
                Some(anchored) => Some(
                    AnchorQuery {
                        anchor: anchored.start_world_space,
                        cursor: anchored.start_cursor,
                        radius: anchored.start_radius,
                    },
                ),
                None => None,
            };
            Some(TickPlan { pan, zoom, rig_smoothing: smooth_pan(config, frame) })
        },
    }
}

/// A tick in which the pointer asks for nothing leaves a rig at rest as it is, and calls for no
/// correction. The rig is at rest when nothing is in motion, it has been zoomed before (or its
/// radius stands for the zoom level zero), its zoom target lies within the limits and its pitch
/// within half a turn of level.
pub proof fn lemma_idle_tick_changes_nothing(
    config: OrbitCameraConfig,
    state: OrbitCameraState,
    input: OrbitCameraInputEvent,
    around: Surroundings,
    dt: int,
)
    requires
        config.valid(),
        around.zoom_limits.valid(),
        state.wf(&config),
        state.at_rest(),
        input.is_idle(),
        state.current_zoom_level != 0 || around.radius_level == 0,
        around.zoom_limits.min_level <= state.zoom_level_target <= around.zoom_limits.max_level,
        -HALF_TURN <= state.current_euler_angles.pitch <= HALF_TURN,
        dt >= 0,
    ensures
        ticked(config, state, input, around, dt) == state,
        planned(config, state, dt).pan is None,
        planned(config, state, dt).zoom is None,
{
    let after_pan = pan_updated(state, input, around);
    assert(after_pan == state);
    let fraction = blend_fraction(config.zoom_smoothing as int, frame_dt(dt));
    lemma_blend_fraction_range(config.zoom_smoothing as int, frame_dt(dt));
    lemma_approach_never_overshoots(
        state.current_zoom_level as int,
        state.zoom_level_target as int,
        fraction,
    );
    let after_zoom = zoom_updated(config, after_pan, input, around, frame_dt(dt));
    assert(after_zoom == state);
    let turn = blend_fraction(config.orbit_smoothing as int, frame_dt(dt));
    lemma_blend_fraction_range(config.orbit_smoothing as int, frame_dt(dt));
    lemma_approach_never_overshoots(0, 0, turn);
    assert(orbit_updated(config, after_zoom, input.orbit_delta, frame_dt(dt)) == state);
}

/// The drag has two states, open and not, and every tick leaves it in one of them. It opens only
/// where a drag begins on the sphere, and then on the point that was hit, with no travel yet. It
/// stays open only through travel. It ends when the button is let go, and when a drag begins off
/// the sphere. While it stays open, what was grabbed stays what it was: the correction is always
/// worked out from the grab itself.
pub proof fn lemma_pan_gesture_transitions(
    state: OrbitCameraState,
    input: OrbitCameraInputEvent,
    around: Surroundings,
)
    ensures
        input.pan_start is Some ==> (pan_updated(state, input, around).pan is Some
            <==> around.pan_start_hit is Some),
        input.pan_start is Some && around.pan_start_hit is Some ==> pan_query(
            pan_updated(state, input, around),
        ) == Some(
            AnchorQuery {
                anchor: around.pan_start_hit->0.point,
                cursor: input.pan_start->0,
                radius: around.pan_start_hit->0.radius,
            },
        ),
        input.pan_start is None && input.pan_delta is Some ==> (pan_updated(
            state,
            input,
            around,
        ).pan is Some <==> state.pan is Some),
        input.pan_start is None && input.pan_delta is None ==> pan_updated(
            state,
            input,
            around,
        ).pan is None,
        input.pan_start is None && pan_updated(state, input, around).pan is Some ==> {
            let before = state.pan->0;
            let after = pan_updated(state, input, around).pan->0;
            &&& after.start_cursor == before.start_cursor
            &&& after.start_world_space == before.start_world_space
            &&& after.start_radius == before.start_radius
        },
{
}

/// The anchored zoom has two states, open and not, and every tick leaves it in one of them. It is
/// open after a tick only while the zoom level has not settled on its target. It opens only on a
/// tick that zooms from a place on the screen with a point of the sphere under it, and then on
/// that point; a tick that zooms from a place with none under it leaves it closed. Else it stays
/// as it was until the level settles.
pub proof fn lemma_zoom_gesture_transitions(
    config: OrbitCameraConfig,
    state: OrbitCameraState,
    input: OrbitCameraInputEvent,
    around: Surroundings,
    dt: int,
)
    requires
        around.zoom_limits.valid(),
        dt >= 0,
    ensures
        ({
            let after = zoom_updated(config, state, input, around, dt);
            let begins = input.zoom_delta != 0 && input.zoom_start_cursor_position is Some;
            &&& after.zoom is Some ==> gap(
                after.current_zoom_level as int,
                after.zoom_level_target as int,
            ) >= ZOOM_SETTLED
            &&& begins && around.zoom_start_hit is None ==> after.zoom is None
            &&& begins && after.zoom is Some ==> zoom_query(after) == Some(
                AnchorQuery {
                    anchor: around.zoom_start_hit->0,
                    cursor: input.zoom_start_cursor_position->0,
                    radius: state.radius,
                },
            )
            &&& !begins && after.zoom is Some ==> after.zoom == state.zoom
        }),
{
    let begun = zoom_initialized(state, around.radius_level);
    let target = clamped(
        begun.zoom_level_target - input.zoom_delta,
        around.zoom_limits.min_level as int,
        around.zoom_limits.max_level as int,
    );
    let fraction = blend_fraction(config.zoom_smoothing as int, dt);
    lemma_blend_fraction_range(config.zoom_smoothing as int, dt);
    lemma_approach_never_overshoots(begun.current_zoom_level as int, target, fraction);
}

/// One tick of a rig, as the scene and the pointer shape it.
#[derive(Clone, Copy, Debug, PartialEq, Eq)]
pub struct Tick {
    /// What the pointer asks for.
    pub input: OrbitCameraInputEvent,
    /// What the scene says.
    pub around: Surroundings,
    /// How long the tick lasts, in microseconds.
    pub dt: u64,
}

/// The state after the ticks of `ticks`, one after the other.
pub open spec fn ticked_through(
    config: OrbitCameraConfig,
    state: OrbitCameraState,
    ticks: Seq<Tick>,
) -> OrbitCameraState
    decreases ticks.len(),
{
    if ticks.len() == 0 {
        state
    } else {
        let last = ticks.last();
        ticked(
            config,
            ticked_through(config, state, ticks.drop_last()),
            last.input,
            last.around,
            last.dt as int,
        )
    }
}

/// Whatever the pointer asks for and from whatever state, a tick leaves the pitch within the
/// limits of the settings and the yaw within one turn from zero, and nothing rolls.
pub proof fn lemma_tick_keeps_angles_in_range(
    config: OrbitCameraConfig,
    state: OrbitCameraState,
    input: OrbitCameraInputEvent,
    around: Surroundings,
    dt: int,
)
    requires
        config.valid(),
    ensures
        ({
            let after = ticked(config, state, input, around, dt);
            &&& config.min_theta <= after.current_euler_angles.pitch <= config.max_theta
            &&& 0 <= after.current_euler_angles.yaw < FULL_TURN
            &&& after.current_euler_angles.roll == 0
            &&& after.radius == state.radius
        }),
{
}

/// After any ticks at all, and at least one, the pitch lies within the limits of the settings
/// and the yaw within one turn from zero, and nothing rolls.
pub proof fn lemma_ticks_keep_angles_in_range(
    config: OrbitCameraConfig,
    state: OrbitCameraState,
    ticks: Seq<Tick>,
)
    requires
        config.valid(),
        ticks.len() > 0,
    ensures
        ({
            let after = ticked_through(config, state, ticks);
            &&& config.min_theta <= after.current_euler_angles.pitch <= config.max_theta
            &&& 0 <= after.current_euler_angles.yaw < FULL_TURN
            &&& after.current_euler_angles.roll == 0
        }),
{
    let last = ticks.last();
    lemma_tick_keeps_angles_in_range(
        config,
        ticked_through(config, state, ticks.drop_last()),
        last.input,
        last.around,
        last.dt as int,
    );
}

/// While the pointer leaves the zoom alone and the target lies within the limits, the zoom part
/// of a tick holds the target and moves the current level one step of smoothing toward it: what
/// [`lemma_smoothing_converges_monotonically`](crate::smoothing::lemma_smoothing_converges_monotonically)
/// says of such steps holds of the zoom level.
pub proof fn lemma_zoom_smooths_toward_held_target(
    config: OrbitCameraConfig,
    state: OrbitCameraState,
    input: OrbitCameraInputEvent,
    around: Surroundings,
    dt: int,
)
    requires
        around.zoom_limits.valid(),
        dt >= 0,
        input.zoom_delta == 0,
        state.current_zoom_level != 0 || state.zoom_level_target != 0,
        around.zoom_limits.min_level <= state.zoom_level_target <= around.zoom_limits.max_level,
    ensures
        ({
            let after = zoom_updated(config, state, input, around, dt);
            let fraction = blend_fraction(config.zoom_smoothing as int, dt);
            &&& 0 <= fraction <= crate::fixed::WHOLE
            &&& after.zoom_level_target == state.zoom_level_target
            &&& after.current_zoom_level == approached(
                state.current_zoom_level as int,
                state.zoom_level_target as int,
                fraction,
            )
        }),
{
    let fraction = blend_fraction(config.zoom_smoothing as int, dt);
    lemma_blend_fraction_range(config.zoom_smoothing as int, dt);
    lemma_approach_never_overshoots(
        state.current_zoom_level as int,
        state.zoom_level_target as int,
        fraction,
    );
}

/// A blend fraction lies between nothing and the whole.
pub proof fn lemma_blend_fraction_range(rate: int, dt: int)
    by (nonlinear_arith)
    requires
        rate >= 0,
        dt >= 0,
    ensures
        0 <= blend_fraction(rate, dt) <= crate::fixed::WHOLE,
{
}

/// Holds a wide value between two scalars.
fn clamp_to(x: i128, lo: i64, hi: i64) -> (r: i64)
    requires
        lo <= hi,
    ensures
        r as int == clamped(x as int, lo as int, hi as int),
        lo <= r <= hi,
{
    if x < lo as i128 {
        lo
    } else if x > hi as i128 {
        hi
    } else {
        x as i64
    }
}

/// Brings an angle into the turn that starts at zero.
fn within_turn(angle: i128) -> (r: i64)
    ensures
        r as int == (angle as int) % (FULL_TURN as int),
        0 <= r < FULL_TURN,
{
    match angle.checked_rem_euclid(FULL_TURN as i128) {
        Some(rest) => rest as i64,
        None => 0,
    }
}

} // verus!
