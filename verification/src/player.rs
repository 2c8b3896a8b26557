//! The player's camera: a desired state that the input writes, a current
//! state that chases it tick by tick, and the memory the chase keeps.

use vstd::prelude::*;
use crate::camera::{
    coordinates_after_input, gather_mouse_input, steer_cylinder_coordinates, summed_lift,
    summed_orbit, summed_zoom,
};
use crate::fixed::{saturate, Fixed};
use crate::math::{
    lerp_angle_scalar, smooth_damp_scalar, smooth_damp_vector, CylinderCoordinates3d,
    CylinderCoordinates3dSmoothDampTransitionVariables, FixedVec2, FixedVec3, LerpAngle,
    SmoothDamp, SmoothDampTransitionVariables,
};

verus! {

/// Smoothing time of every damped quantity of the camera, in millionths of
/// a second.
pub const CAMERA_SMOOTH_TIME: i64 = 100_000;

/// Roll, in millionths of a radian, that a held mouse button adds per frame.
pub const ROLL_STEP: i64 = 10_000;

/// Marks the player's camera.
#[derive(Clone, Copy, Debug, PartialEq, Eq, Structural)]
pub struct PlayerTagComponent;

/// What the camera shows: where it orbits, what it looks at and how it is
/// rolled.
#[derive(Clone, Copy, Debug, PartialEq, Eq, Structural)]
pub struct PlayerCameraState {
    /// Position relative to the character.
    pub local_cylinder_coordinates: CylinderCoordinates3d,
    /// Point looked at, relative to the character.
    pub focus: FixedVec3,
    /// Roll about the line of sight, in radians.
    pub roll: Fixed,
}

/// The state the camera is in.
#[derive(Clone, Copy, Debug, PartialEq, Eq, Structural)]
pub struct PlayerCameraCurrentStateComponent {
    pub camera_state: PlayerCameraState,
}

/// The state the camera is asked to reach.
#[derive(Clone, Copy, Debug, PartialEq, Eq, Structural)]
pub struct PlayerCameraDesiredStateComponent {
    pub camera_state: PlayerCameraState,
}

/// The memory of the camera's damped quantities.
#[derive(Clone, Copy, Debug, PartialEq, Eq, Structural)]
pub struct PlayerCameraTransitionStateVariablesComponent {
    pub transition_cylinder_coordinates: CylinderCoordinates3dSmoothDampTransitionVariables,
    pub focus: SmoothDampTransitionVariables<FixedVec3>,
    pub roll: SmoothDampTransitionVariables<Fixed>,
}

/// The roll asked for after a frame with the given buttons held: the left
/// button rolls one step back, the right one step on.
pub open spec fn roll_after_buttons(roll: int, left_pressed: bool, right_pressed: bool) -> int {
    let after_left = if left_pressed {
        saturate(roll - ROLL_STEP)
    } else {
        roll
    };
    if right_pressed {
        saturate(after_left + ROLL_STEP)
    } else {
        after_left
    }
}

/// Rolls the desired state by the mouse buttons held.
pub fn update_player_camera_state_roll_using_input_system(
    left_pressed: bool,
    right_pressed: bool,
    desired: &mut PlayerCameraDesiredStateComponent,
)
    ensures
        final(desired).camera_state.roll@ == roll_after_buttons(
            old(desired).camera_state.roll@,
            left_pressed,
            right_pressed,
        ),
        final(desired).camera_state.local_cylinder_coordinates
            == old(desired).camera_state.local_cylinder_coordinates,
        final(desired).camera_state.focus == old(desired).camera_state.focus,
{
    let step = Fixed::from_micros(ROLL_STEP);
    if left_pressed {
        desired.camera_state.roll = desired.camera_state.roll.minus(step);
    }
    if right_pressed {
        desired.camera_state.roll = desired.camera_state.roll.plus(step);
    }
}

/// Moves the desired state by the mouse events of one frame: the wheel
/// draws the camera in, horizontal motion turns it, vertical motion lowers
/// the point looked at and, by half as much, the camera.
pub fn update_player_camera_desired_state_coordinates_using_input_system(
    mouse_motion: &Vec<FixedVec2>,
    mouse_wheel: &Vec<Fixed>,
    desired: &mut PlayerCameraDesiredStateComponent,
)
    ensures
        coordinates_after_input(
            old(desired).camera_state.local_cylinder_coordinates,
            final(desired).camera_state.local_cylinder_coordinates,
            summed_orbit(mouse_motion@, mouse_motion@.len() as int),
            summed_lift(mouse_motion@, mouse_motion@.len() as int),
            summed_zoom(mouse_wheel@, mouse_wheel@.len() as int),
        ),
        final(desired).camera_state.focus.y@ == saturate(
            old(desired).camera_state.focus.y@ - summed_lift(
                mouse_motion@,
                mouse_motion@.len() as int,
            ),
        ),
        final(desired).camera_state.focus.x == old(desired).camera_state.focus.x,
        final(desired).camera_state.focus.z == old(desired).camera_state.focus.z,
        final(desired).camera_state.roll == old(desired).camera_state.roll,
{
    let input = gather_mouse_input(mouse_motion, mouse_wheel);
    let state = desired.camera_state;
    desired.camera_state = PlayerCameraState {
        local_cylinder_coordinates: steer_cylinder_coordinates(
            state.local_cylinder_coordinates,
            input,
        ),
        focus: FixedVec3 { x: state.focus.x, y: state.focus.y.minus(input.lift), z: state.focus.z },
        roll: state.roll,
    };
}

/// A middle click asks for no roll at once; the current roll and its
/// velocity are left to the damper.
pub fn reset_player_roll_on_mouse_input_system(
    middle_just_pressed: bool,
    desired: &mut PlayerCameraDesiredStateComponent,
)
    ensures
        final(desired).camera_state.roll@ == if middle_just_pressed {
            0
        } else {
            old(desired).camera_state.roll@
        },
        final(desired).camera_state.local_cylinder_coordinates
            == old(desired).camera_state.local_cylinder_coordinates,
        final(desired).camera_state.focus == old(desired).camera_state.focus,
{
    if middle_just_pressed {
        desired.camera_state.roll = Fixed::zero();
    }
}

/// Turns the current orbit angle toward the desired one by the shorter way
/// round, by the fraction of the way that the elapsed seconds give.
pub fn transition_player_camera_current_state_rotation_system(
    delta_time: Fixed,
    desired: &PlayerCameraDesiredStateComponent,
    current: &mut PlayerCameraCurrentStateComponent,
)
    ensures
        final(current).camera_state.local_cylinder_coordinates.rotation@ == lerp_angle_scalar(
            old(current).camera_state.local_cylinder_coordinates.rotation@,
            desired.camera_state.local_cylinder_coordinates.rotation@,
            delta_time@,
        ),
        final(current).camera_state == (PlayerCameraState {
            local_cylinder_coordinates: CylinderCoordinates3d {
                rotation: final(current).camera_state.local_cylinder_coordinates.rotation,
                ..old(current).camera_state.local_cylinder_coordinates
            },
            ..old(current).camera_state
        }),
{
    let rotation = current.camera_state.local_cylinder_coordinates.rotation.lerp_angle(
        desired.camera_state.local_cylinder_coordinates.rotation,
        delta_time,
    );
    current.camera_state.local_cylinder_coordinates.rotation = rotation;
}

/// Damps the current orbit height toward the desired one.
pub fn transition_player_camera_state_height_system(
    delta_time: Fixed,
    desired: &PlayerCameraDesiredStateComponent,
    variables: &mut PlayerCameraTransitionStateVariablesComponent,
    current: &mut PlayerCameraCurrentStateComponent,
)
    requires
        delta_time@ >= 0,
    ensures
        (
            final(current).camera_state.local_cylinder_coordinates.height@,
            final(variables).transition_cylinder_coordinates.height.velocity@,
        ) == smooth_damp_scalar(
            old(current).camera_state.local_cylinder_coordinates.height@,
            desired.camera_state.local_cylinder_coordinates.height@,
            old(variables).transition_cylinder_coordinates.height.velocity@,
            CAMERA_SMOOTH_TIME as int,
            None,
            delta_time@,
        ),
        final(current).camera_state == (PlayerCameraState {
            local_cylinder_coordinates: CylinderCoordinates3d {
                height: final(current).camera_state.local_cylinder_coordinates.height,
                ..old(current).camera_state.local_cylinder_coordinates
            },
            ..old(current).camera_state
        }),
        *final(variables) == (PlayerCameraTransitionStateVariablesComponent {
            transition_cylinder_coordinates: CylinderCoordinates3dSmoothDampTransitionVariables {
                height: final(variables).transition_cylinder_coordinates.height,
                ..old(variables).transition_cylinder_coordinates
            },
            ..*old(variables)
        }),
{
    let damped = current.camera_state.local_cylinder_coordinates.height.smooth_damp(
        desired.camera_state.local_cylinder_coordinates.height,
        variables.transition_cylinder_coordinates.height.velocity,
        Fixed::from_micros(CAMERA_SMOOTH_TIME),
        None,
        delta_time,
    );
    current.camera_state.local_cylinder_coordinates.height = damped.0;
    variables.transition_cylinder_coordinates.height.velocity = damped.1;
}

/// Damps the current orbit distance toward the desired one.
pub fn transition_player_camera_state_distance_system(
    delta_time: Fixed,
    desired: &PlayerCameraDesiredStateComponent,
    variables: &mut PlayerCameraTransitionStateVariablesComponent,
    current: &mut PlayerCameraCurrentStateComponent,
)
    requires
        delta_time@ >= 0,
    ensures
        (
            final(current).camera_state.local_cylinder_coordinates.distance@,
            final(variables).transition_cylinder_coordinates.distance.velocity@,
        ) == smooth_damp_scalar(
            old(current).camera_state.local_cylinder_coordinates.distance@,
            desired.camera_state.local_cylinder_coordinates.distance@,
            old(variables).transition_cylinder_coordinates.distance.velocity@,
            CAMERA_SMOOTH_TIME as int,
            None,
            delta_time@,
        ),
        final(current).camera_state == (PlayerCameraState {
            local_cylinder_coordinates: CylinderCoordinates3d {
                distance: final(current).camera_state.local_cylinder_coordinates.distance,
                ..old(current).camera_state.local_cylinder_coordinates
            },
            ..old(current).camera_state
        }),
        *final(variables) == (PlayerCameraTransitionStateVariablesComponent {
            transition_cylinder_coordinates: CylinderCoordinates3dSmoothDampTransitionVariables {
                distance: final(variables).transition_cylinder_coordinates.distance,
                ..old(variables).transition_cylinder_coordinates
            },
            ..*old(variables)
        }),
{
    let damped = current.camera_state.local_cylinder_coordinates.distance.smooth_damp(
        desired.camera_state.local_cylinder_coordinates.distance,
        variables.transition_cylinder_coordinates.distance.velocity,
        Fixed::from_micros(CAMERA_SMOOTH_TIME),
        None,
        delta_time,
    );
    current.camera_state.local_cylinder_coordinates.distance = damped.0;
    variables.transition_cylinder_coordinates.distance.velocity = damped.1;
}

/// Damps the current roll toward the desired one.
pub fn transition_player_camera_state_roll_system(
    delta_time: Fixed,
    desired: &PlayerCameraDesiredStateComponent,
    variables: &mut PlayerCameraTransitionStateVariablesComponent,
    current: &mut PlayerCameraCurrentStateComponent,
)
    requires
        delta_time@ >= 0,
    ensures
        (final(current).camera_state.roll@, final(variables).roll.velocity@) == smooth_damp_scalar(
            old(current).camera_state.roll@,
            desired.camera_state.roll@,
            old(variables).roll.velocity@,
            CAMERA_SMOOTH_TIME as int,
            None,
            delta_time@,
        ),
        final(current).camera_state == (PlayerCameraState {
            roll: final(current).camera_state.roll,
            ..old(current).camera_state
        }),
        *final(variables) == (PlayerCameraTransitionStateVariablesComponent {
            roll: final(variables).roll,
            ..*old(variables)
        }),
{
    let damped = current.camera_state.roll.smooth_damp(
        desired.camera_state.roll,
        variables.roll.velocity,
        Fixed::from_micros(CAMERA_SMOOTH_TIME),
        None,
        delta_time,
    );
    current.camera_state.roll = damped.0;
    variables.roll.velocity = damped.1;
}

/// Damps the point currently looked at toward the desired one.
pub fn transition_player_camera_state_focus_system(
    delta_time: Fixed,
    desired: &PlayerCameraDesiredStateComponent,
    variables: &mut PlayerCameraTransitionStateVariablesComponent,
    current: &mut PlayerCameraCurrentStateComponent,
)
    requires
        delta_time@ >= 0,
    ensures
        (final(current).camera_state.focus@, final(variables).focus.velocity@)
            == smooth_damp_vector(
            old(current).camera_state.focus@,
            desired.camera_state.focus@,
            old(variables).focus.velocity@,
            CAMERA_SMOOTH_TIME as int,
            None,
            delta_time@,
        ),
        final(current).camera_state == (PlayerCameraState {
            focus: final(current).camera_state.focus,
            ..old(current).camera_state
        }),
        *final(variables) == (PlayerCameraTransitionStateVariablesComponent {
            focus: final(variables).focus,
            ..*old(variables)
        }),
{
    let damped = current.camera_state.focus.smooth_damp(
        desired.camera_state.focus,
        variables.focus.velocity,
        Fixed::from_micros(CAMERA_SMOOTH_TIME),
        None,
        delta_time,
    );
    current.camera_state.focus = damped.0;
    variables.focus.velocity = damped.1;
}

} // verus!
