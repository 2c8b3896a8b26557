//! The behaviours of an orbital camera that the host engine switches on
//! entity by entity, and what the player's mouse does to the camera's
//! cylinder coordinates and to the point it looks at.

use vstd::prelude::*;
use bevy::ecs::entity::Entity;
use crate::fixed::{saturate, scaled_product, Fixed};
use crate::math::{CylinderCoordinates3d, FixedVec2, FixedVec3};

verus! {

/// Radians of orbit, or units of height, per unit of mouse motion.
pub const MOUSE_MOTION_SCALE: i64 = 1_000;

/// Units of orbit distance per unit of mouse wheel.
pub const MOUSE_WHEEL_SCALE: i64 = 100_000;

/// Share of the vertical mouse motion that moves the camera's height.
pub const HEIGHT_SHARE: i64 = 500_000;

/// Share of the vertical mouse motion that moves the point looked at.
pub const LOOKAT_OFFSET_SHARE: i64 = 200_000;

/// Cylinder coordinates, under the name the camera's components use.
pub type CylindricalCoordinates = CylinderCoordinates3d;

/// Marks the body of the camera rig, which follows the observed entity.
#[derive(Clone, Copy, Debug, PartialEq, Eq, Structural)]
pub struct CameraBodyTagComponent;

/// Marks the eyes of the camera rig, which orbit the body.
#[derive(Clone, Copy, Debug, PartialEq, Eq, Structural)]
pub struct CameraEyesTagComponent;

/// Switches on: the desired translation follows the observed entity.
#[derive(Clone, Copy, Debug, PartialEq, Eq, Structural)]
pub struct SetDesiredTransformTranslationToObservedEntityTransformTranslationBehaviorComponent;

/// Switches on: the desired rotation follows the observed entity's up axis.
#[derive(Clone, Copy, Debug, PartialEq, Eq, Structural)]
pub struct SetDesiredTransformRotationToObservedEntityLocalUpBehaviorComponent;

/// Switches on: the camera looks at its parent's origin.
#[derive(Clone, Copy, Debug, PartialEq, Eq, Structural)]
pub struct SetLookatPositionToParentTransformTranslationBehaviorComponent;

/// Switches on: the camera looks at the observed entity, with an offset.
#[derive(Clone, Copy, Debug, PartialEq, Eq, Structural)]
pub struct SetLookatPositionToObservedEntityTransformTranslationWithOffsetBehaviorComponent;

/// Switches on: the camera's up follows the observed entity's up axis.
#[derive(Clone, Copy, Debug, PartialEq, Eq, Structural)]
pub struct SetLookatUpToObservedEntityTransformLocalUpWithOffsetBehaviorComponent;

/// Switches on: the mouse moves the camera's cylinder coordinates.
#[derive(Clone, Copy, Debug, PartialEq, Eq, Structural)]
pub struct SetCylinderCoordinateForDesiredTransformTranslationUsingInputBehaviorComponent;

/// Switches on: the mouse moves the offset of the point looked at.
#[derive(Clone, Copy, Debug, PartialEq, Eq, Structural)]
pub struct SetLookatOffsetUsingInputBehaviorComponent;

/// The entity a camera observes.
#[derive(Clone, Copy, Debug, PartialEq, Eq)]
pub struct ObservedEntityVariablesComponent {
    pub entity: Entity,
}

/// The point a camera looks at, and the direction that is up for it.
#[derive(Clone, Copy, Debug, PartialEq, Eq, Structural)]
pub struct LookatVariablesComponent {
    pub position: FixedVec3,
    pub up: FixedVec3,
}

/// The offset of the point looked at from the observed entity, in that
/// entity's frame.
#[derive(Clone, Copy, Debug, PartialEq, Eq, Structural)]
pub struct LookatOffsetVariablesComponent {
    pub translation_wrt_observed: FixedVec3,
}

/// The cylinder coordinates from which a camera's desired translation is
/// derived.
#[derive(Clone, Copy, Debug, PartialEq, Eq, Structural)]
pub struct CylinderCoordinatesForDesiredTransformTranslationVariablesComponent {
    pub cylinder_coordindates: CylindricalCoordinates,
}

/// The mouse input of one frame, summed over its events.
#[derive(Clone, Copy, Debug, PartialEq, Eq, Structural)]
pub struct MouseInput {
    /// Orbit asked for, in radians.
    pub orbit: Fixed,
    /// Vertical travel asked for.
    pub lift: Fixed,
    /// Zoom asked for, in units of distance.
    pub zoom: Fixed,
}

/// The sum of the first `count` horizontal mouse motions, each scaled as it
/// is added.
pub open spec fn summed_orbit(motions: Seq<FixedVec2>, count: int) -> int
    decreases count,
{
    if count <= 0 {
        0
    } else {
        saturate(
            summed_orbit(motions, count - 1) + saturate(
                scaled_product(motions[count - 1].x@, MOUSE_MOTION_SCALE as int),
            ),
        )
    }
}

/// The sum of the first `count` vertical mouse motions, each scaled as it is
/// added.
pub open spec fn summed_lift(motions: Seq<FixedVec2>, count: int) -> int
    decreases count,
{
    if count <= 0 {
        0
    } else {
        saturate(
            summed_lift(motions, count - 1) + saturate(
                scaled_product(motions[count - 1].y@, MOUSE_MOTION_SCALE as int),
            ),
        )
    }
}

/// The sum of the first `count` mouse wheel motions, each scaled as it is
/// added.
pub open spec fn summed_zoom(wheels: Seq<Fixed>, count: int) -> int
    decreases count,
{
    if count <= 0 {
        0
    } else {
        saturate(
            summed_zoom(wheels, count - 1) + saturate(
                scaled_product(wheels[count - 1]@, MOUSE_WHEEL_SCALE as int),
            ),
        )
    }
}

/// Cylinder coordinates after the mouse input: the wheel draws the camera
/// in, horizontal motion turns it, and half the vertical motion lowers it.
pub open spec fn coordinates_after_input(
    before: CylinderCoordinates3d,
    after: CylinderCoordinates3d,
    orbit: int,
    lift: int,
    zoom: int,
) -> bool {
    &&& after.distance@ == saturate(before.distance@ - zoom)
    &&& after.rotation@ == saturate(before.rotation@ + orbit)
    &&& after.height@ == saturate(
        before.height@ - saturate(scaled_product(lift, HEIGHT_SHARE as int)),
    )
}

/// Sums the mouse events of one frame, each exactly once.
pub fn gather_mouse_input(mouse_motion: &Vec<FixedVec2>, mouse_wheel: &Vec<Fixed>) -> (r:
    MouseInput)
    ensures
        r.orbit@ == summed_orbit(mouse_motion@, mouse_motion@.len() as int),
        r.lift@ == summed_lift(mouse_motion@, mouse_motion@.len() as int),
        r.zoom@ == summed_zoom(mouse_wheel@, mouse_wheel@.len() as int),
{
    let motion_scale = Fixed::from_micros(MOUSE_MOTION_SCALE);
    let wheel_scale = Fixed::from_micros(MOUSE_WHEEL_SCALE);
    let mut orbit = Fixed::zero();
    let mut lift = Fixed::zero();
    let mut i: usize = 0;
    while i < mouse_motion.len()
        invariant
            i <= mouse_motion@.len(),
            motion_scale@ == MOUSE_MOTION_SCALE,
            orbit@ == summed_orbit(mouse_motion@, i as int),
            lift@ == summed_lift(mouse_motion@, i as int),
        decreases mouse_motion@.len() - i,
    {
        orbit = orbit.plus(mouse_motion[i].x.times(motion_scale));
        lift = lift.plus(mouse_motion[i].y.times(motion_scale));
        i = i + 1;
    }
    let mut zoom = Fixed::zero();
    let mut j: usize = 0;
    while j < mouse_wheel.len()
        invariant
            j <= mouse_wheel@.len(),
            wheel_scale@ == MOUSE_WHEEL_SCALE,
            zoom@ == summed_zoom(mouse_wheel@, j as int),
        decreases mouse_wheel@.len() - j,
    {
        zoom = zoom.plus(mouse_wheel[j].times(wheel_scale));
        j = j + 1;
    }
    MouseInput { orbit, lift, zoom }
}

/// Cylinder coordinates moved by the mouse input of one frame.
pub fn steer_cylinder_coordinates(coordinates: CylinderCoordinates3d, input: MouseInput) -> (r:
    CylinderCoordinates3d)
    ensures
        coordinates_after_input(coordinates, r, input.orbit@, input.lift@, input.zoom@),
{
    CylinderCoordinates3d {
        distance: coordinates.distance.minus(input.zoom),
        rotation: coordinates.rotation.plus(input.orbit),
        height: coordinates.height.minus(input.lift.times(Fixed::from_micros(HEIGHT_SHARE))),
    }
}

/// Moves a camera's cylinder coordinates by the mouse events of one frame.
pub fn set_cylinder_coordinates_for_desired_transform_translation_using_input_system(
    mouse_motion: &Vec<FixedVec2>,
    mouse_wheel: &Vec<Fixed>,
    variables: &mut CylinderCoordinatesForDesiredTransformTranslationVariablesComponent,
)
    ensures
        coordinates_after_input(
            old(variables).cylinder_coordindates,
            final(variables).cylinder_coordindates,
            summed_orbit(mouse_motion@, mouse_motion@.len() as int),
            summed_lift(mouse_motion@, mouse_motion@.len() as int),
            summed_zoom(mouse_wheel@, mouse_wheel@.len() as int),
        ),
{
    let input = gather_mouse_input(mouse_motion, mouse_wheel);
    variables.cylinder_coordindates = steer_cylinder_coordinates(
        variables.cylinder_coordindates,
        input,
    );
}

/// Raises the offset of the point looked at by a fifth of the vertical mouse
/// motion of one frame.
pub fn set_lookat_offset_using_input_system(
    mouse_motion: &Vec<FixedVec2>,
    variables: &mut LookatOffsetVariablesComponent,
)
    ensures
        final(variables).translation_wrt_observed.y@ == saturate(
            old(variables).translation_wrt_observed.y@ + saturate(
                scaled_product(
                    summed_lift(mouse_motion@, mouse_motion@.len() as int),
                    LOOKAT_OFFSET_SHARE as int,
                ),
            ),
        ),
        final(variables).translation_wrt_observed.x == old(variables).translation_wrt_observed.x,
        final(variables).translation_wrt_observed.z == old(variables).translation_wrt_observed.z,
{
    let none: Vec<Fixed> = Vec::new();
    let input = gather_mouse_input(mouse_motion, &none);
    let offset = variables.translation_wrt_observed;
    variables.translation_wrt_observed = FixedVec3 {
        x: offset.x,
        y: offset.y.plus(input.lift.times(Fixed::from_micros(LOOKAT_OFFSET_SHARE))),
        z: offset.z,
    };
}

/// Points the camera at the origin of its parent.
pub fn set_lookat_position_to_parent_transform_translation_behavior_system(
    variables: &mut LookatVariablesComponent,
)
    ensures
        final(variables).position@ == (0int, 0int, 0int),
        final(variables).up == old(variables).up,
{
    variables.position = FixedVec3::zero();
}

} // verus!
