//! The character's locomotion: velocities kept in the character's own
//! frame, and the state machine that binds the character to the surface it
//! stands on or lets it go.
//!
//! The host engine owns transforms, rotations and the physics world. It
//! casts the rays this module asks for and carries out the actions this
//! module decides on.

use vstd::prelude::*;
use bevy::ecs::entity::Entity;
use crate::collision::LayerGroups;
use crate::fixed::{limited, saturate, scaled_product, Fixed};
use crate::math::{move_towards_planar, FixedVec2, FixedVec3, MoveTowards};

verus! {

/// Speed, in millionths of a unit per second, that a movement input of
/// length one asks for.
pub const MOVEMENT_SPEED: i64 = 8_000_000;

/// How far below the feet the ray from the hips still finds ground, in
/// millionths of a unit.
pub const HIPS_SKIN_MARGIN: i64 = 160_000;

/// How far below the feet the ray from the feet finds ground, in millionths
/// of a unit.
pub const FEET_SNAP_DISTANCE: i64 = 320_000;

/// The engine's handle of an entity (`bevy::ecs::entity::Entity`). The rig
/// hands such handles on as it got them and never looks inside one.
#[verifier::external_type_specification]
#[verifier::external_body]
pub struct ExEntity(bevy::ecs::entity::Entity);

/// Marks the character.
#[derive(Clone, Copy, Debug, PartialEq, Eq, Structural)]
pub struct CharacterTagComponent;

/// Marks the collider at the character's hips, from which the ground is
/// probed.
#[derive(Clone, Copy, Debug, PartialEq, Eq, Structural)]
pub struct CharacterBodyTagComponent;

/// What the player asks of the character.
#[derive(Clone, Copy, Debug, PartialEq, Eq, Structural)]
pub struct CharacterPlayerInputComponent {
    /// Movement input in global space, turned onto the character's
    /// horizontal plane.
    pub global_movement_player_input: FixedVec3,
    /// Whether a jump was asked for on this tick.
    pub do_activate_jump_input: bool,
}

/// The character's velocity, split along its own axes.
#[derive(Clone, Copy, Debug, PartialEq, Eq, Structural)]
pub struct CharacterMovementVariablesComponent {
    /// Velocity on the character's horizontal plane.
    pub global_horizontal_velocity: FixedVec2,
    /// Velocity along the character's up axis.
    pub local_vertical_velocity: Fixed,
}

/// How quickly the character's horizontal velocity follows the input, and
/// how hard it jumps.
#[derive(Clone, Copy, Debug, PartialEq, Eq, Structural)]
pub struct CharacterMovementParametersComponent {
    /// Change of speed per tick toward the speed asked for.
    pub global_horizontal_acceleration: Fixed,
    /// Change of speed per tick toward rest while nothing is asked for.
    pub global_horizontal_drag: Fixed,
    /// Vertical speed a jump adds.
    pub jump_impulse: Fixed,
}

/// The surface the character stands on. A character without one is
/// airborne.
#[derive(Clone, Copy, Debug, PartialEq, Eq)]
pub struct CharacterStageComponent {
    pub stage_entity: Entity,
}

/// How the character falls.
#[derive(Clone, Copy, Debug, PartialEq, Eq, Structural)]
pub struct CharacterFallPhaseMovementParametersComponent {
    /// Greatest speed downward.
    pub maximum_down_speed: Fixed,
    /// Greatest speed upward.
    pub maximum_up_speed: Fixed,
    /// Loss of vertical speed per tick.
    pub down_acceleration: Fixed,
}

/// Whether a step found the character in the phase it is for.
#[derive(Clone, Copy, Debug, PartialEq, Eq, Structural)]
pub enum SystemOutcome {
    /// The step was carried out.
    Applied,
    /// The character is not in the phase of this step; nothing was changed.
    NotReady,
}

/// Where a ray that looks for ground starts and points.
#[derive(Clone, Copy, Debug, PartialEq, Eq, Structural)]
pub enum GroundProbe {
    /// From the hips, along the character's own down axis.
    Hips,
    /// From the feet, straight down the global vertical.
    Feet,
}

/// A ray for the host engine to cast against the physics world.
#[derive(Clone, Copy, Debug, PartialEq, Eq, Structural)]
pub struct GroundRay {
    pub probe: GroundProbe,
    /// Greatest distance at which a hit counts.
    pub max_distance: Fixed,
    /// The layers the ray belongs to and meets.
    pub groups: LayerGroups,
}

/// What the host engine is to do after a step of the ground state machine.
#[derive(Clone, Copy, Debug, PartialEq, Eq)]
pub enum GroundSnapAction {
    /// The character is not in the phase of this step; nothing was decided.
    NotReady,
    /// Leave the character as it is.
    Keep,
    /// Turn the character's up axis onto the normal of the hit and move the
    /// character to the point of the hit.
    SnapToHit { stage_entity: Entity },
    /// As `SnapToHit`, and stop the body's vertical motion.
    Land { stage_entity: Entity },
    /// Cast the ray from the feet, and hand its result to the same step.
    CastFromFeet,
    /// Align the character with the global axes: it has left the ground.
    ResetOrientation,
}

/// The horizontal velocity asked for by an input that lies in the global
/// horizontal plane.
pub open spec fn desired_horizontal_velocity(leveled_input: (int, int, int)) -> (int, int) {
    (
        saturate(scaled_product(leveled_input.0, MOVEMENT_SPEED as int)),
        saturate(scaled_product(leveled_input.2, MOVEMENT_SPEED as int)),
    )
}

/// Whether the player asks for any movement.
pub open spec fn has_movement_input(input: CharacterPlayerInputComponent) -> bool {
    input.global_movement_player_input@ != (0int, 0int, 0int)
}

/// The change of speed per tick that applies: acceleration while movement is
/// asked for, drag while it is not.
pub open spec fn horizontal_rate(
    input: CharacterPlayerInputComponent,
    parameters: CharacterMovementParametersComponent,
) -> int {
    if has_movement_input(input) {
        parameters.global_horizontal_acceleration@
    } else {
        parameters.global_horizontal_drag@
    }
}

/// Whether the limits of the fall leave room for a vertical speed.
pub open spec fn fall_limits_ordered(
    parameters: CharacterFallPhaseMovementParametersComponent,
) -> bool {
    -parameters.maximum_down_speed@ <= parameters.maximum_up_speed@
}

/// The movement input of the keys held: forward and back along minus and
/// plus Z, right and left along plus and minus X, one unit each.
pub fn local_movement_input(forward: bool, back: bool, right: bool, left: bool) -> (r: FixedVec3)
    ensures
        r@ == (
            (if right { 1_000_000int } else { 0 }) - (if left { 1_000_000int } else { 0 }),
            0int,
            (if back { 1_000_000int } else { 0 }) - (if forward { 1_000_000int } else { 0 }),
        ),
{
    let one = Fixed::from_units(1);
    let mut x = Fixed::zero();
    let mut z = Fixed::zero();
    if forward {
        z = z.minus(one);
    }
    if back {
        z = z.plus(one);
    }
    if right {
        x = x.plus(one);
    }
    if left {
        x = x.minus(one);
    }
    FixedVec3 { x, y: Fixed::zero(), z }
}

/// Moves the horizontal velocity toward the velocity asked for, by the
/// acceleration while movement is asked for and by the drag while it is not.
///
/// `leveled_movement_input` is the player's movement input turned from the
/// character's up axis onto the global one.
pub fn update_character_horizontal_movement_velocity_system(
    leveled_movement_input: FixedVec3,
    input: &CharacterPlayerInputComponent,
    parameters: &CharacterMovementParametersComponent,
    variables: &mut CharacterMovementVariablesComponent,
)
    ensures
        final(variables).global_horizontal_velocity@ == move_towards_planar(
            old(variables).global_horizontal_velocity@,
            desired_horizontal_velocity(leveled_movement_input@),
            horizontal_rate(*input, *parameters),
        ),
        final(variables).local_vertical_velocity == old(variables).local_vertical_velocity,
{
    let speed = Fixed::from_micros(MOVEMENT_SPEED);
    let desired = FixedVec2 {
        x: leveled_movement_input.x.times(speed),
        y: leveled_movement_input.z.times(speed),
    };
    let asked = input.global_movement_player_input;
    let rate = if !asked.x.is_zero() || !asked.y.is_zero() || !asked.z.is_zero() {
        parameters.global_horizontal_acceleration
    } else {
        parameters.global_horizontal_drag
    };
    variables.global_horizontal_velocity = variables.global_horizontal_velocity.move_towards(
        desired,
        rate,
    );
}

/// On the stage, a jump asked for adds the jump impulse to the vertical
/// velocity.
pub fn update_character_movement_velocity_while_on_stage_system(
    stage: Option<CharacterStageComponent>,
    input: &CharacterPlayerInputComponent,
    parameters: &CharacterMovementParametersComponent,
    variables: &mut CharacterMovementVariablesComponent,
) -> (r: SystemOutcome)
    ensures
        r == if stage is Some {
            SystemOutcome::Applied
        } else {
            SystemOutcome::NotReady
        },
        final(variables).global_horizontal_velocity == old(variables).global_horizontal_velocity,
        final(variables).local_vertical_velocity@ == if stage is Some
            && input.do_activate_jump_input {
            saturate(old(variables).local_vertical_velocity@ + parameters.jump_impulse@)
        } else {
            old(variables).local_vertical_velocity@
        },
{
    if stage.is_none() {
        return SystemOutcome::NotReady;
    }
    if input.do_activate_jump_input {
        variables.local_vertical_velocity = variables.local_vertical_velocity.plus(
            parameters.jump_impulse,
        );
    }
    SystemOutcome::Applied
}

/// In the air, the vertical velocity loses the fall acceleration and stays
/// between the greatest speeds down and up.
pub fn update_character_movement_velocity_while_in_air_phase_system(
    stage: Option<CharacterStageComponent>,
    parameters: &CharacterFallPhaseMovementParametersComponent,
    variables: &mut CharacterMovementVariablesComponent,
) -> (r: SystemOutcome)
    requires
        fall_limits_ordered(*parameters),
    ensures
        r == if stage is None {
            SystemOutcome::Applied
        } else {
            SystemOutcome::NotReady
        },
        final(variables).global_horizontal_velocity == old(variables).global_horizontal_velocity,
        final(variables).local_vertical_velocity@ == if stage is None {
            limited(
                saturate(old(variables).local_vertical_velocity@ - parameters.down_acceleration@),
                -parameters.maximum_down_speed@,
                parameters.maximum_up_speed@,
            )
        } else {
            old(variables).local_vertical_velocity@
        },
{
    if stage.is_some() {
        return SystemOutcome::NotReady;
    }
    let slowed = variables.local_vertical_velocity.minus(parameters.down_acceleration);
    variables.local_vertical_velocity = slowed.clamp(
        parameters.maximum_down_speed.negated(),
        parameters.maximum_up_speed,
    );
    SystemOutcome::Applied
}

/// The velocity of the body of an airborne character: its horizontal
/// velocity on the global horizontal plane and its vertical velocity along
/// the global vertical.
pub fn update_character_body_velocity_while_in_air_using_movement_velocity_system(
    stage: Option<CharacterStageComponent>,
    variables: &CharacterMovementVariablesComponent,
) -> (r: Option<FixedVec3>)
    ensures
        r == if stage is None {
            Some(
                FixedVec3 {
                    x: variables.global_horizontal_velocity.x,
                    y: variables.local_vertical_velocity,
                    z: variables.global_horizontal_velocity.y,
                },
            )
        } else {
            None
        },
{
    if stage.is_some() {
        return None;
    }
    Some(
        FixedVec3 {
            x: variables.global_horizontal_velocity.x,
            y: variables.local_vertical_velocity,
            z: variables.global_horizontal_velocity.y,
        },
    )
}

/// A character on the stage that has gained upward velocity leaves the
/// stage at once, so that the coming ground check does not pull the jump
/// back: its vertical velocity, taken along its up axis `up`, is shared out
/// between the horizontal velocity and the global vertical.
pub fn update_character_on_stage_system(
    stage: &mut Option<CharacterStageComponent>,
    variables: &mut CharacterMovementVariablesComponent,
    up: FixedVec3,
) -> (r: GroundSnapAction)
    ensures
        *old(stage) is None ==> r == GroundSnapAction::NotReady,
        *old(stage) is Some && old(variables).local_vertical_velocity@ <= 0 ==> r
            == GroundSnapAction::Keep,
        *old(stage) is Some && old(variables).local_vertical_velocity@ > 0 ==> r
            == GroundSnapAction::ResetOrientation,
        r != GroundSnapAction::ResetOrientation ==> *final(stage) == *old(stage),
        r != GroundSnapAction::ResetOrientation ==> *final(variables) == *old(variables),
        r == GroundSnapAction::ResetOrientation ==> {
            let rise = old(variables).local_vertical_velocity@;
            &&& *final(stage) is None
            &&& final(variables).global_horizontal_velocity@ == (
                saturate(
                    old(variables).global_horizontal_velocity.x@ + saturate(
                        scaled_product(up.x@, rise),
                    ),
                ),
                saturate(
                    old(variables).global_horizontal_velocity.y@ + saturate(
                        scaled_product(up.z@, rise),
                    ),
                ),
            )
            &&& final(variables).local_vertical_velocity@ == saturate(scaled_product(up.y@, rise))
        },
{
    if stage.is_none() {
        return GroundSnapAction::NotReady;
    }
    let rise = variables.local_vertical_velocity;
    if !rise.is_positive() {
        return GroundSnapAction::Keep;
    }
    let horizontal = variables.global_horizontal_velocity;
    variables.global_horizontal_velocity = FixedVec2 {
        x: horizontal.x.plus(up.x.times(rise)),
        y: horizontal.y.plus(up.z.times(rise)),
    };
    variables.local_vertical_velocity = up.y.times(rise);
    *stage = None;
    GroundSnapAction::ResetOrientation
}

/// Whether `ray` is the ray that looks for ground below hips that are
/// `hips_height` above the feet: it reaches the skin margin past the feet
/// and meets ground only.
pub open spec fn is_hips_ground_ray(ray: GroundRay, hips_height: int) -> bool {
    &&& ray.probe == GroundProbe::Hips
    &&& ray.max_distance@ == saturate(hips_height + HIPS_SKIN_MARGIN)
    &&& ray.groups == LayerGroups::spec_ground_probe()
}

/// The ray that looks for ground below the hips, `hips_height` above the
/// feet.
pub fn hips_ground_ray(hips_height: Fixed) -> (r: GroundRay)
    ensures
        is_hips_ground_ray(r, hips_height@),
{
    GroundRay {
        probe: GroundProbe::Hips,
        max_distance: hips_height.plus(Fixed::from_micros(HIPS_SKIN_MARGIN)),
        groups: LayerGroups::ground_probe(),
    }
}

/// The ray that looks for ground straight below the feet.
pub fn feet_ground_ray() -> (r: GroundRay)
    ensures
        r.probe == GroundProbe::Feet,
        r.max_distance@ == FEET_SNAP_DISTANCE,
        r.groups == LayerGroups::spec_ground_probe(),
{
    GroundRay {
        probe: GroundProbe::Feet,
        max_distance: Fixed::from_micros(FEET_SNAP_DISTANCE),
        groups: LayerGroups::ground_probe(),
    }
}

/// The ray to cast for a character on the stage before its ground check:
/// from the hips, and none for an airborne character.
pub fn ground_probe_while_on_stage(
    stage: Option<CharacterStageComponent>,
    hips_height: Fixed,
) -> (r: Option<GroundRay>)
    ensures
        r is Some == stage is Some,
        r matches Some(ray) ==> is_hips_ground_ray(ray, hips_height@),
{
    if stage.is_none() {
        None
    } else {
        Some(hips_ground_ray(hips_height))
    }
}

/// What a ground check on the stage decides, from the ray that was cast,
/// what it hit and the vertical velocity of the body.
pub open spec fn on_stage_decision(
    probe: GroundProbe,
    hit: Option<Entity>,
    body_vertical_velocity: int,
) -> GroundSnapAction {
    match hit {
        Some(stage_entity) => GroundSnapAction::SnapToHit { stage_entity },
        None => if probe == GroundProbe::Hips && body_vertical_velocity > 0 {
            GroundSnapAction::CastFromFeet
        } else {
            GroundSnapAction::ResetOrientation
        },
    }
}

/// The ground check of a character on the stage.
///
/// A hit binds the character to the surface hit. A miss from the hips while
/// the body moves upward asks for a second ray from the feet; any other miss
/// lets the character go.
pub fn update_character_on_stage_body_position_system(
    stage: &mut Option<CharacterStageComponent>,
    probe: GroundProbe,
    hit: Option<Entity>,
    body_vertical_velocity: Fixed,
) -> (r: GroundSnapAction)
    ensures
        r == if *old(stage) is None {
            GroundSnapAction::NotReady
        } else {
            on_stage_decision(probe, hit, body_vertical_velocity@)
        },
        *final(stage) == match r {
            GroundSnapAction::SnapToHit { stage_entity } => Some(
                CharacterStageComponent { stage_entity },
            ),
            GroundSnapAction::ResetOrientation => None,
            _ => *old(stage),
        },
{
    if stage.is_none() {
        return GroundSnapAction::NotReady;
    }
    match hit {
        Some(stage_entity) => {
            *stage = Some(CharacterStageComponent { stage_entity });
            GroundSnapAction::SnapToHit { stage_entity }
        },
        None => {
            let from_hips = match probe {
                GroundProbe::Hips => true,
                GroundProbe::Feet => false,
            };
            if from_hips && body_vertical_velocity.is_positive() {
                GroundSnapAction::CastFromFeet
            } else {
                *stage = None;
                GroundSnapAction::ResetOrientation
            }
        },
    }
}

/// The ray to cast for an airborne character before its landing check: from
/// the hips while the body is not moving upward, and none otherwise or for
/// a character on the stage.
pub fn ground_probe_while_in_air(
    stage: Option<CharacterStageComponent>,
    body_vertical_velocity: Fixed,
    hips_height: Fixed,
) -> (r: Option<GroundRay>)
    ensures
        r is Some == (stage is None && body_vertical_velocity@ <= 0),
        r matches Some(ray) ==> is_hips_ground_ray(ray, hips_height@),
{
    if stage.is_some() || body_vertical_velocity.is_positive() {
        None
    } else {
        Some(hips_ground_ray(hips_height))
    }
}

/// What a landing check decides, from the vertical velocity of the body and
/// what the ray from the hips hit.
pub open spec fn in_air_decision(
    body_vertical_velocity: int,
    hit: Option<Entity>,
) -> GroundSnapAction {
    if body_vertical_velocity > 0 {
        GroundSnapAction::Keep
    } else {
        match hit {
            Some(stage_entity) => GroundSnapAction::Land { stage_entity },
            None => GroundSnapAction::Keep,
        }
    }
}

/// The landing check of an airborne character.
///
/// While the body is not moving upward, a hit binds the character to the
/// surface hit and stops its vertical velocity.
pub fn update_character_in_air_body_position_system(
    stage: &mut Option<CharacterStageComponent>,
    variables: &mut CharacterMovementVariablesComponent,
    body_vertical_velocity: Fixed,
    hit: Option<Entity>,
) -> (r: GroundSnapAction)
    ensures
        r == if *old(stage) is Some {
            GroundSnapAction::NotReady
        } else {
            in_air_decision(body_vertical_velocity@, hit)
        },
        final(variables).global_horizontal_velocity == old(variables).global_horizontal_velocity,
        match r {
            GroundSnapAction::Land { stage_entity } => {
                &&& *final(stage) == Some(CharacterStageComponent { stage_entity })
                &&& final(variables).local_vertical_velocity@ == 0
            },
            _ => {
                &&& *final(stage) == *old(stage)
                &&& final(variables).local_vertical_velocity
                    == old(variables).local_vertical_velocity
            },
        },
{
    if stage.is_some() {
        return GroundSnapAction::NotReady;
    }
    if body_vertical_velocity.is_positive() {
        return GroundSnapAction::Keep;
    }
    match hit {
        Some(stage_entity) => {
            variables.local_vertical_velocity = Fixed::zero();
            *stage = Some(CharacterStageComponent { stage_entity });
            GroundSnapAction::Land { stage_entity }
        },
        None => GroundSnapAction::Keep,
    }
}

} // verus!
