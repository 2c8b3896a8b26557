use bevy::ecs::entity::Entity;
use character_rig::character::{
    feet_ground_ray, ground_probe_while_in_air, ground_probe_while_on_stage, hips_ground_ray,
    local_movement_input, update_character_body_velocity_while_in_air_using_movement_velocity_system,
    update_character_horizontal_movement_velocity_system,
    update_character_in_air_body_position_system,
    update_character_movement_velocity_while_in_air_phase_system,
    update_character_movement_velocity_while_on_stage_system,
    update_character_on_stage_body_position_system, update_character_on_stage_system,
    CharacterFallPhaseMovementParametersComponent, CharacterMovementParametersComponent,
    CharacterMovementVariablesComponent, CharacterPlayerInputComponent, CharacterStageComponent,
    GroundProbe, GroundSnapAction, SystemOutcome,
};
use character_rig::collision::LayerGroups;
use character_rig::fixed::Fixed;
use character_rig::math::{FixedVec2, FixedVec3};

fn fx(raw: i64) -> Fixed {
    Fixed::from_micros(raw)
}

fn v3(x: i64, y: i64, z: i64) -> FixedVec3 {
    FixedVec3::new(fx(x), fx(y), fx(z))
}

fn at_rest() -> CharacterMovementVariablesComponent {
    CharacterMovementVariablesComponent {
        global_horizontal_velocity: FixedVec2::zero(),
        local_vertical_velocity: Fixed::zero(),
    }
}

fn moving(x: i64, y: i64, up: i64) -> CharacterMovementVariablesComponent {
    CharacterMovementVariablesComponent {
        global_horizontal_velocity: FixedVec2::new(fx(x), fx(y)),
        local_vertical_velocity: fx(up),
    }
}

fn raw(variables: &CharacterMovementVariablesComponent) -> (i64, i64, i64) {
    (
        variables.global_horizontal_velocity.x.micros(),
        variables.global_horizontal_velocity.y.micros(),
        variables.local_vertical_velocity.micros(),
    )
}

fn input(movement: FixedVec3, jump: bool) -> CharacterPlayerInputComponent {
    CharacterPlayerInputComponent {
        global_movement_player_input: movement,
        do_activate_jump_input: jump,
    }
}

fn movement_parameters() -> CharacterMovementParametersComponent {
    CharacterMovementParametersComponent {
        global_horizontal_acceleration: fx(400_000),
        global_horizontal_drag: fx(200_000),
        jump_impulse: fx(12_000_000),
    }
}

fn fall_parameters() -> CharacterFallPhaseMovementParametersComponent {
    CharacterFallPhaseMovementParametersComponent {
        maximum_down_speed: fx(20_000_000),
        maximum_up_speed: fx(25_000_000),
        down_acceleration: fx(400_000),
    }
}

fn on(index: u32) -> Option<CharacterStageComponent> {
    Some(CharacterStageComponent { stage_entity: Entity::from_raw(index) })
}

#[test]
fn keys_map_to_a_local_direction() {
    assert_eq!(local_movement_input(false, false, false, false), v3(0, 0, 0));
    assert_eq!(local_movement_input(true, false, false, false), v3(0, 0, -1_000_000));
    assert_eq!(local_movement_input(false, true, false, false), v3(0, 0, 1_000_000));
    assert_eq!(local_movement_input(false, false, true, false), v3(1_000_000, 0, 0));
    assert_eq!(local_movement_input(false, false, false, true), v3(-1_000_000, 0, 0));
    assert_eq!(local_movement_input(true, true, true, true), v3(0, 0, 0));
    assert_eq!(local_movement_input(true, false, false, true), v3(-1_000_000, 0, -1_000_000));
}

#[test]
fn forward_input_brings_the_speed_up_to_eight_and_no_further() {
    let forward = local_movement_input(true, false, false, false);
    let asked = input(forward, false);
    let parameters = movement_parameters();
    let mut variables = at_rest();
    let mut last_speed = 0;
    for tick in 1..=40 {
        update_character_horizontal_movement_velocity_system(
            forward,
            &asked,
            &parameters,
            &mut variables,
        );
        let (x, y, up) = raw(&variables);
        assert_eq!((x, up), (0, 0));
        let speed = -y;
        assert!(speed >= last_speed);
        assert!(speed <= 8_000_000);
        if tick <= 20 {
            assert_eq!(speed, 400_000 * tick);
        } else {
            assert_eq!(speed, 8_000_000);
        }
        last_speed = speed;
    }
}

#[test]
fn no_input_slows_down_by_the_drag() {
    let asked = input(v3(0, 0, 0), false);
    let parameters = movement_parameters();
    let mut variables = moving(3_000_000, -4_000_000, 7);
    update_character_horizontal_movement_velocity_system(
        v3(0, 0, 0),
        &asked,
        &parameters,
        &mut variables,
    );
    assert_eq!(raw(&variables), (2_880_000, -3_840_000, 7));
    for _ in 0..30 {
        update_character_horizontal_movement_velocity_system(
            v3(0, 0, 0),
            &asked,
            &parameters,
            &mut variables,
        );
    }
    assert_eq!(raw(&variables), (0, 0, 7));
}

#[test]
fn input_is_weighed_where_it_was_given_and_applied_where_it_was_leveled() {
    let parameters = movement_parameters();
    let mut variables = at_rest();
    update_character_horizontal_movement_velocity_system(
        v3(0, 0, 0),
        &input(v3(0, 1, 0), false),
        &parameters,
        &mut variables,
    );
    assert_eq!(raw(&variables), (0, 0, 0));
    let mut variables = moving(1_000_000, 0, 0);
    update_character_horizontal_movement_velocity_system(
        v3(0, 0, 0),
        &input(v3(0, 1, 0), false),
        &parameters,
        &mut variables,
    );
    assert_eq!(raw(&variables), (600_000, 0, 0));
    let mut variables = at_rest();
    update_character_horizontal_movement_velocity_system(
        v3(1_000_000, 5_000_000, -1_000_000),
        &input(v3(1_000_000, 0, -1_000_000), false),
        &parameters,
        &mut variables,
    );
    assert_eq!(raw(&variables), (282_842, -282_842, 0));
}

#[test]
fn jump_adds_its_impulse_on_the_stage_only() {
    let parameters = movement_parameters();
    let mut variables = moving(1, 2, 500_000);
    let outcome = update_character_movement_velocity_while_on_stage_system(
        on(7),
        &input(v3(0, 0, 0), true),
        &parameters,
        &mut variables,
    );
    assert_eq!(outcome, SystemOutcome::Applied);
    assert_eq!(raw(&variables), (1, 2, 12_500_000));
    let outcome = update_character_movement_velocity_while_on_stage_system(
        on(7),
        &input(v3(0, 0, 0), false),
        &parameters,
        &mut variables,
    );
    assert_eq!(outcome, SystemOutcome::Applied);
    assert_eq!(raw(&variables), (1, 2, 12_500_000));
    let outcome = update_character_movement_velocity_while_on_stage_system(
        None,
        &input(v3(0, 0, 0), true),
        &parameters,
        &mut variables,
    );
    assert_eq!(outcome, SystemOutcome::NotReady);
    assert_eq!(raw(&variables), (1, 2, 12_500_000));
}

#[test]
fn a_jump_leaves_the_stage_and_falls_under_gravity() {
    let parameters = movement_parameters();
    let fall = fall_parameters();
    let mut stage = on(3);
    let mut variables = at_rest();
    update_character_movement_velocity_while_on_stage_system(
        stage,
        &input(v3(0, 0, 0), true),
        &parameters,
        &mut variables,
    );
    assert_eq!(raw(&variables), (0, 0, 12_000_000));

    let ray = ground_probe_while_on_stage(stage, fx(1_000_000));
    assert_eq!(ray, Some(hips_ground_ray(fx(1_000_000))));
    let action = update_character_on_stage_body_position_system(
        &mut stage,
        GroundProbe::Hips,
        None,
        fx(12_000_000),
    );
    assert_eq!(action, GroundSnapAction::CastFromFeet);
    assert_eq!(stage, on(3));
    let action = update_character_on_stage_body_position_system(
        &mut stage,
        GroundProbe::Feet,
        None,
        fx(12_000_000),
    );
    assert_eq!(action, GroundSnapAction::ResetOrientation);
    assert_eq!(stage, None);

    let mut expected = 12_000_000;
    for tick in 0..100 {
        let outcome = update_character_movement_velocity_while_in_air_phase_system(
            stage,
            &fall,
            &mut variables,
        );
        assert_eq!(outcome, SystemOutcome::Applied);
        expected = (expected - 400_000).max(-20_000_000);
        assert_eq!(raw(&variables), (0, 0, expected));
        if tick == 79 {
            assert_eq!(expected, -20_000_000);
        }
    }
    assert_eq!(raw(&variables), (0, 0, -20_000_000));
}

#[test]
fn rising_faster_than_allowed_is_held_to_the_greatest_speed_up() {
    let fall = fall_parameters();
    let mut variables = moving(0, 0, 40_000_000);
    update_character_movement_velocity_while_in_air_phase_system(None, &fall, &mut variables);
    assert_eq!(raw(&variables), (0, 0, 25_000_000));
    let mut variables = moving(5, 6, 1_000_000);
    let outcome =
        update_character_movement_velocity_while_in_air_phase_system(on(1), &fall, &mut variables);
    assert_eq!(outcome, SystemOutcome::NotReady);
    assert_eq!(raw(&variables), (5, 6, 1_000_000));
}

#[test]
fn upward_velocity_on_the_stage_lets_go_at_once() {
    let mut stage = on(9);
    let mut variables = moving(1_000_000, -2_000_000, 12_000_000);
    let action = update_character_on_stage_system(&mut stage, &mut variables, v3(0, 1_000_000, 0));
    assert_eq!(action, GroundSnapAction::ResetOrientation);
    assert_eq!(stage, None);
    assert_eq!(raw(&variables), (1_000_000, -2_000_000, 12_000_000));

    let mut stage = on(9);
    let mut variables = moving(1_000_000, -2_000_000, 10_000_000);
    let action = update_character_on_stage_system(
        &mut stage,
        &mut variables,
        v3(600_000, 800_000, -250_000),
    );
    assert_eq!(action, GroundSnapAction::ResetOrientation);
    assert_eq!(stage, None);
    assert_eq!(raw(&variables), (7_000_000, -4_500_000, 8_000_000));
}

#[test]
fn no_upward_velocity_on_the_stage_stays() {
    let mut stage = on(9);
    let mut variables = moving(1, 2, 0);
    let action = update_character_on_stage_system(&mut stage, &mut variables, v3(0, 1_000_000, 0));
    assert_eq!(action, GroundSnapAction::Keep);
    assert_eq!(stage, on(9));
    assert_eq!(raw(&variables), (1, 2, 0));
    let mut variables = moving(1, 2, -3);
    let action = update_character_on_stage_system(&mut stage, &mut variables, v3(0, 1_000_000, 0));
    assert_eq!(action, GroundSnapAction::Keep);
    let mut airborne = None;
    let mut variables = moving(1, 2, 3);
    let action =
        update_character_on_stage_system(&mut airborne, &mut variables, v3(0, 1_000_000, 0));
    assert_eq!(action, GroundSnapAction::NotReady);
    assert_eq!(airborne, None);
    assert_eq!(raw(&variables), (1, 2, 3));
}

#[test]
fn ground_rays_reach_past_the_feet_and_meet_ground_only() {
    let hips = hips_ground_ray(fx(1_000_000));
    assert_eq!(hips.probe, GroundProbe::Hips);
    assert_eq!(hips.max_distance.micros(), 1_160_000);
    assert_eq!(hips.groups, LayerGroups::ground_probe());
    let feet = feet_ground_ray();
    assert_eq!(feet.probe, GroundProbe::Feet);
    assert_eq!(feet.max_distance.micros(), 320_000);
    assert_eq!(feet.groups, LayerGroups::ground_probe());
    assert_eq!(hips_ground_ray(fx(1_000_000_000_000)).max_distance.micros(), 1_000_000_000_000);
}

#[test]
fn ground_check_on_the_stage_follows_the_hit() {
    let mut stage = on(1);
    let action =
        update_character_on_stage_body_position_system(&mut stage, GroundProbe::Hips, Some(Entity::from_raw(2)), fx(5));
    assert_eq!(action, GroundSnapAction::SnapToHit { stage_entity: Entity::from_raw(2) });
    assert_eq!(stage, on(2));
    let action =
        update_character_on_stage_body_position_system(&mut stage, GroundProbe::Feet, Some(Entity::from_raw(4)), fx(-5));
    assert_eq!(action, GroundSnapAction::SnapToHit { stage_entity: Entity::from_raw(4) });
    assert_eq!(stage, on(4));
}

#[test]
fn ground_check_on_the_stage_lets_go_on_a_miss() {
    let mut stage = on(1);
    let action =
        update_character_on_stage_body_position_system(&mut stage, GroundProbe::Hips, None, fx(0));
    assert_eq!(action, GroundSnapAction::ResetOrientation);
    assert_eq!(stage, None);
    let mut stage = on(1);
    let action =
        update_character_on_stage_body_position_system(&mut stage, GroundProbe::Hips, None, fx(-1));
    assert_eq!(action, GroundSnapAction::ResetOrientation);
    assert_eq!(stage, None);
    let mut stage = on(1);
    let action =
        update_character_on_stage_body_position_system(&mut stage, GroundProbe::Hips, None, fx(1));
    assert_eq!(action, GroundSnapAction::CastFromFeet);
    assert_eq!(stage, on(1));
    let mut airborne = None;
    let action = update_character_on_stage_body_position_system(
        &mut airborne,
        GroundProbe::Hips,
        Some(Entity::from_raw(2)),
        fx(1),
    );
    assert_eq!(action, GroundSnapAction::NotReady);
    assert_eq!(airborne, None);
    assert_eq!(ground_probe_while_on_stage(None, fx(1_000_000)), None);
}

#[test]
fn a_falling_character_lands_on_what_the_ray_hits() {
    let mut stage = None;
    let mut variables = moving(3_000_000, 1_000_000, -6_000_000);
    let ray = ground_probe_while_in_air(stage, fx(-6_000_000), fx(1_000_000));
    assert_eq!(ray, Some(hips_ground_ray(fx(1_000_000))));
    let action = update_character_in_air_body_position_system(
        &mut stage,
        &mut variables,
        fx(-6_000_000),
        Some(Entity::from_raw(11)),
    );
    assert_eq!(action, GroundSnapAction::Land { stage_entity: Entity::from_raw(11) });
    assert_eq!(stage, on(11));
    assert_eq!(raw(&variables), (3_000_000, 1_000_000, 0));
}

#[test]
fn a_rising_character_does_not_look_for_ground() {
    let mut stage = None;
    let mut variables = moving(0, 0, 4_000_000);
    assert_eq!(ground_probe_while_in_air(stage, fx(1), fx(1_000_000)), None);
    let action = update_character_in_air_body_position_system(
        &mut stage,
        &mut variables,
        fx(1),
        Some(Entity::from_raw(11)),
    );
    assert_eq!(action, GroundSnapAction::Keep);
    assert_eq!(stage, None);
    assert_eq!(raw(&variables), (0, 0, 4_000_000));
}

#[test]
fn a_falling_character_that_finds_nothing_keeps_falling() {
    let mut stage = None;
    let mut variables = moving(0, 0, -4_000_000);
    assert_eq!(
        ground_probe_while_in_air(stage, fx(0), fx(1_000_000)),
        Some(hips_ground_ray(fx(1_000_000)))
    );
    let action =
        update_character_in_air_body_position_system(&mut stage, &mut variables, fx(0), None);
    assert_eq!(action, GroundSnapAction::Keep);
    assert_eq!(stage, None);
    assert_eq!(raw(&variables), (0, 0, -4_000_000));
    let mut standing = on(5);
    let action = update_character_in_air_body_position_system(
        &mut standing,
        &mut variables,
        fx(-1),
        Some(Entity::from_raw(11)),
    );
    assert_eq!(action, GroundSnapAction::NotReady);
    assert_eq!(standing, on(5));
    assert_eq!(ground_probe_while_in_air(on(5), fx(-1), fx(1_000_000)), None);
}

#[test]
fn the_body_of_an_airborne_character_moves_on_the_global_axes() {
    let variables = moving(1, 2, 3);
    assert_eq!(
        update_character_body_velocity_while_in_air_using_movement_velocity_system(None, &variables),
        Some(v3(1, 3, 2))
    );
    assert_eq!(
        update_character_body_velocity_while_in_air_using_movement_velocity_system(on(1), &variables),
        None
    );
}
