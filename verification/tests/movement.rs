use game_engine::engine::player_controller::{
    FootstepsTimer, Gait, MovementKeys, PlayerCharacter, Stride, StrideStep, NANOS_PER_SECOND,
};

const MS: u64 = 1_000_000;

fn keys() -> MovementKeys {
    MovementKeys {
        shift_pressed: false,
        shift_just_released: false,
        forward: false,
        backward: false,
        left: false,
        right: false,
    }
}

#[test]
fn timer_wraps_around_its_duration() {
    let mut timer = FootstepsTimer::new(NANOS_PER_SECOND);
    assert!(!timer.tick(600 * MS));
    assert_eq!(timer.elapsed_nanos, 600 * MS);
    assert!(timer.tick(600 * MS));
    assert_eq!(timer.elapsed_nanos, 200 * MS);
    assert_eq!(timer.duration_nanos, NANOS_PER_SECOND);
}

#[test]
fn timer_finishes_exactly_at_duration() {
    let mut timer = FootstepsTimer::new(450 * MS);
    assert!(timer.tick(450 * MS));
    assert_eq!(timer.elapsed_nanos, 0);
}

#[test]
fn zero_duration_timer_finishes_every_tick() {
    let mut timer = FootstepsTimer { duration_nanos: 0, elapsed_nanos: 300 * MS };
    assert!(timer.tick(0));
    assert_eq!(timer.elapsed_nanos, 0);
    assert!(timer.tick(16 * MS));
    assert_eq!(timer.elapsed_nanos, 0);
}

#[test]
fn timer_wraps_several_periods() {
    let mut timer = FootstepsTimer::new(100 * MS);
    assert!(timer.tick(350 * MS));
    assert_eq!(timer.elapsed_nanos, 50 * MS);
}

#[test]
fn walking_forward_and_right_ticks_twice() {
    let mut timer = FootstepsTimer::new(450 * MS);
    let k = MovementKeys { forward: true, right: true, ..keys() };
    let plan = PlayerCharacter::player_movement(k, &mut timer, 300 * MS);
    assert_eq!(
        plan.strides,
        vec![
            StrideStep { stride: Stride::Forward, footstep: false },
            StrideStep { stride: Stride::Right, footstep: true },
        ]
    );
    assert_eq!(plan.gait, Gait::Walk);
    assert_eq!(timer.elapsed_nanos, 150 * MS);
    assert_eq!(timer.duration_nanos, 450 * MS);
}

#[test]
fn all_keys_stride_in_w_s_a_d_order() {
    let mut timer = FootstepsTimer::new(NANOS_PER_SECOND);
    let k = MovementKeys { forward: true, backward: true, left: true, right: true, ..keys() };
    let plan = PlayerCharacter::player_movement(k, &mut timer, 100 * MS);
    let strides: Vec<Stride> = plan.strides.iter().map(|s| s.stride).collect();
    assert_eq!(strides, vec![Stride::Forward, Stride::Backward, Stride::Left, Stride::Right]);
    assert!(plan.strides.iter().all(|s| !s.footstep));
    assert_eq!(timer.elapsed_nanos, 400 * MS);
}

#[test]
fn running_plays_every_footstep() {
    let mut timer = FootstepsTimer::new(450 * MS);
    let k = MovementKeys { shift_pressed: true, forward: true, left: true, ..keys() };
    let plan = PlayerCharacter::player_movement(k, &mut timer, 10 * MS);
    assert_eq!(timer.duration_nanos, 0);
    assert_eq!(timer.elapsed_nanos, 0);
    assert_eq!(plan.gait, Gait::Run);
    assert_eq!(
        plan.strides,
        vec![
            StrideStep { stride: Stride::Forward, footstep: true },
            StrideStep { stride: Stride::Left, footstep: true },
        ]
    );
}

#[test]
fn releasing_shift_sets_one_second_period() {
    let mut timer = FootstepsTimer { duration_nanos: 0, elapsed_nanos: 0 };
    let k = MovementKeys { shift_just_released: true, backward: true, ..keys() };
    let plan = PlayerCharacter::player_movement(k, &mut timer, 500 * MS);
    assert_eq!(timer.duration_nanos, NANOS_PER_SECOND);
    assert_eq!(timer.elapsed_nanos, 500 * MS);
    assert_eq!(plan.strides, vec![StrideStep { stride: Stride::Backward, footstep: false }]);
    assert_eq!(plan.gait, Gait::Walk);
}

#[test]
fn standing_still_keeps_timer() {
    let mut timer = FootstepsTimer { duration_nanos: 450 * MS, elapsed_nanos: 123 };
    let plan = PlayerCharacter::player_movement(keys(), &mut timer, 500 * MS);
    assert!(plan.strides.is_empty());
    assert_eq!(timer, FootstepsTimer { duration_nanos: 450 * MS, elapsed_nanos: 123 });
}

#[test]
fn footstep_sounds_per_direction() {
    assert_eq!(Stride::Forward.footstep_sound(), "sounds/steps/w_forward.ogg");
    assert_eq!(Stride::Backward.footstep_sound(), "sounds/steps/s_backward.ogg");
    assert_eq!(Stride::Left.footstep_sound(), "sounds/steps/a_left.ogg");
    assert_eq!(Stride::Right.footstep_sound(), "sounds/steps/d_right.ogg");
}

#[test]
fn finished_count_wraps_at_two_to_the_thirty_two() {
    let mut timer = FootstepsTimer::new(1);
    assert!(!timer.tick(1 << 32));
    assert_eq!(timer.elapsed_nanos, 0);
    let mut timer = FootstepsTimer::new(1);
    assert!(timer.tick((1 << 32) + 1));
    assert_eq!(timer.elapsed_nanos, 0);
}
