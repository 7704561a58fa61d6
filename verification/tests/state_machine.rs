use locomotion::animation::Frames;
use locomotion::animation::SpriteAnimation;
use locomotion::fixed::Vec2;
use locomotion::player::state::enter;
use locomotion::player::state::set_state;
use locomotion::player::state::State;
use locomotion::player::switch_states;
use locomotion::player::Axis;
use locomotion::player::Direction;
use locomotion::player::MovementConfig;
use locomotion::player::Player;

const ALL_STATES: [State; 6] = [
    State::Idle,
    State::Moving,
    State::Jumping,
    State::Falling,
    State::Landing,
    State::Stopping,
];

fn actor(state: State, x: Axis, velocity: Vec2, grounded: bool, can_jump: bool) -> Player {
    Player {
        input_direction: Direction { x, y: Axis::Neutral },
        velocity,
        position: Vec2::zero(),
        state,
        previous_state: state,
        grounded,
        can_jump,
    }
}

fn standing(state: State) -> Player {
    actor(state, Axis::Neutral, Vec2::zero(), true, true)
}

#[test]
fn default_state_is_idle() {
    assert_eq!(State::default(), State::Idle);
}

#[test]
fn idle_clip() {
    let clip = State::Idle.sprite_animation();
    assert!(matches!(clip.frames(), Frames::Constant(2, 500_000)));
    assert_eq!(clip.start_index(), 7);
    assert!(clip.looped());
    assert_eq!((clip.index(), clip.elapsed_in_frame()), (0, 0));
}

#[test]
fn moving_clip() {
    let clip = State::Moving.sprite_animation();
    assert!(matches!(clip.frames(), Frames::Constant(5, 100_000)));
    assert_eq!(clip.start_index(), 2);
    assert!(clip.looped());
    assert_eq!((clip.index(), clip.elapsed_in_frame()), (0, 0));
}

#[test]
fn jumping_clip() {
    let clip = State::Jumping.sprite_animation();
    assert!(matches!(clip.frames(), Frames::Constant(2, 240_000)));
    assert_eq!(clip.start_index(), 0);
    assert!(clip.looped());
    assert_eq!((clip.index(), clip.elapsed_in_frame()), (0, 0));
}

#[test]
fn falling_clip() {
    let clip = State::Falling.sprite_animation();
    assert!(matches!(clip.frames(), Frames::Constant(2, 240_000)));
    assert_eq!(clip.start_index(), 9);
    assert!(clip.looped());
    assert_eq!((clip.index(), clip.elapsed_in_frame()), (0, 0));
}

#[test]
fn landing_clip() {
    let clip = State::Landing.sprite_animation();
    assert!(matches!(clip.frames(), Frames::Constant(1, 500_000)));
    assert_eq!(clip.start_index(), 14);
    assert!(!clip.looped());
    assert_eq!((clip.index(), clip.elapsed_in_frame()), (0, 0));
}

#[test]
fn stopping_clip() {
    let clip = State::Stopping.sprite_animation();
    assert!(matches!(clip.frames(), Frames::Constant(1, 500_000)));
    assert_eq!(clip.start_index(), 15);
    assert!(!clip.looped());
    assert_eq!((clip.index(), clip.elapsed_in_frame()), (0, 0));
}

#[test]
fn idle_jumps_before_anything_else() {
    let airborne = actor(State::Idle, Axis::Positive, Vec2::new(300, 0), false, true);
    assert_eq!(switch_states(&airborne, true, false), Some(State::Jumping));
    assert_eq!(switch_states(&standing(State::Idle), true, true), Some(State::Jumping));
}

#[test]
fn idle_needs_both_permission_and_press_to_jump() {
    let barred = actor(State::Idle, Axis::Neutral, Vec2::zero(), true, false);
    assert_eq!(switch_states(&barred, true, false), None);
    assert_eq!(switch_states(&standing(State::Idle), false, false), None);
}

#[test]
fn idle_falls_without_ground() {
    let airborne = actor(State::Idle, Axis::Positive, Vec2::new(300, 0), false, false);
    assert_eq!(switch_states(&airborne, true, false), Some(State::Falling));
    let no_press = actor(State::Idle, Axis::Neutral, Vec2::zero(), false, true);
    assert_eq!(switch_states(&no_press, false, false), Some(State::Falling));
}

#[test]
fn idle_moves_when_steered() {
    let right = actor(State::Idle, Axis::Positive, Vec2::new(300, 0), true, true);
    assert_eq!(switch_states(&right, false, false), Some(State::Moving));
    let left = actor(State::Idle, Axis::Negative, Vec2::zero(), true, false);
    assert_eq!(switch_states(&left, true, false), Some(State::Moving));
}

#[test]
fn idle_ignores_the_vertical_axis() {
    let mut up = standing(State::Idle);
    up.input_direction.y = Axis::Positive;
    assert_eq!(switch_states(&up, false, false), None);
}

#[test]
fn idle_stops_when_still_sliding() {
    let sliding = actor(State::Idle, Axis::Neutral, Vec2::new(-1, 0), true, true);
    assert_eq!(switch_states(&sliding, false, false), Some(State::Stopping));
    let rising = actor(State::Idle, Axis::Neutral, Vec2::new(0, 500), true, true);
    assert_eq!(switch_states(&rising, false, false), None);
}

#[test]
fn idle_at_rest_stays() {
    assert_eq!(switch_states(&standing(State::Idle), false, true), None);
}

#[test]
fn moving_jumps_first() {
    let running = actor(State::Moving, Axis::Neutral, Vec2::new(6_000, 0), false, true);
    assert_eq!(switch_states(&running, true, false), Some(State::Jumping));
}

#[test]
fn moving_stops_when_let_go() {
    let running = actor(State::Moving, Axis::Neutral, Vec2::new(6_000, 0), true, true);
    assert_eq!(switch_states(&running, false, false), Some(State::Stopping));
    let barred = actor(State::Moving, Axis::Neutral, Vec2::new(6_000, 0), true, false);
    assert_eq!(switch_states(&barred, true, false), Some(State::Stopping));
}

#[test]
fn moving_goes_on_while_steered() {
    let running = actor(State::Moving, Axis::Negative, Vec2::new(-6_000, 0), true, true);
    assert_eq!(switch_states(&running, false, false), None);
    let off_the_edge = actor(State::Moving, Axis::Positive, Vec2::new(6_000, 0), false, false);
    assert_eq!(switch_states(&off_the_edge, true, true), None);
}

#[test]
fn stopping_jumps_first() {
    let slowing = actor(State::Stopping, Axis::Positive, Vec2::zero(), true, true);
    assert_eq!(switch_states(&slowing, true, false), Some(State::Jumping));
}

#[test]
fn stopping_moves_when_steered() {
    let slowing = actor(State::Stopping, Axis::Negative, Vec2::zero(), true, true);
    assert_eq!(switch_states(&slowing, false, false), Some(State::Moving));
}

#[test]
fn stopping_idles_once_at_rest_on_the_ground() {
    let at_rest = actor(State::Stopping, Axis::Neutral, Vec2::new(0, -400), true, true);
    assert_eq!(switch_states(&at_rest, false, false), Some(State::Idle));
}

#[test]
fn stopping_goes_on_while_sliding_or_in_the_air() {
    let sliding = actor(State::Stopping, Axis::Neutral, Vec2::new(101, 0), true, true);
    assert_eq!(switch_states(&sliding, false, false), None);
    let airborne = actor(State::Stopping, Axis::Neutral, Vec2::zero(), false, false);
    assert_eq!(switch_states(&airborne, true, false), None);
}

#[test]
fn falling_lands_on_the_ground() {
    let down = actor(State::Falling, Axis::Positive, Vec2::new(500, -3_000), true, true);
    assert_eq!(switch_states(&down, true, true), Some(State::Landing));
}

#[test]
fn falling_goes_on_in_the_air() {
    let airborne = actor(State::Falling, Axis::Positive, Vec2::new(500, -3_000), false, true);
    assert_eq!(switch_states(&airborne, true, true), None);
}

#[test]
fn jumping_falls_at_the_top() {
    let top = actor(State::Jumping, Axis::Neutral, Vec2::new(0, 0), false, false);
    assert_eq!(switch_states(&top, false, false), Some(State::Falling));
    let sinking = actor(State::Jumping, Axis::Neutral, Vec2::new(0, -1), true, true);
    assert_eq!(switch_states(&sinking, true, false), Some(State::Falling));
}

#[test]
fn jumping_falls_when_the_jump_is_let_go() {
    let rising = actor(State::Jumping, Axis::Neutral, Vec2::new(0, 8_300), false, false);
    assert_eq!(switch_states(&rising, false, true), Some(State::Falling));
}

#[test]
fn jumping_goes_on_while_rising() {
    let rising = actor(State::Jumping, Axis::Positive, Vec2::new(0, 1), true, true);
    assert_eq!(switch_states(&rising, true, false), None);
}

#[test]
fn landing_turns_idle() {
    let landed = actor(State::Landing, Axis::Neutral, Vec2::new(900, -50), false, true);
    assert_eq!(switch_states(&landed, true, true), Some(State::Idle));
}

#[test]
fn landing_turns_moving_when_steered() {
    let landed = actor(State::Landing, Axis::Negative, Vec2::zero(), true, true);
    assert_eq!(switch_states(&landed, true, false), Some(State::Moving));
}

#[test]
fn no_rule_proposes_the_present_state() {
    for state in ALL_STATES {
        for x in [Axis::Negative, Axis::Neutral, Axis::Positive] {
            for velocity in [Vec2::zero(), Vec2::new(250, 700), Vec2::new(-250, -700)] {
                for bits in 0..16 {
                    let player = actor(state, x, velocity, bits & 1 != 0, bits & 2 != 0);
                    let pending = switch_states(&player, bits & 4 != 0, bits & 8 != 0);
                    assert_ne!(pending, Some(state));
                }
            }
        }
    }
}

#[test]
fn no_jump_is_proposed_without_permission() {
    for state in ALL_STATES {
        for x in [Axis::Negative, Axis::Neutral, Axis::Positive] {
            for grounded in [false, true] {
                let player = actor(state, x, Vec2::new(10, 10), grounded, false);
                assert_ne!(switch_states(&player, true, false), Some(State::Jumping));
            }
        }
    }
}

#[test]
fn taking_up_a_new_state_remembers_the_old_one() {
    let mut player = standing(State::Idle);
    player.previous_state = State::Landing;
    set_state(Some(State::Moving), &mut player);
    assert_eq!(player.state, State::Moving);
    assert_eq!(player.previous_state, State::Idle);
    assert!(player.state_changed());
}

#[test]
fn taking_up_nothing_keeps_the_state() {
    let mut player = standing(State::Moving);
    player.previous_state = State::Idle;
    let before = player;
    set_state(None, &mut player);
    assert_eq!(player.state, State::Moving);
    assert_eq!(player.previous_state, State::Moving);
    assert!(!player.state_changed());
    assert_eq!(player.velocity, before.velocity);
    assert_eq!(player.input_direction, before.input_direction);
}

#[test]
fn taking_up_the_present_state_is_no_transition() {
    let config = MovementConfig::default();
    let mut player = actor(State::Jumping, Axis::Neutral, Vec2::new(40, 3_000), false, false);
    player.previous_state = State::Idle;
    let mut clip = State::Jumping.sprite_animation();
    clip.advance_index(240_000);
    clip.advance_index(1_000);
    set_state(Some(State::Jumping), &mut player);
    assert_eq!(player.previous_state, player.state);
    assert!(!player.state_changed());
    enter(&mut player, &mut clip, &config);
    assert_eq!(player.velocity, Vec2::new(40, 3_000));
    assert_eq!((clip.index(), clip.elapsed_in_frame()), (1, 1_000));
}

#[test]
fn entering_a_jump_sets_the_takeoff_velocity() {
    let config = MovementConfig::default();
    let mut player = actor(State::Idle, Axis::Positive, Vec2::new(700, -400), true, true);
    let mut clip = State::Idle.sprite_animation();
    clip.advance_index(500_000);
    set_state(Some(State::Jumping), &mut player);
    enter(&mut player, &mut clip, &config);
    assert_eq!(player.velocity, Vec2::new(700, 9_000));
    assert_eq!(clip.start_index(), 0);
    assert_eq!((clip.index(), clip.elapsed_in_frame()), (0, 0));
}

#[test]
fn entering_a_fall_sets_the_downward_velocity() {
    let config = MovementConfig::default();
    let mut player = actor(State::Jumping, Axis::Neutral, Vec2::new(-700, 5_000), false, false);
    let mut clip = State::Jumping.sprite_animation();
    set_state(Some(State::Falling), &mut player);
    enter(&mut player, &mut clip, &config);
    assert_eq!(player.velocity, Vec2::new(-700, -1_000));
    assert_eq!(clip.start_index(), 9);
}

#[test]
fn entry_velocities_come_from_the_configuration() {
    let config = MovementConfig { jump_height: 4_321, jump_downforce: -77, ..MovementConfig::default() };
    let mut jumper = standing(State::Moving);
    let mut clip = State::Moving.sprite_animation();
    set_state(Some(State::Jumping), &mut jumper);
    enter(&mut jumper, &mut clip, &config);
    assert_eq!(jumper.velocity.y, 4_321);
    set_state(Some(State::Falling), &mut jumper);
    enter(&mut jumper, &mut clip, &config);
    assert_eq!(jumper.velocity.y, -77);
}

#[test]
fn entering_any_other_state_leaves_the_velocity() {
    let config = MovementConfig::default();
    for next in [State::Idle, State::Moving, State::Landing, State::Stopping] {
        let mut player = actor(State::Falling, Axis::Neutral, Vec2::new(123, -456), true, true);
        let mut clip = State::Falling.sprite_animation();
        clip.advance_index(240_000);
        set_state(Some(next), &mut player);
        enter(&mut player, &mut clip, &config);
        assert_eq!(player.velocity, Vec2::new(123, -456));
        assert_eq!(clip.start_index(), next.sprite_animation().start_index());
        assert_eq!((clip.index(), clip.elapsed_in_frame()), (0, 0));
    }
}

#[test]
fn entering_replaces_a_clip_of_ones_own() {
    let config = MovementConfig::default();
    let mut player = standing(State::Idle);
    let mut clip = SpriteAnimation::new(Frames::Constant(2, 100_000), 7, true);
    clip.advance_index(100_000);
    set_state(Some(State::Moving), &mut player);
    enter(&mut player, &mut clip, &config);
    assert!(matches!(clip.frames(), Frames::Constant(5, 100_000)));
    assert_eq!(clip.start_index(), 2);
    assert_eq!(clip.index(), 0);
}

#[test]
fn entering_without_a_change_does_nothing() {
    let config = MovementConfig::default();
    for state in ALL_STATES {
        let mut player = actor(state, Axis::Positive, Vec2::new(5, 6), true, true);
        let mut clip = SpriteAnimation::new(Frames::Variable(vec![10, 20]), 3, true);
        clip.advance_index(10);
        clip.advance_index(4);
        let before = player;
        enter(&mut player, &mut clip, &config);
        assert_eq!(player, before);
        assert_eq!(clip.start_index(), 3);
        assert_eq!((clip.index(), clip.elapsed_in_frame()), (1, 4));
    }
}

#[test]
fn leaving_a_state_does_nothing() {
    for state in ALL_STATES {
        let mut player = actor(state, Axis::Negative, Vec2::new(-5, 6), false, true);
        player.previous_state = State::Jumping;
        let before = player;
        locomotion::player::state::exit(&mut player);
        assert_eq!(player, before);
    }
}
