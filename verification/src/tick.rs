//! One simulation step of a character, from the report of the last sweep to
//! the request for the next.
//!
//! The order is fixed. The character first learns from the last sweep
//! whether it stands on something, where it has got to and whether it ran
//! into a wall. Then the controls are read, the state machine names at most
//! one new state, and that state is taken up: the old state is left and the
//! new one entered. Then the velocity is integrated, first sideways, then
//! downward. Then the clip is
//! played, the sprite's orientation is settled, the bodies that the last
//! sweep touched are kicked, and the next displacement is asked for.

use vstd::prelude::*;
use crate::animation::ClipModel;
use crate::animation::SpriteAnimation;
use crate::fixed::Vec2;
use crate::player::apply_gravity;
use crate::player::check_velocity;
use crate::player::facing;
use crate::player::flip_sprite;
use crate::player::follow_sweep;
use crate::player::gated;
use crate::player::kick_objects;
use crate::player::kick_strength;
use crate::player::kicks;
use crate::player::move_and_slide;
use crate::player::move_around;
use crate::player::moved_around;
use crate::player::pulled_down;
use crate::player::relocated;
use crate::player::requested_displacement;
use crate::player::set_can_jump;
use crate::player::set_input_direction;
use crate::player::state::committed;
use crate::player::state::enter;
use crate::player::state::entered;
use crate::player::state::entry_fired;
use crate::player::state::exit;
use crate::player::state::lemma_proposal_differs;
use crate::player::state::proposed;
use crate::player::state::set_state;
use crate::player::state::State;
use crate::player::steered;
use crate::player::switch_states;
use crate::player::wall_stopped;
use crate::player::MovementConfig;
use crate::player::Player;
use crate::sweep::Impulse;
use crate::sweep::SweepResult;

verus! {

/// What the controls and the clock say on one step.
#[derive(Clone, Copy, PartialEq, Eq, Debug, Structural)]
pub struct TickInput {
    /// The directional control, each axis a fixed-point value from minus one
    /// to one.
    pub axis: Vec2,
    /// The jump control went down on this step.
    pub jump_pressed: bool,
    /// The jump control came up on this step.
    pub jump_released: bool,
    /// Whether the sprite is mirrored at present.
    pub mirrored: bool,
    /// The length of the step in microseconds.
    pub dt: u32,
}

/// What one step hands to the collaborators of the kernel.
#[derive(Debug)]
pub struct TickOutput {
    /// The displacement to ask of the sweep service, in thousandths of an
    /// output unit.
    pub desired_displacement: Vec2,
    /// The sheet index of the frame to draw.
    pub display_index: usize,
    /// Whether to draw the sprite mirrored.
    pub flip_x: bool,
    /// Where to draw the character.
    pub position: Vec2,
    /// The pushes to give to loose bodies.
    pub impulses: Vec<Impulse>,
}

/// The character once it has taken in the report of the last sweep.
pub open spec fn sensed(player: Player, sweep: SweepResult) -> Player {
    wall_stopped(
        relocated(gated(player, sweep.grounded), sweep.achieved_displacement),
        sweep.achieved_displacement,
        sweep.desired_displacement,
    )
}

/// The character once the controls have been read.
pub open spec fn aware(player: Player, input: TickInput, sweep: SweepResult) -> Player {
    steered(sensed(player, sweep), input.axis)
}

/// The state proposed to the character on this step, if any.
pub open spec fn pending(player: Player, input: TickInput, sweep: SweepResult) -> Option<State> {
    proposed(aware(player, input, sweep), input.jump_pressed, input.jump_released)
}

/// The character once the proposal of this step has been taken up.
pub open spec fn decided(player: Player, input: TickInput, sweep: SweepResult) -> Player {
    committed(aware(player, input, sweep), pending(player, input, sweep))
}

/// The character at the end of the step. On the step on which a jump or a
/// fall begins, the vertical velocity is the one that the new state
/// imposes, and gravity leaves it alone until the step after.
pub open spec fn ticked(
    player: Player,
    config: MovementConfig,
    input: TickInput,
    sweep: SweepResult,
) -> Player {
    let chosen = decided(player, input, sweep);
    let moved = moved_around(entered(chosen, config), config, input.dt as int);
    if entry_fired(chosen, config) {
        moved
    } else {
        pulled_down(moved, config, input.dt as int)
    }
}

/// The clip at the end of the step: the clip of the new state at its
/// beginning where the state has changed, else the clip as it was, played
/// for the length of the step.
pub open spec fn played(
    clip: ClipModel,
    player: Player,
    input: TickInput,
    sweep: SweepResult,
) -> ClipModel {
    let chosen = decided(player, input, sweep);
    if chosen.state_changed_spec() {
        chosen.state.clip()
    } else {
        clip.advance(input.dt as nat)
    }
}

/// Runs one step of the character.
pub fn tick(
    player: &mut Player,
    animation: &mut SpriteAnimation,
    config: &MovementConfig,
    kickables: &Vec<u64>,
    input: &TickInput,
    sweep: &SweepResult,
) -> (output: TickOutput)
    ensures
        *final(player) == ticked(*old(player), *config, *input, *sweep),
        final(player).previous_state == old(player).state,
        final(player).state == match pending(*old(player), *input, *sweep) {
            Some(next) => next,
            None => old(player).state,
        },
        final(player).grounded == sweep.grounded,
        final(player).can_jump == sweep.grounded,
        final(animation)@ == played(old(animation)@, *old(player), *input, *sweep),
        output.desired_displacement == requested_displacement(*final(player), input.dt as int),
        output.display_index == final(animation)@.display_index(),
        output.flip_x == facing(*final(player), input.mirrored),
        output.position == final(player).position,
        output.impulses@ == kicks(sweep.contacts@, kickables@, kick_strength()),
{
    set_can_jump(player, sweep.grounded);
    follow_sweep(player, sweep);
    check_velocity(player, sweep);
    set_input_direction(player, input.axis);
    let proposal: Option<State> = switch_states(player, input.jump_pressed, input.jump_released);
    set_state(proposal, player);
    let changed: bool = player.state_changed();
    let imposed: bool = changed && (player.state == State::Jumping || player.state
        == State::Falling);
    exit(player);
    enter(player, animation, config);
    move_around(player, config, input.dt);
    if !imposed {
        apply_gravity(player, config, input.dt);
    }
    if !changed {
        animation.advance_index(input.dt);
    }
    let flip_x: bool = flip_sprite(player, input.mirrored);
    let impulses: Vec<Impulse> = kick_objects(sweep, kickables, kick_strength());
    let desired_displacement: Vec2 = move_and_slide(player, input.dt);
    TickOutput {
        desired_displacement,
        display_index: animation.display_index(),
        flip_x,
        position: player.position,
        impulses,
    }
}

/// Runs one step of the character if the last sweep has reported. Without a
/// report the step is left out as a whole: the character and its clip stay
/// as they are and nothing is handed on.
pub fn tick_if_swept(
    player: &mut Player,
    animation: &mut SpriteAnimation,
    config: &MovementConfig,
    kickables: &Vec<u64>,
    input: &TickInput,
    sweep: Option<&SweepResult>,
) -> (output: Option<TickOutput>)
    ensures
        match sweep {
            None => {
                &&& output is None
                &&& *final(player) == *old(player)
                &&& *final(animation) == *old(animation)
            },
            Some(report) => {
                &&& output matches Some(out)
                &&& *final(player) == ticked(*old(player), *config, *input, *report)
                &&& final(animation)@ == played(old(animation)@, *old(player), *input, *report)
                &&& out.desired_displacement == requested_displacement(
                    *final(player),
                    input.dt as int,
                )
                &&& out.display_index == final(animation)@.display_index()
                &&& out.flip_x == facing(*final(player), input.mirrored)
                &&& out.position == final(player).position
                &&& out.impulses@ == kicks(report.contacts@, kickables@, kick_strength())
            },
        },
{
    match sweep {
        None => None,
        Some(report) => Some(tick(player, animation, config, kickables, input, report)),
    }
}

/// The state at the end of a step is the one that the rules propose for
/// the character as the step finds it, or, where they propose none, the
/// state it had; the state it had is remembered.
pub proof fn lemma_tick_follows_rules(
    player: Player,
    config: MovementConfig,
    input: TickInput,
    sweep: SweepResult,
)
    ensures
        ticked(player, config, input, sweep).previous_state == player.state,
        ticked(player, config, input, sweep).state == match pending(player, input, sweep) {
            Some(next) => next,
            None => player.state,
        },
        aware(player, input, sweep).state == player.state,
        aware(player, input, sweep).grounded == sweep.grounded,
        aware(player, input, sweep).can_jump == sweep.grounded,
        aware(player, input, sweep).input_direction == steered(player, input.axis).input_direction,
        aware(player, input, sweep).velocity == wall_stopped(
            player,
            sweep.achieved_displacement,
            sweep.desired_displacement,
        ).velocity,
{
}

/// On a step without a proposal the state stays, no entry action fires, and
/// the velocity is the old one, stopped by a wall if there was one, after
/// one step sideways and one step of gravity.
pub proof fn lemma_tick_without_transition(
    player: Player,
    config: MovementConfig,
    input: TickInput,
    sweep: SweepResult,
)
    requires
        pending(player, input, sweep) is None,
    ensures
        ticked(player, config, input, sweep).state == player.state,
        ticked(player, config, input, sweep).previous_state == ticked(
            player,
            config,
            input,
            sweep,
        ).state,
        !entry_fired(decided(player, input, sweep), config),
        entered(decided(player, input, sweep), config) == decided(player, input, sweep),
        decided(player, input, sweep).velocity == aware(player, input, sweep).velocity,
        ticked(player, config, input, sweep) == pulled_down(
            moved_around(decided(player, input, sweep), config, input.dt as int),
            config,
            input.dt as int,
        ),
{
}

/// On a step that begins a jump or a fall the vertical velocity at the end
/// of the step is exactly the one that the new state imposes.
pub proof fn lemma_tick_entry_velocity(
    player: Player,
    config: MovementConfig,
    input: TickInput,
    sweep: SweepResult,
)
    ensures
        pending(player, input, sweep) == Some(State::Jumping) ==> ticked(
            player,
            config,
            input,
            sweep,
        ).velocity.y == config.jump_height,
        pending(player, input, sweep) == Some(State::Falling) ==> ticked(
            player,
            config,
            input,
            sweep,
        ).velocity.y == config.jump_downforce,
{
    lemma_proposal_differs(
        aware(player, input, sweep),
        input.jump_pressed,
        input.jump_released,
    );
}

/// Entering a state puts its clip at the beginning; staying in a state
/// never does: the clip is only played on.
pub proof fn lemma_tick_clip(clip: ClipModel, player: Player, input: TickInput, sweep: SweepResult)
    ensures
        pending(player, input, sweep) matches Some(next) ==> {
            &&& played(clip, player, input, sweep) == next.clip()
            &&& played(clip, player, input, sweep).index == 0
            &&& played(clip, player, input, sweep).elapsed == 0
        },
        pending(player, input, sweep) is None ==> played(clip, player, input, sweep)
            == clip.advance(input.dt as nat),
{
    lemma_proposal_differs(
        aware(player, input, sweep),
        input.jump_pressed,
        input.jump_released,
    );
}

/// Whether the character may jump is decided anew on every step by the
/// report of the last sweep alone. A character whose report shows no ground
/// may not jump on this step and does not begin a jump on it.
pub proof fn lemma_tick_ground_gate(
    player: Player,
    config: MovementConfig,
    input: TickInput,
    sweep: SweepResult,
)
    ensures
        ticked(player, config, input, sweep).can_jump == sweep.grounded,
        ticked(player, config, input, sweep).grounded == sweep.grounded,
        !sweep.grounded ==> pending(player, input, sweep) != Some(State::Jumping),
{
}

} // verus!
