//! The movement states, their clips and the rules for passing between them.

use vstd::prelude::*;
use crate::animation::ClipModel;
use crate::animation::Frames;
use crate::animation::SpriteAnimation;
use crate::fixed::Vec2;
use crate::player::Axis;
use crate::player::MovementConfig;
use crate::player::Player;

verus! {

/// What the character is doing. It is in exactly one state at a time.
#[derive(Clone, Copy, PartialEq, Eq, Debug, Structural)]
pub enum State {
    /// Standing still on the ground.
    Idle,
    /// Running on the ground.
    Moving,
    /// Rising after a jump.
    Jumping,
    /// Coming down through the air.
    Falling,
    /// Touching down; lasts a single step.
    Landing,
    /// Slowing down on the ground with no direction held.
    Stopping,
}

impl Default for State {
    /// A character at rest is idle.
    fn default() -> (state: State)
        ensures
            state == State::Idle,
    {
        State::Idle
    }
}

impl State {
    /// The frame timing of the state's clip.
    pub open spec fn clip_frames(self) -> Frames {
        match self {
            State::Idle => Frames::Constant(2, 500_000),
            State::Moving => Frames::Constant(5, 100_000),
            State::Jumping => Frames::Constant(2, 240_000),
            State::Falling => Frames::Constant(2, 240_000),
            State::Landing => Frames::Constant(1, 500_000),
            State::Stopping => Frames::Constant(1, 500_000),
        }
    }

    /// The sheet index at which the state's clip starts.
    pub open spec fn clip_offset(self) -> nat {
        match self {
            State::Idle => 7,
            State::Moving => 2,
            State::Jumping => 0,
            State::Falling => 9,
            State::Landing => 14,
            State::Stopping => 15,
        }
    }

    /// Whether the state's clip starts over after its last frame.
    pub open spec fn clip_loops(self) -> bool {
        match self {
            State::Landing | State::Stopping => false,
            _ => true,
        }
    }

    /// The state's clip, at its beginning.
    pub open spec fn clip(self) -> ClipModel {
        ClipModel::fresh(self.clip_frames().durations(), self.clip_offset(), self.clip_loops())
    }

    /// The vertical velocity that entering the state imposes, if it imposes
    /// one: the take-off speed of a jump, the downward push that ends one.
    pub open spec fn entry_velocity(self, config: MovementConfig) -> Option<i64> {
        match self {
            State::Jumping => Some(config.jump_height),
            State::Falling => Some(config.jump_downforce),
            _ => None,
        }
    }

    /// The animation clip that goes with the state, at its beginning.
    pub fn sprite_animation(&self) -> (clip: SpriteAnimation)
        ensures
            clip@ == self.clip(),
    {
        match self {
            State::Idle => SpriteAnimation::new(Frames::Constant(2, 500_000), 7, true),
            State::Moving => SpriteAnimation::new(Frames::Constant(5, 100_000), 2, true),
            State::Jumping => SpriteAnimation::new(Frames::Constant(2, 240_000), 0, true),
            State::Falling => SpriteAnimation::new(Frames::Constant(2, 240_000), 9, true),
            State::Landing => SpriteAnimation::new(Frames::Constant(1, 500_000), 14, false),
            State::Stopping => SpriteAnimation::new(Frames::Constant(1, 500_000), 15, false),
        }
    }
}

/// The state that the character should pass to, if any. For each state the
/// conditions are tried in the order written, and the first that holds
/// decides; none that follows it is looked at.
pub open spec fn proposed(player: Player, jump_pressed: bool, jump_released: bool) -> Option<
    State,
> {
    let jumps = player.can_jump && jump_pressed;
    let steers = player.input_direction.x != Axis::Neutral;
    match player.state {
        State::Idle => {
            if jumps {
                Some(State::Jumping)
            } else if !player.grounded {
                Some(State::Falling)
            } else if steers {
                Some(State::Moving)
            } else if player.velocity.x != 0 {
                Some(State::Stopping)
            } else {
                None
            }
        },
        State::Moving => {
            if jumps {
                Some(State::Jumping)
            } else if !steers {
                Some(State::Stopping)
            } else {
                None
            }
        },
        State::Stopping => {
            if jumps {
                Some(State::Jumping)
            } else if steers {
                Some(State::Moving)
            } else if player.velocity.x == 0 && player.grounded {
                Some(State::Idle)
            } else {
                None
            }
        },
        State::Falling => {
            if player.grounded {
                Some(State::Landing)
            } else {
                None
            }
        },
        State::Jumping => {
            if player.velocity.y <= 0 || jump_released {
                Some(State::Falling)
            } else {
                None
            }
        },
        State::Landing => {
            if steers {
                Some(State::Moving)
            } else {
                Some(State::Idle)
            }
        },
    }
}

/// The character after a proposal has been taken up: the state it had is
/// remembered, and the proposed state, if there is one, becomes its state.
pub open spec fn committed(player: Player, pending: Option<State>) -> Player {
    Player {
        previous_state: player.state,
        state: match pending {
            Some(next) => next,
            None => player.state,
        },
        ..player
    }
}

/// The character after the entry action of its state: where the state has
/// just changed to one that imposes a vertical velocity, it has that
/// velocity; otherwise nothing has happened.
pub open spec fn entered(player: Player, config: MovementConfig) -> Player {
    if player.state_changed_spec() {
        match player.state.entry_velocity(config) {
            Some(vertical) => Player {
                velocity: Vec2 { x: player.velocity.x, y: vertical },
                ..player
            },
            None => player,
        }
    } else {
        player
    }
}

/// Whether the step on which `player` stands has imposed a vertical velocity.
pub open spec fn entry_fired(player: Player, config: MovementConfig) -> bool {
    player.state_changed_spec() && player.state.entry_velocity(config).is_some()
}

/// Takes up a proposal: remembers the state the character had, and makes the
/// proposed state, if there is one, its state.
pub fn set_state(pending: Option<State>, player: &mut Player)
    ensures
        *final(player) == committed(*old(player), pending),
{
    player.previous_state = player.state;
    match pending {
        Some(next) => {
            player.state = next;
        },
        None => {},
    }
}

/// Performs what leaving a state calls for. No state calls for anything:
/// the character is left as it is.
pub fn exit(player: &mut Player)
    ensures
        *final(player) == *old(player),
{
}

/// Performs what entering a state calls for, on the step on which the state
/// has changed: the state's clip replaces the one in playback, and a jump or
/// a fall sets the vertical velocity. On any other step nothing happens.
pub fn enter(player: &mut Player, animation: &mut SpriteAnimation, config: &MovementConfig)
    ensures
        *final(player) == entered(*old(player), *config),
        old(player).state_changed_spec() ==> final(animation)@ == old(player).state.clip(),
        !old(player).state_changed_spec() ==> *final(animation) == *old(animation),
{
    if !player.state_changed() {
        return ;
    }
    *animation = player.state.sprite_animation();
    match player.state {
        State::Jumping => {
            player.velocity.y = config.jump_height;
        },
        State::Falling => {
            player.velocity.y = config.jump_downforce;
        },
        _ => {},
    }
}

/// No rule proposes the state the character is already in.
pub proof fn lemma_proposal_differs(player: Player, jump_pressed: bool, jump_released: bool)
    ensures
        proposed(player, jump_pressed, jump_released) != Some(player.state),
{
}

/// The rules read the other way round: for each state, exactly when it is
/// the one proposed. A condition that stands later in a state's list counts
/// only where every earlier one fails.
pub proof fn lemma_proposal_conditions(player: Player, jump_pressed: bool, jump_released: bool)
    ensures
        ({
            let from = player.state;
            let jumps = player.can_jump && jump_pressed;
            let steers = player.input_direction.x != Axis::Neutral;
            let next = proposed(player, jump_pressed, jump_released);
            &&& next == Some(State::Jumping) <==> jumps && (from == State::Idle || from
                == State::Moving || from == State::Stopping)
            &&& next == Some(State::Falling) <==> {
                ||| from == State::Idle && !jumps && !player.grounded
                ||| from == State::Jumping && (player.velocity.y <= 0 || jump_released)
            }
            &&& next == Some(State::Landing) <==> from == State::Falling && player.grounded
            &&& next == Some(State::Moving) <==> steers && {
                ||| from == State::Idle && !jumps && player.grounded
                ||| from == State::Stopping && !jumps
                ||| from == State::Landing
            }
            &&& next == Some(State::Stopping) <==> !jumps && !steers && {
                ||| from == State::Idle && player.grounded && player.velocity.x != 0
                ||| from == State::Moving
            }
            &&& next == Some(State::Idle) <==> !steers && {
                ||| from == State::Stopping && !jumps && player.velocity.x == 0 && player.grounded
                ||| from == State::Landing
            }
        }),
{
}

/// Landing lasts one step: it always proposes another state.
pub proof fn lemma_landing_is_transient(player: Player, jump_pressed: bool, jump_released: bool)
    requires
        player.state == State::Landing,
    ensures
        proposed(player, jump_pressed, jump_released).is_some(),
{
}

/// Taking up a proposal for the state the character is in, or no proposal,
/// leaves the state unchanged, so that the entry action that follows does
/// nothing: the velocity stays as it was.
pub proof fn lemma_same_state_is_no_transition(
    player: Player,
    pending: Option<State>,
    config: MovementConfig,
)
    requires
        pending == Some(player.state) || pending is None,
    ensures
        committed(player, pending).previous_state == committed(player, pending).state,
        committed(player, pending).state == player.state,
        !committed(player, pending).state_changed_spec(),
        !entry_fired(committed(player, pending), config),
        entered(committed(player, pending), config) == committed(player, pending),
        entered(committed(player, pending), config).velocity == player.velocity,
{
}

/// Taking up a proposal for another state changes the state, and the entry
/// action that follows imposes exactly the velocity that the new state
/// calls for.
pub proof fn lemma_new_state_is_entered(player: Player, next: State, config: MovementConfig)
    requires
        next != player.state,
    ensures
        committed(player, Some(next)).state == next,
        committed(player, Some(next)).previous_state == player.state,
        committed(player, Some(next)).state_changed_spec(),
        entered(committed(player, Some(next)), config).velocity.x == player.velocity.x,
        entered(committed(player, Some(next)), config).velocity.y == match next.entry_velocity(
            config,
        ) {
            Some(vertical) => vertical,
            None => player.velocity.y,
        },
{
}

} // verus!
