//! The character: what it is made of, and the steps that move it.
//!
//! Each step of the kernel is a small function of its own, and beside it
//! stands a `spec` function that says what the character is afterwards. The
//! steps are put in order in the module that runs a whole simulation step.

use vstd::prelude::*;
use crate::fixed::approach;
use crate::fixed::approach_toward;
use crate::fixed::lemma_approach_between;
use crate::fixed::magnitude;
use crate::fixed::travel;
use crate::fixed::travelled;
use crate::fixed::Vec2;
use crate::player::state::proposed;
use crate::player::state::State;
use crate::sweep::Contact;
use crate::sweep::Impulse;
use crate::sweep::SweepResult;

pub mod state;

verus! {

/// Half of the quantity one: the least magnitude that rounds away from zero.
pub const HALF_UNIT: i64 = 500;

/// A character that is stopping and slower than this is brought to rest.
pub const STOPPING_DEADZONE: i64 = 100;

/// Output units of displacement per unit of distance.
pub const PIXELS_PER_UNIT: u16 = 60;

/// The position of one axis of the directional control.
#[derive(Clone, Copy, PartialEq, Eq, Debug, Structural)]
pub enum Axis {
    /// Held toward the negative end: left, or down.
    Negative,
    /// Let go.
    Neutral,
    /// Held toward the positive end: right, or up.
    Positive,
}

impl Axis {
    /// The position nearest to a fixed-point reading; a reading half-way
    /// counts as held.
    pub open spec fn rounded(value: int) -> Axis {
        if value >= HALF_UNIT {
            Axis::Positive
        } else if value <= -HALF_UNIT {
            Axis::Negative
        } else {
            Axis::Neutral
        }
    }

    /// The velocity aimed at when the axis is held and `speed` is the
    /// character's speed.
    pub open spec fn aimed(self, speed: int) -> int {
        match self {
            Axis::Negative => -speed,
            Axis::Neutral => 0,
            Axis::Positive => speed,
        }
    }

    /// Rounds a fixed-point reading of the axis to the nearest position.
    pub fn from_fixed(value: i64) -> (axis: Axis)
        ensures
            axis == Axis::rounded(value as int),
    {
        if value >= HALF_UNIT {
            Axis::Positive
        } else if value <= -HALF_UNIT {
            Axis::Negative
        } else {
            Axis::Neutral
        }
    }

    /// The velocity aimed at when the axis is held and `speed` is the
    /// character's speed.
    pub fn aim(&self, speed: u32) -> (target: i64)
        ensures
            target == self.aimed(speed as int),
    {
        match self {
            Axis::Negative => -(speed as i64),
            Axis::Neutral => 0,
            Axis::Positive => speed as i64,
        }
    }
}

/// The position of the directional control.
#[derive(Clone, Copy, PartialEq, Eq, Debug, Structural)]
pub struct Direction {
    pub x: Axis,
    pub y: Axis,
}

/// The constants of a kind of character. Velocities are in thousandths of a
/// unit per second, rates in thousandths per second.
#[derive(Clone, Copy, PartialEq, Eq, Debug, Structural)]
pub struct MovementConfig {
    /// The vertical velocity that a body in the air tends to.
    pub gravity: i64,
    /// The horizontal speed that a held direction aims at.
    pub speed: u32,
    /// The rate at which the horizontal velocity nears its aim on the ground.
    pub acceleration: u32,
    /// The rate at which the horizontal velocity nears its aim in the air.
    pub air_acceleration: u32,
    /// The rate at which a stopping character loses its horizontal velocity.
    pub stopping_speed: u32,
    /// The vertical velocity with which a jump takes off.
    pub jump_height: i64,
    /// The vertical velocity given to a character that begins to fall.
    pub jump_downforce: i64,
    /// The rate at which the vertical velocity nears `gravity`.
    pub fall_acceleration: u32,
}

impl MovementConfig {
    /// The constants of the player character.
    pub open spec fn standard() -> MovementConfig {
        MovementConfig {
            gravity: (-12_000) as i64,
            speed: 6_000,
            acceleration: 6_000,
            air_acceleration: 500,
            stopping_speed: 6_000,
            jump_height: 9_000,
            jump_downforce: (-1_000) as i64,
            fall_acceleration: 2_000,
        }
    }
}

impl Default for MovementConfig {
    /// The constants of the player character.
    fn default() -> (config: MovementConfig)
        ensures
            config == MovementConfig::standard(),
    {
        MovementConfig {
            gravity: Player::gravity(),
            speed: Player::speed(),
            acceleration: Player::acceleration(),
            air_acceleration: Player::air_acceleration(),
            stopping_speed: Player::stopping_speed(),
            jump_height: Player::jump_height(),
            jump_downforce: Player::jump_downforce(),
            fall_acceleration: Player::fall_acceleration(),
        }
    }
}

/// A character.
#[derive(Clone, Copy, PartialEq, Eq, Debug, Structural)]
pub struct Player {
    /// Where the directional control was held when it was last read.
    pub input_direction: Direction,
    /// How fast the character moves.
    pub velocity: Vec2,
    /// Where the character is, in output units.
    pub position: Vec2,
    /// What the character is doing.
    pub state: State,
    /// What the character was doing when its state was last taken up.
    pub previous_state: State,
    /// Whether the last sweep found the character standing on something.
    pub grounded: bool,
    /// Whether the character may jump.
    pub can_jump: bool,
}

impl Default for Player {
    /// A character at rest at the origin, in the air until a sweep says
    /// otherwise.
    fn default() -> (player: Player)
        ensures
            player == Player::at_rest(),
    {
        Player {
            input_direction: Direction { x: Axis::Neutral, y: Axis::Neutral },
            velocity: Vec2 { x: 0, y: 0 },
            position: Vec2 { x: 0, y: 0 },
            state: State::Idle,
            previous_state: State::Idle,
            grounded: false,
            can_jump: false,
        }
    }
}

impl Player {
    /// A character at rest at the origin.
    pub open spec fn at_rest() -> Player {
        Player {
            input_direction: Direction { x: Axis::Neutral, y: Axis::Neutral },
            velocity: Vec2 { x: 0, y: 0 },
            position: Vec2 { x: 0, y: 0 },
            state: State::Idle,
            previous_state: State::Idle,
            grounded: false,
            can_jump: false,
        }
    }

    /// The vertical velocity that the player character tends to in the air.
    pub fn gravity() -> (v: i64)
        ensures
            v == MovementConfig::standard().gravity,
    {
        -12_000
    }

    /// The player character's running speed.
    pub fn speed() -> (v: u32)
        ensures
            v == MovementConfig::standard().speed,
    {
        6_000
    }

    /// The player character's acceleration on the ground.
    pub fn acceleration() -> (rate: u32)
        ensures
            rate == MovementConfig::standard().acceleration,
    {
        6_000
    }

    /// The player character's acceleration in the air.
    pub fn air_acceleration() -> (rate: u32)
        ensures
            rate == MovementConfig::standard().air_acceleration,
    {
        500
    }

    /// The rate at which the player character comes to a stop.
    pub fn stopping_speed() -> (rate: u32)
        ensures
            rate == MovementConfig::standard().stopping_speed,
    {
        6_000
    }

    /// The vertical velocity with which the player character takes off.
    pub fn jump_height() -> (v: i64)
        ensures
            v == MovementConfig::standard().jump_height,
    {
        9_000
    }

    /// The vertical velocity given to the player character when it begins to
    /// fall.
    pub fn jump_downforce() -> (v: i64)
        ensures
            v == MovementConfig::standard().jump_downforce,
    {
        -1_000
    }

    /// The rate at which the player character's fall gathers speed.
    pub fn fall_acceleration() -> (rate: u32)
        ensures
            rate == MovementConfig::standard().fall_acceleration,
    {
        2_000
    }

    /// Whether the state differs from the one that was remembered when the
    /// state was last taken up.
    pub open spec fn state_changed_spec(&self) -> bool {
        self.previous_state != self.state
    }

    /// Whether the state has changed on this step.
    #[verifier::when_used_as_spec(state_changed_spec)]
    pub fn state_changed(&self) -> (changed: bool)
        ensures
            changed == self.state_changed_spec(),
    {
        !(self.previous_state == self.state)
    }
}

/// The character once it has learnt whether it stands on something: it may
/// jump exactly if it does.
pub open spec fn gated(player: Player, grounded: bool) -> Player {
    Player { grounded, can_jump: grounded, ..player }
}

/// The character once the directional control has been read.
pub open spec fn steered(player: Player, axis: Vec2) -> Player {
    Player {
        input_direction: Direction {
            x: Axis::rounded(axis.x as int),
            y: Axis::rounded(axis.y as int),
        },
        ..player
    }
}

/// The character once a sweep has moved it.
pub open spec fn relocated(player: Player, achieved: Vec2) -> Player {
    Player { position: player.position.plus(achieved), ..player }
}

/// The character once it has learnt how its last displacement went: where
/// it asked to move sideways and did not move sideways at all, it has lost
/// its horizontal velocity.
pub open spec fn wall_stopped(player: Player, achieved: Vec2, desired: Vec2) -> Player {
    if achieved.x != desired.x && achieved.x == 0 {
        Player { velocity: Vec2 { x: 0, y: player.velocity.y }, ..player }
    } else {
        player
    }
}

/// A horizontal velocity, brought to rest if it is within the dead zone.
pub open spec fn settled(velocity: int) -> int {
    if magnitude(velocity) < STOPPING_DEADZONE {
        0
    } else {
        velocity
    }
}

/// The horizontal velocity after `dt` microseconds in the character's
/// state: nearing the aimed speed while moving, jumping or falling, nearing
/// rest while stopping, and kept as it is while idle or landing.
pub open spec fn next_horizontal(player: Player, config: MovementConfig, dt: int) -> int {
    let v = player.velocity.x as int;
    let aim = player.input_direction.x.aimed(config.speed as int);
    match player.state {
        State::Moving => approach(v, aim, config.acceleration as int, dt),
        State::Jumping | State::Falling => approach(v, aim, config.air_acceleration as int, dt),
        State::Stopping => settled(approach(v, 0, config.stopping_speed as int, dt)),
        State::Idle | State::Landing => v,
    }
}

/// The character after `dt` microseconds of horizontal movement.
pub open spec fn moved_around(player: Player, config: MovementConfig, dt: int) -> Player {
    Player {
        velocity: Vec2 { x: next_horizontal(player, config, dt) as i64, y: player.velocity.y },
        ..player
    }
}

/// The vertical velocity after `dt` microseconds of gravity.
pub open spec fn next_vertical(player: Player, config: MovementConfig, dt: int) -> int {
    approach(
        player.velocity.y as int,
        config.gravity as int,
        config.fall_acceleration as int,
        dt,
    )
}

/// The character after `dt` microseconds of gravity.
pub open spec fn pulled_down(player: Player, config: MovementConfig, dt: int) -> Player {
    Player {
        velocity: Vec2 { x: player.velocity.x, y: next_vertical(player, config, dt) as i64 },
        ..player
    }
}

/// Whether the sprite is to be mirrored, given whether it is now: a
/// character that is not idle and moves sideways is mirrored exactly if it
/// moves in the positive direction; any other keeps its orientation.
pub open spec fn facing(player: Player, mirrored: bool) -> bool {
    if player.state == State::Idle || player.velocity.x == 0 {
        mirrored
    } else {
        player.velocity.x > 0
    }
}

/// The displacement that the character asks for over `dt` microseconds.
pub open spec fn requested_displacement(player: Player, dt: int) -> Vec2 {
    Vec2 {
        x: travelled(player.velocity.x as int, dt, PIXELS_PER_UNIT as int) as i64,
        y: travelled(player.velocity.y as int, dt, PIXELS_PER_UNIT as int) as i64,
    }
}

/// The push that a contact calls for: none unless the body touched is one of
/// `kickables`, else the contact normal scaled component by component by
/// `strength`.
pub open spec fn kick_of(contact: Contact, kickables: Seq<u64>, strength: Vec2) -> Option<
    Impulse,
> {
    if kickables.contains(contact.entity) {
        Some(Impulse { entity: contact.entity, impulse: contact.normal.scaled_by(strength) })
    } else {
        None
    }
}

/// The rule `kick_of` for given bodies and strength.
pub open spec fn kick_rule(kickables: Seq<u64>, strength: Vec2) -> spec_fn(Contact) -> Option<
    Impulse,
> {
    |contact: Contact| kick_of(contact, kickables, strength)
}

/// The pushes that a run of contacts calls for: one for each contact with
/// one of `kickables`, in the order of the contacts. Contacts with the same
/// body are not added up.
pub open spec fn kicks(contacts: Seq<Contact>, kickables: Seq<u64>, strength: Vec2) -> Seq<
    Impulse,
> {
    contacts.filter_map(kick_rule(kickables, strength))
}

/// The strength with which the player character kicks loose bodies: two
/// hundred against the contact normal on either axis.
pub open spec fn standard_kick() -> Vec2 {
    Vec2 { x: (-200_000) as i64, y: (-200_000) as i64 }
}

/// The strength with which the player character kicks loose bodies.
#[verifier::when_used_as_spec(standard_kick)]
pub fn kick_strength() -> (strength: Vec2)
    ensures
        strength == standard_kick(),
{
    Vec2 { x: -200_000, y: -200_000 }
}

/// Tells the character whether the last sweep found it on the ground. It may
/// jump exactly if it did.
pub fn set_can_jump(player: &mut Player, grounded: bool)
    ensures
        *final(player) == gated(*old(player), grounded),
        final(player).can_jump == grounded,
{
    player.grounded = grounded;
    player.can_jump = grounded;
}

/// Reads the directional control, given as a fixed-point pair, and keeps
/// the nearest position of each axis.
pub fn set_input_direction(player: &mut Player, axis: Vec2)
    ensures
        *final(player) == steered(*old(player), axis),
{
    player.input_direction = Direction { x: Axis::from_fixed(axis.x), y: Axis::from_fixed(axis.y) };
}

/// Moves the character's position by what the last sweep achieved.
pub fn follow_sweep(player: &mut Player, sweep: &SweepResult)
    ensures
        *final(player) == relocated(*old(player), sweep.achieved_displacement),
{
    player.position = player.position.add_saturating(sweep.achieved_displacement);
}

/// Stops the character's horizontal movement where the last sweep shows
/// that it ran into something.
pub fn check_velocity(player: &mut Player, sweep: &SweepResult)
    ensures
        *final(player) == wall_stopped(
            *old(player),
            sweep.achieved_displacement,
            sweep.desired_displacement,
        ),
{
    if sweep.achieved_displacement.x == sweep.desired_displacement.x {
        return ;
    }
    if sweep.achieved_displacement.x == 0 {
        player.velocity.x = 0;
    }
}

/// Names the state that the character should pass to, if any.
pub fn switch_states(player: &Player, jump_pressed: bool, jump_released: bool) -> (pending: Option<
    State,
>)
    ensures
        pending == proposed(*player, jump_pressed, jump_released),
{
    let steers: bool = !(player.input_direction.x == Axis::Neutral);
    match player.state {
        State::Idle => {
            if player.can_jump && jump_pressed {
                Some(State::Jumping)
            } else if !player.grounded {
                Some(State::Falling)
            } else if steers {
                Some(State::Moving)
            } else if player.velocity.x != 0 {
                Some(State::Stopping)
            } else {
                None
            }
        },
        State::Stopping => {
            if player.can_jump && jump_pressed {
                Some(State::Jumping)
            } else if steers {
                Some(State::Moving)
            } else if player.velocity.x == 0 && player.grounded {
                Some(State::Idle)
            } else {
                None
            }
        },
        State::Falling => {
            if player.grounded {
                Some(State::Landing)
            } else {
                None
            }
        },
        State::Jumping => {
            if player.velocity.y <= 0 || jump_released {
                Some(State::Falling)
            } else {
                None
            }
        },
        State::Landing => {
            if steers {
                Some(State::Moving)
            } else {
                Some(State::Idle)
            }
        },
        State::Moving => {
            if player.can_jump && jump_pressed {
                Some(State::Jumping)
            } else if !steers {
                Some(State::Stopping)
            } else {
                None
            }
        },
    }
}

/// Lets `dt` microseconds of horizontal movement pass.
pub fn move_around(player: &mut Player, config: &MovementConfig, dt: u32)
    ensures
        *final(player) == moved_around(*old(player), *config, dt as int),
        final(player).velocity.x == next_horizontal(*old(player), *config, dt as int),
        old(player).state == State::Stopping && magnitude(old(player).velocity.x as int)
            < STOPPING_DEADZONE ==> final(player).velocity.x == 0,
{
    proof {
        lemma_approach_between(player.velocity.x as int, 0, config.stopping_speed as int, dt as int);
    }
    let aim: i64 = player.input_direction.x.aim(config.speed);
    match player.state {
        State::Moving => {
            player.velocity.x = approach_toward(player.velocity.x, aim, config.acceleration, dt);
        },
        State::Falling | State::Jumping => {
            player.velocity.x = approach_toward(
                player.velocity.x,
                aim,
                config.air_acceleration,
                dt,
            );
        },
        State::Stopping => {
            let slowed: i64 = approach_toward(player.velocity.x, 0, config.stopping_speed, dt);
            if -STOPPING_DEADZONE < slowed && slowed < STOPPING_DEADZONE {
                player.velocity.x = 0;
            } else {
                player.velocity.x = slowed;
            }
        },
        State::Idle => {},
        State::Landing => {},
    }
}

/// Lets `dt` microseconds of gravity pass.
pub fn apply_gravity(player: &mut Player, config: &MovementConfig, dt: u32)
    ensures
        *final(player) == pulled_down(*old(player), *config, dt as int),
        final(player).velocity.y == next_vertical(*old(player), *config, dt as int),
{
    player.velocity.y = approach_toward(
        player.velocity.y,
        config.gravity,
        config.fall_acceleration,
        dt,
    );
}

/// Says whether the sprite is to be mirrored, given whether it is now.
pub fn flip_sprite(player: &Player, mirrored: bool) -> (flip_x: bool)
    ensures
        flip_x == facing(*player, mirrored),
{
    match player.state {
        State::Idle => mirrored,
        _ => {
            if player.velocity.x == 0 {
                mirrored
            } else {
                player.velocity.x > 0
            }
        },
    }
}

/// Names the displacement that the character asks for over `dt`
/// microseconds, in thousandths of an output unit.
pub fn move_and_slide(player: &Player, dt: u32) -> (displacement: Vec2)
    ensures
        displacement == requested_displacement(*player, dt as int),
{
    Vec2 {
        x: travel(player.velocity.x, dt, PIXELS_PER_UNIT),
        y: travel(player.velocity.y, dt, PIXELS_PER_UNIT),
    }
}

/// Names the push that one contact calls for, if it calls for one.
pub fn kick(contact: Contact, kickables: &Vec<u64>, strength: Vec2) -> (impulse: Option<Impulse>)
    ensures
        impulse == kick_of(contact, kickables@, strength),
{
    if is_kickable(kickables, contact.entity) {
        Some(Impulse { entity: contact.entity, impulse: contact.normal.scale(strength) })
    } else {
        None
    }
}

/// Whether `entity` is one of `kickables`.
pub fn is_kickable(kickables: &Vec<u64>, entity: u64) -> (found: bool)
    ensures
        found == kickables@.contains(entity),
{
    let mut i: usize = 0;
    while i < kickables.len()
        invariant
            i <= kickables.len(),
            forall|j: int| 0 <= j < i ==> kickables@[j] != entity,
        decreases kickables.len() - i,
    {
        if kickables[i] == entity {
            return true;
        }
        i += 1;
    }
    false
}

/// Names the pushes that the last sweep calls for: one for each of its
/// contacts with one of `kickables`, in the order of the contacts.
pub fn kick_objects(sweep: &SweepResult, kickables: &Vec<u64>, strength: Vec2) -> (impulses: Vec<
    Impulse,
>)
    ensures
        impulses@ == kicks(sweep.contacts@, kickables@, strength),
{
    let ghost rule = kick_rule(kickables@, strength);
    let mut impulses: Vec<Impulse> = Vec::new();
    let mut i: usize = 0;
    assert(sweep.contacts@.take(0).filter_map(rule) =~= Seq::<Impulse>::empty());
    while i < sweep.contacts.len()
        invariant
            i <= sweep.contacts.len(),
            rule == kick_rule(kickables@, strength),
            impulses@ == sweep.contacts@.take(i as int).filter_map(rule),
        decreases sweep.contacts.len() - i,
    {
        proof {
            sweep.contacts@.lemma_filter_map_take_succ(rule, i as int);
        }
        match kick(sweep.contacts[i], kickables, strength) {
            Some(impulse) => {
                impulses.push(impulse);
            },
            None => {},
        }
        i += 1;
    }
    assert(sweep.contacts@.take(i as int) =~= sweep.contacts@);
    impulses
}

/// No contacts call for no pushes.
pub proof fn lemma_kicks_none(kickables: Seq<u64>, strength: Vec2)
    ensures
        kicks(Seq::<Contact>::empty(), kickables, strength) == Seq::<Impulse>::empty(),
{
}

/// One more contact calls for one more push, after all the others, if the
/// body touched is one of `kickables`, and for nothing more if it is not.
pub proof fn lemma_kicks_one_more(
    contacts: Seq<Contact>,
    last: Contact,
    kickables: Seq<u64>,
    strength: Vec2,
)
    ensures
        kicks(contacts.push(last), kickables, strength) == match kick_of(
            last,
            kickables,
            strength,
        ) {
            Some(impulse) => kicks(contacts, kickables, strength).push(impulse),
            None => kicks(contacts, kickables, strength),
        },
{
    let all = contacts.push(last);
    let rule = kick_rule(kickables, strength);
    assert(all.drop_last() =~= contacts);
    assert(all.last() == last);
    assert(all.filter_map(rule) =~= match rule(last) {
        Some(impulse) => contacts.filter_map(rule).push(impulse),
        None => contacts.filter_map(rule),
    });
}

/// A stopping character that is already within the dead zone is at rest
/// after one step, however long or short the step.
pub proof fn lemma_stopping_deadzone(player: Player, config: MovementConfig, dt: int)
    requires
        player.state == State::Stopping,
        magnitude(player.velocity.x as int) < STOPPING_DEADZONE,
        0 <= dt,
    ensures
        next_horizontal(player, config, dt) == 0,
        moved_around(player, config, dt).velocity.x == 0,
{
    lemma_approach_between(player.velocity.x as int, 0, config.stopping_speed as int, dt);
}

/// A stopping character is, after a step, either at rest or outside the dead
/// zone, and it never moves faster than before nor the other way.
pub proof fn lemma_stopping_slows(player: Player, config: MovementConfig, dt: int)
    requires
        player.state == State::Stopping,
        0 <= dt,
    ensures
        next_horizontal(player, config, dt) == 0 || magnitude(
            next_horizontal(player, config, dt),
        ) >= STOPPING_DEADZONE,
        magnitude(next_horizontal(player, config, dt)) <= magnitude(player.velocity.x as int),
        player.velocity.x >= 0 ==> next_horizontal(player, config, dt) >= 0,
        player.velocity.x <= 0 ==> next_horizontal(player, config, dt) <= 0,
{
    lemma_approach_between(player.velocity.x as int, 0, config.stopping_speed as int, dt);
}

/// The horizontal velocity after a step lies between the velocity before
/// and the velocity aimed at (rest, for a stopping character); where they
/// coincide it does not change. While idle or landing it is kept.
pub proof fn lemma_horizontal_bounds(player: Player, config: MovementConfig, dt: int)
    requires
        0 <= dt,
    ensures
        ({
            let v = player.velocity.x as int;
            let aim = match player.state {
                State::Moving | State::Jumping | State::Falling => player.input_direction.x.aimed(
                    config.speed as int,
                ),
                State::Stopping => 0,
                State::Idle | State::Landing => v,
            };
            let next = next_horizontal(player, config, dt);
            &&& v <= aim ==> v <= next <= aim
            &&& aim <= v ==> aim <= next <= v
        }),
        i64::MIN <= next_horizontal(player, config, dt) <= i64::MAX,
{
    let v = player.velocity.x as int;
    let aim = player.input_direction.x.aimed(config.speed as int);
    lemma_approach_between(v, aim, config.acceleration as int, dt);
    lemma_approach_between(v, aim, config.air_acceleration as int, dt);
    lemma_approach_between(v, 0, config.stopping_speed as int, dt);
}

/// The vertical velocity after a step lies between the velocity before and
/// the velocity that gravity tends to.
pub proof fn lemma_vertical_bounds(player: Player, config: MovementConfig, dt: int)
    requires
        0 <= dt,
    ensures
        player.velocity.y <= config.gravity ==> player.velocity.y <= next_vertical(
            player,
            config,
            dt,
        ) <= config.gravity,
        config.gravity <= player.velocity.y ==> config.gravity <= next_vertical(player, config, dt)
            <= player.velocity.y,
{
    lemma_approach_between(
        player.velocity.y as int,
        config.gravity as int,
        config.fall_acceleration as int,
        dt,
    );
}

/// A character whose sweep reports no ground may not jump, and no rule
/// proposes a jump to it, whatever is pressed.
pub proof fn lemma_airborne_cannot_jump(player: Player, jump_pressed: bool, jump_released: bool)
    ensures
        !gated(player, false).can_jump,
        proposed(gated(player, false), jump_pressed, jump_released) != Some(State::Jumping),
{
}

} // verus!
