//! The player: where it stands, where it faces, whether it walks, and which
//! frame of its walk cycle is shown.
//!
//! One tick first steers the player by the held inputs and then moves it.
//! A player that walks moves `PLAYER_MOVEMENT_SPEED` along the axis it faces
//! and shows the next frame of the cycle; a player at rest stays where it
//! is and keeps the frame it stopped on.

use crate::direction::Direction;
use crate::geometry::{Point, PointView};
use crate::input::HeldInputs;
use vstd::prelude::*;

verus! {

/// How far a walking player moves in one tick.
pub const PLAYER_MOVEMENT_SPEED: i32 = 5;

/// Number of frames in the walk cycle of each direction.
pub const FRAMES_PER_DIRECTION: i32 = 3;

/// The player as mathematical values.
pub struct PlayerView {
    pub position: PointView,
    pub direction: Direction,
    pub speed: int,
    pub current_frame: int,
}

impl PlayerView {
    /// The player as it starts out: at rest at the origin, facing right, on
    /// the first frame.
    pub open spec fn initial() -> PlayerView {
        PlayerView {
            position: PointView { x: 0, y: 0 },
            direction: Direction::Right,
            speed: 0,
            current_frame: 0,
        }
    }

    /// The position is on the grid, the speed is either zero or the
    /// movement speed, and the frame is one of the walk cycle.
    pub open spec fn valid(self) -> bool {
        &&& self.position.in_range()
        &&& (self.speed == 0 || self.speed == PLAYER_MOVEMENT_SPEED)
        &&& 0 <= self.current_frame < FRAMES_PER_DIRECTION
    }

    /// The player after the held inputs have been taken in: it walks in
    /// the resolved direction, or rests, facing as before, where nothing is
    /// held.
    pub open spec fn steered(self, inputs: HeldInputs) -> PlayerView {
        match inputs.resolved() {
            Some(direction) => PlayerView {
                direction,
                speed: PLAYER_MOVEMENT_SPEED as int,
                ..self
            },
            None => PlayerView { speed: 0, ..self },
        }
    }

    /// The position one tick later: `speed` further along the axis faced,
    /// stopping at the edge of the grid.
    pub open spec fn next_position(self) -> PointView {
        let (dx, dy) = self.direction.unit();
        self.position.offset(dx * self.speed, dy * self.speed)
    }

    /// The frame one tick later: the next of the cycle while walking, the
    /// same at rest.
    pub open spec fn next_frame(self) -> int {
        if self.speed != 0 {
            (self.current_frame + 1) % (FRAMES_PER_DIRECTION as int)
        } else {
            self.current_frame
        }
    }

    /// The player moved by one tick, facing and speed as they are.
    pub open spec fn moved(self) -> PlayerView {
        PlayerView {
            position: self.next_position(),
            current_frame: self.next_frame(),
            ..self
        }
    }

    /// The player one tick later under the given inputs: steered, then moved.
    pub open spec fn advanced(self, inputs: HeldInputs) -> PlayerView {
        self.steered(inputs).moved()
    }

    /// The player after `ticks` ticks with nothing held.
    pub open spec fn rested(self, ticks: nat) -> PlayerView
        decreases ticks,
    {
        if ticks == 0 {
            self
        } else {
            self.rested((ticks - 1) as nat).advanced(
                HeldInputs { up: false, down: false, left: false, right: false },
            )
        }
    }
}

/// The player.
#[derive(Clone, Copy, Debug, PartialEq, Eq, Structural)]
pub struct Player {
    /// Where the player stands.
    pub position: Point,
    /// Where it faces; kept while it rests.
    pub direction: Direction,
    /// Zero at rest, `PLAYER_MOVEMENT_SPEED` while walking.
    pub speed: i32,
    /// The frame of the walk cycle that is shown.
    pub current_frame: i32,
}

impl View for Player {
    type V = PlayerView;

    open spec fn view(&self) -> PlayerView {
        PlayerView {
            position: self.position@,
            direction: self.direction,
            speed: self.speed as int,
            current_frame: self.current_frame as int,
        }
    }
}

impl Player {
    /// What every player that the library hands out satisfies.
    pub open spec fn wf(&self) -> bool {
        self@.valid()
    }

    /// A player at rest at the origin, facing right, on the first frame.
    pub fn new() -> (player: Player)
        ensures
            player.wf(),
            player@ == PlayerView::initial(),
    {
        Player {
            position: Point { x: 0, y: 0 },
            direction: Direction::Right,
            speed: 0,
            current_frame: 0,
        }
    }

    /// Whether the fields hold a player that the library accepts: what
    /// `wf` says, computed.
    pub fn is_valid(&self) -> (ok: bool)
        ensures
            ok == self.wf(),
    {
        self.position.is_valid() && (self.speed == 0 || self.speed == PLAYER_MOVEMENT_SPEED)
            && self.current_frame >= 0
            && self.current_frame < FRAMES_PER_DIRECTION
    }
}

/// Takes in the held inputs: the player walks in the direction they resolve
/// to, or rests where none is held. Position and frame are not touched.
pub fn steer(player: &mut Player, inputs: &HeldInputs)
    requires
        old(player).wf(),
    ensures
        final(player).wf(),
        final(player)@ == old(player)@.steered(*inputs),
{
    match inputs.resolve() {
        Some(direction) => {
            player.speed = PLAYER_MOVEMENT_SPEED;
            player.direction = direction;
        },
        None => {
            player.speed = 0;
        },
    }
}

/// Moves the player by one tick: `speed` along the axis it faces, and one
/// frame further in the walk cycle unless it rests.
pub fn update_player(player: &mut Player)
    requires
        old(player).wf(),
    ensures
        final(player).wf(),
        final(player)@ == old(player)@.moved(),
        old(player).speed == 0 ==> *final(player) == *old(player),
{
    let (dx, dy) = player.direction.unit_vector();
    let speed: i32 = player.speed;
    assert(dx * speed == old(player)@.direction.unit().0 * old(player)@.speed
        && dy * speed == old(player)@.direction.unit().1 * old(player)@.speed
        && -PLAYER_MOVEMENT_SPEED <= dx * speed <= PLAYER_MOVEMENT_SPEED
        && -PLAYER_MOVEMENT_SPEED <= dy * speed <= PLAYER_MOVEMENT_SPEED) by {
        assert(dx == 0 || dx == 1 || dx == -1);
        assert(dy == 0 || dy == 1 || dy == -1);
    }
    player.position = player.position.offset(dx * speed, dy * speed);
    if player.speed != 0 {
        player.current_frame = (player.current_frame + 1) % FRAMES_PER_DIRECTION;
    }
}

/// One tick: steers the player by the held inputs, then moves it.
pub fn advance(player: &mut Player, inputs: &HeldInputs)
    requires
        old(player).wf(),
    ensures
        final(player).wf(),
        final(player)@ == old(player)@.advanced(*inputs),
        final(player).speed != 0 <==> !inputs.idle(),
{
    steer(player, inputs);
    update_player(player);
}

} // verus!
