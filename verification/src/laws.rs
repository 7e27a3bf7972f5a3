//! What holds of every tick, proved over the mathematical player.

use crate::direction::Direction;
use crate::geometry::{in_position_range, PointView};
use crate::input::{priority, priority_order, HeldInputs};
use crate::player::{PlayerView, FRAMES_PER_DIRECTION, PLAYER_MOVEMENT_SPEED};
use vstd::prelude::*;

verus! {

/// A tick keeps a valid player valid, whatever is held.
pub proof fn advance_preserves_validity(player: PlayerView, inputs: HeldInputs)
    requires
        player.valid(),
    ensures
        player.steered(inputs).valid(),
        player.moved().valid(),
        player.advanced(inputs).valid(),
{
}

/// A player at rest is not changed by moving it: neither its position nor
/// its frame, whichever way it faces.
pub proof fn rest_moves_nothing(player: PlayerView)
    requires
        player.valid(),
        player.speed == 0,
    ensures
        player.moved() == player,
{
    let (dx, dy) = player.direction.unit();
    assert(dx * player.speed == 0 && dy * player.speed == 0);
}

/// A tick with nothing held leaves position, facing and frame as they
/// were, and the player at rest.
pub proof fn idle_tick_keeps_place(player: PlayerView, inputs: HeldInputs)
    requires
        player.valid(),
        inputs.idle(),
    ensures
        player.advanced(inputs) == (PlayerView { speed: 0, ..player }),
{
    rest_moves_nothing(player.steered(inputs));
}

/// With exactly one input held the player faces that way and, unless the
/// edge of the grid is in the way, stands exactly `PLAYER_MOVEMENT_SPEED`
/// further along that axis; the other axis keeps its coordinate.
pub proof fn single_input_moves_one_axis(
    player: PlayerView,
    inputs: HeldInputs,
    direction: Direction,
)
    requires
        player.valid(),
        forall|d: Direction| inputs.holds(d) <==> d == direction,
        in_position_range(player.position.x + direction.unit().0 * PLAYER_MOVEMENT_SPEED),
        in_position_range(player.position.y + direction.unit().1 * PLAYER_MOVEMENT_SPEED),
    ensures
        player.advanced(inputs).direction == direction,
        player.advanced(inputs).speed == PLAYER_MOVEMENT_SPEED,
        player.advanced(inputs).position == (PointView {
            x: player.position.x + direction.unit().0 * PLAYER_MOVEMENT_SPEED,
            y: player.position.y + direction.unit().1 * PLAYER_MOVEMENT_SPEED,
        }),
        direction.unit().0 == 0 ==> player.advanced(inputs).position.x == player.position.x,
        direction.unit().1 == 0 ==> player.advanced(inputs).position.y == player.position.y,
{
    crate::input::lemma_single_input_resolves(inputs, direction);
}

/// With exactly one input held the player never leaves the axis of that
/// input, and never moves further than `PLAYER_MOVEMENT_SPEED`, even at the
/// edge of the grid.
pub proof fn single_input_stays_on_axis(
    player: PlayerView,
    inputs: HeldInputs,
    direction: Direction,
)
    requires
        player.valid(),
        forall|d: Direction| inputs.holds(d) <==> d == direction,
    ensures
        direction.unit().0 == 0 ==> player.advanced(inputs).position.x == player.position.x,
        direction.unit().1 == 0 ==> player.advanced(inputs).position.y == player.position.y,
        -PLAYER_MOVEMENT_SPEED <= player.advanced(inputs).position.x - player.position.x
            <= PLAYER_MOVEMENT_SPEED,
        -PLAYER_MOVEMENT_SPEED <= player.advanced(inputs).position.y - player.position.y
            <= PLAYER_MOVEMENT_SPEED,
{
    crate::input::lemma_single_input_resolves(inputs, direction);
}

/// After a tick the frame is one of the walk cycle. It is the next frame of
/// the cycle exactly when the player walks after that tick, which is when
/// some input is held; otherwise it is the frame before the tick.
pub proof fn frame_cycles_iff_walking(player: PlayerView, inputs: HeldInputs)
    requires
        player.valid(),
    ensures
        0 <= player.advanced(inputs).current_frame < FRAMES_PER_DIRECTION,
        player.advanced(inputs).speed != 0 <==> !inputs.idle(),
        player.advanced(inputs).speed != 0 ==> player.advanced(inputs).current_frame
            == (player.current_frame + 1) % (FRAMES_PER_DIRECTION as int),
        player.advanced(inputs).speed == 0 ==> player.advanced(inputs).current_frame
            == player.current_frame,
        player.advanced(inputs).current_frame != player.current_frame
            <==> player.advanced(inputs).speed != 0,
{
}

/// Resting is a fixed point: a second tick with nothing held changes
/// nothing that the first left.
pub proof fn idle_is_fixed_point(player: PlayerView, inputs: HeldInputs)
    requires
        player.valid(),
        inputs.idle(),
    ensures
        player.advanced(inputs).advanced(inputs) == player.advanced(inputs),
{
    idle_tick_keeps_place(player, inputs);
    idle_tick_keeps_place(player.advanced(inputs), inputs);
}

/// However many ticks pass with nothing held, the player is as the first
/// of them left it.
pub proof fn rest_is_stable(player: PlayerView, ticks: nat)
    requires
        player.valid(),
        ticks >= 1,
    ensures
        player.rested(ticks) == (PlayerView { speed: 0, ..player }),
        player.rested(ticks) == player.rested(1),
    decreases ticks,
{
    let idle = HeldInputs { up: false, down: false, left: false, right: false };
    assert(player.rested(0) == player);
    assert(player.rested(1) == player.rested(0).advanced(idle));
    idle_tick_keeps_place(player, idle);
    if ticks > 1 {
        rest_is_stable(player, (ticks - 1) as nat);
        idle_tick_keeps_place(player.rested((ticks - 1) as nat), idle);
    }
}

/// The resolved direction is held, and no held direction comes after it in
/// the priority order; nothing is resolved only where nothing is held.
pub proof fn last_in_priority_wins(inputs: HeldInputs)
    ensures
        match inputs.resolved() {
            Some(d) => inputs.holds(d) && forall|e: Direction|
                inputs.holds(e) ==> priority(e) <= priority(d),
            None => forall|e: Direction| !inputs.holds(e),
        },
        forall|d: Direction| priority_order()[priority(d)] == d,
{
}

/// Two inputs held at once do not add up: the player moves along one axis
/// only, the one of the input that comes last in the priority order.
pub proof fn held_inputs_never_move_diagonally(player: PlayerView, inputs: HeldInputs)
    requires
        player.valid(),
    ensures
        player.advanced(inputs).position.x == player.position.x
            || player.advanced(inputs).position.y == player.position.y,
        !inputs.idle() ==> inputs.resolved() == Some(player.advanced(inputs).direction),
        inputs.idle() ==> player.advanced(inputs).direction == player.direction,
{
}

} // verus!
