//! The directional inputs that are held during one tick, and the rule that
//! turns them into a single direction.
//!
//! Several inputs may be held at once. They are looked at in a fixed order,
//! and each one that is held overrides those before it, so the last held one
//! in that order decides. Two held inputs never add up to a diagonal.

use crate::direction::Direction;
use vstd::prelude::*;

verus! {

/// Which of the four directional inputs are held.
#[derive(Clone, Copy, Debug, PartialEq, Eq, Structural)]
pub struct HeldInputs {
    pub up: bool,
    pub down: bool,
    pub left: bool,
    pub right: bool,
}

/// The order in which the inputs are looked at. A later one overrides an
/// earlier one.
pub open spec fn priority_order() -> Seq<Direction> {
    seq![Direction::Up, Direction::Down, Direction::Left, Direction::Right]
}

/// The place of a direction in the priority order.
pub open spec fn priority(direction: Direction) -> int {
    match direction {
        Direction::Up => 0,
        Direction::Down => 1,
        Direction::Left => 2,
        Direction::Right => 3,
    }
}

/// The last direction of `order` whose input is held, if there is one.
pub open spec fn last_held(order: Seq<Direction>, inputs: HeldInputs) -> Option<Direction>
    decreases order.len(),
{
    if order.len() == 0 {
        None
    } else if inputs.holds(order.last()) {
        Some(order.last())
    } else {
        last_held(order.drop_last(), inputs)
    }
}

impl HeldInputs {
    /// Whether the input for `direction` is held.
    pub open spec fn holds(self, direction: Direction) -> bool {
        match direction {
            Direction::Up => self.up,
            Direction::Down => self.down,
            Direction::Left => self.left,
            Direction::Right => self.right,
        }
    }

    /// Whether no input is held at all.
    pub open spec fn idle(self) -> bool {
        !self.up && !self.down && !self.left && !self.right
    }

    /// The direction that the held inputs resolve to: `Right` before `Left`
    /// before `Down` before `Up`, and none where nothing is held.
    pub open spec fn resolved(self) -> Option<Direction> {
        if self.right {
            Some(Direction::Right)
        } else if self.left {
            Some(Direction::Left)
        } else if self.down {
            Some(Direction::Down)
        } else if self.up {
            Some(Direction::Up)
        } else {
            None
        }
    }

    /// No input held.
    pub fn none() -> (inputs: HeldInputs)
        ensures
            inputs.idle(),
    {
        HeldInputs { up: false, down: false, left: false, right: false }
    }

    /// Only the input for `direction` held.
    pub fn only(direction: Direction) -> (inputs: HeldInputs)
        ensures
            forall|d: Direction| inputs.holds(d) <==> d == direction,
            inputs.resolved() == Some(direction),
    {
        match direction {
            Direction::Up => HeldInputs { up: true, down: false, left: false, right: false },
            Direction::Down => HeldInputs { up: false, down: true, left: false, right: false },
            Direction::Left => HeldInputs { up: false, down: false, left: true, right: false },
            Direction::Right => HeldInputs { up: false, down: false, left: false, right: true },
        }
    }

    /// Whether the input for `direction` is held.
    pub fn is_held(&self, direction: Direction) -> (held: bool)
        ensures
            held == self.holds(direction),
    {
        match direction {
            Direction::Up => self.up,
            Direction::Down => self.down,
            Direction::Left => self.left,
            Direction::Right => self.right,
        }
    }

    /// The direction that the held inputs resolve to, if any is held: the
    /// last held one in the priority order.
    pub fn resolve(&self) -> (facing: Option<Direction>)
        ensures
            facing == self.resolved(),
            facing == last_held(priority_order(), *self),
            facing is None <==> self.idle(),
    {
        let order: [Direction; 4] =
            [Direction::Up, Direction::Down, Direction::Left, Direction::Right];
        assert(order@ =~= priority_order());
        let mut facing: Option<Direction> = None;
        let mut i: usize = 0;
        while i < 4
            invariant
                i <= 4,
                order@ == priority_order(),
                facing == last_held(priority_order().take(i as int), *self),
            decreases 4 - i,
        {
            let direction = order[i];
            proof {
                let next = priority_order().take(i + 1);
                assert(next.last() == direction);
                assert(next.drop_last() =~= priority_order().take(i as int));
            }
            if self.is_held(direction) {
                facing = Some(direction);
            }
            i += 1;
        }
        proof {
            assert(priority_order().take(4) =~= priority_order());
            lemma_last_held_resolves(*self);
        }
        facing
    }
}

/// Walking the priority order and keeping the last held input gives the
/// same direction as asking for `Right`, `Left`, `Down` and `Up` in turn.
pub proof fn lemma_last_held_resolves(inputs: HeldInputs)
    ensures
        last_held(priority_order(), inputs) == inputs.resolved(),
{
    let o4 = priority_order();
    let o3 = o4.drop_last();
    let o2 = o3.drop_last();
    let o1 = o2.drop_last();
    let o0 = o1.drop_last();
    assert(o4.last() == Direction::Right);
    assert(o3.last() == Direction::Left);
    assert(o2.last() == Direction::Down);
    assert(o1.last() == Direction::Up);
    assert(o0.len() == 0);
    assert(last_held(o0, inputs) is None);
    assert(last_held(o1, inputs) == if inputs.up { Some(Direction::Up) } else { None });
    assert(last_held(o2, inputs) == if inputs.down {
        Some(Direction::Down)
    } else {
        last_held(o1, inputs)
    });
    assert(last_held(o3, inputs) == if inputs.left {
        Some(Direction::Left)
    } else {
        last_held(o2, inputs)
    });
}

/// With a single input held, that input's direction is the resolved one.
pub proof fn lemma_single_input_resolves(inputs: HeldInputs, direction: Direction)
    requires
        forall|d: Direction| inputs.holds(d) <==> d == direction,
    ensures
        inputs.resolved() == Some(direction),
{
    assert(inputs.holds(direction));
    assert(inputs.holds(Direction::Up) <==> Direction::Up == direction);
    assert(inputs.holds(Direction::Down) <==> Direction::Down == direction);
    assert(inputs.holds(Direction::Left) <==> Direction::Left == direction);
    assert(inputs.holds(Direction::Right) <==> Direction::Right == direction);
}

} // verus!
