//! One tick of the loop, as the host sees it.
//!
//! The host samples the quit signal and the held inputs, hands them in, and
//! is told what to do: stop, or paint the backdrop in a colour and draw the
//! player over it. The backdrop drifts through a cycle of colours, one step
//! for each tick that is drawn.

use crate::input::HeldInputs;
use crate::player::{advance, Player, PlayerView};
use vstd::prelude::*;

verus! {

/// Number of steps after which the backdrop's colour comes round again.
pub const BACKDROP_PERIOD: u8 = 255;

/// A colour without transparency.
#[derive(Clone, Copy, Debug, PartialEq, Eq, Structural)]
pub struct Rgb {
    pub r: u8,
    pub g: u8,
    pub b: u8,
}

/// The step of the backdrop's cycle that follows `phase`.
pub open spec fn next_phase(phase: int) -> int {
    (phase + 1) % (BACKDROP_PERIOD as int)
}

/// The colour of the backdrop at `phase`: red rises as blue falls, green
/// stays.
pub open spec fn backdrop_at(phase: int) -> Rgb {
    Rgb { r: phase as u8, g: 64, b: (255 - phase) as u8 }
}

/// The colour of the backdrop at `phase`.
pub fn backdrop(phase: u8) -> (color: Rgb)
    ensures
        color == backdrop_at(phase as int),
        color.r == phase,
        color.g == 64,
        color.r + color.b == 255,
{
    Rgb { r: phase, g: 64, b: 255 - phase }
}

/// What the host does after a tick.
#[derive(Clone, Copy, Debug, PartialEq, Eq, Structural)]
pub enum Action {
    /// Leave the loop; nothing is drawn.
    Quit,
    /// Clear the screen to this colour, draw the player and present.
    Render(Rgb),
}

/// All that changes from tick to tick.
#[derive(Clone, Copy, Debug, PartialEq, Eq, Structural)]
pub struct Session {
    pub player: Player,
    /// The step of the backdrop's cycle.
    pub phase: u8,
}

/// The session as mathematical values.
pub struct SessionView {
    pub player: PlayerView,
    pub phase: int,
}

impl SessionView {
    /// The player is valid and the phase is a step of the cycle.
    pub open spec fn valid(self) -> bool {
        self.player.valid() && 0 <= self.phase < BACKDROP_PERIOD
    }

    /// The session one drawn tick later.
    pub open spec fn ticked(self, inputs: HeldInputs) -> SessionView {
        SessionView { player: self.player.advanced(inputs), phase: next_phase(self.phase) }
    }
}

impl View for Session {
    type V = SessionView;

    open spec fn view(&self) -> SessionView {
        SessionView { player: self.player@, phase: self.phase as int }
    }
}

impl Session {
    /// What every session that the library hands out satisfies.
    pub open spec fn wf(&self) -> bool {
        self@.valid()
    }

    /// Whether the fields hold a session that the library accepts: what
    /// `wf` says, computed.
    pub fn is_valid(&self) -> (ok: bool)
        ensures
            ok == self.wf(),
    {
        self.player.is_valid() && self.phase < BACKDROP_PERIOD
    }

    /// A session that starts with a player at rest at the origin and the
    /// backdrop at the start of its cycle.
    pub fn new() -> (session: Session)
        ensures
            session.wf(),
            session@ == (SessionView { player: PlayerView::initial(), phase: 0 }),
    {
        Session { player: Player::new(), phase: 0 }
    }
}

/// One tick. Where `quit` is set the session is left as it is and the host
/// is told to stop. Otherwise the player advances under the held inputs, the
/// backdrop takes its next step, and the host is told to draw in the
/// backdrop's new colour.
pub fn tick(session: &mut Session, quit: bool, inputs: &HeldInputs) -> (action: Action)
    requires
        old(session).wf(),
    ensures
        final(session).wf(),
        quit ==> action == Action::Quit && *final(session) == *old(session),
        !quit ==> final(session)@ == old(session)@.ticked(*inputs) && action == Action::Render(
            backdrop_at(final(session)@.phase),
        ),
{
    if quit {
        return Action::Quit;
    }
    session.phase = (session.phase + 1) % BACKDROP_PERIOD;
    advance(&mut session.player, inputs);
    Action::Render(backdrop(session.phase))
}

} // verus!
