use crate::game_state::{GameState, GameStateView};
use vstd::prelude::*;

verus! {

/// What the player or the clock asks of the game.
#[derive(Debug, Clone, Copy, PartialEq, Eq)]
pub enum Msg {
    Update,
    Chop,
    Sell,
    HireLumberjack,
    HireMiner,
    SetXAxis(u8),
    SetYAxis(u8),
    TogglePause,
}

/// The game as the screen drives it: the state, whether time stands still, and which
/// quantities the plot's axes show.
pub struct ActorState {
    pub paused: bool,
    pub state: GameState,
    pub x_axis_quantity: u8,
    pub y_axis_quantity: u8,
}

/// The game state that a message leaves behind when time runs.
pub open spec fn state_after(s: GameStateView, msg: Msg) -> GameStateView {
    match msg {
        Msg::Update => s.after_update(),
        Msg::Chop => s.after_chop(),
        Msg::Sell => s.after_sell_wood(),
        Msg::HireLumberjack => s.after_hire_lumberjack(),
        Msg::HireMiner => s.after_hire_miner(),
        _ => s,
    }
}

impl ActorState {
    /// A fresh game, running, that plots wood against wood.
    pub fn create() -> (r: Self)
        ensures
            !r.paused,
            r.state@ == GameState::default_view(),
            r.x_axis_quantity == 1,
            r.y_axis_quantity == 1,
    {
        ActorState { paused: false, state: GameState::default(), x_axis_quantity: 1, y_axis_quantity: 1 }
    }

    /// Handles one message; returns whether a new point is to be plotted, which happens
    /// after each update that is not paused. While paused, updates do nothing; the
    /// player's actions work either way.
    pub fn process(&mut self, msg: Msg) -> (plot: bool)
        ensures
            plot == (msg == Msg::Update && !old(self).paused),
            final(self).state@ == (if msg == Msg::Update && old(self).paused {
                old(self).state@
            } else {
                state_after(old(self).state@, msg)
            }),
            final(self).paused == (if msg == Msg::TogglePause {
                !old(self).paused
            } else {
                old(self).paused
            }),
            final(self).x_axis_quantity == (match msg {
                Msg::SetXAxis(v) => v,
                _ => old(self).x_axis_quantity,
            }),
            final(self).y_axis_quantity == (match msg {
                Msg::SetYAxis(v) => v,
                _ => old(self).y_axis_quantity,
            }),
    {
        match msg {
            Msg::Update => {
                if self.paused {
                    return false;
                }
                self.state.update();
                true
            },
            Msg::Chop => {
                self.state.chop();
                false
            },
            Msg::Sell => {
                self.state.sell_wood();
                false
            },
            Msg::HireLumberjack => {
                self.state.hire_lumberjack();
                false
            },
            Msg::HireMiner => {
                self.state.hire_miner();
                false
            },
            Msg::SetXAxis(value) => {
                self.x_axis_quantity = value;
                false
            },
            Msg::SetYAxis(value) => {
                self.y_axis_quantity = value;
                false
            },
            Msg::TogglePause => {
                self.paused = !self.paused;
                false
            },
        }
    }
}

} // verus!
