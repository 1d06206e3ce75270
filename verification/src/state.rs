//! The screens, the controller's state and its step function.

use vstd::prelude::*;
use crate::display::{display_of, intents_of, models, TextIntent};
use crate::input::ButtonEvents;

verus! {

/// The screen that is showing.
#[derive(Clone, Copy, Debug, PartialEq, Eq, Structural)]
pub enum Screen {
    Title,
    Loading,
    Game,
}

/// The controller's whole state: the screen and the ticks spent loading.
#[derive(Clone, Copy, Debug, PartialEq, Eq, Structural)]
pub struct GameState {
    pub screen: Screen,
    pub frames: u32,
}

/// A `GameState` with its counter as a natural number.
pub struct StateModel {
    pub screen: Screen,
    pub frames: nat,
}

impl View for GameState {
    type V = StateModel;

    open spec fn view(&self) -> StateModel {
        StateModel { screen: self.screen, frames: self.frames as nat }
    }
}

/// The number of ticks that the loading screen lasts.
pub const LOADING_TICKS: u32 = 200;

/// The state in which every controller starts.
pub open spec fn initial() -> StateModel {
    StateModel { screen: Screen::Title, frames: 0 }
}

/// The counter is in use on the loading screen only: there it is below the
/// screen's length, elsewhere it is zero.
pub open spec fn consistent(s: StateModel) -> bool {
    if s.screen is Loading {
        s.frames < 200
    } else {
        s.frames == 0
    }
}

/// The state after one tick.
///
/// The title screen waits for the primary button and the game screen for the
/// secondary one; neither touches the counter. The loading screen reads no
/// button: it counts the tick, and once the count has reached the screen's
/// length it gives way to the game with the counter back at zero.
pub open spec fn next_state(s: StateModel, input: ButtonEvents) -> StateModel {
    match s.screen {
        Screen::Title => if input.primary {
            StateModel { screen: Screen::Loading, frames: s.frames }
        } else {
            s
        },
        Screen::Loading => if s.frames + 1 >= 200 {
            StateModel { screen: Screen::Game, frames: 0 }
        } else {
            StateModel { screen: Screen::Loading, frames: s.frames + 1 }
        },
        Screen::Game => if input.secondary {
            StateModel { screen: Screen::Title, frames: s.frames }
        } else {
            s
        },
    }
}

impl GameState {
    /// The state at start: the title screen, with the counter at zero.
    pub fn new() -> (state: GameState)
        ensures
            state@ == initial(),
            consistent(state@),
    {
        GameState { screen: Screen::Title, frames: 0 }
    }

    /// Runs one tick on this state.
    pub fn update(&mut self, input: ButtonEvents) -> (intents: Vec<TextIntent>)
        ensures
            final(self)@ == next_state(old(self)@, input),
            models(intents@) == display_of(old(self)@),
            consistent(old(self)@) ==> consistent(final(self)@),
    {
        state_of_game(self, input)
    }
}

/// Runs one tick: hands back what the screen of `state` draws, as it stood at
/// the call, and moves `state` on by the screen's rule.
pub fn state_of_game(state: &mut GameState, input: ButtonEvents) -> (intents: Vec<TextIntent>)
    ensures
        final(state)@ == next_state(old(state)@, input),
        models(intents@) == display_of(old(state)@),
        consistent(old(state)@) ==> consistent(final(state)@),
{
    let intents = intents_of(state);
    match state.screen {
        Screen::Title => {
            if input.primary {
                state.screen = Screen::Loading;
            }
        },
        Screen::Loading => {
            // The test comes before the increment, so that no counter overflows.
            if state.frames >= LOADING_TICKS - 1 {
                state.screen = Screen::Game;
                state.frames = 0;
            } else {
                state.frames = state.frames + 1;
            }
        },
        Screen::Game => {
            if input.secondary {
                state.screen = Screen::Title;
            }
        },
    }
    intents
}

} // verus!
