//! The text that each screen asks the host to draw.

use vstd::prelude::*;
use crate::state::{GameState, Screen, StateModel};

verus! {

/// One request to draw a line of text at a position on the screen.
#[derive(Debug, PartialEq, Eq)]
pub struct TextIntent {
    pub text: String,
    pub x: i32,
    pub y: i32,
}

/// What a `TextIntent` stands for: its characters and its position.
pub struct TextModel {
    pub text: Seq<char>,
    pub x: int,
    pub y: int,
}

impl View for TextIntent {
    type V = TextModel;

    open spec fn view(&self) -> TextModel {
        TextModel { text: self.text@, x: self.x as int, y: self.y as int }
    }
}

/// The column at which every line starts.
pub const TEXT_X: i32 = 100;

/// The row of a screen's heading.
pub const HEADING_Y: i32 = 60;

/// The row of the line under the heading.
pub const DETAIL_Y: i32 = 90;

/// The loading counter from which two dots are shown.
pub const TWO_DOTS_FROM: u32 = 75;

/// The loading counter from which three dots are shown.
pub const THREE_DOTS_FROM: u32 = 150;

/// The models of a list of intents, in order.
pub open spec fn models(intents: Seq<TextIntent>) -> Seq<TextModel> {
    intents.map_values(|t: TextIntent| t@)
}

/// How many dots follow the word on the loading screen, by the counter's
/// value at the start of the tick.
pub open spec fn loading_dots(frames: nat) -> nat {
    if frames >= 150 {
        3
    } else if frames >= 75 {
        2
    } else {
        1
    }
}

/// The loading screen's line: the word, then one dot to three.
pub open spec fn loading_caption(frames: nat) -> Seq<char> {
    "Loading"@ + Seq::new(loading_dots(frames), |i: int| '.')
}

/// What a screen draws in one tick, top line first.
pub open spec fn display_of(s: StateModel) -> Seq<TextModel> {
    match s.screen {
        Screen::Title => seq![
            TextModel { text: "Title Screen!"@, x: 100, y: 60 },
            TextModel { text: "Press z to begin!"@, x: 100, y: 90 },
        ],
        Screen::Loading => seq![TextModel { text: loading_caption(s.frames), x: 100, y: 90 }],
        Screen::Game => seq![TextModel { text: "Hello, world!!!"@, x: 100, y: 60 }],
    }
}

/// The loading screen's line for a counter value.
pub fn loading_text(frames: u32) -> (text: String)
    ensures
        text@ == loading_caption(frames as nat),
{
    proof {
        reveal_strlit("Loading");
        reveal_strlit("Loading.");
        reveal_strlit("Loading..");
        reveal_strlit("Loading...");
    }
    let line: &str = if frames >= THREE_DOTS_FROM {
        "Loading..."
    } else if frames >= TWO_DOTS_FROM {
        "Loading.."
    } else {
        "Loading."
    };
    assert(line@ =~= loading_caption(frames as nat));
    line.to_owned()
}

/// The intents that a state's screen draws in one tick. It reads the loading
/// counter as it stands, before the tick's increment.
pub fn intents_of(state: &GameState) -> (intents: Vec<TextIntent>)
    ensures
        models(intents@) == display_of(state@),
{
    let mut intents: Vec<TextIntent> = Vec::new();
    match state.screen {
        Screen::Title => {
            intents.push(TextIntent { text: "Title Screen!".to_owned(), x: TEXT_X, y: HEADING_Y });
            intents.push(
                TextIntent { text: "Press z to begin!".to_owned(), x: TEXT_X, y: DETAIL_Y },
            );
        },
        Screen::Loading => {
            intents.push(TextIntent { text: loading_text(state.frames), x: TEXT_X, y: DETAIL_Y });
        },
        Screen::Game => {
            intents.push(TextIntent { text: "Hello, world!!!".to_owned(), x: TEXT_X, y: HEADING_Y });
        },
    }
    assert(models(intents@) =~= display_of(state@));
    intents
}

} // verus!
