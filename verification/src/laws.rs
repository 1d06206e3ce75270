//! What holds of the controller over one tick and over many.

use vstd::prelude::*;
use crate::display::{display_of, loading_caption, loading_dots, TextModel};
use crate::input::{ButtonEvents, ButtonLevels};
use crate::state::{consistent, initial, next_state, Screen, StateModel};

verus! {

/// The state after a run of ticks, one for each element of `inputs`, in order.
pub open spec fn run(s: StateModel, inputs: Seq<ButtonEvents>) -> StateModel
    decreases inputs.len(),
{
    if inputs.len() == 0 {
        s
    } else {
        run(next_state(s, inputs.first()), inputs.drop_first())
    }
}

/// One round through the screens: a tick that presses the primary button, two
/// hundred ticks of loading with any buttons, and a tick that presses the
/// secondary button.
pub open spec fn is_round(inputs: Seq<ButtonEvents>) -> bool {
    &&& inputs.len() == 202
    &&& inputs.first().primary
    &&& inputs.last().secondary
}

/// A tick keeps a consistent state consistent.
pub proof fn law_tick_keeps_consistency(s: StateModel, input: ButtonEvents)
    requires
        consistent(s),
    ensures
        consistent(next_state(s, input)),
{
}

/// On the title screen a tick with the primary button just pressed moves to the
/// loading screen with the counter at zero; any other tick changes nothing.
pub proof fn law_title_waits_for_primary(s: StateModel, input: ButtonEvents)
    requires
        consistent(s),
        s.screen is Title,
    ensures
        input.primary ==> next_state(s, input) == (StateModel { screen: Screen::Loading, frames: 0 }),
        !input.primary ==> next_state(s, input) == s,
{
}

/// On the loading screen, below the last tick, a tick adds one to the counter
/// and stays, whatever the buttons do.
pub proof fn law_loading_counts_up(s: StateModel, input: ButtonEvents)
    requires
        s.screen is Loading,
        s.frames < 199,
    ensures
        next_state(s, input) == (StateModel { screen: Screen::Loading, frames: s.frames + 1 }),
{
}

/// The loading screen's last tick, and any tick on a counter beyond it, moves
/// to the game screen and puts the counter back to zero.
pub proof fn law_loading_ends_in_game(s: StateModel, input: ButtonEvents)
    requires
        s.screen is Loading,
        s.frames >= 199,
    ensures
        next_state(s, input) == (StateModel { screen: Screen::Game, frames: 0 }),
{
}

/// The loading screen draws one line, at a fixed place: the word with one dot
/// while the counter is below 75, with two dots from 75 and below 150, with
/// three dots from 150 on. The three lines differ from each other.
pub proof fn law_loading_line_by_counter(s: StateModel)
    requires
        s.screen is Loading,
    ensures
        display_of(s) == seq![TextModel { text: loading_caption(s.frames), x: 100, y: 90 }],
        s.frames < 75 <==> loading_caption(s.frames) == "Loading."@,
        75 <= s.frames < 150 <==> loading_caption(s.frames) == "Loading.."@,
        150 <= s.frames <==> loading_caption(s.frames) == "Loading..."@,
{
    reveal_strlit("Loading");
    reveal_strlit("Loading.");
    reveal_strlit("Loading..");
    reveal_strlit("Loading...");
    let dots = loading_dots(s.frames);
    assert(loading_caption(s.frames).len() == 7 + dots);
    if dots == 1 {
        assert(loading_caption(s.frames) =~= "Loading."@);
    } else if dots == 2 {
        assert(loading_caption(s.frames) =~= "Loading.."@);
    } else {
        assert(loading_caption(s.frames) =~= "Loading..."@);
    }
}

/// On the game screen a tick with the secondary button just pressed moves to
/// the title screen; any other tick, one that presses the primary button too,
/// changes nothing.
pub proof fn law_game_waits_for_secondary(s: StateModel, input: ButtonEvents)
    requires
        consistent(s),
        s.screen is Game,
    ensures
        input.secondary ==> next_state(s, input) == initial(),
        !input.secondary ==> next_state(s, input) == s,
{
}

/// A primary button that is held down over two consecutive ticks gives no
/// edge at the second: a title screen stays through that tick. So over the two
/// ticks the title screen is left at most once. It is left at the first tick if
/// the button was up before it, and the second tick is then the first of
/// loading; if the button was down before, both ticks change nothing.
pub proof fn law_held_button_moves_once(
    s: StateModel,
    before: ButtonLevels,
    first: ButtonLevels,
    second: ButtonLevels,
)
    requires
        consistent(s),
        s.screen is Title,
        first.primary,
        second.primary,
    ensures
        !ButtonEvents::edges(first, second).primary,
        next_state(s, ButtonEvents::edges(first, second)) == s,
        before.primary ==> run(
            s,
            seq![ButtonEvents::edges(before, first), ButtonEvents::edges(first, second)],
        ) == s,
        !before.primary ==> run(
            s,
            seq![ButtonEvents::edges(before, first), ButtonEvents::edges(first, second)],
        ) == (StateModel { screen: Screen::Loading, frames: 1 }),
{
    lemma_run_two(s, ButtonEvents::edges(before, first), ButtonEvents::edges(first, second));
}

/// A run of two ticks is one tick after the other.
proof fn lemma_run_two(s: StateModel, a: ButtonEvents, b: ButtonEvents)
    ensures
        run(s, seq![a, b]) == next_state(next_state(s, a), b),
{
    let both = seq![a, b];
    let rest = both.drop_first();
    assert(rest =~= seq![b]);
    assert(rest.drop_first() =~= Seq::<ButtonEvents>::empty());
    reveal_with_fuel(run, 3);
}

/// A run over two lists of inputs, one after the other, is the run over the
/// second from where the run over the first ends.
pub proof fn law_run_splits(s: StateModel, a: Seq<ButtonEvents>, b: Seq<ButtonEvents>)
    ensures
        run(s, a + b) == run(run(s, a), b),
    decreases a.len(),
{
    if a.len() == 0 {
        assert(a + b =~= b);
    } else {
        assert((a + b).first() == a.first());
        assert((a + b).drop_first() =~= a.drop_first() + b);
        law_run_splits(next_state(s, a.first()), a.drop_first(), b);
    }
}

/// Loading, the counter follows the ticks: after `inputs.len()` of them it
/// has grown by that number if this stays below 200, and the game screen
/// shows with the counter at zero if it comes to 200 exactly.
pub proof fn law_loading_run(s: StateModel, inputs: Seq<ButtonEvents>)
    requires
        s.screen is Loading,
        s.frames + inputs.len() <= 200,
        inputs.len() > 0,
    ensures
        s.frames + inputs.len() < 200 ==> run(s, inputs) == (StateModel {
            screen: Screen::Loading,
            frames: s.frames + inputs.len(),
        }),
        s.frames + inputs.len() == 200 ==> run(s, inputs) == (StateModel {
            screen: Screen::Game,
            frames: 0,
        }),
    decreases inputs.len(),
{
    let rest = inputs.drop_first();
    let after = next_state(s, inputs.first());
    if rest.len() == 0 {
        assert(run(after, rest) == after);
    } else {
        law_loading_run(after, rest);
    }
}

/// One round from the start leads back to the start exactly: the title screen
/// with the counter at zero.
pub proof fn law_round_returns_to_start(inputs: Seq<ButtonEvents>)
    requires
        is_round(inputs),
    ensures
        run(initial(), inputs) == initial(),
{
    let press = inputs.subrange(0, 1);
    let loading = inputs.subrange(1, 201);
    let back = inputs.subrange(201, 202);
    assert(inputs =~= press + (loading + back));
    law_run_splits(initial(), press, loading + back);
    assert(press.drop_first() =~= Seq::<ButtonEvents>::empty());
    let loaded = StateModel { screen: Screen::Loading, frames: 0 };
    assert(run(initial(), press) == loaded) by {
        reveal_with_fuel(run, 2);
    }
    law_run_splits(loaded, loading, back);
    law_loading_run(loaded, loading);
    let game = StateModel { screen: Screen::Game, frames: 0 };
    assert(back.drop_first() =~= Seq::<ButtonEvents>::empty());
    assert(back.first() == inputs.last());
    assert(run(game, back) == initial()) by {
        reveal_with_fuel(run, 2);
    }
}

/// Any number of rounds, one after the other, lead from the start back to the
/// start.
pub proof fn law_rounds_return_to_start(rounds: Seq<Seq<ButtonEvents>>)
    requires
        forall|i: int| 0 <= i < rounds.len() ==> is_round(#[trigger] rounds[i]),
    ensures
        run(initial(), rounds.flatten()) == initial(),
    decreases rounds.len(),
{
    if rounds.len() > 0 {
        let rest = rounds.drop_first();
        assert forall|i: int| 0 <= i < rest.len() implies is_round(#[trigger] rest[i]) by {
            assert(rest[i] == rounds[i + 1]);
        }
        law_run_splits(initial(), rounds.first(), rest.flatten());
        law_round_returns_to_start(rounds.first());
        law_rounds_return_to_start(rest);
    }
}

} // verus!
