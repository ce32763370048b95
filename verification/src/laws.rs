//! What holds of every game, whatever the inputs.

use crate::controller::{ControllerView, Input, ReactionView};
use crate::frames::{CrabbyView, FrameView, MultiplayerView};
use crate::input::{InputEvent, Key};
use crate::mode::CurrentState;
use crate::scene::{
    spec_bind_address, spec_ping_destination, Command, Crab, Endpoint, Position,
};
use crate::timer::{
    fires_at, lemma_idle_stays_silent, lemma_no_event_before_expiry, lemma_one_event_at_expiry,
    remaining_after_all, total,
};
use vstd::prelude::*;

verus! {

/// A game begins under mode `Menu`, with the menu as its only frame.
pub proof fn lemma_starts_at_menu()
    ensures
        ControllerView::initial().mode == CurrentState::Menu,
        ControllerView::initial().active is Menu,
        ControllerView::initial().suspended.len() == 0,
        ControllerView::initial().reachable(),
{
}

/// No input leads out of the reachable states.
pub proof fn lemma_step_stays_reachable(c: ControllerView, input: Input)
    requires
        c.reachable(),
    ensures
        c.step(input).reachable(),
{
}

/// No sequence of inputs leads out of the reachable states. In particular
/// the lose screen is never entered: nothing sets the mode back to `Menu`
/// while a gameplay frame is active.
pub proof fn lemma_run_stays_reachable(c: ControllerView, inputs: Seq<Input>)
    requires
        c.reachable(),
    ensures
        c.run(inputs).reachable(),
        !(c.run(inputs).active is Lose),
    decreases inputs.len(),
{
    if inputs.len() > 0 {
        lemma_run_stays_reachable(c, inputs.drop_last());
        lemma_step_stays_reachable(c.run(inputs.drop_last()), inputs.last());
    }
}

/// Choosing option 1 in the menu sets the mode to `Gameplay` and enters
/// single-player gameplay on top of the menu, with the countdown running.
pub proof fn lemma_option_one_enters_single_player(c: ControllerView)
    requires
        c.active is Menu,
    ensures
        c.step(Input::Event(InputEvent::KeyDown(Key::Key1))) == (ControllerView {
            mode: CurrentState::Gameplay,
            suspended: c.suspended.push(c.active),
            active: FrameView::SinglePlayer(CrabbyView::started()),
        }),
        !c.react(Input::Event(InputEvent::KeyDown(Key::Key1))).exit,
{
}

/// Once a frame other than the menu is active, the menu never becomes
/// active again and the mode never changes, whatever the inputs.
pub proof fn lemma_menu_is_not_revisited(c: ControllerView, inputs: Seq<Input>)
    requires
        !(c.active is Menu),
    ensures
        !(c.run(inputs).active is Menu),
        c.run(inputs).mode == c.mode,
    decreases inputs.len(),
{
    if inputs.len() > 0 {
        lemma_menu_is_not_revisited(c, inputs.drop_last());
    }
}

/// After option 1 is chosen in a game that has only seen the menu so far,
/// single-player gameplay stays active under mode `Gameplay` for good,
/// whatever the inputs.
pub proof fn lemma_single_player_stays(before: Seq<Input>, after: Seq<Input>)
    requires
        ControllerView::initial().run(before).active is Menu,
    ensures
        ({
            let chosen = ControllerView::initial().run(before).step(
                Input::Event(InputEvent::KeyDown(Key::Key1)),
            );
            &&& chosen.run(after).active is SinglePlayer
            &&& chosen.run(after).mode == CurrentState::Gameplay
            &&& chosen.run(after).suspended == chosen.suspended
        }),
    decreases after.len(),
{
    let menu = ControllerView::initial().run(before);
    let chosen = menu.step(Input::Event(InputEvent::KeyDown(Key::Key1)));
    lemma_starts_at_menu();
    lemma_run_stays_reachable(ControllerView::initial(), before);
    lemma_step_stays_reachable(menu, Input::Event(InputEvent::KeyDown(Key::Key1)));
    if after.len() > 0 {
        lemma_single_player_stays(before, after.drop_last());
        lemma_run_stays_reachable(chosen, after.drop_last());
    }
}

/// Choosing option 2 in the menu changes neither the mode nor the stack: it
/// asks for the text to be removed and for the socket. Once the engine holds
/// the socket, the mode becomes `Gameplay` and multiplayer gameplay is
/// entered around the socket, on top of the menu.
pub proof fn lemma_option_two_waits_for_the_socket(c: ControllerView, socket: Endpoint)
    requires
        c.active is Menu,
    ensures
        c.step(Input::Event(InputEvent::KeyDown(Key::Key2))) == c,
        c.react(Input::Event(InputEvent::KeyDown(Key::Key2))) == (ReactionView {
            commands: c.active->Menu_0.delete_text().push(Command::Bind(spec_bind_address())),
            exit: false,
        }),
        c.step(Input::Bound(socket)) == (ControllerView {
            mode: CurrentState::Gameplay,
            suspended: c.suspended.push(c.active),
            active: FrameView::Multiplayer(MultiplayerView::fresh(socket).started()),
        }),
{
    let key = Input::Event(InputEvent::KeyDown(Key::Key2));
    assert(c.react(key).commands =~= c.active->Menu_0.delete_text().push(
        Command::Bind(spec_bind_address()),
    ));
}

/// A command that failed changes nothing and asks for nothing, in every
/// frame and under every mode. So a bind that fails leaves the mode and the
/// stack as they were, and a ping that fails does not end the frame.
pub proof fn lemma_failure_changes_nothing(c: ControllerView, command: Command)
    ensures
        c.step(Input::Failed(command)) == c,
        c.react(Input::Failed(command)) == (ReactionView { commands: Seq::empty(), exit: false }),
{
}

/// Multiplayer gameplay is entered by one input only: the news that the
/// engine holds the socket, while the menu is active.
pub proof fn lemma_multiplayer_needs_a_socket(c: ControllerView, input: Input)
    requires
        !(c.active is Multiplayer),
        c.step(input).active is Multiplayer,
    ensures
        c.active is Menu,
        input is Bound,
{
}

/// An event that asks to exit gives the exit signal in every frame and
/// under every mode, and changes nothing. No other input gives it.
pub proof fn lemma_exit_from_any_state(c: ControllerView, input: Input)
    ensures
        c.react(input).exit <==> (input matches Input::Event(event) && event.asks_exit()),
        c.react(input).exit ==> c.step(input) == c && c.react(input).commands.len() == 0,
{
}

/// The inputs of a run of ticks, one per elapsed time.
pub open spec fn ticks(deltas: Seq<u64>) -> Seq<Input> {
    deltas.map_values(|elapsed: u64| Input::Tick(elapsed))
}

/// The elapsed times of a run of ticks, as numbers.
pub open spec fn elapsed(deltas: Seq<u64>) -> Seq<nat> {
    deltas.map_values(|elapsed: u64| elapsed as nat)
}

/// A gameplay frame's answer to a tick under a mode other than `Menu`: the
/// crab, drawn with the frame's sprite, if the tick uses the countdown up;
/// then the ping, if the frame is the multiplayer one. Never the exit signal.
pub open spec fn tick_reaction(frame: FrameView, crab: bool) -> ReactionView {
    ReactionView {
        commands: (if crab {
            seq![
                Command::SpawnCrab {
                    sprite: frame.sprite()->0,
                    at: Position { x: 400, y: 60, z: 0 },
                    crab: Crab::standard(0),
                },
            ]
        } else {
            Seq::empty()
        }) + (if frame is Multiplayer {
            seq![Command::SendPing(spec_ping_destination())]
        } else {
            Seq::empty()
        }),
        exit: false,
    }
}

/// While a gameplay frame is active and the mode is not `Menu`, a run of
/// ticks moves the frame's countdown and nothing else.
pub proof fn lemma_ticks_move_only_the_countdown(c: ControllerView, deltas: Seq<u64>)
    requires
        c.active.is_gameplay(),
        c.mode != CurrentState::Menu,
    ensures
        c.run(ticks(deltas)) == (ControllerView {
            active: c.active.with_timer(remaining_after_all(c.active.timer(), elapsed(deltas))),
            ..c
        }),
    decreases deltas.len(),
{
    if deltas.len() > 0 {
        lemma_ticks_move_only_the_countdown(c, deltas.drop_last());
        assert(ticks(deltas).drop_last() == ticks(deltas.drop_last()));
        assert(elapsed(deltas).drop_last() == elapsed(deltas.drop_last()));
    }
}

/// The answer to tick `i` of a run of ticks in a gameplay frame, under a
/// mode other than `Menu`: the crab is asked for on the tick on which the
/// frame's countdown reports its event, and on no other.
pub proof fn lemma_crab_follows_the_countdown(c: ControllerView, deltas: Seq<u64>, i: int)
    requires
        c.active.is_gameplay(),
        c.active.wf(),
        c.mode != CurrentState::Menu,
        0 <= i < deltas.len(),
    ensures
        c.run(ticks(deltas.take(i))).react(Input::Tick(deltas[i])) == tick_reaction(
            c.active,
            fires_at(c.active.timer(), elapsed(deltas), i),
        ),
{
    lemma_ticks_move_only_the_countdown(c, deltas.take(i));
    assert(elapsed(deltas.take(i)) == elapsed(deltas).take(i));
    if c.active.timer() is None {
        lemma_idle_stays_silent(elapsed(deltas).take(i));
    }
    let reaction = c.run(ticks(deltas.take(i))).react(Input::Tick(deltas[i]));
    let expected = tick_reaction(c.active, fires_at(c.active.timer(), elapsed(deltas), i));
    assert(reaction.commands =~= expected.commands);
}

/// In a gameplay frame whose countdown stands at `delay`, under a mode
/// other than `Menu`, ticks that add up to `delay` or more ask for the crab
/// exactly once: on tick `k`, the first at which the running sum reaches
/// `delay`.
pub proof fn lemma_crab_is_asked_for_once(c: ControllerView, delay: nat, deltas: Seq<u64>) -> (k:
    int)
    requires
        c.active.is_gameplay(),
        c.active.wf(),
        c.mode != CurrentState::Menu,
        c.active.timer() == Some(delay),
        delay > 0,
        total(elapsed(deltas)) >= delay,
    ensures
        0 <= k < deltas.len(),
        total(elapsed(deltas).take(k)) < delay <= total(elapsed(deltas).take(k + 1)),
        forall|i: int|
            0 <= i < deltas.len() ==> #[trigger] c.run(ticks(deltas.take(i))).react(
                Input::Tick(deltas[i]),
            ) == tick_reaction(c.active, i == k),
        c.run(ticks(deltas)).active.timer() is None,
{
    let k = lemma_one_event_at_expiry(delay, elapsed(deltas));
    lemma_ticks_move_only_the_countdown(c, deltas);
    assert forall|i: int| 0 <= i < deltas.len() implies #[trigger] c.run(
        ticks(deltas.take(i)),
    ).react(Input::Tick(deltas[i])) == tick_reaction(c.active, i == k) by {
        lemma_crab_follows_the_countdown(c, deltas, i);
    }
    k
}

/// In a gameplay frame whose countdown stands at `delay`, under a mode
/// other than `Menu`, ticks that add up to less than `delay` never ask for
/// the crab, and the countdown holds what is left of `delay`.
pub proof fn lemma_no_crab_before_expiry(c: ControllerView, delay: nat, deltas: Seq<u64>)
    requires
        c.active.is_gameplay(),
        c.active.wf(),
        c.mode != CurrentState::Menu,
        c.active.timer() == Some(delay),
        total(elapsed(deltas)) < delay,
    ensures
        forall|i: int|
            0 <= i < deltas.len() ==> #[trigger] c.run(ticks(deltas.take(i))).react(
                Input::Tick(deltas[i]),
            ) == tick_reaction(c.active, false),
        c.run(ticks(deltas)).active.timer() == Some((delay - total(elapsed(deltas))) as nat),
{
    lemma_no_event_before_expiry(delay, elapsed(deltas));
    lemma_ticks_move_only_the_countdown(c, deltas);
    assert forall|i: int| 0 <= i < deltas.len() implies #[trigger] c.run(
        ticks(deltas.take(i)),
    ).react(Input::Tick(deltas[i])) == tick_reaction(c.active, false) by {
        lemma_crab_follows_the_countdown(c, deltas, i);
    }
}

/// A countdown that has run out does not start again: whatever the inputs,
/// the gameplay frame that held it keeps its place in the stack, unchanged,
/// and nothing but lose screens is ever entered on top of it.
pub proof fn lemma_countdown_does_not_restart(c: ControllerView, inputs: Seq<Input>)
    requires
        c.active.is_gameplay(),
        c.active.timer() is None,
    ensures
        c.run(inputs).stack().len() >= c.stack().len(),
        c.run(inputs).stack()[c.suspended.len() as int] == c.active,
        forall|j: int|
            c.suspended.len() < j < c.run(inputs).stack().len() ==> #[trigger] c.run(
                inputs,
            ).stack()[j] is Lose,
    decreases inputs.len(),
{
    if inputs.len() > 0 {
        let before = c.run(inputs.drop_last());
        lemma_countdown_does_not_restart(c, inputs.drop_last());
        let top = before.suspended.len() as int;
        assert(before.stack()[top] == before.active);
    }
}

} // verus!
