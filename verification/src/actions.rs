//! The drain policy that merges tray-originated actions into the single
//! owner of the timer state.
//!
//! On every drain cycle the orchestrator takes all currently-queued
//! actions, in the order the tray produced them, and applies them one by
//! one; a `Quit` ends the cycle and discards whatever was queued behind
//! it. Each applied action also yields the side effects the surrounding
//! code owes, as an ordered list of commands.

use crate::state::TimerState;
use crate::tray::TrayAction;
use vstd::prelude::*;

verus! {

/// A side effect the state owner asks the surrounding code to perform,
/// in the order the commands come back.
#[derive(Clone, Copy, Debug, PartialEq, Eq, Structural)]
pub enum UiCommand {
    /// Push a fresh display snapshot to every display sink.
    RefreshDisplay,
    /// Make the alert window visible.
    ShowWindow,
    /// Terminal: cancel the periodic callbacks, stop any audio, release
    /// the tray, and end the event loop.
    Quit,
}

/// What one action does to the timer state: a toggle flips `running`;
/// showing the alarm and quitting leave the state untouched.
pub open spec fn spec_apply_action(s: TimerState, action: TrayAction) -> TimerState {
    match action {
        TrayAction::ToggleRunning => s.spec_toggle(),
        TrayAction::ShowAlarm => s,
        TrayAction::Quit => s,
    }
}

/// The side effects one applied action asks for. Every non-Quit action
/// ends with a display refresh.
pub open spec fn spec_action_commands(action: TrayAction) -> Seq<UiCommand> {
    match action {
        TrayAction::ToggleRunning => seq![UiCommand::RefreshDisplay],
        TrayAction::ShowAlarm => seq![UiCommand::ShowWindow, UiCommand::RefreshDisplay],
        TrayAction::Quit => seq![UiCommand::Quit],
    }
}

/// The state after draining a queued batch: the actions apply first in,
/// first out, and the first `Quit` ends the cycle.
pub open spec fn spec_drain(s: TimerState, actions: Seq<TrayAction>) -> TimerState
    decreases actions.len(),
{
    if actions.len() == 0 {
        s
    } else if actions[0] is Quit {
        s
    } else {
        spec_drain(spec_apply_action(s, actions[0]), actions.drop_first())
    }
}

/// The side effects a drained batch asks for, in order: the commands of
/// each applied action up to and including the first `Quit`.
pub open spec fn spec_drain_commands(actions: Seq<TrayAction>) -> Seq<UiCommand>
    decreases actions.len(),
{
    if actions.len() == 0 {
        Seq::empty()
    } else if actions[0] is Quit {
        seq![UiCommand::Quit]
    } else {
        spec_action_commands(actions[0]) + spec_drain_commands(actions.drop_first())
    }
}

/// Applies one tray action to the timer state and returns the side
/// effects the caller owes, in order.
pub fn handle_action(state: &mut TimerState, action: TrayAction) -> (cmds: Vec<UiCommand>)
    ensures
        *final(state) == spec_apply_action(*old(state), action),
        cmds@ == spec_action_commands(action),
{
    let mut cmds: Vec<UiCommand> = Vec::new();
    match action {
        TrayAction::ToggleRunning => {
            state.toggle_running();
            cmds.push(UiCommand::RefreshDisplay);
        },
        TrayAction::ShowAlarm => {
            cmds.push(UiCommand::ShowWindow);
            cmds.push(UiCommand::RefreshDisplay);
        },
        TrayAction::Quit => {
            cmds.push(UiCommand::Quit);
        },
    }
    proof {
        assert(cmds@ =~= spec_action_commands(action));
    }
    cmds
}

/// Drains one batch of queued actions in FIFO order, stopping at the
/// first `Quit`, and returns the side effects of the whole cycle in the
/// order they are owed.
pub fn drain_actions(state: &mut TimerState, actions: &Vec<TrayAction>) -> (cmds: Vec<
    UiCommand,
>)
    ensures
        *final(state) == spec_drain(*old(state), actions@),
        cmds@ == spec_drain_commands(actions@),
{
    let ghost s0: TimerState = *state;
    let mut cmds: Vec<UiCommand> = Vec::new();
    let mut i: usize = 0;
    let mut quit: bool = false;
    proof {
        assert(actions@.skip(0) =~= actions@);
        assert(cmds@ + spec_drain_commands(actions@) =~= spec_drain_commands(actions@));
    }
    while i < actions.len() && !quit
        invariant
            i <= actions.len(),
            quit ==> *state == spec_drain(s0, actions@) && cmds@ == spec_drain_commands(
                actions@,
            ),
            !quit ==> spec_drain(s0, actions@) == spec_drain(
                *state,
                actions@.skip(i as int),
            ),
            !quit ==> spec_drain_commands(actions@) == cmds@ + spec_drain_commands(
                actions@.skip(i as int),
            ),
        decreases actions.len() - i,
    {
        let action: TrayAction = actions[i];
        proof {
            assert(actions@.skip(i as int)[0] == actions@[i as int]);
            assert(actions@.skip(i as int).drop_first() =~= actions@.skip(i as int + 1));
        }
        match action {
            TrayAction::Quit => {
                let ghost before: Seq<UiCommand> = cmds@;
                cmds.push(UiCommand::Quit);
                quit = true;
                proof {
                    assert(cmds@ =~= before + spec_drain_commands(actions@.skip(i as int)));
                }
            },
            _ => {
                let ghost st: TimerState = *state;
                let ghost before: Seq<UiCommand> = cmds@;
                let mut step: Vec<UiCommand> = handle_action(state, action);
                cmds.append(&mut step);
                proof {
                    assert(spec_drain(st, actions@.skip(i as int)) == spec_drain(
                        *state,
                        actions@.skip(i as int + 1),
                    ));
                    assert(before + spec_drain_commands(actions@.skip(i as int)) =~= cmds@
                        + spec_drain_commands(actions@.skip(i as int + 1)));
                }
            },
        }
        i = i + 1;
    }
    proof {
        if !quit {
            assert(actions@.skip(i as int) =~= Seq::<TrayAction>::empty());
            assert(cmds@ + spec_drain_commands(actions@.skip(i as int)) =~= cmds@);
        }
    }
    cmds
}

/// Draining is order-preserving and compositional: a Quit-free batch
/// followed by any further batch drains as the first batch first, then
/// the second on the state the first left behind, and the side effects
/// concatenate in the same order.
pub proof fn lemma_drain_split(s: TimerState, a: Seq<TrayAction>, b: Seq<TrayAction>)
    requires
        forall|i: int| 0 <= i < a.len() ==> !(a[i] is Quit),
    ensures
        spec_drain(s, a + b) == spec_drain(spec_drain(s, a), b),
        spec_drain_commands(a + b) == spec_drain_commands(a) + spec_drain_commands(b),
    decreases a.len(),
{
    if a.len() == 0 {
        assert(a + b =~= b);
        assert(spec_drain_commands(a) + spec_drain_commands(b) =~= spec_drain_commands(b));
    } else {
        assert((a + b)[0] == a[0]);
        assert((a + b).drop_first() =~= a.drop_first() + b);
        lemma_drain_split(spec_apply_action(s, a[0]), a.drop_first(), b);
        assert(spec_drain_commands(a) + spec_drain_commands(b) =~= spec_action_commands(a[0])
            + (spec_drain_commands(a.drop_first()) + spec_drain_commands(b)));
    }
}

/// A `Quit` truncates the cycle: a batch whose first `Quit` stands at
/// position `i` drains exactly as the batch cut off there, and the quit
/// command is the last side effect; nothing queued behind the `Quit` is
/// applied or observed.
pub proof fn lemma_quit_truncates(s: TimerState, a: Seq<TrayAction>, i: int)
    requires
        0 <= i < a.len(),
        a[i] is Quit,
        forall|j: int| 0 <= j < i ==> !(a[j] is Quit),
    ensures
        spec_drain(s, a) == spec_drain(s, a.take(i)),
        spec_drain_commands(a) == spec_drain_commands(a.take(i)) + seq![UiCommand::Quit],
    decreases i,
{
    if i == 0 {
        assert(a.take(0) =~= Seq::<TrayAction>::empty());
        assert(spec_drain_commands(a.take(0)) + seq![UiCommand::Quit] =~= seq![
            UiCommand::Quit,
        ]);
    } else {
        assert(a.drop_first()[i - 1] is Quit);
        lemma_quit_truncates(spec_apply_action(s, a[0]), a.drop_first(), i - 1);
        assert(a.take(i)[0] == a[0]);
        assert(a.take(i).drop_first() =~= a.drop_first().take(i - 1));
        assert(spec_drain_commands(a.take(i)) + seq![UiCommand::Quit]
            =~= spec_action_commands(a[0]) + (spec_drain_commands(a.drop_first().take(i - 1))
            + seq![UiCommand::Quit]));
    }
}

/// A drain cycle can flip `running` and nothing else: the remaining
/// time, the configured length and the alarm arming leave the cycle as
/// they entered it.
pub proof fn lemma_drain_touches_running_only(s: TimerState, a: Seq<TrayAction>)
    ensures
        spec_drain(s, a).original == s.original,
        spec_drain(s, a).remaining == s.remaining,
        spec_drain(s, a).alarm_triggered == s.alarm_triggered,
    decreases a.len(),
{
    if a.len() > 0 && !(a[0] is Quit) {
        lemma_drain_touches_running_only(spec_apply_action(s, a[0]), a.drop_first());
    }
}

} // verus!
