//! What holds of the selection state machine for every tab count, every
//! state and every input.

use vstd::prelude::*;
use vstd::arithmetic::div_mod::{lemma_add_mod_noop, lemma_mod_add_multiples_vanish, lemma_small_mod};
use crate::input::{input_transition, Input, Key, Transition};
use crate::selection::{apply, apply_times, lemma_wrap, run, step, Selection};
use crate::session::{
    next_stage, pass, play, times_performed, Action, Event, Failure, Phase, Stage,
};

verus! {

/// Advancing `times` times from a running state selects the index that
/// lies `times` further on, counted round the tabs.
pub proof fn lemma_advance_times(n: nat, s: Selection, times: nat)
    requires
        s.current < n,
        s.running,
    ensures
        apply_times(n, s, Transition::Advance, times) == (Selection {
            current: (((s.current + times) as int) % (n as int)) as nat,
            running: true,
        }),
    decreases times,
{
    let m = n as int;
    if times == 0 {
        lemma_small_mod(s.current, n);
    } else {
        let before = (times - 1) as nat;
        lemma_advance_times(n, s, before);
        let a = (s.current + before) as int;
        lemma_add_mod_noop(a, 1, m);
        if n == 1 {
            assert(1int % 1int == 0);
        } else {
            lemma_small_mod(1, n);
        }
    }
}

/// Advancing as many times as there are tabs leads back to the state it
/// started from.
pub proof fn advance_full_circle(n: nat, s: Selection)
    requires
        n >= 1,
        s.current < n,
    ensures
        apply_times(n, s, Transition::Advance, n) == s,
{
    if s.running {
        lemma_advance_times(n, s, n);
        lemma_mod_add_multiples_vanish(s.current as int, n as int);
        lemma_small_mod(s.current, n);
    } else {
        stopped_stays_under_repeats(n, s, Transition::Advance, n);
    }
}

/// A retreat undoes an advance, and an advance undoes a retreat.
pub proof fn advance_and_retreat_cancel(n: nat, s: Selection)
    requires
        n >= 1,
        s.current < n,
    ensures
        apply(n, apply(n, s, Transition::Advance), Transition::Retreat) == s,
        apply(n, apply(n, s, Transition::Retreat), Transition::Advance) == s,
{
    lemma_wrap(n, s.current);
    lemma_wrap(n, apply(n, s, Transition::Advance).current);
    lemma_wrap(n, apply(n, s, Transition::Retreat).current);
}

/// One transition leaves the selected index within the tabs.
pub proof fn apply_stays_in_range(n: nat, s: Selection, t: Transition)
    requires
        s.current < n,
    ensures
        apply(n, s, t).current < n,
{
    lemma_wrap(n, s.current);
}

/// No sequence of inputs leads the selected index out of the tabs.
pub proof fn run_stays_in_range(n: nat, s: Selection, inputs: Seq<Input>)
    requires
        s.current < n,
    ensures
        run(n, s, inputs).current < n,
    decreases inputs.len(),
{
    if inputs.len() > 0 {
        run_stays_in_range(n, s, inputs.drop_last());
        apply_stays_in_range(n, run(n, s, inputs.drop_last()), input_transition(inputs.last()));
    }
}

/// A stopped state is final: no transition, applied any number of times,
/// changes the selected index or starts the loop again.
pub proof fn stopped_stays_under_repeats(n: nat, s: Selection, t: Transition, times: nat)
    requires
        !s.running,
    ensures
        apply(n, s, t) == s,
        apply_times(n, s, t, times) == s,
    decreases times,
{
    if times > 0 {
        stopped_stays_under_repeats(n, s, t, (times - 1) as nat);
    }
}

/// A stopped state is final: no sequence of inputs changes the selected
/// index or starts the loop again.
pub proof fn stopped_stays(n: nat, s: Selection, inputs: Seq<Input>)
    requires
        !s.running,
    ensures
        run(n, s, inputs) == s,
    decreases inputs.len(),
{
    if inputs.len() > 0 {
        stopped_stays(n, s, inputs.drop_last());
    }
}

/// Once the loop has stopped within a sequence of inputs, the inputs that
/// follow change nothing: the state after the whole sequence is the state
/// at the stop.
pub proof fn stop_absorbs_the_rest(n: nat, s: Selection, before: Seq<Input>, after: Seq<Input>)
    requires
        !run(n, s, before).running,
    ensures
        run(n, s, before + after) == run(n, s, before),
    decreases after.len(),
{
    if after.len() == 0 {
        assert(before + after =~= before);
    } else {
        stop_absorbs_the_rest(n, s, before, after.drop_last());
        assert((before + after).drop_last() =~= before + after.drop_last());
        assert((before + after).last() == after.last());
    }
}

/// One pass of the loop draws exactly once, whatever the wait brings:
/// from a stage that asks for a draw, a draw that succeeds and a wait that
/// brings `input` make one draw and one wait, hand the input to the
/// selection state, and lead to the next draw, or to the release where the
/// loop has stopped.
pub proof fn one_render_per_iteration(n: nat, s: Stage, input: Input)
    requires
        s.phase == Phase::Rendering,
    ensures
        times_performed(n, s, pass(input), Action::Render) == 1,
        times_performed(n, s, pass(input), Action::Poll) == 1,
        play(n, s, pass(input)).selection == step(n, s.selection, input),
        play(n, s, pass(input)).failure == s.failure,
        play(n, s, pass(input)).phase == if step(n, s.selection, input).running {
            Phase::Rendering
        } else {
            Phase::Releasing
        },
{
    let first = seq![Event::Done];
    assert(pass(input).drop_last() =~= first);
    assert(first.drop_last() =~= Seq::<Event>::empty());
    assert(play(n, s, first.drop_last()) == s);
    assert(play(n, s, first) == next_stage(n, s, Event::Done));
    assert(times_performed(n, s, first.drop_last(), Action::Render) == 0);
    assert(times_performed(n, s, first.drop_last(), Action::Poll) == 0);
    assert(times_performed(n, s, first, Action::Render) == 1);
    assert(times_performed(n, s, first, Action::Poll) == 0);
}

/// Over a whole run, draws and waits alternate: whatever is reported, in
/// whatever order, each wait was preceded by a draw of its own, and at most
/// one draw has had no wait yet.
pub proof fn renders_match_polls(n: nat, s: Stage, events: Seq<Event>)
    requires
        s.phase == Phase::Acquiring || s.phase == Phase::Rendering,
    ensures
        times_performed(n, s, events, Action::Poll) <= times_performed(
            n,
            s,
            events,
            Action::Render,
        ) <= times_performed(n, s, events, Action::Poll) + 1,
        play(n, s, events).phase == Phase::Polling ==> times_performed(
            n,
            s,
            events,
            Action::Render,
        ) == times_performed(n, s, events, Action::Poll) + 1,
        play(n, s, events).phase == Phase::Rendering || play(n, s, events).phase
            == Phase::Acquiring ==> times_performed(n, s, events, Action::Render)
            == times_performed(n, s, events, Action::Poll),
    decreases events.len(),
{
    if events.len() > 0 {
        renders_match_polls(n, s, events.drop_last());
    }
}

/// The terminal session is released at most once in any run, not before
/// the loop has ended, and exactly once in a run that has finished, unless
/// its acquisition failed: then there is nothing to release.
pub proof fn released_once(n: nat, s: Stage, events: Seq<Event>)
    requires
        s.phase == Phase::Acquiring,
    ensures
        times_performed(n, s, events, Action::Release) <= 1,
        play(n, s, events).phase != Phase::Finished ==> times_performed(
            n,
            s,
            events,
            Action::Release,
        ) == 0,
        play(n, s, events).phase == Phase::Finished ==> events.len() >= 1 && times_performed(
            n,
            s,
            events,
            Action::Release,
        ) == if events[0] == Event::Failed {
            0nat
        } else {
            1nat
        },
    decreases events.len(),
{
    if events.len() > 0 {
        let earlier = events.drop_last();
        released_once(n, s, earlier);
        if earlier.len() > 0 {
            assert(earlier[0] == events[0]);
            acquired_after_first(n, s, earlier);
        } else {
            assert(play(n, s, earlier) == s);
        }
    }
}

/// After the first report a run is past the acquisition, and it has
/// finished without a release exactly where that first report was a
/// failure.
pub proof fn acquired_after_first(n: nat, s: Stage, events: Seq<Event>)
    requires
        s.phase == Phase::Acquiring,
        events.len() >= 1,
    ensures
        play(n, s, events).phase != Phase::Acquiring,
        events[0] == Event::Failed ==> play(n, s, events).phase == Phase::Finished,
    decreases events.len(),
{
    let earlier = events.drop_last();
    if earlier.len() > 0 {
        assert(earlier[0] == events[0]);
        acquired_after_first(n, s, earlier);
    } else {
        assert(play(n, s, earlier) == s);
    }
}

/// A quit key that arrives while the loop runs stops it: the selection
/// keeps its index, and the release is what comes next.
pub proof fn quit_leads_to_release(n: nat, s: Stage)
    requires
        s.phase == Phase::Polling,
    ensures
        next_stage(n, s, Event::Polled(Input::Press(Key::Char('q')))).phase == Phase::Releasing,
        !next_stage(n, s, Event::Polled(Input::Press(Key::Char('q')))).selection.running,
        next_stage(n, s, Event::Polled(Input::Press(Key::Char('q')))).selection.current
            == s.selection.current,
{
}

/// A failure of the loop is what the run exits with, whether or not the
/// release fails after it; a failed release is what it exits with only
/// where the loop had not failed, and it is recorded either way.
pub proof fn loop_failure_comes_first(n: nat, s: Stage, event: Event)
    requires
        s.phase == Phase::Releasing,
    ensures
        next_stage(n, s, event).phase == Phase::Finished,
        next_stage(n, s, event).selection == s.selection,
        next_stage(n, s, event).release_failed == (event == Event::Failed),
        s.failure.is_some() ==> next_stage(n, s, event).failure == s.failure,
        s.failure.is_none() ==> next_stage(n, s, event).failure == if event == Event::Failed {
            Some(Failure::Session)
        } else {
            None
        },
{
}

/// A finished run stays as it is, whatever is reported to it.
pub proof fn finished_stays(n: nat, s: Stage, events: Seq<Event>)
    requires
        s.phase == Phase::Finished,
    ensures
        play(n, s, events) == s,
    decreases events.len(),
{
    if events.len() > 0 {
        finished_stays(n, s, events.drop_last());
    }
}

} // verus!
