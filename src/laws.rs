use vstd::prelude::*;
use crate::keys::Poll;
use crate::schedule::{Config, schedule, total_frames, lemma_schedule_len};
use crate::session::{
    Abort, Action, Mode, Outcome, SessionState, actions, initial, outcome_message, state_after,
    state_wf, step_spec,
};

verus! {

/// Handing two runs of polls one after the other is handing their
/// concatenation.
pub proof fn lemma_actions_append(s: SessionState, a: Seq<Poll>, b: Seq<Poll>)
    ensures
        actions(s, a + b) == actions(s, a) + actions(state_after(s, a), b),
        state_after(s, a + b) == state_after(state_after(s, a), b),
    decreases a.len(),
{
    if a.len() == 0 {
        assert(a + b =~= b);
        assert(actions(s, a) + actions(s, b) =~= actions(s, b));
    } else {
        let t = step_spec(s, a[0]).0;
        assert((a + b).drop_first() =~= a.drop_first() + b);
        assert((a + b)[0] == a[0]);
        lemma_actions_append(t, a.drop_first(), b);
        assert(actions(s, a + b) =~= actions(s, a) + actions(state_after(s, a), b));
    }
}

/// While nothing is pressed, a running session shows the frames of the
/// schedule one by one, from where it stands.
proof fn lemma_quiet_from(s: SessionState, m: nat)
    requires
        s.mode == Mode::Running,
        s.shown + m <= total_frames(s.config),
    ensures
        actions(s, Seq::new(m, |i: int| Poll::Empty)) =~= Seq::new(
            m,
            |i: int| Action::Show(schedule(s.config)[s.shown + i]),
        ),
        state_after(s, Seq::new(m, |i: int| Poll::Empty)) == (SessionState {
            config: s.config,
            shown: s.shown + m,
            mode: Mode::Running,
        }),
    decreases m,
{
    let polls = Seq::new(m, |i: int| Poll::Empty);
    if m > 0 {
        let t = step_spec(s, Poll::Empty).0;
        assert(polls.drop_first() =~= Seq::new((m - 1) as nat, |i: int| Poll::Empty));
        lemma_quiet_from(t, (m - 1) as nat);
    }
}

/// With no key ever pressed, a run of `num_reps = R` shows exactly
/// `3 + R * (rep_time + relax_time)` frames, in the order of the schedule
/// (three intro frames, then for each repetition in increasing order its
/// active frames and its rest frames), and then completes.
pub proof fn lemma_quiet_run(c: Config)
    ensures
        schedule(c).len() == 3 + c.num_reps * (c.rep_time + c.relax_time),
        actions(initial(c), Seq::new(total_frames(c) + 1, |i: int| Poll::Empty)) =~= Seq::new(
            total_frames(c),
            |i: int| Action::Show(schedule(c)[i]),
        ).push(Action::Finish(Outcome::Completed)),
        state_after(initial(c), Seq::new(total_frames(c) + 1, |i: int| Poll::Empty)).mode
            == Mode::Over(Outcome::Completed),
{
    lemma_schedule_len(c);
    let n = total_frames(c);
    let s = initial(c);
    let quiet = Seq::new(n, |i: int| Poll::Empty);
    let last = seq![Poll::Empty];
    assert(Seq::new(n + 1, |i: int| Poll::Empty) =~= quiet + last);
    lemma_quiet_from(s, n);
    lemma_actions_append(s, quiet, last);
    let t = state_after(s, quiet);
    assert(last.drop_first() =~= Seq::<Poll>::empty());
    reveal_with_fuel(state_after, 2);
    reveal_with_fuel(actions, 2);
    assert(actions(t, last) =~= seq![Action::Finish(Outcome::Completed)]);
}

/// Once a run is over, every further step only repeats its outcome: no
/// frame is shown again.
pub proof fn lemma_over_is_final(s: SessionState, o: Outcome, polls: Seq<Poll>)
    requires
        s.mode == Mode::Over(o),
    ensures
        actions(s, polls) =~= Seq::new(polls.len(), |i: int| Action::Finish(o)),
        state_after(s, polls) == s,
    decreases polls.len(),
{
    if polls.len() > 0 {
        lemma_over_is_final(s, o, polls.drop_first());
    }
}

/// An exit key read in any phase, running or paused, ends the run at once
/// with the outcome printed as "Exiting", and no frame is shown after it,
/// whatever is read later.
pub proof fn lemma_exit_aborts(s: SessionState, later: Seq<Poll>)
    requires
        !(s.mode is Over),
    ensures
        step_spec(s, Poll::ExitRequested).1 == Action::Finish(
            Outcome::Aborted(Abort::UserExit),
        ),
        outcome_message(Outcome::Aborted(Abort::UserExit)) == "Exiting"@,
        actions(s, seq![Poll::ExitRequested] + later) =~= Seq::new(
            later.len() + 1,
            |i: int| Action::Finish(Outcome::Aborted(Abort::UserExit)),
        ),
{
    let o = Outcome::Aborted(Abort::UserExit);
    let first = seq![Poll::ExitRequested];
    lemma_actions_append(s, first, later);
    assert(first.drop_first() =~= Seq::<Poll>::empty());
    reveal_with_fuel(state_after, 2);
    reveal_with_fuel(actions, 2);
    let t = step_spec(s, Poll::ExitRequested).0;
    assert(state_after(s, first) == state_after(t, Seq::<Poll>::empty()));
    lemma_over_is_final(t, o, later);
}

/// A key pressed while running pauses the run; after any number of empty
/// polls, a second key resumes it exactly where a run without the pause
/// would have gone on: the second that was in progress is neither skipped
/// nor shown twice.
pub proof fn lemma_pause_resumes(s: SessionState, waits: nat)
    requires
        s.mode == Mode::Running,
        state_wf(s),
    ensures
        ({
            let polls = seq![Poll::Activity] + Seq::new(waits, |i: int| Poll::Empty) + seq![
                Poll::Activity,
            ];
            &&& actions(s, polls) =~= seq![Action::Pause] + Seq::new(
                waits,
                |i: int| Action::Wait,
            ) + seq![step_spec(s, Poll::Empty).1]
            &&& state_after(s, polls) == step_spec(s, Poll::Empty).0
            &&& s.shown < total_frames(s.config) ==> {
                &&& actions(s, polls).last() == Action::Show(schedule(s.config)[s.shown as int])
                &&& state_after(s, polls).shown == s.shown + 1
            }
        }),
{
    let one = seq![Poll::Activity];
    let quiet = Seq::new(waits, |i: int| Poll::Empty);
    let paused = SessionState { config: s.config, shown: s.shown, mode: Mode::Paused };
    assert(one.drop_first() =~= Seq::<Poll>::empty());
    reveal_with_fuel(state_after, 2);
    reveal_with_fuel(actions, 2);
    lemma_schedule_len(s.config);
    lemma_actions_append(s, one, quiet);
    lemma_actions_append(s, one + quiet, one);
    assert(state_after(s, one) == paused);
    assert(actions(s, one) =~= seq![Action::Pause]);
    lemma_paused_waits(paused, waits);
    assert(actions(paused, one) =~= seq![step_spec(s, Poll::Empty).1]);
}

/// While paused, polls that find no key keep the run waiting, unchanged.
proof fn lemma_paused_waits(s: SessionState, waits: nat)
    requires
        s.mode == Mode::Paused,
    ensures
        actions(s, Seq::new(waits, |i: int| Poll::Empty)) =~= Seq::new(
            waits,
            |i: int| Action::Wait,
        ),
        state_after(s, Seq::new(waits, |i: int| Poll::Empty)) == s,
    decreases waits,
{
    if waits > 0 {
        let polls = Seq::new(waits, |i: int| Poll::Empty);
        assert(polls.drop_first() =~= Seq::new((waits - 1) as nat, |i: int| Poll::Empty));
        lemma_paused_waits(s, (waits - 1) as nat);
    }
}

} // verus!
