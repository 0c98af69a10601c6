use reps::keys::Poll;
use reps::schedule::{frame_at, frame_count, Color, Config, Frame, Label};
use reps::session::{Abort, Action, Outcome, Session};

fn config(num_reps: u32, rep_time: u32, relax_time: u32) -> Config {
    Config { num_reps, rep_time, relax_time }
}

fn intro(seconds: u32) -> Action {
    Action::Show(Frame { label: Label::Intro, seconds })
}

fn rep(rep: u32, total: u32, seconds: u32) -> Action {
    Action::Show(Frame { label: Label::Rep { rep, total }, seconds })
}

fn relax(seconds: u32) -> Action {
    Action::Show(Frame { label: Label::Relax, seconds })
}

/// Steps the session with each poll in turn and collects the actions.
fn drive(session: &mut Session, polls: &[Poll]) -> Vec<Action> {
    polls.iter().map(|p| session.step(p.clone())).collect()
}

/// Steps the session with empty polls until it finishes.
fn run_quiet(c: Config) -> Vec<Action> {
    let mut session = Session::new(c);
    let mut out = Vec::new();
    loop {
        let a = session.step(Poll::Empty);
        let done = matches!(a, Action::Finish(_));
        out.push(a);
        if done {
            return out;
        }
    }
}

#[test]
fn two_short_reps_without_rest() {
    let actions = run_quiet(config(2, 1, 0));
    assert_eq!(
        actions,
        vec![
            intro(3),
            intro(2),
            intro(1),
            rep(1, 2, 1),
            rep(2, 2, 1),
            Action::Finish(Outcome::Completed),
        ]
    );
    assert_eq!(Outcome::Completed.message(), "done");
}

#[test]
fn escape_in_second_active_second() {
    let mut session = Session::new(config(1, 3, 2));
    let mut polls = vec![Poll::Empty; 5];
    polls.push(Poll::ExitRequested);
    polls.push(Poll::Empty);
    polls.push(Poll::Activity);
    let actions = drive(&mut session, &polls);
    let aborted = Action::Finish(Outcome::Aborted(Abort::UserExit));
    assert_eq!(
        actions,
        vec![
            intro(3),
            intro(2),
            intro(1),
            rep(1, 1, 3),
            rep(1, 1, 2),
            aborted.clone(),
            aborted.clone(),
            aborted,
        ]
    );
    assert_eq!(Outcome::Aborted(Abort::UserExit).message(), "Exiting");
    assert_eq!(session.shown(), 5);
}

#[test]
fn quiet_run_follows_schedule() {
    let actions = run_quiet(config(2, 3, 2));
    assert_eq!(actions.len(), 3 + 2 * (3 + 2) + 1);
    assert_eq!(
        actions,
        vec![
            intro(3),
            intro(2),
            intro(1),
            rep(1, 2, 3),
            rep(1, 2, 2),
            rep(1, 2, 1),
            relax(2),
            relax(1),
            rep(2, 2, 3),
            rep(2, 2, 2),
            rep(2, 2, 1),
            relax(2),
            relax(1),
            Action::Finish(Outcome::Completed),
        ]
    );
}

#[test]
fn zero_reps_shows_only_intro() {
    let actions = run_quiet(config(0, 5, 5));
    assert_eq!(
        actions,
        vec![intro(3), intro(2), intro(1), Action::Finish(Outcome::Completed)]
    );
}

#[test]
fn frame_count_counts_every_second() {
    assert_eq!(frame_count(&config(2, 1, 0)), 5);
    assert_eq!(frame_count(&config(3, 20, 10)), 93);
    assert_eq!(frame_count(&config(0, 7, 7)), 3);
    let c = config(u32::MAX, u32::MAX, u32::MAX);
    let big = u32::MAX as u128;
    assert_eq!(frame_count(&c), 3 + big * (2 * big));
}

#[test]
fn frame_at_picks_phase_and_second() {
    let c = config(3, 20, 10);
    assert_eq!(frame_at(&c, 0), Frame { label: Label::Intro, seconds: 3 });
    assert_eq!(frame_at(&c, 3), Frame { label: Label::Rep { rep: 1, total: 3 }, seconds: 20 });
    assert_eq!(frame_at(&c, 22), Frame { label: Label::Rep { rep: 1, total: 3 }, seconds: 1 });
    assert_eq!(frame_at(&c, 23), Frame { label: Label::Relax, seconds: 10 });
    assert_eq!(frame_at(&c, 33), Frame { label: Label::Rep { rep: 2, total: 3 }, seconds: 20 });
    assert_eq!(frame_at(&c, 92), Frame { label: Label::Relax, seconds: 1 });
}

#[test]
fn largest_run_last_frame() {
    let c = config(u32::MAX, u32::MAX, u32::MAX);
    let last = frame_count(&c) - 1;
    assert_eq!(frame_at(&c, last), Frame { label: Label::Relax, seconds: 1 });
    let last_active = last - u32::MAX as u128;
    assert_eq!(
        frame_at(&c, last_active),
        Frame { label: Label::Rep { rep: u32::MAX, total: u32::MAX }, seconds: 1 }
    );
}

#[test]
fn phase_colors() {
    assert_eq!(Label::Intro.color(), Color::Blue);
    assert_eq!(Label::Rep { rep: 1, total: 2 }.color(), Color::Red);
    assert_eq!(Label::Relax.color(), Color::Green);
}

#[test]
fn pause_then_resume_keeps_the_second() {
    let mut session = Session::new(config(1, 3, 0));
    let polls = vec![
        Poll::Empty,
        Poll::Empty,
        Poll::Empty,
        Poll::Empty,
        Poll::Activity,
        Poll::Empty,
        Poll::Empty,
        Poll::Activity,
        Poll::Empty,
        Poll::Empty,
    ];
    let actions = drive(&mut session, &polls);
    assert_eq!(
        actions,
        vec![
            intro(3),
            intro(2),
            intro(1),
            rep(1, 1, 3),
            Action::Pause,
            Action::Wait,
            Action::Wait,
            rep(1, 1, 2),
            rep(1, 1, 1),
            Action::Finish(Outcome::Completed),
        ]
    );
}

#[test]
fn exit_while_paused_aborts() {
    let mut session = Session::new(config(2, 2, 2));
    let polls = vec![Poll::Empty, Poll::Activity, Poll::Empty, Poll::ExitRequested, Poll::Activity];
    let actions = drive(&mut session, &polls);
    let aborted = Action::Finish(Outcome::Aborted(Abort::UserExit));
    assert_eq!(
        actions,
        vec![intro(3), Action::Pause, Action::Wait, aborted.clone(), aborted]
    );
}

#[test]
fn read_failure_aborts_with_its_message() {
    let mut session = Session::new(config(1, 1, 1));
    let failure = "input closed".to_string();
    let polls = vec![Poll::Empty, Poll::Empty, Poll::ReadFailure(failure.clone())];
    let actions = drive(&mut session, &polls);
    let outcome = Outcome::Aborted(Abort::ReadFailure(failure.clone()));
    assert_eq!(
        actions,
        vec![intro(3), intro(2), Action::Finish(outcome.clone())]
    );
    assert_eq!(outcome.message(), "Error: input closed");
    assert_eq!(outcome.duplicate(), outcome);
}

#[test]
fn new_session_has_shown_nothing() {
    let c = config(4, 30, 15);
    let session = Session::new(c);
    assert_eq!(session.shown(), 0);
    assert_eq!(session.config(), c);
}
