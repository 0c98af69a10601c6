use vstd::prelude::*;
use crate::keys::Poll;
use crate::schedule::{Config, Frame, schedule, total_frames, frame_at, frame_count, lemma_schedule_len};

verus! {

/// Why a run stopped before its end.
#[derive(Clone, Debug, PartialEq, Eq)]
pub enum Abort {
    /// The user pressed ESC or Ctrl-C.
    UserExit,
    /// Reading the keyboard failed; the text describes the failure.
    ReadFailure(String),
}

/// How a run ended.
#[derive(Clone, Debug, PartialEq, Eq)]
pub enum Outcome {
    /// Every phase ran to its end.
    Completed,
    /// The run stopped early.
    Aborted(Abort),
}

/// The text printed when the run is over.
pub open spec fn outcome_message(o: Outcome) -> Seq<char> {
    match o {
        Outcome::Completed => "done"@,
        Outcome::Aborted(Abort::UserExit) => "Exiting"@,
        Outcome::Aborted(Abort::ReadFailure(m)) => "Error: "@ + m@,
    }
}

impl Outcome {
    /// The text printed when the run is over: "done", "Exiting", or
    /// "Error: " followed by the description of the read failure.
    pub fn message(&self) -> (r: String)
        ensures
            r@ == outcome_message(*self),
    {
        match self {
            Outcome::Completed => String::from_str("done"),
            Outcome::Aborted(Abort::UserExit) => String::from_str("Exiting"),
            Outcome::Aborted(Abort::ReadFailure(m)) => {
                let mut r = String::from_str("Error: ");
                r.append(m.as_str());
                r
            },
        }
    }

    /// A copy that is equal to the original.
    pub fn duplicate(&self) -> (r: Outcome)
        ensures
            r == *self,
    {
        match self {
            Outcome::Completed => Outcome::Completed,
            Outcome::Aborted(Abort::UserExit) => Outcome::Aborted(Abort::UserExit),
            Outcome::Aborted(Abort::ReadFailure(m)) => Outcome::Aborted(Abort::ReadFailure(m.clone())),
        }
    }
}

/// What the front end does next.
#[derive(Clone, Debug, PartialEq, Eq)]
pub enum Action {
    /// Draw the frame, sleep one second, drain the keyboard and report.
    Show(Frame),
    /// Draw the pause message, drain the keyboard at once and report.
    Pause,
    /// Stay paused: sleep half a second, drain the keyboard and report.
    Wait,
    /// The run is over: restore the terminal and print the outcome.
    Finish(Outcome),
}

/// Where a run stands.
#[derive(Clone, Debug, PartialEq, Eq)]
pub enum Mode {
    Running,
    Paused,
    Over(Outcome),
}

/// A run as the contracts see it: its settings, how many frames of the
/// schedule have been shown, and its mode.
pub struct SessionState {
    pub config: Config,
    pub shown: nat,
    pub mode: Mode,
}

/// A run that has shown nothing yet.
pub open spec fn initial(c: Config) -> SessionState {
    SessionState { config: c, shown: 0, mode: Mode::Running }
}

/// The state never runs past the schedule.
pub open spec fn state_wf(s: SessionState) -> bool {
    s.shown <= total_frames(s.config)
}

/// Go on with the schedule: show the next frame, or finish the run when
/// every frame has been shown.
pub open spec fn advance(s: SessionState) -> (SessionState, Action) {
    if s.shown < total_frames(s.config) {
        (
            SessionState { config: s.config, shown: s.shown + 1, mode: Mode::Running },
            Action::Show(schedule(s.config)[s.shown as int]),
        )
    } else {
        finish(s, Outcome::Completed)
    }
}

/// End the run with outcome `o`.
pub open spec fn finish(s: SessionState, o: Outcome) -> (SessionState, Action) {
    (SessionState { config: s.config, shown: s.shown, mode: Mode::Over(o) }, Action::Finish(o))
}

/// One transition: the state and what was read from the keyboard give the
/// next state and the action to perform.
///
/// Running: no key goes on with the schedule; a key pauses; an exit key or a
/// read failure ends the run. Paused: no key keeps waiting; a key resumes
/// with the next frame; an exit key or a read failure ends the run. Once
/// over, the run stays over and repeats its outcome.
pub open spec fn step_spec(s: SessionState, p: Poll) -> (SessionState, Action) {
    match s.mode {
        Mode::Over(o) => (s, Action::Finish(o)),
        Mode::Running => match p {
            Poll::Empty => advance(s),
            Poll::Activity => (
                SessionState { config: s.config, shown: s.shown, mode: Mode::Paused },
                Action::Pause,
            ),
            Poll::ExitRequested => finish(s, Outcome::Aborted(Abort::UserExit)),
            Poll::ReadFailure(m) => finish(s, Outcome::Aborted(Abort::ReadFailure(m))),
        },
        Mode::Paused => match p {
            Poll::Empty => (s, Action::Wait),
            Poll::Activity => advance(s),
            Poll::ExitRequested => finish(s, Outcome::Aborted(Abort::UserExit)),
            Poll::ReadFailure(m) => finish(s, Outcome::Aborted(Abort::ReadFailure(m))),
        },
    }
}

/// The state after handing the polls to the run one after the other.
pub open spec fn state_after(s: SessionState, polls: Seq<Poll>) -> SessionState
    decreases polls.len(),
{
    if polls.len() == 0 {
        s
    } else {
        state_after(step_spec(s, polls[0]).0, polls.drop_first())
    }
}

/// The actions returned while handing the polls to the run one after the
/// other.
pub open spec fn actions(s: SessionState, polls: Seq<Poll>) -> Seq<Action>
    decreases polls.len(),
{
    if polls.len() == 0 {
        Seq::empty()
    } else {
        seq![step_spec(s, polls[0]).1] + actions(step_spec(s, polls[0]).0, polls.drop_first())
    }
}

/// A run in progress.
///
/// A new session has shown nothing; its first step, with `Poll::Empty`
/// since nothing has been read yet, shows the first frame of the intro.
pub struct Session {
    config: Config,
    shown: u128,
    mode: Mode,
}

impl View for Session {
    type V = SessionState;

    closed spec fn view(&self) -> SessionState {
        SessionState { config: self.config, shown: self.shown as nat, mode: self.mode }
    }
}

impl Session {
    pub open spec fn wf(&self) -> bool {
        state_wf(self@)
    }

    /// A run of the given settings that has shown nothing yet.
    pub fn new(config: Config) -> (s: Session)
        ensures
            s@ == initial(config),
            s.wf(),
    {
        Session { config, shown: 0, mode: Mode::Running }
    }

    /// The settings of the run.
    pub fn config(&self) -> (c: Config)
        ensures
            c == self@.config,
    {
        self.config
    }

    /// How many frames have been shown so far.
    pub fn shown(&self) -> (n: u128)
        ensures
            n == self@.shown,
    {
        self.shown
    }

    fn advance(&mut self) -> (a: Action)
        requires
            old(self).wf(),
            !(old(self)@.mode is Over),
        ensures
            final(self).wf(),
            (final(self)@, a) == advance(old(self)@),
    {
        proof {
            lemma_schedule_len(self.config);
        }
        if self.shown < frame_count(&self.config) {
            let f = frame_at(&self.config, self.shown);
            self.shown = self.shown + 1;
            self.mode = Mode::Running;
            Action::Show(f)
        } else {
            self.mode = Mode::Over(Outcome::Completed);
            Action::Finish(Outcome::Completed)
        }
    }

    fn finish(&mut self, o: Outcome) -> (a: Action)
        requires
            old(self).wf(),
        ensures
            final(self).wf(),
            (final(self)@, a) == finish(old(self)@, o),
    {
        self.mode = Mode::Over(o.duplicate());
        Action::Finish(o)
    }

    /// Hands the result of the last drain of the keyboard to the run and
    /// returns what to do next.
    pub fn step(&mut self, poll: Poll) -> (a: Action)
        requires
            old(self).wf(),
        ensures
            final(self).wf(),
            (final(self)@, a) == step_spec(old(self)@, poll),
    {
        match &self.mode {
            Mode::Over(o) => Action::Finish(o.duplicate()),
            Mode::Running => match poll {
                Poll::Empty => self.advance(),
                Poll::Activity => {
                    self.mode = Mode::Paused;
                    Action::Pause
                },
                Poll::ExitRequested => self.finish(Outcome::Aborted(Abort::UserExit)),
                Poll::ReadFailure(m) => self.finish(Outcome::Aborted(Abort::ReadFailure(m))),
            },
            Mode::Paused => match poll {
                Poll::Empty => Action::Wait,
                Poll::Activity => self.advance(),
                Poll::ExitRequested => self.finish(Outcome::Aborted(Abort::UserExit)),
                Poll::ReadFailure(m) => self.finish(Outcome::Aborted(Abort::ReadFailure(m))),
            },
        }
    }
}

} // verus!
