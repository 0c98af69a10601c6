use vstd::prelude::*;
use vstd::arithmetic::div_mod::lemma_fundamental_div_mod_converse;

verus! {

/// Seconds of the countdown shown before the first repetition.
pub const INTRO_SECONDS: u32 = 3;

/// The settings of one run, fixed for its whole length.
#[derive(Clone, Copy, Debug, PartialEq, Eq)]
pub struct Config {
    /// How many repetitions the run has.
    pub num_reps: u32,
    /// Seconds of each active phase.
    pub rep_time: u32,
    /// Seconds of each rest phase.
    pub relax_time: u32,
}

/// Colour in which a phase's label is drawn.
#[derive(Clone, Copy, Debug, PartialEq, Eq)]
pub enum Color {
    Blue,
    Red,
    Green,
}

/// Which phase a frame belongs to.
#[derive(Clone, Copy, Debug, PartialEq, Eq)]
pub enum Label {
    /// The countdown before the first repetition.
    Intro,
    /// The active phase of repetition `rep` out of `total`.
    Rep { rep: u32, total: u32 },
    /// The rest phase after a repetition.
    Relax,
}

/// One second of a countdown: the phase and the seconds left in it.
#[derive(Clone, Copy, Debug, PartialEq, Eq)]
pub struct Frame {
    pub label: Label,
    pub seconds: u32,
}

pub open spec fn label_color(l: Label) -> Color {
    match l {
        Label::Intro => Color::Blue,
        Label::Rep { .. } => Color::Red,
        Label::Relax => Color::Green,
    }
}

impl Label {
    /// Colour of the phase: blue for the intro, red for a repetition, green
    /// for a rest.
    pub fn color(&self) -> (r: Color)
        ensures
            r == label_color(*self),
    {
        match self {
            Label::Intro => Color::Blue,
            Label::Rep { .. } => Color::Red,
            Label::Relax => Color::Green,
        }
    }
}

/// A countdown of `n` seconds under one label: `n`, `n - 1`, ..., `1`.
pub open spec fn countdown(label: Label, n: nat) -> Seq<Frame> {
    Seq::new(n, |k: int| Frame { label, seconds: (n - k) as u32 })
}

/// The active phase of repetition `rep`, then its rest phase.
pub open spec fn rep_frames(c: Config, rep: nat) -> Seq<Frame> {
    countdown(Label::Rep { rep: rep as u32, total: c.num_reps }, c.rep_time as nat)
        + countdown(Label::Relax, c.relax_time as nat)
}

/// The frames of repetitions `1` to `count`, in increasing order.
pub open spec fn reps_upto(c: Config, count: nat) -> Seq<Frame>
    decreases count,
{
    if count == 0 {
        Seq::empty()
    } else {
        reps_upto(c, (count - 1) as nat) + rep_frames(c, count)
    }
}

/// Every frame of a run without pauses, in the order they are shown.
pub open spec fn schedule(c: Config) -> Seq<Frame> {
    countdown(Label::Intro, INTRO_SECONDS as nat) + reps_upto(c, c.num_reps as nat)
}

/// Seconds of one repetition with its rest.
pub open spec fn period(c: Config) -> nat {
    (c.rep_time + c.relax_time) as nat
}

/// Number of frames of a run: the intro, then each repetition with its rest.
pub open spec fn total_frames(c: Config) -> nat {
    (INTRO_SECONDS + c.num_reps * period(c)) as nat
}

proof fn lemma_reps_upto(c: Config, count: nat)
    ensures
        reps_upto(c, count).len() == count * period(c),
        forall|i: int|
            0 <= i < count * period(c) ==> #[trigger] reps_upto(c, count)[i] == rep_frames(
                c,
                (i / period(c) as int + 1) as nat,
            )[i % period(c) as int],
    decreases count,
{
    let p = period(c) as int;
    if count > 0 {
        let prev = (count - 1) as nat;
        lemma_reps_upto(c, prev);
        assert(prev * p + p == count * p) by (nonlinear_arith)
            requires
                prev + 1 == count,
        ;
        assert forall|i: int| 0 <= i < count * p implies #[trigger] reps_upto(c, count)[i]
            == rep_frames(c, (i / p + 1) as nat)[i % p] by {
            if i >= prev * p {
                let k = i - prev * p;
                lemma_fundamental_div_mod_converse(i, p, prev as int, k);
            }
        }
    }
}

/// The schedule has `total_frames` frames.
pub proof fn lemma_schedule_len(c: Config)
    ensures
        schedule(c).len() == total_frames(c),
{
    lemma_reps_upto(c, c.num_reps as nat);
}

/// Number of frames of a run without pauses.
pub fn frame_count(c: &Config) -> (n: u128)
    ensures
        n == total_frames(*c),
{
    let per: u128 = c.rep_time as u128 + c.relax_time as u128;
    let reps: u128 = c.num_reps as u128;
    proof {
        assert(reps * per <= 0x1_0000_0000u128 * 0x2_0000_0000u128) by (nonlinear_arith)
            requires
                reps <= 0x1_0000_0000u128,
                per <= 0x2_0000_0000u128,
        ;
    }
    INTRO_SECONDS as u128 + reps * per
}

/// The frame shown in position `i` of the schedule.
pub fn frame_at(c: &Config, i: u128) -> (f: Frame)
    requires
        i < total_frames(*c),
    ensures
        f == schedule(*c)[i as int],
{
    proof {
        lemma_reps_upto(*c, c.num_reps as nat);
    }
    if i < INTRO_SECONDS as u128 {
        Frame { label: Label::Intro, seconds: INTRO_SECONDS - i as u32 }
    } else {
        let per: u128 = c.rep_time as u128 + c.relax_time as u128;
        let j: u128 = i - INTRO_SECONDS as u128;
        proof {
            if per == 0 {
                assert(c.num_reps * period(*c) == 0) by (nonlinear_arith)
                    requires
                        period(*c) == 0,
                ;
            }
        }
        let r: u128 = j / per;
        let k: u128 = j % per;
        proof {
            assert(r < c.num_reps) by (nonlinear_arith)
                requires
                    r == j / per,
                    j < c.num_reps * per,
                    per > 0,
            ;
        }
        if k < c.rep_time as u128 {
            Frame {
                label: Label::Rep { rep: (r + 1) as u32, total: c.num_reps },
                seconds: c.rep_time - k as u32,
            }
        } else {
            Frame { label: Label::Relax, seconds: (per - k) as u32 }
        }
    }
}

} // verus!
