//! The typing worker's logic: one job at a time, one character per step,
//! a sampled pause after each character, cancellation polled between
//! characters, and a progress report per consumed character.
//!
//! The worker's surroundings own the blocking parts — receiving a job,
//! injecting a character, sleeping, publishing an event. What stands here is
//! everything the worker decides: which character comes next, how long the
//! pause after it is, what progress to report, and when to stop.

use vstd::prelude::*;
use vstd::string::StrSliceExecFns;

use crate::pacing::sample_delay;

verus! {

/// One complete typing request: the payload and the closed delay range, in
/// milliseconds, from which every inter-character pause is drawn.
pub struct TypingJob {
    pub text: String,
    pub min_delay: u64,
    pub max_delay: u64,
}

/// A job as the contracts see it.
pub ghost struct JobView {
    pub text: Seq<char>,
    pub min_delay: u64,
    pub max_delay: u64,
}

impl JobView {
    /// The delay range must be ordered, or there is nothing to sample from.
    pub open spec fn wf(self) -> bool {
        self.min_delay <= self.max_delay
    }
}

impl View for TypingJob {
    type V = JobView;

    open spec fn view(&self) -> JobView {
        JobView { text: self.text@, min_delay: self.min_delay, max_delay: self.max_delay }
    }
}

/// One progress report: `done` of `total` characters have been submitted to
/// the injection sink. The reported fraction is `done / total`; it is kept
/// as the pair so the core stays in the integers, and the presentation side
/// divides.
#[derive(Clone, Copy, PartialEq, Eq, Structural, Debug)]
pub struct ProgressEvent {
    pub done: usize,
    pub total: usize,
}

impl ProgressEvent {
    /// A report only ever describes a non-empty job, and never claims more
    /// than the whole of it.
    pub open spec fn wf(self) -> bool {
        0 < self.total && self.done <= self.total
    }

    /// The fraction equals one: the whole payload has been submitted.
    pub open spec fn is_complete(self) -> bool {
        self.done == self.total
    }
}

/// `a.done / a.total < b.done / b.total`, compared by cross-multiplication
/// so the fractions never leave the integers.
pub open spec fn frac_lt(a: ProgressEvent, b: ProgressEvent) -> bool {
    a.done * b.total < b.done * a.total
}

/// Everything one emitted character obliges the surroundings to do: submit
/// `ch` to the injection sink, pause `delay_ms` milliseconds, and publish
/// `progress`.
#[derive(Clone, Copy, PartialEq, Eq, Structural, Debug)]
pub struct Keystroke {
    pub ch: char,
    pub delay_ms: u64,
    pub progress: ProgressEvent,
}

/// What one poll of the worker decides: emit the next character, or finish
/// the job — because it is drained or because cancellation was requested.
/// After `Finished` the worker clears the shared cancellation flag and goes
/// back to waiting for a job.
#[derive(Clone, Copy, PartialEq, Eq, Structural, Debug)]
pub enum StepOutcome {
    Emit(Keystroke),
    Finished,
}

/// The events of one (possibly cut-short) run are exactly the job's
/// characters in order, each with a pause from the job's delay range and a
/// progress report counting one further character of the whole payload.
pub open spec fn keystrokes_ok(events: Seq<Keystroke>, job: JobView) -> bool {
    forall|i: int|
        0 <= i < events.len() ==> {
            &&& (#[trigger] events[i]).ch == job.text[i]
            &&& job.min_delay <= events[i].delay_ms
            &&& events[i].delay_ms <= job.max_delay
            &&& events[i].progress.total == job.text.len()
            &&& events[i].progress.done == i + 1
        }
}

/// A job loaded into the worker: the payload as single characters, and how
/// many of them have already been submitted.
pub struct JobRun {
    pub chars: Vec<char>,
    pub done: usize,
    pub min_delay: u64,
    pub max_delay: u64,
}

impl JobRun {
    /// Never more consumed than there is, and a sampleable delay range.
    pub open spec fn wf(self) -> bool {
        self.done <= self.chars@.len() && self.min_delay <= self.max_delay
    }

    /// Load a job: split the payload into characters, nothing consumed yet.
    pub fn new(job: &TypingJob) -> (r: JobRun)
        requires
            job@.wf(),
        ensures
            r.wf(),
            r.chars@ == job@.text,
            r.done == 0,
            r.min_delay == job@.min_delay,
            r.max_delay == job@.max_delay,
    {
        JobRun {
            chars: text_chars(job.text.as_str()),
            done: 0,
            min_delay: job.min_delay,
            max_delay: job.max_delay,
        }
    }

    /// One poll of the worker loop, with the cancellation flag's current
    /// reading. Cancellation wins over remaining characters, so stopping
    /// waits for at most the character already in flight; otherwise the next
    /// character is emitted together with its sampled pause and its progress
    /// report.
    pub fn step(&mut self, cancel_requested: bool) -> (r: StepOutcome)
        requires
            old(self).wf(),
        ensures
            final(self).wf(),
            final(self).chars@ == old(self).chars@,
            final(self).min_delay == old(self).min_delay,
            final(self).max_delay == old(self).max_delay,
            match r {
                StepOutcome::Emit(k) => {
                    &&& !cancel_requested
                    &&& old(self).done < old(self).chars@.len()
                    &&& final(self).done == old(self).done + 1
                    &&& k.ch == old(self).chars@[old(self).done as int]
                    &&& old(self).min_delay <= k.delay_ms
                    &&& k.delay_ms <= old(self).max_delay
                    &&& k.progress.total == old(self).chars@.len()
                    &&& k.progress.done == old(self).done + 1
                },
                StepOutcome::Finished => {
                    &&& cancel_requested || old(self).done == old(self).chars@.len()
                    &&& final(self).done == old(self).done
                },
            },
    {
        if cancel_requested || self.done == self.chars.len() {
            StepOutcome::Finished
        } else {
            let ch = self.chars[self.done];
            let delay_ms = sample_delay(self.min_delay, self.max_delay);
            self.done = self.done + 1;
            StepOutcome::Emit(
                Keystroke {
                    ch,
                    delay_ms,
                    progress: ProgressEvent { done: self.done, total: self.chars.len() },
                },
            )
        }
    }
}

/// After a job ends — drained or cancelled — the worker clears the shared
/// cancellation flag, exactly once, before it waits for the next job; a
/// cancellation spent on one job never leaks into the next.
pub fn reset_cancellation(cancel_flag: &mut bool)
    ensures
        !*final(cancel_flag),
{
    *cancel_flag = false;
}

/// One whole worker turn on one job, under the one flag history the protocol
/// produces: the cancellation flag reads false for the first `cancel_from`
/// polls and true from then on. The run emits the job's characters in order
/// and stops at the first true poll, so it emits `cancel_from` characters
/// when cancelled early and the whole payload otherwise — in particular,
/// `cancel_from == 0` emits nothing, and an empty payload emits nothing and
/// divides by nothing.
pub fn run_job(job: &TypingJob, cancel_from: usize) -> (events: Vec<Keystroke>)
    requires
        job@.wf(),
    ensures
        cancel_from < job@.text.len() ==> events@.len() == cancel_from,
        cancel_from >= job@.text.len() ==> events@.len() == job@.text.len(),
        keystrokes_ok(events@, job@),
{
    let mut run = JobRun::new(job);
    let mut events: Vec<Keystroke> = Vec::new();
    loop
        invariant
            run.wf(),
            run.chars@ == job@.text,
            run.min_delay == job@.min_delay,
            run.max_delay == job@.max_delay,
            events@.len() == run.done,
            run.done <= cancel_from,
            keystrokes_ok(events@, job@),
        ensures
            events@.len() == run.done,
            run.done <= cancel_from,
            run.done <= job@.text.len(),
            run.done == job@.text.len() || run.done >= cancel_from,
            keystrokes_ok(events@, job@),
        decreases job@.text.len() - run.done,
    {
        let cancel_requested = events.len() >= cancel_from;
        match run.step(cancel_requested) {
            StepOutcome::Emit(k) => {
                events.push(k);
            },
            StepOutcome::Finished => {
                break ;
            },
        }
    }
    events
}

/// Within one job the progress reports are all well formed, their fractions
/// strictly increase, and when the run consumed the whole payload the last
/// fraction equals one. This holds of full runs and of runs cut short by
/// cancellation alike.
pub proof fn lemma_progress_strictly_increases(events: Seq<Keystroke>, job: JobView)
    requires
        keystrokes_ok(events, job),
        events.len() <= job.text.len(),
        events.len() > 0,
    ensures
        forall|i: int| 0 <= i < events.len() ==> (#[trigger] events[i]).progress.wf(),
        forall|i: int|
            0 <= i < events.len() - 1 ==> frac_lt(
                (#[trigger] events[i]).progress,
                events[i + 1].progress,
            ),
        events.len() == job.text.len() ==> events.last().progress.is_complete(),
{
    assert forall|i: int| 0 <= i < events.len() - 1 implies frac_lt(
        (#[trigger] events[i]).progress,
        events[i + 1].progress,
    ) by {
        let t = job.text.len() as int;
        assert(events[i].progress.done == i + 1);
        assert(events[i + 1].progress.done == i + 2);
        assert((i + 1) * t < (i + 2) * t) by (nonlinear_arith)
            requires
                t > 0,
        ;
    }
}

/// Split a payload into the characters the worker submits one by one.
fn text_chars(s: &str) -> (r: Vec<char>)
    ensures
        r@ == s@,
{
    let n = s.unicode_len();
    let mut r: Vec<char> = Vec::new();
    let mut i: usize = 0;
    while i < n
        invariant
            n == s@.len(),
            i <= n,
            r@.len() == i,
            forall|j: int| 0 <= j < i ==> r@[j] == s@[j],
        decreases n - i,
    {
        let c = s.get_char(i);
        r.push(c);
        i = i + 1;
    }
    proof {
        assert(r@ =~= s@);
    }
    r
}

} // verus!
