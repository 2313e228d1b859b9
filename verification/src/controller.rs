//! The automation controller: the four operations that mutate the session —
//! the two commands (`arm`, `abort`) and the handlers for the two watcher
//! signals — each a single atomic transition on the state and the shared
//! cancellation flag.
//!
//! The caller is expected to run each operation inside one critical section
//! over the session state, and to mirror the `cancel_flag` parameter into
//! whatever shared flag the worker polls.

use vstd::prelude::*;

use crate::session::{SessionState, SessionView};
use crate::worker::{JobView, TypingJob};

verus! {

/// What arming leaves behind: the new payload and range staged, armed set.
/// The prior state `s` does not appear in the result — every `arm` call
/// replaces whatever was staged before, so the last write wins.
pub open spec fn spec_arm(s: SessionView, text: Seq<char>, min_delay: u64, max_delay: u64) -> SessionView {
    SessionView { armed: true, pending_text: Some(text), delay_range: Some((min_delay, max_delay)) }
}

/// What aborting (or the cancel hotkey) leaves behind: disarmed, with the
/// staged payload and range kept but no longer eligible for dispatch.
pub open spec fn spec_abort(s: SessionView) -> SessionView {
    SessionView { armed: false, pending_text: s.pending_text, delay_range: s.delay_range }
}

/// What an activation signal does: an armed session dispatches a job built
/// from the staged payload and disarms; an unarmed one is left untouched and
/// dispatches nothing.
pub ghost struct ActivationEffect {
    /// The session after the signal is handled.
    pub state: SessionView,
    /// The job handed to the worker, if the signal qualified. `Some` also
    /// means the `started-typing` event is published, before the job is
    /// enqueued.
    pub job: Option<JobView>,
}

pub open spec fn spec_activation(s: SessionView) -> ActivationEffect {
    if s.armed {
        ActivationEffect {
            state: spec_abort(s),
            job: match (s.pending_text, s.delay_range) {
                (Some(t), Some(r)) => Some(JobView { text: t, min_delay: r.0, max_delay: r.1 }),
                _ => None,
            },
        }
    } else {
        ActivationEffect { state: s, job: None }
    }
}

/// The view of a dispatched job, for relating the exec result to the model.
pub open spec fn job_opt_view(job: Option<TypingJob>) -> Option<JobView> {
    match job {
        Some(j) => Some(j@),
        None => None,
    }
}

/// Arm the session: clear the cancellation flag, stage the payload and the
/// delay range, and mark the session armed. Always succeeds; a prior staged
/// payload is silently replaced.
pub fn arm(state: &mut SessionState, cancel_flag: &mut bool, text: String, min_delay: u64, max_delay: u64)
    requires
        min_delay <= max_delay,
    ensures
        final(state)@ == spec_arm(old(state)@, text@, min_delay, max_delay),
        final(state)@.wf(),
        !*final(cancel_flag),
{
    *cancel_flag = false;
    state.pending_text = Some(text);
    state.delay_range = Some((min_delay, max_delay));
    state.armed = true;
}

/// Abort: set the cancellation flag and disarm. Idempotent, and safe to call
/// with no job running — it then only pre-empts a future activation.
pub fn abort(state: &mut SessionState, cancel_flag: &mut bool)
    ensures
        final(state)@ == spec_abort(old(state)@),
        old(state)@.wf() ==> final(state)@.wf(),
        *final(cancel_flag),
{
    *cancel_flag = true;
    state.armed = false;
}

/// Handle the cancel hotkey: exactly an abort — it cancels an in-flight job
/// (if any) and disarms a pending-but-not-yet-activated session.
pub fn on_cancel_pressed(state: &mut SessionState, cancel_flag: &mut bool)
    ensures
        final(state)@ == spec_abort(old(state)@),
        old(state)@.wf() ==> final(state)@.wf(),
        *final(cancel_flag),
{
    abort(state, cancel_flag);
}

/// Handle the activation hotkey: if armed, disarm and hand back the job to
/// dispatch (the caller publishes `started-typing`, then enqueues it); if
/// unarmed, a spurious press, do nothing at all.
pub fn on_activation_pressed(state: &mut SessionState) -> (job: Option<TypingJob>)
    requires
        old(state)@.wf(),
    ensures
        final(state)@ == spec_activation(old(state)@).state,
        job_opt_view(job) == spec_activation(old(state)@).job,
        final(state)@.wf(),
        !old(state)@.armed ==> job is None && final(state)@ == old(state)@,
        old(state)@.armed ==> job is Some && !final(state)@.armed,
        job matches Some(j) ==> j@.wf(),
{
    if state.armed {
        state.armed = false;
        let text = state.pending_text.as_ref().unwrap().clone();
        let range = state.delay_range.unwrap();
        Some(TypingJob { text, min_delay: range.0, max_delay: range.1 })
    } else {
        None
    }
}

/// Arming twice before any activation: the later call's payload and delay
/// range fully replace the earlier call's, and the activation that follows
/// dispatches exactly the later payload.
pub proof fn lemma_rearm_last_write_wins(
    s: SessionView,
    t1: Seq<char>,
    a1: u64,
    b1: u64,
    t2: Seq<char>,
    a2: u64,
    b2: u64,
)
    ensures
        spec_arm(spec_arm(s, t1, a1, b1), t2, a2, b2) == spec_arm(s, t2, a2, b2),
        spec_activation(spec_arm(spec_arm(s, t1, a1, b1), t2, a2, b2)).job
            == Some(JobView { text: t2, min_delay: a2, max_delay: b2 }),
{
}

/// Aborting is idempotent: a second abort changes nothing further.
pub proof fn lemma_abort_idempotent(s: SessionView)
    ensures
        spec_abort(spec_abort(s)) == spec_abort(s),
{
}

/// An activation signal received while unarmed is a no-op on the session and
/// dispatches no job.
pub proof fn lemma_activation_unarmed_noop(s: SessionView)
    requires
        !s.armed,
    ensures
        spec_activation(s).state == s,
        spec_activation(s).job is None,
{
}

} // verus!
