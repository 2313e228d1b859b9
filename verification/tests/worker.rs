use keytyper::controller::{arm, on_activation_pressed};
use keytyper::session::SessionState;
use keytyper::worker::{reset_cancellation, run_job, JobRun, StepOutcome, TypingJob};

fn fraction(done: usize, total: usize) -> f32 {
    done as f32 / total as f32
}

#[test]
fn full_run_emits_every_character_with_increasing_fractions() {
    let job = TypingJob { text: String::from("abc"), min_delay: 0, max_delay: 3 };
    let events = run_job(&job, usize::MAX);
    assert_eq!(events.len(), 3);
    let mut last = 0.0_f32;
    for (i, k) in events.iter().enumerate() {
        assert_eq!(k.ch, ['a', 'b', 'c'][i]);
        assert!(k.delay_ms <= 3);
        assert_eq!(k.progress.total, 3);
        assert_eq!(k.progress.done, i + 1);
        let f = fraction(k.progress.done, k.progress.total);
        assert!(f > last);
        last = f;
    }
    assert_eq!(last, 1.0);
}

#[test]
fn zero_length_text_emits_no_progress() {
    let mut s = SessionState::new();
    let mut flag = false;
    arm(&mut s, &mut flag, String::new(), 1, 2);
    let job = on_activation_pressed(&mut s).expect("armed session must dispatch");
    assert_eq!(job.text, "");
    let events = run_job(&job, usize::MAX);
    assert!(events.is_empty());
}

#[test]
fn abort_after_i_characters_emits_exactly_i_events() {
    let job = TypingJob { text: String::from("abcdef"), min_delay: 0, max_delay: 0 };
    for i in 0..6 {
        let events = run_job(&job, i);
        assert_eq!(events.len(), i);
        for (j, k) in events.iter().enumerate() {
            assert_eq!(k.progress.done, j + 1);
            assert_eq!(k.progress.total, 6);
        }
    }
}

#[test]
fn aborted_session_is_ready_for_the_next_arm() {
    let job = TypingJob { text: String::from("abcd"), min_delay: 0, max_delay: 0 };
    let events = run_job(&job, 2);
    assert_eq!(events.len(), 2);
    // the worker clears the flag after the aborted job...
    let mut flag = true;
    reset_cancellation(&mut flag);
    assert!(!flag);
    // ...and the next arm succeeds and dispatches as usual
    let mut s = SessionState::new();
    arm(&mut s, &mut flag, String::from("next"), 1, 1);
    assert!(!flag);
    let next = on_activation_pressed(&mut s).expect("armed session must dispatch");
    assert_eq!(next.text, "next");
}

#[test]
fn abort_before_first_character_emits_nothing() {
    let job = TypingJob { text: String::from("abc"), min_delay: 0, max_delay: 0 };
    let events = run_job(&job, 0);
    assert!(events.is_empty());
}

#[test]
fn step_honours_cancellation_immediately() {
    let job = TypingJob { text: String::from("abc"), min_delay: 0, max_delay: 0 };
    let mut run = JobRun::new(&job);
    match run.step(true) {
        StepOutcome::Finished => {}
        StepOutcome::Emit(_) => panic!("a cancelled poll must not emit"),
    }
    assert_eq!(run.done, 0);
}

#[test]
fn step_emits_characters_in_order_then_finishes() {
    let job = TypingJob { text: String::from("ok"), min_delay: 2, max_delay: 4 };
    let mut run = JobRun::new(&job);
    let mut seen = String::new();
    loop {
        match run.step(false) {
            StepOutcome::Emit(k) => {
                assert!(k.delay_ms >= 2 && k.delay_ms <= 4);
                seen.push(k.ch);
            }
            StepOutcome::Finished => break,
        }
    }
    assert_eq!(seen, "ok");
    assert_eq!(run.done, 2);
}

#[test]
fn job_is_split_into_unicode_characters() {
    let job = TypingJob { text: String::from("h\u{e9}\u{df}\u{6f22}"), min_delay: 0, max_delay: 0 };
    let run = JobRun::new(&job);
    assert_eq!(run.chars, vec!['h', '\u{e9}', '\u{df}', '\u{6f22}']);
    let events = run_job(&job, usize::MAX);
    assert_eq!(events.len(), 4);
    assert_eq!(events[3].ch, '\u{6f22}');
    assert_eq!(events[3].progress.total, 4);
}

#[test]
fn scenario_arm_hi_then_activate_runs_both_characters() {
    let mut s = SessionState::new();
    let mut flag = false;
    arm(&mut s, &mut flag, String::from("hi"), 10, 10);
    let job = on_activation_pressed(&mut s).expect("started-typing is owed here");
    let events = run_job(&job, usize::MAX);
    assert_eq!(events.len(), 2);
    assert_eq!(events[0].ch, 'h');
    assert_eq!(events[1].ch, 'i');
    assert_eq!(events[0].delay_ms, 10);
    assert_eq!(events[1].delay_ms, 10);
    assert_eq!(fraction(events[0].progress.done, events[0].progress.total), 0.5);
    assert_eq!(fraction(events[1].progress.done, events[1].progress.total), 1.0);
}
