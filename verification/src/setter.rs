//! The display step: pick one candidate uniformly at random, hand it to the
//! external display command, inspect the exit, and retry with a fresh random
//! pick on a non-zero exit — at most three attempts in all. A command that
//! cannot even be spawned ends the run at once, since every later attempt
//! would fail the same way.
use vstd::prelude::*;

verus! {

/// The display command is tried at most this many times.
pub const DISPLAY_MAX_ATTEMPTS: u32 = 3;

/// What one display attempt reported back.
pub enum DisplayEvent {
    /// The command could not be launched at all.
    SpawnFailed,
    /// The command ran and exited; `true` is a zero exit status.
    Exited(bool),
}

/// How a display run ends.
pub enum SetterOutcome {
    /// Some attempt exited with status zero.
    Succeeded,
    /// Every attempt exited non-zero; the run ends quietly.
    GaveUp,
    /// The command could not be spawned; fatal at once, no retries.
    SpawnFailure,
}

/// The outcome and the number of attempts of a display run that may make up
/// to `max` attempts, where `events[k]` is what attempt `k` would report.
/// Attempts for which no event is given make the run give up where it stands.
pub open spec fn spec_display_run(events: Seq<DisplayEvent>, max: nat) -> (SetterOutcome, nat)
    decreases max,
{
    if max == 0 || events.len() == 0 {
        (SetterOutcome::GaveUp, 0)
    } else {
        match events[0] {
            DisplayEvent::SpawnFailed => (SetterOutcome::SpawnFailure, 1),
            DisplayEvent::Exited(true) => (SetterOutcome::Succeeded, 1),
            DisplayEvent::Exited(false) => {
                if max == 1 {
                    (SetterOutcome::GaveUp, 1)
                } else {
                    let rest = spec_display_run(events.skip(1), (max - 1) as nat);
                    (rest.0, 1 + rest.1)
                }
            },
        }
    }
}

/// Law: a command that exits non-zero on every attempt is tried exactly
/// `DISPLAY_MAX_ATTEMPTS` times and the run ends by giving up — not by a
/// fatal failure.
pub proof fn lemma_display_all_failures(events: Seq<DisplayEvent>)
    requires
        events.len() >= DISPLAY_MAX_ATTEMPTS,
        forall|k: int| 0 <= k < events.len() ==> events[k] == DisplayEvent::Exited(false),
    ensures
        spec_display_run(events, DISPLAY_MAX_ATTEMPTS as nat).0 == SetterOutcome::GaveUp,
        spec_display_run(events, DISPLAY_MAX_ATTEMPTS as nat).1 == DISPLAY_MAX_ATTEMPTS,
{
    let e1 = events.skip(1);
    let e2 = events.skip(2);
    assert(e1[0] == events[1]);
    assert(e1.skip(1) =~= e2);
    assert(e2[0] == events[2]);
    assert(spec_display_run(e2, 1).0 == SetterOutcome::GaveUp && spec_display_run(e2, 1).1 == 1);
    assert(spec_display_run(e1, 2).0 == SetterOutcome::GaveUp && spec_display_run(e1, 2).1 == 2);
    assert(spec_display_run(events, 3).0 == SetterOutcome::GaveUp && spec_display_run(
        events,
        3,
    ).1 == 3);
}

/// Law: a failure is retried as long as attempts remain: within the bound,
/// the run succeeds exactly when one of the attempts it reaches exits zero
/// before any spawn failure; the attempt count never exceeds the bound.
pub proof fn lemma_display_attempt_bound(events: Seq<DisplayEvent>, max: nat)
    ensures
        spec_display_run(events, max).1 <= max,
    decreases max,
{
    if max > 0 && events.len() > 0 {
        lemma_display_attempt_bound(events.skip(1), (max - 1) as nat);
    }
}

/// Result of driving the display loop to completion.
pub struct DisplayRun {
    pub outcome: SetterOutcome,
    pub attempts: usize,
}

/// Drives the display retry loop over what each attempt would report.
pub fn run_display(events: &Vec<DisplayEvent>) -> (r: DisplayRun)
    ensures
        r.outcome == spec_display_run(events@, DISPLAY_MAX_ATTEMPTS as nat).0,
        r.attempts == spec_display_run(events@, DISPLAY_MAX_ATTEMPTS as nat).1,
{
    let max: usize = 3;
    let mut i: usize = 0;
    proof {
        assert(events@.skip(0) =~= events@);
    }
    loop
        invariant
            0 <= i <= max,
            max == 3,
            i <= events@.len(),
            ({
                let whole = spec_display_run(events@, DISPLAY_MAX_ATTEMPTS as nat);
                let rest = spec_display_run(events@.skip(i as int), (DISPLAY_MAX_ATTEMPTS - i) as nat);
                whole.0 == rest.0 && whole.1 == i + rest.1
            }),
        decreases max - i,
    {
        if i >= max || i >= events.len() {
            return DisplayRun { outcome: SetterOutcome::GaveUp, attempts: i };
        }
        let step_attempts = i + 1;
        match &events[i] {
            DisplayEvent::SpawnFailed => {
                return DisplayRun { outcome: SetterOutcome::SpawnFailure, attempts: step_attempts };
            },
            DisplayEvent::Exited(ok) => {
                if *ok {
                    return DisplayRun { outcome: SetterOutcome::Succeeded, attempts: step_attempts };
                }
                if i + 1 == max {
                    return DisplayRun { outcome: SetterOutcome::GaveUp, attempts: step_attempts };
                }
            },
        }
        proof {
            assert(events@.skip(i as int).skip(1) =~= events@.skip(i as int + 1));
        }
        i += 1;
    }
}

/// Relies on rand::random_range over `0..len`: the result is a uniformly
/// chosen index; nothing beyond its range is assumed of it.
#[verifier::external_body]
fn pick_index(len: usize) -> (r: usize)
    requires
        len > 0,
    ensures
        r < len,
{
    rand::random_range(0..len)
}

/// Picks one candidate uniformly at random; any element of the pool may come
/// back, and each retry picks independently.
pub fn choose_candidate(pool: &Vec<String>) -> (r: &String)
    requires
        pool@.len() > 0,
    ensures
        pool.deep_view().contains(r@),
{
    let i = pick_index(pool.len());
    let r = &pool[i];
    proof {
        assert(pool.deep_view()[i as int] == pool@[i as int]@);
    }
    r
}

} // verus!
