use vstd::prelude::*;

use crate::emit::{
    diag_fallback_line, diag_fallback_line_spec, push_line, tsm_fallback_line,
    tsm_fallback_line_spec,
};
use crate::model::CheckError;
use crate::status::str_eq;

verus! {

/// Which checks a poll cycle runs; fixed once at configuration time and
/// never switched mid-run.
#[derive(Clone, Copy, Debug, PartialEq, Eq, Structural)]
pub struct CheckSelection {
    pub tsm: bool,
    pub systeminfo: bool,
}

/// Parses the configured checks value: "all" selects both checks, "tsm"
/// and "systeminfo" one each, anything else none.
pub fn parse_checks(s: &str) -> (r: CheckSelection)
    ensures
        r.tsm == (s@ == "all"@ || s@ == "tsm"@),
        r.systeminfo == (s@ == "all"@ || s@ == "systeminfo"@),
{
    let all = str_eq(s, "all");
    CheckSelection { tsm: all || str_eq(s, "tsm"), systeminfo: all || str_eq(s, "systeminfo") }
}

/// The spec-level view of one check's outcome.
pub open spec fn outcome_view(o: Result<Vec<String>, CheckError>) -> Result<
    Seq<Seq<char>>,
    CheckError,
> {
    match o {
        Ok(v) => Ok(v.deep_view()),
        Err(e) => Err(e),
    }
}

/// What one check contributes to a cycle: its own records when it
/// succeeded, exactly one fallback record when it failed.
pub open spec fn check_output_spec(
    outcome: Result<Seq<Seq<char>>, CheckError>,
    fallback: Seq<char>,
) -> Seq<Seq<char>> {
    match outcome {
        Ok(lines) => lines,
        Err(_) => seq![fallback],
    }
}

/// Wraps the status check's outcome: a failure anywhere inside the check
/// is converted into exactly one degraded record.
pub fn tsm_check_output(outcome: Result<Vec<String>, CheckError>, fallback_ts: u128) -> (r: Vec<
    String,
>)
    ensures
        r.deep_view() == check_output_spec(
            outcome_view(outcome),
            tsm_fallback_line_spec(fallback_ts),
        ),
{
    match outcome {
        Ok(lines) => lines,
        Err(_) => {
            let mut v: Vec<String> = Vec::new();
            push_line(&mut v, tsm_fallback_line(fallback_ts));
            proof {
                assert(v.deep_view() =~= seq![tsm_fallback_line_spec(fallback_ts)]);
            }
            v
        },
    }
}

/// Wraps the diagnostics check's outcome in the same way.
pub fn systeminfo_check_output(
    outcome: Result<Vec<String>, CheckError>,
    fallback_ts: u128,
) -> (r: Vec<String>)
    ensures
        r.deep_view() == check_output_spec(
            outcome_view(outcome),
            diag_fallback_line_spec(fallback_ts),
        ),
{
    match outcome {
        Ok(lines) => lines,
        Err(_) => {
            let mut v: Vec<String> = Vec::new();
            push_line(&mut v, diag_fallback_line(fallback_ts));
            proof {
                assert(v.deep_view() =~= seq![diag_fallback_line_spec(fallback_ts)]);
            }
            v
        },
    }
}

/// All records of one poll cycle: the selected checks contribute in the
/// fixed order, status check first, each independently of the other.
pub open spec fn cycle_lines_spec(
    sel: CheckSelection,
    tsm: Result<Seq<Seq<char>>, CheckError>,
    tsm_fb_ts: u128,
    diag: Result<Seq<Seq<char>>, CheckError>,
    diag_fb_ts: u128,
) -> Seq<Seq<char>> {
    (if sel.tsm {
        check_output_spec(tsm, tsm_fallback_line_spec(tsm_fb_ts))
    } else {
        Seq::empty()
    }) + (if sel.systeminfo {
        check_output_spec(diag, diag_fallback_line_spec(diag_fb_ts))
    } else {
        Seq::empty()
    })
}

/// Assembles the records of one complete cycle from the two outcomes.
pub fn cycle_lines(
    sel: &CheckSelection,
    tsm: Result<Vec<String>, CheckError>,
    tsm_fb_ts: u128,
    diag: Result<Vec<String>, CheckError>,
    diag_fb_ts: u128,
) -> (r: Vec<String>)
    ensures
        r.deep_view() == cycle_lines_spec(
            *sel,
            outcome_view(tsm),
            tsm_fb_ts,
            outcome_view(diag),
            diag_fb_ts,
        ),
{
    let ghost tsm_v = outcome_view(tsm);
    let ghost diag_v = outcome_view(diag);
    let mut out: Vec<String> = Vec::new();
    proof {
        assert(out.deep_view() =~= Seq::<Seq<char>>::empty());
    }
    if sel.tsm {
        let mut t = tsm_check_output(tsm, tsm_fb_ts);
        let ghost d0 = out.deep_view();
        let ghost dt = t.deep_view();
        out.append(&mut t);
        proof {
            assert(out.deep_view() =~= d0 + dt);
        }
    }
    if sel.systeminfo {
        let mut d = systeminfo_check_output(diag, diag_fb_ts);
        let ghost d0 = out.deep_view();
        let ghost dd = d.deep_view();
        out.append(&mut d);
        proof {
            assert(out.deep_view() =~= d0 + dd);
        }
    }
    proof {
        assert(out.deep_view() =~= cycle_lines_spec(*sel, tsm_v, tsm_fb_ts, diag_v, diag_fb_ts));
    }
    out
}

/// A failure of one check never reaches the other: when the status check
/// succeeds and the diagnostics check fails within the same cycle, the
/// status records are emitted unchanged, followed by exactly one
/// fallback diagnostics record; and symmetrically in reverse.
pub proof fn lemma_check_failures_isolated(
    sel: CheckSelection,
    tsm_lines: Seq<Seq<char>>,
    tsm_fb_ts: u128,
    diag_lines: Seq<Seq<char>>,
    diag_fb_ts: u128,
    tsm_err: CheckError,
    diag_err: CheckError,
)
    requires
        sel.tsm,
        sel.systeminfo,
    ensures
        cycle_lines_spec(sel, Ok(tsm_lines), tsm_fb_ts, Err(diag_err), diag_fb_ts) == tsm_lines
            + seq![diag_fallback_line_spec(diag_fb_ts)],
        cycle_lines_spec(sel, Err(tsm_err), tsm_fb_ts, Ok(diag_lines), diag_fb_ts) == seq![
            tsm_fallback_line_spec(tsm_fb_ts),
        ] + diag_lines,
{
}

/// The polling loop's control states.
#[derive(Clone, Copy, Debug, PartialEq, Eq, Structural)]
pub enum PollState {
    WaitingForTrigger,
    Running,
    Terminated,
}

/// What the loop can observe: one trigger line arrived, the input
/// stream closed, or the running cycle finished.
#[derive(Clone, Copy, Debug, PartialEq, Eq, Structural)]
pub enum PollEvent {
    TriggerLine,
    EndOfInput,
    CycleComplete,
}

/// What the driver must do after a step: run one complete cycle, exit
/// cleanly, or keep waiting.
#[derive(Clone, Copy, Debug, PartialEq, Eq, Structural)]
pub enum PollAction {
    RunChecks,
    Exit,
    Wait,
}

/// One transition of the polling loop: a trigger line starts exactly one
/// cycle, end of input terminates the loop with no further action, and a
/// finished cycle returns the loop to waiting.
pub open spec fn poll_step_spec(s: PollState, e: PollEvent) -> (PollState, PollAction) {
    match (s, e) {
        (PollState::WaitingForTrigger, PollEvent::TriggerLine) => (
            PollState::Running,
            PollAction::RunChecks,
        ),
        (PollState::WaitingForTrigger, PollEvent::EndOfInput) => (
            PollState::Terminated,
            PollAction::Exit,
        ),
        (PollState::WaitingForTrigger, PollEvent::CycleComplete) => (
            PollState::WaitingForTrigger,
            PollAction::Wait,
        ),
        (PollState::Running, PollEvent::CycleComplete) => (
            PollState::WaitingForTrigger,
            PollAction::Wait,
        ),
        (PollState::Running, _) => (PollState::Running, PollAction::Wait),
        (PollState::Terminated, _) => (PollState::Terminated, PollAction::Exit),
    }
}

/// Executes one transition of the polling loop.
pub fn poll_step(s: PollState, e: PollEvent) -> (r: (PollState, PollAction))
    ensures
        r == poll_step_spec(s, e),
{
    match (s, e) {
        (PollState::WaitingForTrigger, PollEvent::TriggerLine) => (
            PollState::Running,
            PollAction::RunChecks,
        ),
        (PollState::WaitingForTrigger, PollEvent::EndOfInput) => (
            PollState::Terminated,
            PollAction::Exit,
        ),
        (PollState::WaitingForTrigger, PollEvent::CycleComplete) => (
            PollState::WaitingForTrigger,
            PollAction::Wait,
        ),
        (PollState::Running, PollEvent::CycleComplete) => (
            PollState::WaitingForTrigger,
            PollAction::Wait,
        ),
        (PollState::Running, _) => (PollState::Running, PollAction::Wait),
        (PollState::Terminated, _) => (PollState::Terminated, PollAction::Exit),
    }
}

/// How many cycles a driver starts when it feeds `events[i..]` to the
/// loop from state `s`.
pub open spec fn run_count(s: PollState, events: Seq<PollEvent>, i: int) -> nat
    decreases events.len() - i,
{
    if i < 0 || i >= events.len() {
        0
    } else {
        (if poll_step_spec(s, events[i]).1 is RunChecks {
            1nat
        } else {
            0nat
        }) + run_count(poll_step_spec(s, events[i]).0, events, i + 1)
    }
}

/// How many trigger lines `events[i..]` holds.
pub open spec fn trigger_count(events: Seq<PollEvent>, i: int) -> nat
    decreases events.len() - i,
{
    if i < 0 || i >= events.len() {
        0
    } else {
        (if events[i] is TriggerLine {
            1nat
        } else {
            0nat
        }) + trigger_count(events, i + 1)
    }
}

/// Every cycle consumes one trigger line: however the loop is driven, it
/// never starts more cycles than trigger lines arrived.
pub proof fn lemma_one_trigger_per_cycle(s: PollState, events: Seq<PollEvent>, i: int)
    ensures
        run_count(s, events, i) <= trigger_count(events, i),
    decreases events.len() - i,
{
    if 0 <= i < events.len() {
        lemma_one_trigger_per_cycle(poll_step_spec(s, events[i]).0, events, i + 1);
    }
}

/// The event sequence a conforming driver produces when `n` trigger
/// lines arrive, each cycle completes, and the input then ends.
pub open spec fn driver_trace(n: nat) -> Seq<PollEvent>
    decreases n,
{
    if n == 0 {
        seq![PollEvent::EndOfInput]
    } else {
        seq![PollEvent::TriggerLine, PollEvent::CycleComplete] + driver_trace((n - 1) as nat)
    }
}

proof fn lemma_run_count_shift(s: PollState, a: Seq<PollEvent>, b: Seq<PollEvent>, j: int)
    requires
        0 <= j <= b.len(),
    ensures
        run_count(s, a + b, a.len() + j) == run_count(s, b, j),
    decreases b.len() - j,
{
    if j < b.len() {
        assert((a + b)[a.len() + j] == b[j]);
        lemma_run_count_shift(poll_step_spec(s, b[j]).0, a, b, j + 1);
    }
}

/// The loop consumes exactly one trigger line per cycle: a driver that
/// delivers `n` trigger lines, lets each cycle finish, and then closes
/// the input sees exactly `n` cycles run before the loop terminates.
pub proof fn lemma_exactly_one_cycle_per_trigger(n: nat)
    ensures
        run_count(PollState::WaitingForTrigger, driver_trace(n), 0) == n,
    decreases n,
{
    if n == 0 {
        let ev = driver_trace(n);
        assert(run_count(PollState::Terminated, ev, 1) == 0);
    } else {
        let a = seq![PollEvent::TriggerLine, PollEvent::CycleComplete];
        let rest = driver_trace((n - 1) as nat);
        let ev = driver_trace(n);
        assert(ev =~= a + rest);
        assert(ev[0] == PollEvent::TriggerLine);
        assert(ev[1] == PollEvent::CycleComplete);
        lemma_run_count_shift(PollState::WaitingForTrigger, a, rest, 0);
        lemma_exactly_one_cycle_per_trigger((n - 1) as nat);
        assert(run_count(PollState::WaitingForTrigger, ev, 0) == 1 + run_count(
            PollState::Running,
            ev,
            1,
        ));
        assert(run_count(PollState::Running, ev, 1) == run_count(
            PollState::WaitingForTrigger,
            ev,
            2,
        ));
        assert(run_count(PollState::WaitingForTrigger, ev, 2) == run_count(
            PollState::WaitingForTrigger,
            rest,
            0,
        ));
    }
}

/// Once the input has ended the loop is terminated for good: no later
/// event starts a cycle, so a closed input never yields partial output.
pub proof fn lemma_terminated_runs_nothing(events: Seq<PollEvent>, i: int)
    ensures
        run_count(PollState::Terminated, events, i) == 0,
    decreases events.len() - i,
{
    if 0 <= i < events.len() {
        lemma_terminated_runs_nothing(events, i + 1);
    }
}

} // verus!
