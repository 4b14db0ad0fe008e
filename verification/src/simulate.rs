//! A session played against a model terminal, and what holds of every such
//! play.
//!
//! A script is the sequence of outcomes that the caller would report, one
//! for each step the session asks for. Outcomes that come after the session
//! is over are ignored.

use crate::app::{edit_mode_after, lemma_after_all_edit_mode, App, Input};
use crate::session::{Command, Outcome, Session, Step, Terminal};
use vstd::prelude::*;

verus! {

/// A step that was performed, and whether it succeeded.
#[derive(Clone, Copy, Debug, PartialEq, Eq, Structural)]
pub struct Performed {
    pub step: Step,
    pub ok: bool,
}

/// Where a play stands: the session, the model terminal, the steps
/// performed so far and the inputs read so far.
pub struct Play {
    pub session: Session,
    pub terminal: Terminal,
    pub trace: Seq<Performed>,
    pub inputs: Seq<Input>,
}

/// The result of playing a script.
#[derive(Clone, Debug, PartialEq, Eq)]
pub struct Report {
    pub session: Session,
    pub terminal: Terminal,
    pub trace: Vec<Performed>,
    pub inputs: Vec<Input>,
}

impl Play {
    /// The play after one more outcome.
    pub open spec fn step(self, outcome: Outcome) -> Play {
        match self.session.pending {
            Command::Exit => self,
            Command::Run(step) => Play {
                session: self.session.advanced(outcome),
                terminal: self.terminal.after(step, outcome.ok()),
                trace: self.trace.push(Performed { step, ok: outcome.ok() }),
                inputs: if step == Step::ReadInput && outcome.ok() {
                    self.inputs.push(outcome.input())
                } else {
                    self.inputs
                },
            },
        }
    }
}

impl View for Report {
    type V = Play;

    open spec fn view(&self) -> Play {
        Play {
            session: self.session,
            terminal: self.terminal,
            trace: self.trace@,
            inputs: self.inputs@,
        }
    }
}

/// The play of a whole script, from a new session on a pristine terminal.
pub open spec fn simulate(script: Seq<Outcome>) -> Play
    decreases script.len(),
{
    if script.len() == 0 {
        Play {
            session: Session::start(),
            terminal: Terminal::pristine_spec(),
            trace: Seq::empty(),
            inputs: Seq::empty(),
        }
    } else {
        simulate(script.drop_last()).step(script.last())
    }
}

/// Some release step of the trace failed.
pub open spec fn release_failed(trace: Seq<Performed>) -> bool {
    exists|i: int| 0 <= i < trace.len() && (#[trigger] trace[i]).step.is_release() && !trace[i].ok
}

/// Every step among `trace[0..hi]` succeeded.
pub open spec fn all_ok_before(trace: Seq<Performed>, hi: int) -> bool {
    forall|i: int| 0 <= i < hi ==> (#[trigger] trace[i]).ok
}

/// The first step of the trace that failed, if any did.
pub open spec fn is_first_failure(trace: Seq<Performed>, failure: Option<Step>) -> bool {
    match failure {
        None => all_ok_before(trace, trace.len() as int),
        Some(step) => exists|i: int|
            0 <= i < trace.len() && #[trigger] trace[i] == (Performed { step, ok: false })
                && all_ok_before(trace, i),
    }
}

/// Some input is the quit key.
pub open spec fn has_quit(inputs: Seq<Input>) -> bool {
    exists|i: int| 0 <= i < inputs.len() && (#[trigger] inputs[i]).is_quit()
}

/// Whether a performed step takes the flag at `index` of the release order
/// from the terminal: raw mode, the alternate screen and mouse capture are
/// taken when enabling them succeeds, the cursor when a draw is attempted.
pub open spec fn takes(performed: Performed, index: int) -> bool {
    ||| index == 0 && performed == (Performed { step: Step::EnableRawMode, ok: true })
    ||| index == 1 && performed == (Performed { step: Step::EnterAlternateScreen, ok: true })
    ||| index == 2 && performed == (Performed { step: Step::EnableMouseCapture, ok: true })
    ||| index == 3 && performed.step == Step::Draw
}

/// Some step of the trace took the flag at `index`.
pub open spec fn taken(trace: Seq<Performed>, index: int) -> bool {
    exists|i: int| 0 <= i < trace.len() && takes(#[trigger] trace[i], index)
}

/// The release step for the flag at `index` is in the trace.
pub open spec fn release_attempted(trace: Seq<Performed>, index: int) -> bool {
    exists|i: int| 0 <= i < trace.len() && (#[trigger] trace[i]).step.release_index() == index
}

/// The place in the release order that a command stands at: that of its
/// step, 4 once the session is over, and -1 before any release.
pub open spec fn release_place(command: Command) -> int {
    match command {
        Command::Exit => 4,
        Command::Run(step) => step.release_index(),
    }
}

/// Plays a script of outcomes against a model terminal.
pub fn run_script(script: &Vec<Outcome>) -> (report: Report)
    ensures
        report@ == simulate(script@),
{
    let mut session = Session::new();
    let mut terminal = Terminal::pristine();
    let mut trace: Vec<Performed> = Vec::new();
    let mut inputs: Vec<Input> = Vec::new();
    let mut i: usize = 0;
    proof {
        assert(script@.take(0) =~= Seq::<Outcome>::empty());
    }
    while i < script.len()
        invariant
            i <= script@.len(),
            (Play { session, terminal, trace: trace@, inputs: inputs@ }) == simulate(
                script@.take(i as int),
            ),
        decreases script@.len() - i,
    {
        let outcome = script[i];
        proof {
            let longer = script@.take(i + 1);
            assert(longer.drop_last() =~= script@.take(i as int));
            assert(longer.last() == outcome);
        }
        match session.command() {
            Command::Exit => {},
            Command::Run(step) => {
                let ok = match outcome {
                    Outcome::Failed => false,
                    _ => true,
                };
                match (step, outcome) {
                    (Step::ReadInput, Outcome::Event(input)) => {
                        inputs.push(input);
                    },
                    (Step::ReadInput, Outcome::Done) => {
                        inputs.push(Input::Other);
                    },
                    _ => {},
                }
                terminal.apply(step, ok);
                trace.push(Performed { step, ok });
                session.advance(outcome);
            },
        }
        i = i + 1;
    }
    proof {
        assert(script@.take(i as int) =~= script@);
    }
    Report { session, terminal, trace, inputs }
}

/// What every play keeps: the session holds exactly what the model terminal
/// has set, its state is the one the inputs read so far lead to, the
/// recorded failure is the first of the trace, releasing has begun only
/// after a failure or a `q`, and a flag whose release is already behind is
/// still set only if a release failed.
pub open spec fn consistent(play: Play) -> bool {
    &&& play.terminal == play.session.held
    &&& play.session.app == (App { edit_mode: false }).after_all(play.inputs)
    &&& is_first_failure(play.trace, play.session.failure)
    &&& release_place(play.session.pending) != -1 ==> play.session.failure.is_some() || has_quit(
        play.inputs,
    )
    &&& forall|index: int|
        0 <= index < release_place(play.session.pending) && #[trigger] play.session.held.flag(index)
            ==> release_failed(play.trace)
}

proof fn lemma_step_consistent(play: Play, outcome: Outcome)
    requires
        consistent(play),
    ensures
        consistent(play.step(outcome)),
{
    let next = play.step(outcome);
    match play.session.pending {
        Command::Exit => {},
        Command::Run(step) => {
            let done = Performed { step, ok: outcome.ok() };
            let n = play.trace.len() as int;
            assert(next.trace[n] == done);
            assert forall|i: int| 0 <= i < n implies #[trigger] next.trace[i] == play.trace[i] by {}
            // The state follows the inputs.
            if step == Step::ReadInput && outcome.ok() {
                assert(next.inputs.drop_last() =~= play.inputs);
                assert(next.inputs.last() == outcome.input());
                if outcome.input().is_quit() {
                    assert(next.inputs[play.inputs.len() as int].is_quit());
                }
            }
            if has_quit(play.inputs) {
                let i = choose|i: int| 0 <= i < play.inputs.len() && (#[trigger] play.inputs[i]).is_quit();
                assert(next.inputs[i] == play.inputs[i]);
            }
            // The first failure stays the first.
            match play.session.failure {
                None => {
                    if !outcome.ok() {
                        assert(all_ok_before(next.trace, n));
                        assert(next.trace[n] == (Performed { step, ok: false }));
                    } else {
                        assert(all_ok_before(next.trace, n + 1));
                    }
                },
                Some(first) => {
                    let i = choose|i: int|
                        0 <= i < n && #[trigger] play.trace[i] == (Performed {
                            step: first,
                            ok: false,
                        }) && all_ok_before(play.trace, i);
                    assert(next.trace[i] == play.trace[i]);
                    assert(all_ok_before(next.trace, i));
                },
            }
            // A release that failed is in the trace from then on.
            if release_failed(play.trace) {
                let i = choose|i: int|
                    0 <= i < n && (#[trigger] play.trace[i]).step.is_release() && !play.trace[i].ok;
                assert(next.trace[i] == play.trace[i]);
                assert(release_failed(next.trace));
            }
            if step.is_release() && !outcome.ok() {
                assert(next.trace[n].step.is_release() && !next.trace[n].ok);
                assert(release_failed(next.trace));
            }
            assert forall|index: int|
                0 <= index < release_place(next.session.pending)
                    && #[trigger] next.session.held.flag(index) implies release_failed(
                next.trace,
            ) by {
                if step.is_release() {
                    if index < step.release_index() {
                        assert(play.session.held.flag(index));
                    }
                }
            }
        },
    }
}

/// Every play is consistent.
pub proof fn lemma_simulate_consistent(script: Seq<Outcome>)
    ensures
        consistent(simulate(script)),
    decreases script.len(),
{
    if script.len() > 0 {
        lemma_simulate_consistent(script.drop_last());
        lemma_step_consistent(simulate(script.drop_last()), script.last());
    }
}

/// What every play keeps of the things it took: a flag that was taken is
/// held until its release comes up, and from then on the release is in the
/// trace.
pub open spec fn thorough(play: Play) -> bool {
    forall|index: int|
        0 <= index < 4 && #[trigger] taken(play.trace, index) ==> if release_place(
            play.session.pending,
        ) <= index {
            play.session.held.flag(index)
        } else {
            release_attempted(play.trace, index)
        }
}

proof fn lemma_step_thorough(play: Play, outcome: Outcome)
    requires
        thorough(play),
    ensures
        thorough(play.step(outcome)),
{
    let next = play.step(outcome);
    match play.session.pending {
        Command::Exit => {},
        Command::Run(step) => {
            let n = play.trace.len() as int;
            assert(next.trace[n] == (Performed { step, ok: outcome.ok() }));
            assert forall|i: int| 0 <= i < n implies #[trigger] next.trace[i] == play.trace[i] by {}
            assert forall|index: int| 0 <= index < 4 && #[trigger] taken(next.trace, index) implies (
            if release_place(next.session.pending) <= index {
                next.session.held.flag(index)
            } else {
                release_attempted(next.trace, index)
            }) by {
                let i = choose|i: int|
                    0 <= i < next.trace.len() && takes(#[trigger] next.trace[i], index);
                if i < n {
                    assert(takes(play.trace[i], index));
                    assert(taken(play.trace, index));
                }
                if release_attempted(play.trace, index) {
                    let j = choose|j: int|
                        0 <= j < n && (#[trigger] play.trace[j]).step.release_index() == index;
                    assert(next.trace[j] == play.trace[j]);
                    assert(release_attempted(next.trace, index));
                }
                if step.release_index() == index {
                    assert(next.trace[n].step.release_index() == index);
                    assert(release_attempted(next.trace, index));
                }
            }
        },
    }
}

/// Every play is thorough.
pub proof fn lemma_simulate_thorough(script: Seq<Outcome>)
    ensures
        thorough(simulate(script)),
    decreases script.len(),
{
    if script.len() > 0 {
        lemma_simulate_thorough(script.drop_last());
        lemma_step_thorough(simulate(script.drop_last()), script.last());
    }
}

/// The loop never ends on its own: as long as no step has failed and no
/// `q` was read, the session is not over and releases nothing.
pub proof fn law_runs_until_quit(script: Seq<Outcome>)
    requires
        all_ok_before(simulate(script).trace, simulate(script).trace.len() as int),
        !has_quit(simulate(script).inputs),
    ensures
        !simulate(script).session.ended(),
        release_place(simulate(script).session.pending) == -1,
{
    lemma_simulate_consistent(script);
    let play = simulate(script);
    if play.session.failure.is_some() {
        let step = play.session.failure.unwrap();
        let i = choose|i: int|
            0 <= i < play.trace.len() && #[trigger] play.trace[i] == (Performed {
                step,
                ok: false,
            }) && all_ok_before(play.trace, i);
        assert(!play.trace[i].ok);
    }
}

/// Edit mode is on exactly when, among the inputs read so far, an `e` is
/// more recent than any escape key.
pub proof fn law_edit_mode_tracks_inputs(script: Seq<Outcome>)
    ensures
        simulate(script).session.app.edit_mode == edit_mode_after(false, simulate(script).inputs),
{
    lemma_simulate_consistent(script);
    lemma_after_all_edit_mode(App { edit_mode: false }, simulate(script).inputs);
}

/// After the session is over the terminal is back in cooked mode, on the
/// normal screen, without mouse capture and with a visible cursor, however
/// the loop ended, unless a release step itself failed.
pub proof fn law_terminal_restored(script: Seq<Outcome>)
    requires
        simulate(script).session.ended(),
        !release_failed(simulate(script).trace),
    ensures
        simulate(script).terminal == Terminal::pristine_spec(),
{
    lemma_simulate_consistent(script);
    let play = simulate(script);
    assert(!play.session.held.flag(0));
    assert(!play.session.held.flag(1));
    assert(!play.session.held.flag(2));
    assert(!play.session.held.flag(3));
}

/// Before the session is over, the release of everything it took was
/// attempted, whether or not an earlier release failed.
pub proof fn law_release_attempted(script: Seq<Outcome>, index: int)
    requires
        simulate(script).session.ended(),
        0 <= index < 4,
        taken(simulate(script).trace, index),
    ensures
        release_attempted(simulate(script).trace, index),
{
    lemma_simulate_thorough(script);
}

/// Once releasing has begun the session is over after at most four more
/// steps, however they go.
pub proof fn law_release_ends(play: Play, a: Outcome, b: Outcome, c: Outcome, d: Outcome)
    requires
        release_place(play.session.pending) >= 0,
    ensures
        play.step(a).step(b).step(c).step(d).session.ended(),
{
    let first = play.step(a);
    let second = first.step(b);
    let third = second.step(c);
    assert(release_place(first.session.pending) >= 1);
    assert(release_place(second.session.pending) >= 2);
    assert(release_place(third.session.pending) >= 3);
}

/// The exit status goes by the first failure of the run: it is 0 exactly
/// when no step failed, and a failure while releasing never replaces an
/// earlier one.
pub proof fn law_first_failure_reported(script: Seq<Outcome>)
    ensures
        is_first_failure(simulate(script).trace, simulate(script).session.failure),
        simulate(script).session.ended() ==> (simulate(script).session.exit_code_spec() == Some(0u8)
            <==> all_ok_before(simulate(script).trace, simulate(script).trace.len() as int)),
{
    lemma_simulate_consistent(script);
    let play = simulate(script);
    if play.session.failure.is_some() {
        let step = play.session.failure.unwrap();
        let i = choose|i: int|
            0 <= i < play.trace.len() && #[trigger] play.trace[i] == (Performed {
                step,
                ok: false,
            }) && all_ok_before(play.trace, i);
        assert(!play.trace[i].ok);
    }
}

/// Releasing is idempotent: a release step that succeeded changes nothing
/// when it succeeds again, and the four of them together restore any
/// terminal.
pub proof fn law_release_idempotent(terminal: Terminal, step: Step)
    requires
        step.is_release(),
    ensures
        terminal.after(step, true).after(step, true) == terminal.after(step, true),
        terminal.after(Step::DisableRawMode, true).after(Step::LeaveAlternateScreen, true).after(
            Step::DisableMouseCapture,
            true,
        ).after(Step::ShowCursor, true) == Terminal::pristine_spec(),
{
}

} // verus!
