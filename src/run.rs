//! The decisions of a validation run: compile the schema once, then check the
//! instances one by one in the order given, and decide the overall result.
use vstd::prelude::*;
use crate::report::{block, report_lines, schema_invalid, schema_invalid_line, Outcome};

verus! {

/// The stage a run is in.
#[derive(Debug, Clone, Copy, PartialEq, Eq, Structural)]
pub enum Phase {
    /// Waiting for the schema to be compiled.
    Compiling,
    /// Checking the instance numbered by the run's cursor.
    Checking,
    /// Nothing is left to do.
    Finished,
}

/// What the caller of a run does next.
#[derive(Debug, Clone, Copy, PartialEq, Eq, Structural)]
pub enum Action {
    /// Load the instance at this index and validate it against the compiled schema.
    CheckInstance(usize),
    /// Stop; the flag is the overall result.
    Finish(bool),
}

/// The state of a run over a fixed number of instances.
pub struct Run {
    total: usize,
    next: usize,
    success: bool,
    phase: Phase,
}

/// The abstract state of a run: how many instances there are, how many have
/// been checked, whether everything so far succeeded, and the stage.
pub struct RunView {
    pub total: nat,
    pub next: nat,
    pub success: bool,
    pub phase: Phase,
}

impl View for Run {
    type V = RunView;

    closed spec fn view(&self) -> RunView {
        RunView {
            total: self.total as nat,
            next: self.next as nat,
            success: self.success,
            phase: self.phase,
        }
    }
}

/// The action that follows a state in which the schema has compiled.
pub open spec fn action_after(v: RunView) -> Action {
    if v.next < v.total {
        Action::CheckInstance(v.next as usize)
    } else {
        Action::Finish(v.success)
    }
}

/// The stage that follows a state in which the schema has compiled.
pub open spec fn phase_after(next: nat, total: nat) -> Phase {
    if next < total {
        Phase::Checking
    } else {
        Phase::Finished
    }
}

impl Run {
    /// The run's internal consistency.
    pub open spec fn wf(&self) -> bool {
        &&& self@.next <= self@.total
        &&& self@.total <= usize::MAX
        &&& self@.phase == Phase::Compiling ==> self@.next == 0 && self@.success
        &&& self@.phase == Phase::Checking ==> self@.next < self@.total
    }

    /// A run over `total` instances, before the schema is compiled.
    pub fn new(total: usize) -> (r: Run)
        ensures
            r.wf(),
            r@ == (RunView { total: total as nat, next: 0, success: true, phase: Phase::Compiling }),
    {
        Run { total, next: 0, success: true, phase: Phase::Compiling }
    }

    /// Whether the run has reached its end.
    pub fn is_finished(&self) -> (r: bool)
        ensures
            r == (self@.phase == Phase::Finished),
    {
        self.phase == Phase::Finished
    }

    /// Takes the result of compiling the schema: `Ok` when it compiled, or the
    /// compiler's message. A schema that does not compile is reported in one
    /// line and ends the run as a failure before any instance is checked;
    /// otherwise the first instance is checked next, or the run succeeds at
    /// once when there is none.
    pub fn on_compile(&mut self, compiled: &Result<(), String>) -> (r: (Vec<String>, Action))
        requires
            old(self).wf(),
            old(self)@.phase == Phase::Compiling,
        ensures
            final(self).wf(),
            final(self)@.total == old(self)@.total,
            final(self)@.next == 0,
            match compiled {
                Ok(_) => {
                    &&& r.0.deep_view() == Seq::<Seq<char>>::empty()
                    &&& final(self)@.success
                    &&& final(self)@.phase == phase_after(0, old(self)@.total)
                    &&& r.1 == action_after(final(self)@)
                },
                Err(m) => {
                    &&& r.0.deep_view() == seq![schema_invalid(m@)]
                    &&& !final(self)@.success
                    &&& final(self)@.phase == Phase::Finished
                    &&& r.1 == Action::Finish(false)
                },
            },
    {
        match compiled {
            Ok(_) => {
                let lines: Vec<String> = Vec::new();
                if self.total == 0 {
                    self.phase = Phase::Finished;
                    (lines, Action::Finish(self.success))
                } else {
                    self.phase = Phase::Checking;
                    (lines, Action::CheckInstance(0))
                }
            },
            Err(m) => {
                let mut lines: Vec<String> = Vec::new();
                lines.push(schema_invalid_line(m.as_str()));
                self.success = false;
                self.phase = Phase::Finished;
                proof {
                    assert(lines.deep_view() =~= seq![schema_invalid(m@)]);
                }
                (lines, Action::Finish(false))
            },
        }
    }

    /// Takes the outcome of the instance at the cursor, whose display name is
    /// `name`: returns its block of report lines and what to do next. An
    /// invalid instance makes the overall result a failure; the run goes on
    /// with the next instance either way.
    pub fn on_instance(&mut self, name: &str, outcome: &Outcome) -> (r: (Vec<String>, Action))
        requires
            old(self).wf(),
            old(self)@.phase == Phase::Checking,
        ensures
            final(self).wf(),
            r.0.deep_view() == block(name@, *outcome),
            final(self)@.total == old(self)@.total,
            final(self)@.next == old(self)@.next + 1,
            final(self)@.success == (old(self)@.success && outcome.is_valid_spec()),
            final(self)@.phase == phase_after(final(self)@.next, final(self)@.total),
            r.1 == action_after(final(self)@),
    {
        let lines = report_lines(name, outcome);
        if !outcome.is_valid() {
            self.success = false;
        }
        self.next = self.next + 1;
        if self.next < self.total {
            self.phase = Phase::Checking;
            (lines, Action::CheckInstance(self.next))
        } else {
            self.phase = Phase::Finished;
            (lines, Action::Finish(self.success))
        }
    }
}

/// The report blocks of the checked instances, in the order given.
pub open spec fn blocks(results: Seq<(String, Outcome)>) -> Seq<Seq<char>>
    decreases results.len(),
{
    if results.len() == 0 {
        Seq::empty()
    } else {
        blocks(results.drop_last()) + block(results.last().0@, results.last().1)
    }
}

/// Whether every checked instance is valid.
pub open spec fn all_valid(results: Seq<(String, Outcome)>) -> bool {
    forall|i: int| 0 <= i < results.len() ==> (#[trigger] results[i]).1.is_valid_spec()
}

/// The whole report of a run, given the compilation result and the outcome of
/// each instance in order.
pub open spec fn run_lines(compiled: Result<(), String>, results: Seq<(String, Outcome)>) -> Seq<Seq<char>> {
    match compiled {
        Ok(_) => blocks(results),
        Err(m) => seq![schema_invalid(m@)],
    }
}

/// The overall result of a run: the schema compiled and every instance is valid.
pub open spec fn run_success(compiled: Result<(), String>, results: Seq<(String, Outcome)>) -> bool {
    compiled is Ok && all_valid(results)
}

/// Appends `more` to `lines`.
fn append_lines(lines: &mut Vec<String>, more: Vec<String>)
    ensures
        final(lines).deep_view() == old(lines).deep_view() + more.deep_view(),
{
    let mut more = more;
    let ghost added = more.deep_view();
    let ghost start = lines.deep_view();
    lines.append(&mut more);
    assert(lines.deep_view() =~= start + added);
}

/// The report and overall result of a run whose outcomes are all at hand:
/// the compilation result, and each instance's display name and outcome in
/// the order the instances were given.
pub fn report_run(compiled: &Result<(), String>, results: &Vec<(String, Outcome)>) -> (r: (Vec<String>, bool))
    ensures
        r.0.deep_view() == run_lines(*compiled, results@),
        r.1 == run_success(*compiled, results@),
{
    let mut run = Run::new(results.len());
    let (mut lines, mut action) = run.on_compile(compiled);
    loop
        invariant
            run.wf(),
            run@.total == results.len(),
            compiled is Err ==> action == Action::Finish(false) && lines.deep_view() == run_lines(*compiled, results@),
            compiled is Ok ==> {
                &&& action == action_after(run@)
                &&& run@.phase == phase_after(run@.next, run@.total)
                &&& lines.deep_view() == blocks(results@.take(run@.next as int))
                &&& run@.success == all_valid(results@.take(run@.next as int))
            },
        decreases results.len() - run@.next,
    {
        match action {
            Action::Finish(ok) => {
                proof {
                    if compiled is Ok {
                        assert(results@.take(run@.next as int) =~= results@);
                    }
                }
                return (lines, ok);
            },
            Action::CheckInstance(i) => {
                let ghost done = results@.take(run@.next as int);
                let (more, next_action) = run.on_instance(results[i].0.as_str(), &results[i].1);
                append_lines(&mut lines, more);
                action = next_action;
                proof {
                    let now = results@.take(run@.next as int);
                    assert(now.drop_last() =~= done);
                    assert(now.last() == results@[i as int]);
                    assert(all_valid(now) == (all_valid(done) && results@[i as int].1.is_valid_spec())) by {
                        if all_valid(done) && results@[i as int].1.is_valid_spec() {
                            assert forall|j: int| 0 <= j < now.len() implies (#[trigger] now[j]).1.is_valid_spec() by {
                                if j < done.len() {
                                    assert(now[j] == done[j]);
                                }
                            }
                        }
                        if all_valid(now) {
                            assert forall|j: int| 0 <= j < done.len() implies (#[trigger] done[j]).1.is_valid_spec() by {
                                assert(now[j] == done[j]);
                            }
                            assert(now[i as int] == results@[i as int]);
                        }
                    }
                }
            },
        }
    }
}

} // verus!
