//! The test harness: runs registered cases in order, announces each one on
//! the output device before it runs and marks it after, stops at the first
//! failure, and ends with an exit signal for the outside test runner.
//!
//! The harness decides; its caller runs the case that an action names and
//! reports back how the case ended.
use vstd::prelude::*;
use vstd::string::StringSliceAdditionalSpecFns;
use crate::fault::{location_view, panic_text, push_panic_text, PanicLocation};
use crate::output::{write_spec, OutputDevice};
use crate::text::{decimal, push_decimal, push_str};

verus! {

/// The out-of-band result of a run.
#[derive(Clone, Copy, Debug, PartialEq, Eq, Structural)]
pub enum ExitCode {
    Success,
    Failed,
}

impl ExitCode {
    /// The value written to the exit port.
    pub fn code(&self) -> (r: u32)
        ensures
            *self == ExitCode::Success ==> r == 0x10,
            *self == ExitCode::Failed ==> r == 0x11,
    {
        match self {
            ExitCode::Success => 0x10,
            ExitCode::Failed => 0x11,
        }
    }
}

/// Where a run stands.
#[derive(Clone, Copy, Debug, PartialEq, Eq, Structural)]
pub enum HarnessState {
    NotStarted,
    /// The case at this index is running.
    Running(usize),
    /// Every case passed.
    Completed,
    /// A case failed; nothing runs any more.
    Halted,
}

/// What the harness is told.
#[derive(Clone, Copy, Debug, PartialEq, Eq, Structural)]
pub enum HarnessEvent {
    Begin,
    CasePassed,
    CaseFailed,
}

/// What the harness asks of its caller.
#[derive(Clone, Copy, Debug, PartialEq, Eq, Structural)]
pub enum HarnessAction {
    /// Run the case at this index, then report how it ended.
    RunCase(usize),
    /// Send this exit signal and halt.
    Exit(ExitCode),
    /// The event does not apply in this state; nothing to do.
    Ignore,
}

/// The next state and the action, for a run of `n` cases.
pub open spec fn harness_next(s: HarnessState, n: nat, e: HarnessEvent) -> (HarnessState, HarnessAction) {
    match (s, e) {
        (HarnessState::NotStarted, HarnessEvent::Begin) => if n > 0 {
            (HarnessState::Running(0), HarnessAction::RunCase(0))
        } else {
            (HarnessState::Completed, HarnessAction::Exit(ExitCode::Success))
        },
        (HarnessState::Running(i), HarnessEvent::CasePassed) => if i + 1 < n {
            (HarnessState::Running((i + 1) as usize), HarnessAction::RunCase((i + 1) as usize))
        } else {
            (HarnessState::Completed, HarnessAction::Exit(ExitCode::Success))
        },
        (HarnessState::Running(i), HarnessEvent::CaseFailed) => (
            HarnessState::Halted,
            HarnessAction::Exit(ExitCode::Failed),
        ),
        _ => (s, HarnessAction::Ignore),
    }
}

/// The line that announces a case: its name, `...` and a tab.
pub open spec fn case_line(name: Seq<u8>) -> Seq<u8> {
    name + "...\t".spec_bytes()
}

/// The announcement of the case that runs next, if one does.
pub open spec fn next_case_text(names: Seq<Seq<u8>>, i: int) -> Seq<u8> {
    if 0 <= i < names.len() {
        case_line(names[i])
    } else {
        Seq::empty()
    }
}

/// What the harness writes for an event: the header and the first case's
/// announcement at the start, `[ok]` and the next announcement after a pass,
/// `[failed]` and the fault report after a failure, nothing otherwise.
pub open spec fn harness_output(
    names: Seq<Seq<u8>>,
    s: HarnessState,
    e: HarnessEvent,
    failure: Seq<u8>,
) -> Seq<u8> {
    match (s, e) {
        (HarnessState::NotStarted, HarnessEvent::Begin) => "Running ".spec_bytes() + decimal(
            names.len(),
        ) + " tests\n".spec_bytes() + next_case_text(names, 0),
        (HarnessState::Running(i), HarnessEvent::CasePassed) => "[ok]\n".spec_bytes()
            + next_case_text(names, i + 1),
        (HarnessState::Running(i), HarnessEvent::CaseFailed) => "[failed]\n\n".spec_bytes()
            + "Error: ".spec_bytes() + failure + "\n\n".spec_bytes(),
        _ => Seq::empty(),
    }
}

/// What a runner is: the names of its cases in order, and where it stands.
pub struct HarnessView {
    pub names: Seq<Seq<u8>>,
    pub state: HarnessState,
}

impl HarnessView {
    pub open spec fn wf(self) -> bool {
        match self.state {
            HarnessState::Running(i) => i < self.names.len(),
            _ => true,
        }
    }
}

/// A run over cases registered in order.
pub struct TestRunner {
    names: Vec<&'static str>,
    state: HarnessState,
}

impl View for TestRunner {
    type V = HarnessView;

    closed spec fn view(&self) -> HarnessView {
        HarnessView {
            names: Seq::new(self.names@.len(), |i: int| self.names@[i].spec_bytes()),
            state: self.state,
        }
    }
}

impl TestRunner {
    pub open spec fn wf(&self) -> bool {
        self@.wf()
    }

    /// A run that has not started, over the cases named in order.
    pub fn new(names: Vec<&'static str>) -> (r: TestRunner)
        ensures
            r@.names == Seq::new(names@.len(), |i: int| names@[i].spec_bytes()),
            r@.state == HarnessState::NotStarted,
            r.wf(),
    {
        TestRunner { names, state: HarnessState::NotStarted }
    }

    pub fn state(&self) -> (r: HarnessState)
        ensures
            r == self@.state,
    {
        self.state
    }

    pub fn case_count(&self) -> (r: usize)
        ensures
            r == self@.names.len(),
    {
        self.names.len()
    }

    fn push_next_case(&self, out: &mut Vec<u8>, i: usize)
        ensures
            final(out)@ == old(out)@ + next_case_text(self@.names, i as int),
    {
        if i < self.names.len() {
            push_str(out, self.names[i]);
            push_str(out, "...\t");
            assert(out@ =~= old(out)@ + next_case_text(self@.names, i as int));
        } else {
            assert(out@ =~= old(out)@ + next_case_text(self@.names, i as int));
        }
    }

    /// Applies an event: writes what `harness_output` gives on the device and
    /// moves as `harness_next` gives. `message` and `location` describe the
    /// failure and are read only for `CaseFailed`.
    pub fn step(
        &mut self,
        dev: &mut OutputDevice,
        event: HarnessEvent,
        message: &str,
        location: Option<PanicLocation>,
    ) -> (action: HarnessAction)
        requires
            old(self).wf(),
            old(dev).wf(),
        ensures
            final(self).wf(),
            final(dev).wf(),
            final(self)@.names == old(self)@.names,
            (final(self)@.state, action) == harness_next(
                old(self)@.state,
                old(self)@.names.len(),
                event,
            ),
            final(dev)@ == write_spec(
                old(dev)@,
                harness_output(
                    old(self)@.names,
                    old(self)@.state,
                    event,
                    panic_text(message.spec_bytes(), location_view(location)),
                ),
            ).0,
    {
        let ghost names = self@.names;
        let ghost failure = panic_text(message.spec_bytes(), location_view(location));
        let mut out: Vec<u8> = Vec::new();
        let n = self.names.len();
        let action = match (self.state, event) {
            (HarnessState::NotStarted, HarnessEvent::Begin) => {
                push_str(&mut out, "Running ");
                push_decimal(&mut out, n as u64);
                push_str(&mut out, " tests\n");
                self.push_next_case(&mut out, 0);
                if n > 0 {
                    self.state = HarnessState::Running(0);
                    HarnessAction::RunCase(0)
                } else {
                    self.state = HarnessState::Completed;
                    HarnessAction::Exit(ExitCode::Success)
                }
            },
            (HarnessState::Running(i), HarnessEvent::CasePassed) => {
                push_str(&mut out, "[ok]\n");
                self.push_next_case(&mut out, i + 1);
                if i + 1 < n {
                    self.state = HarnessState::Running(i + 1);
                    HarnessAction::RunCase(i + 1)
                } else {
                    self.state = HarnessState::Completed;
                    HarnessAction::Exit(ExitCode::Success)
                }
            },
            (HarnessState::Running(_), HarnessEvent::CaseFailed) => {
                push_str(&mut out, "[failed]\n\n");
                push_str(&mut out, "Error: ");
                push_panic_text(&mut out, message.as_bytes(), location);
                push_str(&mut out, "\n\n");
                self.state = HarnessState::Halted;
                HarnessAction::Exit(ExitCode::Failed)
            },
            _ => HarnessAction::Ignore,
        };
        assert(self@.names =~= names);
        assert(out@ =~= harness_output(names, old(self)@.state, event, failure));
        let _ = dev.write_bytes(out.as_slice());
        action
    }
}

/// A failure is final: a halted run ignores every later event, writes
/// nothing more, and so never sends the success signal.
pub proof fn lemma_failure_is_final(names: Seq<Seq<u8>>, i: usize, e: HarnessEvent, failure: Seq<u8>)
    requires
        i < names.len(),
    ensures
        harness_next(HarnessState::Running(i), names.len(), HarnessEvent::CaseFailed) == (
            HarnessState::Halted,
            HarnessAction::Exit(ExitCode::Failed),
        ),
        harness_next(HarnessState::Halted, names.len(), e) == (
            HarnessState::Halted,
            HarnessAction::Ignore,
        ),
        harness_output(names, HarnessState::Halted, e, failure) == Seq::<u8>::empty(),
{
}

} // verus!
