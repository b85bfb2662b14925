//! The entry point's sequence: banner, handler installation, the breakpoint
//! probe, then either the idle loop or the test harness. The caller performs
//! each action and reports back; it never returns to the bootloader.
use vstd::prelude::*;
use vstd::string::StringSliceAdditionalSpecFns;
use crate::output::{write_spec, OutputDevice};

verus! {

/// Which image was built: the kernel itself or its test build.
#[derive(Clone, Copy, Debug, PartialEq, Eq, Structural)]
pub enum BuildMode {
    Normal,
    Test,
}

#[derive(Clone, Copy, Debug, PartialEq, Eq, Structural)]
pub enum BootState {
    /// Control has just come from the bootloader.
    Entered,
    /// The exception handlers are being installed.
    Initializing,
    /// The breakpoint probe is running.
    Probing,
    /// The test harness is running.
    Testing,
    /// Startup is over; the processor idles for good.
    Idle,
}

#[derive(Clone, Copy, Debug, PartialEq, Eq, Structural)]
pub enum BootEvent {
    Start,
    HandlersInstalled,
    ProbeReturned,
    TestsReturned,
}

#[derive(Clone, Copy, Debug, PartialEq, Eq, Structural)]
pub enum BootAction {
    InstallHandlers,
    TriggerBreakpoint,
    RunTests,
    IdleLoop,
    /// The event does not apply in this state; nothing to do.
    Ignore,
}

/// The next state and the action.
pub open spec fn boot_next(mode: BuildMode, s: BootState, e: BootEvent) -> (BootState, BootAction) {
    match (s, e) {
        (BootState::Entered, BootEvent::Start) => (BootState::Initializing, BootAction::InstallHandlers),
        (BootState::Initializing, BootEvent::HandlersInstalled) => (
            BootState::Probing,
            BootAction::TriggerBreakpoint,
        ),
        (BootState::Probing, BootEvent::ProbeReturned) => if mode == BuildMode::Test {
            (BootState::Testing, BootAction::RunTests)
        } else {
            (BootState::Idle, BootAction::IdleLoop)
        },
        (BootState::Testing, BootEvent::TestsReturned) => (BootState::Idle, BootAction::IdleLoop),
        _ => (s, BootAction::Ignore),
    }
}

/// What the sequence writes: the banner at the start, and a survival note
/// when it reaches the idle loop.
pub open spec fn boot_output(mode: BuildMode, s: BootState, e: BootEvent) -> Seq<u8> {
    if s == BootState::Entered && e == BootEvent::Start {
        "Hello World!\n".spec_bytes()
    } else if boot_next(mode, s, e).1 == BootAction::IdleLoop {
        "Did not crash!\n".spec_bytes()
    } else {
        Seq::empty()
    }
}

/// The entry point's progress.
pub struct Boot {
    pub mode: BuildMode,
    pub state: BootState,
}

impl Boot {
    /// The sequence as the bootloader hands over.
    pub fn new(mode: BuildMode) -> (b: Boot)
        ensures
            b.mode == mode,
            b.state == BootState::Entered,
    {
        Boot { mode, state: BootState::Entered }
    }

    /// Applies an event: writes what `boot_output` gives on the device and
    /// moves as `boot_next` gives.
    pub fn step(&mut self, dev: &mut OutputDevice, event: BootEvent) -> (action: BootAction)
        requires
            old(dev).wf(),
        ensures
            final(dev).wf(),
            final(self).mode == old(self).mode,
            (final(self).state, action) == boot_next(old(self).mode, old(self).state, event),
            final(dev)@ == write_spec(old(dev)@, boot_output(old(self).mode, old(self).state, event)).0,
    {
        let (next, action) = match (self.state, event) {
            (BootState::Entered, BootEvent::Start) => {
                let _ = dev.write_str("Hello World!\n");
                (BootState::Initializing, BootAction::InstallHandlers)
            },
            (BootState::Initializing, BootEvent::HandlersInstalled) => (
                BootState::Probing,
                BootAction::TriggerBreakpoint,
            ),
            (BootState::Probing, BootEvent::ProbeReturned) => match self.mode {
                BuildMode::Test => (BootState::Testing, BootAction::RunTests),
                BuildMode::Normal => {
                    let _ = dev.write_str("Did not crash!\n");
                    (BootState::Idle, BootAction::IdleLoop)
                },
            },
            (BootState::Testing, BootEvent::TestsReturned) => {
                let _ = dev.write_str("Did not crash!\n");
                (BootState::Idle, BootAction::IdleLoop)
            },
            _ => {
                assert(write_spec(old(dev)@, Seq::empty()).0 == old(dev)@);
                (self.state, BootAction::Ignore)
            },
        };
        self.state = next;
        action
    }
}

} // verus!
