//! What the installed exception handlers decide: a breakpoint traps and
//! execution resumes after it; every other class handled here is
//! unrecoverable, is reported as a fault and halts the system.
use vstd::prelude::*;
use vstd::string::StringSliceAdditionalSpecFns;
use crate::fault::{panic_text, report_fault, Halt};
use crate::output::{write_spec, OutputDevice};
use crate::text::push_str;

verus! {

/// The exception classes that the handler table covers.
#[derive(Clone, Copy, Debug, PartialEq, Eq, Structural)]
pub enum ExceptionClass {
    DivideError,
    Breakpoint,
    InvalidOpcode,
    DoubleFault,
    GeneralProtection,
    PageFault,
}

/// The name under which an exception is reported.
pub open spec fn exception_name(c: ExceptionClass) -> Seq<u8> {
    match c {
        ExceptionClass::DivideError => "DIVIDE ERROR".spec_bytes(),
        ExceptionClass::Breakpoint => "BREAKPOINT".spec_bytes(),
        ExceptionClass::InvalidOpcode => "INVALID OPCODE".spec_bytes(),
        ExceptionClass::DoubleFault => "DOUBLE FAULT".spec_bytes(),
        ExceptionClass::GeneralProtection => "GENERAL PROTECTION FAULT".spec_bytes(),
        ExceptionClass::PageFault => "PAGE FAULT".spec_bytes(),
    }
}

/// The line that announces an exception: `EXCEPTION: NAME`.
pub open spec fn exception_line(c: ExceptionClass) -> Seq<u8> {
    "EXCEPTION: ".spec_bytes() + exception_name(c)
}

/// Whether execution resumes after the trap: only a breakpoint does.
pub open spec fn resumable(c: ExceptionClass) -> bool {
    c == ExceptionClass::Breakpoint
}

/// What follows an exception.
#[derive(Clone, Copy, Debug, PartialEq, Eq, Structural)]
pub enum Disposition {
    /// Execution goes on at the instruction after the trap.
    Resume,
    /// The system halts.
    Halted(Halt),
}

impl ExceptionClass {
    pub fn name(&self) -> (r: &'static str)
        ensures
            r.spec_bytes() == exception_name(*self),
    {
        match self {
            ExceptionClass::DivideError => "DIVIDE ERROR",
            ExceptionClass::Breakpoint => "BREAKPOINT",
            ExceptionClass::InvalidOpcode => "INVALID OPCODE",
            ExceptionClass::DoubleFault => "DOUBLE FAULT",
            ExceptionClass::GeneralProtection => "GENERAL PROTECTION FAULT",
            ExceptionClass::PageFault => "PAGE FAULT",
        }
    }

    pub fn is_resumable(&self) -> (r: bool)
        ensures
            r == resumable(*self),
    {
        match self {
            ExceptionClass::Breakpoint => true,
            _ => false,
        }
    }
}

/// The handler's work for one exception. A resumable one is announced on
/// the device only when `announce` is set, and otherwise leaves the device
/// as it was; an unrecoverable one is reported as a fault and halts.
pub fn handle_exception(dev: &mut OutputDevice, class: ExceptionClass, announce: bool) -> (r: Disposition)
    requires
        old(dev).wf(),
    ensures
        final(dev).wf(),
        resumable(class) ==> r == Disposition::Resume,
        resumable(class) && !announce ==> final(dev)@ == old(dev)@,
        resumable(class) && announce ==> final(dev)@ == write_spec(
            old(dev)@,
            exception_line(class) + "\n".spec_bytes(),
        ).0,
        !resumable(class) ==> r == Disposition::Halted(Halt { printed: !old(dev)@.locked }),
        !resumable(class) ==> final(dev)@ == write_spec(
            old(dev)@,
            panic_text(exception_line(class), None) + "\n".spec_bytes(),
        ).0,
{
    let mut line: Vec<u8> = Vec::new();
    push_str(&mut line, "EXCEPTION: ");
    push_str(&mut line, class.name());
    assert(line@ =~= exception_line(class));
    if class.is_resumable() {
        if announce {
            push_str(&mut line, "\n");
            let _ = dev.write_bytes(line.as_slice());
        }
        Disposition::Resume
    } else {
        let h = report_fault(dev, line.as_slice(), None);
        Disposition::Halted(h)
    }
}

} // verus!
