//! The fault reporter: turns the description of an unrecoverable error into
//! text on the output device, then the system halts.
//!
//! Policy when the device's lock is already held (the fault happened inside
//! a write on this same context): printing is skipped. The lock is never
//! forced, so a grid that was half written is not written over.
use vstd::prelude::*;
use vstd::string::StringSliceAdditionalSpecFns;
use crate::output::{write_spec, OutputDevice};
use crate::text::{decimal, push_bytes, push_decimal, push_str};

verus! {

/// Where a fault was raised.
pub struct PanicLocation<'a> {
    pub file: &'a str,
    pub line: u32,
    pub column: u32,
}

/// The description of a fault as text, without a final newline:
/// `panicked at FILE:LINE:COLUMN:` and the message on the next line, or
/// `panicked:` and the message where the place is unknown.
pub open spec fn panic_text(message: Seq<u8>, location: Option<(Seq<u8>, u32, u32)>) -> Seq<u8> {
    match location {
        Some((file, line, column)) => "panicked at ".spec_bytes() + file + ":".spec_bytes()
            + decimal(line as nat) + ":".spec_bytes() + decimal(column as nat) + ":\n".spec_bytes()
            + message,
        None => "panicked:\n".spec_bytes() + message,
    }
}

/// The location as plain values.
pub open spec fn location_view(location: Option<PanicLocation>) -> Option<(Seq<u8>, u32, u32)> {
    match location {
        Some(l) => Some((l.file.spec_bytes(), l.line, l.column)),
        None => None,
    }
}

/// The terminal state that every fault reaches; nothing resumes from it.
#[derive(Clone, Copy, Debug, PartialEq, Eq, Structural)]
pub struct Halt {
    /// Whether the report reached the device.
    pub printed: bool,
}

/// Appends the description of a fault, as `panic_text` gives it.
pub fn push_panic_text(out: &mut Vec<u8>, message: &[u8], location: Option<PanicLocation>)
    ensures
        final(out)@ == old(out)@ + panic_text(message@, location_view(location)),
{
    match location {
        Some(l) => {
            push_str(out, "panicked at ");
            push_str(out, l.file);
            push_str(out, ":");
            push_decimal(out, l.line as u64);
            push_str(out, ":");
            push_decimal(out, l.column as u64);
            push_str(out, ":\n");
        },
        None => {
            push_str(out, "panicked:\n");
        },
    }
    push_bytes(out, message);
    assert(out@ =~= old(out)@ + panic_text(message@, location_view(location)));
}

/// The text of a fault, as `panic_text` gives it.
pub fn panic_message(message: &str, location: Option<PanicLocation>) -> (r: Vec<u8>)
    ensures
        r@ == panic_text(message.spec_bytes(), location_view(location)),
{
    let mut out: Vec<u8> = Vec::new();
    push_panic_text(&mut out, message.as_bytes(), location);
    assert(out@ =~= panic_text(message.spec_bytes(), location_view(location)));
    out
}

/// Reports a fault on the device, its text followed by a newline, unless
/// the device's lock is held, and returns the halt that follows.
pub fn report_panic(dev: &mut OutputDevice, message: &str, location: Option<PanicLocation>) -> (h: Halt)
    requires
        old(dev).wf(),
    ensures
        final(dev).wf(),
        (final(dev)@, h.printed) == write_spec(
            old(dev)@,
            panic_text(message.spec_bytes(), location_view(location)) + "\n".spec_bytes(),
        ),
        h.printed == !old(dev)@.locked,
{
    report_fault(dev, message.as_bytes(), location)
}

/// `report_panic` for a message given as bytes.
pub fn report_fault(dev: &mut OutputDevice, message: &[u8], location: Option<PanicLocation>) -> (h: Halt)
    requires
        old(dev).wf(),
    ensures
        final(dev).wf(),
        (final(dev)@, h.printed) == write_spec(
            old(dev)@,
            panic_text(message@, location_view(location)) + "\n".spec_bytes(),
        ),
        h.printed == !old(dev)@.locked,
{
    let mut out: Vec<u8> = Vec::new();
    push_panic_text(&mut out, message, location);
    push_str(&mut out, "\n");
    let printed = dev.write_bytes(out.as_slice());
    Halt { printed }
}

} // verus!
