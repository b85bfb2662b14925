//! The single output device: the writer behind a spin-style lock that is
//! either held or free and has no notion of an owner.
use vstd::prelude::*;
use vstd::string::StringSliceAdditionalSpecFns;
use crate::vga_buffer::{blank_view, write_all, Color, ColorCode, Writer, WriterView};

verus! {

/// What a device is: whether its lock is held, and its writer.
pub struct DeviceView {
    pub locked: bool,
    pub screen: WriterView,
}

impl DeviceView {
    pub open spec fn wf(self) -> bool {
        self.screen.wf()
    }
}

/// The attribute of text written by a device made with `with_default_color`:
/// yellow on black.
pub open spec fn default_color() -> ColorCode {
    ColorCode(14)
}

/// Taking the lock: it succeeds exactly when the lock is free, and the lock
/// is held afterwards either way.
pub open spec fn lock_spec(d: DeviceView) -> (DeviceView, bool) {
    (DeviceView { locked: true, screen: d.screen }, !d.locked)
}

/// Freeing the lock.
pub open spec fn unlock_spec(d: DeviceView) -> DeviceView {
    DeviceView { locked: false, screen: d.screen }
}

/// Writing while the caller holds the lock.
pub open spec fn locked_write_spec(d: DeviceView, bytes: Seq<u8>) -> DeviceView {
    DeviceView { locked: d.locked, screen: write_all(d.screen, bytes) }
}

/// A whole write: when the lock is free it is taken, the bytes are written
/// and it is freed again; when it is held (by this same context, which cannot
/// be waited for) nothing changes and the write reports that.
pub open spec fn write_spec(d: DeviceView, bytes: Seq<u8>) -> (DeviceView, bool) {
    if d.locked {
        (d, false)
    } else {
        (DeviceView { locked: false, screen: write_all(d.screen, bytes) }, true)
    }
}

/// Two whole writes in a row change the device as one write of both.
pub proof fn lemma_write_spec_append(d: DeviceView, a: Seq<u8>, b: Seq<u8>)
    ensures
        write_spec(write_spec(d, a).0, b).0 == write_spec(d, a + b).0,
{
    crate::vga_buffer::lemma_write_all_append(d.screen, a, b);
}

/// The output device: a writer that only the holder of the lock changes.
pub struct OutputDevice {
    locked: bool,
    writer: Writer,
}

impl View for OutputDevice {
    type V = DeviceView;

    closed spec fn view(&self) -> DeviceView {
        DeviceView { locked: self.locked, screen: self.writer@ }
    }
}

impl OutputDevice {
    pub open spec fn wf(&self) -> bool {
        self@.wf()
    }

    /// A free device over a blank grid.
    pub fn new(color_code: ColorCode) -> (d: OutputDevice)
        ensures
            d@ == (DeviceView { locked: false, screen: blank_view(color_code) }),
            d.wf(),
    {
        OutputDevice { locked: false, writer: Writer::new(color_code) }
    }

    /// A free device over a blank grid, writing yellow on black.
    pub fn with_default_color() -> (d: OutputDevice)
        ensures
            d@ == (DeviceView { locked: false, screen: blank_view(default_color()) }),
            d.wf(),
    {
        let c = ColorCode::new(Color::Yellow, Color::Black);
        OutputDevice::new(c)
    }

    pub fn is_locked(&self) -> (r: bool)
        ensures
            r == self@.locked,
    {
        self.locked
    }

    /// The writer, to read the grid and the cursor.
    pub fn writer(&self) -> (w: &Writer)
        ensures
            w@ == self@.screen,
    {
        &self.writer
    }

    /// Takes the lock if it is free; never waits.
    pub fn try_lock(&mut self) -> (acquired: bool)
        ensures
            (final(self)@, acquired) == lock_spec(old(self)@),
    {
        if self.locked {
            false
        } else {
            self.locked = true;
            true
        }
    }

    /// Frees the lock.
    pub fn unlock(&mut self)
        ensures
            final(self)@ == unlock_spec(old(self)@),
    {
        self.locked = false;
    }

    /// Writes bytes on behalf of the lock's holder.
    pub fn write_bytes_locked(&mut self, bytes: &[u8])
        requires
            old(self).wf(),
            old(self)@.locked,
        ensures
            final(self).wf(),
            final(self)@ == locked_write_spec(old(self)@, bytes@),
    {
        self.writer.write_bytes(bytes);
    }

    /// Takes the lock, writes the bytes and frees the lock; when the lock is
    /// already held, changes nothing and returns false.
    pub fn write_bytes(&mut self, bytes: &[u8]) -> (written: bool)
        requires
            old(self).wf(),
        ensures
            final(self).wf(),
            (final(self)@, written) == write_spec(old(self)@, bytes@),
    {
        if self.try_lock() {
            self.write_bytes_locked(bytes);
            self.unlock();
            true
        } else {
            false
        }
    }

    /// Writes the bytes of a string as `write_bytes` does.
    pub fn write_str(&mut self, s: &str) -> (written: bool)
        requires
            old(self).wf(),
        ensures
            final(self).wf(),
            (final(self)@, written) == write_spec(old(self)@, s.spec_bytes()),
    {
        self.write_bytes(s.as_bytes())
    }
}

/// A nested write from the same context (a handler that runs while the main
/// path holds the lock) is turned away without touching the grid, and once
/// the main path has written and freed the lock, the cursor is in bounds and
/// the grid holds exactly the main path's text.
pub proof fn lemma_nested_write_keeps_cursor(d: DeviceView, outer: Seq<u8>, inner: Seq<u8>)
    requires
        d.wf(),
        !d.locked,
    ensures
        ({
            let (held, acquired) = lock_spec(d);
            let (nested, nested_written) = write_spec(held, inner);
            let done = unlock_spec(locked_write_spec(nested, outer));
            &&& acquired
            &&& !nested_written
            &&& nested == held
            &&& done.wf()
            &&& done.screen.col < crate::vga_buffer::BUFFER_WIDTH
            &&& !done.locked
            &&& done.screen == write_all(d.screen, outer)
        }),
{
    crate::vga_buffer::lemma_write_all_wf(d.screen, outer);
}

} // verus!
