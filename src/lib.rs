//! Bootstrap core of a small freestanding kernel: a text-mode output device
//! behind a spin-style lock, a fault reporter, the exception handlers'
//! decisions, a test harness and the boot sequence, each stated as verified
//! logic.
pub mod vga_buffer;
pub mod text_rows;
pub mod output;
pub mod text;
pub mod fault;
pub mod exceptions;
pub mod harness;
pub mod boot;
