use blue_crab_os::boot::{Boot, BootAction, BootEvent, BootState, BuildMode};
use blue_crab_os::fault::PanicLocation;
use blue_crab_os::harness::{ExitCode, HarnessAction, HarnessEvent, HarnessState, TestRunner};
use blue_crab_os::output::OutputDevice;
use blue_crab_os::self_test::{
    registered_cases, run_case, run_registered, test_breakpoint_exception, trivial_assertion,
};
use blue_crab_os::vga_buffer::{Writer, BUFFER_HEIGHT, BUFFER_WIDTH};

fn row_bytes(w: &Writer, row: usize) -> Vec<u8> {
    let mut out: Vec<u8> = Vec::new();
    for c in 0..BUFFER_WIDTH {
        out.push(w.cell(row, c).ascii_character);
    }
    while out.last() == Some(&b' ') {
        out.pop();
    }
    out
}

fn screen(w: &Writer) -> Vec<Vec<u8>> {
    (0..BUFFER_HEIGHT).map(|r| row_bytes(w, r)).collect()
}

#[test]
fn second_of_three_fails_and_run_halts() {
    let mut dev = OutputDevice::with_default_color();
    let mut runner = TestRunner::new(vec!["case_one", "case_two", "case_three"]);
    assert_eq!(runner.state(), HarnessState::NotStarted);
    assert_eq!(runner.case_count(), 3);
    let a = runner.step(&mut dev, HarnessEvent::Begin, "", None);
    assert_eq!(a, HarnessAction::RunCase(0));
    let a = runner.step(&mut dev, HarnessEvent::CasePassed, "", None);
    assert_eq!(a, HarnessAction::RunCase(1));
    let loc = PanicLocation { file: "tests/x.rs", line: 10, column: 5 };
    let a = runner.step(&mut dev, HarnessEvent::CaseFailed, "assertion failed", Some(loc));
    assert_eq!(a, HarnessAction::Exit(ExitCode::Failed));
    assert_eq!(runner.state(), HarnessState::Halted);
    let a = runner.step(&mut dev, HarnessEvent::CasePassed, "", None);
    assert_eq!(a, HarnessAction::Ignore);
    let a = runner.step(&mut dev, HarnessEvent::Begin, "", None);
    assert_eq!(a, HarnessAction::Ignore);

    let rows = screen(dev.writer());
    let expected: Vec<Vec<u8>> = vec![
        b"Running 3 tests".to_vec(),
        b"case_one...\xfe[ok]".to_vec(),
        b"case_two...\xfe[failed]".to_vec(),
        b"".to_vec(),
        b"Error: panicked at tests/x.rs:10:5:".to_vec(),
        b"assertion failed".to_vec(),
        b"".to_vec(),
        b"".to_vec(),
    ];
    assert_eq!(rows[BUFFER_HEIGHT - 8..].to_vec(), expected);
    for r in rows.iter() {
        assert!(!r.windows(10).any(|w| w == b"case_three"));
    }
}

#[test]
fn all_passing_run_signals_success() {
    let mut dev = OutputDevice::with_default_color();
    let mut runner = TestRunner::new(vec!["a", "b"]);
    assert_eq!(runner.step(&mut dev, HarnessEvent::Begin, "", None), HarnessAction::RunCase(0));
    assert_eq!(runner.step(&mut dev, HarnessEvent::CasePassed, "", None), HarnessAction::RunCase(1));
    assert_eq!(
        runner.step(&mut dev, HarnessEvent::CasePassed, "", None),
        HarnessAction::Exit(ExitCode::Success)
    );
    assert_eq!(runner.state(), HarnessState::Completed);
    let rows = screen(dev.writer());
    assert_eq!(rows[BUFFER_HEIGHT - 4], b"Running 2 tests".to_vec());
    assert_eq!(rows[BUFFER_HEIGHT - 3], b"a...\xfe[ok]".to_vec());
    assert_eq!(rows[BUFFER_HEIGHT - 2], b"b...\xfe[ok]".to_vec());
}

#[test]
fn empty_run_completes_at_once() {
    let mut dev = OutputDevice::with_default_color();
    let mut runner = TestRunner::new(vec![]);
    assert_eq!(
        runner.step(&mut dev, HarnessEvent::Begin, "", None),
        HarnessAction::Exit(ExitCode::Success)
    );
    assert_eq!(runner.state(), HarnessState::Completed);
    assert_eq!(row_bytes(dev.writer(), BUFFER_HEIGHT - 2), b"Running 0 tests".to_vec());
}

#[test]
fn pass_before_begin_is_ignored() {
    let mut dev = OutputDevice::with_default_color();
    let mut runner = TestRunner::new(vec!["a"]);
    assert_eq!(runner.step(&mut dev, HarnessEvent::CasePassed, "", None), HarnessAction::Ignore);
    assert_eq!(runner.state(), HarnessState::NotStarted);
    assert_eq!(dev.writer().column_position(), 0);
    assert_eq!(row_bytes(dev.writer(), BUFFER_HEIGHT - 1), Vec::<u8>::new());
}

#[test]
fn exit_codes() {
    assert_eq!(ExitCode::Success.code(), 0x10);
    assert_eq!(ExitCode::Failed.code(), 0x11);
}

#[test]
fn registered_cases_pass() {
    assert!(trivial_assertion());
    let mut dev = OutputDevice::with_default_color();
    assert!(test_breakpoint_exception(&mut dev));
    assert_eq!(row_bytes(dev.writer(), BUFFER_HEIGHT - 2), b"EXCEPTION: BREAKPOINT".to_vec());
    assert_eq!(registered_cases(), vec!["trivial_assertion", "test_breakpoint_exception"]);
    assert!(run_case(&mut dev, 0));
    assert!(run_case(&mut dev, 1));
}

#[test]
fn registered_run_succeeds() {
    let mut dev = OutputDevice::with_default_color();
    assert_eq!(run_registered(&mut dev), ExitCode::Success);
    let rows = screen(dev.writer());
    assert_eq!(rows[BUFFER_HEIGHT - 5], b"Running 2 tests".to_vec());
    assert_eq!(rows[BUFFER_HEIGHT - 4], b"trivial_assertion...\xfe[ok]".to_vec());
    assert_eq!(rows[BUFFER_HEIGHT - 3], b"test_breakpoint_exception...\xfeEXCEPTION: BREAKPOINT".to_vec());
    assert_eq!(rows[BUFFER_HEIGHT - 2], b"[ok]".to_vec());
}

#[test]
fn normal_boot_sequence() {
    let mut dev = OutputDevice::with_default_color();
    let mut boot = Boot::new(BuildMode::Normal);
    assert_eq!(boot.step(&mut dev, BootEvent::Start), BootAction::InstallHandlers);
    assert_eq!(boot.step(&mut dev, BootEvent::HandlersInstalled), BootAction::TriggerBreakpoint);
    assert_eq!(boot.step(&mut dev, BootEvent::ProbeReturned), BootAction::IdleLoop);
    assert_eq!(boot.state, BootState::Idle);
    assert_eq!(boot.step(&mut dev, BootEvent::Start), BootAction::Ignore);
    let rows = screen(dev.writer());
    assert_eq!(rows[BUFFER_HEIGHT - 3], b"Hello World!".to_vec());
    assert_eq!(rows[BUFFER_HEIGHT - 2], b"Did not crash!".to_vec());
}

#[test]
fn test_boot_sequence_runs_harness() {
    let mut dev = OutputDevice::with_default_color();
    let mut boot = Boot::new(BuildMode::Test);
    assert_eq!(boot.step(&mut dev, BootEvent::HandlersInstalled), BootAction::Ignore);
    assert_eq!(boot.state, BootState::Entered);
    assert_eq!(boot.step(&mut dev, BootEvent::Start), BootAction::InstallHandlers);
    assert_eq!(boot.step(&mut dev, BootEvent::HandlersInstalled), BootAction::TriggerBreakpoint);
    assert_eq!(boot.step(&mut dev, BootEvent::ProbeReturned), BootAction::RunTests);
    assert_eq!(boot.state, BootState::Testing);
    assert_eq!(boot.step(&mut dev, BootEvent::TestsReturned), BootAction::IdleLoop);
    let rows = screen(dev.writer());
    assert_eq!(rows[BUFFER_HEIGHT - 3], b"Hello World!".to_vec());
    assert_eq!(rows[BUFFER_HEIGHT - 2], b"Did not crash!".to_vec());
}
