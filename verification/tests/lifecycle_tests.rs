use gpu_monitor::lifecycle::{Controller, InputEvent, Phase, RenderOutcome};

/// Drive the controller through the same cycle the binary runs, with a
/// scripted stream of inputs, interrupts and render outcomes, and count how
/// often the terminal-restoration step runs.
fn run_scripted(
    script: &[(bool, InputEvent, RenderOutcome)],
) -> (Controller, usize, usize) {
    let mut controller = Controller::new();
    assert_eq!(controller.phase, Phase::Starting);
    controller.begin();
    let mut restore_calls: usize = 0;
    let mut iterations: usize = 0;
    for (interrupted, input, render) in script {
        controller.note_interrupt(*interrupted);
        if !controller.iteration_boundary() {
            break;
        }
        iterations += 1;
        controller.handle_input(*input);
        controller.handle_render(*render);
    }
    if controller.phase == Phase::Running {
        // The script ran out; stop the loop the way a quit would.
        controller.handle_input(InputEvent::QuitKey);
        assert!(!controller.iteration_boundary());
    }
    assert_eq!(controller.phase, Phase::Stopping);
    restore_calls += 1;
    controller.finish();
    assert_eq!(controller.phase, Phase::Terminated);
    (controller, restore_calls, iterations)
}

const QUIET: (bool, InputEvent, RenderOutcome) =
    (false, InputEvent::NoEvent, RenderOutcome::Completed);

#[test]
fn quit_key_stops_with_status_zero() {
    let script = [
        QUIET,
        (false, InputEvent::QuitKey, RenderOutcome::Completed),
        QUIET,
    ];
    let (controller, restore_calls, iterations) = run_scripted(&script);
    assert_eq!(iterations, 2);
    assert_eq!(restore_calls, 1);
    assert_eq!(controller.exit_code(), 0);
}

#[test]
fn interrupt_observed_at_next_boundary() {
    let script = [
        QUIET,
        (true, InputEvent::NoEvent, RenderOutcome::Completed),
        QUIET,
        QUIET,
    ];
    let (controller, restore_calls, iterations) = run_scripted(&script);
    // The interrupt fires after the first full iteration and is observed at
    // the next iteration boundary, so exactly one full iteration runs.
    assert_eq!(iterations, 1);
    assert_eq!(restore_calls, 1);
    assert_eq!(controller.exit_code(), 0);
}

#[test]
fn render_failure_stops_with_nonzero_status() {
    let script = [
        QUIET,
        (false, InputEvent::NoEvent, RenderOutcome::IOFailure),
        QUIET,
    ];
    let (controller, restore_calls, iterations) = run_scripted(&script);
    assert_eq!(iterations, 2);
    assert_eq!(restore_calls, 1);
    assert_ne!(controller.exit_code(), 0);
}

#[test]
fn input_read_failure_is_fatal() {
    let script = [(false, InputEvent::ReadFailure, RenderOutcome::Completed)];
    let (controller, restore_calls, _) = run_scripted(&script);
    assert_eq!(restore_calls, 1);
    assert_ne!(controller.exit_code(), 0);
}

#[test]
fn other_keys_keep_the_loop_running() {
    let script = [
        (false, InputEvent::OtherKey, RenderOutcome::Completed),
        QUIET,
        (false, InputEvent::OtherKey, RenderOutcome::Completed),
    ];
    let (controller, restore_calls, iterations) = run_scripted(&script);
    // No stop request arrives from the script itself; the harness quits.
    assert_eq!(iterations, 3);
    assert_eq!(restore_calls, 1);
    assert_eq!(controller.exit_code(), 0);
}

#[test]
fn interrupt_is_advisory_not_immediate() {
    let mut controller = Controller::new();
    controller.begin();
    controller.note_interrupt(true);
    // The phase only changes at the iteration boundary.
    assert_eq!(controller.phase, Phase::Running);
    assert!(controller.stop_requested);
    assert!(!controller.iteration_boundary());
    assert_eq!(controller.phase, Phase::Stopping);
}
