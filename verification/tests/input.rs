use mandelbrot::input::decode;
use mandelbrot::input::Command;
use mandelbrot::input::InputSnapshot;
use mandelbrot::input::WindowSize;

fn quiet() -> InputSnapshot {
    InputSnapshot {
        close_requested: false,
        primary_pressed: false,
        secondary_pressed: false,
        pointer_known: true,
        palette_pressed: false,
        reset_pressed: false,
        resized: None,
    }
}

#[test]
fn quiet_round_asks_for_a_redraw() {
    assert_eq!(decode(&quiet()), vec![Command::RequestRedraw]);
}

#[test]
fn close_request_gives_exit_alone() {
    let input: InputSnapshot = InputSnapshot {
        close_requested: true,
        primary_pressed: true,
        palette_pressed: true,
        reset_pressed: true,
        resized: Some(WindowSize { width: 10, height: 10 }),
        ..quiet()
    };
    assert_eq!(decode(&input), vec![Command::Exit]);
}

#[test]
fn primary_button_zooms_in() {
    let input: InputSnapshot = InputSnapshot { primary_pressed: true, ..quiet() };
    assert_eq!(decode(&input), vec![Command::ZoomIn, Command::RequestRedraw]);
}

#[test]
fn secondary_button_zooms_out() {
    let input: InputSnapshot = InputSnapshot { secondary_pressed: true, ..quiet() };
    assert_eq!(decode(&input), vec![Command::ZoomOut, Command::RequestRedraw]);
}

#[test]
fn primary_button_goes_before_secondary() {
    let input: InputSnapshot = InputSnapshot { primary_pressed: true, secondary_pressed: true, ..quiet() };
    assert_eq!(decode(&input), vec![Command::ZoomIn, Command::RequestRedraw]);
}

#[test]
fn press_without_pointer_position_does_not_zoom() {
    let input: InputSnapshot = InputSnapshot { primary_pressed: true, pointer_known: false, ..quiet() };
    assert_eq!(decode(&input), vec![Command::RequestRedraw]);
}

#[test]
fn all_commands_come_in_their_order() {
    let input: InputSnapshot = InputSnapshot {
        secondary_pressed: true,
        palette_pressed: true,
        reset_pressed: true,
        resized: Some(WindowSize { width: 800, height: 600 }),
        ..quiet()
    };
    assert_eq!(
        decode(&input),
        vec![
            Command::ZoomOut,
            Command::RandomizePalette,
            Command::Reset,
            Command::Resize { width: 800, height: 600 },
            Command::RequestRedraw,
        ]
    );
}
