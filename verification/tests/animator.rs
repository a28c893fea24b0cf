use std::time::{Duration, Instant};
use turtle_graphics::animator::{Tick, TurtleCommandsAnimationAutoReset, TurtleCommandsAnimator};
use macroquad::math::Vec2;
use turtle_graphics::command::{Motion, TurtleCommand};
use turtle_graphics::scalar::{Color, Scalar, Vector2};
use turtle_graphics::screen::TurtleScreen;
use turtle_graphics::turtle::{Turtle, TurtleConfig};

fn s(x: f32) -> Scalar {
    Scalar::from_bits(x.to_bits())
}

fn f(x: Scalar) -> f32 {
    f32::from_bits(x.to_bits())
}

fn v(x: f32, y: f32) -> Vector2 {
    Vector2::new(s(x), s(y))
}

fn white() -> Color {
    Color::new(s(1.0), s(1.0), s(1.0), s(1.0))
}

fn forward(d: f32) -> TurtleCommand {
    TurtleCommand::Forward { distance: s(d) }
}

fn backward(d: f32) -> TurtleCommand {
    TurtleCommand::Backward { distance: s(d) }
}

fn left(a: f32) -> TurtleCommand {
    TurtleCommand::Left { angle: s(a) }
}

fn right(a: f32) -> TurtleCommand {
    TurtleCommand::Right { angle: s(a) }
}

fn triangle_commands() -> Vec<TurtleCommand> {
    vec![forward(10.0), left(120.0), forward(10.0), left(120.0), forward(10.0), left(120.0)]
}

fn animator(
    commands: &[TurtleCommand],
    interval_ms: u64,
    auto_reset: TurtleCommandsAnimationAutoReset,
) -> TurtleCommandsAnimator {
    let turtle = Turtle::new(v(0.0, 0.0), &TurtleConfig::default());
    TurtleCommandsAnimator::new(turtle, commands, interval_ms, auto_reset)
}

/// Does the arithmetic of a motion and reports the outcome to the turtle.
fn run(turtle: &mut Turtle, screen: &mut TurtleScreen, command: TurtleCommand) {
    let position = Vec2::new(f(turtle.get_position().x), f(turtle.get_position().y));
    let heading = Vec2::new(f(turtle.get_rotation().x), f(turtle.get_rotation().y));
    let motion = turtle.exec_command(command);
    let outcome = match motion {
        Motion::Translate { distance, reverse } => {
            let d = if reverse { -f(distance) } else { f(distance) };
            position + heading * d
        }
        Motion::Rotate { angle, reverse } => {
            let a = if reverse { -f(angle) } else { f(angle) };
            heading.rotate(Vec2::from_angle(a.to_radians())).normalize_or_zero()
        }
    };
    turtle.finish_motion(screen, motion, v(outcome.x, outcome.y));
}

/// Polls the animator and runs the commands that are due, as a host does.
fn poll(
    animator: &mut TurtleCommandsAnimator,
    screen: &mut TurtleScreen,
    time_passed_ms: u64,
    now_ms: u64,
) -> Tick {
    let tick = animator.update_at(screen, time_passed_ms, now_ms);
    if let Tick::Run { first, end } = tick {
        let due: Vec<TurtleCommand> = animator.commands()[first..end].to_vec();
        for command in due {
            run(animator.turtle_mut(), screen, command);
        }
    }
    tick
}

#[test]
fn new_animator_starts_at_the_first_command() {
    let a = animator(&triangle_commands(), 100, TurtleCommandsAnimationAutoReset::Disabled);
    assert_eq!(a.current_command_index(), 0);
    assert!(!a.is_finished());
    assert_eq!(a.commands(), &triangle_commands());
    assert_eq!(a.turtle().get_position(), v(0.0, 0.0));
}

#[test]
fn animator_steps_one_segment_per_tick() {
    let mut screen = TurtleScreen::new(white());
    let mut a = animator(&triangle_commands(), 100, TurtleCommandsAnimationAutoReset::Disabled);
    let mut ticks: u32 = 0;
    let mut answers = Vec::new();
    for time_ms in [0u64, 50, 100, 250, 400] {
        let before = screen.len();
        let tick = poll(&mut a, &mut screen, time_ms, time_ms);
        if matches!(tick, Tick::Run { .. }) {
            ticks += 1;
            assert_eq!(screen.len(), before + 1);
        } else {
            assert_eq!(screen.len(), before);
        }
        answers.push(tick);
    }
    assert_eq!(
        answers,
        vec![
            Tick::Idle,
            Tick::Idle,
            Tick::Run { first: 0, end: 1 },
            Tick::Run { first: 1, end: 3 },
            Tick::Run { first: 3, end: 5 },
        ]
    );
    assert!(ticks <= 4);
    assert_eq!(screen.len(), 3);
    assert_eq!(a.current_command_index(), 5);
}

#[test]
fn first_tick_runs_up_to_and_including_the_first_forward() {
    let mut screen = TurtleScreen::new(white());
    let commands = vec![left(90.0), right(30.0), left(30.0), forward(10.0), forward(20.0)];
    let mut a = animator(&commands, 100, TurtleCommandsAnimationAutoReset::Disabled);
    assert_eq!(poll(&mut a, &mut screen, 0, 0), Tick::Idle);
    assert_eq!(screen.len(), 0);
    assert_eq!(poll(&mut a, &mut screen, 100, 0), Tick::Run { first: 0, end: 4 });
    assert_eq!(screen.len(), 1);
    assert_eq!(a.current_command_index(), 4);
    let segment = screen.snapshot()[0];
    assert_eq!(segment.start, v(0.0, 0.0));
    assert!((f(segment.end.x) + 10.0).abs() < 1e-3 && f(segment.end.y).abs() < 1e-3);
}

#[test]
fn backward_ends_a_tick_as_forward_does() {
    let mut screen = TurtleScreen::new(white());
    let commands = vec![left(90.0), backward(10.0), right(90.0), backward(5.0)];
    let mut a = animator(&commands, 10, TurtleCommandsAnimationAutoReset::Disabled);
    assert_eq!(poll(&mut a, &mut screen, 10, 0), Tick::Run { first: 0, end: 2 });
    assert_eq!(screen.len(), 1);
    assert_eq!(poll(&mut a, &mut screen, 20, 0), Tick::Run { first: 2, end: 4 });
    assert_eq!(screen.len(), 2);
    assert!(a.is_finished());
}

#[test]
fn turns_at_the_end_of_the_list_run_in_the_last_tick() {
    let mut screen = TurtleScreen::new(white());
    let commands = vec![forward(1.0), left(10.0), right(20.0), left(30.0)];
    let mut a = animator(&commands, 10, TurtleCommandsAnimationAutoReset::Disabled);
    assert_eq!(poll(&mut a, &mut screen, 10, 0), Tick::Run { first: 0, end: 1 });
    assert_eq!(poll(&mut a, &mut screen, 20, 0), Tick::Run { first: 1, end: 4 });
    assert_eq!(screen.len(), 1);
    assert!(a.is_finished());
    assert_eq!(poll(&mut a, &mut screen, 30, 0), Tick::Idle);
}

#[test]
fn polls_within_one_interval_run_one_tick() {
    let mut screen = TurtleScreen::new(white());
    let mut a = animator(&triangle_commands(), 100, TurtleCommandsAnimationAutoReset::Disabled);
    assert_eq!(poll(&mut a, &mut screen, 120, 0), Tick::Run { first: 0, end: 1 });
    for time_ms in 120u64..200 {
        assert_eq!(poll(&mut a, &mut screen, time_ms, 0), Tick::Idle);
    }
    assert_eq!(a.current_command_index(), 1);
    assert_eq!(screen.len(), 1);
}

#[test]
fn finished_animator_without_restart_stays_idle() {
    let mut screen = TurtleScreen::new(white());
    let mut a = animator(&[forward(1.0)], 1, TurtleCommandsAnimationAutoReset::Disabled);
    assert_eq!(poll(&mut a, &mut screen, 1, 0), Tick::Run { first: 0, end: 1 });
    assert!(a.is_finished());
    for (time_ms, now_ms) in [(2u64, 0u64), (1000, 5000), (u64::MAX, u64::MAX), (0, 0)] {
        assert_eq!(poll(&mut a, &mut screen, time_ms, now_ms), Tick::Idle);
        assert_eq!(a.current_command_index(), 1);
        assert_eq!(screen.len(), 1);
    }
}

#[test]
fn empty_list_is_finished_from_the_start() {
    let mut screen = TurtleScreen::new(white());
    let mut a = animator(&[], 1, TurtleCommandsAnimationAutoReset::Disabled);
    assert!(a.is_finished());
    assert_eq!(poll(&mut a, &mut screen, 100, 100), Tick::Idle);
    assert_eq!(a.current_command_index(), 0);
}

#[test]
fn animator_restarts_after_the_idle_timeout() {
    let mut screen = TurtleScreen::new(white());
    let auto_reset = TurtleCommandsAnimationAutoReset::Enabled { reset_timeout_ms: 3000 };
    let mut a = animator(&triangle_commands(), 1, auto_reset);
    let mut time_ms: u64 = 0;
    while !a.is_finished() {
        time_ms += 1;
        poll(&mut a, &mut screen, time_ms, 10_000 + time_ms);
    }
    assert_eq!(time_ms, 4);
    assert_eq!(a.current_command_index(), 6);
    assert_eq!(screen.len(), 3);

    assert_eq!(poll(&mut a, &mut screen, 5, 20_000), Tick::Idle);
    assert_eq!(poll(&mut a, &mut screen, 6, 21_500), Tick::Idle);
    assert_eq!(poll(&mut a, &mut screen, 7, 22_999), Tick::Idle);
    assert_eq!(screen.len(), 3);
    assert_eq!(a.current_command_index(), 6);

    assert_eq!(poll(&mut a, &mut screen, 8, 23_000), Tick::Restarted);
    assert_eq!(screen.len(), 0);
    assert_eq!(a.current_command_index(), 0);
    assert!(!a.is_finished());

    assert_eq!(poll(&mut a, &mut screen, 9, 23_001), Tick::Run { first: 0, end: 1 });
    assert_eq!(screen.len(), 1);
}

#[test]
fn idle_timer_is_unset_by_a_restart() {
    let mut screen = TurtleScreen::new(white());
    let auto_reset = TurtleCommandsAnimationAutoReset::Enabled { reset_timeout_ms: 100 };
    let mut a = animator(&[forward(1.0)], 1, auto_reset);
    assert_eq!(poll(&mut a, &mut screen, 1, 0), Tick::Run { first: 0, end: 1 });
    assert_eq!(poll(&mut a, &mut screen, 2, 1000), Tick::Idle);
    assert_eq!(poll(&mut a, &mut screen, 3, 1100), Tick::Restarted);
    assert_eq!(poll(&mut a, &mut screen, 4, 5000), Tick::Run { first: 0, end: 1 });
    assert_eq!(poll(&mut a, &mut screen, 5, 9000), Tick::Idle);
    assert_eq!(poll(&mut a, &mut screen, 6, 9099), Tick::Idle);
    assert_eq!(poll(&mut a, &mut screen, 7, 9100), Tick::Restarted);
}

#[test]
fn restart_clears_what_other_turtles_drew_too() {
    let mut screen = TurtleScreen::new(white());
    let mut other = Turtle::new(v(50.0, 50.0), &TurtleConfig::default());
    other.set_position(&mut screen, v(60.0, 60.0));
    let auto_reset = TurtleCommandsAnimationAutoReset::Enabled { reset_timeout_ms: 0 };
    let mut a = animator(&[], 1, auto_reset);
    assert_eq!(screen.len(), 1);
    assert_eq!(poll(&mut a, &mut screen, 0, 0), Tick::Restarted);
    assert_eq!(screen.len(), 0);
    assert_eq!(screen.background_color(), white());
}

#[test]
fn wall_clock_that_goes_back_counts_as_no_idle_time() {
    let mut screen = TurtleScreen::new(white());
    let auto_reset = TurtleCommandsAnimationAutoReset::Enabled { reset_timeout_ms: 10 };
    let mut a = animator(&[], 1, auto_reset);
    assert_eq!(poll(&mut a, &mut screen, 0, 500), Tick::Idle);
    assert_eq!(poll(&mut a, &mut screen, 0, 100), Tick::Idle);
    assert_eq!(poll(&mut a, &mut screen, 0, 509), Tick::Idle);
    assert_eq!(poll(&mut a, &mut screen, 0, 510), Tick::Restarted);
}

#[test]
fn reset_starts_over_and_clears_the_screen() {
    let mut screen = TurtleScreen::new(white());
    let mut a = animator(&triangle_commands(), 1, TurtleCommandsAnimationAutoReset::Disabled);
    poll(&mut a, &mut screen, 1, 0);
    poll(&mut a, &mut screen, 2, 0);
    assert_eq!(a.current_command_index(), 3);
    assert_eq!(screen.len(), 2);
    let position = a.turtle().get_position();
    a.reset(&mut screen);
    assert_eq!(a.current_command_index(), 0);
    assert_eq!(screen.len(), 0);
    assert_eq!(a.turtle().get_position(), position);
    assert_eq!(poll(&mut a, &mut screen, 2, 0), Tick::Idle);
    assert_eq!(poll(&mut a, &mut screen, 3, 0), Tick::Run { first: 0, end: 1 });
}

#[test]
fn turtle_of_the_animator_can_be_moved_by_the_host() {
    let mut screen = TurtleScreen::new(white());
    let mut a = animator(&triangle_commands(), 1, TurtleCommandsAnimationAutoReset::Disabled);
    a.turtle_mut().set_position(&mut screen, v(3.0, 4.0));
    a.turtle_mut().set_pen_down(false);
    assert_eq!(a.turtle().get_position(), v(3.0, 4.0));
    assert!(!a.turtle().get_pen_down());
    assert_eq!(a.current_command_index(), 0);
    assert_eq!(screen.len(), 1);
}

#[test]
fn update_runs_the_commands_that_are_due_whatever_the_wall_clock_says() {
    let mut screen = TurtleScreen::new(white());
    let mut a = animator(&triangle_commands(), 100, TurtleCommandsAnimationAutoReset::Disabled);
    assert_eq!(a.update(&mut screen, 0), Tick::Idle);
    assert_eq!(a.update(&mut screen, 100), Tick::Run { first: 0, end: 1 });
    assert_eq!(a.update(&mut screen, 250), Tick::Run { first: 1, end: 3 });
    assert_eq!(a.update(&mut screen, 400), Tick::Run { first: 3, end: 5 });
    assert_eq!(a.update(&mut screen, 500), Tick::Run { first: 5, end: 6 });
    assert_eq!(a.update(&mut screen, 600), Tick::Idle);
    assert_eq!(a.update(&mut screen, 700), Tick::Idle);
}

#[test]
fn update_restarts_at_once_with_timeout_zero() {
    let mut screen = TurtleScreen::new(white());
    screen.draw_line(v(0.0, 0.0), v(1.0, 1.0), s(1.0), white());
    let auto_reset = TurtleCommandsAnimationAutoReset::Enabled { reset_timeout_ms: 0 };
    let mut a = animator(&[forward(1.0)], 1, auto_reset);
    assert_eq!(a.update(&mut screen, 1), Tick::Run { first: 0, end: 1 });
    assert_eq!(a.update(&mut screen, 2), Tick::Restarted);
    assert_eq!(screen.len(), 0);
    assert_eq!(a.update(&mut screen, 3), Tick::Run { first: 0, end: 1 });
}

#[test]
fn update_waits_for_the_wall_clock_before_it_restarts() {
    let mut screen = TurtleScreen::new(white());
    screen.draw_line(v(0.0, 0.0), v(1.0, 1.0), s(1.0), white());
    let auto_reset = TurtleCommandsAnimationAutoReset::Enabled { reset_timeout_ms: 60 };
    let mut a = animator(&[], 1, auto_reset);
    let before_first_poll = Instant::now();
    assert_eq!(a.update(&mut screen, 0), Tick::Idle);
    let after_first_poll = Instant::now();
    let second = a.update(&mut screen, 0);
    if before_first_poll.elapsed() < Duration::from_millis(30) {
        assert_eq!(second, Tick::Idle);
        assert_eq!(screen.len(), 1);
        while after_first_poll.elapsed() < Duration::from_millis(80) {
            std::hint::spin_loop();
        }
        assert_eq!(a.update(&mut screen, 0), Tick::Restarted);
        assert_eq!(screen.len(), 0);
        assert_eq!(a.update(&mut screen, 0), Tick::Idle);
    }
}

#[test]
fn update_with_a_long_timeout_stays_idle() {
    let mut screen = TurtleScreen::new(white());
    let auto_reset = TurtleCommandsAnimationAutoReset::Enabled { reset_timeout_ms: u64::MAX };
    let mut a = animator(&[], 1, auto_reset);
    for time_ms in 0u64..50 {
        assert_eq!(a.update(&mut screen, time_ms), Tick::Idle);
    }
    assert!(a.is_finished());
}
