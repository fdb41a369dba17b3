use tcp_server::display;
use tcp_server::mailbox::Mailbox;
use tcp_server::servo_pio::{self, AxisState, Command, NEUTRAL_ANGLE};

#[test]
fn mailbox_starts_empty() {
    let mut mailbox: Mailbox<u32> = Mailbox::new();
    assert!(!mailbox.has_value());
    assert_eq!(mailbox.try_take(), None);
}

#[test]
fn mailbox_overwrite_keeps_only_latest() {
    let mut mailbox: Mailbox<u32> = Mailbox::new();
    mailbox.publish(1);
    mailbox.publish(2);
    assert_eq!(mailbox.try_take(), Some(2));
    assert_eq!(mailbox.try_take(), None);
}

#[test]
fn mailbox_take_clears_slot() {
    let mut mailbox: Mailbox<&str> = Mailbox::new();
    mailbox.publish("first");
    assert!(mailbox.has_value());
    assert_eq!(mailbox.try_take(), Some("first"));
    assert!(!mailbox.has_value());
    mailbox.publish("second");
    assert_eq!(mailbox.try_take(), Some("second"));
}

#[test]
fn mailbox_many_publishes_before_one_take() {
    let mut mailbox: Mailbox<u32> = Mailbox::new();
    for value in 0..100 {
        mailbox.publish(value);
    }
    assert_eq!(mailbox.try_take(), Some(99));
    assert_eq!(mailbox.try_take(), None);
}

#[test]
fn send_command_overwrites_like_any_publish() {
    let mut control: Mailbox<Command> = Mailbox::new();
    servo_pio::send_command(&mut control, Command::Left(10));
    servo_pio::send_command(&mut control, Command::Down(20));
    assert_eq!(control.try_take(), Some(Command::Down(20)));

    let mut control: Mailbox<display::Command> = Mailbox::new();
    display::send_command(&mut control, display::Command::Status(16));
    display::send_command(&mut control, display::Command::Status(17));
    assert_eq!(control.try_take(), Some(display::Command::Status(17)));
    assert_eq!(control.try_take(), None);
}

#[test]
fn axes_start_at_neutral_centre() {
    let mut axes = AxisState::new();
    let (body, head) = axes.apply_command(Command::Left(0));
    assert_eq!(NEUTRAL_ANGLE, 90);
    assert_eq!((body, head), (90, 90));
}

#[test]
fn right_saturates_at_zero() {
    let mut axes = AxisState::new();
    let (body, head) = axes.apply_command(Command::Right(200));
    assert_eq!(body, 0);
    assert_eq!(head, 90);
}

#[test]
fn left_saturates_at_limit() {
    let mut axes = AxisState::new();
    let (body, head) = axes.apply_command(Command::Left(200));
    assert_eq!(body, 180);
    assert_eq!(head, 90);
}

#[test]
fn up_and_down_move_only_the_head() {
    let mut axes = AxisState::new();
    let (body, head) = axes.apply_command(Command::Up(30));
    assert_eq!((body, head), (90, 120));
    let (body, head) = axes.apply_command(Command::Down(50));
    assert_eq!((body, head), (90, 70));
}

#[test]
fn extreme_increments_never_leave_range() {
    let mut axes = AxisState::new();
    let commands = [
        Command::Left(i16::MAX),
        Command::Right(i16::MAX),
        Command::Up(i16::MIN + 1),
        Command::Down(i16::MIN + 1),
        Command::Right(-32000),
        Command::Up(32000),
    ];
    for command in commands {
        let (body, head) = axes.apply_command(command);
        assert!(body <= 180, "body left the range: {body}");
        assert!(head <= 180, "head left the range: {head}");
    }
}

#[test]
fn fixed_routine_returns_axes_to_neutral() {
    let mut axes = AxisState::new();
    let routine = [
        Command::Left(90),
        Command::Right(90),
        Command::Up(90),
        Command::Down(90),
    ];
    let mut last = (0u64, 0u64);
    for command in routine {
        last = axes.apply_command(command);
    }
    assert_eq!(last, (90, 90));
}

#[test]
fn long_alternating_sequence_stays_clamped() {
    let mut axes = AxisState::new();
    let mut last = (90u64, 90u64);
    for i in 0..1000i16 {
        let command = match i % 4 {
            0 => Command::Left(i.wrapping_mul(37)),
            1 => Command::Right(i.wrapping_mul(11)),
            2 => Command::Up(-i),
            _ => Command::Down(3 * i),
        };
        last = axes.apply_command(command);
        assert!(last.0 <= 180 && last.1 <= 180);
    }
    let (body, head) = axes.apply_command(Command::Left(0));
    assert_eq!((body, head), last);
}
