use tcp_server::display::{
    format_address, format_octet, init_actions, render_command, status_message, Command,
    NetAddress, RenderAction, ROW_IP, ROW_IP_ADDR, ROW_STATUS, ROW_STATUS_MSG, STATUS_COUNT,
    STATUS_WIDTH,
};
use tcp_server::fade::{fade_init, fade_step, FADE_CEILING, FADE_STEP};

#[test]
fn every_status_text_is_fixed_width() {
    for index in 0..STATUS_COUNT {
        let message = status_message(index);
        assert_eq!(
            message.chars().count(),
            STATUS_WIDTH,
            "entry {index} is not padded to the fixed width"
        );
    }
}

#[test]
fn status_texts_are_pairwise_distinct() {
    for first in 0..STATUS_COUNT {
        for second in 0..STATUS_COUNT {
            if first != second {
                assert_ne!(status_message(first), status_message(second));
            }
        }
    }
}

#[test]
fn status_texts_name_the_defined_reasons() {
    assert_eq!(status_message(0).trim_end(), "Success");
    assert_eq!(status_message(1).trim_end(), "Operation Failed");
    assert_eq!(status_message(2).trim_end(), "Time Out");
    assert_eq!(status_message(3).trim_end(), "No Matching Network Found");
    assert_eq!(status_message(15).trim_end(), "Abort channel select");
    assert_eq!(status_message(16).trim_end(), "Listening on    Port 1234");
    assert_eq!(status_message(17).trim_end(), "TCP is Connected");
}

#[test]
fn octets_format_as_shortest_decimal() {
    assert_eq!(format_octet(0), "0");
    assert_eq!(format_octet(7), "7");
    assert_eq!(format_octet(10), "10");
    assert_eq!(format_octet(42), "42");
    assert_eq!(format_octet(100), "100");
    assert_eq!(format_octet(255), "255");
}

#[test]
fn every_octet_value_matches_std_formatting() {
    for value in 0..=255u8 {
        assert_eq!(format_octet(value), value.to_string());
    }
}

#[test]
fn address_renders_dotted_decimal() {
    let address = NetAddress::new(192, 168, 1, 7, 24);
    assert_eq!(format_address(&address), "192.168.1.7");
    let address = NetAddress::new(0, 0, 0, 0, 0);
    assert_eq!(format_address(&address), "0.0.0.0");
    let address = NetAddress::new(255, 255, 255, 255, 32);
    assert_eq!(format_address(&address), "255.255.255.255");
}

#[test]
fn address_event_renders_on_the_address_row() {
    let address = NetAddress::new(10, 0, 0, 9, 8);
    let action: RenderAction = render_command(&Command::Addr(address));
    assert_eq!((action.column, action.row), (0, ROW_IP_ADDR));
    assert_eq!(action.text, "10.0.0.9");
}

#[test]
fn status_event_renders_on_the_status_row() {
    let action = render_command(&Command::Status(17));
    assert_eq!((action.column, action.row), (0, ROW_STATUS_MSG));
    assert_eq!(action.text, status_message(17));
}

#[test]
fn headings_sit_on_their_rows() {
    let actions = init_actions();
    assert_eq!(actions.len(), 2);
    assert_eq!((actions[0].column, actions[0].row), (0, ROW_IP));
    assert_eq!(actions[0].text, "IP Address:");
    assert_eq!((actions[1].column, actions[1].row), (0, ROW_STATUS));
    assert_eq!(actions[1].text, "Status:");
}

#[test]
fn fade_wave_is_a_triangle() {
    let (mut width, mut step) = fade_init();
    assert_eq!((width, step), (FADE_STEP, FADE_STEP));
    let mut seen_top = false;
    let mut seen_bottom = false;
    for _ in 0..5000 {
        let next = fade_step(width, step);
        width = next.0;
        step = next.1;
        assert!(width >= 0, "pulse width went negative");
        assert!(width <= FADE_CEILING + FADE_STEP, "pulse width overshot");
        if width == FADE_CEILING + FADE_STEP {
            seen_top = true;
        }
        if width == 0 {
            seen_bottom = true;
        }
    }
    assert!(seen_top && seen_bottom, "the wave never reached both ends");
}

#[test]
fn fade_turns_around_at_the_ends() {
    let next = fade_step(0, -FADE_STEP);
    assert_eq!(next, (FADE_STEP, FADE_STEP));
    let next = fade_step(FADE_CEILING + FADE_STEP, FADE_STEP);
    assert_eq!(next, (FADE_CEILING, -FADE_STEP));
    let next = fade_step(500, FADE_STEP);
    assert_eq!(next, (500 + FADE_STEP, FADE_STEP));
}
