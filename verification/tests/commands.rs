//! Dispatcher-level behaviour: line accumulation, classification,
//! dispatch outputs, and the bounded buffer.

use fpga_bridge::device::{Action, DeviceState};
use fpga_bridge::dispatch::{
    classify, confirm_forwarded_bytes, confirm_led_off_bytes, confirm_led_on_bytes,
    confirm_reset_bytes, Command, Dispatcher, LINE_CAPACITY,
};

/// Feed a byte string to a dispatcher and collect every action.
fn feed(dispatcher: &mut Dispatcher, bytes: &[u8]) -> Vec<Action> {
    let mut actions = Vec::new();
    for &byte in bytes {
        actions.extend(dispatcher.on_byte(byte));
    }
    actions
}

#[test]
fn confirmation_strings_are_the_fixed_ascii() {
    assert_eq!(confirm_forwarded_bytes(), b"SENT TO FPGA \r\n".to_vec());
    assert_eq!(confirm_reset_bytes(), b"SENT FPGA RESET SIGNAL\r\n".to_vec());
    assert_eq!(confirm_led_on_bytes(), b"LED ON\r\n".to_vec());
    assert_eq!(confirm_led_off_bytes(), b"LED OFF\r\n".to_vec());
}

#[test]
fn led_on_line_drives_led_high_and_echoes() {
    let mut dispatcher = Dispatcher::new();
    assert_eq!(feed(&mut dispatcher, b"1"), vec![]);
    let actions = feed(&mut dispatcher, b"\n");
    assert_eq!(
        actions,
        vec![Action::SetLed(true), Action::Echo(b"LED ON\r\n".to_vec())]
    );
}

#[test]
fn led_off_line_drives_led_low_and_echoes() {
    let mut dispatcher = Dispatcher::new();
    let actions = feed(&mut dispatcher, b"0\n");
    assert_eq!(
        actions,
        vec![Action::SetLed(false), Action::Echo(b"LED OFF\r\n".to_vec())]
    );
}

#[test]
fn reset_line_asserts_reset_inhibit() {
    let mut dispatcher = Dispatcher::new();
    let actions = feed(&mut dispatcher, b"r\n");
    assert_eq!(
        actions,
        vec![
            Action::SetResetInhibit(true),
            Action::Echo(b"SENT FPGA RESET SIGNAL\r\n".to_vec()),
        ]
    );
}

#[test]
fn carriage_return_also_terminates() {
    let mut dispatcher = Dispatcher::new();
    let actions = feed(&mut dispatcher, b"1\r");
    assert_eq!(
        actions,
        vec![Action::SetLed(true), Action::Echo(b"LED ON\r\n".to_vec())]
    );
}

#[test]
fn marker_line_round_trip() {
    let mut dispatcher = Dispatcher::new();
    let actions = feed(&mut dispatcher, b"$abc\n");
    assert_eq!(
        actions,
        vec![
            Action::SetResetInhibit(false),
            Action::WriteSecondary(b"abc".to_vec()),
            Action::Echo(b"abc".to_vec()),
            Action::Echo(b"SENT TO FPGA \r\n".to_vec()),
        ]
    );
}

#[test]
fn bare_marker_line_forwards_no_payload() {
    let mut dispatcher = Dispatcher::new();
    let actions = feed(&mut dispatcher, b"$\n");
    assert_eq!(actions, vec![Action::SetResetInhibit(false)]);
}

#[test]
fn one_byte_payload_is_forwarded() {
    let mut dispatcher = Dispatcher::new();
    let actions = feed(&mut dispatcher, b"$x\n");
    assert_eq!(
        actions,
        vec![
            Action::SetResetInhibit(false),
            Action::WriteSecondary(b"x".to_vec()),
            Action::Echo(b"x".to_vec()),
            Action::Echo(b"SENT TO FPGA \r\n".to_vec()),
        ]
    );
}

#[test]
fn unrecognized_and_empty_lines_do_nothing() {
    let mut dispatcher = Dispatcher::new();
    assert_eq!(feed(&mut dispatcher, b"z\n"), vec![]);
    assert_eq!(feed(&mut dispatcher, b"\n"), vec![]);
    assert_eq!(feed(&mut dispatcher, b"\r"), vec![]);
}

#[test]
fn overflow_clears_instead_of_growing() {
    let mut dispatcher = Dispatcher::new();
    let garbage = vec![b'a'; LINE_CAPACITY];
    assert_eq!(feed(&mut dispatcher, &garbage), vec![]);
    assert_eq!(dispatcher.line.len(), LINE_CAPACITY);
    // The byte that finds the buffer full clears it and is discarded.
    assert_eq!(feed(&mut dispatcher, b"a"), vec![]);
    assert_eq!(dispatcher.line.len(), 0);
    // Accumulation then starts over cleanly.
    let actions = feed(&mut dispatcher, b"1\n");
    assert_eq!(
        actions,
        vec![Action::SetLed(true), Action::Echo(b"LED ON\r\n".to_vec())]
    );
}

#[test]
fn buffer_never_exceeds_capacity() {
    let mut dispatcher = Dispatcher::new();
    for byte in 0u8..=255 {
        dispatcher.on_byte(byte);
        assert!(dispatcher.line.len() <= LINE_CAPACITY);
    }
}

#[test]
fn classify_by_first_byte() {
    assert_eq!(
        classify(&b"$ab\n".to_vec()),
        Command::ConfigureDownstream { payload: b"ab".to_vec() }
    );
    assert_eq!(
        classify(&b"$\n".to_vec()),
        Command::ConfigureDownstream { payload: Vec::new() }
    );
    assert_eq!(classify(&b"r\n".to_vec()), Command::ResetAssert);
    assert_eq!(classify(&b"1\n".to_vec()), Command::LedOn);
    assert_eq!(classify(&b"0\n".to_vec()), Command::LedOff);
    assert_eq!(classify(&b"q\n".to_vec()), Command::Unrecognized);
    assert_eq!(classify(&b"\n".to_vec()), Command::Unrecognized);
}

/// Track the output lines while feeding bytes to an idle dispatcher.
fn lines_after(lines: DeviceState, bytes: &[u8]) -> DeviceState {
    let mut dispatcher = Dispatcher::new();
    let mut lines = lines;
    for action in feed(&mut dispatcher, bytes) {
        lines.apply(&action);
    }
    lines
}

#[test]
fn led_commands_are_idempotent_not_toggles() {
    let initial = DeviceState::new();
    assert!(!initial.led);
    // The LED-on line twice in a row leaves the LED high.
    assert!(lines_after(initial, b"1\n1\n").led);
    // The LED-off line followed by the LED-on line leaves it high too.
    assert!(lines_after(initial, b"0\n1\n").led);
    // And the off command leaves it low, from either side.
    assert!(!lines_after(initial, b"1\n0\n").led);
}
