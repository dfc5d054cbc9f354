//! Session-level behaviour: power-up sequencing, the bitstream relay,
//! the handover to the dispatcher, and disconnect recovery.

use fpga_bridge::device::{Action, DeviceState};
use fpga_bridge::sequencer::{power_on_actions, SETTLE_DELAY_MS};
use fpga_bridge::session::{Event, Phase, Session};

#[test]
fn power_on_sequence_in_hardware_order() {
    assert_eq!(
        power_on_actions(),
        vec![
            Action::SetPower(false),
            Action::Delay(SETTLE_DELAY_MS),
            Action::SetPower(true),
            Action::SetEnable(true),
            Action::SetChipSelect(false),
            Action::Delay(SETTLE_DELAY_MS),
            Action::SetChipSelect(true),
        ]
    );
}

#[test]
fn initial_pin_levels() {
    let lines = DeviceState::new();
    assert!(!lines.power_enable);
    assert!(!lines.device_enable);
    assert!(lines.chip_select);
    assert!(!lines.reset_inhibit);
    assert!(!lines.led);
}

#[test]
fn start_moves_to_relaying_when_payload_is_owed() {
    let mut session = Session::new(4);
    assert_eq!(session.phase(), Phase::Sequencing);
    let actions = session.start();
    assert_eq!(actions, power_on_actions());
    assert_eq!(session.phase(), Phase::Relaying);
}

#[test]
fn start_skips_relaying_when_no_payload_is_owed() {
    let mut session = Session::new(0);
    session.start();
    assert_eq!(session.phase(), Phase::Dispatching);
}

#[test]
fn relay_frames_each_chunk_and_hands_over_exactly_at_the_target() {
    let mut session = Session::new(10);
    session.start();

    let actions = session.on_event(Event::Chunk(b"abcd".to_vec()));
    assert_eq!(
        actions,
        vec![
            Action::SetChipSelect(false),
            Action::WriteConfig(b"abcd".to_vec()),
            Action::SetChipSelect(true),
        ]
    );
    assert_eq!(session.phase(), Phase::Relaying);

    let actions = session.on_event(Event::Chunk(b"efghij".to_vec()));
    assert_eq!(
        actions,
        vec![
            Action::SetChipSelect(false),
            Action::WriteConfig(b"efghij".to_vec()),
            Action::SetChipSelect(true),
        ]
    );
    assert_eq!(session.phase(), Phase::Dispatching);
}

#[test]
fn relay_ignores_an_empty_chunk() {
    let mut session = Session::new(2);
    session.start();
    let actions = session.on_event(Event::Chunk(Vec::new()));
    assert_eq!(actions, vec![]);
    assert_eq!(session.phase(), Phase::Relaying);
}

#[test]
fn relay_suspends_on_disconnect_without_losing_progress() {
    let mut session = Session::new(8);
    session.start();
    session.on_event(Event::Chunk(b"abcd".to_vec()));
    let actions = session.on_event(Event::LinkDown);
    assert_eq!(actions, vec![Action::AwaitConnection]);
    assert_eq!(session.phase(), Phase::Relaying);
    session.on_event(Event::Chunk(b"efgh".to_vec()));
    assert_eq!(session.phase(), Phase::Dispatching);
}

#[test]
fn whole_bitstream_in_packet_sized_chunks() {
    // 46,408 bytes: 725 full 64-byte chunks and one 8-byte remainder.
    let total: usize = 46408;
    let mut session = Session::new(total);
    session.start();

    let mut chip_select_cycles = 0usize;
    let mut written = Vec::new();
    let mut sent = 0usize;
    while sent < total {
        let len = (total - sent).min(64);
        let chunk: Vec<u8> = (0..len).map(|i| ((sent + i) % 251) as u8).collect();
        assert_eq!(session.phase(), Phase::Relaying);
        let actions = session.on_event(Event::Chunk(chunk.clone()));
        assert_eq!(actions.len(), 3);
        assert_eq!(actions[0], Action::SetChipSelect(false));
        assert_eq!(actions[1], Action::WriteConfig(chunk.clone()));
        assert_eq!(actions[2], Action::SetChipSelect(true));
        chip_select_cycles += 1;
        written.extend(chunk);
        sent += len;
    }

    assert_eq!(chip_select_cycles, 726);
    assert_eq!(written.len(), total);
    // Control passed to the dispatcher exactly after the last byte.
    assert_eq!(session.phase(), Phase::Dispatching);
}

#[test]
fn commands_flow_once_the_bitstream_is_done() {
    let mut session = Session::new(3);
    session.start();
    session.on_event(Event::Chunk(b"xyz".to_vec()));
    assert_eq!(session.phase(), Phase::Dispatching);
    let actions = session.on_event(Event::Chunk(b"1\n".to_vec()));
    assert_eq!(
        actions,
        vec![Action::SetLed(true), Action::Echo(b"LED ON\r\n".to_vec())]
    );
}

#[test]
fn disconnect_mid_line_discards_the_partial_line() {
    let mut session = Session::new(0);
    session.start();
    let mut all_actions = Vec::new();

    // `r` accumulates but is never completed by a terminator.
    all_actions.extend(session.on_event(Event::Chunk(b"r".to_vec())));
    // The link drops and later reports reconnection.
    let actions = session.on_event(Event::LinkDown);
    assert_eq!(actions, vec![Action::AwaitConnection]);
    all_actions.extend(actions);

    // The next received bytes start a fresh line.
    let actions = session.on_event(Event::Chunk(b"1\n".to_vec()));
    assert_eq!(
        actions,
        vec![Action::SetLed(true), Action::Echo(b"LED ON\r\n".to_vec())]
    );
    all_actions.extend(actions);

    // The discarded `r` was never dispatched: reset-inhibit never moved.
    assert!(all_actions
        .iter()
        .all(|action| !matches!(action, Action::SetResetInhibit(_))));
}

#[test]
fn a_line_split_across_chunks_is_one_command() {
    let mut session = Session::new(0);
    session.start();
    assert_eq!(session.on_event(Event::Chunk(b"$a".to_vec())), vec![]);
    let actions = session.on_event(Event::Chunk(b"bc\n".to_vec()));
    assert_eq!(
        actions,
        vec![
            Action::SetResetInhibit(false),
            Action::WriteSecondary(b"abc".to_vec()),
            Action::Echo(b"abc".to_vec()),
            Action::Echo(b"SENT TO FPGA \r\n".to_vec()),
        ]
    );
}

#[test]
fn device_state_tracks_applied_actions() {
    let mut lines = DeviceState::new();
    for action in power_on_actions() {
        lines.apply(&action);
    }
    assert!(lines.power_enable);
    assert!(lines.device_enable);
    assert!(lines.chip_select);
    lines.apply(&Action::SetLed(true));
    assert!(lines.led);
    lines.apply(&Action::Echo(b"LED ON\r\n".to_vec()));
    assert!(lines.led);
}
