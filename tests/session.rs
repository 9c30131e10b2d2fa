use can_bootloader::session::{
    Action, Event, ProtocolConfig, Session, SessionError, Stage, ACK_COMPLETE, NO_TIMEOUT,
    TRANSFER_TIMEOUT,
};

fn session(image: &[u8], device: u32, bypass: bool) -> Session {
    Session::new(image.to_vec(), device, bypass, ProtocolConfig::standard())
}

fn heartbeat_read() -> Action {
    Action::ReceiveMatching { id: 2, timeout: NO_TIMEOUT }
}

fn frame(data: [u8; 4]) -> Action {
    Action::SendFrame { id: 1, data, timeout: TRANSFER_TIMEOUT }
}

fn ack(third: u8) -> Event {
    Event::Received { data: [0, 0, third, 0, 0, 0, 0, 0] }
}

/// Runs Init with every operation succeeding; returns the action after it.
fn bring_up(s: &mut Session) -> Action {
    assert_eq!(s.pending_action(), Action::OpenChannel);
    assert_eq!(s.step(Event::Completed), Action::SetBusParams { bitrate: -1 });
    assert_eq!(s.step(Event::Completed), Action::BusOn);
    s.step(Event::Completed)
}

#[test]
fn standard_config_values() {
    let c = ProtocolConfig::standard();
    assert_eq!(c.heartbeat_id, 2);
    assert_eq!(c.data_id, 1);
    assert_eq!(c.completion_id, 2);
    assert_eq!(c.send_timeout, 10000);
    assert_eq!(c.ack_timeout, 10000);
    assert_eq!(c.heartbeat_timeout, 0xFFFF_FFFF);
    assert_eq!(c.ack_complete, 128);
    assert_eq!(ACK_COMPLETE, 128);
}

#[test]
fn full_run_with_three_records_ends_done() {
    let mut s = session(b"\x02F00A FF00 1234\x03", 0x7E5, false);
    assert_eq!(s.stage(), Stage::Opening);
    assert_eq!(
        bring_up(&mut s),
        Action::SendStart { id: 0x7E5, data: [0xFF; 8], timeout: 10000 }
    );
    assert_eq!(s.stage(), Stage::SendingStart);
    assert_eq!(s.step(Event::Completed), Action::FlushReceiveQueue);
    assert_eq!(s.step(Event::Completed), heartbeat_read());
    assert_eq!(s.stage(), Stage::WaitingForHeartbeat);
    assert_eq!(s.step(Event::Completed), Action::FlushReceiveQueue);
    assert_eq!(s.step(Event::Completed), frame([0, 1, 0xF0, 0x0A]));
    assert_eq!(s.stage(), Stage::Streaming);
    assert_eq!(s.step(Event::Completed), frame([0, 2, 0xFF, 0x00]));
    assert_eq!(s.step(Event::Completed), frame([0, 3, 0x12, 0x34]));
    assert_eq!(s.step(Event::Completed), Action::ReceiveMatching { id: 2, timeout: 10000 });
    assert_eq!(s.stage(), Stage::AwaitingCompletion);
    assert_eq!(s.step(Event::Completed), Action::Receive { timeout: 10000 });
    assert_eq!(s.step(ack(128)), Action::Close);
    assert_eq!(s.stage(), Stage::Done);
    assert_eq!(s.step(Event::Completed), Action::Stop);
    assert_eq!(s.stage(), Stage::Closed);
}

#[test]
fn spaced_hex_pairs_with_control_markers() {
    let mut s = session(b"\x02 F0 0A FF \x03", 5, false);
    bring_up(&mut s);
    s.step(Event::Completed);
    s.step(Event::Completed);
    s.step(Event::Completed);
    assert_eq!(s.step(Event::Completed), frame([0, 1, 0xF0, 0x0A]));
    assert_eq!(s.step(Event::Completed), Action::ReceiveMatching { id: 2, timeout: 10000 });
}

#[test]
fn missing_device_aborts_after_init() {
    let mut s = session(b"0102", 0, false);
    assert_eq!(
        bring_up(&mut s),
        Action::Abort { error: SessionError::MissingDevice }
    );
    assert_eq!(s.stage(), Stage::Aborted { error: SessionError::MissingDevice });
    assert_eq!(
        s.step(Event::Completed),
        Action::Abort { error: SessionError::MissingDevice }
    );
}

#[test]
fn bypass_skips_the_start_command() {
    let mut s = session(b"0102", 0, true);
    assert_eq!(bring_up(&mut s), Action::FlushReceiveQueue);
    let mut s = session(b"0102", 9, true);
    assert_eq!(bring_up(&mut s), Action::FlushReceiveQueue);
    assert_eq!(s.step(Event::Completed), heartbeat_read());
}

#[test]
fn rejected_ack_reports_failure_and_waits_again() {
    let mut s = session(b"0102ABCD", 3, true);
    bring_up(&mut s);
    s.step(Event::Completed);
    s.step(Event::Completed);
    s.step(Event::Completed);
    s.step(Event::Completed);
    s.step(Event::Completed);
    assert_eq!(s.step(Event::Completed), Action::Receive { timeout: 10000 });
    assert_eq!(s.step(ack(127)), Action::ReportFailure);
    assert_eq!(s.stage(), Stage::Failed);
    assert_eq!(s.step(Event::Completed), heartbeat_read());
    assert_eq!(s.stage(), Stage::WaitingForHeartbeat);
}

#[test]
fn missing_ack_restarts_from_counter_one() {
    let mut s = session(b"0102ABCD", 3, true);
    bring_up(&mut s);
    s.step(Event::Completed);
    s.step(Event::Completed);
    s.step(Event::Completed);
    s.step(Event::Completed);
    assert_eq!(
        s.step(Event::Completed),
        Action::ReceiveMatching { id: 2, timeout: 10000 }
    );
    assert_eq!(s.step(Event::Failed { code: -7 }), Action::ReportFailure);
    assert_eq!(s.step(Event::Completed), heartbeat_read());
    assert_eq!(s.step(Event::Failed { code: -7 }), heartbeat_read());
    assert_eq!(s.step(Event::Completed), Action::FlushReceiveQueue);
    assert_eq!(s.step(Event::Completed), frame([0, 1, 0x01, 0x02]));
    assert_eq!(s.step(Event::Completed), frame([0, 2, 0xAB, 0xCD]));
}

#[test]
fn receive_error_while_reading_ack_is_a_failed_attempt() {
    let mut s = session(b"0102", 3, true);
    bring_up(&mut s);
    for _ in 0..4 {
        s.step(Event::Completed);
    }
    assert_eq!(s.step(Event::Completed), Action::Receive { timeout: 10000 });
    assert_eq!(s.step(Event::Failed { code: -1 }), Action::ReportFailure);
}

#[test]
fn failed_frame_send_is_repeated_unchanged() {
    let mut s = session(b"0102ABCD", 3, true);
    bring_up(&mut s);
    s.step(Event::Completed);
    s.step(Event::Completed);
    assert_eq!(s.step(Event::Completed), frame([0, 1, 0x01, 0x02]));
    assert_eq!(s.step(Event::Failed { code: -4 }), frame([0, 1, 0x01, 0x02]));
    assert_eq!(s.step(Event::Failed { code: -4 }), frame([0, 1, 0x01, 0x02]));
    assert_eq!(s.step(Event::Completed), frame([0, 2, 0xAB, 0xCD]));
}

#[test]
fn empty_image_goes_straight_to_the_ack() {
    let mut s = session(b"\x02\x03", 3, true);
    bring_up(&mut s);
    s.step(Event::Completed);
    s.step(Event::Completed);
    assert_eq!(
        s.step(Event::Completed),
        Action::ReceiveMatching { id: 2, timeout: 10000 }
    );
}

#[test]
fn init_failures_abort_with_their_code() {
    let mut s = session(b"0102", 3, false);
    assert_eq!(
        s.step(Event::Failed { code: -3 }),
        Action::Abort { error: SessionError::OpenChannel { code: -3 } }
    );
    let mut s = session(b"0102", 3, false);
    s.step(Event::Completed);
    assert_eq!(
        s.step(Event::Failed { code: -2 }),
        Action::Abort { error: SessionError::SetBusParams { code: -2 } }
    );
    let mut s = session(b"0102", 3, false);
    s.step(Event::Completed);
    s.step(Event::Completed);
    assert_eq!(
        s.step(Event::Failed { code: -5 }),
        Action::Abort { error: SessionError::BusOn { code: -5 } }
    );
}

#[test]
fn start_command_failure_aborts() {
    let mut s = session(b"0102", 3, false);
    bring_up(&mut s);
    assert_eq!(
        s.step(Event::Failed { code: -10 }),
        Action::Abort { error: SessionError::StartCommand { code: -10 } }
    );
}

#[test]
fn oversized_image_aborts_after_init() {
    let s = session(&b"0000".repeat(65536), 3, false);
    let mut s = s;
    assert_eq!(s.image().len(), 4 * 65536);
    assert_eq!(
        bring_up(&mut s),
        Action::Abort { error: SessionError::ImageTooLarge }
    );
}
