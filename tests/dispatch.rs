use umcan::{CodecError, Dispatcher, FrameId, Message, MotorCmd, Telemetry};

fn dispatcher() -> Dispatcher {
    Dispatcher::new(0x03, 0x7F).unwrap()
}

#[test]
fn unknown_identifier_is_unsupported() {
    let d = dispatcher();
    let payload = [1u8, 2, 3, 4, 5, 6, 7, 8];
    assert_eq!(d.classify(0xABCDEF, &payload), Ok(Message::Unsupported));
    assert_eq!(d.classify(0xABCDEF, &[]), Ok(Message::Unsupported));
}

#[test]
fn classify_known_identifiers() {
    let d = dispatcher();
    assert_eq!(
        d.classify(0x03, &[0x00, 0x80]),
        Ok(Message::MotorCmd(MotorCmd::new(0x8000)))
    );
    assert_eq!(
        d.classify(0x7F, &[0xBE, 0xAD, 0xDE, 0x00, 0x80, 0x80, 0x00, 0x19]),
        Ok(Message::Telemetry(Telemetry::new(0xDEADBE, 0x8000, 128, -25)))
    );
}

#[test]
fn classify_short_command_payload() {
    let d = dispatcher();
    assert_eq!(
        d.classify(0x03, &[0x01]),
        Err(CodecError::PayloadTooShort { needed: 2, found: 1 })
    );
}

#[test]
fn standard_identifiers_follow_configuration() {
    let d = dispatcher();
    assert_eq!(
        d.classify_frame(FrameId::Standard(0x03), &[0x00, 0x80]),
        Ok(Message::Unsupported)
    );
    let routed = d.with_standard_routing(true);
    assert_eq!(
        routed.classify_frame(FrameId::Standard(0x03), &[0x00, 0x80]),
        Ok(Message::MotorCmd(MotorCmd::new(0x8000)))
    );
    assert_eq!(
        d.classify_frame(FrameId::Extended(0x03), &[0x00, 0x80]),
        Ok(Message::MotorCmd(MotorCmd::new(0x8000)))
    );
}

#[test]
fn dispatcher_rejects_wide_identifiers() {
    assert_eq!(Dispatcher::new(0x2000_0000, 0x7F), Err(CodecError::InvalidIdentifier));
    assert_eq!(Dispatcher::new(0x03, 0xFFFF_FFFF), Err(CodecError::InvalidIdentifier));
    let d = Dispatcher::new(0x1FFF_FFFF, 0).unwrap();
    assert_eq!((d.cmd_id, d.telem_id, d.route_standard), (0x1FFF_FFFF, 0, false));
}

#[test]
fn framify_concrete_scenario() {
    let cmd = Message::MotorCmd(MotorCmd::new(0x8000));
    assert_eq!(cmd.framify(0x03), Ok(Some((0x03, vec![0x00, 0x80]))));
    let telem = Message::Telemetry(Telemetry::new(0xDEADBE, 0x8000, 128, -25));
    assert_eq!(
        telem.framify(0x7F),
        Ok(Some((0x7F, vec![0xBE, 0xAD, 0xDE, 0x00, 0x80, 0x80, 0x00, 0x19])))
    );
}

#[test]
fn framify_unsupported_and_errors() {
    assert_eq!(Message::Unsupported.framify(0x03), Ok(None));
    let cmd = Message::MotorCmd(MotorCmd::new(1));
    assert_eq!(cmd.framify(0x2000_0000), Err(CodecError::InvalidIdentifier));
    assert_eq!(cmd.framify(0x1FFF_FFFF), Ok(Some((0x1FFF_FFFF, vec![1, 0]))));
    let hot = Message::Telemetry(Telemetry::new(1, 2, 3, 300));
    assert_eq!(hot.framify(0x7F), Err(CodecError::TempOutOfRange));
}

#[test]
fn frame_then_classify_round_trip() {
    let d = dispatcher();
    let m = Message::MotorCmd(MotorCmd::new(0xBEEF));
    let (id, bytes) = m.framify(d.cmd_id).unwrap().unwrap();
    assert_eq!(d.classify(id, &bytes), Ok(m));
    let t = Message::Telemetry(Telemetry::new(0x123456, 1, 2, 100));
    let (id, bytes) = t.framify(d.telem_id).unwrap().unwrap();
    assert_eq!(d.classify(id, &bytes), Ok(t));
}
