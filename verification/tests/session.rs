use wiimote_stuff::{Action, IRMode, IRSensitivity, Report, ReportingMode, Wiimote};

fn packet(head: &[u8]) -> Vec<u8> {
    let mut buf = vec![0u8; 32];
    buf[..head.len()].copy_from_slice(head);
    buf
}

#[test]
fn rumble_flag_carried_until_disabled() {
    let mut w = Wiimote::new();
    let before = w.write(Action::PlayerLeds(0x01));
    assert_eq!(before[0].bytes[1] & 1, 0);

    let rumble_on = w.write(Action::RumbleEnable(true));
    assert_eq!(rumble_on[0].bytes[0], 0x10);
    assert_eq!(rumble_on[0].bytes[1] & 1, 1);

    // three different command kinds in a row, all carrying the flag
    let leds = w.write(Action::PlayerLeds(0x02));
    assert_eq!(leds[0].bytes[1] & 1, 1);
    let mode = w.write(Action::SetReporting(ReportingMode::Buttons));
    assert_eq!(mode[0].bytes[1] & 1, 1);
    let ir = w.write(Action::IRCameraEnable(Some((IRMode::Basic, IRSensitivity::Level2))));
    for p in &ir {
        assert_eq!(p.bytes[1] & 1, 1);
    }
    let reg = w.write_registers(0xb00030, &[0x01]);
    assert_eq!(reg.bytes[1], 0x05);

    let rumble_off = w.write(Action::RumbleEnable(false));
    assert_eq!(rumble_off[0].bytes[1] & 1, 0);
    let after = w.write(Action::PlayerLeds(0x03));
    assert_eq!(after[0].bytes[1] & 1, 0);
}

#[test]
fn combined_report_yields_three_events_in_order() {
    let mut w = Wiimote::new();
    let mut buf = packet(&[0x37, 0x01, 0x60, 0x81, 0x80, 0x80]);
    // IR window at bytes 6..16: first group empty, second group two objects
    buf[6..16].copy_from_slice(&[0xff, 0xff, 0x00, 0xff, 0xff, 0x10, 0x20, 0x77, 0x30, 0x40]);

    let first = w.accept_packet(&buf);
    let second = w.pop_event();
    let third = w.pop_event();
    let done = w.pop_event();

    match first {
        Some(Report::Buttons(b)) => assert!(b.d_pad_left && !b.d_pad_right),
        other => panic!("expected buttons first, got {other:?}"),
    }
    match second {
        Some(Report::Acceleration(a)) => {
            assert_eq!((a.x, a.y, a.z), (2, 1, 1));
        },
        other => panic!("expected acceleration second, got {other:?}"),
    }
    match third {
        Some(Report::IRDetection(slots)) => {
            assert_eq!(slots[0], None);
            assert_eq!(slots[1], None);
            assert!(slots[2].is_some() && slots[3].is_some());
        },
        other => panic!("expected detections third, got {other:?}"),
    }
    assert_eq!(done, None);
}

#[test]
fn buttons_ir_report_yields_two_events() {
    let mut w = Wiimote::new();
    let mut buf = packet(&[0x36, 0x00, 0x01]);
    buf[3..13].copy_from_slice(&[0xff, 0xff, 0x00, 0xff, 0xff, 0xff, 0xff, 0x00, 0xff, 0xff]);
    match w.accept_packet(&buf) {
        Some(Report::Buttons(b)) => assert!(b.two),
        other => panic!("expected buttons first, got {other:?}"),
    }
    match w.pop_event() {
        Some(Report::IRDetection(slots)) => assert_eq!(slots, [None; 4]),
        other => panic!("expected detections second, got {other:?}"),
    }
    assert_eq!(w.pop_event(), None);
}

#[test]
fn reporting_mode_tags_round_trip_to_decoder() {
    // the tag each mode writes is the tag the decoder dispatches on
    let cases: [(ReportingMode, usize); 4] = [
        (ReportingMode::Buttons, 1),
        (ReportingMode::ButtonsAccel, 2),
        (ReportingMode::ButtonsIR10Ext9, 2),
        (ReportingMode::ButtonsAccelIR10Ext6, 3),
    ];
    for (mode, n_events) in cases {
        let mut w = Wiimote::new();
        let out = w.write(Action::SetReporting(mode));
        let tag = out[0].bytes[2];

        let mut buf = packet(&[tag]);
        // keep the detection slots of IR-carrying modes absent
        buf[3..16].copy_from_slice(&[0xff; 13]);
        let mut events = Vec::new();
        if let Some(e) = w.accept_packet(&buf) {
            events.push(e);
        }
        while let Some(e) = w.pop_event() {
            events.push(e);
        }
        assert_eq!(events.len(), n_events, "mode {mode:?}");
        assert!(matches!(events[0], Report::Buttons(_)), "mode {mode:?}");
    }
}

#[test]
fn read_after_drain_starts_fresh() {
    let mut w = Wiimote::new();
    let buf = packet(&[0x30, 0x10, 0x00]);
    match w.accept_packet(&buf) {
        Some(Report::Buttons(b)) => assert!(b.plus),
        other => panic!("expected buttons, got {other:?}"),
    }
    assert_eq!(w.pop_event(), None);
    let buf2 = packet(&[0x30, 0x00, 0x80]);
    match w.accept_packet(&buf2) {
        Some(Report::Buttons(b)) => assert!(b.home),
        other => panic!("expected buttons, got {other:?}"),
    }
}
