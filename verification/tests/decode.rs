use wiimote_stuff::{Acceleration, ButtonState, IRObject, Report, Wiimote};

fn packet(head: &[u8]) -> Vec<u8> {
    let mut buf = vec![0u8; 32];
    buf[..head.len()].copy_from_slice(head);
    buf
}

#[test]
fn buttons_each_bit_sets_exactly_one_flag() {
    // (first byte, second byte, expected flags as a tuple of the 11 fields)
    let cases: [(u8, u8, [bool; 11]); 11] = [
        (0x01, 0x00, [true, false, false, false, false, false, false, false, false, false, false]),
        (0x02, 0x00, [false, true, false, false, false, false, false, false, false, false, false]),
        (0x04, 0x00, [false, false, true, false, false, false, false, false, false, false, false]),
        (0x08, 0x00, [false, false, false, true, false, false, false, false, false, false, false]),
        (0x10, 0x00, [false, false, false, false, true, false, false, false, false, false, false]),
        (0x00, 0x01, [false, false, false, false, false, true, false, false, false, false, false]),
        (0x00, 0x02, [false, false, false, false, false, false, true, false, false, false, false]),
        (0x00, 0x04, [false, false, false, false, false, false, false, true, false, false, false]),
        (0x00, 0x08, [false, false, false, false, false, false, false, false, true, false, false]),
        (0x00, 0x10, [false, false, false, false, false, false, false, false, false, true, false]),
        (0x00, 0x80, [false, false, false, false, false, false, false, false, false, false, true]),
    ];
    for (x, y, f) in cases {
        let b = ButtonState::from_flags([x, y]);
        let got = [
            b.d_pad_left,
            b.d_pad_right,
            b.d_pad_down,
            b.d_pad_up,
            b.plus,
            b.two,
            b.one,
            b.b,
            b.a,
            b.minus,
            b.home,
        ];
        assert_eq!(got, f, "bytes {x:#04x} {y:#04x}");
    }
}

#[test]
fn buttons_unused_bits_set_no_flag() {
    let b = ButtonState::from_flags([0xe0, 0x60]);
    assert_eq!(b, ButtonState::default());
}

#[test]
fn buttons_all_set() {
    let b = ButtonState::from_flags([0x1f, 0x9f]);
    assert!(
        b.d_pad_left
            && b.d_pad_right
            && b.d_pad_down
            && b.d_pad_up
            && b.plus
            && b.two
            && b.one
            && b.b
            && b.a
            && b.minus
            && b.home
    );
}

#[test]
fn ir_pair_first_absent_second_present() {
    let out = IRObject::from_basic_pair([0xff, 0xff, 0x07, 0x12, 0x34]);
    assert_eq!(out[0], None);
    assert_eq!(out[1], Some(IRObject { x: 0x312, y: 0x134, size_or_intensity: 0 }));
}

#[test]
fn ir_pair_both_absent() {
    let out = IRObject::from_basic_pair([0xff, 0xff, 0x00, 0xff, 0xff]);
    assert_eq!(out, [None, None]);
}

#[test]
fn ir_pair_both_present_high_bits() {
    let out = IRObject::from_basic_pair([0x10, 0x20, 0x77, 0x30, 0x40]);
    assert_eq!(out[0], Some(IRObject { x: 0x310, y: 0x120, size_or_intensity: 0 }));
    assert_eq!(out[1], Some(IRObject { x: 0x330, y: 0x140, size_or_intensity: 0 }));
}

#[test]
fn ir_four_slots_are_positional() {
    let out = IRObject::from_basic([0xff, 0xff, 0x00, 0xff, 0xff, 0x10, 0x20, 0x77, 0x30, 0x40]);
    assert_eq!(out[0], None);
    assert_eq!(out[1], None);
    assert_eq!(out[2], Some(IRObject { x: 0x310, y: 0x120, size_or_intensity: 0 }));
    assert_eq!(out[3], Some(IRObject { x: 0x330, y: 0x140, size_or_intensity: 0 }));
}

#[test]
fn acceleration_formula_exact() {
    // coarse bytes at 3..6, stolen low-order bits in the button bytes 1 and 2
    let buf = packet(&[0x31, 0x60, 0x60, 0x81, 0x7f, 0x80]);
    let a = Acceleration::from_report(&buf);
    assert_eq!(a, Acceleration { x: 5, y: -1, z: 1 });
}

#[test]
fn acceleration_extremes() {
    let buf = packet(&[0x31, 0x00, 0x00, 0x00, 0xff, 0x80]);
    let a = Acceleration::from_report(&buf);
    assert_eq!(a, Acceleration { x: -256, y: 254, z: 0 });
}

#[test]
fn status_report_yields_led_state_high_nibble() {
    let mut w = Wiimote::new();
    let buf = packet(&[0x20, 0x00, 0x00, 0xf0]);
    let r = w.accept_packet(&buf);
    assert_eq!(r, Some(Report::LedState(0x0f)));
    assert_eq!(w.pop_event(), None);
}

#[test]
fn unknown_tag_yields_no_events() {
    let mut w = Wiimote::new();
    let buf = packet(&[0x7f, 0x12, 0x34]);
    assert_eq!(w.accept_packet(&buf), None);
    assert_eq!(w.pop_event(), None);
}

#[test]
fn acknowledgement_reports_yield_no_events() {
    let mut w = Wiimote::new();
    assert_eq!(w.accept_packet(&packet(&[0x21])), None);
    assert_eq!(w.accept_packet(&packet(&[0x22])), None);
}
