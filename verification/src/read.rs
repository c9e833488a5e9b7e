//! Decoding of inbound reports: buttons, accelerometer, optical-sensor
//! detections, and the session's read side.
use vstd::prelude::*;

use crate::consts::{
    TY_CORE_BUTTONS, TY_CORE_BUTTONS_ACCELEROMETER, TY_CORE_BUTTONS_ACCELEROMETER_IR10_EXTENSION6,
    TY_CORE_BUTTONS_IR10_EXTENSION9, TY_STATUS_INFORMATION,
};
use crate::write::spec_action_packets;
use crate::{Acceleration, Action, ButtonState, IRObject, Report, ReportingMode};

verus! {

/// The button flags encoded in the two payload bytes `x` and `y`: each flag
/// is set if and only if its fixed bit is set in its fixed byte.
pub open spec fn spec_buttons(x: u8, y: u8) -> ButtonState {
    ButtonState {
        d_pad_left: x & 0x01 != 0,
        d_pad_right: x & 0x02 != 0,
        d_pad_down: x & 0x04 != 0,
        d_pad_up: x & 0x08 != 0,
        plus: x & 0x10 != 0,
        two: y & 0x01 != 0,
        one: y & 0x02 != 0,
        b: y & 0x04 != 0,
        a: y & 0x08 != 0,
        minus: y & 0x10 != 0,
        home: y & 0x80 != 0,
    }
}

impl ButtonState {
    /// Parse the button flags from the first two payload bytes of a report.
    pub fn from_flags(flags: [u8; 2]) -> (r: ButtonState)
        ensures
            r == spec_buttons(flags[0], flags[1]),
    {
        let x = flags[0];
        let y = flags[1];
        ButtonState {
            d_pad_left: x & 0x01 != 0,
            d_pad_right: x & 0x02 != 0,
            d_pad_down: x & 0x04 != 0,
            d_pad_up: x & 0x08 != 0,
            plus: x & 0x10 != 0,
            two: y & 0x01 != 0,
            one: y & 0x02 != 0,
            b: y & 0x04 != 0,
            a: y & 0x08 != 0,
            minus: y & 0x10 != 0,
            home: y & 0x80 != 0,
        }
    }
}

/// First candidate object of a 5-byte basic-mode group: absent exactly when
/// its two coordinate bytes are `0xff 0xff`; otherwise the 10-bit coordinates
/// are the byte plus two high-order bits from the shared middle byte.
pub open spec fn spec_ir_first(g: Seq<u8>) -> Option<IRObject> {
    if g[0] == 0xff && g[1] == 0xff {
        None
    } else {
        Some(IRObject {
            size_or_intensity: 0,
            x: g[0] as u16 | ((g[2] & 0x30) as u16) << 4,
            y: g[1] as u16 | ((g[2] & 0xc0) as u16) << 2,
        })
    }
}

/// Second candidate object of a 5-byte basic-mode group, using its own two
/// coordinate bytes and its own two high-order bit pairs of the middle byte.
pub open spec fn spec_ir_second(g: Seq<u8>) -> Option<IRObject> {
    if g[3] == 0xff && g[4] == 0xff {
        None
    } else {
        Some(IRObject {
            size_or_intensity: 0,
            x: g[3] as u16 | ((g[2] & 0x03) as u16) << 8,
            y: g[4] as u16 | ((g[2] & 0x0c) as u16) << 6,
        })
    }
}

/// The four positional detection slots of a 10-byte basic-mode IR window:
/// two 5-byte groups, two candidate objects each.
pub open spec fn spec_ir_slots(r: Seq<u8>) -> [Option<IRObject>; 4] {
    [
        spec_ir_first(r.subrange(0, 5)),
        spec_ir_second(r.subrange(0, 5)),
        spec_ir_first(r.subrange(5, 10)),
        spec_ir_second(r.subrange(5, 10)),
    ]
}

impl IRObject {
    /// Parse a pair of detections from 5 bytes like in the 10-byte report.
    pub fn from_basic_pair(r: [u8; 5]) -> (out: [Option<IRObject>; 2])
        ensures
            out[0] == spec_ir_first(r@),
            out[1] == spec_ir_second(r@),
    {
        [
            if r[0] == 0xff && r[1] == 0xff {
                None
            } else {
                Some(IRObject {
                    size_or_intensity: 0,
                    x: r[0] as u16 | ((r[2] & 0x30) as u16) << 4,
                    y: r[1] as u16 | ((r[2] & 0xc0) as u16) << 2,
                })
            },
            if r[3] == 0xff && r[4] == 0xff {
                None
            } else {
                Some(IRObject {
                    size_or_intensity: 0,
                    x: r[3] as u16 | ((r[2] & 0x03) as u16) << 8,
                    y: r[4] as u16 | ((r[2] & 0x0c) as u16) << 6,
                })
            },
        ]
    }

    /// Parse the four detection slots from a 10-byte report window.
    pub fn from_basic(r: [u8; 10]) -> (out: [Option<IRObject>; 4])
        ensures
            out == spec_ir_slots(r@),
    {
        let lo = [r[0], r[1], r[2], r[3], r[4]];
        let hi = [r[5], r[6], r[7], r[8], r[9]];
        proof {
            assert(lo@ =~= r@.subrange(0, 5));
            assert(hi@ =~= r@.subrange(5, 10));
        }
        let first = IRObject::from_basic_pair(lo);
        let second = IRObject::from_basic_pair(hi);
        let out = [first[0], first[1], second[0], second[1]];
        proof {
            assert(out =~= spec_ir_slots(r@));
        }
        out
    }
}

impl Acceleration {
    /// Parse acceleration from report format: each 10-bit axis is the coarse
    /// byte recentred and doubled, plus low-order bits stolen from the two
    /// button bytes at fixed, axis-specific positions.
    pub fn from_report(r: &[u8]) -> (a: Acceleration)
        requires
            r@.len() >= 6,
        ensures
            a == spec_accel(r@),
    {
        let b1 = r[1];
        let b2 = r[2];
        let sx = (b1 & 0x60) >> 5;
        let sy = (b2 & 0x20) >> 5;
        let sz = (b2 & 0x40) >> 6;
        proof {
            assert(((b1 & 0x60) >> 5) < 4) by (bit_vector);
            assert(((b2 & 0x20) >> 5) < 2) by (bit_vector);
            assert(((b2 & 0x40) >> 6) < 2) by (bit_vector);
        }
        Acceleration {
            x: (r[3] as i16 - 0x80) * 2 + sx as i16,
            y: (r[4] as i16 - 0x80) * 2 + sy as i16,
            z: (r[5] as i16 - 0x80) * 2 + sz as i16,
        }
    }
}

/// The accelerometer reading carried by a report: bytes 3 to 5 are the coarse
/// axes, and the low-order bits come from the button bytes 1 and 2.
pub open spec fn spec_accel(r: Seq<u8>) -> Acceleration {
    Acceleration {
        x: ((r[3] - 0x80) * 2 + ((r[1] & 0x60) >> 5)) as i16,
        y: ((r[4] - 0x80) * 2 + ((r[2] & 0x20) >> 5)) as i16,
        z: ((r[5] - 0x80) * 2 + ((r[2] & 0x40) >> 6)) as i16,
    }
}

/// The ordered events one inbound packet decodes to, selected by its tag
/// byte. Register-read results, acknowledgements and unknown tags decode to
/// no events; a session never fails on them.
pub open spec fn spec_decode(buf: Seq<u8>) -> Seq<Report>
    recommends
        buf.len() >= 16,
{
    let tag = buf[0];
    if tag == TY_CORE_BUTTONS_IR10_EXTENSION9 {
        seq![
            Report::Buttons(spec_buttons(buf[1], buf[2])),
            Report::IRDetection(spec_ir_slots(buf.subrange(3, 13))),
        ]
    } else if tag == TY_CORE_BUTTONS_ACCELEROMETER_IR10_EXTENSION6 {
        seq![
            Report::Buttons(spec_buttons(buf[1], buf[2])),
            Report::Acceleration(spec_accel(buf)),
            Report::IRDetection(spec_ir_slots(buf.subrange(6, 16))),
        ]
    } else if tag == TY_CORE_BUTTONS_ACCELEROMETER {
        seq![
            Report::Buttons(spec_buttons(buf[1], buf[2])),
            Report::Acceleration(spec_accel(buf)),
        ]
    } else if tag == TY_CORE_BUTTONS {
        seq![Report::Buttons(spec_buttons(buf[1], buf[2]))]
    } else if tag == TY_STATUS_INFORMATION {
        seq![Report::LedState(buf[3] >> 4)]
    } else {
        Seq::<Report>::empty()
    }
}

/// Decode one inbound packet into its ordered events. Stateless: identical
/// bytes always decode to identical events.
pub fn decode_packet(buf: &[u8]) -> (events: Vec<Report>)
    requires
        buf@.len() >= 16,
    ensures
        events@ == spec_decode(buf@),
{
    let mut events: Vec<Report> = Vec::new();
    let tag = buf[0];
    if tag == TY_CORE_BUTTONS_IR10_EXTENSION9 {
        events.push(Report::Buttons(ButtonState::from_flags([buf[1], buf[2]])));
        let w = [buf[3], buf[4], buf[5], buf[6], buf[7], buf[8], buf[9], buf[10], buf[11], buf[12]];
        proof {
            assert(w@ =~= buf@.subrange(3, 13));
        }
        events.push(Report::IRDetection(IRObject::from_basic(w)));
    } else if tag == TY_CORE_BUTTONS_ACCELEROMETER_IR10_EXTENSION6 {
        events.push(Report::Buttons(ButtonState::from_flags([buf[1], buf[2]])));
        events.push(Report::Acceleration(Acceleration::from_report(buf)));
        let w = [buf[6], buf[7], buf[8], buf[9], buf[10], buf[11], buf[12], buf[13], buf[14], buf[15]];
        proof {
            assert(w@ =~= buf@.subrange(6, 16));
        }
        events.push(Report::IRDetection(IRObject::from_basic(w)));
    } else if tag == TY_CORE_BUTTONS_ACCELEROMETER {
        events.push(Report::Buttons(ButtonState::from_flags([buf[1], buf[2]])));
        events.push(Report::Acceleration(Acceleration::from_report(buf)));
    } else if tag == TY_CORE_BUTTONS {
        events.push(Report::Buttons(ButtonState::from_flags([buf[1], buf[2]])));
    } else if tag == TY_STATUS_INFORMATION {
        events.push(Report::LedState(buf[3] >> 4));
    }
    proof {
        assert(events@ =~= spec_decode(buf@));
    }
    events
}

/// Round trip between the two directions of the protocol: the tag byte that
/// the set-reporting command sends for a mode is the very tag on which the
/// decoder dispatches, and a packet tagged with it decodes to exactly that
/// mode's events — buttons first, then acceleration, then the detections,
/// whichever of them the mode carries. Modes the decoder does not surface
/// decode to no events, never to a failure.
pub proof fn lemma_reporting_round_trip(m: ReportingMode, buf: Seq<u8>)
    requires
        buf.len() >= 16,
        buf[0] == m.spec_tag(),
    ensures
        spec_action_packets(Action::SetReporting(m))[0].0[2] == m.spec_tag(),
        m == ReportingMode::Buttons ==> spec_decode(buf) == seq![
            Report::Buttons(spec_buttons(buf[1], buf[2])),
        ],
        m == ReportingMode::ButtonsAccel ==> spec_decode(buf) == seq![
            Report::Buttons(spec_buttons(buf[1], buf[2])),
            Report::Acceleration(spec_accel(buf)),
        ],
        m == ReportingMode::ButtonsAccelIR10Ext6 ==> spec_decode(buf) == seq![
            Report::Buttons(spec_buttons(buf[1], buf[2])),
            Report::Acceleration(spec_accel(buf)),
            Report::IRDetection(spec_ir_slots(buf.subrange(6, 16))),
        ],
        m == ReportingMode::ButtonsIR10Ext9 ==> spec_decode(buf) == seq![
            Report::Buttons(spec_buttons(buf[1], buf[2])),
            Report::IRDetection(spec_ir_slots(buf.subrange(3, 13))),
        ],
        m == ReportingMode::ButtonsExt8 || m == ReportingMode::ButtonsAccelIR12 || m
            == ReportingMode::ButtonsExt19 || m == ReportingMode::ButtonsAccelExt16
            ==> spec_decode(buf).len() == 0,
{
}

} // verus!
