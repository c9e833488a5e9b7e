//! Encoding of outbound commands into fixed-size packets. Every packet built
//! here is exactly [`crate::consts::PACKET_LEN`] bytes with zeroed trailing
//! bytes; the rumble flag is merged in later, at the session's single egress
//! point.
use vstd::prelude::*;

use crate::consts::{
    PACKET_LEN, REG_IR, REG_IR_MODE, REG_IR_SENS_BLOCK1, REG_IR_SENS_BLOCK2,
    SETTLE_IR_CALIBRATION_MILLIS, SETTLE_REGISTER_MILLIS, SETTLE_SPEAKER_MILLIS,
    TY_DATA_REPORTING_MODE, TY_IR_CAMERA_CHIP_ENABLE, TY_IR_CAMERA_PIXEL_CLOCK_ENABLE,
    TY_PLAYER_LEDS, TY_RUMBLE, TY_SPEAKER_DATA, TY_SPEAKER_ENABLE, TY_SPEAKER_MUTE,
    TY_WRITE_MEMORY_AND_REGISTERS, VA_FEATURE_DISABLE, VA_FEATURE_ENABLE,
};
use crate::{Action, IRMode, IRSensitivity, OutPacket};

verus! {

/// A short packet head padded with zeroes to the fixed packet length.
pub open spec fn zero_pad(head: Seq<u8>) -> Seq<u8>
    recommends
        head.len() <= PACKET_LEN,
{
    head + Seq::new((PACKET_LEN - head.len()) as nat, |i: int| 0u8)
}

/// The packet of a simple feature switch: its tag, then the fixed enable or
/// disable sentinel (never a raw boolean).
pub open spec fn spec_feature_packet(tag: u8, enable: bool) -> Seq<u8> {
    zero_pad(seq![tag, if enable { VA_FEATURE_ENABLE } else { VA_FEATURE_DISABLE }])
}

/// The register-write packet: tag, fixed sub-header, the address's low three
/// bytes big-endian, a length byte (data capped at 16 bytes), and the data
/// left-justified in the rest, zero-padded.
pub open spec fn spec_register_write(addr: u32, data: Seq<u8>) -> Seq<u8> {
    let n = if data.len() < 16 { data.len() as int } else { 16 };
    seq![
        TY_WRITE_MEMORY_AND_REGISTERS,
        0x04u8,
        ((addr >> 16) & 0xff) as u8,
        ((addr >> 8) & 0xff) as u8,
        (addr & 0xff) as u8,
        n as u8,
    ] + data.take(n) + Seq::new((16 - n) as nat, |i: int| 0u8)
}

/// The packet of a speaker sample chunk: tag, the fixed size byte encoding 20
/// samples, then the 20 sample bytes.
pub open spec fn spec_speaker_data_packet(data: Seq<u8>) -> Seq<u8> {
    seq![TY_SPEAKER_DATA, 0xa0u8] + data
}

/// The ordered raw packets a command expands to, before the rumble flag is
/// merged in, each with the settle pause (in milliseconds) the device needs
/// after it. Only enabling the IR camera expands to more than one packet: the
/// fixed eight-step bring-up of the optical sensor, whose third step carries
/// the extra mid-sequence calibration pause.
pub open spec fn spec_action_packets(a: Action) -> Seq<(Seq<u8>, u64)> {
    match a {
        Action::SetReporting(m) => seq![
            (zero_pad(seq![TY_DATA_REPORTING_MODE, 0u8, m.spec_tag()]), 0u64),
        ],
        Action::IRCameraEnable(on) => match on {
            Some((mode, sens)) => seq![
                (spec_feature_packet(TY_IR_CAMERA_PIXEL_CLOCK_ENABLE, true), 0u64),
                (spec_feature_packet(TY_IR_CAMERA_CHIP_ENABLE, true), 0u64),
                (
                    spec_register_write(REG_IR, seq![0x01u8]),
                    (SETTLE_REGISTER_MILLIS + SETTLE_IR_CALIBRATION_MILLIS) as u64,
                ),
                (spec_register_write(REG_IR_SENS_BLOCK1, spec_sens_block1(sens)), SETTLE_REGISTER_MILLIS),
                (spec_register_write(REG_IR_SENS_BLOCK2, spec_sens_block2(sens)), SETTLE_REGISTER_MILLIS),
                (spec_register_write(REG_IR_MODE, seq![mode.spec_mode_byte()]), SETTLE_REGISTER_MILLIS),
                (spec_register_write(REG_IR, seq![0x08u8]), SETTLE_REGISTER_MILLIS),
            ],
            None => seq![
                (spec_feature_packet(TY_IR_CAMERA_CHIP_ENABLE, false), 0u64),
                (spec_feature_packet(TY_IR_CAMERA_PIXEL_CLOCK_ENABLE, false), 0u64),
            ],
        },
        Action::PlayerLeds(mask) => seq![(zero_pad(seq![TY_PLAYER_LEDS, (mask << 4) as u8]), 0u64)],
        Action::RumbleEnable(on) => seq![
            (zero_pad(seq![TY_RUMBLE, if on { 1u8 } else { 0u8 }]), 0u64),
        ],
        Action::SpeakerEnable(on) => seq![(spec_feature_packet(TY_SPEAKER_ENABLE, on), 0u64)],
        Action::SpeakerMute(on) => seq![(spec_feature_packet(TY_SPEAKER_MUTE, on), 0u64)],
        Action::SpeakerData(data) => seq![(spec_speaker_data_packet(data@), SETTLE_SPEAKER_MILLIS)],
    }
}

/// A packet as it leaves the session: bit 0 of its second byte is overwritten
/// with the current rumble flag, whichever command produced the packet.
pub open spec fn spec_with_rumble(b: Seq<u8>, r: bool) -> Seq<u8>
    recommends
        b.len() >= 2,
{
    b.update(1, if r { b[1] | 1 } else { b[1] & 0xfe })
}

/// Every raw packet of every command is exactly the fixed packet length.
pub proof fn lemma_action_packet_len(a: Action, i: int)
    requires
        0 <= i < spec_action_packets(a).len(),
    ensures
        spec_action_packets(a)[i].0.len() == PACKET_LEN,
{
    // a case split over the commands: each arm's packet shapes — padded
    // heads, register writes, the speaker chunk — give the length directly
    match a {
        Action::SetReporting(m) => {},
        Action::IRCameraEnable(on) => {},
        Action::PlayerLeds(mask) => {},
        Action::RumbleEnable(on) => {},
        Action::SpeakerEnable(on) => {},
        Action::SpeakerMute(on) => {},
        Action::SpeakerData(data) => {},
    }
}

/// Enabling the camera expands to exactly the fixed bring-up sequence —
/// pixel clock on, camera chip on, detect trigger, both sensitivity blocks,
/// the resolution mode byte, the final enable trigger — in that order, with
/// the extra calibration pause carried by the third packet and the ordinary
/// register pause by every register write.
pub proof fn lemma_ir_enable_sequence(mode: IRMode, sens: IRSensitivity)
    ensures
        ({
            let ps = spec_action_packets(Action::IRCameraEnable(Some((mode, sens))));
            &&& ps.len() == 7
            &&& ps[0].0 == spec_feature_packet(TY_IR_CAMERA_PIXEL_CLOCK_ENABLE, true)
            &&& ps[1].0 == spec_feature_packet(TY_IR_CAMERA_CHIP_ENABLE, true)
            &&& ps[2].0 == spec_register_write(REG_IR, seq![0x01u8])
            &&& ps[3].0 == spec_register_write(REG_IR_SENS_BLOCK1, spec_sens_block1(sens))
            &&& ps[4].0 == spec_register_write(REG_IR_SENS_BLOCK2, spec_sens_block2(sens))
            &&& ps[5].0 == spec_register_write(REG_IR_MODE, seq![mode.spec_mode_byte()])
            &&& ps[6].0 == spec_register_write(REG_IR, seq![0x08u8])
            &&& ps[0].1 == 0
            &&& ps[1].1 == 0
            &&& ps[2].1 == SETTLE_REGISTER_MILLIS + SETTLE_IR_CALIBRATION_MILLIS
            &&& ps[3].1 == SETTLE_REGISTER_MILLIS
            &&& ps[4].1 == SETTLE_REGISTER_MILLIS
            &&& ps[5].1 == SETTLE_REGISTER_MILLIS
            &&& ps[6].1 == SETTLE_REGISTER_MILLIS
        }),
{
}

/// Push zeroes until the packet head has the fixed packet length.
fn zero_padded(head: Vec<u8>) -> (v: Vec<u8>)
    requires
        head@.len() <= PACKET_LEN,
    ensures
        v@ == zero_pad(head@),
{
    let mut v = head;
    proof {
        assert(v@ =~= head@ + Seq::new((v@.len() - head@.len()) as nat, |i: int| 0u8));
    }
    while v.len() < PACKET_LEN
        invariant
            head@.len() <= v@.len() <= PACKET_LEN,
            v@ == head@ + Seq::new((v@.len() - head@.len()) as nat, |i: int| 0u8),
        decreases PACKET_LEN - v@.len(),
    {
        v.push(0);
        proof {
            assert(v@ =~= head@ + Seq::new((v@.len() - head@.len()) as nat, |i: int| 0u8));
        }
    }
    proof {
        assert(v@ =~= zero_pad(head@));
    }
    v
}

/// Build the two-byte head of a simple feature switch and pad it.
fn feature_packet(tag: u8, enable: bool) -> (v: Vec<u8>)
    ensures
        v@ == spec_feature_packet(tag, enable),
{
    let mut head: Vec<u8> = Vec::new();
    head.push(tag);
    head.push(if enable { VA_FEATURE_ENABLE } else { VA_FEATURE_DISABLE });
    proof {
        assert(head@ =~= seq![tag, if enable { VA_FEATURE_ENABLE } else { VA_FEATURE_DISABLE }]);
    }
    zero_padded(head)
}

/// Build the register-write packet for an address and up to 16 data bytes.
pub fn register_write_packet(addr: u32, data: &[u8]) -> (v: Vec<u8>)
    ensures
        v@ == spec_register_write(addr, data@),
{
    proof {
        assert(((addr >> 16) & 0xff) < 256 && ((addr >> 8) & 0xff) < 256 && (addr & 0xff) < 256)
            by (bit_vector);
    }
    let n: usize = if data.len() < 16 { data.len() } else { 16 };
    let mut v: Vec<u8> = Vec::new();
    v.push(TY_WRITE_MEMORY_AND_REGISTERS);
    v.push(0x04);
    v.push(((addr >> 16) & 0xff) as u8);
    v.push(((addr >> 8) & 0xff) as u8);
    v.push((addr & 0xff) as u8);
    v.push(n as u8);
    let ghost head = v@;
    let mut i: usize = 0;
    proof {
        assert(v@ =~= head + data@.take(0));
    }
    while i < n
        invariant
            i <= n,
            n <= data@.len(),
            v@ == head + data@.take(i as int),
        decreases n - i,
    {
        v.push(data[i]);
        proof {
            assert(v@ =~= head + data@.take(i as int + 1));
        }
        i = i + 1;
    }
    let mut j: usize = 0;
    let pad: usize = 16 - n;
    proof {
        assert(v@ =~= head + data@.take(n as int) + Seq::new(0, |k: int| 0u8));
    }
    while j < pad
        invariant
            j <= pad,
            pad == 16 - n,
            n <= data@.len(),
            v@ == head + data@.take(n as int) + Seq::new(j as nat, |k: int| 0u8),
        decreases pad - j,
    {
        v.push(0);
        proof {
            assert(v@ =~= head + data@.take(n as int) + Seq::new(j as nat + 1, |k: int| 0u8));
        }
        j = j + 1;
    }
    proof {
        assert(head =~= seq![
            TY_WRITE_MEMORY_AND_REGISTERS,
            0x04u8,
            ((addr >> 16) & 0xff) as u8,
            ((addr >> 8) & 0xff) as u8,
            (addr & 0xff) as u8,
            n as u8,
        ]);
        assert(v@ =~= spec_register_write(addr, data@));
    }
    v
}

/// Render a command to its ordered raw packets, rumble bit not yet merged.
pub fn encode_action(a: &Action) -> (out: Vec<OutPacket>)
    ensures
        out@.len() == spec_action_packets(*a).len(),
        forall|i: int|
            0 <= i < out@.len() ==> (#[trigger] out@[i]).bytes@ == spec_action_packets(*a)[i].0
                && out@[i].settle_millis == spec_action_packets(*a)[i].1,
{
    let mut out: Vec<OutPacket> = Vec::new();
    match a {
        Action::SetReporting(m) => {
            let mut head: Vec<u8> = Vec::new();
            head.push(TY_DATA_REPORTING_MODE);
            head.push(0);
            head.push(m.tag());
            proof {
                assert(head@ =~= seq![TY_DATA_REPORTING_MODE, 0u8, m.spec_tag()]);
            }
            out.push(OutPacket { bytes: zero_padded(head), settle_millis: 0 });
        },
        Action::IRCameraEnable(on) => match on {
            Some((mode, sens)) => {
                let blocks = sens.blocks();
                out.push(OutPacket {
                    bytes: feature_packet(TY_IR_CAMERA_PIXEL_CLOCK_ENABLE, true),
                    settle_millis: 0,
                });
                out.push(OutPacket {
                    bytes: feature_packet(TY_IR_CAMERA_CHIP_ENABLE, true),
                    settle_millis: 0,
                });
                let trigger: [u8; 1] = [0x01];
                proof {
                    assert(trigger@ =~= seq![0x01u8]);
                }
                out.push(OutPacket {
                    bytes: register_write_packet(REG_IR, &trigger),
                    settle_millis: SETTLE_REGISTER_MILLIS + SETTLE_IR_CALIBRATION_MILLIS,
                });
                out.push(OutPacket {
                    bytes: register_write_packet(REG_IR_SENS_BLOCK1, &blocks.0),
                    settle_millis: SETTLE_REGISTER_MILLIS,
                });
                out.push(OutPacket {
                    bytes: register_write_packet(REG_IR_SENS_BLOCK2, &blocks.1),
                    settle_millis: SETTLE_REGISTER_MILLIS,
                });
                let mode_reg: [u8; 1] = [mode.mode_byte()];
                proof {
                    assert(mode_reg@ =~= seq![mode.spec_mode_byte()]);
                }
                out.push(OutPacket {
                    bytes: register_write_packet(REG_IR_MODE, &mode_reg),
                    settle_millis: SETTLE_REGISTER_MILLIS,
                });
                let enable: [u8; 1] = [0x08];
                proof {
                    assert(enable@ =~= seq![0x08u8]);
                }
                out.push(OutPacket {
                    bytes: register_write_packet(REG_IR, &enable),
                    settle_millis: SETTLE_REGISTER_MILLIS,
                });
            },
            None => {
                out.push(OutPacket {
                    bytes: feature_packet(TY_IR_CAMERA_CHIP_ENABLE, false),
                    settle_millis: 0,
                });
                out.push(OutPacket {
                    bytes: feature_packet(TY_IR_CAMERA_PIXEL_CLOCK_ENABLE, false),
                    settle_millis: 0,
                });
            },
        },
        Action::PlayerLeds(mask) => {
            let m: u8 = *mask;
            let mut head: Vec<u8> = Vec::new();
            head.push(TY_PLAYER_LEDS);
            head.push(m << 4);
            proof {
                assert(head@ =~= seq![TY_PLAYER_LEDS, (m << 4) as u8]);
            }
            out.push(OutPacket { bytes: zero_padded(head), settle_millis: 0 });
        },
        Action::RumbleEnable(on) => {
            let mut head: Vec<u8> = Vec::new();
            head.push(TY_RUMBLE);
            head.push(if *on { 1 } else { 0 });
            proof {
                assert(head@ =~= seq![TY_RUMBLE, if *on { 1u8 } else { 0u8 }]);
            }
            out.push(OutPacket { bytes: zero_padded(head), settle_millis: 0 });
        },
        Action::SpeakerEnable(on) => {
            out.push(OutPacket { bytes: feature_packet(TY_SPEAKER_ENABLE, *on), settle_millis: 0 });
        },
        Action::SpeakerMute(on) => {
            out.push(OutPacket { bytes: feature_packet(TY_SPEAKER_MUTE, *on), settle_millis: 0 });
        },
        Action::SpeakerData(data) => {
            let mut v: Vec<u8> = Vec::new();
            v.push(TY_SPEAKER_DATA);
            v.push(0xa0);
            let mut i: usize = 0;
            proof {
                assert(v@ =~= seq![TY_SPEAKER_DATA, 0xa0u8] + data@.take(0));
            }
            while i < 20
                invariant
                    i <= 20,
                    v@ == seq![TY_SPEAKER_DATA, 0xa0u8] + data@.take(i as int),
                decreases 20 - i,
            {
                v.push(data[i]);
                proof {
                    assert(v@ =~= seq![TY_SPEAKER_DATA, 0xa0u8] + data@.take(i as int + 1));
                }
                i = i + 1;
            }
            proof {
                assert(v@ =~= spec_speaker_data_packet(data@));
            }
            out.push(OutPacket { bytes: v, settle_millis: SETTLE_SPEAKER_MILLIS });
        },
    }
    out
}

/// First calibration block (9 bytes) of a sensitivity preset, written to the
/// camera's first sensitivity register block.
pub open spec fn spec_sens_block1(s: IRSensitivity) -> Seq<u8> {
    match s {
        IRSensitivity::Level1 => seq![0x02u8, 0x00, 0x00, 0x71, 0x01, 0x00, 0x64, 0x00, 0xfe],
        IRSensitivity::Level2 => seq![0x02u8, 0x00, 0x00, 0x71, 0x01, 0x00, 0x96, 0x00, 0xb4],
        IRSensitivity::Level3 => seq![0x02u8, 0x00, 0x00, 0x71, 0x01, 0x00, 0xaa, 0x00, 0x64],
        IRSensitivity::Level4 => seq![0x02u8, 0x00, 0x00, 0x71, 0x01, 0x00, 0xc8, 0x00, 0x36],
        IRSensitivity::Level5 => seq![0x07u8, 0x00, 0x00, 0x71, 0x01, 0x00, 0x72, 0x00, 0x20],
        IRSensitivity::CustomHigh => seq![0x02u8, 0x00, 0x00, 0x71, 0x01, 0x00, 0x90, 0x00, 0x41],
        IRSensitivity::CustomMaximum => seq![0x00u8, 0x00, 0x00, 0x00, 0x00, 0x00, 0x90, 0x00, 0x41],
    }
}

/// Second calibration block (2 bytes) of a sensitivity preset, written to the
/// camera's second sensitivity register block.
pub open spec fn spec_sens_block2(s: IRSensitivity) -> Seq<u8> {
    match s {
        IRSensitivity::Level1 => seq![0xfdu8, 0x05],
        IRSensitivity::Level2 => seq![0xb3u8, 0x04],
        IRSensitivity::Level3 => seq![0x63u8, 0x03],
        IRSensitivity::Level4 => seq![0x35u8, 0x03],
        IRSensitivity::Level5 => seq![0x1fu8, 0x03],
        IRSensitivity::CustomHigh => seq![0x40u8, 0x00],
        IRSensitivity::CustomMaximum => seq![0x40u8, 0x00],
    }
}

impl IRSensitivity {
    /// The two calibration blocks of this preset.
    pub fn blocks(&self) -> (r: ([u8; 9], [u8; 2]))
        ensures
            r.0@ == spec_sens_block1(*self),
            r.1@ == spec_sens_block2(*self),
    {
        let r = match self {
            IRSensitivity::Level1 => ([0x02u8, 0x00, 0x00, 0x71, 0x01, 0x00, 0x64, 0x00, 0xfe], [0xfdu8, 0x05]),
            IRSensitivity::Level2 => ([0x02u8, 0x00, 0x00, 0x71, 0x01, 0x00, 0x96, 0x00, 0xb4], [0xb3u8, 0x04]),
            IRSensitivity::Level3 => ([0x02u8, 0x00, 0x00, 0x71, 0x01, 0x00, 0xaa, 0x00, 0x64], [0x63u8, 0x03]),
            IRSensitivity::Level4 => ([0x02u8, 0x00, 0x00, 0x71, 0x01, 0x00, 0xc8, 0x00, 0x36], [0x35u8, 0x03]),
            IRSensitivity::Level5 => ([0x07u8, 0x00, 0x00, 0x71, 0x01, 0x00, 0x72, 0x00, 0x20], [0x1fu8, 0x03]),
            IRSensitivity::CustomHigh => ([0x02u8, 0x00, 0x00, 0x71, 0x01, 0x00, 0x90, 0x00, 0x41], [0x40u8, 0x00]),
            IRSensitivity::CustomMaximum => ([0x00u8, 0x00, 0x00, 0x00, 0x00, 0x00, 0x90, 0x00, 0x41], [0x40u8, 0x00]),
        };
        proof {
            assert(r.0@ =~= spec_sens_block1(*self));
            assert(r.1@ =~= spec_sens_block2(*self));
        }
        r
    }
}

} // verus!
