//! Protocol constants: report tags, register addresses, and the fixed
//! calibration blocks for the optical sensor.
use vstd::prelude::*;

verus! {

/// Vendor id the controller enumerates under.
pub const HID_VENDOR: u16 = 0x057e;

/// Every outbound report is exactly this many bytes; unused bytes are zero.
pub const PACKET_LEN: usize = 22;

/// Pause (in milliseconds) the device needs after a register write before the
/// next packet may be sent.
pub const SETTLE_REGISTER_MILLIS: u64 = 10;

/// Extra pause the camera needs after its detect trigger, before calibration.
pub const SETTLE_IR_CALIBRATION_MILLIS: u64 = 50;

/// Pause required after a speaker sample chunk.
pub const SETTLE_SPEAKER_MILLIS: u64 = 10;

// Registers of the IR camera.
pub const REG_IR: u32 = 0xb00030;
pub const REG_IR_SENS_BLOCK1: u32 = 0xb00000;
pub const REG_IR_SENS_BLOCK2: u32 = 0xb0001a;
pub const REG_IR_MODE: u32 = 0xb00033;

// Outbound report tags.
pub const TY_RUMBLE: u8 = 0x10;
pub const TY_PLAYER_LEDS: u8 = 0x11;
pub const TY_DATA_REPORTING_MODE: u8 = 0x12;
pub const TY_IR_CAMERA_PIXEL_CLOCK_ENABLE: u8 = 0x13;
pub const TY_SPEAKER_ENABLE: u8 = 0x14;
pub const TY_STATUS_INFORMATION_REQUEST: u8 = 0x15;
pub const TY_WRITE_MEMORY_AND_REGISTERS: u8 = 0x16;
pub const TY_READ_MEMORY_AND_REGISTERS: u8 = 0x17;
pub const TY_SPEAKER_DATA: u8 = 0x18;
pub const TY_SPEAKER_MUTE: u8 = 0x19;
pub const TY_IR_CAMERA_CHIP_ENABLE: u8 = 0x1a;

// Inbound report tags.
pub const TY_STATUS_INFORMATION: u8 = 0x20;
pub const TY_READ_MEMORY_AND_REGISTERS_DATA: u8 = 0x21;
pub const TY_RESULT: u8 = 0x22;
pub const TY_CORE_BUTTONS: u8 = 0x30;
pub const TY_CORE_BUTTONS_ACCELEROMETER: u8 = 0x31;
pub const TY_CORE_BUTTONS_EXTENSION8: u8 = 0x32;
pub const TY_CORE_BUTTONS_ACCELEROMETER_IR12: u8 = 0x33;
pub const TY_CORE_BUTTONS_EXTENSION19: u8 = 0x34;
pub const TY_CORE_BUTTONS_ACCELEROMETER_EXTENSION16: u8 = 0x35;
pub const TY_CORE_BUTTONS_IR10_EXTENSION9: u8 = 0x36;
pub const TY_CORE_BUTTONS_ACCELEROMETER_IR10_EXTENSION6: u8 = 0x37;
pub const TY_EXTENSION21: u8 = 0x3d;
pub const TY_INTERLEAVED0: u8 = 0x3e;

/// Payload sentinel for "enable" in the simple feature reports.
pub const VA_FEATURE_ENABLE: u8 = 0x04;

/// Payload sentinel for "disable" in the simple feature reports.
pub const VA_FEATURE_DISABLE: u8 = 0x00;

} // verus!
