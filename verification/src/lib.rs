//! Protocol layer for a motion-control game controller speaking over a
//! fixed-size-packet HID transport.
//!
//! The crate decodes inbound reports into typed events ([`Report`]), encodes
//! outbound commands ([`Action`]) into fixed-size packets, and keeps the one
//! piece of session state — the rumble flag that is merged into every
//! outbound packet — in [`Wiimote`]. The transport itself (device discovery,
//! blocking reads and writes, and the settle delays between packets) is left
//! to the caller: encoding returns [`OutPacket`] values that say which bytes
//! to send and how long to pause afterwards.
use vstd::prelude::*;

pub mod consts;
pub mod read;
pub mod session;
pub mod write;

pub use session::Wiimote;

verus! {

/// One decoded event from an inbound report.
#[derive(Debug, Clone, Copy, PartialEq)]
pub enum Report {
    Buttons(ButtonState),
    Acceleration(Acceleration),
    LedState(u8),
    IRDetection([Option<IRObject>; 4]),
}

/// Actions control outputs like rumble, player leds, etc.
#[derive(Debug, Clone, Copy)]
pub enum Action {
    /// Sets the reporting mode, required to receive the data you need.
    SetReporting(ReportingMode),
    /// Enables the IR camera, given mode and sensitivity, or disables it.
    IRCameraEnable(Option<(IRMode, IRSensitivity)>),
    /// Set player LEDs to the lower 4 bit of the provided mask.
    PlayerLeds(u8),
    /// Enables/Disables rumble.
    RumbleEnable(bool),
    /// Enables/Disables speaker.
    SpeakerEnable(bool),
    /// Enables/Disables speaker mute.
    SpeakerMute(bool),
    /// Sends 20 samples to the speaker.
    SpeakerData([u8; 20]),
}

/// Named calibration presets for the optical sensor.
#[derive(Debug, Clone, Copy, PartialEq, Eq, Structural)]
pub enum IRSensitivity {
    Level1,
    Level2,
    Level3,
    Level4,
    Level5,
    CustomHigh,
    CustomMaximum,
}

/// Defines which data should be reported to the host.
#[derive(Debug, Clone, Copy, PartialEq, Eq, Structural)]
pub enum ReportingMode {
    /// Core Buttons
    Buttons,
    /// Core Buttons and Accelerometer
    ButtonsAccel,
    /// Core Buttons and Accelerometer with 16 Extension Bytes
    ButtonsAccelExt16,
    /// Core Buttons and Accelerometer with 10 IR bytes and 6 Extension Bytes
    ButtonsAccelIR10Ext6,
    /// Core Buttons and Accelerometer with 12 IR bytes
    ButtonsAccelIR12,
    /// Core Buttons with 19 Extension bytes
    ButtonsExt19,
    /// Core Buttons with 8 Extension bytes
    ButtonsExt8,
    /// Core Buttons with 10 IR bytes and 9 Extension Bytes
    ButtonsIR10Ext9,
}

impl ReportingMode {
    /// The report tag the device uses for packets of this mode; the same tag
    /// selects the decode rule for inbound packets.
    pub open spec fn spec_tag(self) -> u8 {
        match self {
            ReportingMode::Buttons => crate::consts::TY_CORE_BUTTONS,
            ReportingMode::ButtonsAccel => crate::consts::TY_CORE_BUTTONS_ACCELEROMETER,
            ReportingMode::ButtonsAccelExt16 => crate::consts::TY_CORE_BUTTONS_ACCELEROMETER_EXTENSION16,
            ReportingMode::ButtonsAccelIR10Ext6 => crate::consts::TY_CORE_BUTTONS_ACCELEROMETER_IR10_EXTENSION6,
            ReportingMode::ButtonsAccelIR12 => crate::consts::TY_CORE_BUTTONS_ACCELEROMETER_IR12,
            ReportingMode::ButtonsExt19 => crate::consts::TY_CORE_BUTTONS_EXTENSION19,
            ReportingMode::ButtonsExt8 => crate::consts::TY_CORE_BUTTONS_EXTENSION8,
            ReportingMode::ButtonsIR10Ext9 => crate::consts::TY_CORE_BUTTONS_IR10_EXTENSION9,
        }
    }

    /// Report tag of this mode, as sent in the set-reporting command.
    pub fn tag(&self) -> (t: u8)
        ensures
            t == self.spec_tag(),
    {
        match self {
            ReportingMode::Buttons => crate::consts::TY_CORE_BUTTONS,
            ReportingMode::ButtonsAccel => crate::consts::TY_CORE_BUTTONS_ACCELEROMETER,
            ReportingMode::ButtonsAccelExt16 => crate::consts::TY_CORE_BUTTONS_ACCELEROMETER_EXTENSION16,
            ReportingMode::ButtonsAccelIR10Ext6 => crate::consts::TY_CORE_BUTTONS_ACCELEROMETER_IR10_EXTENSION6,
            ReportingMode::ButtonsAccelIR12 => crate::consts::TY_CORE_BUTTONS_ACCELEROMETER_IR12,
            ReportingMode::ButtonsExt19 => crate::consts::TY_CORE_BUTTONS_EXTENSION19,
            ReportingMode::ButtonsExt8 => crate::consts::TY_CORE_BUTTONS_EXTENSION8,
            ReportingMode::ButtonsIR10Ext9 => crate::consts::TY_CORE_BUTTONS_IR10_EXTENSION9,
        }
    }
}

/// Signed 3-axis accelerometer reading.
#[derive(Debug, Clone, Copy, PartialEq, Eq, Structural)]
pub struct Acceleration {
    pub x: i16,
    pub y: i16,
    pub z: i16,
}

/// Resolution mode of the IR camera.
#[derive(Debug, Clone, Copy, PartialEq, Eq, Structural)]
pub enum IRMode {
    Basic,
    Extended,
    Full,
}

impl IRMode {
    /// The byte written to the camera's mode register for this mode.
    pub open spec fn spec_mode_byte(self) -> u8 {
        match self {
            IRMode::Basic => 1,
            IRMode::Extended => 3,
            IRMode::Full => 5,
        }
    }

    /// Mode register byte of this mode.
    pub fn mode_byte(&self) -> (b: u8)
        ensures
            b == self.spec_mode_byte(),
    {
        match self {
            IRMode::Basic => 1,
            IRMode::Extended => 3,
            IRMode::Full => 5,
        }
    }
}

/// Represents a detection by the IR camera.
#[derive(Debug, Clone, Copy, PartialEq, Eq, Structural)]
pub struct IRObject {
    pub x: u16,
    pub y: u16,
    /// What this exactly means depends on camera mode.
    pub size_or_intensity: u8,
}

/// The eleven button flags, decoded from the first two payload bytes.
#[derive(Debug, Clone, Copy, PartialEq, Eq, Structural)]
pub struct ButtonState {
    pub d_pad_left: bool,
    pub d_pad_right: bool,
    pub d_pad_down: bool,
    pub d_pad_up: bool,
    pub plus: bool,
    pub two: bool,
    pub one: bool,
    pub b: bool,
    pub a: bool,
    pub minus: bool,
    pub home: bool,
}

impl Default for ButtonState {
    /// All eleven buttons released.
    fn default() -> (r: ButtonState)
        ensures
            r == (ButtonState {
                d_pad_left: false,
                d_pad_right: false,
                d_pad_down: false,
                d_pad_up: false,
                plus: false,
                two: false,
                one: false,
                b: false,
                a: false,
                minus: false,
                home: false,
            }),
    {
        ButtonState {
            d_pad_left: false,
            d_pad_right: false,
            d_pad_down: false,
            d_pad_up: false,
            plus: false,
            two: false,
            one: false,
            b: false,
            a: false,
            minus: false,
            home: false,
        }
    }
}

/// One packet ready for the transport, together with the pause the device
/// needs after it before the next packet may be sent.
#[derive(Debug)]
pub struct OutPacket {
    pub bytes: Vec<u8>,
    pub settle_millis: u64,
}

} // verus!
