//! The servo control table that the board presents on the Dynamixel bus.
//!
//! The protocol handler starts with a table of zeros; at start-up the board
//! writes the settings below into it, and from then on publishes each
//! acceleration sample as the present position.  A master may write the LED
//! field: the third LED follows it.
use vstd::prelude::*;

use crate::gpio::PinAction;

verus! {

/// Model number reported to the master (that of an XC330-T181-T).
pub const MODEL_NUMBER: u16 = 0x04BA;

/// Firmware version reported to the master.
pub const FIRMWARE_VERSION: u8 = 0x30;

/// Bus identifier of the board.
pub const DEVICE_ID: u8 = 1;

/// Baud rate code of 4 Mbps.
pub const BAUD_RATE_4M: u8 = 0x06;

/// Operating mode code of current control.
pub const CURRENT_CONTROL_MODE: u8 = 0x00;

/// Default moving threshold.
pub const MOVING_THRESHOLD: u32 = 0x0A;

/// Temperature limit, in degrees Celsius (70).
pub const TEMPERATURE_LIMIT: u8 = 0x46;

/// Highest supply voltage, in units of 0.1 V (14.0 V).
pub const MAX_VOLTAGE_LIMIT: u16 = 0x8C;

/// Lowest supply voltage, in units of 0.1 V (5.5 V).
pub const MIN_VOLTAGE_LIMIT: u16 = 0x37;

/// Present position shown until the first acceleration sample arrives.
pub const START_POSITION: i32 = -777;

/// The fields of the control table that the board sets at start-up.
#[derive(Clone, Copy, Debug, PartialEq, Eq, Structural)]
pub struct StartupSettings {
    pub id: u8,
    pub model_number: u16,
    pub firmware_version: u8,
    pub baud_rate: u8,
    pub return_delay_time: u8,
    pub drive_mode: u8,
    pub operating_mode: u8,
    pub moving_threshold: u32,
    pub temperature_limit: u8,
    pub max_voltage_limit: u16,
    pub min_voltage_limit: u16,
    pub present_position: i32,
}

impl StartupSettings {
    /// The settings written at start-up: identifier 1, the XC330-T181-T
    /// model number, firmware 0x30, 4 Mbps, no return delay, the default
    /// drive mode, current control, the default moving threshold, a 70 C
    /// temperature limit, a 5.5 V to 14.0 V supply range, and the start
    /// position.
    pub fn board_defaults() -> (s: Self)
        ensures
            s.id == DEVICE_ID,
            s.model_number == MODEL_NUMBER,
            s.firmware_version == FIRMWARE_VERSION,
            s.baud_rate == BAUD_RATE_4M,
            s.return_delay_time == 0,
            s.drive_mode == 0,
            s.operating_mode == CURRENT_CONTROL_MODE,
            s.moving_threshold == MOVING_THRESHOLD,
            s.temperature_limit == TEMPERATURE_LIMIT,
            s.max_voltage_limit == MAX_VOLTAGE_LIMIT,
            s.min_voltage_limit == MIN_VOLTAGE_LIMIT,
            s.present_position == START_POSITION,
    {
        StartupSettings {
            id: DEVICE_ID,
            model_number: MODEL_NUMBER,
            firmware_version: FIRMWARE_VERSION,
            baud_rate: BAUD_RATE_4M,
            return_delay_time: 0,
            drive_mode: 0,
            operating_mode: CURRENT_CONTROL_MODE,
            moving_threshold: MOVING_THRESHOLD,
            temperature_limit: TEMPERATURE_LIMIT,
            max_voltage_limit: MAX_VOLTAGE_LIMIT,
            min_voltage_limit: MIN_VOLTAGE_LIMIT,
            present_position: START_POSITION,
        }
    }
}

/// The request for the third LED given the LED field of the control table:
/// on when the field is 1, off for any other value.
pub fn led_field_action(led: u8) -> (action: PinAction)
    ensures
        action == (if led == 1 {
            PinAction::SetHigh
        } else {
            PinAction::ResetLow
        }),
{
    if led == 1 {
        PinAction::SetHigh
    } else {
        PinAction::ResetLow
    }
}

} // verus!
