//! Handles for the on-board devices.  Each handle is a zero-sized token:
//! the device state lives in the peripheral registers, so the handles only
//! name which device an operation is meant for.
use vstd::prelude::*;

use core::time::Duration;

use crate::gpio::{toggle_action, toggle_request, PinAction};

verus! {

/// Time source handed to the Dynamixel protocol handler.
pub struct LocalClock {}

impl LocalClock {
    pub fn new() -> (clock: Self)
        ensures
            clock == (LocalClock {}),
    {
        LocalClock {}
    }

    /// The clock needs no set-up: this does nothing.
    pub fn init(&self) {
    }

    /// The time that the clock reports.  The board has no free-running
    /// time base wired to it, so the reported time stays at zero
    /// microseconds.
    pub fn current_time(&self) -> (t: Duration)
        ensures
            t == duration_of_micros(0),
    {
        duration_from_micros(0)
    }
}

/// What `Duration::from_micros` gives for `micros`.
pub uninterp spec fn duration_of_micros(micros: u64) -> Duration;

/// Calls `core::time::Duration::from_micros`.  The contract claims only that
/// the result depends on `micros` alone.  It leaves unsaid which span the
/// result stands for (`micros` microseconds): `Duration` is an opaque type
/// here, and none of its accessors has a specification to state that over.
#[verifier::external_body]
fn duration_from_micros(micros: u64) -> (d: Duration)
    ensures
        d == duration_of_micros(micros),
{
    Duration::from_micros(micros)
}

/// USART3, the serial port used for text output.
pub struct Uart3 {}

impl Uart3 {
    pub fn new() -> (uart: Self)
        ensures
            uart == (Uart3 {}),
    {
        Uart3 {}
    }
}

/// SPI2, the bus to the inertial measurement unit.
pub struct SPI2 {}

impl SPI2 {
    pub fn new() -> (spi: Self)
        ensures
            spi == (SPI2 {}),
    {
        SPI2 {}
    }
}

/// The first force sensing resistor, read through ADC2.
pub struct Fsr0 {}

impl Fsr0 {
    pub fn new() -> (fsr: Self)
        ensures
            fsr == (Fsr0 {}),
    {
        Fsr0 {}
    }
}

/// Pin of GPIO port C that drives the first LED.
pub const LED0_PIN: u32 = 13;

/// Pin of GPIO port C that drives the second LED.
pub const LED1_PIN: u32 = 14;

/// Pin of GPIO port C that drives the third LED.
pub const LED2_PIN: u32 = 15;

/// The first LED, on pin 13 of port C.
pub struct Led0 {}

impl Led0 {
    pub fn new() -> (led: Self)
        ensures
            led == (Led0 {}),
    {
        Led0 {}
    }

    /// The port C pin that drives this LED.
    pub fn pin(&self) -> (pin: u32)
        ensures
            pin == LED0_PIN,
    {
        LED0_PIN
    }

    /// The request that toggles this LED, given the port's output data
    /// register: the LED is switched on when its pin is low, off otherwise.
    pub fn toggle_action(&self, odr: u32) -> (action: PinAction)
        ensures
            action == toggle_request(odr, LED0_PIN),
    {
        toggle_action(odr, LED0_PIN)
    }
}

/// The second LED, on pin 14 of port C.
pub struct Led1 {}

impl Led1 {
    pub fn new() -> (led: Self)
        ensures
            led == (Led1 {}),
    {
        Led1 {}
    }

    /// The port C pin that drives this LED.
    pub fn pin(&self) -> (pin: u32)
        ensures
            pin == LED1_PIN,
    {
        LED1_PIN
    }

    /// The request that toggles this LED, given the port's output data
    /// register: the LED is switched on when its pin is low, off otherwise.
    pub fn toggle_action(&self, odr: u32) -> (action: PinAction)
        ensures
            action == toggle_request(odr, LED1_PIN),
    {
        toggle_action(odr, LED1_PIN)
    }
}

/// The third LED, on pin 15 of port C.
pub struct Led2 {}

impl Led2 {
    pub fn new() -> (led: Self)
        ensures
            led == (Led2 {}),
    {
        Led2 {}
    }

    /// The port C pin that drives this LED.
    pub fn pin(&self) -> (pin: u32)
        ensures
            pin == LED2_PIN,
    {
        LED2_PIN
    }

    /// The request that toggles this LED, given the port's output data
    /// register: the LED is switched on when its pin is low, off otherwise.
    pub fn toggle_action(&self, odr: u32) -> (action: PinAction)
        ensures
            action == toggle_request(odr, LED2_PIN),
    {
        toggle_action(odr, LED2_PIN)
    }
}

} // verus!
