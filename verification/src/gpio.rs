//! Output pins of a GPIO port.
//!
//! A pin is driven through the port's bit set/reset register: a set request
//! drives the pin high, a reset request drives it low, and every other pin of
//! the port keeps its level.  The output data register reflects the levels.
use vstd::prelude::*;

verus! {

/// Number of pins of one GPIO port.
pub const PORT_PINS: u32 = 16;

/// What to request of one output pin through the bit set/reset register.
#[derive(Clone, Copy, Debug, PartialEq, Eq, Structural)]
pub enum PinAction {
    /// Drive the pin high.
    SetHigh,
    /// Drive the pin low.
    ResetLow,
}

/// Whether `pin` is driven high in the output data register value `odr`.
pub open spec fn pin_is_high(odr: u32, pin: u32) -> bool {
    (odr >> pin) & 1u32 == 1u32
}

/// The output data register after `action` has been requested for `pin`.
pub open spec fn odr_after(odr: u32, pin: u32, action: PinAction) -> u32 {
    match action {
        PinAction::SetHigh => odr | (1u32 << pin),
        PinAction::ResetLow => odr & !(1u32 << pin),
    }
}

/// The request that inverts the level of `pin`.
pub open spec fn toggle_request(odr: u32, pin: u32) -> PinAction {
    if pin_is_high(odr, pin) {
        PinAction::ResetLow
    } else {
        PinAction::SetHigh
    }
}

/// Whether `pin` is driven low in the output data register value `odr`.
pub fn pin_is_low(odr: u32, pin: u32) -> (low: bool)
    requires
        pin < PORT_PINS,
    ensures
        low == !pin_is_high(odr, pin),
{
    let bit = (odr >> pin) & 1u32;
    assert(bit == 0u32 || bit == 1u32) by (bit_vector)
        requires
            bit == (odr >> pin) & 1u32,
    ;
    bit == 0u32
}

/// The request that a toggle makes of `pin`: a pin that is low is set, a pin
/// that is high is reset.
pub fn toggle_action(odr: u32, pin: u32) -> (action: PinAction)
    requires
        pin < PORT_PINS,
    ensures
        action == toggle_request(odr, pin),
        action == PinAction::SetHigh <==> !pin_is_high(odr, pin),
{
    if pin_is_low(odr, pin) {
        PinAction::SetHigh
    } else {
        PinAction::ResetLow
    }
}

/// A set request drives the pin high, a reset request drives it low, and no
/// other pin of the port changes level.
pub proof fn lemma_request_drives_only_its_pin(odr: u32, pin: u32, other: u32)
    requires
        pin < PORT_PINS,
        other < 32,
        other != pin,
    ensures
        pin_is_high(odr_after(odr, pin, PinAction::SetHigh), pin),
        !pin_is_high(odr_after(odr, pin, PinAction::ResetLow), pin),
        pin_is_high(odr_after(odr, pin, PinAction::SetHigh), other) == pin_is_high(odr, other),
        pin_is_high(odr_after(odr, pin, PinAction::ResetLow), other) == pin_is_high(odr, other),
{
    assert(((odr | (1u32 << pin)) >> pin) & 1u32 == 1u32) by (bit_vector)
        requires
            pin < 16u32,
    ;
    assert(((odr & !(1u32 << pin)) >> pin) & 1u32 != 1u32) by (bit_vector)
        requires
            pin < 16u32,
    ;
    assert(((odr | (1u32 << pin)) >> other) & 1u32 == (odr >> other) & 1u32) by (bit_vector)
        requires
            pin < 16u32,
            other < 32u32,
            other != pin,
    ;
    assert(((odr & !(1u32 << pin)) >> other) & 1u32 == (odr >> other) & 1u32) by (bit_vector)
        requires
            pin < 16u32,
            other < 32u32,
            other != pin,
    ;
}

/// A toggle inverts the level of its pin.
pub proof fn lemma_toggle_inverts(odr: u32, pin: u32)
    requires
        pin < PORT_PINS,
    ensures
        pin_is_high(odr_after(odr, pin, toggle_request(odr, pin)), pin) == !pin_is_high(odr, pin),
{
    lemma_request_drives_only_its_pin(odr, pin, if pin == 0 { 1 } else { 0 });
}

/// Two toggles of a pin give back the output data register that was there
/// before them.
pub proof fn lemma_toggle_twice_restores(odr: u32, pin: u32)
    requires
        pin < PORT_PINS,
    ensures
        ({
            let once = odr_after(odr, pin, toggle_request(odr, pin));
            odr_after(once, pin, toggle_request(once, pin)) == odr
        }),
{
    let once = odr_after(odr, pin, toggle_request(odr, pin));
    if pin_is_high(odr, pin) {
        assert((odr >> pin) & 1u32 == 1u32 ==> (odr & !(1u32 << pin)) | (1u32 << pin) == odr)
            by (bit_vector)
            requires
                pin < 16u32,
        ;
        lemma_toggle_inverts(odr, pin);
    } else {
        assert((odr >> pin) & 1u32 != 1u32 ==> (odr | (1u32 << pin)) & !(1u32 << pin) == odr)
            by (bit_vector)
            requires
                pin < 16u32,
        ;
        lemma_toggle_inverts(odr, pin);
    }
}

} // verus!
