//! The DMA transfer of the ADC sequence.
//!
//! DMA1 channel 1 moves the four ADC conversions to memory in circular mode
//! and raises an interrupt when a transfer completes.  The interrupt
//! refreshes the sensor readings only when it can confirm that cause.
use vstd::prelude::*;

verus! {

/// Whether a DMA1 channel 1 interrupt refreshes the sensor readings: the
/// peripherals have been handed over, and the channel's transfer-complete
/// flag is set.  Otherwise the interrupt returns.
pub fn sensor_update_due(peripherals_ready: bool, transfer_complete: bool) -> (due: bool)
    ensures
        due == (peripherals_ready && transfer_complete),
{
    peripherals_ready && transfer_complete
}

} // verus!
