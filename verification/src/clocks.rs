//! Clock tree and timer settings.
//!
//! The system runs at 140 MHz from the PLL, fed by a 48 MHz external clock.
//! Prescalers and reload registers hold one less than the division they
//! stand for; a timer's update rate is its input clock divided by both
//! divisions.
use vstd::prelude::*;

verus! {

/// Frequency of the external clock that feeds the PLL, in hertz.
pub const HSE_HZ: u32 = 48_000_000;

/// PLL input division (M).
pub const PLL_M: u32 = 12;

/// PLL multiplication (N).
pub const PLL_N: u32 = 70;

/// PLL system clock output division (R).
pub const PLL_R: u32 = 2;

/// System and peripheral clock frequency, in hertz.
pub const SYSCLK_HZ: u32 = 140_000_000;

/// Prescaler division of TIM3.
pub const TIM3_PRESCALE: u32 = 14_000;

/// Reload period of TIM3, in counter ticks.
pub const TIM3_PERIOD: u32 = 10_000;

/// Prescaler division of TIM6.
pub const TIM6_PRESCALE: u32 = 140;

/// Reload period of TIM6, in counter ticks.
pub const TIM6_PERIOD: u32 = 1_000;

/// Baud rate of both serial ports.
pub const UART_BAUD: u32 = 115_200;

/// Ticks of the TIM3 counter to wait for the ADC voltage regulator to start
/// up.  The counter runs at 140 MHz / 14 000 = 10 kHz, so this is 1 ms, well
/// above the regulator's 20 us start-up time.
pub const REGULATOR_STARTUP_TICKS: u16 = 10;

/// Flash wait states needed at the system clock frequency.
pub const FLASH_LATENCY: u8 = 4;

/// The system clock that the PLL makes of an input clock of `input_hz`.
pub open spec fn pll_output_hz(input_hz: int) -> int {
    input_hz / PLL_M as int * PLL_N as int / PLL_R as int
}

/// The update rate, in hertz, of a timer clocked at `clock_hz` whose
/// prescaler and reload registers hold `psc` and `arr`.
pub open spec fn timer_update_hz(clock_hz: int, psc: int, arr: int) -> int {
    clock_hz / ((psc + 1) * (arr + 1))
}

/// The rate, in hertz, at which the counter of a timer clocked at
/// `clock_hz` with prescaler register `psc` counts.
pub open spec fn timer_tick_hz(clock_hz: int, psc: int) -> int {
    clock_hz / (psc + 1)
}

/// The value of a register that encodes a division by `divisor` as
/// `divisor - 1` (timer prescaler and reload, sequence length).
pub fn minus_one_encoding(divisor: u32) -> (value: u32)
    requires
        divisor >= 1,
    ensures
        value == divisor - 1,
{
    divisor - 1
}

/// The baud rate register value of a USART clocked at `clock_hz` running at
/// `baud` with 16-fold oversampling: the clock divided by the baud rate.
pub fn usart_brr(clock_hz: u32, baud: u32) -> (brr: u32)
    requires
        baud > 0,
    ensures
        brr == clock_hz / baud,
{
    clock_hz / baud
}

/// Whether the ADC regulator start-up wait goes on when the free-running
/// 16-bit counter reads `now` and read `start` when the wait began: fewer
/// than `REGULATOR_STARTUP_TICKS` ticks, counted modulo 2^16, have passed.
pub open spec fn regulator_wait_pending(now: u16, start: u16) -> bool {
    (now as int - start as int) % 0x10000 < REGULATOR_STARTUP_TICKS as int
}

/// The counter reading `ticks` ticks after it read `start`.
pub open spec fn counter_after(start: u16, ticks: int) -> u16 {
    ((start as int + ticks) % 0x10000) as u16
}

/// Whether the ADC regulator start-up wait goes on.
pub fn regulator_wait_continues(now: u16, start: u16) -> (continues: bool)
    ensures
        continues == regulator_wait_pending(now, start),
{
    let elapsed = now.wrapping_sub(start);
    elapsed < REGULATOR_STARTUP_TICKS
}

/// The clock settings give what the firmware is built for: the PLL makes
/// 140 MHz of the 48 MHz external clock, TIM3 updates once a second and
/// counts at 10 kHz, and TIM6 updates a thousand times a second.
pub proof fn lemma_clock_settings()
    ensures
        pll_output_hz(HSE_HZ as int) == SYSCLK_HZ,
        timer_update_hz(SYSCLK_HZ as int, TIM3_PRESCALE - 1, TIM3_PERIOD - 1) == 1,
        timer_tick_hz(SYSCLK_HZ as int, TIM3_PRESCALE - 1) == 10_000,
        timer_update_hz(SYSCLK_HZ as int, TIM6_PRESCALE - 1, TIM6_PERIOD - 1) == 1_000,
{
    assert(48_000_000int / 12int == 4_000_000int);
    assert(4_000_000int * 70int == 280_000_000int);
    assert(280_000_000int / 2int == 140_000_000int);
    assert(14_000int * 10_000int == 140_000_000int) by (nonlinear_arith);
    assert(140_000_000int / 140_000_000int == 1int);
    assert(140_000_000int / 14_000int == 10_000int);
    assert(140int * 1_000int == 140_000int) by (nonlinear_arith);
    assert(140_000_000int / 140_000int == 1_000int);
}

/// The regulator wait goes on exactly while fewer than
/// `REGULATOR_STARTUP_TICKS` ticks have passed since it began, whatever the
/// counter read at the start (across its wrap-around too): in particular it
/// does not end on the tick it starts at.
pub proof fn lemma_regulator_wait(start: u16, ticks: int)
    requires
        0 <= ticks < 0x10000,
    ensures
        regulator_wait_pending(counter_after(start, ticks), start) == (ticks
            < REGULATOR_STARTUP_TICKS as int),
        regulator_wait_pending(start, start),
{
    let now = counter_after(start, ticks);
    vstd::arithmetic::div_mod::lemma_add_mod_noop(start as int, ticks, 0x10000);
    vstd::arithmetic::div_mod::lemma_sub_mod_noop(now as int, start as int, 0x10000);
    vstd::arithmetic::div_mod::lemma_small_mod(ticks as nat, 0x10000);
    vstd::arithmetic::div_mod::lemma_small_mod(start as nat, 0x10000);
    vstd::arithmetic::div_mod::lemma_mod_twice(start as int + ticks, 0x10000);
    vstd::arithmetic::div_mod::lemma_sub_mod_noop(start as int + ticks, start as int, 0x10000);
}

} // verus!
