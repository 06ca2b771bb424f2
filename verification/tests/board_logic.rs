use core::time::Duration;

use imu_fsr::clocks::{
    minus_one_encoding, regulator_wait_continues, usart_brr, HSE_HZ, PLL_M, PLL_N, PLL_R,
    SYSCLK_HZ, TIM3_PERIOD, TIM3_PRESCALE, TIM6_PERIOD, TIM6_PRESCALE, UART_BAUD,
};
use imu_fsr::dma::sensor_update_due;
use imu_fsr::control_table::{led_field_action, StartupSettings};
use imu_fsr::devices::{Fsr0, Led0, Led1, Led2, LocalClock, Uart3, SPI2};
use imu_fsr::gpio::{pin_is_low, toggle_action, PinAction};
use imu_fsr::imu::{
    accel_sample, present_position, read_command, write_command, ACCEL_Z_HIGH_REGISTER,
    ACCEL_Z_LOW_REGISTER, POWER_REGISTER, SENSORS_ON, WHO_AM_I_REGISTER,
};

fn apply(odr: u32, pin: u32, action: PinAction) -> u32 {
    match action {
        PinAction::SetHigh => odr | (1 << pin),
        PinAction::ResetLow => odr & !(1 << pin),
    }
}

#[test]
fn toggle_switches_a_low_pin_on_and_a_high_pin_off() {
    assert_eq!(toggle_action(0, 13), PinAction::SetHigh);
    assert_eq!(toggle_action(1 << 13, 13), PinAction::ResetLow);
    assert_eq!(toggle_action(!(1u32 << 13), 13), PinAction::SetHigh);
    assert!(pin_is_low(0xffff_dfff, 13));
    assert!(!pin_is_low(0x0000_2000, 13));
}

#[test]
fn toggle_inverts_only_its_pin_and_twice_restores() {
    for &odr in &[0u32, 0x2000, 0xffff_ffff, 0x1234_5678, 0xa5a5] {
        for pin in 0..16 {
            let once = apply(odr, pin, toggle_action(odr, pin));
            assert_eq!(once ^ odr, 1 << pin);
            let twice = apply(once, pin, toggle_action(once, pin));
            assert_eq!(twice, odr);
        }
    }
}

#[test]
fn leds_use_pins_13_14_15_of_port_c() {
    assert_eq!(Led0::new().pin(), 13);
    assert_eq!(Led1::new().pin(), 14);
    assert_eq!(Led2::new().pin(), 15);
    assert_eq!(Led0::new().toggle_action(0), PinAction::SetHigh);
    assert_eq!(Led1::new().toggle_action(1 << 14), PinAction::ResetLow);
    assert_eq!(Led1::new().toggle_action(1 << 13), PinAction::SetHigh);
    assert_eq!(Led2::new().toggle_action(1 << 15), PinAction::ResetLow);
}

#[test]
fn device_handles_are_made() {
    let _ = Uart3::new();
    let _ = SPI2::new();
    let _ = Fsr0::new();
    let clock = LocalClock::new();
    clock.init();
}

#[test]
fn local_clock_reports_zero() {
    let clock = LocalClock::new();
    assert_eq!(clock.current_time(), Duration::from_micros(0));
    assert_eq!(clock.current_time().as_micros(), 0);
}

#[test]
fn imu_commands() {
    assert_eq!(write_command(POWER_REGISTER, SENSORS_ON), 0x1F1F);
    assert_eq!(write_command(0x12, 0x34), 0x3412);
    assert_eq!(read_command(WHO_AM_I_REGISTER), 0x75 | 0x80);
    assert_eq!(read_command(ACCEL_Z_HIGH_REGISTER), 0x8F);
    assert_eq!(read_command(ACCEL_Z_LOW_REGISTER), 0x90);
    assert_eq!(read_command(0), 0x80);
}

#[test]
fn accel_sample_combines_high_and_low_byte() {
    assert_eq!(accel_sample(0x12, 0x34), 0x1234);
    assert_eq!(accel_sample(0xFF, 0xFF), -1);
    assert_eq!(accel_sample(0x80, 0x00), i16::MIN);
    assert_eq!(accel_sample(0x7F, 0xFF), i16::MAX);
    // The high read keeps only its low byte; the low read is or-ed in whole.
    assert_eq!(accel_sample(0xAB12, 0x34), 0x1234);
    assert_eq!(accel_sample(0x00, 0x1234), 0x1234);
}

#[test]
fn accel_sample_round_trip() {
    for &sample in &[0i16, 1, -1, 777, -777, i16::MIN, i16::MAX, 0x1234] {
        let word = sample as u16;
        assert_eq!(accel_sample(word >> 8, word & 0xff), sample);
    }
}

#[test]
fn present_position_widens_sample() {
    assert_eq!(present_position(-2), -2);
    assert_eq!(present_position(i16::MIN), -32768);
    assert_eq!(present_position(i16::MAX), 32767);
}

#[test]
fn startup_settings_of_the_board() {
    let s = StartupSettings::board_defaults();
    assert_eq!(s.id, 1);
    assert_eq!(s.model_number, 0x04BA);
    assert_eq!(s.firmware_version, 0x30);
    assert_eq!(s.baud_rate, 0x06);
    assert_eq!(s.return_delay_time, 0);
    assert_eq!(s.drive_mode, 0);
    assert_eq!(s.operating_mode, 0);
    assert_eq!(s.moving_threshold, 0x0A);
    assert_eq!(s.temperature_limit, 0x46);
    assert_eq!(s.max_voltage_limit, 0x8C);
    assert_eq!(s.min_voltage_limit, 0x37);
    assert_eq!(s.present_position, -777);
}

#[test]
fn third_led_follows_led_field() {
    assert_eq!(led_field_action(1), PinAction::SetHigh);
    assert_eq!(led_field_action(0), PinAction::ResetLow);
    assert_eq!(led_field_action(2), PinAction::ResetLow);
    assert_eq!(led_field_action(255), PinAction::ResetLow);
}

#[test]
fn clock_settings() {
    assert_eq!(usart_brr(SYSCLK_HZ, UART_BAUD), 0x4BF);
    assert_eq!(minus_one_encoding(14_000), 13_999);
    assert_eq!(minus_one_encoding(10_000), 9_999);
    assert_eq!(minus_one_encoding(1), 0);
    // TIM3 updates once a second, TIM6 a thousand times a second.
    let tim3 = SYSCLK_HZ / ((minus_one_encoding(14_000) + 1) * (minus_one_encoding(10_000) + 1));
    assert_eq!(tim3, 1);
    let tim6 = SYSCLK_HZ / ((minus_one_encoding(140) + 1) * (minus_one_encoding(1_000) + 1));
    assert_eq!(tim6, 1_000);
}

#[test]
fn regulator_wait_condition() {
    assert!(regulator_wait_continues(100, 100));
    assert!(regulator_wait_continues(109, 100));
    assert!(!regulator_wait_continues(110, 100));
    assert!(!regulator_wait_continues(4, 0xfffa));
    assert!(regulator_wait_continues(3, 0xfffa));
}

#[test]
fn pll_and_timer_constants() {
    assert_eq!(HSE_HZ / PLL_M * PLL_N / PLL_R, SYSCLK_HZ);
    assert_eq!(SYSCLK_HZ / (TIM3_PRESCALE * TIM3_PERIOD), 1);
    assert_eq!(SYSCLK_HZ / TIM3_PRESCALE, 10_000);
    assert_eq!(SYSCLK_HZ / (TIM6_PRESCALE * TIM6_PERIOD), 1_000);
}

#[test]
fn dma_interrupt_updates_only_on_transfer_complete() {
    assert!(sensor_update_due(true, true));
    assert!(!sensor_update_due(true, false));
    assert!(!sensor_update_due(false, true));
    assert!(!sensor_update_due(false, false));
}
