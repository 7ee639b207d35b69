use lps25hb_bringup::clock::{clock_plan, pll_output_hz, system_clock_hz, ClockStep};
use lps25hb_bringup::gpio::{gpio_plan, GpioStep};
use lps25hb_bringup::spi::{spi_clock_hz, spi_plan, SpiStep};

#[test]
fn clock_formula_yields_84_mhz() {
    assert_eq!(pll_output_hz(16_000_000, 16, 336, 4), 84_000_000);
    assert_eq!(system_clock_hz(), 84_000_000);
}

#[test]
fn clock_formula_other_factors() {
    // 8 MHz crystal, M = 8, N = 336, P = 2: a common 168 MHz configuration.
    assert_eq!(pll_output_hz(8_000_000, 8, 336, 2), 168_000_000);
    assert_eq!(pll_output_hz(16_000_000, 16, 336, 2), 168_000_000);
}

#[test]
fn clock_plan_sequence() {
    let plan = clock_plan();
    assert_eq!(
        plan,
        vec![
            ClockStep::SetPllDivisorP(4),
            ClockStep::SetPllMultiplierN(336),
            ClockStep::SetApb1Prescaler(2),
            ClockStep::EnablePll,
            ClockStep::WaitPllReady,
            ClockStep::SetFlashLatency(2),
            ClockStep::SwitchSystemClockToPll,
            ClockStep::WaitSystemClockOnPll,
        ]
    );
}

#[test]
fn clock_plan_raises_latency_before_switch() {
    let plan = clock_plan();
    let latency_at = plan
        .iter()
        .position(|s| matches!(s, ClockStep::SetFlashLatency(_)))
        .unwrap();
    let switch_at = plan
        .iter()
        .position(|s| matches!(s, ClockStep::SwitchSystemClockToPll))
        .unwrap();
    assert!(latency_at < switch_at);
}

#[test]
fn gpio_plan_sequence() {
    let plan = gpio_plan();
    assert_eq!(
        plan,
        vec![
            GpioStep::EnablePortClock,
            GpioStep::SetPinOutput(4),
            GpioStep::SetPinAlternate(5),
            GpioStep::BindAlternateFunction(5, 5),
            GpioStep::SetPinAlternate(6),
            GpioStep::BindAlternateFunction(6, 5),
            GpioStep::SetPinAlternate(7),
            GpioStep::BindAlternateFunction(7, 5),
            GpioStep::DrivePinHigh(4),
        ]
    );
}

#[test]
fn gpio_plan_leaves_chip_select_idle_high() {
    let plan = gpio_plan();
    assert_eq!(plan.last(), Some(&GpioStep::DrivePinHigh(4)));
}

#[test]
fn spi_plan_sequence() {
    let plan = spi_plan();
    assert_eq!(
        plan,
        vec![
            SpiStep::EnablePeripheralClock,
            SpiStep::EnableSoftwareSlaveManagement,
            SpiStep::ForceInternalSlaveSelectHigh,
            SpiStep::SetBaudRateDivisor(16),
            SpiStep::SetClockPhaseSecondEdge,
            SpiStep::SetClockPolarityIdleHigh,
            SpiStep::SetMasterMode,
            SpiStep::EnablePeripheral,
        ]
    );
}

#[test]
fn spi_plan_enables_peripheral_last() {
    let plan = spi_plan();
    assert_eq!(plan.last(), Some(&SpiStep::EnablePeripheral));
}

#[test]
fn spi_clock_within_sensor_rating() {
    assert_eq!(spi_clock_hz(), 5_250_000);
    assert!(spi_clock_hz() <= 10_000_000);
}
