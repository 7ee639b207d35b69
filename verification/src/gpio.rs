//! GPIO bring-up: the ordered steps that wire the chip-select pin as a
//! push-pull output and the three SPI lines as alternate-function pins, and
//! leave the chip-select line high (idle) before any bus activity.

use vstd::prelude::*;

verus! {

/// Pin number of the sensor's chip-select line on the port.
pub const CHIP_SELECT_PIN: u8 = 4;

/// Pin number of the SPI clock line.
pub const SPI_SCK_PIN: u8 = 5;

/// Pin number of the SPI master-in, slave-out line.
pub const SPI_MISO_PIN: u8 = 6;

/// Pin number of the SPI master-out, slave-in line.
pub const SPI_MOSI_PIN: u8 = 7;

/// Alternate-function number binding a pin to the SPI peripheral.
pub const SPI_ALTERNATE_FUNCTION: u8 = 5;

/// One GPIO configuration step, to be applied to the port's registers by the
/// surrounding firmware.
#[derive(Clone, Copy, PartialEq, Eq, Structural, Debug)]
pub enum GpioStep {
    /// Enable the port's clock gate.
    EnablePortClock,
    /// Set the given pin to push-pull output mode.
    SetPinOutput(u8),
    /// Set the given pin to alternate-function mode.
    SetPinAlternate(u8),
    /// Bind the given pin to the given alternate-function number.
    BindAlternateFunction(u8, u8),
    /// Drive the given pin high.
    DrivePinHigh(u8),
}

/// The GPIO bring-up sequence: clock gate first, then the chip-select pin as
/// an output, then each SPI pin switched to alternate-function mode and bound
/// to the SPI peripheral's function number, and finally the chip-select line
/// driven high so the bus starts from the idle (deselected) state.
pub open spec fn gpio_plan_seq() -> Seq<GpioStep> {
    seq![
        GpioStep::EnablePortClock,
        GpioStep::SetPinOutput(CHIP_SELECT_PIN),
        GpioStep::SetPinAlternate(SPI_SCK_PIN),
        GpioStep::BindAlternateFunction(SPI_SCK_PIN, SPI_ALTERNATE_FUNCTION),
        GpioStep::SetPinAlternate(SPI_MISO_PIN),
        GpioStep::BindAlternateFunction(SPI_MISO_PIN, SPI_ALTERNATE_FUNCTION),
        GpioStep::SetPinAlternate(SPI_MOSI_PIN),
        GpioStep::BindAlternateFunction(SPI_MOSI_PIN, SPI_ALTERNATE_FUNCTION),
        GpioStep::DrivePinHigh(CHIP_SELECT_PIN),
    ]
}

/// Produces the GPIO bring-up sequence.
pub fn gpio_plan() -> (plan: Vec<GpioStep>)
    ensures
        plan@ == gpio_plan_seq(),
{
    let mut plan: Vec<GpioStep> = Vec::new();
    plan.push(GpioStep::EnablePortClock);
    plan.push(GpioStep::SetPinOutput(CHIP_SELECT_PIN));
    plan.push(GpioStep::SetPinAlternate(SPI_SCK_PIN));
    plan.push(GpioStep::BindAlternateFunction(SPI_SCK_PIN, SPI_ALTERNATE_FUNCTION));
    plan.push(GpioStep::SetPinAlternate(SPI_MISO_PIN));
    plan.push(GpioStep::BindAlternateFunction(SPI_MISO_PIN, SPI_ALTERNATE_FUNCTION));
    plan.push(GpioStep::SetPinAlternate(SPI_MOSI_PIN));
    plan.push(GpioStep::BindAlternateFunction(SPI_MOSI_PIN, SPI_ALTERNATE_FUNCTION));
    plan.push(GpioStep::DrivePinHigh(CHIP_SELECT_PIN));
    proof {
        assert(plan@ =~= gpio_plan_seq());
    }
    plan
}

} // verus!
