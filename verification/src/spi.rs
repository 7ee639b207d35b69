//! SPI master bring-up: the ordered steps that configure the SPI peripheral
//! for this sensor — software slave management, a baud rate within the
//! sensor's rating, clock mode 3, master mode — and enable it last.

use vstd::prelude::*;
use crate::clock::SYSTEM_CLOCK_HZ;

verus! {

/// Divider applied to the peripheral clock to derive the SPI clock.
pub const SPI_BAUD_DIVISOR: u32 = 16;

/// The highest SPI clock the sensor is rated for, in Hz.
pub const SENSOR_MAX_SPI_HZ: u32 = 10_000_000;

/// One SPI configuration step, to be applied to the peripheral's registers by
/// the surrounding firmware.
#[derive(Clone, Copy, PartialEq, Eq, Structural, Debug)]
pub enum SpiStep {
    /// Enable the SPI peripheral's clock gate.
    EnablePeripheralClock,
    /// Enable software slave management.
    EnableSoftwareSlaveManagement,
    /// Force the internal slave-select level high, so the peripheral stays
    /// master regardless of any hardware slave-select pin.
    ForceInternalSlaveSelectHigh,
    /// Divide the peripheral clock by the given factor to form the SPI clock.
    SetBaudRateDivisor(u32),
    /// Capture data on the second clock edge (CPHA = 1).
    SetClockPhaseSecondEdge,
    /// Let the clock idle high (CPOL = 1).
    SetClockPolarityIdleHigh,
    /// Configure master mode.
    SetMasterMode,
    /// Enable the peripheral.
    EnablePeripheral,
}

/// The SPI bring-up sequence: clock gate first, then software slave
/// management with the internal slave-select forced high, the baud-rate
/// divider, clock mode 3 (idle high, second edge), master mode, and the
/// peripheral enabled as the very last step.
pub open spec fn spi_plan_seq() -> Seq<SpiStep> {
    seq![
        SpiStep::EnablePeripheralClock,
        SpiStep::EnableSoftwareSlaveManagement,
        SpiStep::ForceInternalSlaveSelectHigh,
        SpiStep::SetBaudRateDivisor(SPI_BAUD_DIVISOR),
        SpiStep::SetClockPhaseSecondEdge,
        SpiStep::SetClockPolarityIdleHigh,
        SpiStep::SetMasterMode,
        SpiStep::EnablePeripheral,
    ]
}

/// Produces the SPI bring-up sequence.
pub fn spi_plan() -> (plan: Vec<SpiStep>)
    ensures
        plan@ == spi_plan_seq(),
        plan@.len() > 0 && plan@.last() == SpiStep::EnablePeripheral,
{
    let mut plan: Vec<SpiStep> = Vec::new();
    plan.push(SpiStep::EnablePeripheralClock);
    plan.push(SpiStep::EnableSoftwareSlaveManagement);
    plan.push(SpiStep::ForceInternalSlaveSelectHigh);
    plan.push(SpiStep::SetBaudRateDivisor(SPI_BAUD_DIVISOR));
    plan.push(SpiStep::SetClockPhaseSecondEdge);
    plan.push(SpiStep::SetClockPolarityIdleHigh);
    plan.push(SpiStep::SetMasterMode);
    plan.push(SpiStep::EnablePeripheral);
    proof {
        assert(plan@ =~= spi_plan_seq());
    }
    plan
}

/// The SPI clock that the configured divider produces from the system clock:
/// within the sensor's rating.
pub fn spi_clock_hz() -> (f: u32)
    ensures
        f == SYSTEM_CLOCK_HZ as int / SPI_BAUD_DIVISOR as int,
        f <= SENSOR_MAX_SPI_HZ,
{
    SYSTEM_CLOCK_HZ / SPI_BAUD_DIVISOR
}

} // verus!
