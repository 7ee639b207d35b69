//! Clock tree bring-up: PLL frequency derivation and the ordered
//! configuration steps that take the system clock from the internal
//! oscillator to the PLL output.

use vstd::prelude::*;

verus! {

/// Frequency of the internal high-speed oscillator feeding the PLL, in Hz.
pub const OSCILLATOR_HZ: u32 = 16_000_000;

/// PLL input division factor M (the oscillator is divided by M).
pub const PLL_M: u32 = 16;

/// PLL multiplication factor N.
pub const PLL_N: u32 = 336;

/// PLL output division factor P.
pub const PLL_P: u32 = 4;

/// System clock frequency produced by the configured PLL, in Hz.
pub const SYSTEM_CLOCK_HZ: u32 = 84_000_000;

/// Number of memory wait states required at the target frequency.
pub const FLASH_WAIT_STATES: u32 = 2;

/// Division factor applied to the system clock for the slow peripheral bus.
pub const APB1_PRESCALER: u32 = 2;

/// The PLL output frequency: oscillator divided by M, multiplied by N,
/// divided by P.
pub open spec fn pll_frequency(osc: int, m: int, n: int, p: int) -> int {
    osc / m * n / p
}

/// Computes the PLL output frequency for the given oscillator frequency and
/// division/multiplication factors.
pub fn pll_output_hz(osc: u32, m: u32, n: u32, p: u32) -> (f: u32)
    requires
        m > 0,
        p > 0,
        (osc as int / m as int) * (n as int) <= u32::MAX,
    ensures
        f == pll_frequency(osc as int, m as int, n as int, p as int),
{
    osc / m * n / p
}

/// The system clock frequency that the configured factors produce: exactly
/// 84 MHz from the 16 MHz oscillator with M = 16, N = 336, P = 4.
pub fn system_clock_hz() -> (f: u32)
    ensures
        f == pll_frequency(OSCILLATOR_HZ as int, PLL_M as int, PLL_N as int, PLL_P as int),
        f == SYSTEM_CLOCK_HZ,
{
    pll_output_hz(OSCILLATOR_HZ, PLL_M, PLL_N, PLL_P)
}

/// One clock configuration step, to be applied to the reset/clock and flash
/// registers by the surrounding firmware. The two wait steps are unbounded
/// busy-waits on hardware status flags.
#[derive(Clone, Copy, PartialEq, Eq, Structural, Debug)]
pub enum ClockStep {
    /// Set the PLL output division factor P.
    SetPllDivisorP(u32),
    /// Set the PLL multiplication factor N.
    SetPllMultiplierN(u32),
    /// Set the division factor for the slow peripheral bus clock.
    SetApb1Prescaler(u32),
    /// Enable the PLL.
    EnablePll,
    /// Busy-wait until the PLL reports ready (locked).
    WaitPllReady,
    /// Set the number of memory wait states.
    SetFlashLatency(u32),
    /// Switch the system clock source to the PLL output.
    SwitchSystemClockToPll,
    /// Busy-wait until the status flag confirms the PLL is the system clock.
    WaitSystemClockOnPll,
}

/// The clock bring-up sequence: PLL factors first, then the bus prescaler,
/// the PLL enabled and waited on, the memory wait states raised before the
/// switch, and the switch to the PLL confirmed by its status flag.
pub open spec fn clock_plan_seq() -> Seq<ClockStep> {
    seq![
        ClockStep::SetPllDivisorP(PLL_P),
        ClockStep::SetPllMultiplierN(PLL_N),
        ClockStep::SetApb1Prescaler(APB1_PRESCALER),
        ClockStep::EnablePll,
        ClockStep::WaitPllReady,
        ClockStep::SetFlashLatency(FLASH_WAIT_STATES),
        ClockStep::SwitchSystemClockToPll,
        ClockStep::WaitSystemClockOnPll,
    ]
}

/// Produces the clock bring-up sequence.
pub fn clock_plan() -> (plan: Vec<ClockStep>)
    ensures
        plan@ == clock_plan_seq(),
{
    let mut plan: Vec<ClockStep> = Vec::new();
    plan.push(ClockStep::SetPllDivisorP(PLL_P));
    plan.push(ClockStep::SetPllMultiplierN(PLL_N));
    plan.push(ClockStep::SetApb1Prescaler(APB1_PRESCALER));
    plan.push(ClockStep::EnablePll);
    plan.push(ClockStep::WaitPllReady);
    plan.push(ClockStep::SetFlashLatency(FLASH_WAIT_STATES));
    plan.push(ClockStep::SwitchSystemClockToPll);
    plan.push(ClockStep::WaitSystemClockOnPll);
    proof {
        assert(plan@ =~= clock_plan_seq());
    }
    plan
}

} // verus!
