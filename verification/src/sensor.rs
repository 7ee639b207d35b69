//! The pressure sensor's command protocol: chip-select framing, register
//! addressing, device identification, wake-up, and the three-byte pressure
//! read, all expressed over the [`SpiBus`] token.

use vstd::prelude::*;
use crate::bus::SpiBus;

verus! {

/// Address of the device-identification register.
pub const WHO_AM_I_ADDR: u8 = 0x0f;

/// Address of control register 1.
pub const CTRL_REG1_ADDR: u8 = 0x20;

/// Control byte written to control register 1 to power the sensor up.
pub const WAKE_UP_COMMAND: u8 = 0x90;

/// Base address of the three pressure output registers (low byte first).
pub const PRESSURE_OUT_ADDR: u8 = 0x28;

/// The identification byte this sensor family answers to a `WHO_AM_I` read.
pub const DEVICE_ID: u8 = 0xbd;

/// Don't-care byte sent to clock a response out of the slave.
pub const DUMMY_BYTE: u8 = 0x00;

/// Frames a register address as a single-register read command.
pub fn read_frame(addr: u8) -> (r: u8)
    ensures
        r == (addr | 0x80),
{
    addr | 0x80
}

/// Frames a register address as an auto-incrementing multi-byte read command.
pub fn read_auto_increment_frame(addr: u8) -> (r: u8)
    ensures
        r == (addr | 0xc0),
{
    addr | 0xc0
}

/// Frames a register address as a write command: the address unmodified,
/// to be followed by the data byte.
pub fn write_frame(addr: u8) -> (r: u8)
    ensures
        r == addr,
{
    addr
}

/// Whether an identification byte names this sensor family.
pub fn is_expected_device(id: u8) -> (r: bool)
    ensures
        r == (id == DEVICE_ID),
{
    id == DEVICE_ID
}

/// The raw 24-bit sample assembled from the three pressure bytes,
/// low byte first.
pub open spec fn raw_sample(low: u8, mid: u8, high: u8) -> int {
    high * 0x1_0000 + mid * 0x100 + low
}

/// The pressure value derived from the three pressure bytes: the raw 24-bit
/// sample scaled down by the sensor's sensitivity of 4096 counts per
/// hectopascal.
pub open spec fn pressure_value(low: u8, mid: u8, high: u8) -> int {
    raw_sample(low, mid, high) / 0x1000
}

/// Assembles the three pressure bytes returned by the sensor (low, mid,
/// high) into a pressure value in hectopascal-scaled units.
pub fn pressure_from_bytes(low: u8, mid: u8, high: u8) -> (p: i32)
    ensures
        p == pressure_value(low, mid, high),
        0 <= p <= 0xfff,
{
    let raw: u32 = (high as u32) * 0x1_0000 + (mid as u32) * 0x100 + (low as u32);
    let p: u32 = raw / 0x1000;
    p as i32
}

/// Drives the chip-select line low, selecting the sensor for a transaction.
pub fn select(bus: &mut SpiBus)
    ensures
        final(bus).cs_high == false,
        final(bus).cs_trace@ == old(bus).cs_trace@.push(false),
        final(bus).written@ == old(bus).written@,
        final(bus).responses@ == old(bus).responses@,
        final(bus).consumed == old(bus).consumed,
{
    bus.drive_cs_low();
}

/// Drives the chip-select line high, deselecting the sensor.
pub fn deselect(bus: &mut SpiBus)
    ensures
        final(bus).cs_high == true,
        final(bus).cs_trace@ == old(bus).cs_trace@.push(true),
        final(bus).written@ == old(bus).written@,
        final(bus).responses@ == old(bus).responses@,
        final(bus).consumed == old(bus).consumed,
{
    bus.drive_cs_high();
}

/// The bytes `initialize` writes on the bus: the `WHO_AM_I` read command and
/// a dummy byte in the first transaction, then the control-register write
/// command and the wake-up byte in the second.
pub open spec fn initialize_writes() -> Seq<u8> {
    seq![WHO_AM_I_ADDR | 0x80, DUMMY_BYTE, CTRL_REG1_ADDR, WAKE_UP_COMMAND]
}

/// Identifies and wakes the sensor: one chip-select-framed transaction that
/// reads the identification register, then one that writes the wake-up byte
/// to control register 1. Returns `true` iff the identification response
/// equals the expected device id.
///
/// Consumes exactly four scripted responses; the identification byte is the
/// slave's answer to the dummy byte, the second exchange of the first
/// transaction. Each transaction is bracketed by one low and one high
/// chip-select drive, so the chip-select trace grows by exactly two
/// low-then-high pulses.
pub fn initialize(bus: &mut SpiBus) -> (ok: bool)
    requires
        old(bus).consumed + 4 <= old(bus).responses@.len(),
    ensures
        ok == (old(bus).responses@[old(bus).consumed + 1] == DEVICE_ID),
        final(bus).written@ == old(bus).written@ + initialize_writes(),
        final(bus).consumed == old(bus).consumed + 4,
        final(bus).cs_trace@ == old(bus).cs_trace@ + seq![false, true, false, true],
        final(bus).cs_high == true,
        final(bus).responses@ == old(bus).responses@,
{
    select(bus);
    bus.exchange_byte(read_frame(WHO_AM_I_ADDR));
    let device_id = bus.exchange_byte(DUMMY_BYTE);
    deselect(bus);

    select(bus);
    bus.exchange_byte(write_frame(CTRL_REG1_ADDR));
    bus.exchange_byte(WAKE_UP_COMMAND);
    deselect(bus);

    proof {
        assert(bus.written@ =~= old(bus).written@ + initialize_writes());
        assert(bus.cs_trace@ =~= old(bus).cs_trace@ + seq![false, true, false, true]);
    }
    is_expected_device(device_id)
}

/// The bytes `read_pressure` writes on the bus: the auto-incrementing read
/// command for the pressure registers, then three dummy bytes.
pub open spec fn read_pressure_writes() -> Seq<u8> {
    seq![PRESSURE_OUT_ADDR | 0xc0, DUMMY_BYTE, DUMMY_BYTE, DUMMY_BYTE]
}

/// Reads one pressure sample: a single chip-select-framed transaction that
/// sends the auto-incrementing read command for the pressure registers and
/// clocks out the low, mid and high bytes in that order, then assembles them
/// into a hectopascal-scaled pressure value.
///
/// Consumes exactly four scripted responses; the low, mid and high bytes are
/// the slave's answers to the three dummy exchanges.
pub fn read_pressure(bus: &mut SpiBus) -> (p: i32)
    requires
        old(bus).consumed + 4 <= old(bus).responses@.len(),
    ensures
        p == pressure_value(
            old(bus).responses@[old(bus).consumed + 1],
            old(bus).responses@[old(bus).consumed + 2],
            old(bus).responses@[old(bus).consumed + 3],
        ),
        final(bus).written@ == old(bus).written@ + read_pressure_writes(),
        final(bus).consumed == old(bus).consumed + 4,
        final(bus).cs_trace@ == old(bus).cs_trace@ + seq![false, true],
        final(bus).cs_high == true,
        final(bus).responses@ == old(bus).responses@,
{
    select(bus);
    bus.exchange_byte(read_auto_increment_frame(PRESSURE_OUT_ADDR));
    let low = bus.exchange_byte(DUMMY_BYTE);
    let mid = bus.exchange_byte(DUMMY_BYTE);
    let high = bus.exchange_byte(DUMMY_BYTE);
    deselect(bus);

    proof {
        assert(bus.written@ =~= old(bus).written@ + read_pressure_writes());
        assert(bus.cs_trace@ =~= old(bus).cs_trace@ + seq![false, true]);
    }
    pressure_from_bytes(low, mid, high)
}

} // verus!
