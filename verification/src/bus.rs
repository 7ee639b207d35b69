//! A model of the SPI bus and chip-select line as seen by the sensor driver.
//!
//! The peripheral register block of the target is a singleton that every
//! hardware access borrows mutably; here it is modelled as a unique token,
//! [`SpiBus`], that records what the driver does to the bus: the level written
//! to the chip-select line, every byte the master shifts out, and the bytes
//! the slave shifts back in reply. A slave is simulated by a script of
//! response bytes fixed when the token is created; a full-duplex exchange
//! writes exactly one byte and consumes exactly one scripted response.

use vstd::prelude::*;

verus! {

/// The bus token: chip-select line state, a trace of chip-select writes, the
/// bytes written by the master, and the scripted slave responses.
pub struct SpiBus {
    /// Current level of the active-low chip-select line (`true` = high, idle).
    pub cs_high: bool,
    /// Level written by each chip-select drive, in order.
    pub cs_trace: Vec<bool>,
    /// Every byte the master has written, in order.
    pub written: Vec<u8>,
    /// The bytes the simulated slave supplies, one per exchange.
    pub responses: Vec<u8>,
    /// How many scripted responses have been consumed so far.
    pub consumed: usize,
}

impl SpiBus {
    /// Creates a bus whose simulated slave will answer successive exchanges
    /// with `responses`, with the chip-select line high (deselected).
    pub fn new(responses: Vec<u8>) -> (bus: SpiBus)
        ensures
            bus.cs_high == true,
            bus.cs_trace@ == Seq::<bool>::empty(),
            bus.written@ == Seq::<u8>::empty(),
            bus.responses@ == responses@,
            bus.consumed == 0,
    {
        let bus = SpiBus {
            cs_high: true,
            cs_trace: Vec::new(),
            written: Vec::new(),
            responses,
            consumed: 0,
        };
        bus
    }

    /// How many scripted responses are still available.
    pub fn responses_left(&self) -> (n: usize)
        ensures
            n == (if self.consumed <= self.responses@.len() {
                self.responses@.len() - self.consumed
            } else {
                0
            }),
    {
        if self.consumed <= self.responses.len() {
            self.responses.len() - self.consumed
        } else {
            0
        }
    }

    /// Drives the chip-select line low (selected).
    pub fn drive_cs_low(&mut self)
        ensures
            final(self).cs_high == false,
            final(self).cs_trace@ == old(self).cs_trace@.push(false),
            final(self).written@ == old(self).written@,
            final(self).responses@ == old(self).responses@,
            final(self).consumed == old(self).consumed,
    {
        self.cs_high = false;
        self.cs_trace.push(false);
    }

    /// Drives the chip-select line high (deselected, idle).
    pub fn drive_cs_high(&mut self)
        ensures
            final(self).cs_high == true,
            final(self).cs_trace@ == old(self).cs_trace@.push(true),
            final(self).written@ == old(self).written@,
            final(self).responses@ == old(self).responses@,
            final(self).consumed == old(self).consumed,
    {
        self.cs_high = true;
        self.cs_trace.push(true);
    }

    /// Full-duplex single-byte exchange: writes exactly one byte, then reads
    /// exactly one byte, in that order, and returns the byte the slave
    /// supplied.
    pub fn exchange_byte(&mut self, data: u8) -> (r: u8)
        requires
            old(self).consumed < old(self).responses@.len(),
        ensures
            final(self).written@ == old(self).written@.push(data),
            final(self).consumed == old(self).consumed + 1,
            r == old(self).responses@[old(self).consumed as int],
            final(self).responses@ == old(self).responses@,
            final(self).cs_high == old(self).cs_high,
            final(self).cs_trace@ == old(self).cs_trace@,
    {
        self.written.push(data);
        let len: usize = self.responses.len();
        let r = self.responses[self.consumed];
        assert(self.consumed < len);
        self.consumed = self.consumed + 1;
        r
    }
}

} // verus!
