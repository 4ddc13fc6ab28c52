//! The fixed-size log record: two calibrated millivolt readings packed as
//! four bytes, each reading little-endian, channel 0 first.

use vstd::prelude::*;
use vstd::arithmetic::div_mod::lemma_fundamental_div_mod;

verus! {

/// Size of one log record in bytes; the cursor advances by this amount
/// once per tick.
pub const WRITE_SIZE: u32 = 4;

/// One log record, in write order: channel-0 reading little-endian in the
/// first two bytes, channel-1 reading in the last two. No header, checksum
/// or timestamp; records are write-only for this subsystem.
#[derive(Clone, Copy, Debug, PartialEq, Eq, Structural)]
pub struct LogRecord {
    /// Low byte of the channel-0 reading.
    pub b0: u8,
    /// High byte of the channel-0 reading.
    pub b1: u8,
    /// Low byte of the channel-1 reading.
    pub b2: u8,
    /// High byte of the channel-1 reading.
    pub b3: u8,
}

impl LogRecord {
    /// The record's bytes in the order they are written to flash.
    pub open spec fn bytes(self) -> Seq<u8> {
        seq![self.b0, self.b1, self.b2, self.b3]
    }

    /// The record's bytes as an array, ready to hand to the flash driver.
    pub fn to_bytes(&self) -> (a: [u8; 4])
        ensures
            a@ == self.bytes(),
    {
        let a: [u8; 4] = [self.b0, self.b1, self.b2, self.b3];
        assert(a@ =~= self.bytes());
        a
    }
}

/// Record holding calibrated readings `c0` and `c1`.
pub open spec fn pack_spec(c0: u16, c1: u16) -> LogRecord {
    LogRecord {
        b0: (c0 % 256) as u8,
        b1: (c0 / 256) as u8,
        b2: (c1 % 256) as u8,
        b3: (c1 / 256) as u8,
    }
}

/// Channel-0 reading recovered from a record.
pub open spec fn unpack0_spec(r: LogRecord) -> u16 {
    (r.b0 + 256 * r.b1) as u16
}

/// Channel-1 reading recovered from a record.
pub open spec fn unpack1_spec(r: LogRecord) -> u16 {
    (r.b2 + 256 * r.b3) as u16
}

/// Packs two calibrated readings into one record.
pub fn pack(c0: u16, c1: u16) -> (r: LogRecord)
    ensures
        r == pack_spec(c0, c1),
{
    LogRecord {
        b0: (c0 % 256) as u8,
        b1: (c0 / 256) as u8,
        b2: (c1 % 256) as u8,
        b3: (c1 / 256) as u8,
    }
}

/// Recovers the two calibrated readings from a record.
pub fn unpack(r: &LogRecord) -> (c: (u16, u16))
    ensures
        c.0 == unpack0_spec(*r),
        c.1 == unpack1_spec(*r),
{
    let c0: u16 = r.b0 as u16 + 256 * (r.b1 as u16);
    let c1: u16 = r.b2 as u16 + 256 * (r.b3 as u16);
    (c0, c1)
}

/// Law: unpacking a packed record returns the original pair of readings,
/// for every pair of calibrated values.
pub proof fn lemma_pack_unpack(c0: u16, c1: u16)
    ensures
        unpack0_spec(pack_spec(c0, c1)) == c0,
        unpack1_spec(pack_spec(c0, c1)) == c1,
{
    lemma_fundamental_div_mod(c0 as int, 256);
    lemma_fundamental_div_mod(c1 as int, 256);
}

} // verus!
