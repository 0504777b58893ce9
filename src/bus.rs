use vstd::prelude::*;

verus! {

/// One call on the bus, with what came of it: `error` is the bus's error, or
/// `None` where the call succeeded.
pub enum BusCall<E> {
    /// `bytes` written, then `reply` read back, in one transaction.
    WriteRead { address: u8, bytes: Seq<u8>, reply: Seq<u8>, error: Option<E> },
    /// `bytes` written.
    Write { address: u8, bytes: Seq<u8>, error: Option<E> },
}

/// The error of a call's result, `None` on success.
pub open spec fn error_of<E>(r: Result<(), E>) -> Option<E> {
    match r {
        Ok(_) => None,
        Err(e) => Some(e),
    }
}

/// A synchronous, addressable two-wire bus, borrowed by a driver for the
/// length of one transaction. Users implement it over their platform's I2C
/// driver; every driver of this library goes through these two calls. What
/// the device answers, and whether the bus fails, is up to the device; each
/// call is recorded in `calls`, with its reply and its outcome.
pub trait Bus {
    type Error;

    /// Every call made on this bus, oldest first. It is a model only: an
    /// implementation outside verified code keeps this default, and since it
    /// is closed, verified callers know of the log exactly what `write_read`
    /// and `write` ensure.
    closed spec fn calls(&self) -> Seq<BusCall<Self::Error>> {
        Seq::empty()
    }

    /// Writes `bytes` to the device at `address`, then reads `buffer.len()`
    /// bytes back, in one bus transaction.
    fn write_read(&mut self, address: u8, bytes: &[u8], buffer: &mut [u8; 2]) -> (r: Result<(), Self::Error>)
        ensures
            final(self).calls() == old(self).calls().push(
                BusCall::WriteRead { address, bytes: bytes@, reply: final(buffer)@, error: error_of(r) },
            ),
    ;

    /// Writes `bytes` to the device at `address`.
    fn write(&mut self, address: u8, bytes: &[u8]) -> (r: Result<(), Self::Error>)
        ensures
            final(self).calls() == old(self).calls().push(BusCall::Write { address, bytes: bytes@, error: error_of(r) }),
    ;
}

/// The 16-bit value whose big-endian bytes are `hi`, `lo`.
pub open spec fn be16(hi: u8, lo: u8) -> u16 {
    (hi as int * 256 + lo as int) as u16
}

pub open spec fn call_error<E>(c: BusCall<E>) -> Option<E> {
    match c {
        BusCall::WriteRead { error, .. } => error,
        BusCall::Write { error, .. } => error,
    }
}

/// The register value that a read call received, big-endian.
pub open spec fn reply_value<E>(c: BusCall<E>) -> u16 {
    match c {
        BusCall::WriteRead { reply, .. } => be16(reply[0], reply[1]),
        BusCall::Write { .. } => 0,
    }
}

/// What a register read returns: the reply's value, or the bus's own error.
pub open spec fn read_result<E>(c: BusCall<E>) -> Result<u16, E> {
    match call_error(c) {
        None => Ok(reply_value(c)),
        Some(e) => Err(e),
    }
}

/// `after` is `before` and one register read: a single transaction at
/// `address` that writes `reg` and reads two bytes.
pub open spec fn one_read<E>(before: Seq<BusCall<E>>, after: Seq<BusCall<E>>, address: u8, reg: u8) -> bool {
    &&& after.len() == before.len() + 1
    &&& after.drop_last() == before
    &&& match after.last() {
        BusCall::WriteRead { address: a, bytes, reply, .. } => a == address && bytes == seq![reg] && reply.len() == 2,
        BusCall::Write { .. } => false,
    }
}

pub open spec fn write_call<E>(address: u8, bytes: Seq<u8>, error: Option<E>) -> BusCall<E> {
    BusCall::Write { address, bytes, error }
}

/// `after` is `before` and a register write of `value` to `reg` at `address`:
/// the register address in one write, then the value high byte first in a
/// second, the second only if the first succeeded. `r` is `Ok` when both
/// succeeded, else the failing call's error.
pub open spec fn wrote_register<E>(
    before: Seq<BusCall<E>>,
    after: Seq<BusCall<E>>,
    address: u8,
    reg: u8,
    value: u16,
    r: Result<(), E>,
) -> bool {
    let select = seq![reg];
    let store = seq![(value / 256) as u8, (value % 256) as u8];
    match r {
        Ok(_) => after == before.push(write_call(address, select, None)).push(write_call(address, store, None)),
        Err(e) => after == before.push(write_call(address, select, Some(e)))
            || after == before.push(write_call(address, select, None)).push(write_call(address, store, Some(e))),
    }
}

/// Reassembles a register value sent high byte first.
pub fn register_from_bytes(bytes: [u8; 2]) -> (r: u16)
    ensures
        r == be16(bytes[0], bytes[1]),
        r as int == bytes[0] as int * 256 + bytes[1] as int,
{
    (bytes[0] as u16) * 256 + (bytes[1] as u16)
}

/// Splits a register value into the bytes sent on the wire, high byte first.
pub fn register_to_bytes(value: u16) -> (r: [u8; 2])
    ensures
        r[0] as int == value as int / 256,
        r[1] as int == value as int % 256,
        be16(r[0], r[1]) == value,
{
    let msb = ((value & 0xFF00) >> 8) as u8;
    let lsb = (value & 0x00FF) as u8;
    assert(((value & 0xFF00) >> 8) as u8 as u16 == value / 256 && (value & 0x00FF) as u8 as u16 == value % 256) by (bit_vector);
    [msb, lsb]
}

} // verus!
