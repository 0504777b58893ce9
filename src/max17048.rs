use vstd::prelude::*;
use crate::bus::{
    Bus, BusCall, call_error, one_read, read_result, register_from_bytes, register_to_bytes, reply_value,
    wrote_register,
};

verus! {

/// Bus address of the fuel gauge unless the board says otherwise.
pub const MAX17048_DEFAULT_ADDR: u8 = 0x36;
/// Compensation applied at the reference temperature of 20 °C.
pub const DEFAULT_RCOMP: u8 = 0x97;

pub const REG_VCELL: u8 = 0x02;
pub const REG_SOC: u8 = 0x04;
pub const REG_VERSION: u8 = 0x08;
pub const REG_CONFIG: u8 = 0x0C;
pub const REG_CRATE: u8 = 0x16;

/// State of charge in percent from the raw SOC register.
pub fn soc_from_raw(raw: u16) -> (r: u16)
    ensures
        r == raw / 256,
{
    raw / 256
}

/// Cell voltage in nanovolts from the raw VCELL register (78.125 µV a step).
pub fn cell_voltage_nv(raw: u16) -> (r: u64)
    ensures
        r == raw as int * 78125,
{
    (raw as u64) * 78125
}

/// The raw register read as a two's-complement 16-bit value.
pub open spec fn signed16(raw: u16) -> int {
    if raw < 0x8000 { raw as int } else { raw as int - 0x10000 }
}

/// Charge rate in thousandths of a percent per hour from the raw CRATE
/// register, which is signed (0.208 %/hr a step).
pub fn charge_rate_from_raw(raw: u16) -> (r: i32)
    ensures
        r == signed16(raw) * 208,
{
    if raw < 0x8000 {
        (raw as i32) * 208
    } else {
        (raw as i32 - 0x10000) * 208
    }
}

/// The CONFIG register with `rcomp` in its high byte and the low byte
/// (alert thresholds) of `current` kept.
pub open spec fn with_rcomp(current: u16, rcomp: u8) -> u16 {
    (rcomp as int * 256 + current as int % 256) as u16
}

pub fn compensated_register(current: u16, rcomp: u8) -> (r: u16)
    ensures
        r == with_rcomp(current, rcomp),
        r % 256 == current % 256,
        r / 256 == rcomp as u16,
{
    let rc = rcomp as u16;
    assert(rc < 256 ==> (current & 0x00FF) | (rc << 8) == rc * 256 + current % 256) by (bit_vector);
    (current & 0x00FF) | (rc << 8)
}

/// Setting the compensation byte keeps the CONFIG register's low byte and
/// puts the new byte, and only it, in the high byte.
pub proof fn lemma_compensation_keeps_low_byte(current: u16, rcomp: u8)
    ensures
        with_rcomp(current, rcomp) % 256 == current % 256,
        with_rcomp(current, rcomp) / 256 == rcomp as u16,
{
}

/// RCOMP for a temperature of `t` thousandths of a degree Celsius, times
/// `rcomp_den(t)`: DEFAULT_RCOMP + (t - 20 °C) × slope, where the slope is
/// -0.5 per degree above 20 °C and -5 per degree at or below it.
pub open spec fn rcomp_num(t: int) -> int {
    if t > 20000 {
        DEFAULT_RCOMP as int * 2000 - (t - 20000)
    } else {
        DEFAULT_RCOMP as int * 200 - (t - 20000)
    }
}

pub open spec fn rcomp_den(t: int) -> int {
    if t > 20000 { 2000 } else { 200 }
}

/// RCOMP truncated toward zero and saturated to the 8-bit range.
pub open spec fn rcomp_for(t: int) -> u8 {
    if rcomp_num(t) <= 0 {
        0
    } else if rcomp_num(t) / rcomp_den(t) > 255 {
        255
    } else {
        (rcomp_num(t) / rcomp_den(t)) as u8
    }
}

/// Compensation value for a temperature in thousandths of a degree Celsius.
pub fn rcomp_for_temperature(temp_millicelsius: i32) -> (r: u8)
    ensures
        r == rcomp_for(temp_millicelsius as int),
{
    let t = temp_millicelsius as i64;
    let num: i64 = if t > 20000 {
        (DEFAULT_RCOMP as i64) * 2000 - (t - 20000)
    } else {
        (DEFAULT_RCOMP as i64) * 200 - (t - 20000)
    };
    let den: u64 = if t > 20000 { 2000 } else { 200 };
    if num <= 0 {
        0
    } else {
        let q: u64 = (num as u64) / den;
        if q > 255 {
            255
        } else {
            q as u8
        }
    }
}

/// `after` is `before` and one compensation update at `address`: a read of
/// CONFIG and, only if it succeeded, the write of CONFIG with `rcomp` in its
/// high byte and the low byte that was read. `r` is the failing call's error,
/// if any.
pub open spec fn compensated<E>(
    before: Seq<BusCall<E>>,
    after: Seq<BusCall<E>>,
    address: u8,
    rcomp: u8,
    r: Result<(), E>,
) -> bool {
    &&& after.len() > before.len()
    &&& one_read(before, after.subrange(0, before.len() + 1 as int), address, REG_CONFIG)
    &&& match call_error(after[before.len() as int]) {
        None => wrote_register(
            after.subrange(0, before.len() + 1 as int),
            after,
            address,
            REG_CONFIG,
            with_rcomp(reply_value(after[before.len() as int]), rcomp),
            r,
        ),
        Some(e) => after == after.subrange(0, before.len() + 1 as int) && r == Err::<(), E>(e),
    }
}

/// Driver for the MAX17048 fuel gauge. It owns its bus address and a
/// two-byte receive buffer; the bus is borrowed per call.
pub struct Max17048 {
    address: u8,
    recv_buffer: [u8; 2],
}

impl Max17048 {
    pub closed spec fn spec_address(&self) -> u8 {
        self.address
    }

    pub fn address(&self) -> (r: u8)
        ensures
            r == self.spec_address(),
    {
        self.address
    }

    /// Reads a 16-bit register: one transaction that writes its address and
    /// reads two bytes back, high byte first.
    pub fn read<B: Bus>(&mut self, bus: &mut B, reg: u8) -> (r: Result<u16, B::Error>)
        ensures
            final(self).spec_address() == old(self).spec_address(),
            one_read(old(bus).calls(), final(bus).calls(), old(self).spec_address(), reg),
            r == read_result(final(bus).calls().last()),
    {
        let request: [u8; 1] = [reg];
        assert(request@ =~= seq![reg]);
        let outcome = bus.write_read(self.address, request.as_slice(), &mut self.recv_buffer);
        assert(bus.calls().drop_last() =~= old(bus).calls());
        match outcome {
            Ok(_) => Ok(register_from_bytes(self.recv_buffer)),
            Err(e) => Err(e),
        }
    }

    /// Writes a 16-bit register: its address in one bus write, then the
    /// value, high byte first, in a second.
    pub fn write<B: Bus>(&mut self, bus: &mut B, reg: u8, value: u16) -> (r: Result<(), B::Error>)
        ensures
            final(self).spec_address() == old(self).spec_address(),
            wrote_register(old(bus).calls(), final(bus).calls(), old(self).spec_address(), reg, value, r),
    {
        let request: [u8; 1] = [reg];
        assert(request@ =~= seq![reg]);
        match bus.write(self.address, request.as_slice()) {
            Ok(()) => {},
            Err(e) => {
                return Err(e);
            },
        }
        let frame = register_to_bytes(value);
        assert(frame@ =~= seq![(value / 256) as u8, (value % 256) as u8]);
        match bus.write(self.address, frame.as_slice()) {
            Ok(()) => Ok(()),
            Err(e) => Err(e),
        }
    }

    /// Sets the compensation byte: reads CONFIG, replaces its high byte by
    /// `rcomp`, keeps its low byte, and writes the result back. Nothing is
    /// written when the read fails.
    pub fn compensation<B: Bus>(&mut self, bus: &mut B, rcomp: u8) -> (r: Result<(), B::Error>)
        ensures
            final(self).spec_address() == old(self).spec_address(),
            compensated(old(bus).calls(), final(bus).calls(), old(self).spec_address(), rcomp, r),
    {
        let ghost before = bus.calls();
        match self.read(bus, REG_CONFIG) {
            Ok(current) => {
                let ghost mid = bus.calls();
                let value = compensated_register(current, rcomp);
                let r = self.write(bus, REG_CONFIG, value);
                assert(bus.calls().subrange(0, before.len() + 1 as int) =~= mid);
                r
            },
            Err(e) => {
                assert(bus.calls().subrange(0, before.len() + 1 as int) =~= bus.calls());
                Err(e)
            },
        }
    }

    /// A driver at the default address, with the default compensation applied.
    pub fn new<B: Bus>(bus: &mut B) -> (r: Result<Max17048, B::Error>)
        ensures
            r matches Ok(m) ==> m.spec_address() == MAX17048_DEFAULT_ADDR,
            compensated(
                old(bus).calls(),
                final(bus).calls(),
                MAX17048_DEFAULT_ADDR,
                DEFAULT_RCOMP,
                match r {
                    Ok(_) => Ok::<(), B::Error>(()),
                    Err(e) => Err(e),
                },
            ),
    {
        Self::new_with_address(bus, MAX17048_DEFAULT_ADDR)
    }

    /// A driver at `address`. Construction applies the default compensation
    /// first and fails only if that fails, with the bus's error.
    pub fn new_with_address<B: Bus>(bus: &mut B, address: u8) -> (r: Result<Max17048, B::Error>)
        ensures
            r matches Ok(m) ==> m.spec_address() == address,
            compensated(
                old(bus).calls(),
                final(bus).calls(),
                address,
                DEFAULT_RCOMP,
                match r {
                    Ok(_) => Ok::<(), B::Error>(()),
                    Err(e) => Err(e),
                },
            ),
    {
        let mut max = Max17048 { address, recv_buffer: [0u8; 2] };
        match max.compensation(bus, DEFAULT_RCOMP) {
            Ok(_) => Ok(max),
            Err(e) => Err(e),
        }
    }

    /// The silicon version register, unscaled.
    pub fn version<B: Bus>(&mut self, bus: &mut B) -> (r: Result<u16, B::Error>)
        ensures
            final(self).spec_address() == old(self).spec_address(),
            one_read(old(bus).calls(), final(bus).calls(), old(self).spec_address(), REG_VERSION),
            r == read_result(final(bus).calls().last()),
    {
        self.read(bus, REG_VERSION)
    }

    /// State of charge in percent.
    pub fn soc<B: Bus>(&mut self, bus: &mut B) -> (r: Result<u16, B::Error>)
        ensures
            final(self).spec_address() == old(self).spec_address(),
            one_read(old(bus).calls(), final(bus).calls(), old(self).spec_address(), REG_SOC),
            r == match read_result(final(bus).calls().last()) {
                Ok(raw) => Ok(raw / 256),
                Err(e) => Err(e),
            },
    {
        match self.read(bus, REG_SOC) {
            Ok(raw) => Ok(soc_from_raw(raw)),
            Err(e) => Err(e),
        }
    }

    /// Charge rate in thousandths of a percent per hour.
    pub fn charge_rate<B: Bus>(&mut self, bus: &mut B) -> (r: Result<i32, B::Error>)
        ensures
            final(self).spec_address() == old(self).spec_address(),
            one_read(old(bus).calls(), final(bus).calls(), old(self).spec_address(), REG_CRATE),
            r == match read_result(final(bus).calls().last()) {
                Ok(raw) => Ok((signed16(raw) * 208) as i32),
                Err(e) => Err(e),
            },
    {
        match self.read(bus, REG_CRATE) {
            Ok(raw) => Ok(charge_rate_from_raw(raw)),
            Err(e) => Err(e),
        }
    }

    /// Cell voltage in nanovolts.
    pub fn vcell<B: Bus>(&mut self, bus: &mut B) -> (r: Result<u64, B::Error>)
        ensures
            final(self).spec_address() == old(self).spec_address(),
            one_read(old(bus).calls(), final(bus).calls(), old(self).spec_address(), REG_VCELL),
            r == match read_result(final(bus).calls().last()) {
                Ok(raw) => Ok((raw as int * 78125) as u64),
                Err(e) => Err(e),
            },
    {
        match self.read(bus, REG_VCELL) {
            Ok(raw) => Ok(cell_voltage_nv(raw)),
            Err(e) => Err(e),
        }
    }

    /// Applies the compensation for a temperature in thousandths of a degree
    /// Celsius.
    pub fn temp_compensation<B: Bus>(&mut self, bus: &mut B, temp_millicelsius: i32) -> (r: Result<(), B::Error>)
        ensures
            final(self).spec_address() == old(self).spec_address(),
            compensated(
                old(bus).calls(),
                final(bus).calls(),
                old(self).spec_address(),
                rcomp_for(temp_millicelsius as int),
                r,
            ),
    {
        let rcomp = rcomp_for_temperature(temp_millicelsius);
        self.compensation(bus, rcomp)
    }
}

} // verus!
