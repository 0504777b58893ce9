use vstd::prelude::*;

verus! {

/// Three axes of one motion sensor, each an IEEE-754 double as its bit pattern.
#[derive(Clone, Copy, Debug, PartialEq, Eq, Structural)]
pub struct Axes {
    pub x: u64,
    pub y: u64,
    pub z: u64,
}

/// One telemetry record. Every field holds the bit pattern of the float that
/// the sensor produced (`f32::to_bits` / `f64::to_bits`), so that the record
/// and its wire form stay exact.
#[derive(Clone, Copy, Debug, PartialEq, Eq, Structural)]
pub struct Sample {
    pub imu_temperature: u32,
    pub imu_gyroscope: Axes,
    pub imu_accelerometer: Axes,
    pub baro_temperature: u64,
    pub baro_pressure: u64,
    pub bat_voltage: u32,
}

/// Size of a serialized sample: two 4-byte and eight 8-byte fields.
pub const SAMPLE_WIRE_LEN: usize = 72;

pub open spec fn le32(v: u32) -> Seq<u8> {
    seq![v as u8, (v >> 8u32) as u8, (v >> 16u32) as u8, (v >> 24u32) as u8]
}

pub open spec fn le64(v: u64) -> Seq<u8> {
    seq![
        v as u8, (v >> 8u64) as u8, (v >> 16u64) as u8, (v >> 24u64) as u8,
        (v >> 32u64) as u8, (v >> 40u64) as u8, (v >> 48u64) as u8, (v >> 56u64) as u8,
    ]
}

pub open spec fn axes_wire(a: Axes) -> Seq<u8> {
    le64(a.x) + le64(a.y) + le64(a.z)
}

/// The wire form: the fields in declaration order, each little-endian, with
/// no prefix, padding or checksum.
pub open spec fn sample_wire(s: Sample) -> Seq<u8> {
    le32(s.imu_temperature) + axes_wire(s.imu_gyroscope) + axes_wire(s.imu_accelerometer)
        + le64(s.baro_temperature) + le64(s.baro_pressure) + le32(s.bat_voltage)
}

/// The integer whose little-endian bytes are `w[at..at + 4]`.
pub open spec fn u32_at(w: Seq<u8>, at: int) -> u32 {
    (w[at] as u32) | ((w[at + 1] as u32) << 8u32) | ((w[at + 2] as u32) << 16u32) | ((w[at + 3] as u32) << 24u32)
}

/// The integer whose little-endian bytes are `w[at..at + 8]`.
pub open spec fn u64_at(w: Seq<u8>, at: int) -> u64 {
    (w[at] as u64) | ((w[at + 1] as u64) << 8u64) | ((w[at + 2] as u64) << 16u64) | ((w[at + 3] as u64) << 24u64)
        | ((w[at + 4] as u64) << 32u64) | ((w[at + 5] as u64) << 40u64) | ((w[at + 6] as u64) << 48u64)
        | ((w[at + 7] as u64) << 56u64)
}

pub open spec fn axes_at(w: Seq<u8>, at: int) -> Axes {
    Axes { x: u64_at(w, at), y: u64_at(w, at + 8), z: u64_at(w, at + 16) }
}

/// The record that a 72-byte wire form holds.
pub open spec fn sample_of_wire(w: Seq<u8>) -> Sample {
    Sample {
        imu_temperature: u32_at(w, 0),
        imu_gyroscope: axes_at(w, 4),
        imu_accelerometer: axes_at(w, 28),
        baro_temperature: u64_at(w, 52),
        baro_pressure: u64_at(w, 60),
        bat_voltage: u32_at(w, 68),
    }
}

/// Relies on bincode::serialize: with its default options (fixed-width
/// integers, little-endian), a tuple is written field after field and a
/// fixed-size array element after element, without length or padding. The
/// size pass has no limit and the output is a `Vec`, so integers and arrays
/// of them never fail to serialize.
#[verifier::external_body]
fn bincode_serialize(s: &Sample) -> (r: Option<Vec<u8>>)
    ensures
        r is Some,
        r matches Some(b) ==> b@ == sample_wire(*s),
{
    let g = s.imu_gyroscope;
    let a = s.imu_accelerometer;
    bincode::serialize(&(
        s.imu_temperature, [g.x, g.y, g.z], [a.x, a.y, a.z],
        s.baro_temperature, s.baro_pressure, s.bat_voltage,
    )).ok()
}

/// Serializes a record into its fixed wire form.
pub fn encode_sample(s: &Sample) -> (r: Vec<u8>)
    ensures
        r@ == sample_wire(*s),
        r@.len() == SAMPLE_WIRE_LEN,
{
    proof {
        lemma_wire_len(*s);
    }
    bincode_serialize(s).unwrap()
}

fn read_u32(w: &[u8], at: usize) -> (r: u32)
    requires
        at + 4 <= w@.len(),
    ensures
        r == u32_at(w@, at as int),
{
    (w[at] as u32) | ((w[at + 1] as u32) << 8u32) | ((w[at + 2] as u32) << 16u32) | ((w[at + 3] as u32) << 24u32)
}

fn read_u64(w: &[u8], at: usize) -> (r: u64)
    requires
        at + 8 <= w@.len(),
    ensures
        r == u64_at(w@, at as int),
{
    (w[at] as u64) | ((w[at + 1] as u64) << 8u64) | ((w[at + 2] as u64) << 16u64) | ((w[at + 3] as u64) << 24u64)
        | ((w[at + 4] as u64) << 32u64) | ((w[at + 5] as u64) << 40u64) | ((w[at + 6] as u64) << 48u64)
        | ((w[at + 7] as u64) << 56u64)
}

fn read_axes(w: &[u8], at: usize) -> (r: Axes)
    requires
        w@.len() == SAMPLE_WIRE_LEN,
        at + 24 <= SAMPLE_WIRE_LEN,
    ensures
        r == axes_at(w@, at as int),
{
    Axes { x: read_u64(w, at), y: read_u64(w, at + 8), z: read_u64(w, at + 16) }
}

/// Reads a record back from its wire form; `None` unless the buffer is
/// exactly one record long.
pub fn decode_sample(w: &[u8]) -> (r: Option<Sample>)
    ensures
        r == (if w@.len() == SAMPLE_WIRE_LEN { Some(sample_of_wire(w@)) } else { None::<Sample> }),
{
    if w.len() != SAMPLE_WIRE_LEN {
        return None;
    }
    Some(Sample {
        imu_temperature: read_u32(w, 0),
        imu_gyroscope: read_axes(w, 4),
        imu_accelerometer: read_axes(w, 28),
        baro_temperature: read_u64(w, 52),
        baro_pressure: read_u64(w, 60),
        bat_voltage: read_u32(w, 68),
    })
}

pub proof fn lemma_wire_len(s: Sample)
    ensures
        sample_wire(s).len() == SAMPLE_WIRE_LEN,
{
}

proof fn lemma_le32_at(w: Seq<u8>, at: int, v: u32)
    requires
        0 <= at,
        at + 4 <= w.len(),
        w.subrange(at, at + 4) == le32(v),
    ensures
        u32_at(w, at) == v,
{
    let s = w.subrange(at, at + 4);
    assert(w[at] == s[0] && w[at + 1] == s[1] && w[at + 2] == s[2] && w[at + 3] == s[3]);
    assert((v as u8 as u32) | (((v >> 8u32) as u8 as u32) << 8u32) | (((v >> 16u32) as u8 as u32) << 16u32)
        | (((v >> 24u32) as u8 as u32) << 24u32) == v) by (bit_vector);
}

proof fn lemma_le64_at(w: Seq<u8>, at: int, v: u64)
    requires
        0 <= at,
        at + 8 <= w.len(),
        w.subrange(at, at + 8) == le64(v),
    ensures
        u64_at(w, at) == v,
{
    let s = w.subrange(at, at + 8);
    assert(w[at] == s[0] && w[at + 1] == s[1] && w[at + 2] == s[2] && w[at + 3] == s[3]);
    assert(w[at + 4] == s[4] && w[at + 5] == s[5] && w[at + 6] == s[6] && w[at + 7] == s[7]);
    assert((v as u8 as u64) | (((v >> 8u64) as u8 as u64) << 8u64) | (((v >> 16u64) as u8 as u64) << 16u64)
        | (((v >> 24u64) as u8 as u64) << 24u64) | (((v >> 32u64) as u8 as u64) << 32u64)
        | (((v >> 40u64) as u8 as u64) << 40u64) | (((v >> 48u64) as u8 as u64) << 48u64)
        | (((v >> 56u64) as u8 as u64) << 56u64) == v) by (bit_vector);
}

/// Decoding the wire form of a record gives back that record, field for
/// field: `decode_sample` on what `encode_sample` produced returns the input.
pub proof fn lemma_sample_round_trip(s: Sample)
    ensures
        sample_wire(s).len() == SAMPLE_WIRE_LEN,
        sample_of_wire(sample_wire(s)) == s,
{
    let w = sample_wire(s);
    let g = s.imu_gyroscope;
    let a = s.imu_accelerometer;
    assert(w.subrange(0, 4) =~= le32(s.imu_temperature));
    assert(w.subrange(4, 12) =~= le64(g.x));
    assert(w.subrange(12, 20) =~= le64(g.y));
    assert(w.subrange(20, 28) =~= le64(g.z));
    assert(w.subrange(28, 36) =~= le64(a.x));
    assert(w.subrange(36, 44) =~= le64(a.y));
    assert(w.subrange(44, 52) =~= le64(a.z));
    assert(w.subrange(52, 60) =~= le64(s.baro_temperature));
    assert(w.subrange(60, 68) =~= le64(s.baro_pressure));
    assert(w.subrange(68, 72) =~= le32(s.bat_voltage));
    lemma_le32_at(w, 0, s.imu_temperature);
    lemma_le64_at(w, 4, g.x);
    lemma_le64_at(w, 12, g.y);
    lemma_le64_at(w, 20, g.z);
    lemma_le64_at(w, 28, a.x);
    lemma_le64_at(w, 36, a.y);
    lemma_le64_at(w, 44, a.z);
    lemma_le64_at(w, 52, s.baro_temperature);
    lemma_le64_at(w, 60, s.baro_pressure);
    lemma_le32_at(w, 68, s.bat_voltage);
}

} // verus!
