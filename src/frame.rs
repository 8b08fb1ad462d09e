//! Address-byte encoding, sample decoding and magnitude arithmetic of the
//! accelerometer's serial protocol.
use vstd::prelude::*;

verus! {

/// Set in the address byte of a frame that reads from the device.
pub const READ: u8 = 0x80;

/// Set in the address byte of a frame that moves more than one data byte.
pub const MULTI: u8 = 0x40;

/// Mask of the register-address bits of an address byte.
pub const ADDRESS_MASK: u8 = 0x3F;

/// The address byte of a frame: the register address with the read and
/// burst flags or'ed in.
pub open spec fn address_byte(address: u8, read: bool, multi: bool) -> u8 {
    address | (if read { READ } else { 0u8 }) | (if multi { MULTI } else { 0u8 })
}

/// The address byte of a read of `len` data bytes starting at `address`.
/// The burst flag is set exactly when the read moves more than one byte.
pub fn read_address(address: u8, len: usize) -> (r: u8)
    ensures
        r == address_byte(address, true, len > 1),
{
    if len > 1 {
        let r: u8 = address | READ | MULTI;
        assert(r == address | 0x80u8 | 0x40u8);
        r
    } else {
        let r: u8 = address | READ;
        assert(address | 0x80u8 == address | 0x80u8 | 0u8) by (bit_vector);
        r
    }
}

/// The first byte of a write frame of `frame_len` bytes: the burst flag is
/// added exactly when more than one data byte follows the address byte.
pub open spec fn write_first(first: u8, frame_len: nat) -> u8 {
    if frame_len > 2 {
        first | MULTI
    } else {
        first
    }
}

/// The address byte of a write frame of `frame_len` bytes whose first byte is
/// `first`.
pub fn write_address(first: u8, frame_len: usize) -> (r: u8)
    ensures
        r == write_first(first, frame_len as nat),
{
    if frame_len > 2 {
        first | MULTI
    } else {
        first
    }
}

/// A single-register read of an address in the register range puts the
/// address with only the read flag on the bus; the burst flag stays clear.
pub proof fn lemma_single_read_frame(a: u8)
    requires
        a <= ADDRESS_MASK,
    ensures
        address_byte(a, true, false) == a | 0x80,
        address_byte(a, true, false) & MULTI == 0,
        address_byte(a, true, false) & READ == READ,
        address_byte(a, true, false) & ADDRESS_MASK == a,
{
    assert(a | 0x80u8 | 0u8 == a | 0x80u8) by (bit_vector);
    assert(a <= 0x3Fu8 ==> (a | 0x80u8) & 0x40u8 == 0u8) by (bit_vector);
    assert((a | 0x80u8) & 0x80u8 == 0x80u8) by (bit_vector);
    assert(a <= 0x3Fu8 ==> (a | 0x80u8) & 0x3Fu8 == a) by (bit_vector);
}

/// A read of more than one byte puts an address byte with both the read and
/// the burst flag set on the bus, whatever the address.
pub proof fn lemma_burst_read_frame(a: u8, len: nat)
    requires
        len > 1,
    ensures
        address_byte(a, true, len > 1) & READ == READ,
        address_byte(a, true, len > 1) & MULTI == MULTI,
{
    assert((a | 0x80u8 | 0x40u8) & 0x80u8 == 0x80u8) by (bit_vector);
    assert((a | 0x80u8 | 0x40u8) & 0x40u8 == 0x40u8) by (bit_vector);
}

/// The 16-bit two's-complement value of a little-endian byte pair.
pub open spec fn le_i16(lo: u8, hi: u8) -> int {
    if hi < 128 {
        hi * 256 + lo
    } else {
        hi * 256 + lo - 65536
    }
}

/// Decodes a little-endian byte pair into a signed 16-bit value.
pub fn i16_from_le(lo: u8, hi: u8) -> (r: i16)
    ensures
        r as int == le_i16(lo, hi),
{
    let v: i32 = (hi as i32) * 256 + (lo as i32);
    if hi < 128 {
        v as i16
    } else {
        (v - 65536) as i16
    }
}

/// Largest integer whose square does not exceed `n`.
pub open spec fn is_isqrt(n: nat, r: nat) -> bool {
    r * r <= n && n < (r + 1) * (r + 1)
}

/// The integer square root of `n`, rounded down.
pub open spec fn floor_sqrt(n: nat) -> nat {
    choose|r: nat| is_isqrt(n, r)
}

proof fn lemma_isqrt_unique(n: nat, a: nat, b: nat)
    requires
        is_isqrt(n, a),
        is_isqrt(n, b),
    ensures
        a == b,
{
    if a < b {
        assert((a + 1) * (a + 1) <= b * b) by (nonlinear_arith)
            requires a + 1 <= b;
    } else if b < a {
        assert((b + 1) * (b + 1) <= a * a) by (nonlinear_arith)
            requires b + 1 <= a;
    }
}

/// A root that brackets `n` is the floor square root of `n`.
pub proof fn lemma_floor_sqrt(n: nat, r: nat)
    requires
        is_isqrt(n, r),
    ensures
        floor_sqrt(n) == r,
{
    let q = floor_sqrt(n);
    assert(is_isqrt(n, q));
    lemma_isqrt_unique(n, q, r);
}

/// Integer square root, rounded down.
pub fn isqrt(n: u64) -> (r: u64)
    ensures
        is_isqrt(n as nat, r as nat),
        r as nat == floor_sqrt(n as nat),
{
    // Invariant: lo * lo <= n < hi * hi.
    let mut lo: u64 = 0;
    let mut hi: u64 = 0x1_0000_0000;
    assert(n < hi * hi) by (nonlinear_arith)
        requires hi == 0x1_0000_0000u64, n <= u64::MAX;
    while hi - lo > 1
        invariant
            lo < hi <= 0x1_0000_0000,
            lo * lo <= n,
            n < hi * hi,
        decreases hi - lo,
    {
        let mid: u64 = lo + (hi - lo) / 2;
        assert(mid * mid <= 0xFFFF_FFFF * 0xFFFF_FFFF) by (nonlinear_arith)
            requires mid < 0x1_0000_0000;
        if mid * mid <= n {
            lo = mid;
        } else {
            hi = mid;
        }
    }
    assert(hi == lo + 1);
    proof {
        lemma_floor_sqrt(n as nat, lo as nat);
    }
    lo
}

/// One acceleration reading: the raw signed counts of the three axes.
#[derive(Clone, Copy, Debug, PartialEq, Eq, Structural)]
pub struct Sample {
    pub x: i16,
    pub y: i16,
    pub z: i16,
}

/// Number of data bytes of one sample: three little-endian axis pairs.
pub const SAMPLE_BYTES: usize = 6;

/// The sample held by six data bytes in device order (X0, X1, Y0, Y1, Z0, Z1).
pub open spec fn sample_of(b: Seq<u8>) -> Sample
    recommends
        b.len() == 6,
{
    Sample {
        x: le_i16(b[0], b[1]) as i16,
        y: le_i16(b[2], b[3]) as i16,
        z: le_i16(b[4], b[5]) as i16,
    }
}

/// Reconstructs a sample from the six data bytes of a burst read.
pub fn decode_sample(bytes: &[u8]) -> (r: Sample)
    requires
        bytes@.len() == SAMPLE_BYTES,
    ensures
        r == sample_of(bytes@),
        r.x as int == le_i16(bytes@[0], bytes@[1]),
        r.y as int == le_i16(bytes@[2], bytes@[3]),
        r.z as int == le_i16(bytes@[4], bytes@[5]),
{
    Sample {
        x: i16_from_le(bytes[0], bytes[1]),
        y: i16_from_le(bytes[2], bytes[3]),
        z: i16_from_le(bytes[4], bytes[5]),
    }
}

/// Sum of the squared axis counts of a sample.
pub open spec fn sum_of_squares(s: Sample) -> nat {
    (s.x * s.x + s.y * s.y + s.z * s.z) as nat
}

/// Milli-g per count in full-resolution mode.
pub const FULL_RES_SCALE: u64 = 4;

/// The magnitude of a sample: the floor square root of the sum of squares,
/// times the scale.
pub open spec fn magnitude(s: Sample, scale: nat) -> nat {
    floor_sqrt(sum_of_squares(s)) * scale
}

/// The magnitude of `sample` in thousandths of standard gravity, where one
/// count stands for `scale` thousandths.
pub fn magnitude_millig(sample: Sample, scale: u32) -> (r: u64)
    ensures
        r as nat == magnitude(sample, scale as nat),
{
    let x: i64 = sample.x as i64;
    let y: i64 = sample.y as i64;
    let z: i64 = sample.z as i64;
    assert(0 <= x * x <= 0x4000_0000) by (nonlinear_arith)
        requires -32768 <= x <= 32767;
    assert(0 <= y * y <= 0x4000_0000) by (nonlinear_arith)
        requires -32768 <= y <= 32767;
    assert(0 <= z * z <= 0x4000_0000) by (nonlinear_arith)
        requires -32768 <= z <= 32767;
    let sum: u64 = (x * x + y * y + z * z) as u64;
    let root: u64 = isqrt(sum);
    assert(root <= 0x1_0000) by (nonlinear_arith)
        requires root * root <= sum, sum <= 0xC000_0000;
    let sc: u64 = scale as u64;
    assert(root * sc <= 0x1_0000 * 0xFFFF_FFFF) by (nonlinear_arith)
        requires root <= 0x1_0000, sc <= 0xFFFF_FFFF;
    root * sc
}

/// The whole-g and thousandths parts of a magnitude given in milli-g, as a
/// display writes them (`1.250g`).
pub fn millig_parts(total: u64) -> (r: (u64, u64))
    ensures
        r.0 == total / 1000,
        r.1 == total % 1000,
        r.1 < 1000,
        r.0 * 1000 + r.1 == total,
{
    (total / 1000, total % 1000)
}

} // verus!
