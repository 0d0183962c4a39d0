//! Sensor layer: bit-packed register protocol, device init sequences,
//! raw sample decoding, and the fixed 48-byte output record.
//!
//! All bus transactions are performed outside this crate; the functions
//! here compute the bytes to write, check what was read, and decode the
//! sample bursts.

use vstd::prelude::*;

verus! {

use crate::constants::ACCEL_CONFIG;
use crate::constants::ACCEL_CONFIG_2G;
use crate::constants::ACCEL_CONFIG_SELECT_BIT;
use crate::constants::ACCEL_CONFIG_SELECT_LENGTH;
use crate::constants::CLOCK_SELECT_BIT;
use crate::constants::CLOCK_SELECT_LENGTH;
use crate::constants::CLOCK_SOURCE;
use crate::constants::GYRO_CONFIG;
use crate::constants::GYRO_CONFIG_250;
use crate::constants::GYRO_CONFIG_SELECT_BIT;
use crate::constants::GYRO_CONFIG_SELECT_LENGTH;
use crate::constants::HMC5883L_AVERAGING_8;
use crate::constants::HMC5883L_BIAS_NORMAL;
use crate::constants::HMC5883L_CONFIG_A;
use crate::constants::HMC5883L_CONFIG_B;
use crate::constants::HMC5883L_CRA_AVERAGE_BIT;
use crate::constants::HMC5883L_CRA_AVERAGE_LENGTH;
use crate::constants::HMC5883L_CRA_BIAS_BIT;
use crate::constants::HMC5883L_CRA_BIAS_LENGTH;
use crate::constants::HMC5883L_CRA_RATE_BIT;
use crate::constants::HMC5883L_CRA_RATE_LENGTH;
use crate::constants::HMC5883L_GAIN;
use crate::constants::HMC5883L_GAIN_BIT;
use crate::constants::HMC5883L_GAIN_LENGTH;
use crate::constants::HMC5883L_MODE_REG;
use crate::constants::HMC5883L_MODE_REG_BIT;
use crate::constants::HMC5883L_MODE_REG_LENGTH;
use crate::constants::HMC5883L_MODE_SINGLE;
use crate::constants::HMC5883L_RATE_15;
use crate::constants::I2C_BYPASS_ENABLE;
use crate::constants::I2C_BYPASS_ENABLE_BIT;
use crate::constants::MASTER_MODE_ENABLE;
use crate::constants::MASTER_MODE_ENABLE_BIT;
use crate::constants::MPU6050_ADDR;
use crate::constants::POWER_MGMT_1;
use crate::constants::SLEEP_ENABLED_BIT;

/// A bus transaction fault, local to the register protocol driver.
#[derive(Debug, Eq, PartialEq, Copy, Clone, Structural)]
pub enum BusError {
    /// A write transaction failed.
    BusWrite,
    /// A combined write-then-read transaction failed.
    BusReadWrite,
}

/// A sensor-layer fault: bus faults wrapped with bring-up or per-cycle
/// context, and identity mismatches carrying the observed bytes.
#[derive(Debug, Eq, PartialEq, Copy, Clone, Structural)]
pub enum Gy87Error {
    BusError(BusError),
    HmcInit(BusError),
    MpuInit(BusError),
    UpdateGetAccelGyro(BusError),
    UpdateMag(BusError),
    UpdateError,
    UnknownMPUDeviceAddr(u8),
    UnknownHMCDeviceAddr(u8, u8, u8),
}

/// True when bit `i` (least-significant-bit indexed) of `x` is set.
pub open spec fn bit_of(x: u8, i: u8) -> bool {
    (x >> i) & 1 == 1
}

/// The modify step of a read-modify-write on a single register bit:
/// set or clear bit `bit` of `current`, leaving every other bit alone.
pub fn write_bit(current: u8, bit: u8, enable: bool) -> (r: u8)
    requires
        bit < 8,
    ensures
        r == (if enable {
            current | (1u8 << bit)
        } else {
            current & !(1u8 << bit)
        }),
        forall|i: u8|
            i < 8 ==> #[trigger] bit_of(r, i) == (if i == bit {
                enable
            } else {
                bit_of(current, i)
            }),
{
    let r: u8 = if enable {
        current | (1u8 << bit)
    } else {
        current & !(1u8 << bit)
    };
    proof {
        assert forall|i: u8| i < 8 implies #[trigger] bit_of(r, i) == (if i == bit {
            enable
        } else {
            bit_of(current, i)
        }) by {
            if enable {
                assert(bit < 8 && i < 8 && r == current | (1u8 << bit) ==> bit_of(r, i) == (if i
                    == bit {
                    true
                } else {
                    bit_of(current, i)
                })) by (bit_vector);
            } else {
                assert(bit < 8 && i < 8 && r == current & !(1u8 << bit) ==> bit_of(r, i) == (if i
                    == bit {
                    false
                } else {
                    bit_of(current, i)
                })) by (bit_vector);
            }
        }
    }
    r
}

/// Position of the least-significant bit of the field `(start_bit,
/// length)`; fields are most-significant-bit indexed from `start_bit`
/// downward.
pub open spec fn field_shift(start_bit: u8, length: u8) -> u8
    recommends
        1 <= length <= start_bit + 1,
{
    (start_bit + 1 - length) as u8
}

/// The register mask covering exactly the bits of the field.
pub open spec fn field_mask(start_bit: u8, length: u8) -> u8
    recommends
        1 <= length <= start_bit + 1 <= 8,
{
    ((((1u16 << length) - 1) as u16) << field_shift(start_bit, length)) as u8
}

/// The modify step of a read-modify-write on a multi-bit register
/// field: clear exactly the field's bits in `current` and put the low
/// `length` bits of `value` there.  Bits outside the field keep their
/// prior value, whatever `current` held.
pub fn write_bits(current: u8, start_bit: u8, length: u8, value: u8) -> (r: u8)
    requires
        start_bit < 8,
        1 <= length,
        length <= start_bit + 1,
    ensures
        r == (current & !field_mask(start_bit, length)) | (((value << field_shift(
            start_bit,
            length,
        )) as u8) & field_mask(start_bit, length)),
        forall|i: u8|
            i < 8 ==> #[trigger] bit_of(r, i) == (if field_shift(start_bit, length) <= i
                <= start_bit {
                bit_of(value, (i - field_shift(start_bit, length)) as u8)
            } else {
                bit_of(current, i)
            }),
{
    let shift: u8 = start_bit + 1 - length;
    assert((1u16 << length) >= 1 && ((((1u16 << length) - 1) as u16) << shift) < 256 && shift
        == field_shift(start_bit, length) && (((((1u16 << length) - 1) as u16) << shift) as u8)
        == field_mask(start_bit, length)) by (bit_vector)
        requires
            start_bit < 8,
            1 <= length,
            length <= start_bit + 1,
            shift == start_bit + 1 - length,
    ;
    let ones: u16 = (1u16 << length) - 1;
    let mask_wide: u16 = ones << shift;
    let mask: u8 = mask_wide as u8;
    let positioned: u8 = (value << shift) & mask;
    let r: u8 = (current & !mask) | positioned;
    proof {
        assert forall|i: u8| i < 8 implies #[trigger] bit_of(r, i) == (if shift <= i <= start_bit {
            bit_of(value, (i - shift) as u8)
        } else {
            bit_of(current, i)
        }) by {
            assert((start_bit < 8 && 1 <= length && length <= start_bit + 1 && shift == start_bit
                - length + 1 && mask == (((((1u16 << length) - 1) as u16) << shift) as u8) && r == (
            current & !mask) | ((value << shift) & mask) && i < 8) ==> bit_of(r, i) == (if shift
                <= i <= start_bit {
                bit_of(value, (i - shift) as u8)
            } else {
                bit_of(current, i)
            })) by (bit_vector);
        }
    }
    r
}

/// One register write of a device init sequence.  `WriteBit` and
/// `WriteBits` are read-modify-write: the runtime reads the register
/// once, applies [`write_bit`] or [`write_bits`], and writes the result
/// back — exactly one read, then exactly one write, since reads may
/// have device side effects.  `WriteByte` writes the value directly.
#[derive(Debug, Eq, PartialEq, Copy, Clone, Structural)]
pub enum RegisterOp {
    WriteBit { addr: u8, bit: u8, enable: bool },
    WriteBits { addr: u8, start_bit: u8, length: u8, value: u8 },
    WriteByte { addr: u8, value: u8 },
}

/// The op's bit positions fit an 8-bit register, so [`write_bit`] and
/// [`write_bits`] accept them.
pub open spec fn op_valid(op: RegisterOp) -> bool {
    match op {
        RegisterOp::WriteBit { addr, bit, enable } => bit < 8,
        RegisterOp::WriteBits { addr, start_bit, length, value } => start_bit < 8 && 1 <= length
            <= start_bit + 1,
        RegisterOp::WriteByte { addr, value } => true,
    }
}

/// The inertial device's init sequence, in order: disable master mode,
/// enable the bus bypass, clear sleep, select the external clock
/// source, set the full-scale gyro range, set the full-scale
/// accelerometer range, and clear sleep once more (defensive).  A
/// failed op aborts the remaining ones.
pub fn mpu_init_ops() -> (r: Vec<RegisterOp>)
    ensures
        r@ =~= seq![
            (RegisterOp::WriteBit {
                addr: MASTER_MODE_ENABLE,
                bit: MASTER_MODE_ENABLE_BIT,
                enable: false,
            }),
            (RegisterOp::WriteBit {
                addr: I2C_BYPASS_ENABLE,
                bit: I2C_BYPASS_ENABLE_BIT,
                enable: true,
            }),
            (RegisterOp::WriteBit { addr: POWER_MGMT_1, bit: SLEEP_ENABLED_BIT, enable: false }),
            (RegisterOp::WriteBits {
                addr: POWER_MGMT_1,
                start_bit: CLOCK_SELECT_BIT,
                length: CLOCK_SELECT_LENGTH,
                value: CLOCK_SOURCE,
            }),
            (RegisterOp::WriteBits {
                addr: GYRO_CONFIG,
                start_bit: GYRO_CONFIG_SELECT_BIT,
                length: GYRO_CONFIG_SELECT_LENGTH,
                value: GYRO_CONFIG_250,
            }),
            (RegisterOp::WriteBits {
                addr: ACCEL_CONFIG,
                start_bit: ACCEL_CONFIG_SELECT_BIT,
                length: ACCEL_CONFIG_SELECT_LENGTH,
                value: ACCEL_CONFIG_2G,
            }),
            (RegisterOp::WriteBit { addr: POWER_MGMT_1, bit: SLEEP_ENABLED_BIT, enable: false }),
        ],
        forall|i: int| 0 <= i < r@.len() ==> op_valid(#[trigger] r@[i]),
{
    let mut r: Vec<RegisterOp> = Vec::new();
    r.push(
        RegisterOp::WriteBit { addr: MASTER_MODE_ENABLE, bit: MASTER_MODE_ENABLE_BIT, enable: false },
    );
    r.push(RegisterOp::WriteBit { addr: I2C_BYPASS_ENABLE, bit: I2C_BYPASS_ENABLE_BIT, enable: true });
    r.push(RegisterOp::WriteBit { addr: POWER_MGMT_1, bit: SLEEP_ENABLED_BIT, enable: false });
    r.push(
        RegisterOp::WriteBits {
            addr: POWER_MGMT_1,
            start_bit: CLOCK_SELECT_BIT,
            length: CLOCK_SELECT_LENGTH,
            value: CLOCK_SOURCE,
        },
    );
    r.push(
        RegisterOp::WriteBits {
            addr: GYRO_CONFIG,
            start_bit: GYRO_CONFIG_SELECT_BIT,
            length: GYRO_CONFIG_SELECT_LENGTH,
            value: GYRO_CONFIG_250,
        },
    );
    r.push(
        RegisterOp::WriteBits {
            addr: ACCEL_CONFIG,
            start_bit: ACCEL_CONFIG_SELECT_BIT,
            length: ACCEL_CONFIG_SELECT_LENGTH,
            value: ACCEL_CONFIG_2G,
        },
    );
    r.push(RegisterOp::WriteBit { addr: POWER_MGMT_1, bit: SLEEP_ENABLED_BIT, enable: false });
    r
}

/// The single-measurement trigger write.  The magnetometer idles after
/// one conversion, so this op closes its init sequence and re-arms the
/// device after every sample read.
pub fn hmc_trigger_op() -> (r: RegisterOp)
    ensures
        r == (RegisterOp::WriteByte { addr: HMC5883L_MODE_REG, value: 0x01u8 }),
{
    let shift_mode: u8 = HMC5883L_MODE_REG_BIT + 1 - HMC5883L_MODE_REG_LENGTH;
    let value: u8 = HMC5883L_MODE_SINGLE << shift_mode;
    assert(value == 0x01u8) by (bit_vector)
        requires
            value == 1u8 << shift_mode,
            shift_mode == 0u8,
    ;
    RegisterOp::WriteByte { addr: HMC5883L_MODE_REG, value }
}

/// The magnetometer's init sequence: averaging, output rate and bias in
/// the first config register; gain in the second; then the
/// single-measurement trigger.
pub fn hmc_init_ops() -> (r: Vec<RegisterOp>)
    ensures
        r@ =~= seq![
            (RegisterOp::WriteByte { addr: HMC5883L_CONFIG_A, value: 0x70u8 }),
            (RegisterOp::WriteByte { addr: HMC5883L_CONFIG_B, value: 0x20u8 }),
            (RegisterOp::WriteByte { addr: HMC5883L_MODE_REG, value: 0x01u8 }),
        ],
{
    let shift_avg: u8 = HMC5883L_CRA_AVERAGE_BIT + 1 - HMC5883L_CRA_AVERAGE_LENGTH;
    let shift_rate: u8 = HMC5883L_CRA_RATE_BIT + 1 - HMC5883L_CRA_RATE_LENGTH;
    let shift_bias: u8 = HMC5883L_CRA_BIAS_BIT + 1 - HMC5883L_CRA_BIAS_LENGTH;
    let shift_gain: u8 = HMC5883L_GAIN_BIT + 1 - HMC5883L_GAIN_LENGTH;
    let config_a: u8 = (HMC5883L_AVERAGING_8 << shift_avg) | (HMC5883L_RATE_15 << shift_rate) | (
    HMC5883L_BIAS_NORMAL << shift_bias);
    let config_b: u8 = HMC5883L_GAIN << shift_gain;
    assert(config_a == 0x70u8 && config_b == 0x20u8) by (bit_vector)
        requires
            config_a == (3u8 << shift_avg) | (4u8 << shift_rate) | (0u8 << shift_bias),
            config_b == 1u8 << shift_gain,
            shift_avg == 5u8,
            shift_rate == 2u8,
            shift_bias == 0u8,
            shift_gain == 5u8,
    ;
    let mut r: Vec<RegisterOp> = Vec::new();
    r.push(RegisterOp::WriteByte { addr: HMC5883L_CONFIG_A, value: config_a });
    r.push(RegisterOp::WriteByte { addr: HMC5883L_CONFIG_B, value: config_b });
    r.push(hmc_trigger_op());
    r
}

/// The 3-byte identity string the magnetometer must report.
pub open spec fn hmc_identity() -> Seq<u8> {
    seq![72u8, 52u8, 51u8]
}

/// Checks the inertial device's identity register against the expected
/// value, wrapping a bus fault and carrying a mismatched byte for
/// diagnostics.
pub fn check_mpu_identity(res: Result<u8, BusError>) -> (r: Result<(), Gy87Error>)
    ensures
        res matches Err(e) ==> r == Result::<(), Gy87Error>::Err(Gy87Error::BusError(e)),
        res matches Ok(b) ==> (if b == MPU6050_ADDR {
            r is Ok
        } else {
            r == Result::<(), Gy87Error>::Err(Gy87Error::UnknownMPUDeviceAddr(b))
        }),
{
    match res {
        Ok(b) => {
            if b == MPU6050_ADDR {
                Ok(())
            } else {
                Err(Gy87Error::UnknownMPUDeviceAddr(b))
            }
        },
        Err(e) => Err(Gy87Error::BusError(e)),
    }
}

/// Checks the magnetometer's 3-byte identity string, wrapping a bus
/// fault and carrying the observed bytes on a mismatch.
pub fn check_hmc_identity(res: Result<Vec<u8>, BusError>) -> (r: Result<(), Gy87Error>)
    requires
        res matches Ok(v) ==> v@.len() == 3,
    ensures
        res matches Err(e) ==> r == Result::<(), Gy87Error>::Err(Gy87Error::BusError(e)),
        res matches Ok(v) ==> (if v@ == hmc_identity() {
            r is Ok
        } else {
            r == Result::<(), Gy87Error>::Err(Gy87Error::UnknownHMCDeviceAddr(v@[0], v@[1], v@[2]))
        }),
{
    match res {
        Ok(v) => {
            if v[0] == 72 && v[1] == 52 && v[2] == 51 {
                proof {
                    assert(v@ =~= hmc_identity());
                }
                Ok(())
            } else {
                proof {
                    assert(v@ != hmc_identity());
                }
                Err(Gy87Error::UnknownHMCDeviceAddr(v[0], v[1], v[2]))
            }
        },
        Err(e) => Err(Gy87Error::BusError(e)),
    }
}

/// Value of a big-endian signed 16-bit word given its two bytes.
pub open spec fn be_i16_val(hi: u8, lo: u8) -> int {
    if hi < 128 {
        hi * 256 + lo
    } else {
        hi * 256 + lo - 65536
    }
}

/// Reads one big-endian signed 16-bit word, as the sensor devices lay
/// their sample words out on the wire.
pub fn be_i16(hi: u8, lo: u8) -> (r: i16)
    ensures
        r as int == be_i16_val(hi, lo),
{
    let wide: i32 = (hi as i32) * 256 + (lo as i32);
    if wide < 32768 {
        wide as i16
    } else {
        (wide - 65536) as i16
    }
}

/// One raw sample triple, in device units (signed 16-bit words).
#[derive(Debug, Eq, PartialEq, Copy, Clone, Structural)]
pub struct RawTriple {
    pub x: i16,
    pub y: i16,
    pub z: i16,
}

/// One raw accelerometer/gyro sample pair, in device units.  Physical
/// unit conversion is a fixed linear scale per axis and is applied by
/// the consumer of the record.
#[derive(Debug, Eq, PartialEq, Copy, Clone, Structural)]
pub struct RawAccelGyro {
    pub accel: RawTriple,
    pub gyro: RawTriple,
}

/// Layout of the inertial device's 14-byte burst: accel x, y, z, then
/// the temperature word (ignored), then gyro x, y, z, all big-endian.
pub open spec fn spec_decode_accel_gyro(b: Seq<u8>) -> RawAccelGyro
    recommends
        b.len() == 14,
{
    RawAccelGyro {
        accel: RawTriple {
            x: be_i16_val(b[0], b[1]) as i16,
            y: be_i16_val(b[2], b[3]) as i16,
            z: be_i16_val(b[4], b[5]) as i16,
        },
        gyro: RawTriple {
            x: be_i16_val(b[8], b[9]) as i16,
            y: be_i16_val(b[10], b[11]) as i16,
            z: be_i16_val(b[12], b[13]) as i16,
        },
    }
}

/// Decodes the inertial device's 14-byte burst read.
pub fn decode_accel_gyro(buf: &Vec<u8>) -> (r: RawAccelGyro)
    requires
        buf@.len() == 14,
    ensures
        r == spec_decode_accel_gyro(buf@),
{
    RawAccelGyro {
        accel: RawTriple {
            x: be_i16(buf[0], buf[1]),
            y: be_i16(buf[2], buf[3]),
            z: be_i16(buf[4], buf[5]),
        },
        gyro: RawTriple {
            x: be_i16(buf[8], buf[9]),
            y: be_i16(buf[10], buf[11]),
            z: be_i16(buf[12], buf[13]),
        },
    }
}

/// Layout of the magnetometer's 6-byte burst: the device reports its
/// axes in (x, z, y) wire order, so the middle word is the sample's z
/// and the last word its y.
pub open spec fn spec_decode_mag(b: Seq<u8>) -> RawTriple
    recommends
        b.len() == 6,
{
    RawTriple {
        x: be_i16_val(b[0], b[1]) as i16,
        y: be_i16_val(b[4], b[5]) as i16,
        z: be_i16_val(b[2], b[3]) as i16,
    }
}

/// Decodes the magnetometer's 6-byte burst read, permuting the device's
/// (x, z, y) wire order to (x, y, z).
pub fn decode_mag(buf: &Vec<u8>) -> (r: RawTriple)
    requires
        buf@.len() == 6,
    ensures
        r == spec_decode_mag(buf@),
{
    RawTriple { x: be_i16(buf[0], buf[1]), y: be_i16(buf[4], buf[5]), z: be_i16(buf[2], buf[3]) }
}

/// The output record of one cycle: position and orientation, each field
/// the bit pattern of a 64-bit float, kept as plain bits so that the
/// record's wire layout is exact.  Position is not computed by this
/// core: x, y and z are always the zero pattern.
#[derive(Debug, Eq, PartialEq, Copy, Clone, Structural)]
pub struct MovementData {
    pub x: u64,
    pub y: u64,
    pub z: u64,
    pub yaw: u64,
    pub pitch: u64,
    pub roll: u64,
}

/// The eight bytes of `v`, least-significant first.
pub open spec fn le_bytes64(v: u64) -> Seq<u8> {
    Seq::new(8, |i: int| ((v >> ((8 * i) as u64)) & 0xff) as u8)
}

/// The word whose little-endian bytes are `b`.
pub open spec fn u64_from_le(b: Seq<u8>) -> u64
    recommends
        b.len() == 8,
{
    (b[0] as u64) | ((b[1] as u64) << 8u64) | ((b[2] as u64) << 16u64) | ((b[3] as u64) << 24u64)
        | ((b[4] as u64) << 32u64) | ((b[5] as u64) << 40u64) | ((b[6] as u64) << 48u64) | ((
    b[7] as u64) << 56u64)
}

/// Reassembling a word from its little-endian bytes recovers it
/// exactly.
pub proof fn lemma_u64_le_round_trip(v: u64)
    ensures
        u64_from_le(le_bytes64(v)) == v,
{
    assert(le_bytes64(v).len() == 8);
    assert(le_bytes64(v)[0] == ((v >> 0u64) & 0xff) as u8);
    assert(le_bytes64(v)[1] == ((v >> 8u64) & 0xff) as u8);
    assert(le_bytes64(v)[2] == ((v >> 16u64) & 0xff) as u8);
    assert(le_bytes64(v)[3] == ((v >> 24u64) & 0xff) as u8);
    assert(le_bytes64(v)[4] == ((v >> 32u64) & 0xff) as u8);
    assert(le_bytes64(v)[5] == ((v >> 40u64) & 0xff) as u8);
    assert(le_bytes64(v)[6] == ((v >> 48u64) & 0xff) as u8);
    assert(le_bytes64(v)[7] == ((v >> 56u64) & 0xff) as u8);
    assert(((((v >> 0u64) & 0xff) as u8 as u64) | ((((v >> 8u64) & 0xff) as u8 as u64) << 8u64) | ((
    ((v >> 16u64) & 0xff) as u8 as u64) << 16u64) | ((((v >> 24u64) & 0xff) as u8 as u64) << 24u64)
        | ((((v >> 32u64) & 0xff) as u8 as u64) << 32u64) | ((((v >> 40u64) & 0xff) as u8 as u64)
        << 40u64) | ((((v >> 48u64) & 0xff) as u8 as u64) << 48u64) | ((((v >> 56u64)
        & 0xff) as u8 as u64) << 56u64)) == v) by (bit_vector);
}

/// Appends the eight little-endian bytes of `v`.
fn push_u64_le(buf: &mut Vec<u8>, v: u64)
    ensures
        final(buf)@ == old(buf)@ + le_bytes64(v),
{
    buf.push(((v >> 0u64) & 0xff) as u8);
    buf.push(((v >> 8u64) & 0xff) as u8);
    buf.push(((v >> 16u64) & 0xff) as u8);
    buf.push(((v >> 24u64) & 0xff) as u8);
    buf.push(((v >> 32u64) & 0xff) as u8);
    buf.push(((v >> 40u64) & 0xff) as u8);
    buf.push(((v >> 48u64) & 0xff) as u8);
    buf.push(((v >> 56u64) & 0xff) as u8);
    proof {
        assert(buf@ =~= old(buf)@ + le_bytes64(v));
    }
}

/// Reads the word at `off` from its eight little-endian bytes.
fn read_u64_le(bytes: &Vec<u8>, off: usize) -> (r: u64)
    requires
        off + 8 <= bytes@.len(),
    ensures
        r == u64_from_le(bytes@.subrange(off as int, off as int + 8)),
{
    let n: usize = bytes.len();
    assert(off + 7 < n);
    let r: u64 = (bytes[off] as u64) | ((bytes[off + 1] as u64) << 8u64) | ((bytes[off
        + 2] as u64) << 16u64) | ((bytes[off + 3] as u64) << 24u64) | ((bytes[off + 4] as u64)
        << 32u64) | ((bytes[off + 5] as u64) << 40u64) | ((bytes[off + 6] as u64) << 48u64) | ((
    bytes[off + 7] as u64) << 56u64);
    proof {
        let sub = bytes@.subrange(off as int, off as int + 8);
        assert(forall|i: int| 0 <= i < 8 ==> sub[i] == bytes@[off + i]);
    }
    r
}

impl MovementData {
    /// The record's 48-byte wire layout: x, y, z, yaw, pitch, roll, each
    /// eight little-endian bytes, in that field order.
    pub open spec fn spec_serialize(self) -> Seq<u8> {
        le_bytes64(self.x) + le_bytes64(self.y) + le_bytes64(self.z) + le_bytes64(self.yaw)
            + le_bytes64(self.pitch) + le_bytes64(self.roll)
    }

    /// The record encoded by 48 bytes.
    pub open spec fn spec_deserialize(b: Seq<u8>) -> MovementData
        recommends
            b.len() == 48,
    {
        MovementData {
            x: u64_from_le(b.subrange(0, 8)),
            y: u64_from_le(b.subrange(8, 16)),
            z: u64_from_le(b.subrange(16, 24)),
            yaw: u64_from_le(b.subrange(24, 32)),
            pitch: u64_from_le(b.subrange(32, 40)),
            roll: u64_from_le(b.subrange(40, 48)),
        }
    }

    /// Serializes the record to its fixed 48-byte wire form.
    pub fn serialize(&self) -> (r: Vec<u8>)
        ensures
            r@ == self.spec_serialize(),
            r@.len() == 48,
    {
        let mut buf: Vec<u8> = Vec::new();
        push_u64_le(&mut buf, self.x);
        push_u64_le(&mut buf, self.y);
        push_u64_le(&mut buf, self.z);
        push_u64_le(&mut buf, self.yaw);
        push_u64_le(&mut buf, self.pitch);
        push_u64_le(&mut buf, self.roll);
        proof {
            assert(buf@ =~= self.spec_serialize());
        }
        buf
    }

    /// Reads a record back from its 48-byte wire form.
    pub fn deserialize(bytes: &Vec<u8>) -> (r: MovementData)
        requires
            bytes@.len() == 48,
        ensures
            r == MovementData::spec_deserialize(bytes@),
    {
        MovementData {
            x: read_u64_le(bytes, 0),
            y: read_u64_le(bytes, 8),
            z: read_u64_le(bytes, 16),
            yaw: read_u64_le(bytes, 24),
            pitch: read_u64_le(bytes, 32),
            roll: read_u64_le(bytes, 40),
        }
    }
}

/// Serializing a record and reading the 48 bytes back recovers every
/// field exactly, whatever the six words hold.
pub proof fn lemma_serialize_round_trip(d: MovementData)
    ensures
        MovementData::spec_deserialize(d.spec_serialize()) == d,
{
    let s = d.spec_serialize();
    assert(s.subrange(0, 8) =~= le_bytes64(d.x));
    assert(s.subrange(8, 16) =~= le_bytes64(d.y));
    assert(s.subrange(16, 24) =~= le_bytes64(d.z));
    assert(s.subrange(24, 32) =~= le_bytes64(d.yaw));
    assert(s.subrange(32, 40) =~= le_bytes64(d.pitch));
    assert(s.subrange(40, 48) =~= le_bytes64(d.roll));
    lemma_u64_le_round_trip(d.x);
    lemma_u64_le_round_trip(d.y);
    lemma_u64_le_round_trip(d.z);
    lemma_u64_le_round_trip(d.yaw);
    lemma_u64_le_round_trip(d.pitch);
    lemma_u64_le_round_trip(d.roll);
}

/// Outcome of the first read of a cycle: a bus fault there is reported
/// as an accelerometer/gyro phase failure, distinct from a
/// magnetometer one.
pub fn update_on_accel_gyro(res: Result<Vec<u8>, BusError>) -> (r: Result<RawAccelGyro, Gy87Error>)
    requires
        res matches Ok(b) ==> b@.len() == 14,
    ensures
        res matches Err(e) ==> r == Result::<RawAccelGyro, Gy87Error>::Err(
            Gy87Error::UpdateGetAccelGyro(e),
        ),
        res matches Ok(b) ==> r == Result::<RawAccelGyro, Gy87Error>::Ok(
            spec_decode_accel_gyro(b@),
        ),
{
    match res {
        Ok(b) => Ok(decode_accel_gyro(&b)),
        Err(e) => Err(Gy87Error::UpdateGetAccelGyro(e)),
    }
}

/// Outcome of the second read of a cycle: a bus fault there is reported
/// as a magnetometer phase failure.
pub fn update_on_mag(res: Result<Vec<u8>, BusError>) -> (r: Result<RawTriple, Gy87Error>)
    requires
        res matches Ok(b) ==> b@.len() == 6,
    ensures
        res matches Err(e) ==> r == Result::<RawTriple, Gy87Error>::Err(Gy87Error::UpdateMag(e)),
        res matches Ok(b) ==> r == Result::<RawTriple, Gy87Error>::Ok(spec_decode_mag(b@)),
{
    match res {
        Ok(b) => Ok(decode_mag(&b)),
        Err(e) => Err(Gy87Error::UpdateMag(e)),
    }
}

/// Builds the cycle's output record from the fusion capability's
/// orientation estimate.  Position is fixed at the zero pattern: this
/// core does not compute it.
pub fn movement_from_euler(yaw: u64, pitch: u64, roll: u64) -> (r: MovementData)
    ensures
        r == (MovementData { x: 0u64, y: 0u64, z: 0u64, yaw, pitch, roll }),
{
    MovementData { x: 0, y: 0, z: 0, yaw, pitch, roll }
}

} // verus!
