use telemetry_bridge::gy87::BusError;
use telemetry_bridge::gy87::Gy87Error;
use telemetry_bridge::gy87::MovementData;
use telemetry_bridge::gy87::RegisterOp;
use telemetry_bridge::gy87::check_hmc_identity;
use telemetry_bridge::gy87::check_mpu_identity;
use telemetry_bridge::gy87::decode_accel_gyro;
use telemetry_bridge::gy87::decode_mag;
use telemetry_bridge::gy87::be_i16;
use telemetry_bridge::gy87::hmc_init_ops;
use telemetry_bridge::gy87::hmc_trigger_op;
use telemetry_bridge::gy87::mpu_init_ops;
use telemetry_bridge::gy87::movement_from_euler;
use telemetry_bridge::gy87::write_bit;
use telemetry_bridge::gy87::write_bits;

#[test]
fn write_bit_sets_and_clears_only_the_bit() {
    assert_eq!(write_bit(0b0000_0000, 5, true), 0b0010_0000);
    assert_eq!(write_bit(0b1111_1111, 5, false), 0b1101_1111);
    assert_eq!(write_bit(0b1010_1010, 0, true), 0b1010_1011);
    assert_eq!(write_bit(0b1010_1010, 7, false), 0b0010_1010);
    // already in the requested state: unchanged
    assert_eq!(write_bit(0b0010_0000, 5, true), 0b0010_0000);
    assert_eq!(write_bit(0b0000_0000, 3, false), 0b0000_0000);
}

#[test]
fn write_bits_concrete_field_updates() {
    // clock select: bits 2..0, value 1 into a register of all ones
    assert_eq!(write_bits(0xFF, 2, 3, 1), 0b1111_1001);
    // gyro config: bits 4..3, value 0 into all ones
    assert_eq!(write_bits(0xFF, 4, 2, 0), 0b1110_0111);
    // value wider than the field is masked down
    assert_eq!(write_bits(0x00, 4, 2, 0xFF), 0b0001_1000);
}

#[test]
fn write_bits_preserves_bits_outside_the_mask_exhaustively() {
    // every valid field position, against every prior byte, for a few values
    for start_bit in 0u8..8 {
        for length in 1u8..=(start_bit + 1) {
            let shift = start_bit + 1 - length;
            let mask: u8 = ((((1u16 << length) - 1) << shift) & 0xFF) as u8;
            for prior in 0u16..256 {
                let prior = prior as u8;
                for &value in &[0u8, 1, 0x55, 0xAA, 0xFF] {
                    let r = write_bits(prior, start_bit, length, value);
                    assert_eq!(r & !mask, prior & !mask);
                    assert_eq!(r & mask, (value << shift) & mask);
                }
            }
        }
    }
}

#[test]
fn be_i16_decodes_sign_and_magnitude() {
    assert_eq!(be_i16(0x00, 0x00), 0);
    assert_eq!(be_i16(0x01, 0x02), 258);
    assert_eq!(be_i16(0xFF, 0xFF), -1);
    assert_eq!(be_i16(0x80, 0x00), -32768);
    assert_eq!(be_i16(0x7F, 0xFF), 32767);
}

#[test]
fn decode_accel_gyro_skips_the_temperature_word() {
    let buf: Vec<u8> = vec![
        0x01, 0x02, // accel x = 258
        0x03, 0x04, // accel y = 772
        0x05, 0x06, // accel z = 1286
        0x77, 0x88, // temperature, ignored
        0xFF, 0xFE, // gyro x = -2
        0x10, 0x00, // gyro y = 4096
        0x80, 0x01, // gyro z = -32767
    ];
    let s = decode_accel_gyro(&buf);
    assert_eq!(s.accel.x, 258);
    assert_eq!(s.accel.y, 772);
    assert_eq!(s.accel.z, 1286);
    assert_eq!(s.gyro.x, -2);
    assert_eq!(s.gyro.y, 4096);
    assert_eq!(s.gyro.z, -32767);
}

#[test]
fn decode_mag_permutes_wire_order_x_z_y() {
    // wire order is (x, z, y): x=0x0102, z=0x0304, y=0x0506
    let buf: Vec<u8> = vec![0x01, 0x02, 0x03, 0x04, 0x05, 0x06];
    let s = decode_mag(&buf);
    assert_eq!(s.x, 0x0102);
    assert_eq!(s.y, 0x0506);
    assert_eq!(s.z, 0x0304);
}

#[test]
fn serialize_round_trips_through_le_floats() {
    let values = [0.0f64, 1.5, -2.25, 1.0e-300, -0.0, 12345.6789, f64::MIN_POSITIVE];
    let d = MovementData {
        x: values[0].to_bits(),
        y: values[1].to_bits(),
        z: values[2].to_bits(),
        yaw: values[3].to_bits(),
        pitch: values[4].to_bits(),
        roll: values[5].to_bits(),
    };
    let bytes = d.serialize();
    assert_eq!(bytes.len(), 48);
    for (i, v) in values[..6].iter().enumerate() {
        let mut word = [0u8; 8];
        word.copy_from_slice(&bytes[i * 8..i * 8 + 8]);
        let read = f64::from_le_bytes(word);
        assert_eq!(read.to_bits(), v.to_bits());
    }
    let back = MovementData::deserialize(&bytes);
    assert_eq!(back, d);
}

#[test]
fn serialize_layout_matches_le_byte_order() {
    let d = MovementData { x: 0, y: 0, z: 0, yaw: 0x0102030405060708, pitch: 0, roll: 0 };
    let bytes = d.serialize();
    assert_eq!(&bytes[24..32], &[0x08, 0x07, 0x06, 0x05, 0x04, 0x03, 0x02, 0x01]);
}

#[test]
fn movement_from_euler_fixes_position_at_zero() {
    let yaw = 1.25f64.to_bits();
    let pitch = (-3.5f64).to_bits();
    let roll = 0.75f64.to_bits();
    let d = movement_from_euler(yaw, pitch, roll);
    assert_eq!(d.x, 0);
    assert_eq!(d.y, 0);
    assert_eq!(d.z, 0);
    assert_eq!(f64::from_bits(d.x), 0.0);
    assert_eq!(d.yaw, yaw);
    assert_eq!(d.pitch, pitch);
    assert_eq!(d.roll, roll);
}

#[test]
fn mpu_init_sequence_order_and_values() {
    let ops = mpu_init_ops();
    assert_eq!(ops.len(), 7);
    assert_eq!(ops[0], RegisterOp::WriteBit { addr: 0x6A, bit: 5, enable: false });
    assert_eq!(ops[1], RegisterOp::WriteBit { addr: 0x37, bit: 1, enable: true });
    assert_eq!(ops[2], RegisterOp::WriteBit { addr: 0x6B, bit: 6, enable: false });
    assert_eq!(
        ops[3],
        RegisterOp::WriteBits { addr: 0x6B, start_bit: 2, length: 3, value: 1 }
    );
    assert_eq!(
        ops[4],
        RegisterOp::WriteBits { addr: 0x1B, start_bit: 4, length: 2, value: 0 }
    );
    assert_eq!(
        ops[5],
        RegisterOp::WriteBits { addr: 0x1C, start_bit: 4, length: 2, value: 0 }
    );
    assert_eq!(ops[6], RegisterOp::WriteBit { addr: 0x6B, bit: 6, enable: false });
}

#[test]
fn hmc_init_sequence_values() {
    let ops = hmc_init_ops();
    assert_eq!(ops.len(), 3);
    assert_eq!(ops[0], RegisterOp::WriteByte { addr: 0x00, value: 0x70 });
    assert_eq!(ops[1], RegisterOp::WriteByte { addr: 0x01, value: 0x20 });
    assert_eq!(ops[2], RegisterOp::WriteByte { addr: 0x02, value: 0x01 });
    assert_eq!(hmc_trigger_op(), RegisterOp::WriteByte { addr: 0x02, value: 0x01 });
}

#[test]
fn mpu_identity_check() {
    assert_eq!(check_mpu_identity(Ok(0x68)), Ok(()));
    assert_eq!(
        check_mpu_identity(Ok(0x21)),
        Err(Gy87Error::UnknownMPUDeviceAddr(0x21))
    );
    assert_eq!(
        check_mpu_identity(Err(BusError::BusReadWrite)),
        Err(Gy87Error::BusError(BusError::BusReadWrite))
    );
}

#[test]
fn hmc_identity_check() {
    assert_eq!(check_hmc_identity(Ok(vec![b'H', b'4', b'3'])), Ok(()));
    assert_eq!(
        check_hmc_identity(Ok(vec![b'X', b'4', b'3'])),
        Err(Gy87Error::UnknownHMCDeviceAddr(b'X', b'4', b'3'))
    );
    assert_eq!(
        check_hmc_identity(Err(BusError::BusReadWrite)),
        Err(Gy87Error::BusError(BusError::BusReadWrite))
    );
}
