//! Register layout shared by the LSM303 accelerometer/magnetometer family.
//!
//! The chip answers on two bus addresses: the accelerometer at
//! [`ACCELEROMETER_BASE_ADDRESS`] and the magnetometer at
//! [`MAGNETOMETER_BASE_ADDRESS`]. Each configuration value is encoded into a
//! bit field of a control register; the decoders here invert the encoders
//! exactly ([`lemma_ctrl1_round_trip`] and friends), so a configuration
//! written to the device reads back as itself, with no silent coercion.

use vstd::prelude::*;

verus! {

/// Default bus address of the accelerometer, used when none is supplied.
pub const ACCELEROMETER_BASE_ADDRESS: u8 = 0x19;

/// Default bus address of the magnetometer, used when none is supplied.
pub const MAGNETOMETER_BASE_ADDRESS: u8 = 0x1e;

/// Accelerometer control register 1: data rate, low-power mode, axis enables.
pub const CTRL_REG1_A: u8 = 0x20;

/// Accelerometer control register 4: full-scale selection, high resolution.
pub const CTRL_REG4_A: u8 = 0x23;

/// Magnetometer configuration register A: data rate.
pub const CRA_REG_M: u8 = 0x00;

/// Magnetometer configuration register B: gain (range).
pub const CRB_REG_M: u8 = 0x01;

/// First accelerometer output register (X low byte).
pub const OUT_X_L_A: u8 = 0x28;

/// First magnetometer output register (X high byte; the magnetometer's
/// output order is X, Z, Y, high byte first).
pub const OUT_X_H_M: u8 = 0x03;

/// Register-address bit that makes a multi-byte access walk consecutive
/// registers.
pub const AUTO_INCREMENT: u8 = 0x80;

/// Accelerometer output data rate.
#[derive(Clone, Copy, Debug, PartialEq, Eq, Structural)]
pub enum AccelDataRate {
    PowerDown,
    DataRate1Hz,
    DataRate10Hz,
    DataRate25Hz,
    DataRate50Hz,
    DataRate100Hz,
    DataRate200Hz,
    DataRate400Hz,
    LowPower1620Hz,
    Normal1344LowPower5376Hz,
}

/// Accelerometer full-scale selection.
#[derive(Clone, Copy, Debug, PartialEq, Eq, Structural)]
pub enum Scale {
    Scale2G,
    Scale4G,
    Scale8G,
    Scale16G,
}

/// Magnetometer output data rate.
#[derive(Clone, Copy, Debug, PartialEq, Eq, Structural)]
pub enum MagnetoDataRate {
    DataRate0_75Hz,
    DataRate1_5Hz,
    DataRate3_0Hz,
    DataRate7_5Hz,
    DataRate15_0Hz,
    DataRate30_0Hz,
    DataRate75_0Hz,
    DataRate220_0Hz,
}

/// Magnetometer gain (measurement range).
#[derive(Clone, Copy, Debug, PartialEq, Eq, Structural)]
pub enum Range {
    Range1_3G,
    Range1_9G,
    Range2_5G,
    Range4_0G,
    Range4_7G,
    Range5_6G,
    Range8_1G,
}

/// Bit pattern of an accelerometer data rate (control register 1, bits 7-4).
pub open spec fn spec_accel_rate_bits(rate: AccelDataRate) -> u8 {
    match rate {
        AccelDataRate::PowerDown => 0,
        AccelDataRate::DataRate1Hz => 1,
        AccelDataRate::DataRate10Hz => 2,
        AccelDataRate::DataRate25Hz => 3,
        AccelDataRate::DataRate50Hz => 4,
        AccelDataRate::DataRate100Hz => 5,
        AccelDataRate::DataRate200Hz => 6,
        AccelDataRate::DataRate400Hz => 7,
        AccelDataRate::LowPower1620Hz => 8,
        AccelDataRate::Normal1344LowPower5376Hz => 9,
    }
}

/// The accelerometer data rate encoded by `bits`, if any.
pub open spec fn spec_accel_rate_from_bits(bits: u8) -> Option<AccelDataRate> {
    if bits == 0 {
        Some(AccelDataRate::PowerDown)
    } else if bits == 1 {
        Some(AccelDataRate::DataRate1Hz)
    } else if bits == 2 {
        Some(AccelDataRate::DataRate10Hz)
    } else if bits == 3 {
        Some(AccelDataRate::DataRate25Hz)
    } else if bits == 4 {
        Some(AccelDataRate::DataRate50Hz)
    } else if bits == 5 {
        Some(AccelDataRate::DataRate100Hz)
    } else if bits == 6 {
        Some(AccelDataRate::DataRate200Hz)
    } else if bits == 7 {
        Some(AccelDataRate::DataRate400Hz)
    } else if bits == 8 {
        Some(AccelDataRate::LowPower1620Hz)
    } else if bits == 9 {
        Some(AccelDataRate::Normal1344LowPower5376Hz)
    } else {
        None
    }
}

/// Bit pattern of a full-scale selection (control register 4, bits 5-4).
pub open spec fn spec_scale_bits(scale: Scale) -> u8 {
    match scale {
        Scale::Scale2G => 0,
        Scale::Scale4G => 1,
        Scale::Scale8G => 2,
        Scale::Scale16G => 3,
    }
}

/// The full-scale selection encoded by `bits`, if any.
pub open spec fn spec_scale_from_bits(bits: u8) -> Option<Scale> {
    if bits == 0 {
        Some(Scale::Scale2G)
    } else if bits == 1 {
        Some(Scale::Scale4G)
    } else if bits == 2 {
        Some(Scale::Scale8G)
    } else if bits == 3 {
        Some(Scale::Scale16G)
    } else {
        None
    }
}

/// Bit pattern of a magnetometer data rate (register A, bits 4-2).
pub open spec fn spec_mag_rate_bits(rate: MagnetoDataRate) -> u8 {
    match rate {
        MagnetoDataRate::DataRate0_75Hz => 0,
        MagnetoDataRate::DataRate1_5Hz => 1,
        MagnetoDataRate::DataRate3_0Hz => 2,
        MagnetoDataRate::DataRate7_5Hz => 3,
        MagnetoDataRate::DataRate15_0Hz => 4,
        MagnetoDataRate::DataRate30_0Hz => 5,
        MagnetoDataRate::DataRate75_0Hz => 6,
        MagnetoDataRate::DataRate220_0Hz => 7,
    }
}

/// The magnetometer data rate encoded by `bits`, if any.
pub open spec fn spec_mag_rate_from_bits(bits: u8) -> Option<MagnetoDataRate> {
    if bits == 0 {
        Some(MagnetoDataRate::DataRate0_75Hz)
    } else if bits == 1 {
        Some(MagnetoDataRate::DataRate1_5Hz)
    } else if bits == 2 {
        Some(MagnetoDataRate::DataRate3_0Hz)
    } else if bits == 3 {
        Some(MagnetoDataRate::DataRate7_5Hz)
    } else if bits == 4 {
        Some(MagnetoDataRate::DataRate15_0Hz)
    } else if bits == 5 {
        Some(MagnetoDataRate::DataRate30_0Hz)
    } else if bits == 6 {
        Some(MagnetoDataRate::DataRate75_0Hz)
    } else {
        Some(MagnetoDataRate::DataRate220_0Hz)
    }
}

/// Bit pattern of a magnetometer range (register B, bits 7-5).
pub open spec fn spec_range_bits(range: Range) -> u8 {
    match range {
        Range::Range1_3G => 1,
        Range::Range1_9G => 2,
        Range::Range2_5G => 3,
        Range::Range4_0G => 4,
        Range::Range4_7G => 5,
        Range::Range5_6G => 6,
        Range::Range8_1G => 7,
    }
}

/// The magnetometer range encoded by `bits`, if any.
pub open spec fn spec_range_from_bits(bits: u8) -> Option<Range> {
    if bits == 1 {
        Some(Range::Range1_3G)
    } else if bits == 2 {
        Some(Range::Range1_9G)
    } else if bits == 3 {
        Some(Range::Range2_5G)
    } else if bits == 4 {
        Some(Range::Range4_0G)
    } else if bits == 5 {
        Some(Range::Range4_7G)
    } else if bits == 6 {
        Some(Range::Range5_6G)
    } else if bits == 7 {
        Some(Range::Range8_1G)
    } else {
        None
    }
}

/// Control register 1 value: data rate in bits 7-4, low power in bit 3, all
/// three axes enabled in bits 2-0.
pub open spec fn spec_encode_ctrl1(rate: AccelDataRate, low_power: bool) -> u8 {
    (spec_accel_rate_bits(rate) << 4) | (if low_power {
        0x08u8
    } else {
        0x00u8
    }) | 0x07u8
}

/// Reads a data rate and low-power flag back out of a control register 1
/// value.
pub open spec fn spec_decode_ctrl1(value: u8) -> Option<(AccelDataRate, bool)> {
    match spec_accel_rate_from_bits(value >> 4) {
        Some(rate) => Some((rate, value & 0x08 != 0)),
        None => None,
    }
}

/// Control register 4 value: full scale in bits 5-4, high resolution in
/// bit 3.
pub open spec fn spec_encode_ctrl4(scale: Scale, high_resolution: bool) -> u8 {
    (spec_scale_bits(scale) << 4) | (if high_resolution {
        0x08u8
    } else {
        0x00u8
    })
}

/// Reads a scale and high-resolution flag back out of a control register 4
/// value.
pub open spec fn spec_decode_ctrl4(value: u8) -> Option<(Scale, bool)> {
    match spec_scale_from_bits((value >> 4) & 0x03) {
        Some(scale) => Some((scale, value & 0x08 != 0)),
        None => None,
    }
}

/// Magnetometer register A value: data rate in bits 4-2.
pub open spec fn spec_encode_cra(rate: MagnetoDataRate) -> u8 {
    spec_mag_rate_bits(rate) << 2
}

/// Reads the data rate back out of a magnetometer register A value.
pub open spec fn spec_decode_cra(value: u8) -> Option<MagnetoDataRate> {
    spec_mag_rate_from_bits((value >> 2) & 0x07)
}

/// Magnetometer register B value: gain in bits 7-5.
pub open spec fn spec_encode_crb(range: Range) -> u8 {
    spec_range_bits(range) << 5
}

/// Reads the range back out of a magnetometer register B value.
pub open spec fn spec_decode_crb(value: u8) -> Option<Range> {
    spec_range_from_bits(value >> 5)
}

/// Executable twin of [`spec_encode_ctrl1`].
pub fn encode_ctrl1(rate: AccelDataRate, low_power: bool) -> (value: u8)
    ensures
        value == spec_encode_ctrl1(rate, low_power),
{
    let bits: u8 = match rate {
        AccelDataRate::PowerDown => 0,
        AccelDataRate::DataRate1Hz => 1,
        AccelDataRate::DataRate10Hz => 2,
        AccelDataRate::DataRate25Hz => 3,
        AccelDataRate::DataRate50Hz => 4,
        AccelDataRate::DataRate100Hz => 5,
        AccelDataRate::DataRate200Hz => 6,
        AccelDataRate::DataRate400Hz => 7,
        AccelDataRate::LowPower1620Hz => 8,
        AccelDataRate::Normal1344LowPower5376Hz => 9,
    };
    (bits << 4) | (if low_power {
        0x08
    } else {
        0x00
    }) | 0x07
}

/// Executable twin of [`spec_decode_ctrl1`].
pub fn decode_ctrl1(value: u8) -> (decoded: Option<(AccelDataRate, bool)>)
    ensures
        decoded == spec_decode_ctrl1(value),
{
    let bits = value >> 4;
    let low_power = value & 0x08 != 0;
    if bits == 0 {
        Some((AccelDataRate::PowerDown, low_power))
    } else if bits == 1 {
        Some((AccelDataRate::DataRate1Hz, low_power))
    } else if bits == 2 {
        Some((AccelDataRate::DataRate10Hz, low_power))
    } else if bits == 3 {
        Some((AccelDataRate::DataRate25Hz, low_power))
    } else if bits == 4 {
        Some((AccelDataRate::DataRate50Hz, low_power))
    } else if bits == 5 {
        Some((AccelDataRate::DataRate100Hz, low_power))
    } else if bits == 6 {
        Some((AccelDataRate::DataRate200Hz, low_power))
    } else if bits == 7 {
        Some((AccelDataRate::DataRate400Hz, low_power))
    } else if bits == 8 {
        Some((AccelDataRate::LowPower1620Hz, low_power))
    } else if bits == 9 {
        Some((AccelDataRate::Normal1344LowPower5376Hz, low_power))
    } else {
        None
    }
}

/// Executable twin of [`spec_encode_ctrl4`].
pub fn encode_ctrl4(scale: Scale, high_resolution: bool) -> (value: u8)
    ensures
        value == spec_encode_ctrl4(scale, high_resolution),
{
    let bits: u8 = match scale {
        Scale::Scale2G => 0,
        Scale::Scale4G => 1,
        Scale::Scale8G => 2,
        Scale::Scale16G => 3,
    };
    (bits << 4) | (if high_resolution {
        0x08
    } else {
        0x00
    })
}

/// Executable twin of [`spec_decode_ctrl4`].
pub fn decode_ctrl4(value: u8) -> (decoded: Option<(Scale, bool)>)
    ensures
        decoded == spec_decode_ctrl4(value),
{
    let bits = (value >> 4) & 0x03;
    let high_resolution = value & 0x08 != 0;
    if bits == 0 {
        Some((Scale::Scale2G, high_resolution))
    } else if bits == 1 {
        Some((Scale::Scale4G, high_resolution))
    } else if bits == 2 {
        Some((Scale::Scale8G, high_resolution))
    } else {
        proof {
            assert(bits == 3) by (bit_vector)
                requires
                    bits == (value >> 4) & 0x03 && bits != 0 && bits != 1 && bits != 2,
            ;
        }
        Some((Scale::Scale16G, high_resolution))
    }
}

/// Executable twin of [`spec_encode_cra`].
pub fn encode_cra(rate: MagnetoDataRate) -> (value: u8)
    ensures
        value == spec_encode_cra(rate),
{
    let bits: u8 = match rate {
        MagnetoDataRate::DataRate0_75Hz => 0,
        MagnetoDataRate::DataRate1_5Hz => 1,
        MagnetoDataRate::DataRate3_0Hz => 2,
        MagnetoDataRate::DataRate7_5Hz => 3,
        MagnetoDataRate::DataRate15_0Hz => 4,
        MagnetoDataRate::DataRate30_0Hz => 5,
        MagnetoDataRate::DataRate75_0Hz => 6,
        MagnetoDataRate::DataRate220_0Hz => 7,
    };
    bits << 2
}

/// Executable twin of [`spec_decode_cra`].
pub fn decode_cra(value: u8) -> (decoded: Option<MagnetoDataRate>)
    ensures
        decoded == spec_decode_cra(value),
{
    let bits = (value >> 2) & 0x07;
    if bits == 0 {
        Some(MagnetoDataRate::DataRate0_75Hz)
    } else if bits == 1 {
        Some(MagnetoDataRate::DataRate1_5Hz)
    } else if bits == 2 {
        Some(MagnetoDataRate::DataRate3_0Hz)
    } else if bits == 3 {
        Some(MagnetoDataRate::DataRate7_5Hz)
    } else if bits == 4 {
        Some(MagnetoDataRate::DataRate15_0Hz)
    } else if bits == 5 {
        Some(MagnetoDataRate::DataRate30_0Hz)
    } else if bits == 6 {
        Some(MagnetoDataRate::DataRate75_0Hz)
    } else {
        Some(MagnetoDataRate::DataRate220_0Hz)
    }
}

/// Executable twin of [`spec_encode_crb`].
pub fn encode_crb(range: Range) -> (value: u8)
    ensures
        value == spec_encode_crb(range),
{
    let bits: u8 = match range {
        Range::Range1_3G => 1,
        Range::Range1_9G => 2,
        Range::Range2_5G => 3,
        Range::Range4_0G => 4,
        Range::Range4_7G => 5,
        Range::Range5_6G => 6,
        Range::Range8_1G => 7,
    };
    bits << 5
}

/// Executable twin of [`spec_decode_crb`].
pub fn decode_crb(value: u8) -> (decoded: Option<Range>)
    ensures
        decoded == spec_decode_crb(value),
{
    let bits = value >> 5;
    if bits == 1 {
        Some(Range::Range1_3G)
    } else if bits == 2 {
        Some(Range::Range1_9G)
    } else if bits == 3 {
        Some(Range::Range2_5G)
    } else if bits == 4 {
        Some(Range::Range4_0G)
    } else if bits == 5 {
        Some(Range::Range4_7G)
    } else if bits == 6 {
        Some(Range::Range5_6G)
    } else if bits == 7 {
        Some(Range::Range8_1G)
    } else {
        None
    }
}

/// Configuring the accelerometer's rate is lossless: control register 1
/// decodes back to exactly the rate and low-power flag it encodes.
pub proof fn lemma_ctrl1_round_trip(rate: AccelDataRate, low_power: bool)
    ensures
        spec_decode_ctrl1(spec_encode_ctrl1(rate, low_power)) == Some((rate, low_power)),
{
    let bits = spec_accel_rate_bits(rate);
    let lp: u8 = if low_power {
        0x08u8
    } else {
        0x00u8
    };
    let value = (bits << 4) | lp | 0x07u8;
    assert(value >> 4 == bits && value & 0x08 == lp) by (bit_vector)
        requires
            value == (bits << 4) | lp | 0x07u8,
            bits <= 9,
            lp == 0x08u8 || lp == 0x00u8,
    ;
    assert(spec_accel_rate_from_bits(bits) == Some(rate));
}

/// Configuring the accelerometer's scale is lossless: control register 4
/// decodes back to exactly the scale and high-resolution flag it encodes.
pub proof fn lemma_ctrl4_round_trip(scale: Scale, high_resolution: bool)
    ensures
        spec_decode_ctrl4(spec_encode_ctrl4(scale, high_resolution)) == Some(
            (scale, high_resolution),
        ),
{
    let bits = spec_scale_bits(scale);
    let flags: u8 = if high_resolution {
        0x08u8
    } else {
        0x00u8
    };
    let value = (bits << 4) | flags;
    assert((value >> 4) & 0x03 == bits && value & 0x08 == flags) by (bit_vector)
        requires
            value == (bits << 4) | flags,
            bits <= 3,
            flags == 0x08u8 || flags == 0x00u8,
    ;
    assert(spec_scale_from_bits(bits) == Some(scale));
}

/// Configuring the magnetometer's rate is lossless: register A decodes back
/// to exactly the rate it encodes.
pub proof fn lemma_cra_round_trip(rate: MagnetoDataRate)
    ensures
        spec_decode_cra(spec_encode_cra(rate)) == Some(rate),
{
    let bits = spec_mag_rate_bits(rate);
    assert(((bits << 2) >> 2) & 0x07 == bits) by (bit_vector)
        requires
            bits <= 7,
    ;
    assert(spec_mag_rate_from_bits(bits) == Some(rate));
}

/// Configuring the magnetometer's range is lossless: register B decodes back
/// to exactly the range it encodes.
pub proof fn lemma_crb_round_trip(range: Range)
    ensures
        spec_decode_crb(spec_encode_crb(range)) == Some(range),
{
    let bits = spec_range_bits(range);
    assert((bits << 5) >> 5 == bits) by (bit_vector)
        requires
            bits <= 7,
    ;
    assert(spec_range_from_bits(bits) == Some(range));
}

} // verus!
