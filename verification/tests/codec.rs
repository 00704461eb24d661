//! Register encodings: exact values and lossless read-back.

use buskit::lsm303xx::AccelDataRate;
use buskit::lsm303xx::MagnetoDataRate;
use buskit::lsm303xx::Range;
use buskit::lsm303xx::Scale;
use buskit::lsm303xx::decode_cra;
use buskit::lsm303xx::decode_crb;
use buskit::lsm303xx::decode_ctrl1;
use buskit::lsm303xx::decode_ctrl4;
use buskit::lsm303xx::encode_cra;
use buskit::lsm303xx::encode_crb;
use buskit::lsm303xx::encode_ctrl1;
use buskit::lsm303xx::encode_ctrl4;

#[test]
fn ctrl1_exact_encoding() {
    // Rate 25 Hz is pattern 3 in bits 7-4; all axes enabled in bits 2-0.
    assert_eq!(encode_ctrl1(AccelDataRate::DataRate25Hz, false), 0x37);
    assert_eq!(encode_ctrl1(AccelDataRate::DataRate25Hz, true), 0x3f);
    assert_eq!(encode_ctrl1(AccelDataRate::PowerDown, false), 0x07);
}

#[test]
fn ctrl4_exact_encoding() {
    assert_eq!(encode_ctrl4(Scale::Scale2G, false), 0x00);
    assert_eq!(encode_ctrl4(Scale::Scale4G, true), 0x18);
    assert_eq!(encode_ctrl4(Scale::Scale16G, false), 0x30);
}

#[test]
fn mag_register_exact_encoding() {
    assert_eq!(encode_cra(MagnetoDataRate::DataRate3_0Hz), 0x08);
    assert_eq!(encode_cra(MagnetoDataRate::DataRate220_0Hz), 0x1c);
    assert_eq!(encode_crb(Range::Range4_7G), 0xa0);
    assert_eq!(encode_crb(Range::Range1_3G), 0x20);
}

#[test]
fn every_rate_and_scale_reads_back() {
    let rates = [
        AccelDataRate::PowerDown,
        AccelDataRate::DataRate1Hz,
        AccelDataRate::DataRate10Hz,
        AccelDataRate::DataRate25Hz,
        AccelDataRate::DataRate50Hz,
        AccelDataRate::DataRate100Hz,
        AccelDataRate::DataRate200Hz,
        AccelDataRate::DataRate400Hz,
        AccelDataRate::LowPower1620Hz,
        AccelDataRate::Normal1344LowPower5376Hz,
    ];
    for rate in rates {
        for low_power in [false, true] {
            assert_eq!(decode_ctrl1(encode_ctrl1(rate, low_power)), Some((rate, low_power)));
        }
    }
    let scales = [Scale::Scale2G, Scale::Scale4G, Scale::Scale8G, Scale::Scale16G];
    for scale in scales {
        for high_resolution in [false, true] {
            assert_eq!(
                decode_ctrl4(encode_ctrl4(scale, high_resolution)),
                Some((scale, high_resolution))
            );
        }
    }
}

#[test]
fn every_mag_rate_and_range_reads_back() {
    let rates = [
        MagnetoDataRate::DataRate0_75Hz,
        MagnetoDataRate::DataRate1_5Hz,
        MagnetoDataRate::DataRate3_0Hz,
        MagnetoDataRate::DataRate7_5Hz,
        MagnetoDataRate::DataRate15_0Hz,
        MagnetoDataRate::DataRate30_0Hz,
        MagnetoDataRate::DataRate75_0Hz,
        MagnetoDataRate::DataRate220_0Hz,
    ];
    for rate in rates {
        assert_eq!(decode_cra(encode_cra(rate)), Some(rate));
    }
    let ranges = [
        Range::Range1_3G,
        Range::Range1_9G,
        Range::Range2_5G,
        Range::Range4_0G,
        Range::Range4_7G,
        Range::Range5_6G,
        Range::Range8_1G,
    ];
    for range in ranges {
        assert_eq!(decode_crb(encode_crb(range)), Some(range));
    }
}

#[test]
fn unconfigured_registers_do_not_decode() {
    // Rate patterns 10 through 15 and range pattern 0 name no setting.
    assert_eq!(decode_ctrl1(0xa7), None);
    assert_eq!(decode_crb(0x00), None);
}
