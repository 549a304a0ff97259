use fdc1004::FDCConfiguration;
use fdc1004::InvalidChannelCode;
use fdc1004::MeasurementConfiguration;
use fdc1004::CHANNEL;

fn all_channels() -> Vec<CHANNEL> {
    vec![CHANNEL::CIN1, CHANNEL::CIN2, CHANNEL::CIN3, CHANNEL::CIN4]
}

#[test]
fn channel_codes_are_exact() {
    assert_eq!(CHANNEL::CIN1.into_bits(), 0);
    assert_eq!(CHANNEL::CIN2.into_bits(), 1);
    assert_eq!(CHANNEL::CIN3.into_bits(), 2);
    assert_eq!(CHANNEL::CIN4.into_bits(), 3);
}

#[test]
fn channel_round_trips_for_all_channels() {
    for c in all_channels() {
        assert_eq!(CHANNEL::from_bits(c.into_bits()), Ok(c));
    }
}

#[test]
fn channel_invalid_codes_are_rejected() {
    for code in [4u16, 5, 6, 7] {
        assert_eq!(CHANNEL::from_bits(code), Err(InvalidChannelCode));
    }
}

#[test]
fn measurement_configuration_encoding_is_exact() {
    let config = MeasurementConfiguration {
        channel_positive: CHANNEL::CIN2,
        channel_negative: CHANNEL::CIN4,
        offset_capacitance: 21,
    };
    // CIN2 (code 1) in bits 10..=8, CIN4 (code 3) in bits 7..=5, 21 in bits 4..=0.
    assert_eq!(config.into_bits(), 0x0175);

    let zero = MeasurementConfiguration {
        channel_positive: CHANNEL::CIN1,
        channel_negative: CHANNEL::CIN1,
        offset_capacitance: 0,
    };
    assert_eq!(zero.into_bits(), 0x0000);

    let max = MeasurementConfiguration {
        channel_positive: CHANNEL::CIN4,
        channel_negative: CHANNEL::CIN3,
        offset_capacitance: 31,
    };
    assert_eq!(max.into_bits(), 0x035F);
}

#[test]
fn measurement_configuration_round_trips_for_all_valid_values() {
    for cp in all_channels() {
        for cn in all_channels() {
            for offset in 0u8..32 {
                let config = MeasurementConfiguration {
                    channel_positive: cp,
                    channel_negative: cn,
                    offset_capacitance: offset,
                };
                assert_eq!(MeasurementConfiguration::from_bits(config.into_bits()), Ok(config));
            }
        }
    }
}

#[test]
fn measurement_configuration_decode_ignores_unused_high_bits() {
    let config = MeasurementConfiguration {
        channel_positive: CHANNEL::CIN2,
        channel_negative: CHANNEL::CIN4,
        offset_capacitance: 21,
    };
    assert_eq!(MeasurementConfiguration::from_bits(0xF800 | 0x0175), Ok(config));
}

#[test]
fn measurement_configuration_invalid_channel_fields_are_rejected() {
    // Positive-channel field holds code 4.
    assert_eq!(MeasurementConfiguration::from_bits(4 << 8), Err(InvalidChannelCode));
    // Negative-channel field holds code 7.
    assert_eq!(MeasurementConfiguration::from_bits(7 << 5), Err(InvalidChannelCode));
}

fn control_value() -> FDCConfiguration {
    FDCConfiguration {
        done_4: false,
        done_3: false,
        done_2: false,
        done_1: false,
        meas_4: false,
        meas_3: false,
        meas_2: false,
        meas_1: true,
        repeat: true,
        rate: 2,
        reset: false,
    }
}

#[test]
fn control_encoding_is_exact() {
    // meas_1 in bit 8, repeat in bit 7, rate 2 in bits 5..=4.
    assert_eq!(control_value().into_bits(), 0x01A0);
}

#[test]
fn control_round_trips_with_done_flags_false() {
    for rate in 0u8..4 {
        for reset in [false, true] {
            for repeat in [false, true] {
                for meas_1 in [false, true] {
                    let config = FDCConfiguration {
                        done_4: false,
                        done_3: false,
                        done_2: false,
                        done_1: false,
                        meas_4: !meas_1,
                        meas_3: false,
                        meas_2: true,
                        meas_1,
                        repeat,
                        rate,
                        reset,
                    };
                    assert_eq!(FDCConfiguration::from_bits(config.into_bits()), config);
                }
            }
        }
    }
}

#[test]
fn control_encoding_never_asserts_done_flags() {
    // Every done flag set on input; all writable bits set as well.
    let config = FDCConfiguration {
        done_4: true,
        done_3: true,
        done_2: true,
        done_1: true,
        meas_4: true,
        meas_3: true,
        meas_2: true,
        meas_1: true,
        repeat: true,
        rate: 3,
        reset: true,
    };
    let bits = config.into_bits();
    assert_eq!(bits & 0xF000, 0);
    assert_eq!(bits, 0x0FB1);

    // The done flags read back as false after the round trip.
    let decoded = FDCConfiguration::from_bits(bits);
    assert!(!decoded.done_4 && !decoded.done_3 && !decoded.done_2 && !decoded.done_1);
}

#[test]
fn control_decode_reads_hardware_done_flags() {
    let decoded = FDCConfiguration::from_bits(0xF000);
    assert!(decoded.done_4 && decoded.done_3 && decoded.done_2 && decoded.done_1);
    assert!(!decoded.meas_4 && !decoded.meas_3 && !decoded.meas_2 && !decoded.meas_1);
    assert!(!decoded.repeat && !decoded.reset);
    assert_eq!(decoded.rate, 0);

    let decoded = FDCConfiguration::from_bits(0x9000);
    assert!(decoded.done_4 && !decoded.done_3 && !decoded.done_2 && decoded.done_1);
}
