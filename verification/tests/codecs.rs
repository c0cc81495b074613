#![allow(non_snake_case)]

use l3g4200d::config::{ctrlreg1, ctrlreg2, ctrlreg3, ctrlreg4, ctrlreg5};

#[test]
fn default_config_reg_1() {
    let config: ctrlreg1::Value = ctrlreg1::Value::default();
    assert_eq!(config.to_value(), 0x67);
}

#[test]
fn parse_config_reg_1_1() {
    let config: ctrlreg1::Value = ctrlreg1::Value {
        dr_bw: ctrlreg1::DataRateBandwidth::ODR_200_CUT_OFF_70(),
        power_down_mode_enable: ctrlreg1::PowerDownMode::NORMAL_MODE(),
        x_enable: false,
        y_enable: false,
        z_enable: true,
    };
    assert_eq!(config.to_value(), 0x7C);
}

#[test]
fn parse_config_reg_1_from_u8_1() {
    let config: ctrlreg1::Value = ctrlreg1::Value::from(0x6F);
    println!("{:?}", config);
}

#[test]
fn default_config_reg_4() {
    let config: ctrlreg4::Value = ctrlreg4::Value::default();
    assert_eq!(config.to_value(), 0x0);
}

#[test]
fn parse_config_reg_4_from_u8_1() {
    let config: ctrlreg4::Value = ctrlreg4::Value::from(0x20);
    assert_eq!(config.to_value(), 0x20);
}

#[test]
fn config_reg_1_decodes_each_sub_field() {
    let config = ctrlreg1::Value::from(0x6F);
    assert_eq!(config.dr_bw, ctrlreg1::DataRateBandwidth::ODR_200_CUT_OFF_50());
    assert_eq!(config.power_down_mode_enable, ctrlreg1::PowerDownMode::NORMAL_MODE());
    assert!(config.x_enable);
    assert!(config.y_enable);
    assert!(config.z_enable);
    assert_eq!(config.to_value(), 0x6F);

    let config = ctrlreg1::Value::from(0x92);
    assert_eq!(config.dr_bw, ctrlreg1::DataRateBandwidth::ODR_400_CUT_OFF_25());
    assert_eq!(config.power_down_mode_enable, ctrlreg1::PowerDownMode::POWER_DOWN_MODE_ENABLE());
    assert!(!config.x_enable);
    assert!(config.y_enable);
    assert!(!config.z_enable);
}

#[test]
fn config_reg_1_encodes_every_data_rate() {
    let rates = [
        (ctrlreg1::DataRateBandwidth::ODR_100_CUT_OFF_12_5(), 0x00u8),
        (ctrlreg1::DataRateBandwidth::ODR_100_CUT_OFF_25(), 0x10),
        (ctrlreg1::DataRateBandwidth::ODR_200_CUT_OFF_12_5(), 0x40),
        (ctrlreg1::DataRateBandwidth::ODR_200_CUT_OFF_25(), 0x50),
        (ctrlreg1::DataRateBandwidth::ODR_200_CUT_OFF_50(), 0x60),
        (ctrlreg1::DataRateBandwidth::ODR_200_CUT_OFF_70(), 0x70),
        (ctrlreg1::DataRateBandwidth::ODR_400_CUT_OFF_20(), 0x80),
        (ctrlreg1::DataRateBandwidth::ODR_400_CUT_OFF_25(), 0x90),
        (ctrlreg1::DataRateBandwidth::ODR_400_CUT_OFF_50(), 0xA0),
        (ctrlreg1::DataRateBandwidth::ODR_400_CUT_OFF_110(), 0xB0),
        (ctrlreg1::DataRateBandwidth::ODR_800_CUT_OFF_30(), 0xC0),
        (ctrlreg1::DataRateBandwidth::ODR_800_CUT_OFF_35(), 0xD0),
        (ctrlreg1::DataRateBandwidth::ODR_800_CUT_OFF_50(), 0xE0),
        (ctrlreg1::DataRateBandwidth::ODR_800_CUT_OFF_110(), 0xF0),
    ];
    for (dr_bw, code) in rates {
        let config = ctrlreg1::Value {
            dr_bw,
            power_down_mode_enable: ctrlreg1::PowerDownMode::POWER_DOWN_MODE_ENABLE(),
            x_enable: false,
            y_enable: false,
            z_enable: false,
        };
        assert_eq!(config.to_value(), code);
        assert_eq!(ctrlreg1::Value::from(code), config);
    }
}

#[test]
fn config_reg_1_sleep_mode_sets_the_power_bit() {
    assert_eq!(ctrlreg1::PowerDownMode::SLEEP_MODE(), ctrlreg1::PowerDownMode::NORMAL_MODE());
    let config = ctrlreg1::Value {
        dr_bw: ctrlreg1::DataRateBandwidth::ODR_100_CUT_OFF_12_5(),
        power_down_mode_enable: ctrlreg1::PowerDownMode::SLEEP_MODE(),
        x_enable: false,
        y_enable: false,
        z_enable: false,
    };
    assert_eq!(config.to_value(), 0x08);
}

#[test]
fn config_reg_1_axis_bits() {
    let base = ctrlreg1::Value {
        dr_bw: ctrlreg1::DataRateBandwidth::ODR_100_CUT_OFF_12_5(),
        power_down_mode_enable: ctrlreg1::PowerDownMode::POWER_DOWN_MODE_ENABLE(),
        x_enable: false,
        y_enable: false,
        z_enable: false,
    };
    assert_eq!(base.to_value(), 0x00);
    assert_eq!(ctrlreg1::Value { x_enable: true, ..base }.to_value(), 0x01);
    assert_eq!(ctrlreg1::Value { y_enable: true, ..base }.to_value(), 0x02);
    assert_eq!(ctrlreg1::Value { z_enable: true, ..base }.to_value(), 0x04);
}

#[test]
fn config_reg_1_round_trips_every_byte() {
    for byte in 0..=255u8 {
        let config = ctrlreg1::Value::from(byte);
        assert_eq!(config.to_value(), byte);
        assert_eq!(ctrlreg1::Value::from(config.to_value()), config);
    }
}

#[test]
fn default_config_reg_2() {
    let config = ctrlreg2::Value::default();
    assert_eq!(config.hpm, ctrlreg2::HighPassFilterMode::NORMAL_MODE());
    assert_eq!(config.hpcf, ctrlreg2::HighPassFilterCutOff::ODR_100_8_HZ());
    assert_eq!(config.to_value(), 0x20);
}

#[test]
fn config_reg_2_encodes_mode_and_cut_off() {
    let modes = [
        (ctrlreg2::HighPassFilterMode::HP_RESET_FILTER(), 0x00u8),
        (ctrlreg2::HighPassFilterMode::REFERENCE_SIGNAL(), 0x10),
        (ctrlreg2::HighPassFilterMode::NORMAL_MODE(), 0x20),
        (ctrlreg2::HighPassFilterMode::AUTORESET_ON_INT(), 0x30),
    ];
    for (hpm, code) in modes {
        let config = ctrlreg2::Value { hpm, hpcf: ctrlreg2::HighPassFilterCutOff::ODR_100_10_mHZ() };
        assert_eq!(config.to_value(), code | 0x09);
        assert_eq!(ctrlreg2::Value::from(code | 0x09), config);
    }
}

#[test]
fn config_reg_2_cut_off_names_share_their_code_across_data_rates() {
    let rows = [
        [
            ctrlreg2::HighPassFilterCutOff::ODR_100_8_HZ(),
            ctrlreg2::HighPassFilterCutOff::ODR_200_15_HZ(),
            ctrlreg2::HighPassFilterCutOff::ODR_400_30_HZ(),
            ctrlreg2::HighPassFilterCutOff::ODR_800_46_HZ(),
        ],
        [
            ctrlreg2::HighPassFilterCutOff::ODR_100_4_HZ(),
            ctrlreg2::HighPassFilterCutOff::ODR_200_8_HZ(),
            ctrlreg2::HighPassFilterCutOff::ODR_400_15_HZ(),
            ctrlreg2::HighPassFilterCutOff::ODR_800_30_HZ(),
        ],
        [
            ctrlreg2::HighPassFilterCutOff::ODR_100_2_HZ(),
            ctrlreg2::HighPassFilterCutOff::ODR_200_4_HZ(),
            ctrlreg2::HighPassFilterCutOff::ODR_400_8_HZ(),
            ctrlreg2::HighPassFilterCutOff::ODR_800_15_HZ(),
        ],
        [
            ctrlreg2::HighPassFilterCutOff::ODR_100_1_HZ(),
            ctrlreg2::HighPassFilterCutOff::ODR_200_2_HZ(),
            ctrlreg2::HighPassFilterCutOff::ODR_400_4_HZ(),
            ctrlreg2::HighPassFilterCutOff::ODR_800_8_HZ(),
        ],
        [
            ctrlreg2::HighPassFilterCutOff::ODR_100_500_mHZ(),
            ctrlreg2::HighPassFilterCutOff::ODR_200_1_HZ(),
            ctrlreg2::HighPassFilterCutOff::ODR_400_2_HZ(),
            ctrlreg2::HighPassFilterCutOff::ODR_800_4_HZ(),
        ],
        [
            ctrlreg2::HighPassFilterCutOff::ODR_100_200_mHZ(),
            ctrlreg2::HighPassFilterCutOff::ODR_200_500_mHZ(),
            ctrlreg2::HighPassFilterCutOff::ODR_400_1_HZ(),
            ctrlreg2::HighPassFilterCutOff::ODR_800_2_HZ(),
        ],
        [
            ctrlreg2::HighPassFilterCutOff::ODR_100_100_mHZ(),
            ctrlreg2::HighPassFilterCutOff::ODR_200_200_mHZ(),
            ctrlreg2::HighPassFilterCutOff::ODR_400_500_mHZ(),
            ctrlreg2::HighPassFilterCutOff::ODR_800_1_HZ(),
        ],
        [
            ctrlreg2::HighPassFilterCutOff::ODR_100_50_mHZ(),
            ctrlreg2::HighPassFilterCutOff::ODR_200_100_mHZ(),
            ctrlreg2::HighPassFilterCutOff::ODR_400_200_mHZ(),
            ctrlreg2::HighPassFilterCutOff::ODR_800_500_mHZ(),
        ],
        [
            ctrlreg2::HighPassFilterCutOff::ODR_100_20_mHZ(),
            ctrlreg2::HighPassFilterCutOff::ODR_200_50_mHZ(),
            ctrlreg2::HighPassFilterCutOff::ODR_400_100_mHZ(),
            ctrlreg2::HighPassFilterCutOff::ODR_800_200_mHZ(),
        ],
        [
            ctrlreg2::HighPassFilterCutOff::ODR_100_10_mHZ(),
            ctrlreg2::HighPassFilterCutOff::ODR_200_20_mHZ(),
            ctrlreg2::HighPassFilterCutOff::ODR_400_50_mHZ(),
            ctrlreg2::HighPassFilterCutOff::ODR_800_100_mHZ(),
        ],
    ];
    for (code, row) in rows.into_iter().enumerate() {
        for hpcf in row {
            let config = ctrlreg2::Value { hpm: ctrlreg2::HighPassFilterMode::HP_RESET_FILTER(), hpcf };
            assert_eq!(config.to_value(), code as u8);
        }
    }
}

#[test]
fn config_reg_2_drops_the_two_top_bits() {
    for byte in 0..=255u8 {
        let config = ctrlreg2::Value::from(byte);
        assert_eq!(config.to_value(), byte & 0x3F);
        assert_eq!(ctrlreg2::Value::from(config.to_value()), config);
    }
    assert_eq!(ctrlreg2::Value::from(0xE5).to_value(), 0x25);
}

#[test]
fn default_config_reg_3() {
    let config = ctrlreg3::Value::default();
    assert_eq!(config.to_value(), 0x00);
}

#[test]
fn config_reg_3_has_one_bit_per_flag() {
    let none = ctrlreg3::Value::default();
    assert_eq!(ctrlreg3::Value { i1_int1: true, ..none }.to_value(), 0x80);
    assert_eq!(ctrlreg3::Value { i1_boot1: true, ..none }.to_value(), 0x40);
    assert_eq!(ctrlreg3::Value { h_lactive: true, ..none }.to_value(), 0x20);
    assert_eq!(ctrlreg3::Value { pp_od: true, ..none }.to_value(), 0x10);
    assert_eq!(ctrlreg3::Value { i2_drdy: true, ..none }.to_value(), 0x08);
    assert_eq!(ctrlreg3::Value { i2_wtm: true, ..none }.to_value(), 0x04);
    assert_eq!(ctrlreg3::Value { i2_orun: true, ..none }.to_value(), 0x02);
    assert_eq!(ctrlreg3::Value { i2_empty: true, ..none }.to_value(), 0x01);
    let decoded = ctrlreg3::Value::from(0xA5);
    assert_eq!(
        decoded,
        ctrlreg3::Value {
            i1_int1: true,
            i1_boot1: false,
            h_lactive: true,
            pp_od: false,
            i2_drdy: false,
            i2_wtm: true,
            i2_orun: false,
            i2_empty: true,
        }
    );
}

#[test]
fn config_reg_3_round_trips_every_byte() {
    for byte in 0..=255u8 {
        let config = ctrlreg3::Value::from(byte);
        assert_eq!(config.to_value(), byte);
        assert_eq!(ctrlreg3::Value::from(config.to_value()), config);
    }
}

#[test]
fn config_reg_4_encodes_each_sub_field() {
    let base = ctrlreg4::Value::default();
    assert_eq!(
        ctrlreg4::Value { block_data_update: ctrlreg4::BlockDataUpdate::WAIT_FOR_READING(), ..base }.to_value(),
        0x80
    );
    assert_eq!(
        ctrlreg4::Value { block_data_update: ctrlreg4::BlockDataUpdate::CONTINUOUS_UPDATE(), ..base }.to_value(),
        0x00
    );
    assert_eq!(
        ctrlreg4::Value { big_little_endian: ctrlreg4::BigLittleEndian::BIG_ENDIAN(), ..base }.to_value(),
        0x40
    );
    assert_eq!(
        ctrlreg4::Value { big_little_endian: ctrlreg4::BigLittleEndian::LITTLE_ENDIAN(), ..base }.to_value(),
        0x00
    );
    assert_eq!(
        ctrlreg4::Value { full_scale_select: ctrlreg4::FullScaleSelection::FSS_250_DPS(), ..base }.to_value(),
        0x00
    );
    assert_eq!(
        ctrlreg4::Value { full_scale_select: ctrlreg4::FullScaleSelection::FSS_500_DPS(), ..base }.to_value(),
        0x10
    );
    assert_eq!(
        ctrlreg4::Value { full_scale_select: ctrlreg4::FullScaleSelection::FSS_2000_DPS(), ..base }.to_value(),
        0x20
    );
    assert_eq!(
        ctrlreg4::Value { self_test_enabled: ctrlreg4::SelfTestEnabled::NORMAL_MODE(), ..base }.to_value(),
        0x00
    );
    assert_eq!(
        ctrlreg4::Value { self_test_enabled: ctrlreg4::SelfTestEnabled::SELF_TEST_0(), ..base }.to_value(),
        0x02
    );
    assert_eq!(
        ctrlreg4::Value { self_test_enabled: ctrlreg4::SelfTestEnabled::SELF_TEST_1(), ..base }.to_value(),
        0x06
    );
    assert_eq!(
        ctrlreg4::Value { serial_interface_mode: ctrlreg4::SerialInterfaceMode::SPI_3_WIRE(), ..base }.to_value(),
        0x01
    );
    assert_eq!(
        ctrlreg4::Value { serial_interface_mode: ctrlreg4::SerialInterfaceMode::SPI_4_WIRE(), ..base }.to_value(),
        0x00
    );
}

#[test]
fn config_reg_4_self_test_leaves_the_serial_mode_bit_alone() {
    let four_wire = ctrlreg4::Value {
        self_test_enabled: ctrlreg4::SelfTestEnabled::SELF_TEST_1(),
        serial_interface_mode: ctrlreg4::SerialInterfaceMode::SPI_4_WIRE(),
        ..ctrlreg4::Value::default()
    };
    assert_eq!(four_wire.to_value() & 0x01, 0x00);
    assert_eq!(ctrlreg4::Value::from(four_wire.to_value()), four_wire);

    let three_wire = ctrlreg4::Value::from(0x01);
    assert_eq!(three_wire.self_test_enabled, ctrlreg4::SelfTestEnabled::NORMAL_MODE());
    assert_eq!(three_wire.serial_interface_mode, ctrlreg4::SerialInterfaceMode::SPI_3_WIRE());

    let both = ctrlreg4::Value::from(0x07);
    assert_eq!(both.self_test_enabled, ctrlreg4::SelfTestEnabled::SELF_TEST_1());
    assert_eq!(both.serial_interface_mode, ctrlreg4::SerialInterfaceMode::SPI_3_WIRE());
    assert_eq!(both.to_value(), 0x07);
}

#[test]
fn config_reg_4_drops_bit_3() {
    for byte in 0..=255u8 {
        let config = ctrlreg4::Value::from(byte);
        assert_eq!(config.to_value(), byte & 0xF7);
        assert_eq!(ctrlreg4::Value::from(config.to_value()), config);
    }
    assert_eq!(ctrlreg4::Value::from(0x08).to_value(), 0x00);
}

#[test]
fn default_config_reg_5() {
    let config = ctrlreg5::Value::default();
    assert_eq!(config.reboot_memory_content, ctrlreg5::RebootMemoryContent::NORMAL_MODE());
    assert_eq!(config.filtering_configuration, ctrlreg5::FilteringConfiguration::OUT_LPF1_INT_LPF1());
    assert!(!config.fifo_enable);
    assert_eq!(config.to_value(), 0x00);
}

#[test]
fn config_reg_5_encodes_each_sub_field() {
    let base = ctrlreg5::Value::default();
    assert_eq!(
        ctrlreg5::Value { reboot_memory_content: ctrlreg5::RebootMemoryContent::REBOOT_MEMORY_CONTENT(), ..base }
            .to_value(),
        0x80
    );
    assert_eq!(ctrlreg5::Value { fifo_enable: true, ..base }.to_value(), 0x40);
    let routings = [
        (ctrlreg5::FilteringConfiguration::OUT_LPF1_INT_LPF1(), 0x00u8),
        (ctrlreg5::FilteringConfiguration::OUT_LPF1_HPF_INT_LPF1(), 0x01),
        (ctrlreg5::FilteringConfiguration::OUT_LPF1_LPF2_INT_LPF1(), 0x02),
        (ctrlreg5::FilteringConfiguration::OUT_LPF1_INT_LPF1_HPF(), 0x04),
        (ctrlreg5::FilteringConfiguration::OUT_LPF1_HPF_INT_LPF1_HPF(), 0x05),
        (ctrlreg5::FilteringConfiguration::OUT_LPF1_LPF2_INT_LPF1_HPF(), 0x06),
        (ctrlreg5::FilteringConfiguration::OUT_LPF1_INT_LPF1_LPF2(), 0x08),
        (ctrlreg5::FilteringConfiguration::OUT_LPF1_HPF_INT_LPF1_LPF2(), 0x09),
        (ctrlreg5::FilteringConfiguration::OUT_LPF1_LPF2_INT_LPF1_LPF2(), 0x0A),
        (ctrlreg5::FilteringConfiguration::OUT_LPF1_HPF_LPF2_INT_LPF1(), 0x12),
        (ctrlreg5::FilteringConfiguration::OUT_LPF1_HPF_LPF2_INT_LPF1_HPF_LPF2(), 0x1A),
    ];
    for (filtering_configuration, code) in routings {
        let config = ctrlreg5::Value { filtering_configuration, ..base };
        assert_eq!(config.to_value(), code);
        assert_eq!(ctrlreg5::Value::from(code), config);
    }
}

#[test]
fn config_reg_5_carries_codes_without_a_name() {
    for code in [0x03u8, 0x07, 0x0B, 0x0F, 0x10, 0x11, 0x13, 0x1F] {
        let config = ctrlreg5::Value::from(code);
        assert_eq!(config.to_value(), code);
        assert_ne!(config.filtering_configuration, ctrlreg5::FilteringConfiguration::OUT_LPF1_INT_LPF1());
    }
}

#[test]
fn config_reg_5_drops_bit_5() {
    for byte in 0..=255u8 {
        let config = ctrlreg5::Value::from(byte);
        assert_eq!(config.to_value(), byte & 0xDF);
        assert_eq!(ctrlreg5::Value::from(config.to_value()), config);
    }
    assert_eq!(ctrlreg5::Value::from(0x20).to_value(), 0x00);
}
