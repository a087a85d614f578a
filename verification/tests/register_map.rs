//! Cross-checks of the driver's register model against the typed register
//! map of the device.

use l3gd20_registers::Bandwidth;
use l3gd20_registers::ControlRegister1;
use l3gd20_registers::ControlRegister2;
use l3gd20_registers::ControlRegister3;
use l3gd20_registers::ControlRegister4;
use l3gd20_registers::ControlRegister5;
use l3gd20_registers::HighpassFilterMode;
use l3gd20_registers::OutXHigh;
use l3gd20_registers::OutXLow;
use l3gd20_registers::OutputDataRate;
use l3gd20_registers::RegisterAddress;
use l3gd20_registers::Sensitivity;
use l3gd20_registers::StatusRegister;

#[test]
fn register_addresses_match_the_map() {
    assert_eq!(l3gd20::registers::WHO_AM_I, RegisterAddress::WHO_AM_I.addr());
    assert_eq!(l3gd20::registers::CTRL_REG1, RegisterAddress::CTRL_REG1.addr());
    assert_eq!(l3gd20::registers::CTRL_REG2, RegisterAddress::CTRL_REG2.addr());
    assert_eq!(l3gd20::registers::CTRL_REG3, RegisterAddress::CTRL_REG3.addr());
    assert_eq!(l3gd20::registers::CTRL_REG4, RegisterAddress::CTRL_REG4.addr());
    assert_eq!(l3gd20::registers::CTRL_REG5, RegisterAddress::CTRL_REG5.addr());
    assert_eq!(l3gd20::registers::OUT_TEMP, RegisterAddress::OUT_TEMP.addr());
    assert_eq!(l3gd20::registers::STATUS_REG, RegisterAddress::STATUS_REG.addr());
    assert_eq!(l3gd20::registers::OUT_X_L, RegisterAddress::OUT_X_L.addr());
}

#[test]
fn device_id_matches_the_map() {
    assert_eq!(l3gd20::registers::DEVICE_ID, 0b1101_0100);
}

#[test]
fn status_bits_match_the_map_for_every_byte() {
    for bits in 0..=255u8 {
        let ours = l3gd20::registers::StatusFlags::from_bits(bits);
        let map = StatusRegister::from_bits(bits);
        assert_eq!(ours.x_da(), map.x_da());
        assert_eq!(ours.y_da(), map.y_da());
        assert_eq!(ours.z_da(), map.z_da());
        assert_eq!(ours.x_overrun(), map.x_overrun());
        assert_eq!(ours.y_overrun(), map.y_overrun());
        assert_eq!(ours.z_overrun(), map.z_overrun());
    }
}

#[test]
fn reset_register_values_match_the_typed_builders() {
    let reg1 = ControlRegister1::default()
        .with_power_up(true)
        .with_x_enable(true)
        .with_y_enable(true)
        .with_z_enable(true)
        .with_output_data_rate(OutputDataRate::Hz95)
        .with_bandwidth(Bandwidth::Narrowest);
    assert_eq!(reg1.into_bits(), 0x0f);

    let reg2 = ControlRegister2::default()
        .with_hpm(HighpassFilterMode::NormalModeResetFilter)
        .with_hpcf(0);
    assert_eq!(reg2.into_bits(), 0x00);

    let reg3 = ControlRegister3::default()
        .with_i1int1(false)
        .with_i1boot(false)
        .with_int1_low(false)
        .with_i2drdy(false)
        .with_i2wtm(false)
        .with_i2orun(false)
        .with_i2empty(false)
        .with_open_drain(false);
    assert_eq!(reg3.into_bits(), 0x00);

    let reg4 = ControlRegister4::default()
        .with_block_data_update(false)
        .with_big_endian(false)
        .with_full_scale(Sensitivity::D250)
        .with_spi_serial_3wire(false);
    assert_eq!(reg4.into_bits(), 0x00);

    assert_eq!(ControlRegister5::default().with_boot(true).into_bits(), 0x80);
    let reg5 = ControlRegister5::default()
        .with_boot(false)
        .with_fifo_enable(false)
        .with_hpen(false)
        .with_int1_sel(0)
        .with_out_sel(0);
    assert_eq!(reg5.into_bits(), 0x00);
}

#[test]
fn configuration_encodings_match_the_map() {
    let pairs = [
        (l3gd20::registers::OutputDataRate::Hz95, OutputDataRate::Hz95),
        (l3gd20::registers::OutputDataRate::Hz190, OutputDataRate::Hz190),
        (l3gd20::registers::OutputDataRate::Hz380, OutputDataRate::Hz380),
        (l3gd20::registers::OutputDataRate::Hz760, OutputDataRate::Hz760),
    ];
    for (ours, map) in pairs {
        assert_eq!(l3gd20::registers::odr_bits(ours), map.into_bits());
        let reg = ControlRegister1::default().with_output_data_rate(map);
        assert_eq!(l3gd20::registers::odr_of_ctrl1(reg.into_bits()), ours);
    }

    let pairs = [
        (l3gd20::registers::Bandwidth::Narrowest, Bandwidth::Narrowest),
        (l3gd20::registers::Bandwidth::Narrow, Bandwidth::Narrow),
        (l3gd20::registers::Bandwidth::Medium, Bandwidth::Medium),
        (l3gd20::registers::Bandwidth::Wide, Bandwidth::Wide),
    ];
    for (ours, map) in pairs {
        assert_eq!(l3gd20::registers::bandwidth_bits(ours), map.into_bits());
        let reg = ControlRegister1::default().with_bandwidth(map);
        assert_eq!(l3gd20::registers::bandwidth_of_ctrl1(reg.into_bits()), ours);
    }

    let pairs = [
        (l3gd20::registers::FullScale::Dps250, Sensitivity::D250),
        (l3gd20::registers::FullScale::Dps500, Sensitivity::D500),
        (l3gd20::registers::FullScale::Dps2000, Sensitivity::D2000),
        (l3gd20::registers::FullScale::Dps2000Alt, Sensitivity::D2000_11),
    ];
    for (ours, map) in pairs {
        let reg = ControlRegister4::default().with_full_scale(map);
        assert_eq!(l3gd20::registers::full_scale_of_ctrl4(reg.into_bits()), ours);
    }
}

#[test]
fn axis_assembly_matches_the_map_conversions() {
    let cases: [(u8, u8); 5] = [(0x34, 0x12), (0x00, 0x00), (0xff, 0xff), (0x00, 0x80), (0x01, 0x00)];
    for (lo, hi) in cases {
        let map_value = OutXHigh::from_bits(hi) + OutXLow::from_bits(lo);
        assert_eq!(l3gd20::i16x3::axis_value(lo, hi), map_value);
    }
}
