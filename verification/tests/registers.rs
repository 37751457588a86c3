use wm8904::{Register, DEVICE_ADDRESS};

fn register_map() -> Vec<(Register, u8)> {
    vec![
        (Register::SW_RESET_ID, 0x00),
        (Register::BIAS_CONTROL_0, 0x04),
        (Register::VMID_CONTROL_0, 0x05),
        (Register::MISC_BIAS_CONTROL_0, 0x06),
        (Register::MISC_BIAS_CONTROL_1, 0x07),
        (Register::ANALOG_ADC_0, 0x0A),
        (Register::POWER_MGMT_0, 0x0C),
        (Register::POWER_MGMT_2, 0x0E),
        (Register::POWER_MGMT_3, 0x0F),
        (Register::POWER_MGMT_6, 0x12),
        (Register::CLK_RATES_0, 0x14),
        (Register::CLK_RATES_1, 0x15),
        (Register::CLK_RATES_2, 0x16),
        (Register::AUDIO_IF_0, 0x18),
        (Register::AUDIO_IF_1, 0x19),
        (Register::AUDIO_IF_2, 0x1A),
        (Register::AUDIO_IF_3, 0x1B),
        (Register::DAC_VOL_LEFT, 0x1E),
        (Register::DAC_VOL_RIGHT, 0x1F),
        (Register::DAC_DIGITAL_0, 0x20),
        (Register::DAC_DIGITAL_1, 0x21),
        (Register::ADC_DIGITAL_VOL_LEFT, 0x24),
        (Register::ADC_DIGITAL_VOL_RIGHT, 0x25),
        (Register::ADC_DIGITAL_0, 0x26),
        (Register::DIGITAL_MIC_0, 0x27),
        (Register::DRC_0, 0x28),
        (Register::DRC_1, 0x29),
        (Register::DRC_2, 0x2A),
        (Register::ANALOG_LEFT_IN_0, 0x2C),
        (Register::ANALOG_RIGHT_IN_0, 0x2D),
        (Register::ANALOG_LEFT_IN_1, 0x2E),
        (Register::ANALOG_RIGHT_IN_1, 0x2F),
        (Register::ANALOG_OUT1_LEFT, 0x39),
        (Register::ANALOG_OUT1_RIGHT, 0x3A),
        (Register::ANALOG_OUT2_LEFT, 0x3B),
        (Register::ANALOG_OUT2_RIGHT, 0x3C),
        (Register::ANALOG_OUT12_ZC, 0x3D),
        (Register::DC_SERVO_0, 0x43),
        (Register::DC_SERVO_1, 0x44),
        (Register::DC_SERVO_2, 0x45),
        (Register::DC_SERVO_4, 0x47),
        (Register::DC_SERVO_5, 0x48),
        (Register::DC_SERVO_6, 0x49),
        (Register::DC_SERVO_7, 0x4A),
        (Register::DC_SERVO_8, 0x4B),
        (Register::DC_SERVO_9, 0x4C),
        (Register::DC_SERVO_READBACK_0, 0x4D),
        (Register::ANALOG_HP_0, 0x5A),
        (Register::ANALOG_LINEOUT_0, 0x5E),
        (Register::CHRG_PUMP_0, 0x62),
        (Register::CLASS_W, 0x68),
        (Register::WRT_SEQUENCER_0, 0x6C),
        (Register::WRT_SEQUENCER_1, 0x6D),
        (Register::WRT_SEQUENCER_2, 0x6E),
        (Register::WRT_SEQUENCER_3, 0x6F),
        (Register::WRT_SEQUENCER_4, 0x70),
        (Register::FLL_CONTROL_1, 0x74),
        (Register::FLL_CONTROL_2, 0x75),
        (Register::FLL_CONTROL_3, 0x76),
        (Register::FLL_CONTROL_4, 0x77),
        (Register::FLL_CONTROL_5, 0x78),
        (Register::GPIO_CONTROL_1, 0x79),
        (Register::GPIO_CONTROL_2, 0x7A),
        (Register::GPIO_CONTROL_3, 0x7B),
        (Register::GPIO_CONTROL_4, 0x7C),
        (Register::DIGITAL_PULLS, 0x7E),
        (Register::INT_STATUS, 0x7F),
        (Register::INT_STATUS_MASK, 0x80),
        (Register::INT_POLARITY, 0x81),
        (Register::INT_DEBOUNCE, 0x82),
        (Register::EQ1, 0x86),
        (Register::EQ2, 0x87),
        (Register::EQ3, 0x88),
        (Register::EQ4, 0x89),
        (Register::EQ5, 0x8A),
        (Register::EQ6, 0x8B),
        (Register::EQ7, 0x8C),
        (Register::EQ8, 0x8D),
        (Register::EQ9, 0x8E),
        (Register::EQ10, 0x8F),
        (Register::EQ11, 0x90),
        (Register::EQ12, 0x91),
        (Register::EQ13, 0x92),
        (Register::EQ14, 0x93),
        (Register::EQ15, 0x94),
        (Register::EQ16, 0x95),
        (Register::EQ17, 0x96),
        (Register::EQ18, 0x97),
        (Register::EQ19, 0x98),
        (Register::EQ20, 0x99),
        (Register::EQ21, 0x9A),
        (Register::EQ22, 0x9B),
        (Register::EQ23, 0x9C),
        (Register::EQ24, 0x9D),
        (Register::ADC_TEST_0, 0xC6),
        (Register::FLL_NCO_TEST_0, 0xF7),
        (Register::FLL_NCO_TEST_1, 0xF8),
    ]
}

#[test]
fn every_register_has_its_documented_address() {
    let map = register_map();
    assert_eq!(map.len(), 97);
    for (register, address) in map {
        assert_eq!(register.address(), address, "{:?}", register);
    }
}

#[test]
fn conversion_to_byte_gives_the_address() {
    for (register, address) in register_map() {
        assert_eq!(u8::from(register), address, "{:?}", register);
        let raw: u8 = register.into();
        assert_eq!(raw, address);
    }
}

#[test]
fn no_two_registers_share_an_address() {
    let map = register_map();
    for (i, (first, _)) in map.iter().enumerate() {
        for (second, _) in map.iter().skip(i + 1) {
            assert_ne!(first, second);
            assert_ne!(first.address(), second.address(), "{:?} and {:?}", first, second);
        }
    }
}

#[test]
fn addresses_at_the_ends_of_the_map() {
    assert_eq!(Register::SW_RESET_ID.address(), 0x00);
    assert_eq!(Register::FLL_NCO_TEST_1.address(), 0xF8);
}

#[test]
fn sequencer_status_register_is_at_0x70() {
    assert_eq!(Register::WRT_SEQUENCER_4.address(), 0x70);
}

#[test]
fn registers_compare_and_copy() {
    let register = Register::DAC_VOL_LEFT;
    let copy = register;
    assert_eq!(register, copy);
    assert_ne!(register, Register::DAC_VOL_RIGHT);
    assert_eq!(format!("{:?}", register), "DAC_VOL_LEFT");
}

#[test]
fn default_device_address() {
    assert_eq!(DEVICE_ADDRESS, 0x1A);
}
