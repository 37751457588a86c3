//! The register map of the codec: every documented register by name, and
//! the one-byte address at which the device answers for it.

use vstd::prelude::*;
use vstd::std_specs::convert::FromSpecImpl;

verus! {

/// A register of the codec.
///
/// The set is closed: only documented registers can be named, so no
/// operation can be aimed at an address the device does not define.
#[allow(dead_code, non_camel_case_types, clippy::upper_case_acronyms)]
#[derive(Copy, Clone, Debug, PartialEq, Eq, Structural)]
pub enum Register {
    SW_RESET_ID,
    BIAS_CONTROL_0,
    VMID_CONTROL_0,
    MISC_BIAS_CONTROL_0,
    MISC_BIAS_CONTROL_1,
    ANALOG_ADC_0,
    POWER_MGMT_0,
    POWER_MGMT_2,
    POWER_MGMT_3,
    POWER_MGMT_6,

    CLK_RATES_0,
    CLK_RATES_1,
    CLK_RATES_2,

    AUDIO_IF_0,
    AUDIO_IF_1,
    AUDIO_IF_2,
    AUDIO_IF_3,

    DAC_VOL_LEFT,
    DAC_VOL_RIGHT,
    DAC_DIGITAL_0,
    DAC_DIGITAL_1,

    ADC_DIGITAL_VOL_LEFT,
    ADC_DIGITAL_VOL_RIGHT,
    ADC_DIGITAL_0,
    DIGITAL_MIC_0,
    DRC_0,
    DRC_1,
    DRC_2,

    ANALOG_LEFT_IN_0,
    ANALOG_RIGHT_IN_0,
    ANALOG_LEFT_IN_1,
    ANALOG_RIGHT_IN_1,

    ANALOG_OUT1_LEFT,
    ANALOG_OUT1_RIGHT,
    ANALOG_OUT2_LEFT,
    ANALOG_OUT2_RIGHT,
    ANALOG_OUT12_ZC,

    DC_SERVO_0,
    DC_SERVO_1,
    DC_SERVO_2,

    DC_SERVO_4,
    DC_SERVO_5,
    DC_SERVO_6,
    DC_SERVO_7,
    DC_SERVO_8,
    DC_SERVO_9,

    DC_SERVO_READBACK_0,

    ANALOG_HP_0,
    ANALOG_LINEOUT_0,

    CHRG_PUMP_0,
    CLASS_W,

    WRT_SEQUENCER_0,
    WRT_SEQUENCER_1,
    WRT_SEQUENCER_2,
    WRT_SEQUENCER_3,
    WRT_SEQUENCER_4,

    FLL_CONTROL_1,
    FLL_CONTROL_2,
    FLL_CONTROL_3,
    FLL_CONTROL_4,
    FLL_CONTROL_5,

    GPIO_CONTROL_1,
    GPIO_CONTROL_2,
    GPIO_CONTROL_3,
    GPIO_CONTROL_4,

    DIGITAL_PULLS,
    INT_STATUS,
    INT_STATUS_MASK,
    INT_POLARITY,
    INT_DEBOUNCE,

    EQ1,
    EQ2,
    EQ3,
    EQ4,
    EQ5,
    EQ6,
    EQ7,
    EQ8,
    EQ9,
    EQ10,
    EQ11,
    EQ12,
    EQ13,
    EQ14,
    EQ15,
    EQ16,
    EQ17,
    EQ18,
    EQ19,
    EQ20,
    EQ21,
    EQ22,
    EQ23,
    EQ24,

    ADC_TEST_0,

    FLL_NCO_TEST_0,
    FLL_NCO_TEST_1,
}

impl Register {
    /// The address of this register in the device's register file.
    pub open spec fn spec_address(self) -> u8 {
        match self {
            Register::SW_RESET_ID => 0x00,
            Register::BIAS_CONTROL_0 => 0x04,
            Register::VMID_CONTROL_0 => 0x05,
            Register::MISC_BIAS_CONTROL_0 => 0x06,
            Register::MISC_BIAS_CONTROL_1 => 0x07,
            Register::ANALOG_ADC_0 => 0x0A,
            Register::POWER_MGMT_0 => 0x0C,
            Register::POWER_MGMT_2 => 0x0E,
            Register::POWER_MGMT_3 => 0x0F,
            Register::POWER_MGMT_6 => 0x12,

            Register::CLK_RATES_0 => 0x14,
            Register::CLK_RATES_1 => 0x15,
            Register::CLK_RATES_2 => 0x16,

            Register::AUDIO_IF_0 => 0x18,
            Register::AUDIO_IF_1 => 0x19,
            Register::AUDIO_IF_2 => 0x1A,
            Register::AUDIO_IF_3 => 0x1B,

            Register::DAC_VOL_LEFT => 0x1E,
            Register::DAC_VOL_RIGHT => 0x1F,
            Register::DAC_DIGITAL_0 => 0x20,
            Register::DAC_DIGITAL_1 => 0x21,

            Register::ADC_DIGITAL_VOL_LEFT => 0x24,
            Register::ADC_DIGITAL_VOL_RIGHT => 0x25,
            Register::ADC_DIGITAL_0 => 0x26,
            Register::DIGITAL_MIC_0 => 0x27,
            Register::DRC_0 => 0x28,
            Register::DRC_1 => 0x29,
            Register::DRC_2 => 0x2A,

            Register::ANALOG_LEFT_IN_0 => 0x2C,
            Register::ANALOG_RIGHT_IN_0 => 0x2D,
            Register::ANALOG_LEFT_IN_1 => 0x2E,
            Register::ANALOG_RIGHT_IN_1 => 0x2F,

            Register::ANALOG_OUT1_LEFT => 0x39,
            Register::ANALOG_OUT1_RIGHT => 0x3A,
            Register::ANALOG_OUT2_LEFT => 0x3B,
            Register::ANALOG_OUT2_RIGHT => 0x3C,
            Register::ANALOG_OUT12_ZC => 0x3D,

            Register::DC_SERVO_0 => 0x43,
            Register::DC_SERVO_1 => 0x44,
            Register::DC_SERVO_2 => 0x45,

            Register::DC_SERVO_4 => 0x47,
            Register::DC_SERVO_5 => 0x48,
            Register::DC_SERVO_6 => 0x49,
            Register::DC_SERVO_7 => 0x4A,
            Register::DC_SERVO_8 => 0x4B,
            Register::DC_SERVO_9 => 0x4C,

            Register::DC_SERVO_READBACK_0 => 0x4D,

            Register::ANALOG_HP_0 => 0x5A,
            Register::ANALOG_LINEOUT_0 => 0x5E,

            Register::CHRG_PUMP_0 => 0x62,
            Register::CLASS_W => 0x68,

            Register::WRT_SEQUENCER_0 => 0x6C,
            Register::WRT_SEQUENCER_1 => 0x6D,
            Register::WRT_SEQUENCER_2 => 0x6E,
            Register::WRT_SEQUENCER_3 => 0x6F,
            Register::WRT_SEQUENCER_4 => 0x70,

            Register::FLL_CONTROL_1 => 0x74,
            Register::FLL_CONTROL_2 => 0x75,
            Register::FLL_CONTROL_3 => 0x76,
            Register::FLL_CONTROL_4 => 0x77,
            Register::FLL_CONTROL_5 => 0x78,

            Register::GPIO_CONTROL_1 => 0x79,
            Register::GPIO_CONTROL_2 => 0x7A,
            Register::GPIO_CONTROL_3 => 0x7B,
            Register::GPIO_CONTROL_4 => 0x7C,

            Register::DIGITAL_PULLS => 0x7E,
            Register::INT_STATUS => 0x7F,
            Register::INT_STATUS_MASK => 0x80,
            Register::INT_POLARITY => 0x81,
            Register::INT_DEBOUNCE => 0x82,

            Register::EQ1 => 0x86,
            Register::EQ2 => 0x87,
            Register::EQ3 => 0x88,
            Register::EQ4 => 0x89,
            Register::EQ5 => 0x8A,
            Register::EQ6 => 0x8B,
            Register::EQ7 => 0x8C,
            Register::EQ8 => 0x8D,
            Register::EQ9 => 0x8E,
            Register::EQ10 => 0x8F,
            Register::EQ11 => 0x90,
            Register::EQ12 => 0x91,
            Register::EQ13 => 0x92,
            Register::EQ14 => 0x93,
            Register::EQ15 => 0x94,
            Register::EQ16 => 0x95,
            Register::EQ17 => 0x96,
            Register::EQ18 => 0x97,
            Register::EQ19 => 0x98,
            Register::EQ20 => 0x99,
            Register::EQ21 => 0x9A,
            Register::EQ22 => 0x9B,
            Register::EQ23 => 0x9C,
            Register::EQ24 => 0x9D,

            Register::ADC_TEST_0 => 0xC6,

            Register::FLL_NCO_TEST_0 => 0xF7,
            Register::FLL_NCO_TEST_1 => 0xF8,
        }
    }

    /// Looks up the address of this register.
    #[verifier::when_used_as_spec(spec_address)]
    pub fn address(self) -> (address: u8)
        ensures
            address == self.spec_address(),
    {
        match self {
            Register::SW_RESET_ID => 0x00,
            Register::BIAS_CONTROL_0 => 0x04,
            Register::VMID_CONTROL_0 => 0x05,
            Register::MISC_BIAS_CONTROL_0 => 0x06,
            Register::MISC_BIAS_CONTROL_1 => 0x07,
            Register::ANALOG_ADC_0 => 0x0A,
            Register::POWER_MGMT_0 => 0x0C,
            Register::POWER_MGMT_2 => 0x0E,
            Register::POWER_MGMT_3 => 0x0F,
            Register::POWER_MGMT_6 => 0x12,

            Register::CLK_RATES_0 => 0x14,
            Register::CLK_RATES_1 => 0x15,
            Register::CLK_RATES_2 => 0x16,

            Register::AUDIO_IF_0 => 0x18,
            Register::AUDIO_IF_1 => 0x19,
            Register::AUDIO_IF_2 => 0x1A,
            Register::AUDIO_IF_3 => 0x1B,

            Register::DAC_VOL_LEFT => 0x1E,
            Register::DAC_VOL_RIGHT => 0x1F,
            Register::DAC_DIGITAL_0 => 0x20,
            Register::DAC_DIGITAL_1 => 0x21,

            Register::ADC_DIGITAL_VOL_LEFT => 0x24,
            Register::ADC_DIGITAL_VOL_RIGHT => 0x25,
            Register::ADC_DIGITAL_0 => 0x26,
            Register::DIGITAL_MIC_0 => 0x27,
            Register::DRC_0 => 0x28,
            Register::DRC_1 => 0x29,
            Register::DRC_2 => 0x2A,

            Register::ANALOG_LEFT_IN_0 => 0x2C,
            Register::ANALOG_RIGHT_IN_0 => 0x2D,
            Register::ANALOG_LEFT_IN_1 => 0x2E,
            Register::ANALOG_RIGHT_IN_1 => 0x2F,

            Register::ANALOG_OUT1_LEFT => 0x39,
            Register::ANALOG_OUT1_RIGHT => 0x3A,
            Register::ANALOG_OUT2_LEFT => 0x3B,
            Register::ANALOG_OUT2_RIGHT => 0x3C,
            Register::ANALOG_OUT12_ZC => 0x3D,

            Register::DC_SERVO_0 => 0x43,
            Register::DC_SERVO_1 => 0x44,
            Register::DC_SERVO_2 => 0x45,

            Register::DC_SERVO_4 => 0x47,
            Register::DC_SERVO_5 => 0x48,
            Register::DC_SERVO_6 => 0x49,
            Register::DC_SERVO_7 => 0x4A,
            Register::DC_SERVO_8 => 0x4B,
            Register::DC_SERVO_9 => 0x4C,

            Register::DC_SERVO_READBACK_0 => 0x4D,

            Register::ANALOG_HP_0 => 0x5A,
            Register::ANALOG_LINEOUT_0 => 0x5E,

            Register::CHRG_PUMP_0 => 0x62,
            Register::CLASS_W => 0x68,

            Register::WRT_SEQUENCER_0 => 0x6C,
            Register::WRT_SEQUENCER_1 => 0x6D,
            Register::WRT_SEQUENCER_2 => 0x6E,
            Register::WRT_SEQUENCER_3 => 0x6F,
            Register::WRT_SEQUENCER_4 => 0x70,

            Register::FLL_CONTROL_1 => 0x74,
            Register::FLL_CONTROL_2 => 0x75,
            Register::FLL_CONTROL_3 => 0x76,
            Register::FLL_CONTROL_4 => 0x77,
            Register::FLL_CONTROL_5 => 0x78,

            Register::GPIO_CONTROL_1 => 0x79,
            Register::GPIO_CONTROL_2 => 0x7A,
            Register::GPIO_CONTROL_3 => 0x7B,
            Register::GPIO_CONTROL_4 => 0x7C,

            Register::DIGITAL_PULLS => 0x7E,
            Register::INT_STATUS => 0x7F,
            Register::INT_STATUS_MASK => 0x80,
            Register::INT_POLARITY => 0x81,
            Register::INT_DEBOUNCE => 0x82,

            Register::EQ1 => 0x86,
            Register::EQ2 => 0x87,
            Register::EQ3 => 0x88,
            Register::EQ4 => 0x89,
            Register::EQ5 => 0x8A,
            Register::EQ6 => 0x8B,
            Register::EQ7 => 0x8C,
            Register::EQ8 => 0x8D,
            Register::EQ9 => 0x8E,
            Register::EQ10 => 0x8F,
            Register::EQ11 => 0x90,
            Register::EQ12 => 0x91,
            Register::EQ13 => 0x92,
            Register::EQ14 => 0x93,
            Register::EQ15 => 0x94,
            Register::EQ16 => 0x95,
            Register::EQ17 => 0x96,
            Register::EQ18 => 0x97,
            Register::EQ19 => 0x98,
            Register::EQ20 => 0x99,
            Register::EQ21 => 0x9A,
            Register::EQ22 => 0x9B,
            Register::EQ23 => 0x9C,
            Register::EQ24 => 0x9D,

            Register::ADC_TEST_0 => 0xC6,

            Register::FLL_NCO_TEST_0 => 0xF7,
            Register::FLL_NCO_TEST_1 => 0xF8,
        }
    }
}

impl From<Register> for u8 {
    /// The raw address of a register, as it goes out on the bus.
    fn from(register: Register) -> (address: u8) {
        register.address()
    }
}

impl FromSpecImpl<Register> for u8 {
    open spec fn obeys_from_spec() -> bool {
        true
    }

    open spec fn from_spec(register: Register) -> u8 {
        register.address()
    }
}

/// No two registers share an address: a register is identified by the
/// byte that names it on the wire.
pub proof fn lemma_address_identifies_register(a: Register, b: Register)
    requires
        a.address() == b.address(),
    ensures
        a == b,
{
}

} // verus!
