use wm8904::{Fault, Register, RegisterFile, Transport};

#[test]
fn a_new_register_file_holds_zero_everywhere() {
    let device = RegisterFile::new(0x1A);
    assert_eq!(device.get(Register::SW_RESET_ID), 0);
    assert_eq!(device.get(Register::WRT_SEQUENCER_4), 0);
    assert_eq!(device.get(Register::FLL_NCO_TEST_1), 0);
}

#[test]
fn set_changes_one_register() {
    let mut device = RegisterFile::new(0x1A);
    device.set(Register::EQ3, 0xCAFE);
    assert_eq!(device.get(Register::EQ3), 0xCAFE);
    assert_eq!(device.get(Register::EQ2), 0);
    assert_eq!(device.get(Register::EQ4), 0);
}

#[test]
fn a_three_byte_write_stores_the_value() {
    let mut device = RegisterFile::new(0x1A);
    assert_eq!(device.write(0x1A, &[0x1E, 0x01, 0xC0]), Ok(()));
    assert_eq!(device.get(Register::DAC_VOL_LEFT), 0x01C0);
}

#[test]
fn an_addressed_read_returns_the_value_high_byte_first() {
    let mut device = RegisterFile::new(0x1A);
    device.set(Register::DAC_VOL_RIGHT, 0x01C0);
    let mut buffer = [0xEEu8; 2];
    assert_eq!(device.write_read(0x1A, &[0x1F], &mut buffer), Ok(()));
    assert_eq!(buffer, [0x01, 0xC0]);
}

#[test]
fn another_address_is_not_acknowledged() {
    let mut device = RegisterFile::new(0x1A);
    let mut buffer = [0xEEu8; 2];
    assert_eq!(device.write(0x1B, &[0x1E, 0x01, 0xC0]), Err(Fault::NoAcknowledge));
    assert_eq!(device.write_read(0x1B, &[0x1E], &mut buffer), Err(Fault::NoAcknowledge));
    assert_eq!(device.read(0x1B, &mut buffer), Err(Fault::NoAcknowledge));
    assert_eq!(buffer, [0xEE, 0xEE]);
    assert_eq!(device.get(Register::DAC_VOL_LEFT), 0);
}

#[test]
fn frames_of_other_shapes_are_refused() {
    let mut device = RegisterFile::new(0x1A);
    assert_eq!(device.write(0x1A, &[]), Err(Fault::Malformed));
    assert_eq!(device.write(0x1A, &[0x1E]), Err(Fault::Malformed));
    assert_eq!(device.write(0x1A, &[0x1E, 0x01]), Err(Fault::Malformed));
    assert_eq!(device.write(0x1A, &[0x1E, 0x01, 0xC0, 0x00]), Err(Fault::Malformed));
    let mut two = [0xEEu8; 2];
    assert_eq!(device.write_read(0x1A, &[], &mut two), Err(Fault::Malformed));
    assert_eq!(device.write_read(0x1A, &[0x1E, 0x1F], &mut two), Err(Fault::Malformed));
    let mut one = [0xEEu8; 1];
    assert_eq!(device.write_read(0x1A, &[0x1E], &mut one), Err(Fault::Malformed));
    let mut three = [0xEEu8; 3];
    assert_eq!(device.write_read(0x1A, &[0x1E], &mut three), Err(Fault::Malformed));
    assert_eq!(device.read(0x1A, &mut two), Err(Fault::Malformed));
    assert_eq!(two, [0xEE, 0xEE]);
    assert_eq!(device.get(Register::DAC_VOL_LEFT), 0);
}

#[test]
fn reading_changes_no_register() {
    let mut device = RegisterFile::new(0x1A);
    device.set(Register::EQ1, 0x1111);
    let mut buffer = [0u8; 2];
    assert_eq!(device.write_read(0x1A, &[0x86], &mut buffer), Ok(()));
    assert_eq!(device.write_read(0x1A, &[0x87], &mut buffer), Ok(()));
    assert_eq!(device.get(Register::EQ1), 0x1111);
    assert_eq!(device.get(Register::EQ2), 0x0000);
}

#[test]
fn addresses_without_a_named_register_hold_values_too() {
    let mut device = RegisterFile::new(0x1A);
    assert_eq!(device.write(0x1A, &[0xFF, 0xAB, 0xCD]), Ok(()));
    let mut buffer = [0u8; 2];
    assert_eq!(device.write_read(0x1A, &[0xFF], &mut buffer), Ok(()));
    assert_eq!(buffer, [0xAB, 0xCD]);
}
