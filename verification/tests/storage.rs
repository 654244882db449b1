use avr_eeprom::{CustomError, Device, Eeprom, SimulatedDevice, Variant};

fn driver(variant: Variant) -> Eeprom<SimulatedDevice> {
    Eeprom::new(SimulatedDevice::new(variant), variant)
}

#[test]
fn it_works() {
    let mut eeprom = driver(Variant::Atmega328p);
    assert_eq!(eeprom.write(0, &[0xAB]), Ok(()));
    let mut byte = [0u8];
    assert_eq!(eeprom.read(0, &mut byte), Ok(()));
    assert_eq!(byte, [0xAB]);
}

#[test]
fn write_up_to_the_last_cell_succeeds() {
    let mut eeprom = driver(Variant::Atmega48p);
    assert_eq!(eeprom.write(250, &[1, 2, 3, 4, 5]), Ok(()));
    let mut back = [0u8; 5];
    assert_eq!(eeprom.read(250, &mut back), Ok(()));
    assert_eq!(back, [1, 2, 3, 4, 5]);
    assert_eq!(eeprom.write(250, &[1, 2, 3, 4, 5, 6]), Ok(()));
    let mut back = [0u8; 6];
    assert_eq!(eeprom.read(250, &mut back), Ok(()));
    assert_eq!(back, [1, 2, 3, 4, 5, 6]);
}

#[test]
fn write_beyond_the_last_cell_fails() {
    let mut eeprom = driver(Variant::Atmega48p);
    assert_eq!(eeprom.write(251, &[1, 2, 3, 4, 5, 6]), Err(CustomError::Bounds));
    assert_eq!(eeprom.write(250, &[1, 2, 3, 4, 5, 6, 7]), Err(CustomError::Bounds));
    assert_eq!(eeprom.write(256, &[1]), Err(CustomError::Bounds));
    assert_eq!(eeprom.write(u32::MAX, &[1]), Err(CustomError::Bounds));
    let device = eeprom.into_device();
    assert_eq!(device.transaction_count(), 0);
    assert_eq!(device.cell(251), Some(0xFF));
    assert_eq!(device.cell(255), Some(0xFF));
}

#[test]
fn read_beyond_the_last_cell_fails_and_keeps_the_buffer() {
    let mut eeprom = driver(Variant::Atmega48p);
    let mut buffer = [7u8; 6];
    assert_eq!(eeprom.read(251, &mut buffer), Err(CustomError::Bounds));
    assert_eq!(buffer, [7u8; 6]);
    let mut large = [7u8; 257];
    assert_eq!(eeprom.read(0, &mut large), Err(CustomError::Bounds));
    assert_eq!(large, [7u8; 257]);
    let mut one = [7u8];
    assert_eq!(eeprom.read(u32::MAX, &mut one), Err(CustomError::Bounds));
    assert_eq!(one, [7]);
}

#[test]
fn empty_ranges_are_in_bounds_up_to_the_capacity() {
    let mut eeprom = driver(Variant::Atmega48p);
    let mut nothing = [0u8; 0];
    assert_eq!(eeprom.read(256, &mut nothing), Ok(()));
    assert_eq!(eeprom.write(256, &[]), Ok(()));
    assert_eq!(eeprom.read(257, &mut nothing), Err(CustomError::Bounds));
    assert_eq!(eeprom.write(257, &[]), Err(CustomError::Bounds));
}

#[test]
fn whole_device_can_be_written_and_read() {
    let mut eeprom = driver(Variant::Atmega48p);
    let mut image = [0u8; 256];
    for (index, byte) in image.iter_mut().enumerate() {
        *byte = (index as u8).wrapping_mul(31).wrapping_add(5);
    }
    assert_eq!(eeprom.write(0, &image), Ok(()));
    let mut back = [0u8; 256];
    assert_eq!(eeprom.read(0, &mut back), Ok(()));
    assert_eq!(back, image);
}

#[test]
fn every_value_reads_back() {
    let mut eeprom = driver(Variant::Atmega328p);
    for value in 0..=255u8 {
        assert_eq!(eeprom.write(1023, &[value]), Ok(()));
        let mut back = [0u8];
        assert_eq!(eeprom.read(1023, &mut back), Ok(()));
        assert_eq!(back, [value]);
    }
}

#[test]
fn second_write_replaces_the_first_without_erase() {
    let mut eeprom = driver(Variant::Atmega328p);
    for (first, second) in [(0x00u8, 0xFFu8), (0xFF, 0x00), (0x0F, 0xF0), (0xAA, 0x55), (0x01, 0x03)] {
        assert_eq!(eeprom.write(42, &[first]), Ok(()));
        assert_eq!(eeprom.write(42, &[second]), Ok(()));
        let mut back = [0u8];
        assert_eq!(eeprom.read(42, &mut back), Ok(()));
        assert_eq!(back, [second]);
    }
}

#[test]
fn write_leaves_the_other_cells() {
    let mut eeprom = driver(Variant::Atmega48p);
    assert_eq!(eeprom.write(8, &[1, 2, 3, 4]), Ok(()));
    assert_eq!(eeprom.write(9, &[0x77, 0x88]), Ok(()));
    let mut back = [0u8; 6];
    assert_eq!(eeprom.read(7, &mut back), Ok(()));
    assert_eq!(back, [0xFF, 1, 0x77, 0x88, 4, 0xFF]);
}

#[test]
fn erased_cell_reads_as_all_ones() {
    let mut eeprom = driver(Variant::Atmega328p);
    assert_eq!(eeprom.write(5, &[0x12]), Ok(()));
    assert_eq!(eeprom.erase(5, 6), Ok(()));
    let mut back = [0u8];
    assert_eq!(eeprom.read(5, &mut back), Ok(()));
    assert_eq!(back, [0xFF]);
}

#[test]
fn erase_leaves_the_other_cells() {
    let mut eeprom = driver(Variant::Atmega48p);
    assert_eq!(eeprom.write(0, &[1, 2, 3, 4, 5]), Ok(()));
    assert_eq!(eeprom.erase(1, 4), Ok(()));
    let mut back = [0u8; 5];
    assert_eq!(eeprom.read(0, &mut back), Ok(()));
    assert_eq!(back, [1, 0xFF, 0xFF, 0xFF, 5]);
}

#[test]
fn erase_is_held_against_the_capacity_by_its_end() {
    let mut eeprom = driver(Variant::Atmega48p);
    assert_eq!(eeprom.write(255, &[0]), Ok(()));
    assert_eq!(eeprom.erase(0, 257), Err(CustomError::Bounds));
    assert_eq!(eeprom.erase(300, 301), Err(CustomError::Bounds));
    assert_eq!(eeprom.device().cell(255), Some(0));
    assert_eq!(eeprom.device().transaction_count(), 1);
    assert_eq!(eeprom.erase(0, 256), Ok(()));
    assert_eq!(eeprom.device().cell(255), Some(0xFF));
}

#[test]
fn erase_of_an_empty_range_touches_nothing() {
    let mut eeprom = driver(Variant::Atmega48p);
    assert_eq!(eeprom.write(3, &[0]), Ok(()));
    assert_eq!(eeprom.erase(3, 3), Ok(()));
    assert_eq!(eeprom.erase(4, 3), Ok(()));
    assert_eq!(eeprom.erase(1000, 3), Ok(()));
    assert_eq!(eeprom.erase(u32::MAX, 256), Ok(()));
    let device = eeprom.into_device();
    assert_eq!(device.cell(3), Some(0));
    assert_eq!(device.transaction_count(), 1);
}

#[test]
fn operations_wait_for_a_slow_device() {
    let variant = Variant::Atmega168;
    let mut eeprom = Eeprom::new(SimulatedDevice::with_latency(variant, 9), variant);
    assert_eq!(eeprom.write(500, &[9, 8, 7, 6]), Ok(()));
    assert_eq!(eeprom.erase(501, 503), Ok(()));
    let mut back = [0u8; 4];
    assert_eq!(eeprom.read(500, &mut back), Ok(()));
    assert_eq!(back, [9, 0xFF, 0xFF, 6]);
}

#[test]
fn interrupts_are_left_as_they_were() {
    let variant = Variant::Atmega48p;
    let mut eeprom = driver(variant);
    let mut back = [0u8; 2];
    assert_eq!(eeprom.write(0, &[1, 2]), Ok(()));
    assert!(eeprom.device().interrupts_enabled());
    assert_eq!(eeprom.read(0, &mut back), Ok(()));
    assert!(eeprom.device().interrupts_enabled());
    assert_eq!(eeprom.erase(0, 2), Ok(()));
    assert!(eeprom.device().interrupts_enabled());
    assert_eq!(eeprom.write(256, &[1]), Err(CustomError::Bounds));
    assert!(eeprom.device().interrupts_enabled());

    let mut device = SimulatedDevice::new(variant);
    assert!(device.disable_interrupts());
    let mut eeprom = Eeprom::new(device, variant);
    assert_eq!(eeprom.write(0, &[1, 2]), Ok(()));
    assert!(!eeprom.device().interrupts_enabled());
    assert_eq!(eeprom.read(0, &mut back), Ok(()));
    assert!(!eeprom.device().interrupts_enabled());
    assert_eq!(eeprom.erase(0, 2), Ok(()));
    assert!(!eeprom.device().interrupts_enabled());
}
