use gb_link::memory::{AddressSpace, Fault};
use gb_link::mmap::{MAX_RAM, SERIAL_CONTROL};
use gb_link::Gameboy;

#[test]
fn write_then_read_round_trips_over_whole_domain() {
    let mut space = AddressSpace::new();
    for address in [0usize, 1, 0x1234, 0x8000, 0xFF01, 0xFFFE, 0xFFFF] {
        for value in [0u8, 1, 0x7F, 0xFF] {
            space.write(address, value).unwrap();
            assert_eq!(space.read(address), Ok(value));
        }
    }
}

#[test]
fn write_returns_previous_byte() {
    let mut space = AddressSpace::new();
    assert_eq!(space.write(0xC000, 0x42), Ok(0));
    assert_eq!(space.write(0xC000, 0x17), Ok(0x42));
    assert_eq!(space.read(0xC000), Ok(0x17));
}

#[test]
fn out_of_range_access_is_rejected() {
    let mut space = AddressSpace::new();
    assert_eq!(space.read(MAX_RAM + 1), Err(Fault::OutOfRange));
    assert_eq!(space.write(MAX_RAM + 1, 9), Err(Fault::OutOfRange));
    assert_eq!(space.read(usize::MAX), Err(Fault::OutOfRange));
    assert!(space.snapshot().iter().all(|b| *b == 0));
}

#[test]
fn top_address_is_readable_and_writable() {
    let mut gb = Gameboy::new();
    assert_eq!(gb.write_byte(0xFFFF, 0xAB), Ok(0));
    assert_eq!(gb.read_byte(0xFFFF), Ok(0xAB));
}

#[test]
fn device_write_byte_returns_previous() {
    let mut gb = Gameboy::new();
    assert_eq!(gb.write_byte(SERIAL_CONTROL as u16, 0xFF), Ok(0));
    assert_eq!(gb.write_byte(SERIAL_CONTROL as u16, 0x01), Ok(0xFF));
    assert_eq!(gb.read_byte(SERIAL_CONTROL as u16), Ok(0x01));
}

#[test]
fn snapshot_reflects_writes() {
    let mut space = AddressSpace::new();
    space.write(0xFF80, 5).unwrap();
    let bytes = space.snapshot();
    assert_eq!(bytes.len(), 0x10000);
    assert_eq!(bytes[0xFF80], 5);
}
