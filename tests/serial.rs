use gb_link::memory::Fault;
use gb_link::mmap::{SERIAL_CONTROL, SERIAL_DATA};
use gb_link::{Cable, Gameboy};

fn device(control: u8, data: u8) -> Gameboy {
    let mut gb = Gameboy::new();
    gb.write_byte(SERIAL_CONTROL as u16, control).unwrap();
    gb.write_byte(SERIAL_DATA as u16, data).unwrap();
    gb
}

fn serial_data(gb: &Gameboy) -> u8 {
    gb.read_byte(SERIAL_DATA as u16).unwrap()
}

#[test]
fn cable_round_trip() {
    let mut cable = Cable::new();
    assert_eq!(cable.read_state(), 0);
    cable.write_state(0x5A);
    assert_eq!(cable.read_state(), 0x5A);
    assert_eq!(cable.read_state(), 0x5A);
}

#[test]
fn cable_value_seen_by_other_device() {
    let mut cables = vec![Cable::new()];
    let mut a = Gameboy::new();
    let mut b = Gameboy::new();
    a.link_cable(0);
    b.link_cable(0);
    assert_eq!(a.send(&mut cables, 0x99), Ok(0x99));
    assert_eq!(cables[0].read_state(), 0x99);
    assert_eq!(b.read_cable(&cables), Ok(0));
    assert_eq!(serial_data(&b), 0x99);
}

#[test]
fn ids_are_distinct() {
    let a = Gameboy::new();
    let b = Gameboy::new();
    assert_ne!(a.get_id(), b.get_id());
    let c = Cable::new();
    let d = Cable::new();
    assert_ne!(c.get_id(), d.get_id());
}

#[test]
fn link_state() {
    let mut a = Gameboy::new();
    assert!(!a.link_is_connected());
    a.link_cable(3);
    assert!(a.link_is_connected());
}

#[test]
fn master_then_slave_four_steps() {
    let mut cables = vec![Cable::new()];
    let mut a = device(0xFF, 0);
    let mut b = device(0x01, 0);
    a.link_cable(0);
    b.link_cable(0);
    for k in 1..=4u8 {
        assert_eq!(a.tick(&mut cables), Ok(()));
        assert_eq!(b.tick(&mut cables), Ok(()));
        assert_eq!(serial_data(&a), k);
        assert_eq!(cables[0].read_state(), k);
        assert_eq!(serial_data(&b), k);
    }
    assert_eq!(serial_data(&a), 4);
    assert_eq!(serial_data(&b), 4);
    assert_eq!(cables[0].read_state(), 4);
}

#[test]
fn slave_then_master_sees_previous_value() {
    let mut cables = vec![Cable::new()];
    let mut a = device(0xFF, 0);
    let mut b = device(0x01, 0);
    a.link_cable(0);
    b.link_cable(0);
    for k in 1..=4u8 {
        assert_eq!(b.tick(&mut cables), Ok(()));
        assert_eq!(a.tick(&mut cables), Ok(()));
        assert_eq!(serial_data(&b), k - 1);
        assert_eq!(serial_data(&a), k);
        assert_eq!(cables[0].read_state(), k);
    }
}

#[test]
fn master_counter_wraps_without_cable() {
    let mut cables: Vec<Cable> = Vec::new();
    let mut a = device(0xFF, 255);
    assert_eq!(a.tick(&mut cables), Err(Fault::NoCableConnected));
    assert_eq!(serial_data(&a), 0);
    assert_eq!(a.tick(&mut cables), Err(Fault::NoCableConnected));
    assert_eq!(serial_data(&a), 1);
}

#[test]
fn slave_without_cable_keeps_serial_data() {
    let mut cables = vec![Cable::new()];
    cables[0].write_state(77);
    let mut b = device(0x00, 12);
    assert_eq!(b.tick(&mut cables), Err(Fault::NoCableConnected));
    assert_eq!(serial_data(&b), 12);
    assert_eq!(b.read_cable(&cables), Err(Fault::NoCableConnected));
}

#[test]
fn stale_slot_counts_as_no_cable() {
    let mut cables = vec![Cable::new()];
    let mut a = device(0xFF, 9);
    a.link_cable(1);
    assert_eq!(a.send(&mut cables, 3), Err(Fault::NoCableConnected));
    assert_eq!(a.tick(&mut cables), Err(Fault::NoCableConnected));
    assert_eq!(serial_data(&a), 10);
    assert_eq!(cables[0].read_state(), 0);
}

#[test]
fn role_is_read_every_step() {
    let mut cables = vec![Cable::new()];
    let mut a = device(0xFF, 0);
    a.link_cable(0);
    assert_eq!(a.tick(&mut cables), Ok(()));
    assert_eq!(serial_data(&a), 1);
    a.write_byte(SERIAL_CONTROL as u16, 0xFE).unwrap();
    cables[0].write_state(40);
    assert_eq!(a.tick(&mut cables), Ok(()));
    assert_eq!(serial_data(&a), 40);
    assert_eq!(cables[0].read_state(), 40);
}
