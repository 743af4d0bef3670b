use gb_cpu::cpu::fault::Fault;
use gb_cpu::cpu::MemoryBus;

#[test]
fn new_bus_is_all_zero() {
    let bus = MemoryBus::new();
    assert_eq!(bus.read_byte(0x0000), 0);
    assert_eq!(bus.read_byte(0x8000), 0);
    assert_eq!(bus.read_byte(0xFFFF), 0);
    assert!(bus.memory.iter().all(|byte| *byte == 0));
}

#[test]
fn write_then_read_at_both_ends() {
    let mut bus = MemoryBus::new();
    bus.write_byte(0x0000, 0x11);
    bus.write_byte(0xFFFF, 0x22);
    assert_eq!(bus.read_byte(0x0000), 0x11);
    assert_eq!(bus.read_byte(0xFFFF), 0x22);
    assert_eq!(bus.read_byte(0x0001), 0);
    assert_eq!(bus.read_byte(0xFFFE), 0);
}

#[test]
fn write_changes_one_byte_only() {
    let mut bus = MemoryBus::new();
    bus.write_byte(0x1234, 0xAB);
    for address in 0..=0xFFFFu16 {
        let expected = if address == 0x1234 { 0xAB } else { 0 };
        assert_eq!(bus.read_byte(address), expected);
    }
}

#[test]
fn load_copies_the_image_at_the_base() {
    let mut bus = MemoryBus::new();
    bus.write_byte(0x00FF, 0x77);
    bus.write_byte(0x0103, 0x88);
    assert_eq!(bus.load(0x0100, &[1, 2, 3]), Ok(()));
    assert_eq!(bus.read_byte(0x00FF), 0x77);
    assert_eq!(bus.read_byte(0x0100), 1);
    assert_eq!(bus.read_byte(0x0101), 2);
    assert_eq!(bus.read_byte(0x0102), 3);
    assert_eq!(bus.read_byte(0x0103), 0x88);
}

#[test]
fn load_accepts_an_image_that_ends_at_the_last_address() {
    let mut bus = MemoryBus::new();
    assert_eq!(bus.load(0xFFFD, &[7, 8, 9]), Ok(()));
    assert_eq!(bus.read_byte(0xFFFC), 0);
    assert_eq!(bus.read_byte(0xFFFD), 7);
    assert_eq!(bus.read_byte(0xFFFE), 8);
    assert_eq!(bus.read_byte(0xFFFF), 9);
}

#[test]
fn load_refuses_an_image_one_byte_too_long() {
    let mut bus = MemoryBus::new();
    bus.write_byte(0xFFFF, 0x55);
    assert_eq!(
        bus.load(0xFFFE, &[7, 8, 9]),
        Err(Fault::ImageOutOfRange { base: 0xFFFE, len: 3 })
    );
    assert_eq!(bus.read_byte(0xFFFE), 0);
    assert_eq!(bus.read_byte(0xFFFF), 0x55);
    assert_eq!(bus.read_byte(0x0000), 0);
}

#[test]
fn load_of_the_whole_address_space() {
    let image = vec![0xEEu8; 0x10000];
    let mut bus = MemoryBus::new();
    assert_eq!(bus.load(0, &image), Ok(()));
    assert!(bus.memory.iter().all(|byte| *byte == 0xEE));
    assert_eq!(
        bus.load(1, &image),
        Err(Fault::ImageOutOfRange { base: 1, len: 0x10000 })
    );
}

#[test]
fn load_of_an_empty_image_changes_nothing() {
    let mut bus = MemoryBus::new();
    bus.write_byte(0xFFFF, 0x55);
    assert_eq!(bus.load(0xFFFF, &[]), Ok(()));
    assert_eq!(bus.read_byte(0xFFFF), 0x55);
}
