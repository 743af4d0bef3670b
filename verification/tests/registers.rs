use gb_cpu::cpu::flags::Flags;
use gb_cpu::cpu::registers::{compose_bytes, Registers};

#[test]
fn register_af_sanitizes() {
    let mut r = Registers::default();

    let first_bit = 0b0000_0001;
    let second_bit = 0b0000_0010;
    let third_bit = 0b0000_0100;
    let fourth_bit = 0b000_1000;

    let should_sanitize = [first_bit, second_bit, third_bit, fourth_bit];

    for bit in should_sanitize {
        println!("Writing: {bit}");
        r.write_af(bit);
        let bz = r.read_af();
        println!("Read: {bz}");
        assert_eq!(bz, 0);
    }
}

#[test]
fn read_and_write_af() {
    let mut r = Registers::default();

    let b = 0b0001_0000;
    println!("Writing: {b}");

    r.write_af(b);

    let bz = r.read_af();

    println!("Read: {bz}");

    assert_eq!(bz, b);
}

#[test]
fn default_is_all_zero() {
    let r = Registers::default();
    assert_eq!(
        r,
        Registers { a: 0, f: Flags(0), b: 0, c: 0, d: 0, e: 0, h: 0, l: 0, sp: 0 }
    );
    assert_eq!(r.read_af(), 0);
    assert_eq!(r.read_bc(), 0);
    assert_eq!(r.read_de(), 0);
    assert_eq!(r.read_hl(), 0);
}

#[test]
fn pairs_compose_high_then_low() {
    let r = Registers {
        a: 0x01,
        f: Flags(0x20),
        b: 0x12,
        c: 0x34,
        d: 0x56,
        e: 0x78,
        h: 0x9A,
        l: 0xBC,
        sp: 0xFFFE,
    };
    assert_eq!(r.read_af(), 0x0120);
    assert_eq!(r.read_bc(), 0x1234);
    assert_eq!(r.read_de(), 0x5678);
    assert_eq!(r.read_hl(), 0x9ABC);
}

#[test]
fn compose_bytes_puts_the_first_byte_high() {
    assert_eq!(compose_bytes(0x12, 0x34), 0x1234);
    assert_eq!(compose_bytes(0x00, 0xFF), 0x00FF);
    assert_eq!(compose_bytes(0xFF, 0x00), 0xFF00);
}

#[test]
fn pair_writes_split_into_their_halves() {
    let mut r = Registers::default();
    r.write_bc(0xBEEF);
    assert_eq!((r.b, r.c), (0xBE, 0xEF));
    r.write_de(0x1234);
    assert_eq!((r.d, r.e), (0x12, 0x34));
    r.write_hl(0xC000);
    assert_eq!((r.h, r.l), (0xC0, 0x00));
    r.write_af(0xA5FF);
    assert_eq!((r.a, r.f), (0xA5, Flags(0xF0)));
}

#[test]
fn pair_writes_leave_the_other_registers() {
    let before = Registers {
        a: 1,
        f: Flags(0x80),
        b: 2,
        c: 3,
        d: 4,
        e: 5,
        h: 6,
        l: 7,
        sp: 0x0809,
    };

    let mut r = before;
    r.write_bc(0xAABB);
    assert_eq!(r, Registers { b: 0xAA, c: 0xBB, ..before });

    let mut r = before;
    r.write_de(0xAABB);
    assert_eq!(r, Registers { d: 0xAA, e: 0xBB, ..before });

    let mut r = before;
    r.write_hl(0xAABB);
    assert_eq!(r, Registers { h: 0xAA, l: 0xBB, ..before });

    let mut r = before;
    r.write_af(0xAABB);
    assert_eq!(r, Registers { a: 0xAA, f: Flags(0xB0), ..before });
}

#[test]
fn pair_round_trip_for_every_value() {
    let mut r = Registers::default();
    for v in 0..=0xFFFFu16 {
        r.write_bc(v);
        assert_eq!(r.read_bc(), v);
        r.write_de(v);
        assert_eq!(r.read_de(), v);
        r.write_hl(v);
        assert_eq!(r.read_hl(), v);
        r.write_af(v);
        assert_eq!(r.read_af(), v & 0xFFF0);
        assert_eq!(r.f.0 & 0x0F, 0);
    }
}
