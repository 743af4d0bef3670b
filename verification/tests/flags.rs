use gb_cpu::cpu::flags::Flags;

#[test]
fn getters_read_their_own_bit() {
    assert!(Flags(0b1000_0000).get_zero_flag());
    assert!(Flags(0b0100_0000).get_subtract_flag());
    assert!(Flags(0b0010_0000).get_half_carry_flag());
    assert!(Flags(0b0001_0000).get_carry_flag());

    let none = Flags(0);
    assert!(!none.get_zero_flag());
    assert!(!none.get_subtract_flag());
    assert!(!none.get_half_carry_flag());
    assert!(!none.get_carry_flag());

    let low = Flags(0b0000_1111);
    assert!(!low.get_zero_flag());
    assert!(!low.get_subtract_flag());
    assert!(!low.get_half_carry_flag());
    assert!(!low.get_carry_flag());
}

#[test]
fn setters_set_exactly_one_bit() {
    let mut f = Flags(0);
    f.set_zero_flag(true);
    assert_eq!(f.0, 0x80);
    f.set_subtract_flag(true);
    assert_eq!(f.0, 0xC0);
    f.set_half_carry_flag(true);
    assert_eq!(f.0, 0xE0);
    f.set_carry_flag(true);
    assert_eq!(f.0, 0xF0);
}

#[test]
fn setters_clear_exactly_one_bit() {
    let mut f = Flags(0xF0);
    f.set_zero_flag(false);
    assert_eq!(f.0, 0x70);
    f.set_subtract_flag(false);
    assert_eq!(f.0, 0x30);
    f.set_half_carry_flag(false);
    assert_eq!(f.0, 0x10);
    f.set_carry_flag(false);
    assert_eq!(f.0, 0x00);
}

#[test]
fn setting_a_flag_twice_changes_nothing_more() {
    let mut f = Flags(0x50);
    f.set_carry_flag(true);
    assert_eq!(f, Flags(0x50));
    f.set_zero_flag(false);
    assert_eq!(f, Flags(0x50));
}

#[test]
fn setters_leave_the_other_bits_for_every_byte() {
    for byte in 0..=255u8 {
        for value in [false, true] {
            let mut f = Flags(byte);
            f.set_zero_flag(value);
            assert_eq!(f.get_zero_flag(), value);
            assert_eq!(f.0 & 0x7F, byte & 0x7F);

            let mut f = Flags(byte);
            f.set_subtract_flag(value);
            assert_eq!(f.get_subtract_flag(), value);
            assert_eq!(f.0 & 0xBF, byte & 0xBF);

            let mut f = Flags(byte);
            f.set_half_carry_flag(value);
            assert_eq!(f.get_half_carry_flag(), value);
            assert_eq!(f.0 & 0xDF, byte & 0xDF);

            let mut f = Flags(byte);
            f.set_carry_flag(value);
            assert_eq!(f.get_carry_flag(), value);
            assert_eq!(f.0 & 0xEF, byte & 0xEF);
        }
    }
}

#[test]
fn sanitize_clears_the_low_nibble() {
    let mut f = Flags(0xFF);
    f.sanitize();
    assert_eq!(f.0, 0xF0);

    let mut f = Flags(0x0F);
    f.sanitize();
    assert_eq!(f.0, 0x00);

    let mut f = Flags(0xA5);
    f.sanitize();
    assert_eq!(f.0, 0xA0);
}

#[test]
fn sanitize_keeps_the_flags_for_every_byte() {
    for byte in 0..=255u8 {
        let mut f = Flags(byte);
        f.sanitize();
        assert_eq!(f.0 & 0x0F, 0);
        assert_eq!(f.0 & 0xF0, byte & 0xF0);
    }
}
