use gb_emulator::bit_ops::BitOps;

#[test]
fn test_bit_track_add_u8() {}

#[test]
fn test_bit_shift() {
    let num: u8 = 0b1100_0000;
    let c = 0;
    let new_bit_0 = c;
    let c = (num & (1 << 7)) >> 7;

    let new_val = (num << 1) | new_bit_0;

    assert_eq!(new_val, 0b1000_0000);
    assert_eq!(c, 1);
}

#[test]
fn test_get_bit() {
    let num: u8 = 0b1100_0010;
    assert_eq!(num.get_bit(0), 0);
    assert_eq!(num.get_bit(1), 1);
    assert_eq!(num.get_bit(2), 0);
    assert_eq!(num.get_bit(3), 0);
    assert_eq!(num.get_bit(4), 0);
    assert_eq!(num.get_bit(5), 0);
    assert_eq!(num.get_bit(6), 1);
    assert_eq!(num.get_bit(7), 1);
}
