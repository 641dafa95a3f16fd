use ari::bitfield::BitField;

#[test]
fn a_new_field_holds_its_storage() {
    let x: BitField<4> = BitField::new([0u8; 4]);
    assert_eq!(x.value(), &[0, 0, 0, 0]);
    let y: BitField<2> = BitField::new([0xa5, 0x01]);
    assert_eq!(y.value(), &[0xa5, 0x01]);
}

#[test]
fn get_reads_single_bits() {
    let x: BitField<2> = BitField::new([0b1000_0001, 0b0000_0010]);
    assert_eq!(x.get(0), true);
    assert_eq!(x.get(1), false);
    assert_eq!(x.get(7), true);
    assert_eq!(x.get(8), false);
    assert_eq!(x.get(9), true);
    assert_eq!(x.get(15), false);
}

#[test]
fn set_then_get() {
    let mut x: BitField<4> = BitField::new([0u8; 4]);
    assert_eq!(x.get(0), false);
    x.set(0, true);
    assert_eq!(x.get(0), true);
    x.set(0, false);
    assert_eq!(x.get(0), false);
    assert_eq!(x.value(), &[0, 0, 0, 0]);
}

#[test]
fn set_changes_one_bit_only() {
    for index in 0..32 {
        let mut x: BitField<4> = BitField::new([0u8; 4]);
        x.set(index, true);
        let mut y: BitField<4> = BitField::new([0xffu8; 4]);
        y.set(index, false);
        for other in 0..32 {
            assert_eq!(x.get(other), other == index);
            assert_eq!(y.get(other), other != index);
        }
    }
}

#[test]
fn bits_and_a_value_side_by_side() {
    let mut x: BitField<4> = BitField::new([0u8; 4]);

    x.set(0, true);
    x.set(4, true);
    x.set(8, true);
    x.set(16, true);
    x.set_value(20, 3, 7u64);

    assert_eq!(x.get(0), true);
    assert_eq!(x.get(4), true);
    assert_eq!(x.get(8), true);
    assert_eq!(x.get(16), true);
    assert_eq!(x.get_value(20, 3), 7);

    assert_eq!(x.value(), &[17, 1, 113, 0]);
}

#[test]
fn a_value_is_truncated_to_its_width() {
    let mut x: BitField<4> = BitField::new([0u8; 4]);
    x.set_value(0, 5, 0xfffffu64);
    assert_eq!(x.get_value(0, 5), 31);

    let mut x: BitField<4> = BitField::new([0u8; 4]);
    x.set_value(0, 2, 0b1111u64);
    assert_eq!(x.get_value(0, 4), 0b11);

    let mut x: BitField<4> = BitField::new([0u8; 4]);
    x.set(0, true);
    x.set(4, true);
    x.set(8, true);
    x.set(16, true);
    x.set_value(20, 3, 9u64);
    assert_eq!(x.value(), &[17, 1, 17, 0]);
}

#[test]
fn set_value_clears_bits_too() {
    let mut x: BitField<2> = BitField::new([0xff, 0xff]);
    x.set_value(4, 8, 0);
    assert_eq!(x.value(), &[0x0f, 0xf0]);
    x.set_value(4, 8, 0xa5);
    assert_eq!(x.get_value(4, 8), 0xa5);
    assert_eq!(x.value(), &[0x5f, 0xfa]);
}

#[test]
fn a_value_of_sixty_four_bits() {
    let mut x: BitField<9> = BitField::new([0u8; 9]);
    x.set_value(3, 64, 0x0123_4567_89ab_cdef);
    assert_eq!(x.get_value(3, 64), 0x0123_4567_89ab_cdef);
    assert_eq!(x.get(0), false);
    assert_eq!(x.get_value(3, 8), 0xef);
    assert_eq!(x.get_value(67, 5), 0);
}

#[test]
fn a_width_of_zero_reads_zero_and_writes_nothing() {
    let mut x: BitField<1> = BitField::new([0xff]);
    assert_eq!(x.get_value(3, 0), 0);
    assert_eq!(x.get_value(8, 0), 0);
    x.set_value(3, 0, 0);
    assert_eq!(x.value(), &[0xff]);
}

#[test]
fn the_field_is_a_little_endian_integer() {
    let mut x: BitField<4> = BitField::new([0u8; 4]);
    x.set_value(0, 32, 0x0403_0201);
    assert_eq!(x.value(), &[1, 2, 3, 4]);
    assert_eq!(x.get_value(8, 16), 0x0302);
}

#[test]
fn fields_compare_by_their_bytes() {
    let a: BitField<2> = BitField::new([1, 2]);
    let mut b: BitField<2> = BitField::new([1, 0]);
    assert_ne!(a, b);
    b.set(9, true);
    assert_eq!(a, b);
    assert_eq!(a.clone(), a);
}
