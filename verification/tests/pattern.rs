use gbcpu::vm::pattern::OpPattern;

#[test]
fn plain_family_holds_one_opcode() {
    let family = OpPattern::plain(0x76);
    assert_eq!(family.full_mask(), 0x00);
    for byte in 0..=255u8 {
        assert_eq!(family.matches(byte), byte == 0x76);
    }
}

#[test]
fn single_family_ignores_its_field() {
    let family = OpPattern::single(0x01, 0x30);
    assert_eq!(family.full_mask(), 0x30);
    let members: Vec<u8> = (0..=255u8).filter(|byte| family.matches(*byte)).collect();
    assert_eq!(members, vec![0x01, 0x11, 0x21, 0x31]);
    assert_eq!(family.data1(0x01), 0);
    assert_eq!(family.data1(0x11), 1);
    assert_eq!(family.data1(0x21), 2);
    assert_eq!(family.data1(0x31), 3);
}

#[test]
fn double_family_has_two_fields() {
    let family = OpPattern::double(0x40, 0x38, 0x07);
    assert_eq!(family.full_mask(), 0x3F);
    for byte in 0..=255u8 {
        assert_eq!(family.matches(byte), (0x40..=0x7F).contains(&byte));
    }
    assert_eq!(family.data1(0x77), 6);
    assert_eq!(family.data2(0x77), 7);
    assert_eq!(family.data1(0x41), 0);
    assert_eq!(family.data2(0x41), 1);
    assert_eq!(family.data1(0x7E), 7);
    assert_eq!(family.data2(0x7E), 6);
}

#[test]
fn fields_are_moved_down_to_bit_zero() {
    for byte in 0..=255u8 {
        assert_eq!(OpPattern::single(0x00, 0x07).data1(byte), byte % 8);
        assert_eq!(OpPattern::single(0x00, 0x38).data1(byte), (byte / 8) % 8);
        assert_eq!(OpPattern::single(0x00, 0x18).data1(byte), (byte / 8) % 4);
        assert_eq!(OpPattern::single(0x00, 0x30).data1(byte), (byte / 16) % 4);
        assert_eq!(OpPattern::single(0x00, 0x80).data1(byte), byte / 128);
    }
}

#[test]
fn constructors_fill_the_fields() {
    let family = OpPattern::double(0xC0, 0x38, 0x07);
    assert_eq!((family.pattern, family.mask1, family.mask2), (0xC0, 0x38, 0x07));
    let family = OpPattern::single(0xC7, 0x38);
    assert_eq!((family.pattern, family.mask1, family.mask2), (0xC7, 0x38, 0x00));
    let family = OpPattern::plain(0xCB);
    assert_eq!((family.pattern, family.mask1, family.mask2), (0xCB, 0x00, 0x00));
    let family = OpPattern::default();
    assert_eq!((family.pattern, family.mask1, family.mask2), (0, 0, 0));
}
