use core_sim::bin::{bit_range, sign_extend};

#[test]
fn test_bit_range() {
    assert_eq!(0b1, bit_range(0..0));
    assert_eq!(0b110000, bit_range(4..5));
    assert_eq!(0b1111111, bit_range(0..6));
}

#[test]
fn test_sign_extend() {
    // 12-bits (I-fmt imm, etc)
    let l = -4i32 as u32;
    let r = sign_extend::<12>(1, 0xffc);
    assert_eq!(l, r, "left: {l:#X}; right: {r:#X}");
    // 13-bits (B-fmt imm)
    let l = -4i32 as u32;
    let r = sign_extend::<12>(1, 0x1ffc);
    assert_eq!(l, r, "left: {l:#X}; right: {r:#X}");
}
