use cloudy_with_a_chance_of_rust::seed::combine_seed;

#[test]
fn seed_puts_first_draw_low_and_second_high() {
    assert_eq!(combine_seed(0x1234_5678, 0x9abc_def0), 0x9abc_def0_1234_5678);
    assert_eq!(combine_seed(0, 0), 0);
    assert_eq!(combine_seed(u32::MAX, 0), 0xffff_ffff);
    assert_eq!(combine_seed(0, 1), 0x1_0000_0000);
    assert_eq!(combine_seed(u32::MAX, u32::MAX), u64::MAX);
}
