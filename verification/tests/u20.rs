use dual_ym2149::u20::U20;

#[test]
fn parts_are_cut_out_of_the_image() {
    let mut buffer = U20 { value: 0xA_BC_DE };
    assert_eq!(buffer.get_envelope_shape(), 0xA);
    assert_eq!(buffer.get_rough_adj(), 0xBC);
    assert_eq!(buffer.get_fine_adj(), 0xDE);
    assert_eq!(buffer.value, 0xA_BC_DE);
}

#[test]
fn bits_beyond_the_twentieth_are_not_part_of_the_shape() {
    let mut buffer = U20 { value: 0xFFF0_0000 };
    assert_eq!(buffer.get_envelope_shape(), 0);
}

#[test]
fn the_lower_half_replaces_eleven_bits() {
    let mut buffer = U20 { value: 0xF_FF_FF };
    buffer.read(0x5, 0x23, false);
    assert_eq!(buffer.value, 0xF_FA_35);
    assert_eq!(buffer.get_envelope_shape(), 0xF);
    assert_eq!(buffer.get_rough_adj(), 0xFA);
    assert_eq!(buffer.get_fine_adj(), 0x35);
}

#[test]
fn the_lower_half_drops_what_is_beyond_twenty_bits() {
    let mut buffer = U20 { value: 0xFFFF_FFFF };
    buffer.read(0, 0, false);
    assert_eq!(buffer.value, 0xF_F8_00);
}

#[test]
fn of_two_lower_halves_the_last_counts() {
    let mut twice = U20 { value: 0x1_23_45 };
    twice.read(15, 127, false);
    twice.read(1, 2, false);
    let mut once = U20 { value: 0x1_23_45 };
    once.read(1, 2, false);
    assert_eq!(twice, once);
}

#[test]
fn the_higher_half_is_placed_above_the_low_eleven_bits() {
    let mut buffer = U20 { value: 0xF_FF_FF };
    buffer.read(0x1, 0x02, true);
    assert_eq!(buffer.value, 0x21 * 0x800 + 0x7FF);
    assert_eq!(buffer.get_envelope_shape(), 0x1);
    assert_eq!(buffer.get_rough_adj(), 0x0F);
    assert_eq!(buffer.get_fine_adj(), 0xFF);

    let mut fresh = U20 { value: 0 };
    fresh.read(0x5, 0x1D, true);
    assert_eq!(fresh.value, 0xE_A8_00);
    assert_eq!(fresh.get_envelope_shape(), 0xE);
    assert_eq!(fresh.get_rough_adj(), 0xA8);
    assert_eq!(fresh.get_fine_adj(), 0);
}

#[test]
fn two_halves_make_the_setting_in_either_order() {
    for before in [0u32, 0x1_23_45, 0xFFFF_FFFF] {
        let mut buffer = U20 { value: before };
        buffer.read(0x5, 0x1D, true);
        buffer.read(0x6, 0x2B, false);
        assert_eq!(buffer.value, 0xE_AA_B6);
        assert_eq!(buffer.get_envelope_shape(), 0xE);
        assert_eq!(buffer.get_rough_adj(), 0xAA);
        assert_eq!(buffer.get_fine_adj(), 0xB6);

        let mut buffer = U20 { value: before };
        buffer.read(0x6, 0x2B, false);
        buffer.read(0x5, 0x1D, true);
        assert_eq!(buffer.value, 0xE_AA_B6);
    }
}

#[test]
fn the_select_and_unused_bits_are_not_part_of_the_image() {
    let mut buffer = U20 { value: 0 };
    buffer.read(0x0, 0x60, true);
    assert_eq!(buffer.value, 0x30_0000);
    assert_eq!(buffer.get_envelope_shape(), 0);
    assert_eq!(buffer.get_rough_adj(), 0);
    assert_eq!(buffer.get_fine_adj(), 0);
    buffer.read(0x0, 0x00, false);
    assert_eq!(buffer.value, 0);
}

#[test]
fn of_two_higher_halves_the_last_counts() {
    let mut twice = U20 { value: 0x1_23_45 };
    twice.read(15, 127, true);
    twice.read(1, 2, true);
    let mut once = U20 { value: 0x1_23_45 };
    once.read(1, 2, true);
    assert_eq!(twice, once);
}

#[test]
fn wide_data_loses_its_upper_bits() {
    let mut buffer = U20 { value: 0 };
    buffer.read(3, 0xF000_0001, false);
    assert_eq!(buffer.value, 0x13);
}

#[test]
fn parts_make_up_the_image() {
    for value in [0u32, 1, 0x7FF, 0x800, 0x1_23_45, 0xF_FF_FF, 0x35_43_21, 0xFFFF_FFFF] {
        let mut buffer = U20 { value };
        let shape = buffer.get_envelope_shape() as u32;
        let rough = buffer.get_rough_adj() as u32;
        let fine = buffer.get_fine_adj() as u32;
        assert_eq!(shape << 16 | rough << 8 | fine, value % 0x10_0000);
    }
}
