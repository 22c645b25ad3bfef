use sdl_ttf::style::{pack_styles, unpack_styles, FontStyle};

const NAMED: [FontStyle; 4] = [
    FontStyle::BoldStyle,
    FontStyle::ItalicStyle,
    FontStyle::UnderlineStyle,
    FontStyle::StrikethroughStyle,
];

#[test]
fn native_bits_of_each_flag() {
    assert_eq!(FontStyle::NormalStyle.to_native(), 0x00);
    assert_eq!(FontStyle::BoldStyle.to_native(), 0x01);
    assert_eq!(FontStyle::ItalicStyle.to_native(), 0x02);
    assert_eq!(FontStyle::UnderlineStyle.to_native(), 0x04);
    assert_eq!(FontStyle::StrikethroughStyle.to_native(), 0x08);
}

#[test]
fn pack_ors_the_flags() {
    assert_eq!(pack_styles(&[]), 0);
    assert_eq!(pack_styles(&[FontStyle::NormalStyle]), 0);
    assert_eq!(pack_styles(&[FontStyle::BoldStyle, FontStyle::UnderlineStyle]), 5);
    assert_eq!(pack_styles(&[FontStyle::BoldStyle, FontStyle::BoldStyle]), 1);
    assert_eq!(pack_styles(&NAMED), 15);
}

#[test]
fn unpack_lists_set_bits_in_order() {
    assert_eq!(unpack_styles(0), Vec::<FontStyle>::new());
    assert_eq!(
        unpack_styles(5),
        vec![FontStyle::BoldStyle, FontStyle::UnderlineStyle]
    );
    assert_eq!(unpack_styles(15), NAMED.to_vec());
    assert_eq!(unpack_styles(0x18), vec![FontStyle::StrikethroughStyle]);
}

#[test]
fn every_subset_round_trips() {
    for mask in 0u32..16 {
        let subset: Vec<FontStyle> = NAMED
            .iter()
            .enumerate()
            .filter(|(i, _)| mask & (1 << i) != 0)
            .map(|(_, f)| *f)
            .collect();
        let bits = pack_styles(&subset);
        assert_eq!(bits, mask as i32);
        assert_eq!(unpack_styles(bits), subset);
    }
}

#[test]
fn normal_and_repeats_read_back_as_the_set() {
    let written = [
        FontStyle::StrikethroughStyle,
        FontStyle::NormalStyle,
        FontStyle::ItalicStyle,
        FontStyle::StrikethroughStyle,
    ];
    assert_eq!(
        unpack_styles(pack_styles(&written)),
        vec![FontStyle::ItalicStyle, FontStyle::StrikethroughStyle]
    );
}
