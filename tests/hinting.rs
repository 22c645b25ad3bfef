use sdl_ttf::hinting::FontHinting;

const MODES: [FontHinting; 4] = [
    FontHinting::NormalHinting,
    FontHinting::LightHinting,
    FontHinting::MonoHinting,
    FontHinting::NoneHinting,
];

#[test]
fn native_codes() {
    assert_eq!(FontHinting::NormalHinting.to_native(), 0);
    assert_eq!(FontHinting::LightHinting.to_native(), 1);
    assert_eq!(FontHinting::MonoHinting.to_native(), 2);
    assert_eq!(FontHinting::NoneHinting.to_native(), 3);
}

#[test]
fn every_mode_round_trips() {
    for mode in MODES {
        assert_eq!(FontHinting::from_native(mode.to_native()), Some(mode));
    }
}

#[test]
fn unknown_codes_are_rejected() {
    assert_eq!(FontHinting::from_native(4), None);
    assert_eq!(FontHinting::from_native(-1), None);
    assert_eq!(FontHinting::from_native(i32::MAX), None);
    assert_eq!(FontHinting::from_native(i32::MIN), None);
}
