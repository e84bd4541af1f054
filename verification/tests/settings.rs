use bottomless_pit::settings::{Resolutions, Settings};

#[test]
fn resolution_to_u8() {
    let zero = Resolutions::X1920x1080;
    let one = Resolutions::X1280x720;
    let two = Resolutions::X854x360;

    assert_eq!(u8::from(0), zero.into());
    assert_eq!(u8::from(1), one.into());
    assert_eq!(u8::from(2), two.into());
}

#[test]
fn u8_to_resolution() {
    let x1920_1080 = Resolutions::from(0);
    let x1280_720 = Resolutions::from(1);
    let x854x360 = Resolutions::from(2);

    assert_eq!(x1920_1080, Resolutions::X1920x1080);
    assert_eq!(x1280_720, Resolutions::X1280x720);
    assert_eq!(x854x360, Resolutions::X854x360);
}

#[test]
fn resolution_sizes() {
    assert_eq!(Resolutions::X1920x1080.len_width(), (1920, 1080));
    assert_eq!(Resolutions::X1280x720.len_width(), (1280, 720));
    assert_eq!(Resolutions::X854x360.len_width(), (854, 360));
    assert_eq!(Resolutions::defualt(), Resolutions::X1280x720);
}

#[test]
fn default_settings() {
    let s = Settings::default();
    assert_eq!(s.resolution, Resolutions::X1280x720);
    assert_eq!(s.get_volume(), 10);
    assert_eq!(s.get_resoultion(), (1280, 720));
}

#[test]
fn settings_bytes_roundtrip() {
    let mut s = Settings::default();
    s.update_settings(Resolutions::X854x360, 77);
    let bytes = s.to_bytes();
    assert_eq!(bytes, [2, 77]);
    let back = Settings::from_bytes(bytes);
    assert_eq!(back, s);
    assert_eq!(back.get_resoultion(), (854, 360));
}

#[test]
fn settings_from_bytes() {
    let s = Settings::from_bytes([0, 3]);
    assert_eq!(s, Settings::new(Resolutions::X1920x1080, 3));
}
