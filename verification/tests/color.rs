use rysyn::color::{pack_rgb, unpack_rgb, Color, ColorExt, DawColors};

#[test]
fn lighten_adds_twenty_and_saturates() {
    let c = Color::from_rgba_premultiplied(250, 10, 235, 77).lighten();
    assert_eq!(c, Color { r: 255, g: 30, b: 255, a: 77 });
}

#[test]
fn track_colors_follow_the_palette() {
    assert_eq!(DawColors::track_color(0), Color::from_rgb(100, 180, 255));
    assert_eq!(DawColors::track_color(7), Color::from_rgb(255, 180, 180));
    assert_eq!(DawColors::track_color(8), DawColors::track_color(0));
    assert_eq!(DawColors::track_color(13), DawColors::track_color(5));
}

#[test]
fn track_color_u32_packs_rgb_opaque() {
    assert_eq!(DawColors::track_color_u32(0), 0x64B4_FFFF);
    assert_eq!(DawColors::track_color_u32(1), 0xFF96_64FF);
    assert_eq!(DawColors::track_color_u32(9), 0xFF96_64FF);
}

#[test]
fn unpack_of_pack_roundtrips() {
    for (r, g, b) in [(0u8, 0u8, 0u8), (1, 2, 3), (255, 128, 7)] {
        assert_eq!(unpack_rgb(pack_rgb(r, g, b)), Color::from_rgb(r, g, b));
    }
    assert_eq!(pack_rgb(0x12, 0x34, 0x56), 0x1234_56FF);
    assert_eq!(unpack_rgb(0xFF80_8000), Color::from_rgb(0xFF, 0x80, 0x80));
    for i in 0..16 {
        assert_eq!(unpack_rgb(DawColors::track_color_u32(i)), DawColors::track_color(i));
    }
}

#[test]
fn fixed_colours_of_the_interface() {
    let colors = DawColors::track_colors();
    assert_eq!(colors[0], Color::from_rgb(100, 180, 255));
    assert_eq!(colors[7], Color::from_rgb(255, 180, 180));
    for i in 0..8 {
        assert_eq!(DawColors::track_color(i), colors[i]);
    }
    assert_eq!(DawColors::play(), Color::from_rgb(50, 220, 100));
    assert_eq!(DawColors::stop(), Color::from_rgb(200, 200, 200));
    assert_eq!(DawColors::record(), Color::from_rgb(255, 60, 60));
    assert_eq!(DawColors::looping(), Color::from_rgb(80, 170, 255));
    assert_eq!(DawColors::meter_green(), Color::from_rgb(50, 220, 100));
    assert_eq!(DawColors::meter_yellow(), Color::from_rgb(255, 200, 50));
    assert_eq!(DawColors::meter_red(), Color::from_rgb(255, 60, 60));
    assert_eq!(DawColors::grid_bar(), Color::from_rgb(60, 60, 65));
    assert_eq!(DawColors::grid_beat(), Color::from_rgb(40, 40, 45));
    assert_eq!(DawColors::playhead(), Color::from_rgb(255, 100, 100));
}
