use mandelbrot::color::color_to_rgba;
use mandelbrot::color::mix_channel;
use mandelbrot::color::Rgb;
use mandelbrot::error::RenderError;
use mandelbrot::palette::Palette;
use mandelbrot::sample::Sample;

fn gray_ramp(max_iterations: u32) -> Vec<Rgb> {
    let mut colors: Vec<Rgb> = Vec::new();
    let mut i: u32 = 0;
    while i <= max_iterations {
        let level: u8 = (i * 10) as u8;
        colors.push(Rgb { red: level, green: level, blue: level });
        i += 1;
    }
    colors
}

#[test]
fn mix_channel_is_lower_end_at_fraction_zero() {
    assert_eq!(mix_channel(10, 20, 0), 10);
    assert_eq!(mix_channel(200, 3, 0), 200);
}

#[test]
fn mix_channel_halfway_rounds_down() {
    assert_eq!(mix_channel(0, 255, 32768), 127);
    assert_eq!(mix_channel(255, 0, 32768), 127);
    assert_eq!(mix_channel(10, 20, 32768), 15);
    assert_eq!(mix_channel(20, 10, 32768), 15);
}

#[test]
fn mix_channel_quarter_and_three_quarters() {
    assert_eq!(mix_channel(0, 100, 16384), 25);
    assert_eq!(mix_channel(0, 100, 49152), 75);
    assert_eq!(mix_channel(100, 0, 16384), 75);
}

#[test]
fn mix_channel_comes_within_one_of_upper_end() {
    assert_eq!(mix_channel(0, 255, 65535), 254);
    assert_eq!(mix_channel(255, 0, 65535), 0);
    assert_eq!(mix_channel(7, 7, 65535), 7);
}

#[test]
fn mix_blends_each_channel_on_its_own() {
    let from: Rgb = Rgb { red: 0, green: 100, blue: 255 };
    let to: Rgb = Rgb { red: 255, green: 100, blue: 0 };
    assert_eq!(from.mix(&to, 32768), Rgb { red: 127, green: 100, blue: 127 });
    assert_eq!(from.mix(&to, 0), from);
}

#[test]
fn interior_color_is_black() {
    assert_eq!(Rgb::interior(), Rgb { red: 0, green: 0, blue: 0 });
}

#[test]
fn rgba_bytes_are_channels_and_full_alpha() {
    let color: Rgb = Rgb { red: 1, green: 2, blue: 3 };
    assert_eq!(color_to_rgba(&color), [1, 2, 3, 0xff]);
}

#[test]
fn palette_has_one_entry_more_than_the_cap() {
    let palette: Palette = Palette::new(gray_ramp(1000), 1000).unwrap();
    assert_eq!(palette.len(), 1001);
    assert_eq!(palette.max_iterations(), 1000);
}

#[test]
fn palette_of_another_length_is_rejected() {
    assert_eq!(Palette::new(gray_ramp(9), 10).err(), Some(RenderError::PaletteLength));
    assert_eq!(Palette::new(gray_ramp(11), 10).err(), Some(RenderError::PaletteLength));
    assert_eq!(Palette::new(Vec::new(), 0).err(), Some(RenderError::PaletteLength));
    assert!(Palette::new(gray_ramp(10), 10).is_ok());
}

#[test]
fn palette_entry_by_index() {
    let palette: Palette = Palette::new(gray_ramp(4), 4).unwrap();
    assert_eq!(palette.entry(0), Some(Rgb { red: 0, green: 0, blue: 0 }));
    assert_eq!(palette.entry(4), Some(Rgb { red: 40, green: 40, blue: 40 }));
    assert_eq!(palette.entry(5), None);
}

#[test]
fn color_of_whole_count_is_its_entry() {
    let palette: Palette = Palette::new(gray_ramp(4), 4).unwrap();
    let color: Rgb = palette.color_at(Sample::Escaped { whole: 2, fraction: 0 });
    assert_eq!(color, Rgb { red: 20, green: 20, blue: 20 });
}

#[test]
fn color_of_fractional_count_lies_between_its_entries() {
    let palette: Palette = Palette::new(gray_ramp(4), 4).unwrap();
    let color: Rgb = palette.color_at(Sample::Escaped { whole: 2, fraction: 32768 });
    assert_eq!(color, Rgb { red: 25, green: 25, blue: 25 });
}

#[test]
fn color_approaches_last_entry_below_the_cap() {
    let palette: Palette = Palette::new(gray_ramp(4), 4).unwrap();
    let near: Rgb = palette.color_at(Sample::Escaped { whole: 3, fraction: 65535 });
    assert_eq!(near, Rgb { red: 39, green: 39, blue: 39 });
    let nearer_than: Rgb = palette.color_at(Sample::Escaped { whole: 3, fraction: 60000 });
    assert!(nearer_than.red <= near.red);
    assert_eq!(palette.entry(4), Some(Rgb { red: 40, green: 40, blue: 40 }));
}

#[test]
fn color_of_interior_is_black_whatever_the_table() {
    let palette: Palette = Palette::new(gray_ramp(4), 4).unwrap();
    assert_eq!(palette.color_at(Sample::Interior), Rgb { red: 0, green: 0, blue: 0 });
}

#[test]
fn count_at_or_above_the_cap_is_held_back_to_the_last_pair() {
    let palette: Palette = Palette::new(gray_ramp(4), 4).unwrap();
    let at_cap: Rgb = palette.color_at(Sample::Escaped { whole: 4, fraction: 0 });
    assert_eq!(at_cap, Rgb { red: 30, green: 30, blue: 30 });
    let beyond: Rgb = palette.color_at(Sample::Escaped { whole: 4000, fraction: 32768 });
    assert_eq!(beyond, Rgb { red: 35, green: 35, blue: 35 });
}

#[test]
fn table_of_one_entry_serves_cap_zero() {
    let palette: Palette = Palette::new(gray_ramp(0), 0).unwrap();
    assert_eq!(palette.max_iterations(), 0);
    let color: Rgb = palette.color_at(Sample::Escaped { whole: 0, fraction: 100 });
    assert_eq!(color, Rgb { red: 0, green: 0, blue: 0 });
}

#[test]
fn sample_at_or_above_cap_is_interior() {
    assert_eq!(Sample::new(1000, 0, 1000), Sample::Interior);
    assert_eq!(Sample::new(1001, 5, 1000), Sample::Interior);
    assert_eq!(Sample::new(999, 65535, 1000), Sample::Escaped { whole: 999, fraction: 65535 });
    assert_eq!(Sample::new(0, 0, 0), Sample::Interior);
}

#[test]
fn sample_zero_is_escaped_count_zero() {
    assert_eq!(Sample::zero(), Sample::Escaped { whole: 0, fraction: 0 });
    assert!(!Sample::zero().is_interior());
    assert!(Sample::Interior.is_interior());
}
