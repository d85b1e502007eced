use tee_morphosis::tee::hsl::{
    ddnet_color_to_hsl, img_hsl_transform, tint, ChannelTables, HSL, RGB, RGB_DENOMINATOR,
};
use tee_morphosis::tee::pixels::PixelBuffer;

const DARKEST_LGT: f32 = 0.5;

/// The unpacked color as floats in `[0, 1]`.
fn to_floats(hsl: HSL) -> (f32, f32, f32) {
    let h = hsl.h as f32 / 255.0;
    let s = hsl.s as f32 / 255.0;
    let l_compressed = (hsl.l - 255) as f32 / 255.0;
    (h, s, DARKEST_LGT + l_compressed * (1.0 - DARKEST_LGT))
}

fn hsl_to_ddnet_color(h: f32, s: f32, l: f32) -> u32 {
    let l_compressed = (l - DARKEST_LGT) / (1.0 - DARKEST_LGT);
    let l_clamped = l_compressed.clamp(0.0, 1.0);

    let h_byte = (h * 255.0).clamp(0.0, 255.0) as u32;
    let s_byte = (s * 255.0).clamp(0.0, 255.0) as u32;
    let l_byte = (l_clamped * 255.0).clamp(0.0, 255.0) as u32;

    (h_byte << 16) | (s_byte << 8) | l_byte + 1
}

fn hsl_to_rgb(h: f32, s: f32, l: f32) -> (f32, f32, f32) {
    let h1 = h * 6.0;
    let c = (1.0 - (2.0 * l - 1.0).abs()) * s;
    let x = c * (1.0 - ((h1 % 2.0) - 1.0).abs());

    let (r, g, b) = match h1.floor() as i32 {
        0 => (c, x, 0.0),
        1 => (x, c, 0.0),
        2 => (0.0, c, x),
        3 => (0.0, x, c),
        4 => (x, 0.0, c),
        5 | 6 => (c, 0.0, x),
        _ => (c, 0.0, x),
    };

    let m = l - (c / 2.0);
    (r + m, g + m, b + m)
}

/// One table entry: a channel value multiplied by a factor.
fn tinted(value: u8, factor: f32) -> u8 {
    ((value as f32 / 255.0 * factor) * 255.0).clamp(0.0, 255.0) as u8
}

fn tables_for(r: f32, g: f32, b: f32) -> ChannelTables {
    let mut tables = ChannelTables { red: [0; 256], green: [0; 256], blue: [0; 256] };
    for v in 0..=255u8 {
        tables.red[v as usize] = tinted(v, r);
        tables.green[v as usize] = tinted(v, g);
        tables.blue[v as usize] = tinted(v, b);
    }
    tables
}

#[test]
fn test_ddnet_color_1900500() {
    let color = 1900500;

    println!("Raw color: 0x{:06X} ({})", color, color);

    let (h, s, l) = to_floats(ddnet_color_to_hsl(color));
    println!(
        "Decoded HSL: H={:.0}°, S={:.0}%, L={:.0}%",
        h * 360.0,
        s * 100.0,
        l * 100.0
    );

    assert!((h * 360.0 - 40.0).abs() < 1.0, "Hue should be ~40°");
    assert!((s * 100.0 - 100.0).abs() < 1.0, "Saturation should be ~100%");
    assert!((l * 100.0 - 92.0).abs() < 1.0, "Lightness should be ~92%");

    let (r, g, b) = hsl_to_rgb(h, s, l);
    println!(
        "Converted to RGB: R={}, G={}, B={} (#{:02X}{:02X}{:02X})",
        (r * 255.0) as u8,
        (g * 255.0) as u8,
        (b * 255.0) as u8,
        (r * 255.0) as u8,
        (g * 255.0) as u8,
        (b * 255.0) as u8
    );

    assert!((r * 255.0 - 255.0).abs() < 2.0, "R should be ~255");
    assert!((g * 255.0 - 240.0).abs() < 2.0, "G should be ~240");
    assert!((b * 255.0 - 212.0).abs() < 2.0, "B should be ~212");
}

#[test]
fn test_roundtrip() {
    let original_color = 1900500;
    let (h, s, l) = to_floats(ddnet_color_to_hsl(original_color));
    let packed_back = hsl_to_ddnet_color(h, s, l);

    println!("Original: 0x{:06X}, Roundtrip: 0x{:06X}", original_color, packed_back);
    assert_eq!(original_color, packed_back, "Color should survive roundtrip");
}

#[test]
fn unpacks_the_three_bytes() {
    // 1900500 is 0x1CFFD4
    let hsl = ddnet_color_to_hsl(1900500);
    assert_eq!(hsl, HSL { h: 0x1c, s: 0xff, l: 255 + 0xd4 });
    assert_eq!(ddnet_color_to_hsl(0), HSL { h: 0, s: 0, l: 255 });
    assert_eq!(ddnet_color_to_hsl(0x00ff_ffff), HSL { h: 255, s: 255, l: 510 });
}

#[test]
fn bits_above_the_packed_color_are_ignored() {
    assert_eq!(ddnet_color_to_hsl(0xab12_3456), HSL { h: 0x12, s: 0x34, l: 255 + 0x56 });
}

#[test]
fn unpacked_lightness_is_never_below_one_half() {
    for low in 0..=255u32 {
        let hsl = ddnet_color_to_hsl(0x1c_ff00 | low);
        assert!(2 * hsl.l as u32 >= 510);
        assert_eq!(hsl.l as u32, 255 + low);
    }
}

#[test]
fn recolor_keeps_alpha_and_looks_up_each_channel() {
    let data: Vec<u8> = vec![10, 20, 30, 40, 200, 100, 50, 255, 0, 255, 128, 0];
    let mut img = PixelBuffer::from_raw(3, 1, data.clone()).unwrap();
    let tables = tables_for(0.5, 1.0, 0.25);
    img_hsl_transform(&mut img, &tables);
    assert_eq!(img.width, 3);
    assert_eq!(img.height, 1);
    for p in 0..3 {
        assert_eq!(img.data[4 * p], tables.red[data[4 * p] as usize]);
        assert_eq!(img.data[4 * p + 1], tables.green[data[4 * p + 1] as usize]);
        assert_eq!(img.data[4 * p + 2], tables.blue[data[4 * p + 2] as usize]);
        assert_eq!(img.data[4 * p + 3], data[4 * p + 3]);
    }
    // 200 / 255 * 0.5 * 255 = 100, 50 / 255 * 0.25 * 255 = 12.5
    assert_eq!(img.data[4], 100);
    assert_eq!(img.data[6], 12);
}

#[test]
fn recolor_twice_multiplies_twice() {
    let mut img = PixelBuffer::from_raw(1, 1, vec![200, 200, 200, 7]).unwrap();
    let tables = tables_for(0.5, 0.5, 0.5);
    img_hsl_transform(&mut img, &tables);
    assert_eq!(img.data, vec![100, 100, 100, 7]);
    img_hsl_transform(&mut img, &tables);
    assert_eq!(img.data, vec![50, 50, 50, 7]);
}

#[test]
fn recolor_of_an_empty_image_changes_nothing() {
    let mut img = PixelBuffer::new(0, 5);
    img_hsl_transform(&mut img, &tables_for(0.3, 0.3, 0.3));
    assert_eq!(img.data.len(), 0);
    assert_eq!((img.width, img.height), (0, 5));
}

#[test]
fn tint_of_the_representative_color() {
    let (h, s, l) = to_floats(ddnet_color_to_hsl(1900500));
    let (r, g, b) = hsl_to_rgb(h, s, l);
    let tables = tables_for(r, g, b);
    let mut img = PixelBuffer::from_raw(1, 1, vec![255, 255, 255, 255]).unwrap();
    img_hsl_transform(&mut img, &tables);
    assert!((img.data[0] as i32 - 255).abs() <= 2);
    assert!((img.data[1] as i32 - 240).abs() <= 2);
    assert!((img.data[2] as i32 - 212).abs() <= 2);
    assert_eq!(img.data[3], 255);
}

#[test]
fn exact_factors_of_the_representative_color() {
    let hsl = ddnet_color_to_hsl(1900500);
    let rgb = hsl_to_exact_rgb(hsl);
    // chroma 43 * 255, ramp 168, lightness 467 / 510
    assert_eq!(rgb, RGB { r: 33_162_750, g: 31_254_840, b: 27_570_600 });
    let tables = ChannelTables::from_hsl(hsl);
    assert_eq!((tables.red[255], tables.green[255], tables.blue[255]), (255, 240, 212));
    assert_eq!((tables.red[0], tables.green[0], tables.blue[0]), (0, 0, 0));
    assert_eq!((tables.red[100], tables.green[100], tables.blue[100]), (100, 94, 83));
    // the float conversion agrees within rounding
    let (h, s, l) = to_floats(hsl);
    let (r, g, b) = hsl_to_rgb(h, s, l);
    let d = RGB_DENOMINATOR as f32;
    assert!((rgb.r as f32 / d - r).abs() < 1e-5);
    assert!((rgb.g as f32 / d - g).abs() < 1e-5);
    assert!((rgb.b as f32 / d - b).abs() < 1e-5);
}

fn hsl_to_exact_rgb(hsl: HSL) -> RGB {
    tee_morphosis::tee::hsl::hsl_to_rgb(hsl)
}

#[test]
fn each_sector_of_the_color_circle() {
    let d = RGB_DENOMINATOR;
    let x = 65025 * 252 * 2;
    let full = |h: u8| hsl_to_exact_rgb(HSL { h, s: 255, l: 255 });
    assert_eq!(full(0), RGB { r: d, g: 0, b: 0 });
    assert_eq!(full(43), RGB { r: x, g: d, b: 0 });
    assert_eq!(full(85), RGB { r: 0, g: d, b: 0 });
    assert_eq!(full(128), RGB { r: 0, g: x, b: d });
    assert_eq!(full(170), RGB { r: 0, g: 0, b: d });
    assert_eq!(full(213), RGB { r: d, g: 0, b: x });
    // the hue of one comes round to red again
    assert_eq!(full(255), RGB { r: d, g: 0, b: 0 });
    // just below the next sector
    assert_eq!(full(42), RGB { r: d, g: 65025 * 252 * 2, b: 0 });
    assert_eq!(full(84), RGB { r: 65025 * 6 * 2, g: d, b: 0 });
}

#[test]
fn colors_without_saturation_are_grey() {
    let d = RGB_DENOMINATOR;
    assert_eq!(hsl_to_exact_rgb(HSL { h: 77, s: 0, l: 510 }), RGB { r: d, g: d, b: d });
    assert_eq!(hsl_to_exact_rgb(HSL { h: 77, s: 0, l: 0 }), RGB { r: 0, g: 0, b: 0 });
    assert_eq!(hsl_to_exact_rgb(HSL { h: 77, s: 255, l: 510 }), RGB { r: d, g: d, b: d });
    assert_eq!(hsl_to_exact_rgb(HSL { h: 77, s: 255, l: 0 }), RGB { r: 0, g: 0, b: 0 });
    let half = 255 * 255 * 255;
    assert_eq!(hsl_to_exact_rgb(HSL { h: 200, s: 0, l: 255 }), RGB { r: half, g: half, b: half });
}

#[test]
fn factors_stay_between_nought_and_one() {
    for h in (0..=255u8).step_by(5) {
        for s in (0..=255u8).step_by(15) {
            for l in (0..=510u16).step_by(17) {
                let rgb = hsl_to_exact_rgb(HSL { h, s, l });
                assert!(rgb.r <= RGB_DENOMINATOR);
                assert!(rgb.g <= RGB_DENOMINATOR);
                assert!(rgb.b <= RGB_DENOMINATOR);
            }
        }
    }
}

#[test]
fn tint_cuts_off_and_clamps() {
    let d = RGB_DENOMINATOR;
    assert_eq!(tint(200, d / 2), 100);
    assert_eq!(tint(255, d), 255);
    assert_eq!(tint(255, d - 1), 254);
    assert_eq!(tint(50, d / 4), 12);
    assert_eq!(tint(3, d / 2), 1);
    assert_eq!(tint(0, d), 0);
    assert_eq!(tint(77, 0), 0);
    // a factor above one is held at the top of the range
    assert_eq!(tint(200, 2 * d), 255);
    assert_eq!(tint(100, 2 * d), 200);
    assert_eq!(tint(255, u32::MAX), 255);
    let tables = ChannelTables::from_rgb(RGB { r: d / 2, g: d, b: 0 });
    for v in 0..=255u8 {
        assert_eq!(tables.red[v as usize], tint(v, d / 2));
        assert_eq!(tables.red[v as usize], v / 2);
        assert_eq!(tables.green[v as usize], v);
        assert_eq!(tables.blue[v as usize], 0);
    }
}

#[test]
fn exact_recolor_of_an_image() {
    let hsl = ddnet_color_to_hsl(1900500);
    let mut img = PixelBuffer::from_raw(2, 1, vec![255, 255, 255, 9, 100, 100, 100, 0]).unwrap();
    img_hsl_transform(&mut img, &ChannelTables::from_hsl(hsl));
    assert_eq!(img.data, vec![255, 240, 212, 9, 100, 94, 83, 0]);
}
