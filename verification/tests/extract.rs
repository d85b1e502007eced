use tee_morphosis::error::TeeError;
use tee_morphosis::tee::parts::{EyeType, EyeTypeData};
use tee_morphosis::tee::pixels::PixelBuffer;
use tee_morphosis::tee::uv::{tee_uv_layout, Part, UV};
use tee_morphosis::tee::{
    extract_all_eyes, extract_part, extract_with_shadow, validate_image_dimensions, Tee,
};

/// An image whose pixel at `(x, y)` is `[x, y, x + y, 255 - x]` (mod 256).
fn gradient(width: u32, height: u32) -> PixelBuffer {
    let mut data = Vec::new();
    for y in 0..height {
        for x in 0..width {
            data.push(x as u8);
            data.push(y as u8);
            data.push((x + y) as u8);
            data.push(255u8.wrapping_sub(x as u8));
        }
    }
    PixelBuffer::from_raw(width, height, data).unwrap()
}

#[test]
fn extract_copies_exactly_the_region() {
    let img = gradient(10, 8);
    let part = Part { x: 3, y: 2, w: 4, h: 5 };
    let out = extract_part(&img, part).unwrap();
    assert_eq!((out.width, out.height), (4, 5));
    assert_eq!(out.data.len(), 4 * 5 * 4);
    for y in 0..5u32 {
        for x in 0..4u32 {
            assert_eq!(out.get_pixel(x, y), img.get_pixel(3 + x, 2 + y));
            assert_eq!(out.get_pixel(x, y), [(3 + x) as u8, (2 + y) as u8, (5 + x + y) as u8, 252 - x as u8]);
        }
    }
}

#[test]
fn extract_does_not_alias_the_source() {
    let mut img = gradient(4, 4);
    let out = extract_part(&img, Part { x: 0, y: 0, w: 4, h: 4 }).unwrap();
    let before = out.data.clone();
    img.data[0] = 99;
    assert_eq!(out.data, before);
}

#[test]
fn region_that_ends_at_the_edge_fits() {
    let img = gradient(10, 8);
    let out = extract_part(&img, Part { x: 6, y: 0, w: 4, h: 8 }).unwrap();
    assert_eq!((out.width, out.height), (4, 8));
    assert_eq!(out.get_pixel(3, 7), img.get_pixel(9, 7));
}

#[test]
fn region_one_pixel_beyond_the_width_is_out_of_bounds() {
    let img = gradient(10, 8);
    let part = Part { x: 7, y: 0, w: 4, h: 8 };
    match extract_part(&img, part) {
        Err(TeeError::OutOfBounds { part: p, width, height }) => {
            assert_eq!(p, part);
            assert_eq!((width, height), (10, 8));
        }
        other => panic!("expected OutOfBounds, got {:?}", other.map(|b| (b.width, b.height))),
    }
}

#[test]
fn region_one_pixel_beyond_the_height_is_out_of_bounds() {
    let img = gradient(10, 8);
    let part = Part { x: 0, y: 1, w: 10, h: 8 };
    assert!(matches!(
        extract_part(&img, part),
        Err(TeeError::OutOfBounds { part: p, width: 10, height: 8 }) if p == part
    ));
}

#[test]
fn region_whose_sum_overflows_is_out_of_bounds() {
    let img = gradient(10, 8);
    let part = Part { x: u32::MAX, y: 0, w: 2, h: 1 };
    assert!(matches!(extract_part(&img, part), Err(TeeError::OutOfBounds { .. })));
    let part = Part { x: 0, y: u32::MAX, w: 1, h: u32::MAX };
    assert!(matches!(extract_part(&img, part), Err(TeeError::OutOfBounds { .. })));
}

#[test]
fn empty_region_is_an_empty_image() {
    let img = gradient(10, 8);
    let out = extract_part(&img, Part { x: 10, y: 8, w: 0, h: 0 }).unwrap();
    assert_eq!((out.width, out.height, out.data.len()), (0, 0, 0));
    let out = extract_part(&img, Part { x: 2, y: 2, w: 0, h: 3 }).unwrap();
    assert_eq!((out.width, out.height, out.data.len()), (0, 3, 0));
}

#[test]
fn with_shadow_reports_the_part_before_the_shadow() {
    let img = gradient(10, 8);
    let good = Part { x: 0, y: 0, w: 2, h: 2 };
    let bad_a = Part { x: 9, y: 0, w: 2, h: 2 };
    let bad_b = Part { x: 0, y: 7, w: 2, h: 2 };
    let pair = extract_with_shadow(&img, good, Part { x: 2, y: 2, w: 3, h: 1 }).unwrap();
    assert_eq!(pair.value.get_pixel(1, 1), img.get_pixel(1, 1));
    assert_eq!((pair.shadow.width, pair.shadow.height), (3, 1));
    assert_eq!(pair.shadow.get_pixel(2, 0), img.get_pixel(4, 2));
    assert!(matches!(
        extract_with_shadow(&img, bad_a, bad_b),
        Err(TeeError::OutOfBounds { part, .. }) if part == bad_a
    ));
    assert!(matches!(
        extract_with_shadow(&img, good, bad_b),
        Err(TeeError::OutOfBounds { part, .. }) if part == bad_b
    ));
}

#[test]
fn eyes_come_in_order_and_the_first_misfit_is_reported() {
    let img = gradient(12, 2);
    let mut parts = [Part { x: 0, y: 0, w: 2, h: 2 }; 6];
    for i in 0..6 {
        parts[i].x = 2 * i as u32;
    }
    let eyes = extract_all_eyes(&img, &parts).unwrap();
    assert!(matches!(eyes[0], EyeTypeData::Normal(_)));
    assert!(matches!(eyes[1], EyeTypeData::Angry(_)));
    assert!(matches!(eyes[2], EyeTypeData::Pain(_)));
    assert!(matches!(eyes[3], EyeTypeData::Happy(_)));
    assert!(matches!(eyes[4], EyeTypeData::Empty(_)));
    assert!(matches!(eyes[5], EyeTypeData::Surprise(_)));
    for i in 0..6 {
        assert_eq!(eyes[i].image_ref().get_pixel(0, 0), img.get_pixel(2 * i as u32, 0));
    }
    parts[2].w = 100;
    parts[4].h = 100;
    assert!(matches!(
        extract_all_eyes(&img, &parts),
        Err(TeeError::OutOfBounds { part, width: 12, height: 2 }) if part == parts[2]
    ));
}

#[test]
fn dimensions_must_match_exactly() {
    assert!(validate_image_dimensions((256, 128), (256, 128)).is_ok());
    assert!(matches!(
        validate_image_dimensions((256, 129), (256, 128)),
        Err(TeeError::InvalidDimensions { expected: (256, 128), found: (256, 129) })
    ));
    assert!(matches!(
        validate_image_dimensions((128, 256), (256, 128)),
        Err(TeeError::InvalidDimensions { expected: (256, 128), found: (128, 256) })
    ));
}

#[test]
fn larger_sheet_is_refused_though_every_region_fits() {
    let img = gradient(512, 256);
    assert!(matches!(
        Tee::from_pixels(&img, tee_uv_layout()),
        Err(TeeError::InvalidDimensions { expected: (256, 128), found: (512, 256) })
    ));
}

#[test]
fn sheet_of_the_right_size_with_a_region_outside_is_out_of_bounds() {
    let img = gradient(256, 128);
    let mut uv: UV = tee_uv_layout();
    uv.hand.x = 250;
    uv.eyes[3].y = 120;
    assert!(matches!(
        Tee::from_pixels(&img, uv),
        Err(TeeError::OutOfBounds { part, width: 256, height: 128 }) if part == uv.hand
    ));
    let mut uv: UV = tee_uv_layout();
    uv.eyes[3].y = 120;
    uv.eyes[5].y = 120;
    assert!(matches!(
        Tee::from_pixels(&img, uv),
        Err(TeeError::OutOfBounds { part, .. }) if part == uv.eyes[3]
    ));
}

#[test]
fn parts_are_the_regions_of_the_layout() {
    let img = gradient(256, 128);
    let uv = tee_uv_layout();
    let tee = Tee::from_pixels(&img, uv).unwrap();
    assert_eq!(tee.body.value.get_pixel(5, 6), img.get_pixel(5, 6));
    assert_eq!(tee.body.shadow.get_pixel(5, 6), img.get_pixel(96 + 5, 6));
    assert_eq!(tee.feet.value.get_pixel(63, 31), img.get_pixel(192 + 63, 32 + 31));
    assert_eq!(tee.feet.shadow.get_pixel(0, 0), img.get_pixel(192, 64));
    assert_eq!(tee.hand.value.get_pixel(1, 2), img.get_pixel(193, 2));
    assert_eq!(tee.hand.shadow.get_pixel(1, 2), img.get_pixel(225, 2));
    assert_eq!((tee.body.value.width, tee.body.value.height), (96, 96));
    assert_eq!((tee.feet.value.width, tee.feet.value.height), (64, 32));
    assert_eq!((tee.hand.shadow.width, tee.hand.shadow.height), (32, 32));
    assert_eq!(tee.used_uv.container, (256, 128));
    assert_eq!(tee.used_uv.eyes[5], uv.eyes[5]);
}

#[test]
fn each_eye_is_found_under_its_ordinal() {
    let img = gradient(256, 128);
    let uv = tee_uv_layout();
    let tee = Tee::from_pixels(&img, uv).unwrap();
    let states = [
        EyeType::Normal,
        EyeType::Angry,
        EyeType::Pain,
        EyeType::Happy,
        EyeType::Empty,
        EyeType::Surprise,
    ];
    for (i, state) in states.iter().enumerate() {
        assert_eq!(state.index(), i);
        let eye = tee.get_eye(*state);
        assert_eq!((eye.width, eye.height), (32, 32));
        let region = uv.eyes[i];
        assert_eq!(region.x, 64 + 32 * i as u32);
        for (x, y) in [(0u32, 0u32), (31, 0), (7, 19), (31, 31)] {
            assert_eq!(eye.get_pixel(x, y), img.get_pixel(region.x + x, region.y + y));
        }
        assert_eq!(eye.data, tee.eye[i].image_ref().data);
    }
    let all = tee.get_all_eyes();
    assert_eq!(all.len(), 6);
    for (i, (state, eye)) in all.iter().enumerate() {
        assert_eq!(*state, states[i]);
        assert_eq!(eye.data, tee.get_eye(states[i]).data);
    }
}

#[test]
fn well_formedness_is_checked() {
    let mut tee = Tee::from_pixels(&gradient(256, 128), tee_uv_layout()).unwrap();
    assert!(tee.is_well_formed());
    assert!(tee.body.is_well_formed());
    tee.body.shadow.data.pop();
    assert!(!tee.body.shadow.is_well_formed());
    assert!(!tee.body.is_well_formed());
    assert!(!tee.is_well_formed());
    let mut tee = Tee::from_pixels(&gradient(256, 128), tee_uv_layout()).unwrap();
    tee.eye.swap(1, 2);
    assert!(!tee.is_well_formed());
    tee.eye.swap(1, 2);
    assert!(tee.is_well_formed());
    assert_eq!(tee.eye[4].tag(), EyeType::Empty);
    match &mut tee.eye[5] {
        EyeTypeData::Surprise(img) => img.width = 31,
        _ => panic!("expected the last eye"),
    }
    assert!(!tee.is_well_formed());
}
