use fork_core::sprite::{source, AnimationName, ClipOrientation, SpriteAtlasCache};
use fork_core::ErrorKind;

/// A deterministic 7-by-11 grid sheet with cells of the given size; every
/// pixel is a function of its coordinates, so any crop or flip is
/// checkable.
fn sheet_png(cell_w: u32, cell_h: u32) -> Vec<u8> {
    let w = cell_w * 7;
    let h = cell_h * 11;
    let img = image::RgbaImage::from_fn(w, h, |x, y| {
        image::Rgba([(x % 251) as u8, (y % 241) as u8, ((x + 3 * y) % 253) as u8, 255])
    });
    let mut bytes: Vec<u8> = Vec::new();
    let mut cursor = std::io::Cursor::new(&mut bytes);
    image::DynamicImage::ImageRgba8(img)
        .write_to(&mut cursor, image::ImageFormat::Png)
        .unwrap();
    bytes
}

fn source_pixel(x: u32, y: u32) -> [u8; 4] {
    [(x % 251) as u8, (y % 241) as u8, ((x + 3 * y) % 253) as u8, 255]
}

#[test]
fn sheet_layout_follows_the_fixed_grid() {
    let bytes = sheet_png(20, 10);
    let sheet = source(&bytes).unwrap();
    assert_eq!(sheet.width, 140);
    assert_eq!(sheet.height, 110);
    for i in 0..4usize {
        let clip = sheet.clip_at(AnimationName::Idle, i).unwrap();
        assert_eq!(clip.rect.x, i as u32 * 20);
        assert_eq!(clip.rect.y, 0);
        assert_eq!(clip.rect.width, 20);
        assert_eq!(clip.rect.height, 10);
    }
    for i in 0..6usize {
        let clip = sheet.clip_at(AnimationName::Running, i).unwrap();
        assert_eq!(clip.rect.x, (i as u32 + 1) * 20);
        assert_eq!(clip.rect.y, 10);
        assert_eq!(clip.rect.width, 20);
        assert_eq!(clip.rect.height, 10);
    }
}

#[test]
fn clip_lookup_out_of_range_is_rejected() {
    let bytes = sheet_png(7, 7);
    let sheet = source(&bytes).unwrap();
    assert_eq!(
        sheet.clip_at(AnimationName::Idle, 4).err(),
        Some(ErrorKind::IndexOutOfRange)
    );
    assert_eq!(
        sheet.clip_at(AnimationName::Running, 6).err(),
        Some(ErrorKind::IndexOutOfRange)
    );
}

#[test]
fn clip_lookup_by_name_string() {
    let bytes = sheet_png(8, 4);
    let sheet = source(&bytes).unwrap();
    assert!(sheet.get_clip("idle", 0).is_ok());
    assert!(sheet.get_clip("running", 5).is_ok());
    assert_eq!(
        sheet.get_clip("running", 6).err(),
        Some(ErrorKind::IndexOutOfRange)
    );
    assert_eq!(sheet.get_clip("crouch", 0).err(), Some(ErrorKind::NotFound));
}

#[test]
fn clips_are_cut_and_mirrored_from_the_source_pixels() {
    let bytes = sheet_png(6, 5);
    let sheet = source(&bytes).unwrap();
    // The second idle clip covers the source region at (6, 0), sized
    // 6 by 5, mirrored vertically into the renderer's orientation.
    let clip = sheet.clip_at(AnimationName::Idle, 1).unwrap();
    let original = clip.get(ClipOrientation::Original).to_rgba8();
    assert_eq!(original.dimensions(), (6, 5));
    for cy in 0..5u32 {
        for cx in 0..6u32 {
            let expected = source_pixel(6 + cx, 4 - cy);
            assert_eq!(original.get_pixel(cx, cy).0, expected, "at {cx},{cy}");
        }
    }
    // The flipped variant mirrors the oriented clip horizontally.
    let flipped = clip.get(ClipOrientation::Flipped).to_rgba8();
    assert_eq!(flipped.dimensions(), (6, 5));
    for cy in 0..5u32 {
        for cx in 0..6u32 {
            let expected = source_pixel(6 + (5 - cx), 4 - cy);
            assert_eq!(flipped.get_pixel(cx, cy).0, expected, "at {cx},{cy}");
        }
    }
}

#[test]
fn malformed_source_is_a_fatal_asset_fault() {
    let garbage: Vec<u8> = vec![0, 1, 2, 3, 4, 5, 6, 7];
    assert_eq!(source(&garbage).err(), Some(ErrorKind::AssetLoad));
}

#[test]
fn undersized_source_is_a_fatal_asset_fault() {
    // A 5-by-8 image cannot hold one full grid cell per column and row.
    let img = image::RgbaImage::from_fn(5, 8, |_, _| image::Rgba([0, 0, 0, 255]));
    let mut bytes: Vec<u8> = Vec::new();
    let mut cursor = std::io::Cursor::new(&mut bytes);
    image::DynamicImage::ImageRgba8(img)
        .write_to(&mut cursor, image::ImageFormat::Png)
        .unwrap();
    assert_eq!(source(&bytes).err(), Some(ErrorKind::AssetLoad));
}

#[test]
fn cache_hit_returns_identical_clips_without_a_second_decode() {
    let bytes = sheet_png(9, 6);
    let identity = String::from("level/adventurer.png");
    let mut cache = SpriteAtlasCache::new();
    let first: Vec<Vec<u8>> = {
        let sheet = cache.get_sheet(&identity, &bytes).unwrap();
        (0..4)
            .map(|i| {
                sheet
                    .clip_at(AnimationName::Idle, i)
                    .unwrap()
                    .get(ClipOrientation::Original)
                    .to_rgba8()
                    .into_raw()
            })
            .collect()
    };
    // The same identity with unreadable bytes still succeeds: the cache
    // answers from its resident entry and never touches the source again.
    let garbage: Vec<u8> = vec![9, 9, 9];
    let sheet = cache.get_sheet(&identity, &garbage).unwrap();
    for (i, first_pixels) in first.iter().enumerate() {
        let again = sheet
            .clip_at(AnimationName::Idle, i)
            .unwrap()
            .get(ClipOrientation::Original)
            .to_rgba8()
            .into_raw();
        assert_eq!(&again, first_pixels, "bit-identical clip data on a hit");
    }
}

#[test]
fn requesting_a_different_identity_evicts_the_resident_sheet() {
    let bytes_a = sheet_png(9, 6);
    let bytes_b = sheet_png(10, 7);
    let id_a = String::from("a.png");
    let id_b = String::from("b.png");
    let mut cache = SpriteAtlasCache::new();
    assert!(cache.get_sheet(&id_a, &bytes_a).is_ok());
    let width_b = cache.get_sheet(&id_b, &bytes_b).unwrap().width;
    assert_eq!(width_b, 70);
    // The first sheet is gone: the same identity with unreadable bytes now
    // has to decode again, and fails.
    let garbage: Vec<u8> = vec![1, 2, 3];
    assert_eq!(
        cache.get_sheet(&id_a, &garbage).err(),
        Some(ErrorKind::AssetLoad)
    );
    // And the failed decode left the second sheet resident.
    assert_eq!(cache.get_sheet(&id_b, &garbage).unwrap().width, 70);
}
