use std::io::Cursor;

use brengin::asset_registry::AssetLoadError;
use brengin::image_data::decode_image;
use brengin::ui::text::parse_font;

/// The smallest font `rustybuzz` parses: a table directory with `head`,
/// `hhea` and `maxp` tables.
fn tiny_font() -> Vec<u8> {
    let mut f: Vec<u8> = Vec::new();
    f.extend_from_slice(&0x0001_0000u32.to_be_bytes());
    f.extend_from_slice(&3u16.to_be_bytes());
    f.extend_from_slice(&[0, 0, 0, 0, 0, 0]);
    let tables: [(&[u8; 4], u32, u32); 3] = [(b"head", 60, 54), (b"hhea", 114, 36), (b"maxp", 150, 6)];
    for (tag, offset, len) in tables {
        f.extend_from_slice(tag);
        f.extend_from_slice(&0u32.to_be_bytes());
        f.extend_from_slice(&offset.to_be_bytes());
        f.extend_from_slice(&len.to_be_bytes());
    }
    let mut head = vec![0u8; 54];
    head[18..20].copy_from_slice(&1000u16.to_be_bytes());
    f.extend_from_slice(&head);
    f.extend_from_slice(&[0u8; 36]);
    f.extend_from_slice(&0x0000_5000u32.to_be_bytes());
    f.extend_from_slice(&1u16.to_be_bytes());
    f
}

#[test]
fn a_font_is_kept_when_its_face_parses() {
    let font = tiny_font();
    let parsed = parse_font(font.clone(), 0).expect("the face parses");
    assert_eq!(parsed.data, font);
    assert_eq!(parsed.face_index, 0);
    // a single font has no second face
    assert!(parse_font(font, 1).is_none());
    assert!(parse_font(b"not a font".to_vec(), 0).is_none());
}

#[test]
fn images_decode_to_rgba_bytes() {
    let img = image::RgbaImage::from_raw(2, 1, vec![1, 2, 3, 4, 5, 6, 7, 8]).unwrap();
    let mut png: Vec<u8> = Vec::new();
    image::DynamicImage::ImageRgba8(img)
        .write_to(&mut Cursor::new(&mut png), image::ImageFormat::Png)
        .unwrap();
    let d = decode_image(&png, "sprites/hero.png").unwrap();
    assert_eq!((d.width, d.height), (2, 1));
    assert_eq!(d.rgba, vec![1, 2, 3, 4, 5, 6, 7, 8]);
    assert!(matches!(decode_image(b"not an image", "x.png"), Err(AssetLoadError::LoadFailed(_))));
    // the extension decides the format, as when opening the file
    assert!(matches!(decode_image(&png, "hero"), Err(AssetLoadError::LoadFailed(_))));
    assert!(matches!(decode_image(&png, "hero.txt"), Err(AssetLoadError::LoadFailed(_))));
}
