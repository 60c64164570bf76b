use photos::formats::{format_label, media_format_for_extension, MediaFormat};
use photos::ids::{new_random_uuid, parse_uuid, uuid_to_text};

#[test]
fn formats_by_extension() {
    let cases = [
        ("avif", Some(MediaFormat::Avif)),
        ("jpg", Some(MediaFormat::Jpeg)),
        ("JFIF", Some(MediaFormat::Jpeg)),
        ("apng", Some(MediaFormat::Png)),
        ("gif", Some(MediaFormat::Gif)),
        ("webp", Some(MediaFormat::WebP)),
        ("tif", Some(MediaFormat::Tiff)),
        ("tga", Some(MediaFormat::Tga)),
        ("dds", Some(MediaFormat::Dds)),
        ("bmp", Some(MediaFormat::Bmp)),
        ("ico", Some(MediaFormat::Ico)),
        ("hdr", Some(MediaFormat::Hdr)),
        ("exr", Some(MediaFormat::OpenExr)),
        ("pgm", Some(MediaFormat::Pnm)),
        ("ff", Some(MediaFormat::Farbfeld)),
        ("qoi", Some(MediaFormat::Qoi)),
        ("bin", None),
        ("", None),
    ];
    for (ext, expected) in cases {
        assert_eq!(media_format_for_extension(ext), expected, "{}", ext);
        assert_eq!(image::ImageFormat::from_extension(ext).is_some(), expected.is_some());
    }
}

#[test]
fn format_labels() {
    assert_eq!(format_label(MediaFormat::Png), "PNG");
    assert_eq!(format_label(MediaFormat::Jpeg), "JPEG");
    assert_eq!(format_label(MediaFormat::Tga), "Tga");
    assert_eq!(format_label(MediaFormat::Dds), "DdS");
    assert_eq!(format_label(MediaFormat::OpenExr), "OpenEXR");
    assert_eq!(format_label(MediaFormat::WebP), "WEBP");
    assert_eq!(format_label(MediaFormat::Other), "None");
}

#[test]
fn uuid_text_and_parse() {
    let b = [0xde, 0xad, 0xbe, 0xef, 0, 1, 0x42, 3, 0x84, 5, 6, 7, 8, 9, 10, 0xff];
    let t = uuid_to_text(b);
    assert_eq!(t, "deadbeef-0001-4203-8405-060708090aff");
    assert_eq!(parse_uuid(&t), Some(b));
    assert_eq!(parse_uuid("DEADBEEF-0001-4203-8405-060708090AFF"), Some(b));
    assert_eq!(parse_uuid("deadbeef000142038405060708090aff"), Some(b));
    assert_eq!(parse_uuid("{deadbeef-0001-4203-8405-060708090aff}"), Some(b));
    assert_eq!(parse_uuid("urn:uuid:deadbeef-0001-4203-8405-060708090aff"), Some(b));
    assert_eq!(parse_uuid("not a uuid"), None);
    assert_eq!(parse_uuid("deadbeef-0001-4203-8405-060708090afg"), None);
}

#[test]
fn random_uuids_carry_version_and_variant() {
    for _ in 0..20 {
        let b = new_random_uuid();
        assert_eq!(b[6] >> 4, 4);
        assert_eq!(b[8] >> 6, 2);
    }
}
