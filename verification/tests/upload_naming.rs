use photos::formats::MediaFormat;
use photos::paths::path_extension;
use photos::upload::UploadMedia;
use photos::worker::{extract_filepath, plan_thumbnail};

const ID: [u8; 16] = [0, 1, 2, 3, 4, 5, 6, 7, 8, 9, 10, 11, 12, 13, 14, 15];

#[test]
fn stored_name_keeps_the_extension() {
    assert_eq!(
        UploadMedia::stored_file_name(ID, "photo.JPG"),
        "00010203-0405-0607-0809-0a0b0c0d0e0f.JPG"
    );
    assert_eq!(
        UploadMedia::stored_file_name(ID, "noext"),
        "00010203-0405-0607-0809-0a0b0c0d0e0f.bin"
    );
    assert_eq!(
        UploadMedia::stored_file_name(ID, ".hidden"),
        "00010203-0405-0607-0809-0a0b0c0d0e0f.bin"
    );
    assert_eq!(
        UploadMedia::stored_file_name(ID, "dir.d/file"),
        "00010203-0405-0607-0809-0a0b0c0d0e0f.bin"
    );
}

#[test]
fn new_stored_name_is_a_random_uuid() {
    let a = UploadMedia::new_stored_file_name("x.png");
    let b = UploadMedia::new_stored_file_name("x.png");
    assert_ne!(a, b);
    assert_eq!(a.len(), 40);
    assert!(a.ends_with(".png"));
    let chars: Vec<char> = a.chars().collect();
    assert_eq!(chars[8], '-');
    assert_eq!(chars[14], '4');
    assert!("89ab".contains(chars[19]));
}

#[test]
fn upload_dirs_and_paths() {
    assert_eq!(UploadMedia::user_upload_dir(7), "./uploads/7");
    assert_eq!(UploadMedia::user_upload_dir(-3), "./uploads/-3");
    assert_eq!(UploadMedia::user_upload_dir(i32::MIN), "./uploads/-2147483648");
    assert_eq!(UploadMedia::file_path(12, "x.png"), "./uploads/12/x.png");
}

#[test]
fn media_format_from_stored_name() {
    assert_eq!(UploadMedia::media_format("a.jpeg"), Some(MediaFormat::Jpeg));
    assert_eq!(UploadMedia::media_format("a.PNG"), Some(MediaFormat::Png));
    assert_eq!(UploadMedia::media_format("a.txt"), None);
    assert_eq!(UploadMedia::media_format("a"), None);
}

#[test]
fn upload_message_text() {
    let m = UploadMedia::upload_message("cat.png", "./uploads/1/x.png", "PNG", 1234, 640, 480);
    assert_eq!(
        m,
        "Image uploaded: cat.png\nPath: ./uploads/1/x.png\nFormat: PNG\nSize: 1234 bytes\nDimensions: 640x480"
    );
}

#[test]
fn worker_reads_back_the_stored_path() {
    let stored = UploadMedia::stored_file_name(ID, "holiday Path photo.jpeg");
    let path = UploadMedia::file_path(3, &stored);
    let m = UploadMedia::upload_message("holiday Path photo.jpeg", &path, "JPEG", 0, 1, 1);
    assert_eq!(extract_filepath(&m), Some(path.as_str()));
}

#[test]
fn image_record_fields() {
    let r = UploadMedia::image_record(
        "n.png".to_string(),
        "p".to_string(),
        MediaFormat::Png,
        3_000_000_000,
        u32::MAX,
        5,
        99,
    );
    assert_eq!(r.name, "n.png");
    assert_eq!(r.file_path, "p");
    assert_eq!(r.description.as_deref(), Some("Original image"));
    assert_eq!(r.exif_data, None);
    assert_eq!(r.format, "PNG");
    assert_eq!(r.size, 3_000_000_000usize as i32);
    assert_eq!(r.width, -1);
    assert_eq!(r.height, 5);
    assert_eq!(r.created_at, 99);
    assert_eq!(r.deleted_at, None);
    let u = UploadMedia::media_update(4, "hello".to_string());
    assert_eq!(u.user_id, 4);
    assert_eq!(u.message, "hello");
}

#[test]
fn path_extension_agrees_with_std() {
    let cases = [
        "a.png", "a.tar.gz", "a.", ".hidden", ".a.b", "..", ".", "", "/", "dir/a.png", "dir.x/file",
        "a.png/", "a.png/.", "a.png//.//", "x/..", "./", "../a.b", "/a/b.c/d.e", "a..b", "é.ñ",
    ];
    for c in cases {
        let expected = std::path::Path::new(c)
            .extension()
            .and_then(|e| e.to_str())
            .map(String::from);
        assert_eq!(path_extension(c), expected, "case {:?}", c);
    }
}

#[test]
fn stored_name_keeps_the_uploaded_format() {
    for original in ["a.png", "b.JPG", "c.tar.gz", "noext", "d.", "dir.x/e.gif"] {
        let stored = UploadMedia::stored_file_name(ID, original);
        let ext = path_extension(original).unwrap_or_else(|| "bin".to_string());
        assert_eq!(path_extension(&stored), Some(ext.clone()), "{}", original);
        assert_eq!(
            UploadMedia::media_format(&stored),
            photos::formats::media_format_for_extension(&ext),
            "{}",
            original
        );
    }
}

#[test]
fn thumbnail_worker_plans_beside_the_upload() {
    let m = UploadMedia::upload_message("a.png", "./uploads/2/x.png", "PNG", 5, 1, 1);
    assert_eq!(
        plan_thumbnail(&m),
        Some(("./uploads/2/x.png".to_string(), "./uploads/2/x_thumbnail.png".to_string()))
    );
    assert_eq!(plan_thumbnail("no path here"), None);
}
