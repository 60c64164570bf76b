use photos::worker::{
    extract_filepath, half_dimensions, half_size_path, split_task_message, task_resized_path,
    task_widths, thumbnail_path,
};

#[test]
fn extract_filepath_reads_the_path_line() {
    let message = "Image uploaded: cat.png\nPath: ./uploads/1/abc.png\nFormat: PNG\nSize: 10 bytes\nDimensions: 2x3";
    assert_eq!(extract_filepath(message), Some("./uploads/1/abc.png"));
}

#[test]
fn extract_filepath_without_marker_is_none() {
    assert_eq!(extract_filepath("Image uploaded: cat.png\nFormat: PNG\n"), None);
    assert_eq!(extract_filepath(""), None);
}

#[test]
fn extract_filepath_without_line_break_is_none() {
    assert_eq!(extract_filepath("Path: ./uploads/1/abc.png"), None);
}

#[test]
fn extract_filepath_uses_the_first_marker() {
    assert_eq!(extract_filepath("Path: a\nPath: b\n"), Some("a"));
    assert_eq!(extract_filepath("xPath: \n"), Some(""));
}

#[test]
fn extract_filepath_counts_characters_not_bytes() {
    assert_eq!(extract_filepath("é Path: ñandú.png\n"), Some("ñandú.png"));
}

#[test]
fn thumbnail_path_strips_every_trailing_png() {
    assert_eq!(thumbnail_path("a.png"), "a_thumbnail.png");
    assert_eq!(thumbnail_path("a.png.png"), "a_thumbnail.png");
    assert_eq!(thumbnail_path("a.jpg"), "a.jpg_thumbnail.png");
    assert_eq!(thumbnail_path(".png"), "_thumbnail.png");
    assert_eq!(thumbnail_path("a.pn"), "a.pn_thumbnail.png");
}

#[test]
fn split_task_message_reads_user_and_path() {
    assert_eq!(split_task_message("5|./a.png"), ("5".to_string(), "./a.png".to_string()));
    assert_eq!(split_task_message("5|p|x"), ("5".to_string(), "p".to_string()));
    assert_eq!(split_task_message("|"), ("".to_string(), "".to_string()));
}

#[test]
fn task_resized_paths() {
    assert_eq!(task_widths(), vec![480, 768, 1024, 1024, 1440]);
    assert_eq!(task_resized_path(480, "a.png"), "./uploads/resized_480_a.png.png");
    assert_eq!(task_resized_path(0, ""), "./uploads/resized_0_.png");
}

#[test]
fn half_size_copies() {
    assert_eq!(half_size_path("media/x.jpg"), "media/x.jpg_resized");
    assert_eq!(half_dimensions(101, 50), (50, 25));
    assert_eq!(half_dimensions(u32::MAX, 1), (u32::MAX / 2, 0));
}
