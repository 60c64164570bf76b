use photos::errors::{InternalError, PhotoError};
use photos::formats::MediaFormat;
use photos::mailer::BrevoApi;
use photos::processor::ImageProcessor;
use photos::videos::{UploadVideo, VideoProbe};

#[test]
fn verification_mail() {
    let api = BrevoApi::new("KEY".to_string(), "from@site.com".to_string());
    let code = [0xab; 16];
    let m = api.verification_email("to@site.com".to_string(), code);
    assert_eq!(m.url, "https://api.sendgrid.com/v3/mail/send");
    assert_eq!(m.authorization, "Bearer KEY");
    assert_eq!(m.to, "to@site.com");
    assert_eq!(m.subject, "Welcome to OurService");
    assert_eq!(m.from, "from@site.com");
    assert_eq!(m.content_type, "text/html");
    assert_eq!(
        m.content,
        "\n        Click the link below to verify your email:\n\n        \n        http://localhost:8080/verify?code=abababab-abab-abab-abab-abababababab\n        \n        "
    );
}

#[test]
fn error_texts() {
    assert_eq!(PhotoError::UserAccountAlreadyExists.message(), "User account already exists");
    assert_eq!(PhotoError::Internal(InternalError::Io).message(), "Internal server error");
    assert_eq!(PhotoError::UserNotFound.message(), "User Not Found");
    assert_eq!(PhotoError::InvalidCredentials.message(), "Invalid Credentials");
    assert_eq!(PhotoError::EmailNotFound.message(), "Email Not Found");
    assert_eq!(PhotoError::DatabaseError.message(), "Database Error");
    assert_eq!(PhotoError::InvalidExtension.message(), "InvalidExtension");
    assert_eq!(PhotoError::InvalidUserId.message(), "InvalidUserId");
    assert_eq!(InternalError::Pool.message(), "Internal server error");
    assert_eq!(PhotoError::from(InternalError::Image), PhotoError::Internal(InternalError::Image));
}

#[test]
fn video_paths_and_record() {
    assert_eq!(UploadVideo::user_upload_dir(3), "./uploads_vids/3");
    assert_eq!(UploadVideo::file_path(3, "v.mp4"), "./uploads_vids/3/v.mp4");
    let name = UploadVideo::new_stored_file_name("clip.mp4");
    assert!(name.ends_with(".mp4") && name.len() == 40);
    let probe = VideoProbe {
        codec_name: Some("h264".to_string()),
        width: Some(1920),
        height: Some(1i64 << 32),
        frame_rate: "30/1".to_string(),
        duration: Some("12.5".to_string()),
        bit_rate: None,
    };
    let r = UploadVideo::video_record("clip.mp4".to_string(), probe, "p".to_string(), 77);
    assert_eq!(r.title, "clip.mp4");
    assert_eq!(r.codec_name.as_deref(), Some("h264"));
    assert_eq!(r.width, Some(1920));
    assert_eq!(r.height, Some(0));
    assert_eq!(r.frame_rate.as_deref(), Some("30/1"));
    assert_eq!(r.duration.as_deref(), Some("12.5"));
    assert_eq!(r.bitrate, None);
    assert_eq!(r.file_path, "p");
    assert_eq!(r.created_at, 77);
}

#[test]
fn processor_paths() {
    assert_eq!(
        ImageProcessor::processed_path("cat.png", "2024-01-01 10:00:00"),
        Ok(("uploads/cat.png-2024-01-01 10:00:00.png".to_string(), "png".to_string()))
    );
    assert_eq!(ImageProcessor::processed_path("cat", "t"), Err(PhotoError::InvalidExtension));
    assert_eq!(ImageProcessor::viewport_sizes(), vec![480, 768, 1024, 1024, 1440, 2650]);
    assert_eq!(ImageProcessor::resized_path("uploads/a.png", 480, "png"), "resized_uploads/a.png_480.png");
    let r = ImageProcessor::image_record("a".to_string(), "p".to_string(), MediaFormat::Gif, 10, 2, 3, 4);
    assert_eq!(r.description.as_deref(), Some("Processed image"));
    assert_eq!(r.format, "GIF");
    assert_eq!((r.size, r.width, r.height, r.created_at), (10, 2, 3, 4));
}

#[test]
fn processed_path_is_stamped_with_utc_wall_time() {
    assert_eq!(
        ImageProcessor::processed_path_at("cat.png", 0, 0),
        Ok(("uploads/cat.png-1970-01-01 00:00:00.png".to_string(), "png".to_string()))
    );
    assert_eq!(
        ImageProcessor::processed_path_at("cat.png", 1_704_103_201, 500_000_000),
        Ok(("uploads/cat.png-2024-01-01 10:00:01.500.png".to_string(), "png".to_string()))
    );
    assert_eq!(
        ImageProcessor::processed_path_at("cat.png", 1_704_103_201, 123_456_789),
        Ok(("uploads/cat.png-2024-01-01 10:00:01.123456789.png".to_string(), "png".to_string()))
    );
    assert_eq!(ImageProcessor::processed_path_at("cat", 0, 0), Err(PhotoError::InvalidExtension));
}
