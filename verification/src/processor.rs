//! The picture processor: where a processed upload and its resized copies
//! are written, and the row recorded for it.
use vstd::prelude::*;
use crate::errors::PhotoError;
use crate::formats::{format_label, label_of, MediaFormat};
use crate::models::NewImage;
use crate::paths::{extension_of, path_extension};
use crate::text::{digits, push_digits, push_str};
use crate::times::{naive_time_text, naive_utc_text, secs_in_range};

verus! {

/// The picture-processing mutation.
pub struct ImageProcessor;

/// Where a processed upload is written: `uploads/{name}-{time}.{ext}`.
pub open spec fn processed_path_of(name: Seq<char>, time: Seq<char>, ext: Seq<char>) -> Seq<char> {
    "uploads/"@ + name + "-"@ + time + "."@ + ext
}

/// Where a resized copy is written: `resized_{path}_{size}.{ext}`.
pub open spec fn resized_path_of(path: Seq<char>, size: nat, ext: Seq<char>) -> Seq<char> {
    "resized_"@ + path + "_"@ + digits(size) + "."@ + ext
}

/// The viewport sizes a processed picture is resized to.
pub open spec fn viewport_sizes() -> Seq<u32> {
    seq![480u32, 768u32, 1024u32, 1024u32, 1440u32, 2650u32]
}

impl ImageProcessor {
    /// Where the upload named `name` is written, taken at the time with
    /// text `time`, with the extension of the name; an upload whose name
    /// has no extension is refused with `InvalidExtension`.
    pub fn processed_path(name: &str, time: &str) -> (r: Result<(String, String), PhotoError>)
        ensures
            match r {
                Ok((path, ext)) => extension_of(name@) == Some(ext@) && path@ == processed_path_of(
                    name@,
                    time@,
                    ext@,
                ),
                Err(e) => extension_of(name@) is None && e == PhotoError::InvalidExtension,
            },
    {
        match path_extension(name) {
            None => Err(PhotoError::InvalidExtension),
            Some(ext) => {
                let mut path = String::new();
                push_str(&mut path, "uploads/");
                push_str(&mut path, name);
                push_str(&mut path, "-");
                push_str(&mut path, time);
                push_str(&mut path, ".");
                push_str(&mut path, ext.as_str());
                Ok((path, ext))
            },
        }
    }

    /// Where the upload named `name` is written when it is processed at
    /// `secs` seconds and `nanos` nanoseconds after the epoch:
    /// `processed_path` with the text of that instant as a UTC wall time.
    pub fn processed_path_at(name: &str, secs: i64, nanos: u32) -> (r: Result<(String, String), PhotoError>)
        requires
            secs_in_range(secs as int),
            nanos < 1_000_000_000,
        ensures
            match r {
                Ok((path, ext)) => extension_of(name@) == Some(ext@) && path@ == processed_path_of(
                    name@,
                    naive_time_text(secs as int, nanos as int),
                    ext@,
                ),
                Err(e) => extension_of(name@) is None && e == PhotoError::InvalidExtension,
            },
    {
        let time = naive_utc_text(secs, nanos).unwrap();
        Self::processed_path(name, time.as_str())
    }

    /// The viewport sizes a processed picture is resized to, in order.
    pub fn viewport_sizes() -> (r: Vec<u32>)
        ensures
            r@ == viewport_sizes(),
    {
        let r = vec![480u32, 768u32, 1024u32, 1024u32, 1440u32, 2650u32];
        assert(r@ =~= viewport_sizes());
        r
    }

    /// Where the copy of `path` resized to `size` is written.
    pub fn resized_path(path: &str, size: u32, ext: &str) -> (r: String)
        ensures
            r@ == resized_path_of(path@, size as nat, ext@),
    {
        let mut r = String::new();
        push_str(&mut r, "resized_");
        push_str(&mut r, path);
        push_str(&mut r, "_");
        push_digits(&mut r, size as u64);
        push_str(&mut r, ".");
        push_str(&mut r, ext);
        r
    }

    /// The row recorded for a processed picture.
    pub fn image_record(
        name: String,
        path: String,
        format: MediaFormat,
        size: usize,
        width: u32,
        height: u32,
        created_at: i64,
    ) -> (r: NewImage)
        ensures
            r.name@ == name@,
            r.file_path@ == path@,
            r.description matches Some(d) && d@ == "Processed image"@,
            r.exif_data is None,
            r.format@ == label_of(format),
            r.size == size as i32,
            r.width == width as i32,
            r.height == height as i32,
            r.created_at == created_at,
            r.deleted_at is None,
    {
        NewImage {
            name,
            file_path: path,
            description: Some("Processed image".to_string()),
            exif_data: None,
            format: format_label(format).to_string(),
            size: size as i32,
            width: width as i32,
            height: height as i32,
            created_at,
            deleted_at: None,
        }
    }
}

} // verus!
