//! Video uploads: where a video is stored and the row recorded for it.
use vstd::prelude::*;
use crate::ids::is_random_uuid;
use crate::models::NewVideos;
use crate::text::{int_text, lemma_int_text_injective, lemma_int_text_no_slash, lemma_prefix_cancel, push_int, push_str};
use crate::upload::{stored_name_of, UploadMedia};

verus! {

/// The video-upload mutation.
pub struct UploadVideo;

/// What the probe of a stored video tells: its first stream's codec,
/// size and frame rate, and the container's duration and bit rate.
#[derive(Debug, Clone, PartialEq, Eq)]
pub struct VideoProbe {
    pub codec_name: Option<String>,
    pub width: Option<i64>,
    pub height: Option<i64>,
    pub frame_rate: String,
    pub duration: Option<String>,
    pub bit_rate: Option<String>,
}

/// A user's video directory.
pub open spec fn video_dir_of(user_id: int) -> Seq<char> {
    "./uploads_vids/"@ + int_text(user_id)
}

/// Narrows an optional size to `i32` (the `as` cast, which wraps).
pub open spec fn narrow(v: Option<i64>) -> Option<i32> {
    match v {
        Some(x) => Some(x as i32),
        None => None,
    }
}

impl UploadVideo {
    /// A fresh name for an uploaded video: a random UUID, a dot and the
    /// uploaded name's extension (`"bin"` when it has none).
    pub fn new_stored_file_name(original: &str) -> (r: String)
        ensures
            exists|id: Seq<u8>| is_random_uuid(id) && r@ == stored_name_of(id, original@),
    {
        UploadMedia::new_stored_file_name(original)
    }

    /// The directory that holds a user's videos: `./uploads_vids/{user_id}`.
    pub fn user_upload_dir(user_id: i32) -> (r: String)
        ensures
            r@ == video_dir_of(user_id as int),
    {
        let mut r = String::new();
        push_str(&mut r, "./uploads_vids/");
        push_int(&mut r, user_id as i64);
        r
    }

    /// Where a user's video stored under `stored_name` lies.
    pub fn file_path(user_id: i32, stored_name: &str) -> (r: String)
        ensures
            r@ == video_dir_of(user_id as int) + "/"@ + stored_name@,
    {
        let mut r = Self::user_upload_dir(user_id);
        push_str(&mut r, "/");
        push_str(&mut r, stored_name);
        r
    }

    /// The row recorded for an uploaded video: the uploaded name as title,
    /// the probe's findings (sizes narrowed to `i32`), the stored path and
    /// the upload time.
    pub fn video_record(title: String, probe: VideoProbe, path: String, now: i64) -> (r: NewVideos)
        ensures
            r.title@ == title@,
            r.codec_name == probe.codec_name,
            r.duration == probe.duration,
            r.file_path@ == path@,
            r.width == narrow(probe.width),
            r.height == narrow(probe.height),
            r.bitrate == probe.bit_rate,
            r.frame_rate matches Some(f) && f@ == probe.frame_rate@,
            r.created_at == now,
    {
        let width = match probe.width {
            Some(w) => Some(w as i32),
            None => None,
        };
        let height = match probe.height {
            Some(h) => Some(h as i32),
            None => None,
        };
        NewVideos {
            title,
            codec_name: probe.codec_name,
            duration: probe.duration,
            file_path: path,
            width,
            height,
            bitrate: probe.bit_rate,
            frame_rate: Some(probe.frame_rate),
            created_at: now,
        }
    }
}

/// Each user's videos have a directory of their own: it is
/// `./uploads_vids/` followed by the user's id in decimal, so two
/// different users never share a directory, nor a video path whatever the
/// stored names.
pub proof fn law_video_dir_per_user(a: i32, b: i32, name_a: Seq<char>, name_b: Seq<char>)
    ensures
        video_dir_of(a as int) == "./uploads_vids/"@ + int_text(a as int),
        a != b ==> video_dir_of(a as int) != video_dir_of(b as int),
        a != b ==> video_dir_of(a as int) + "/"@ + name_a != video_dir_of(b as int) + "/"@ + name_b,
{
    let p = "./uploads_vids/"@;
    lemma_prefix_cancel(p, int_text(a as int), int_text(b as int));
    lemma_int_text_injective(a as int, b as int);
    if a != b {
        let da = video_dir_of(a as int);
        let db = video_dir_of(b as int);
        let x = da + "/"@ + name_a;
        let y = db + "/"@ + name_b;
        if x == y {
            lemma_int_text_no_slash(a as int);
            lemma_int_text_no_slash(b as int);
            reveal_strlit("/");
            let la = da.len() as int;
            let lb = db.len() as int;
            assert(x[la] == '/');
            assert(y[lb] == '/');
            if la < lb {
                assert(la >= p.len());
                assert(y[la] == db[la]);
                assert(db[la] == int_text(b as int)[la - p.len()]);
            } else if lb < la {
                assert(lb >= p.len());
                assert(x[lb] == da[lb]);
                assert(da[lb] == int_text(a as int)[lb - p.len()]);
            } else {
                assert(x.subrange(0, la) =~= da);
                assert(y.subrange(0, lb) =~= db);
            }
        }
    }
}

} // verus!
