//! Picture uploads: where an uploaded picture is stored, the row recorded
//! for it and the message announced to subscribers and to the workers.
use vstd::prelude::*;
use crate::formats::{format_for_extension, format_label, label_of, media_format_for_extension, MediaFormat};
use crate::ids::{is_random_uuid, lemma_uuid_text_plain, new_random_uuid, uuid_text, uuid_to_text};
use crate::models::NewImage;
use crate::paths::{extension_of, extension_or, lemma_extension_chars, lemma_plain_name_extension, path_extension};
use crate::text::{digits, int_text, push_digits, push_int, push_str};
use crate::worker::{announced_path, path_marker, thumbnail_path_of, thumbnail_plan_of};

verus! {

/// The picture-upload mutation.
pub struct UploadMedia;

/// The notice sent to subscribers when a user uploads a picture.
#[derive(Debug, Clone, PartialEq, Eq)]
pub struct MediaUpdate {
    pub user_id: i32,
    pub message: String,
}

/// Name under which an upload is stored: the UUID, a dot, and the
/// uploaded name's extension (`"bin"` when it has none).
pub open spec fn stored_name_of(id: Seq<u8>, original: Seq<char>) -> Seq<char> {
    uuid_text(id) + seq!['.'] + extension_or(original, "bin"@)
}

/// A user's picture directory.
pub open spec fn upload_dir_of(user_id: int) -> Seq<char> {
    "./uploads/"@ + int_text(user_id)
}

/// Path of a stored picture.
pub open spec fn upload_path_of(user_id: int, stored: Seq<char>) -> Seq<char> {
    upload_dir_of(user_id) + seq!['/'] + stored
}

/// The upload announcement.
pub open spec fn upload_message_of(
    original: Seq<char>,
    path: Seq<char>,
    label: Seq<char>,
    size: nat,
    width: nat,
    height: nat,
) -> Seq<char> {
    "Image uploaded: "@ + original + "\nPath: "@ + path + "\nFormat: "@ + label + "\nSize: "@
        + digits(size) + " bytes\nDimensions: "@ + digits(width) + "x"@ + digits(height)
}

impl UploadMedia {
    /// The name for an upload stored under UUID `id`.
    pub fn stored_file_name(id: [u8; 16], original: &str) -> (r: String)
        ensures
            r@ == stored_name_of(id@, original@),
    {
        let mut r = uuid_to_text(id);
        push_str(&mut r, ".");
        proof {
            reveal_strlit(".");
        }
        match path_extension(original) {
            Some(e) => push_str(&mut r, e.as_str()),
            None => push_str(&mut r, "bin"),
        }
        r
    }

    /// A fresh name for an upload: a random UUID, a dot and the uploaded
    /// name's extension (`"bin"` when it has none).
    pub fn new_stored_file_name(original: &str) -> (r: String)
        ensures
            exists|id: Seq<u8>| is_random_uuid(id) && r@ == stored_name_of(id, original@),
    {
        let id = new_random_uuid();
        Self::stored_file_name(id, original)
    }

    /// The directory that holds a user's pictures: `./uploads/{user_id}`.
    pub fn user_upload_dir(user_id: i32) -> (r: String)
        ensures
            r@ == upload_dir_of(user_id as int),
    {
        let mut r = String::new();
        push_str(&mut r, "./uploads/");
        push_int(&mut r, user_id as i64);
        r
    }

    /// Where a user's picture stored under `stored_name` lies.
    pub fn file_path(user_id: i32, stored_name: &str) -> (r: String)
        ensures
            r@ == upload_path_of(user_id as int, stored_name@),
    {
        let mut r = Self::user_upload_dir(user_id);
        push_str(&mut r, "/");
        proof {
            reveal_strlit("/");
        }
        push_str(&mut r, stored_name);
        r
    }

    /// The format of a stored picture, read from its name's extension
    /// (`"bin"` when it has none); `None` when the extension names no
    /// known format.
    pub fn media_format(stored_name: &str) -> (r: Option<MediaFormat>)
        ensures
            r == format_for_extension(extension_or(stored_name@, "bin"@)),
    {
        match path_extension(stored_name) {
            Some(e) => media_format_for_extension(e.as_str()),
            None => media_format_for_extension("bin"),
        }
    }

    /// The announcement of an upload: the uploaded name, the stored path,
    /// the format label, the size in bytes and the dimensions, one per line.
    pub fn upload_message(
        original: &str,
        path: &str,
        label: &str,
        size: usize,
        width: u32,
        height: u32,
    ) -> (r: String)
        ensures
            r@ == upload_message_of(
                original@,
                path@,
                label@,
                size as nat,
                width as nat,
                height as nat,
            ),
    {
        let mut r = String::new();
        push_str(&mut r, "Image uploaded: ");
        push_str(&mut r, original);
        push_str(&mut r, "\nPath: ");
        push_str(&mut r, path);
        push_str(&mut r, "\nFormat: ");
        push_str(&mut r, label);
        push_str(&mut r, "\nSize: ");
        push_digits(&mut r, size as u64);
        push_str(&mut r, " bytes\nDimensions: ");
        push_digits(&mut r, width as u64);
        push_str(&mut r, "x");
        push_digits(&mut r, height as u64);
        assert(r@ =~= upload_message_of(
            original@,
            path@,
            label@,
            size as nat,
            width as nat,
            height as nat,
        ));
        r
    }

    /// The row recorded for an uploaded picture. Size and dimensions are
    /// stored as `i32` (`as` casts, which wrap).
    pub fn image_record(
        stored_name: String,
        path: String,
        format: MediaFormat,
        size: usize,
        width: u32,
        height: u32,
        created_at: i64,
    ) -> (r: NewImage)
        ensures
            r.name@ == stored_name@,
            r.file_path@ == path@,
            r.description matches Some(d) && d@ == "Original image"@,
            r.exif_data is None,
            r.format@ == label_of(format),
            r.size == size as i32,
            r.width == width as i32,
            r.height == height as i32,
            r.created_at == created_at,
            r.deleted_at is None,
    {
        NewImage {
            name: stored_name,
            file_path: path,
            description: Some("Original image".to_string()),
            exif_data: None,
            format: format_label(format).to_string(),
            size: size as i32,
            width: width as i32,
            height: height as i32,
            created_at,
            deleted_at: None,
        }
    }

    /// The notice for subscribers.
    pub fn media_update(user_id: i32, message: String) -> (r: MediaUpdate)
        ensures
            r.user_id == user_id,
            r.message@ == message@,
    {
        MediaUpdate { user_id, message }
    }
}

/// An upload keeps its extension: the name it is stored under has the
/// uploaded name's extension (`"bin"` when that has none), so the format
/// read from the stored name is the format of the uploaded name.
pub proof fn law_stored_name_keeps_extension(id: Seq<u8>, original: Seq<char>)
    requires
        id.len() == 16,
    ensures
        extension_of(stored_name_of(id, original)) == Some(extension_or(original, "bin"@)),
        format_for_extension(extension_or(stored_name_of(id, original), "bin"@))
            == format_for_extension(extension_or(original, "bin"@)),
{
    lemma_uuid_text_plain(id);
    lemma_extension_chars(original);
    reveal_strlit("bin");
    let bin = "bin"@;
    assert(!bin.contains('.') && !bin.contains('/')) by {
        assert(bin =~= seq!['b', 'i', 'n']);
    }
    lemma_plain_name_extension(uuid_text(id), extension_or(original, bin));
}

/// The image worker reads back the stored path from an upload
/// announcement: when the uploaded name holds no `"Path: "` and the path
/// no line break, the path that the message announces is exactly the
/// stored path.
pub proof fn law_announced_path_is_stored_path(
    original: Seq<char>,
    path: Seq<char>,
    label: Seq<char>,
    size: nat,
    width: nat,
    height: nat,
)
    requires
        forall|j: int| !#[trigger] crate::text::occurs_at(original, path_marker(), j),
        !path.contains('\n'),
    ensures
        announced_path(upload_message_of(original, path, label, size, width, height)) == Some(path),
{
    reveal_strlit("Image uploaded: ");
    reveal_strlit("\nPath: ");
    reveal_strlit("\nFormat: ");
    let pre = "Image uploaded: "@;
    let q = "\nPath: "@;
    let a = pre + original + q + path;
    let b = "\nFormat: "@ + label + "\nSize: "@ + digits(size) + " bytes\nDimensions: "@ + digits(width)
        + "x"@ + digits(height);
    let m = upload_message_of(original, path, label, size, width, height);
    assert(m =~= a + b);
    assert(pre.len() == 16);
    assert(q.len() == 7);
    let p: int = 16 + original.len() as int + 1;
    let marker = path_marker();
    // the marker stands right after the uploaded name's line
    assert(m.subrange(p, p + 6) =~= marker) by {
        assert forall|t: int| 0 <= t < 6 implies m.subrange(p, p + 6)[t] == marker[t] by {
            assert(m[p + t] == a[p + t]);
            assert(a[p + t] == q[t + 1]);
        }
    }
    // and nowhere before: not in the fixed prefix, which has no `P`; not
    // inside the uploaded name, by its hypothesis; and not across the line
    // break after it, which the marker lacks
    assert(pre =~= seq!['I', 'm', 'a', 'g', 'e', ' ', 'u', 'p', 'l', 'o', 'a', 'd', 'e', 'd', ':', ' ']);
    assert forall|j: int| 0 <= j < p implies !crate::text::occurs_at(m, marker, j) by {
        if crate::text::occurs_at(m, marker, j) {
            let w = m.subrange(j, j + 6);
            assert(w[0] == marker[0]);
            if j < 16 {
                assert(m[j] == a[j] && a[j] == pre[j]);
            } else if j + 6 <= 16 + original.len() {
                assert(original.subrange(j - 16, j - 10) =~= w);
                assert(crate::text::occurs_at(original, marker, j - 16));
            } else {
                let k: int = 16 + original.len() as int;
                assert(m[k] == a[k] && a[k] == q[0]);
                assert(w[k - j] == m[k]);
                assert(w[k - j] == marker[k - j]);
            }
        }
    }
    crate::text::lemma_index_of_first(m, marker, 0, p);
    // the path ends at the next line break
    let e: int = p + 6 + path.len() as int;
    assert(m[e] == b[0]);
    assert(m.subrange(e, e + 1) =~= seq!['\n']);
    assert forall|j: int| p + 6 <= j < e implies !crate::text::occurs_at(m, seq!['\n'], j) by {
        if crate::text::occurs_at(m, seq!['\n'], j) {
            assert(m.subrange(j, j + 1)[0] == '\n');
            assert(m[j] == a[j] && a[j] == path[j - p - 6]);
        }
    }
    crate::text::lemma_index_of_first(m, seq!['\n'], p + 6, e);
    assert(m.subrange(p + 6, e) =~= path);
}

/// Every uploaded picture gets its thumbnail beside it: for an upload
/// announcement whose uploaded name holds no `"Path: "` and whose stored
/// path no line break, the thumbnail worker reads the stored picture and writes
/// its thumbnail at `thumbnail_path_of` the stored path.
pub proof fn law_thumbnail_of_upload(
    original: Seq<char>,
    path: Seq<char>,
    label: Seq<char>,
    size: nat,
    width: nat,
    height: nat,
)
    requires
        forall|j: int| !#[trigger] crate::text::occurs_at(original, path_marker(), j),
        !path.contains('\n'),
    ensures
        thumbnail_plan_of(upload_message_of(original, path, label, size, width, height)) == Some(
            (path, thumbnail_path_of(path)),
        ),
{
    law_announced_path_is_stored_path(original, path, label, size, width, height);
}

} // verus!
