//! Picture formats known by file extension, and the labels stored for them.
use vstd::prelude::*;
use crate::text::chars_of;

verus! {

/// The picture formats that the `image` crate tells apart by extension.
#[derive(PartialEq, Eq, Structural, Clone, Copy, Debug)]
pub enum MediaFormat {
    Png,
    Jpeg,
    Gif,
    WebP,
    Pnm,
    Tiff,
    Tga,
    Dds,
    Bmp,
    Ico,
    Hdr,
    OpenExr,
    Farbfeld,
    Avif,
    Qoi,
    Other,
}

/// ASCII letters made lower case, other characters kept.
pub open spec fn ascii_lower(s: Seq<char>) -> Seq<char> {
    s.map_values(|c: char| if 'A' <= c && c <= 'Z' { ((c as int) + 32) as char } else { c })
}

/// The variant of `image::ImageFormat` that `from_extension` gives for an
/// extension, by its name: the table in the crate's `io/format.rs`,
/// matched on the extension made ASCII lower case.
pub open spec fn image_format_name(ext: Seq<char>) -> Option<Seq<char>> {
    let e = ascii_lower(ext);
    if e == "avif"@ {
        Some("Avif"@)
    } else if e == "jpg"@ || e == "jpeg"@ || e == "jfif"@ {
        Some("Jpeg"@)
    } else if e == "png"@ || e == "apng"@ {
        Some("Png"@)
    } else if e == "gif"@ {
        Some("Gif"@)
    } else if e == "webp"@ {
        Some("WebP"@)
    } else if e == "tif"@ || e == "tiff"@ {
        Some("Tiff"@)
    } else if e == "tga"@ {
        Some("Tga"@)
    } else if e == "dds"@ {
        Some("Dds"@)
    } else if e == "bmp"@ {
        Some("Bmp"@)
    } else if e == "ico"@ {
        Some("Ico"@)
    } else if e == "hdr"@ {
        Some("Hdr"@)
    } else if e == "exr"@ {
        Some("OpenExr"@)
    } else if e == "pbm"@ || e == "pam"@ || e == "ppm"@ || e == "pgm"@ || e == "pnm"@ {
        Some("Pnm"@)
    } else if e == "ff"@ {
        Some("Farbfeld"@)
    } else if e == "qoi"@ {
        Some("Qoi"@)
    } else {
        None
    }
}

/// `image::ImageFormat::from_extension`, with the variant given by its
/// name (what `Debug` writes for it). The contract restates the crate's
/// extension table (`image_format_name`).
#[verifier::external_body]
pub fn image_format_from_extension(ext: &str) -> (r: Option<String>)
    ensures
        match r {
            Some(n) => image_format_name(ext@) == Some(n@),
            None => image_format_name(ext@) is None,
        },
{
    match image::ImageFormat::from_extension(ext) {
        Some(f) => Some(format!("{:?}", f)),
        None => None,
    }
}

/// The format a variant name stands for.
pub open spec fn format_of_name(n: Seq<char>) -> MediaFormat {
    if n == "Png"@ {
        MediaFormat::Png
    } else if n == "Jpeg"@ {
        MediaFormat::Jpeg
    } else if n == "Gif"@ {
        MediaFormat::Gif
    } else if n == "WebP"@ {
        MediaFormat::WebP
    } else if n == "Pnm"@ {
        MediaFormat::Pnm
    } else if n == "Tiff"@ {
        MediaFormat::Tiff
    } else if n == "Tga"@ {
        MediaFormat::Tga
    } else if n == "Dds"@ {
        MediaFormat::Dds
    } else if n == "Bmp"@ {
        MediaFormat::Bmp
    } else if n == "Ico"@ {
        MediaFormat::Ico
    } else if n == "Hdr"@ {
        MediaFormat::Hdr
    } else if n == "OpenExr"@ {
        MediaFormat::OpenExr
    } else if n == "Farbfeld"@ {
        MediaFormat::Farbfeld
    } else if n == "Avif"@ {
        MediaFormat::Avif
    } else if n == "Qoi"@ {
        MediaFormat::Qoi
    } else {
        MediaFormat::Other
    }
}

/// The format that a file extension stands for, if any.
pub open spec fn format_for_extension(ext: Seq<char>) -> Option<MediaFormat> {
    match image_format_name(ext) {
        Some(n) => Some(format_of_name(n)),
        None => None,
    }
}

/// The label stored with a picture of format `f`.
pub open spec fn label_of(f: MediaFormat) -> Seq<char> {
    match f {
        MediaFormat::Png => "PNG"@,
        MediaFormat::Jpeg => "JPEG"@,
        MediaFormat::Gif => "GIF"@,
        MediaFormat::Bmp => "BMP"@,
        MediaFormat::Ico => "ICO"@,
        MediaFormat::Pnm => "PNM"@,
        MediaFormat::WebP => "WEBP"@,
        MediaFormat::Hdr => "HDR"@,
        MediaFormat::Tiff => "TIFF"@,
        MediaFormat::Tga => "Tga"@,
        MediaFormat::Dds => "DdS"@,
        MediaFormat::OpenExr => "OpenEXR"@,
        MediaFormat::Farbfeld => "Farbfeld"@,
        MediaFormat::Avif => "AVIF"@,
        MediaFormat::Qoi => "Qoi"@,
        MediaFormat::Other => "None"@,
    }
}

/// Whether two strings hold the same characters.
pub fn same_text(a: &str, b: &str) -> (r: bool)
    ensures
        r == (a@ == b@),
{
    let x = chars_of(a);
    let y = chars_of(b);
    if x.len() != y.len() {
        return false;
    }
    let mut i: usize = 0;
    while i < x.len()
        invariant
            x@ == a@,
            y@ == b@,
            x@.len() == y@.len(),
            i <= x@.len(),
            forall|t: int| 0 <= t < i ==> x@[t] == y@[t],
        decreases x.len() - i,
    {
        if x[i] != y[i] {
            assert(x@[i as int] != y@[i as int]);
            return false;
        }
        i = i + 1;
    }
    assert(x@ =~= y@);
    true
}

/// The format a variant name stands for.
pub fn format_from_name(n: &str) -> (f: MediaFormat)
    ensures
        f == format_of_name(n@),
{
    if same_text(n, "Png") {
        MediaFormat::Png
    } else if same_text(n, "Jpeg") {
        MediaFormat::Jpeg
    } else if same_text(n, "Gif") {
        MediaFormat::Gif
    } else if same_text(n, "WebP") {
        MediaFormat::WebP
    } else if same_text(n, "Pnm") {
        MediaFormat::Pnm
    } else if same_text(n, "Tiff") {
        MediaFormat::Tiff
    } else if same_text(n, "Tga") {
        MediaFormat::Tga
    } else if same_text(n, "Dds") {
        MediaFormat::Dds
    } else if same_text(n, "Bmp") {
        MediaFormat::Bmp
    } else if same_text(n, "Ico") {
        MediaFormat::Ico
    } else if same_text(n, "Hdr") {
        MediaFormat::Hdr
    } else if same_text(n, "OpenExr") {
        MediaFormat::OpenExr
    } else if same_text(n, "Farbfeld") {
        MediaFormat::Farbfeld
    } else if same_text(n, "Avif") {
        MediaFormat::Avif
    } else if same_text(n, "Qoi") {
        MediaFormat::Qoi
    } else {
        MediaFormat::Other
    }
}

/// The picture format that the file extension `ext` stands for, as the
/// `image` crate reads it.
pub fn media_format_for_extension(ext: &str) -> (r: Option<MediaFormat>)
    ensures
        r == format_for_extension(ext@),
{
    match image_format_from_extension(ext) {
        Some(n) => Some(format_from_name(n.as_str())),
        None => None,
    }
}

/// The label stored with a picture of format `f`.
pub fn format_label(f: MediaFormat) -> (s: &'static str)
    ensures
        s@ == label_of(f),
{
    match f {
        MediaFormat::Png => "PNG",
        MediaFormat::Jpeg => "JPEG",
        MediaFormat::Gif => "GIF",
        MediaFormat::Bmp => "BMP",
        MediaFormat::Ico => "ICO",
        MediaFormat::Pnm => "PNM",
        MediaFormat::WebP => "WEBP",
        MediaFormat::Hdr => "HDR",
        MediaFormat::Tiff => "TIFF",
        MediaFormat::Tga => "Tga",
        MediaFormat::Dds => "DdS",
        MediaFormat::OpenExr => "OpenEXR",
        MediaFormat::Farbfeld => "Farbfeld",
        MediaFormat::Avif => "AVIF",
        MediaFormat::Qoi => "Qoi",
        MediaFormat::Other => "None",
    }
}

/// The label recorded for a picture names its own format: each format's
/// label is its entry in the table below, and no two formats share one.
pub proof fn law_format_labels(f: MediaFormat, g: MediaFormat)
    ensures
        label_of(MediaFormat::Png) == "PNG"@,
        label_of(MediaFormat::Jpeg) == "JPEG"@,
        label_of(MediaFormat::Gif) == "GIF"@,
        label_of(MediaFormat::Bmp) == "BMP"@,
        label_of(MediaFormat::Ico) == "ICO"@,
        label_of(MediaFormat::Pnm) == "PNM"@,
        label_of(MediaFormat::WebP) == "WEBP"@,
        label_of(MediaFormat::Hdr) == "HDR"@,
        label_of(MediaFormat::Tiff) == "TIFF"@,
        label_of(MediaFormat::Tga) == "Tga"@,
        label_of(MediaFormat::Dds) == "DdS"@,
        label_of(MediaFormat::OpenExr) == "OpenEXR"@,
        label_of(MediaFormat::Farbfeld) == "Farbfeld"@,
        label_of(MediaFormat::Avif) == "AVIF"@,
        label_of(MediaFormat::Qoi) == "Qoi"@,
        label_of(MediaFormat::Other) == "None"@,
        f != g ==> label_of(f) != label_of(g),
{
    reveal_strlit("PNG");
    reveal_strlit("JPEG");
    reveal_strlit("GIF");
    reveal_strlit("BMP");
    reveal_strlit("ICO");
    reveal_strlit("PNM");
    reveal_strlit("WEBP");
    reveal_strlit("HDR");
    reveal_strlit("TIFF");
    reveal_strlit("Tga");
    reveal_strlit("DdS");
    reveal_strlit("OpenEXR");
    reveal_strlit("Farbfeld");
    reveal_strlit("AVIF");
    reveal_strlit("Qoi");
    reveal_strlit("None");
    if f != g && label_of(f) == label_of(g) {
        assert(label_of(f).len() == label_of(g).len());
        assert(label_of(f)[0] == label_of(g)[0]);
        assert(label_of(f)[2] == label_of(g)[2]);
    }
}

} // verus!
