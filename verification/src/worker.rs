//! What the background image workers compute from a queue message: the
//! stored file's path and the paths of the pictures derived from it.
use vstd::prelude::*;
use crate::text::{chars_of, digits, find_from, index_of, lemma_index_of, matches_at, push_digits, push_str, string_of_range};

verus! {

/// The marker in front of the stored file's path in an upload message.
pub open spec fn path_marker() -> Seq<char> {
    seq!['P', 'a', 't', 'h', ':', ' ']
}

/// The path that an upload message announces: the text after the first
/// `"Path: "` up to the first line break after it.
pub open spec fn announced_path(message: Seq<char>) -> Option<Seq<char>> {
    match index_of(message, path_marker(), 0) {
        Some(i) => match index_of(message, seq!['\n'], i + 6) {
            Some(e) => Some(message.subrange(i + 6, e)),
            None => None,
        },
        None => None,
    }
}

/// `s` with every trailing repetition of `suffix` removed
/// (`str::trim_end_matches` with a string pattern).
pub open spec fn trim_end_all(s: Seq<char>, suffix: Seq<char>) -> Seq<char>
    decreases s.len(),
{
    if suffix.len() > 0 && suffix.len() <= s.len() && s.subrange(s.len() - suffix.len(), s.len() as int)
        == suffix {
        trim_end_all(s.subrange(0, s.len() - suffix.len()), suffix)
    } else {
        s
    }
}

pub open spec fn png_suffix() -> Seq<char> {
    seq!['.', 'p', 'n', 'g']
}

/// The thumbnail's path for a picture at `filepath`.
pub open spec fn thumbnail_path_of(filepath: Seq<char>) -> Seq<char> {
    trim_end_all(filepath, png_suffix()) + seq![
        '_',
        't',
        'h',
        'u',
        'm',
        'b',
        'n',
        'a',
        'i',
        'l',
    ] + png_suffix()
}

/// Extracts the stored file's path from an upload message: the text
/// between the first `"Path: "` and the next line break, or `None` when
/// either is missing.
pub fn extract_filepath(message: &str) -> (r: Option<&str>)
    ensures
        match r {
            Some(p) => announced_path(message@) == Some(p@),
            None => announced_path(message@) is None,
        },
{
    let chars = chars_of(message);
    let marker = vec!['P', 'a', 't', 'h', ':', ' '];
    assert(marker@ =~= path_marker());
    match find_from(&chars, &marker, 0) {
        Some(start) => {
            proof {
                lemma_index_of(chars@, path_marker(), 0);
                assert(path_marker().len() == 6);
                assert(start + 6 <= chars@.len());
            }
            let total = chars.len();
            assert(start + 6 <= total);
            let path_start = start + 6;
            let newline = vec!['\n'];
            assert(newline@ =~= seq!['\n']);
            match find_from(&chars, &newline, path_start) {
                Some(end) => {
                    proof {
                        lemma_index_of(chars@, seq!['\n'], path_start as int);
                    }
                    Some(message.substring_char(path_start, end))
                },
                None => None,
            }
        },
        None => None,
    }
}

/// The path of the thumbnail made for the picture at `filepath`:
/// `filepath` without its trailing `".png"` repetitions, then
/// `"_thumbnail.png"`.
pub fn thumbnail_path(filepath: &str) -> (r: String)
    ensures
        r@ == thumbnail_path_of(filepath@),
{
    let chars = chars_of(filepath);
    let suffix = vec!['.', 'p', 'n', 'g'];
    assert(suffix@ =~= png_suffix());
    let mut end = chars.len();
    assert(chars@.subrange(0, end as int) =~= chars@);
    while end >= 4 && matches_at(&chars, &suffix, end - 4)
        invariant
            end <= chars@.len(),
            suffix@ == png_suffix(),
            trim_end_all(chars@, png_suffix()) == trim_end_all(chars@.subrange(0, end as int), png_suffix()),
        decreases end,
    {
        let ghost cur = chars@.subrange(0, end as int);
        assert(cur.subrange(cur.len() - 4, cur.len() as int) =~= chars@.subrange(end - 4, end as int));
        assert(cur.subrange(0, cur.len() - 4) =~= chars@.subrange(0, end - 4));
        end = end - 4;
    }
    proof {
        let cur = chars@.subrange(0, end as int);
        if end >= 4 {
            assert(cur.subrange(cur.len() - 4, cur.len() as int) =~= chars@.subrange(end - 4, end as int));
        }
    }
    let mut r = string_of_range(&chars, 0, end);
    push_str(&mut r, "_thumbnail.png");
    proof {
        reveal_strlit("_thumbnail.png");
        assert("_thumbnail.png"@ =~= seq!['_', 't', 'h', 'u', 'm', 'b', 'n', 'a', 'i', 'l'] + png_suffix());
    }
    r
}

/// What the thumbnail worker does with a message: the picture it reads
/// and the thumbnail it writes, when the message announces a path.
pub open spec fn thumbnail_plan_of(message: Seq<char>) -> Option<(Seq<char>, Seq<char>)> {
    match announced_path(message) {
        Some(p) => Some((p, thumbnail_path_of(p))),
        None => None,
    }
}

/// The thumbnail worker's plan for a message: the announced picture and
/// the path of its thumbnail, or `None` when the message announces no
/// path (the worker then reports it).
pub fn plan_thumbnail(message: &str) -> (r: Option<(String, String)>)
    ensures
        match r {
            Some((source, target)) => thumbnail_plan_of(message@) == Some((source@, target@)),
            None => thumbnail_plan_of(message@) is None,
        },
{
    match extract_filepath(message) {
        Some(p) => {
            let target = thumbnail_path(p);
            Some((p.to_string(), target))
        },
        None => None,
    }
}

/// The fields of a task message `user|path|...`: the text before the
/// first `|`, and the text between it and the next `|` (or the end).
pub open spec fn task_fields(message: Seq<char>) -> (Seq<char>, Seq<char>) {
    let i = index_of(message, seq!['|'], 0)->0;
    let rest = message.subrange(i + 1, message.len() as int);
    let j = match index_of(rest, seq!['|'], 0) {
        Some(j) => j,
        None => rest.len() as int,
    };
    (message.subrange(0, i), rest.subrange(0, j))
}

/// Where a task's picture resized to `width` is written.
pub open spec fn task_resized_path_of(width: nat, filepath: Seq<char>) -> Seq<char> {
    "./uploads/resized_"@ + digits(width) + "_"@ + filepath + ".png"@
}

/// The widths a task's picture is resized to.
pub open spec fn task_width_list() -> Seq<u32> {
    seq![480u32, 768u32, 1024u32, 1024u32, 1440u32]
}

/// Splits a task message `user|path|...` into its user and path fields.
/// A message without `|` is left out (reading its second field panics).
pub fn split_task_message(message: &str) -> (r: (String, String))
    requires
        message@.contains('|'),
    ensures
        (r.0@, r.1@) == task_fields(message@),
{
    let chars = chars_of(message);
    let bar = vec!['|'];
    assert(bar@ =~= seq!['|']);
    proof {
        lemma_index_of(chars@, seq!['|'], 0);
        let k = choose|k: int| 0 <= k < message@.len() && message@[k] == '|';
        assert(chars@.subrange(k, k + 1) =~= seq!['|']);
        assert(crate::text::occurs_at(chars@, seq!['|'], k));
    }
    let found = find_from(&chars, &bar, 0);
    let i = match found {
        Some(i) => i,
        None => 0,
    };
    proof {
        assert(found is Some);
        assert(index_of(chars@, seq!['|'], 0) == Some(i as int));
        assert(crate::text::occurs_at(chars@, seq!['|'], i as int));
    }
    let total = chars.len();
    assert(i + 1 <= total);
    let user = string_of_range(&chars, 0, i);
    let rest_start = i + 1;
    let ghost rest = chars@.subrange(rest_start as int, total as int);
    let end = match find_from(&chars, &bar, rest_start) {
        Some(j) => j,
        None => total,
    };
    proof {
        lemma_index_of(chars@, seq!['|'], rest_start as int);
        lemma_index_of(rest, seq!['|'], 0);
        match index_of(chars@, seq!['|'], rest_start as int) {
            Some(j) => {
                assert(rest.subrange(j - rest_start, j - rest_start + 1) =~= chars@.subrange(j, j + 1));
                assert forall|t: int| 0 <= t < j - rest_start implies !crate::text::occurs_at(
                    rest,
                    seq!['|'],
                    t,
                ) by {
                    if crate::text::occurs_at(rest, seq!['|'], t) {
                        assert(rest.subrange(t, t + 1) =~= chars@.subrange(
                            t + rest_start,
                            t + rest_start + 1,
                        ));
                        assert(crate::text::occurs_at(chars@, seq!['|'], t + rest_start));
                    }
                }
                crate::text::lemma_index_of_first(rest, seq!['|'], 0, j - rest_start);
            },
            None => {
                match index_of(rest, seq!['|'], 0) {
                    Some(t) => {
                        assert(rest.subrange(t, t + 1) =~= chars@.subrange(t + rest_start, t + rest_start + 1));
                        assert(crate::text::occurs_at(chars@, seq!['|'], t + rest_start));
                    },
                    None => {},
                }
            },
        }
    }
    let path = string_of_range(&chars, rest_start, end);
    assert(rest.subrange(0, end - rest_start) =~= chars@.subrange(rest_start as int, end as int));
    proof {
        let (a, b) = task_fields(message@);
        assert(a == chars@.subrange(0, i as int));
        match index_of(rest, seq!['|'], 0) {
            Some(j) => assert(j == end - rest_start),
            None => assert(end == total),
        }
        assert(b == rest.subrange(0, end - rest_start));
    }
    (user, path)
}

/// The widths a task's picture is resized to, in order.
pub fn task_widths() -> (r: Vec<u32>)
    ensures
        r@ == task_width_list(),
{
    let r = vec![480u32, 768u32, 1024u32, 1024u32, 1440u32];
    assert(r@ =~= task_width_list());
    r
}

/// Where a task's picture resized to `width` is written:
/// `./uploads/resized_{width}_{filepath}.png`.
pub fn task_resized_path(width: u32, filepath: &str) -> (r: String)
    ensures
        r@ == task_resized_path_of(width as nat, filepath@),
{
    let mut r = String::new();
    push_str(&mut r, "./uploads/resized_");
    push_digits(&mut r, width as u64);
    push_str(&mut r, "_");
    push_str(&mut r, filepath);
    push_str(&mut r, ".png");
    r
}

/// Where a media task's half-size copy is written: the path with
/// `_resized` appended.
pub fn half_size_path(file_path: &str) -> (r: String)
    ensures
        r@ == file_path@ + "_resized"@,
{
    let mut r = String::new();
    push_str(&mut r, file_path);
    push_str(&mut r, "_resized");
    r
}

/// The size of a media task's copy: half each dimension, rounded down.
pub fn half_dimensions(width: u32, height: u32) -> (r: (u32, u32))
    ensures
        r.0 == width / 2,
        r.1 == height / 2,
{
    (width / 2, height / 2)
}

} // verus!
