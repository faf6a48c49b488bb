//! File-name handling: the stem of a video path, whether a clip name has an
//! extension, and the names of exported clips.
use vstd::prelude::*;
use vstd::string::*;

verus! {

/// The stem of a path as `std::path::Path::file_stem` finds it on the target
/// platform (the final component, by that platform's separators, without its
/// last extension), as text; `None` when the path has no file name.
pub uninterp spec fn path_stem(path: Seq<char>) -> Option<Seq<char>>;

/// Whether `std::path::Path::extension` finds an extension in the path on the
/// target platform (by that platform's separators).
pub uninterp spec fn path_has_extension(path: Seq<char>) -> bool;

/// Calls `std::path::Path::file_stem` on `path` and returns the stem as a
/// `String`.  Claimed: the result is `path_stem(path)`, a function of the
/// path text alone on the target platform; nothing more is said of what the
/// stem is.
#[verifier::external_body]
pub fn file_stem(path: &str) -> (stem: Option<String>)
    ensures
        match stem {
            Some(s) => path_stem(path@) == Some(s@),
            None => path_stem(path@) is None,
        },
{
    match std::path::Path::new(path).file_stem() {
        Some(os) => match os.to_str() {
            Some(text) => Some(text.to_string()),
            None => None,
        },
        None => None,
    }
}

/// Calls `std::path::Path::extension` on `name`.  Claimed: the result is
/// `path_has_extension(name)`, a function of the text alone on the target
/// platform.
#[verifier::external_body]
pub fn has_extension(name: &str) -> (b: bool)
    ensures
        b == path_has_extension(name@),
{
    std::path::Path::new(name).extension().is_some()
}

/// The text of an optional string.
pub open spec fn text_of(s: Option<String>) -> Option<Seq<char>> {
    match s {
        Some(t) => Some(t@),
        None => None,
    }
}

/// Directory that clips of a video go to: `<stem>_clips`, with `clips` as
/// the stem when the video path has none.
pub open spec fn clips_dir_name(stem: Option<Seq<char>>) -> Seq<char> {
    match stem {
        Some(s) => s + "_clips"@,
        None => "clips"@ + "_clips"@,
    }
}

/// Path of a clip file: `<dir>/<name>`, with `.mp4` added when the name
/// has no extension.
pub open spec fn clip_file_name(dir: Seq<char>, name: Seq<char>, name_has_extension: bool) -> Seq<char> {
    if name_has_extension {
        dir + "/"@ + name
    } else {
        dir + "/"@ + name + ".mp4"@
    }
}

/// The clip directory and clip file path, from the stem of the video path
/// and whether the clip name has an extension.
pub fn clip_paths(stem: Option<String>, clip_name: &str, name_has_extension: bool) -> (paths: (String, String))
    ensures
        paths.0@ == clips_dir_name(text_of(stem)),
        paths.1@ == clip_file_name(paths.0@, clip_name@, name_has_extension),
{
    let mut dir: String = match stem {
        Some(s) => s,
        None => String::from_str("clips"),
    };
    dir.append("_clips");
    let mut file: String = dir.clone();
    file.append("/");
    file.append(clip_name);
    if !name_has_extension {
        file.append(".mp4");
    }
    (dir, file)
}

/// The text as `str::to_lowercase` lowercases it.
pub uninterp spec fn lowercase(text: Seq<char>) -> Seq<char>;

/// Calls `str::to_lowercase`.  Claimed: the result is `lowercase(text)`, a
/// function of the text alone.
#[verifier::external_body]
pub fn to_lower(text: &str) -> (lower: String)
    ensures
        lower@ == lowercase(text@),
{
    text.to_lowercase()
}

} // verus!
