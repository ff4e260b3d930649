use vstd::prelude::*;
use crate::kinds::MediaType;
use crate::text::str_equals;

verus! {

/// What `str::to_lowercase` gives for a string: its lowercase form under the
/// Unicode `Lowercase` property, a function of the string alone.
pub uninterp spec fn lowercase_of(s: Seq<char>) -> Seq<char>;

/// `str::to_lowercase`. The contract claims only that the result is the
/// lowercase form named `lowercase_of` of the argument; what that form is,
/// character by character, is left unsaid.
#[verifier::external_body]
fn to_lowercase(s: &str) -> (r: String)
    ensures
        r@ == lowercase_of(s@),
{
    s.to_lowercase()
}

/// The media type of a file by its lower-case extension.
pub open spec fn media_type_of_extension(ext: Seq<char>) -> MediaType {
    if ext == "mp4"@ || ext == "mov"@ || ext == "avi"@ || ext == "mkv"@ || ext == "webm"@ {
        MediaType::Video
    } else if ext == "mp3"@ || ext == "wav"@ || ext == "flac"@ || ext == "aac"@ || ext == "ogg"@ {
        MediaType::Audio
    } else if ext == "png"@ || ext == "jpg"@ || ext == "jpeg"@ || ext == "gif"@ || ext == "webp"@ {
        MediaType::Image
    } else {
        MediaType::Other
    }
}

/// The media type of a file whose extension, already in lower case, is `ext`.
pub fn media_type_for_lowercase_extension(ext: &str) -> (r: MediaType)
    ensures
        r == media_type_of_extension(ext@),
{
    if str_equals(ext, "mp4") || str_equals(ext, "mov") || str_equals(ext, "avi")
        || str_equals(ext, "mkv") || str_equals(ext, "webm") {
        MediaType::Video
    } else if str_equals(ext, "mp3") || str_equals(ext, "wav") || str_equals(ext, "flac")
        || str_equals(ext, "aac") || str_equals(ext, "ogg") {
        MediaType::Audio
    } else if str_equals(ext, "png") || str_equals(ext, "jpg") || str_equals(ext, "jpeg")
        || str_equals(ext, "gif") || str_equals(ext, "webp") {
        MediaType::Image
    } else {
        MediaType::Other
    }
}

/// The media type of a file whose extension is `ext`, in any case.
pub fn media_type_for_extension(ext: &str) -> (r: MediaType)
    ensures
        r == media_type_of_extension(lowercase_of(ext@)),
{
    let lower = to_lowercase(ext);
    media_type_for_lowercase_extension(lower.as_str())
}

/// The length, in seconds, given to an imported file of media type `t`.
pub open spec fn import_secs(t: MediaType) -> u32 {
    match t {
        MediaType::Video => 10,
        MediaType::Audio => 30,
        MediaType::Image => 5,
        MediaType::Other => 3,
    }
}

pub fn import_duration_secs(t: &MediaType) -> (r: u32)
    ensures
        r == import_secs(*t),
{
    match t {
        MediaType::Video => 10,
        MediaType::Audio => 30,
        MediaType::Image => 5,
        MediaType::Other => 3,
    }
}

/// How an imported file enters the media list: its name, its media type and
/// its length in seconds.
pub struct ImportedFile {
    pub name: String,
    pub media_type: MediaType,
    pub duration_secs: u32,
}

/// The name under which a file enters the media list: its stem, or
/// `fichier` when it has none that is valid text.
pub open spec fn import_name(stem: Option<Seq<char>>) -> Seq<char> {
    match stem {
        Some(s) => s,
        None => "fichier"@,
    }
}

/// The view of an optional string slice.
pub open spec fn opt_view(s: Option<&str>) -> Option<Seq<char>> {
    match s {
        Some(x) => Some(x@),
        None => None,
    }
}

/// Describes a file being imported from its stem and its extension (either
/// missing when the path has none, or none that is valid text).
pub fn describe_import(stem: Option<&str>, extension: Option<&str>) -> (r: ImportedFile)
    ensures
        r.name@ == import_name(opt_view(stem)),
        r.media_type == media_type_of_extension(
            lowercase_of(
                match extension {
                    Some(e) => e@,
                    None => ""@,
                },
            ),
        ),
        r.duration_secs == import_secs(r.media_type),
{
    let name = match stem {
        Some(s) => s.to_owned(),
        None => "fichier".to_owned(),
    };
    let ext = match extension {
        Some(e) => e,
        None => "",
    };
    let media_type = media_type_for_extension(ext);
    let duration_secs = import_duration_secs(&media_type);
    ImportedFile { name, media_type, duration_secs }
}

/// The name and the length in seconds of the sample media item of type `t`.
pub open spec fn sample_of(t: MediaType) -> (Seq<char>, u32) {
    match t {
        MediaType::Video => ("Clip video.mp4"@, 8),
        MediaType::Audio => ("Musique fond.wav"@, 30),
        MediaType::Image => ("Photo couv.png"@, 3),
        MediaType::Other => ("Animation.gif"@, 5),
    }
}

pub fn sample_media(t: &MediaType) -> (r: (&'static str, u32))
    ensures
        r.0@ == sample_of(*t).0,
        r.1 == sample_of(*t).1,
{
    match t {
        MediaType::Video => ("Clip video.mp4", 8),
        MediaType::Audio => ("Musique fond.wav", 30),
        MediaType::Image => ("Photo couv.png", 3),
        MediaType::Other => ("Animation.gif", 5),
    }
}

/// An imported file with a stem is named by that stem exactly, in its own
/// case; one without a usable stem is named `fichier`.
pub proof fn lemma_import_name_is_stem(stem: Option<Seq<char>>)
    ensures
        stem matches Some(s) ==> import_name(stem) == s,
        stem is None ==> import_name(stem) == "fichier"@,
{
}

} // verus!
