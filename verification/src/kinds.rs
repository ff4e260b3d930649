use vstd::prelude::*;
use crate::text::str_equals;

verus! {

/// The kind of an imported media file.
#[derive(Clone, Copy, Debug, PartialEq, Eq, Structural)]
pub enum MediaType {
    Video,
    Audio,
    Image,
    Other,
}

/// The kind of a timeline track.
#[derive(Clone, Copy, Debug, PartialEq, Eq, Structural)]
pub enum TrackKind {
    Video,
    Audio,
    Text,
}

/// The name under which a media type is saved.
pub open spec fn media_type_name(t: MediaType) -> Seq<char> {
    match t {
        MediaType::Video => "video"@,
        MediaType::Audio => "audio"@,
        MediaType::Image => "image"@,
        MediaType::Other => "other"@,
    }
}

/// The media type read back from a saved name; any unknown name reads as `Other`.
pub open spec fn media_type_of_name(s: Seq<char>) -> MediaType {
    if s == "video"@ {
        MediaType::Video
    } else if s == "audio"@ {
        MediaType::Audio
    } else if s == "image"@ {
        MediaType::Image
    } else {
        MediaType::Other
    }
}

/// The name under which a track kind is saved.
pub open spec fn track_kind_name(k: TrackKind) -> Seq<char> {
    match k {
        TrackKind::Video => "video"@,
        TrackKind::Audio => "audio"@,
        TrackKind::Text => "text"@,
    }
}

/// The track kind read back from a saved name; any unknown name reads as `Text`.
pub open spec fn track_kind_of_name(s: Seq<char>) -> TrackKind {
    if s == "video"@ {
        TrackKind::Video
    } else if s == "audio"@ {
        TrackKind::Audio
    } else {
        TrackKind::Text
    }
}

/// The name under which a media type is saved.
pub fn media_type_str(t: &MediaType) -> (r: &'static str)
    ensures
        r@ == media_type_name(*t),
{
    match t {
        MediaType::Video => "video",
        MediaType::Audio => "audio",
        MediaType::Image => "image",
        MediaType::Other => "other",
    }
}

/// Reads a saved media type name back; an unknown name gives `Other`.
pub fn media_type_from_str(s: &str) -> (r: MediaType)
    ensures
        r == media_type_of_name(s@),
{
    if str_equals(s, "video") {
        MediaType::Video
    } else if str_equals(s, "audio") {
        MediaType::Audio
    } else if str_equals(s, "image") {
        MediaType::Image
    } else {
        MediaType::Other
    }
}

/// The name under which a track kind is saved.
pub fn track_kind_str(k: &TrackKind) -> (r: &'static str)
    ensures
        r@ == track_kind_name(*k),
{
    match k {
        TrackKind::Video => "video",
        TrackKind::Audio => "audio",
        TrackKind::Text => "text",
    }
}

/// Reads a saved track kind name back; an unknown name gives `Text`.
pub fn track_kind_from_str(s: &str) -> (r: TrackKind)
    ensures
        r == track_kind_of_name(s@),
{
    if str_equals(s, "video") {
        TrackKind::Video
    } else if str_equals(s, "audio") {
        TrackKind::Audio
    } else {
        TrackKind::Text
    }
}

/// Reading back the saved name of a media type gives the same media type.
pub proof fn lemma_media_type_name_round_trip(t: MediaType)
    ensures
        media_type_of_name(media_type_name(t)) == t,
{
    reveal_strlit("video");
    reveal_strlit("audio");
    reveal_strlit("image");
    reveal_strlit("other");
    match t {
        MediaType::Video => {},
        MediaType::Audio => {
            assert("audio"@[0] != "video"@[0]);
        },
        MediaType::Image => {
            assert("image"@[0] != "video"@[0]);
            assert("image"@[0] != "audio"@[0]);
        },
        MediaType::Other => {
            assert("other"@[0] != "video"@[0]);
            assert("other"@[0] != "audio"@[0]);
            assert("other"@[0] != "image"@[0]);
        },
    }
}

/// Reading back the saved name of a track kind gives the same track kind.
pub proof fn lemma_track_kind_name_round_trip(k: TrackKind)
    ensures
        track_kind_of_name(track_kind_name(k)) == k,
{
    reveal_strlit("video");
    reveal_strlit("audio");
    reveal_strlit("text");
    match k {
        TrackKind::Video => {},
        TrackKind::Audio => {
            assert("audio"@[0] != "video"@[0]);
        },
        TrackKind::Text => {
            assert("text"@.len() != "video"@.len());
            assert("text"@.len() != "audio"@.len());
        },
    }
}

} // verus!
