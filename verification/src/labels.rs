use vstd::prelude::*;
use crate::kinds::{MediaType, TrackKind};
use crate::text::{decimal, decimal_value, two_digits, push_decimal, push_two_digits, lemma_two_digits};

verus! {

/// `MM:SS` for a whole number of seconds, each part at least two digits wide.
pub open spec fn clock_text(secs: nat) -> Seq<char> {
    two_digits(secs / 60) + seq![':'] + two_digits(secs % 60)
}

/// How long ago a project was opened, as the home screen words it: in minutes
/// below an hour, in hours below a day, else in days; nothing when the time is unknown.
pub open spec fn elapsed_text(last_opened: Option<u64>) -> Seq<char> {
    match last_opened {
        None => Seq::empty(),
        Some(secs) => {
            let mins = secs as nat / 60;
            if mins < 60 {
                "Il y a "@ + decimal(mins) + " min"@
            } else if mins < 1440 {
                "Il y a "@ + decimal(mins / 60) + "h"@
            } else {
                "Il y a "@ + decimal(mins / 1440) + "j"@
            }
        },
    }
}

/// A clock label reads back as the seconds it was made from: the digits
/// before the colon count minutes, the two after it seconds.
pub proof fn lemma_clock_text_value(secs: nat)
    ensures
        clock_text(secs).len() >= 5,
        clock_text(secs)[clock_text(secs).len() - 3] == ':',
        decimal_value(clock_text(secs).subrange(0, clock_text(secs).len() - 3)) * 60
            + decimal_value(
            clock_text(secs).subrange(clock_text(secs).len() - 2, clock_text(secs).len() as int),
        ) == secs,
{
    let m = two_digits(secs / 60);
    let s = two_digits(secs % 60);
    lemma_two_digits(secs / 60);
    lemma_two_digits(secs % 60);
    let t = clock_text(secs);
    assert(m.len() >= 2) by {
        crate::text::lemma_decimal_digits(secs / 60);
        crate::text::lemma_decimal_digits(secs / 60 / 10);
    }
    assert(t.subrange(0, t.len() - 3) =~= m);
    assert(t.subrange(t.len() - 2, t.len() as int) =~= s);
}

/// The timeline ruler's label for the mark at `i` seconds: a clock every five seconds.
pub open spec fn ruler_text(i: nat) -> Seq<char> {
    if i % 5 == 0 {
        clock_text(i)
    } else {
        Seq::empty()
    }
}

/// Formats whole seconds as `MM:SS`.
pub fn clock_label(secs: u64) -> (r: String)
    ensures
        r@ == clock_text(secs as nat),
{
    let mut s = String::new();
    push_two_digits(&mut s, secs / 60);
    s.append(":");
    proof { reveal_strlit(":"); }
    push_two_digits(&mut s, secs % 60);
    assert(s@ =~= clock_text(secs as nat));
    s
}

/// The "opened ... ago" caption of a recent project card.
pub fn elapsed_label(last_opened: Option<u64>) -> (r: String)
    ensures
        r@ == elapsed_text(last_opened),
{
    match last_opened {
        None => String::new(),
        Some(secs) => {
            let mins = secs / 60;
            let mut s = String::new();
            s.append("Il y a ");
            if mins < 60 {
                push_decimal(&mut s, mins as u128);
                s.append(" min");
            } else if mins < 1440 {
                push_decimal(&mut s, (mins / 60) as u128);
                s.append("h");
            } else {
                push_decimal(&mut s, (mins / 1440) as u128);
                s.append("j");
            }
            assert(s@ =~= elapsed_text(last_opened));
            s
        },
    }
}

/// The label of the ruler mark at `i` seconds.
pub fn ruler_label(i: u64) -> (r: String)
    ensures
        r@ == ruler_text(i as nat),
{
    if i % 5 == 0 {
        clock_label(i)
    } else {
        String::new()
    }
}

/// The icon of a media type in the media panel.
pub open spec fn media_icon_text(t: MediaType) -> Seq<char> {
    match t {
        MediaType::Video => "\u{25B6}"@,
        MediaType::Audio => "\u{266A}"@,
        MediaType::Image => "\u{1F5BC}"@,
        MediaType::Other => "\u{1F4C1}"@,
    }
}

pub fn media_icon(t: &MediaType) -> (r: &'static str)
    ensures
        r@ == media_icon_text(*t),
{
    match t {
        MediaType::Video => "\u{25B6}",
        MediaType::Audio => "\u{266A}",
        MediaType::Image => "\u{1F5BC}",
        MediaType::Other => "\u{1F4C1}",
    }
}

/// The word shown for a media type in the media panel and under the preview.
pub open spec fn media_type_label_text(t: MediaType) -> Seq<char> {
    match t {
        MediaType::Video => "Video"@,
        MediaType::Audio => "Audio"@,
        MediaType::Image => "Image"@,
        MediaType::Other => "Fichier"@,
    }
}

pub fn media_type_label(t: &MediaType) -> (r: &'static str)
    ensures
        r@ == media_type_label_text(*t),
{
    match t {
        MediaType::Video => "Video",
        MediaType::Audio => "Audio",
        MediaType::Image => "Image",
        MediaType::Other => "Fichier",
    }
}

/// The icon in a track's header.
pub open spec fn track_icon_text(k: TrackKind) -> Seq<char> {
    match k {
        TrackKind::Video => "\u{1F3AC}"@,
        TrackKind::Audio => "\u{266A}"@,
        TrackKind::Text => "T"@,
    }
}

pub fn track_icon(k: &TrackKind) -> (r: &'static str)
    ensures
        r@ == track_icon_text(*k),
{
    match k {
        TrackKind::Video => "\u{1F3AC}",
        TrackKind::Audio => "\u{266A}",
        TrackKind::Text => "T",
    }
}

/// The icon that stands in the preview when no picture of the media can be shown.
pub open spec fn placeholder_icon_text(t: MediaType) -> Seq<char> {
    match t {
        MediaType::Video => "\u{1F3AC}"@,
        MediaType::Image => "\u{1F5BC}"@,
        MediaType::Audio => "\u{266B}"@,
        MediaType::Other => "\u{1F4C1}"@,
    }
}

pub fn placeholder_icon(t: &MediaType) -> (r: &'static str)
    ensures
        r@ == placeholder_icon_text(*t),
{
    match t {
        MediaType::Video => "\u{1F3AC}",
        MediaType::Image => "\u{1F5BC}",
        MediaType::Audio => "\u{266B}",
        MediaType::Other => "\u{1F4C1}",
    }
}

/// The line under the preview: the media type's word, a separator and the
/// clip's length as `MM:SS`.
pub open spec fn preview_caption_text(t: MediaType, secs: nat) -> Seq<char> {
    media_type_label_text(t) + "  \u{00B7}  "@ + clock_text(secs)
}

pub fn preview_caption(t: &MediaType, secs: u64) -> (r: String)
    ensures
        r@ == preview_caption_text(*t, secs as nat),
{
    let mut s = String::new();
    s.append(media_type_label(t));
    s.append("  \u{00B7}  ");
    let c = clock_label(secs);
    s.append(c.as_str());
    assert(s@ =~= preview_caption_text(*t, secs as nat));
    s
}

/// What the preview shows for the media under the playhead.
#[derive(Clone, Copy, Debug, PartialEq, Eq, Structural)]
pub enum PreviewSource {
    /// The media file itself.
    File,
    /// The decoded frame of the media.
    Frame,
    /// The placeholder with the media type's icon.
    Placeholder,
}

/// An image with a path is shown itself, a video whose decoded frame is at
/// hand is shown by that frame, anything else by a placeholder.
pub open spec fn preview_source_of(t: MediaType, has_path: bool, frame_ready: bool) -> PreviewSource {
    if t == MediaType::Image && has_path {
        PreviewSource::File
    } else if t == MediaType::Video && frame_ready {
        PreviewSource::Frame
    } else {
        PreviewSource::Placeholder
    }
}

/// Chooses what the preview shows; `frame_ready` tells whether a decoded
/// frame of this very media is at hand.
pub fn preview_source(t: &MediaType, has_path: bool, frame_ready: bool) -> (r: PreviewSource)
    ensures
        r == preview_source_of(*t, has_path, frame_ready),
{
    match t {
        MediaType::Image if has_path => PreviewSource::File,
        MediaType::Video if frame_ready => PreviewSource::Frame,
        _ => PreviewSource::Placeholder,
    }
}

/// The caption of the play button.
pub open spec fn play_button_text(playing: bool) -> Seq<char> {
    if playing {
        "\u{23F8}  Pause"@
    } else {
        "\u{25B6}  Play"@
    }
}

pub fn play_button_label(playing: bool) -> (r: &'static str)
    ensures
        r@ == play_button_text(playing),
{
    if playing {
        "\u{23F8}  Pause"
    } else {
        "\u{25B6}  Play"
    }
}

/// What the name field of the new-project dialog shows: the name typed, or
/// the hint `Mon projet` while it is empty.
pub open spec fn dialog_name_text(typed: Seq<char>) -> Seq<char> {
    if typed.len() == 0 {
        "Mon projet"@
    } else {
        typed
    }
}

pub fn dialog_name_display(typed: &str) -> (r: String)
    ensures
        r@ == dialog_name_text(typed@),
{
    if typed.unicode_len() == 0 {
        "Mon projet".to_owned()
    } else {
        typed.to_owned()
    }
}

} // verus!
