use velocis::kinds::{
    media_type_from_str, media_type_str, track_kind_from_str, track_kind_str, MediaType, TrackKind,
};
use velocis::labels::{
    clock_label, dialog_name_display, elapsed_label, media_icon, media_type_label, placeholder_icon,
    play_button_label, preview_caption, preview_source, ruler_label, track_icon, PreviewSource,
};
use velocis::text::{decimal_string, str_equals};

const MEDIA_TYPES: [MediaType; 4] = [MediaType::Video, MediaType::Audio, MediaType::Image, MediaType::Other];
const TRACK_KINDS: [TrackKind; 3] = [TrackKind::Video, TrackKind::Audio, TrackKind::Text];

#[test]
fn media_type_names() {
    assert_eq!(media_type_str(&MediaType::Video), "video");
    assert_eq!(media_type_str(&MediaType::Audio), "audio");
    assert_eq!(media_type_str(&MediaType::Image), "image");
    assert_eq!(media_type_str(&MediaType::Other), "other");
}

#[test]
fn media_type_round_trip() {
    for t in MEDIA_TYPES {
        assert_eq!(media_type_from_str(media_type_str(&t)), t);
    }
}

#[test]
fn unknown_media_type_name_reads_as_other() {
    assert_eq!(media_type_from_str("Video"), MediaType::Other);
    assert_eq!(media_type_from_str(""), MediaType::Other);
    assert_eq!(media_type_from_str("videos"), MediaType::Other);
    assert_eq!(media_type_from_str("audio"), MediaType::Audio);
}

#[test]
fn track_kind_names() {
    assert_eq!(track_kind_str(&TrackKind::Video), "video");
    assert_eq!(track_kind_str(&TrackKind::Audio), "audio");
    assert_eq!(track_kind_str(&TrackKind::Text), "text");
}

#[test]
fn track_kind_round_trip() {
    for k in TRACK_KINDS {
        assert_eq!(track_kind_from_str(track_kind_str(&k)), k);
    }
}

#[test]
fn unknown_track_kind_name_reads_as_text() {
    assert_eq!(track_kind_from_str("image"), TrackKind::Text);
    assert_eq!(track_kind_from_str(""), TrackKind::Text);
    assert_eq!(track_kind_from_str("AUDIO"), TrackKind::Text);
}

#[test]
fn string_equality() {
    assert!(str_equals("abc", "abc"));
    assert!(!str_equals("abc", "abd"));
    assert!(!str_equals("abc", "ab"));
    assert!(str_equals("", ""));
    assert!(str_equals("é✓", "é✓"));
}

#[test]
fn decimal_strings() {
    assert_eq!(decimal_string(0), "0");
    assert_eq!(decimal_string(7), "7");
    assert_eq!(decimal_string(10), "10");
    assert_eq!(decimal_string(1234567890), "1234567890");
    assert_eq!(decimal_string(u128::MAX), u128::MAX.to_string());
}

#[test]
fn clock_labels() {
    assert_eq!(clock_label(0), "00:00");
    assert_eq!(clock_label(5), "00:05");
    assert_eq!(clock_label(65), "01:05");
    assert_eq!(clock_label(600), "10:00");
    assert_eq!(clock_label(3599), "59:59");
    assert_eq!(clock_label(6000), "100:00");
}

#[test]
fn elapsed_labels() {
    assert_eq!(elapsed_label(None), "");
    assert_eq!(elapsed_label(Some(0)), "Il y a 0 min");
    assert_eq!(elapsed_label(Some(59 * 60 + 59)), "Il y a 59 min");
    assert_eq!(elapsed_label(Some(60 * 60)), "Il y a 1h");
    assert_eq!(elapsed_label(Some(1439 * 60)), "Il y a 23h");
    assert_eq!(elapsed_label(Some(1440 * 60)), "Il y a 1j");
    assert_eq!(elapsed_label(Some(1725029869)), "Il y a 19965j");
}

#[test]
fn ruler_labels() {
    assert_eq!(ruler_label(0), "00:00");
    assert_eq!(ruler_label(1), "");
    assert_eq!(ruler_label(4), "");
    assert_eq!(ruler_label(5), "00:05");
    assert_eq!(ruler_label(55), "00:55");
    assert_eq!(ruler_label(60), "01:00");
}

#[test]
fn icons_and_words() {
    assert_eq!(media_icon(&MediaType::Video), "\u{25B6}");
    assert_eq!(media_icon(&MediaType::Audio), "\u{266A}");
    assert_eq!(media_icon(&MediaType::Image), "\u{1F5BC}");
    assert_eq!(media_icon(&MediaType::Other), "\u{1F4C1}");
    assert_eq!(media_type_label(&MediaType::Video), "Video");
    assert_eq!(media_type_label(&MediaType::Other), "Fichier");
    assert_eq!(track_icon(&TrackKind::Video), "\u{1F3AC}");
    assert_eq!(track_icon(&TrackKind::Audio), "\u{266A}");
    assert_eq!(track_icon(&TrackKind::Text), "T");
    assert_eq!(placeholder_icon(&MediaType::Audio), "\u{266B}");
    assert_eq!(placeholder_icon(&MediaType::Video), "\u{1F3AC}");
}

#[test]
fn preview_captions() {
    assert_eq!(preview_caption(&MediaType::Audio, 75), "Audio  \u{00B7}  01:15");
    assert_eq!(preview_caption(&MediaType::Other, 0), "Fichier  \u{00B7}  00:00");
}

#[test]
fn preview_sources() {
    assert_eq!(preview_source(&MediaType::Image, true, false), PreviewSource::File);
    assert_eq!(preview_source(&MediaType::Image, false, true), PreviewSource::Placeholder);
    assert_eq!(preview_source(&MediaType::Video, true, true), PreviewSource::Frame);
    assert_eq!(preview_source(&MediaType::Video, true, false), PreviewSource::Placeholder);
    assert_eq!(preview_source(&MediaType::Audio, true, true), PreviewSource::Placeholder);
}

#[test]
fn buttons_and_hints() {
    assert_eq!(play_button_label(true), "\u{23F8}  Pause");
    assert_eq!(play_button_label(false), "\u{25B6}  Play");
    assert_eq!(dialog_name_display(""), "Mon projet");
    assert_eq!(dialog_name_display("Clip"), "Clip");
}

#[test]
fn clock_labels_read_back() {
    for secs in [0u64, 9, 59, 60, 61, 599, 3600, 359999, 1234567] {
        let label = clock_label(secs);
        let (m, s) = label.split_at(label.len() - 3);
        assert_eq!(&s[..1], ":");
        assert_eq!(s.len(), 3);
        let m: u64 = m.parse().unwrap();
        let s: u64 = s[1..].parse().unwrap();
        assert_eq!(m * 60 + s, secs);
    }
}
