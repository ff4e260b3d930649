use vstd::prelude::*;
use crate::kinds::{MediaType, TrackKind};
use crate::text::str_equals;

verus! {

/// The height, in pixels, of a new track.
pub const TRACK_HEIGHT_PX: u32 = 48;

/// The shortest length, in seconds, of a clip added to the timeline from the media panel.
pub const MIN_CLIP_SECS: u32 = 3;

/// Whether a track of kind `k` takes media of type `t`: video tracks take
/// videos and images, audio tracks take audio, text tracks take anything.
pub open spec fn accepts(k: TrackKind, t: MediaType) -> bool {
    match k {
        TrackKind::Video => t == MediaType::Video || t == MediaType::Image,
        TrackKind::Audio => t == MediaType::Audio,
        TrackKind::Text => true,
    }
}

pub fn track_accepts(k: &TrackKind, t: &MediaType) -> (r: bool)
    ensures
        r == accepts(*k, *t),
{
    match (k, t) {
        (TrackKind::Video, MediaType::Video) => true,
        (TrackKind::Video, MediaType::Image) => true,
        (TrackKind::Audio, MediaType::Audio) => true,
        (TrackKind::Text, _) => true,
        _ => false,
    }
}

/// The first of the tracks, by their kinds, that takes media of type `t`.
pub fn first_fitting_track(kinds: &Vec<TrackKind>, t: &MediaType) -> (r: Option<usize>)
    ensures
        match r {
            Some(i) => i < kinds@.len() && accepts(kinds@[i as int], *t) && forall|j: int|
                0 <= j < i ==> !accepts(#[trigger] kinds@[j], *t),
            None => forall|j: int| 0 <= j < kinds@.len() ==> !accepts(#[trigger] kinds@[j], *t),
        },
{
    let mut i: usize = 0;
    while i < kinds.len()
        invariant
            i <= kinds@.len(),
            forall|j: int| 0 <= j < i ==> !accepts(#[trigger] kinds@[j], *t),
        decreases kinds@.len() - i,
    {
        if track_accepts(&kinds[i], t) {
            return Some(i);
        }
        i = i + 1;
    }
    None
}

/// The colour of a new clip of media type `t`, as hue, saturation and
/// lightness in hundredths.
pub open spec fn clip_color(t: MediaType) -> (u32, u32, u32) {
    match t {
        MediaType::Video => (8, 80, 35),
        MediaType::Audio => (55, 60, 35),
        MediaType::Image => (15, 50, 35),
        MediaType::Other => (0, 0, 35),
    }
}

pub fn clip_color_hundredths(t: &MediaType) -> (r: (u32, u32, u32))
    ensures
        r == clip_color(*t),
{
    match t {
        MediaType::Video => (8, 80, 35),
        MediaType::Audio => (55, 60, 35),
        MediaType::Image => (15, 50, 35),
        MediaType::Other => (0, 0, 35),
    }
}

/// The names and kinds of the tracks of a new sequence, top to bottom.
pub open spec fn default_track_layout() -> Seq<(Seq<char>, TrackKind)> {
    seq![("V1"@, TrackKind::Video), ("A1"@, TrackKind::Audio), ("T1"@, TrackKind::Text)]
}

pub fn default_tracks() -> (r: Vec<(String, TrackKind)>)
    ensures
        r@.len() == default_track_layout().len(),
        forall|i: int|
            0 <= i < r@.len() ==> (#[trigger] r@[i]).0@ == default_track_layout()[i].0 && r@[i].1
                == default_track_layout()[i].1,
{
    let mut v: Vec<(String, TrackKind)> = Vec::new();
    v.push(("V1".to_owned(), TrackKind::Video));
    v.push(("A1".to_owned(), TrackKind::Audio));
    v.push(("T1".to_owned(), TrackKind::Text));
    v
}

/// Whether clip `c` of track `t` has the identifier `id`.
pub open spec fn clip_is(ids: Seq<Seq<Seq<char>>>, t: int, c: int, id: Seq<char>) -> bool {
    0 <= t < ids.len() && 0 <= c < ids[t].len() && ids[t][c] == id
}

/// Whether the place `(t1, c1)` comes before `(t2, c2)`: tracks top to bottom,
/// clips left to right within a track.
pub open spec fn before(t1: int, c1: int, t2: int, c2: int) -> bool {
    t1 < t2 || (t1 == t2 && c1 < c2)
}

/// Finds the first clip, tracks top to bottom and clips in order, whose
/// identifier is `id`; `ids[t][c]` is the identifier of clip `c` of track `t`.
pub fn find_clip(ids: &Vec<Vec<String>>, id: &str) -> (r: Option<(usize, usize)>)
    ensures
        match r {
            Some((t, c)) => clip_is(ids.deep_view(), t as int, c as int, id@) && forall|
                t2: int,
                c2: int,
            | before(t2, c2, t as int, c as int) ==> !#[trigger] clip_is(ids.deep_view(), t2, c2, id@),
            None => forall|t2: int, c2: int| !#[trigger] clip_is(ids.deep_view(), t2, c2, id@),
        },
{
    let ghost dv = ids.deep_view();
    let mut t: usize = 0;
    while t < ids.len()
        invariant
            dv == ids.deep_view(),
            t <= ids@.len(),
            forall|t2: int, c2: int| 0 <= t2 < t ==> !#[trigger] clip_is(dv, t2, c2, id@),
        decreases ids@.len() - t,
    {
        let track = &ids[t];
        let mut c: usize = 0;
        while c < track.len()
            invariant
                dv == ids.deep_view(),
                t < ids@.len(),
                *track == ids@[t as int],
                c <= track@.len(),
                forall|t2: int, c2: int| 0 <= t2 < t ==> !#[trigger] clip_is(dv, t2, c2, id@),
                forall|c2: int| 0 <= c2 < c ==> !#[trigger] clip_is(dv, t as int, c2, id@),
            decreases track@.len() - c,
        {
            assert(dv[t as int][c as int] == track@[c as int]@);
            if str_equals(track[c].as_str(), id) {
                return Some((t, c));
            }
            c = c + 1;
        }
        assert forall|t2: int, c2: int| 0 <= t2 < t + 1 implies !#[trigger] clip_is(dv, t2, c2, id@) by {
            if t2 == t {
                if 0 <= c2 < dv[t2].len() {
                    assert(dv[t2].len() == track@.len());
                }
            }
        }
        t = t + 1;
    }
    None
}

/// The first place in `ids` that holds `id`, as the preview looks up the
/// media of a clip by the clip's media identifier.
pub fn find_by_id(ids: &Vec<String>, id: &str) -> (r: Option<usize>)
    ensures
        match r {
            Some(i) => i < ids@.len() && ids@[i as int]@ == id@ && forall|j: int|
                0 <= j < i ==> (#[trigger] ids@[j])@ != id@,
            None => forall|j: int| 0 <= j < ids@.len() ==> (#[trigger] ids@[j])@ != id@,
        },
{
    let mut i: usize = 0;
    while i < ids.len()
        invariant
            i <= ids@.len(),
            forall|j: int| 0 <= j < i ==> (#[trigger] ids@[j])@ != id@,
        decreases ids@.len() - i,
    {
        if str_equals(ids[i].as_str(), id) {
            return Some(i);
        }
        i = i + 1;
    }
    None
}

/// A text track takes media of every type.
pub proof fn lemma_text_track_takes_all(t: MediaType)
    ensures
        accepts(TrackKind::Text, t),
{
}

/// Every media type fits on some track of a new sequence, so adding media
/// from the panel to a fresh timeline always finds a track.
pub proof fn lemma_default_layout_takes_all(t: MediaType)
    ensures
        exists|i: int| 0 <= i < default_track_layout().len() && accepts(#[trigger] default_track_layout()[i].1, t),
{
    assert(accepts(default_track_layout()[2].1, t));
}

} // verus!
