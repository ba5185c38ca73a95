//! Player state, commands and external playback on the wire.
//!
//! Each message is stated as a spec function in both directions (`*_wire` out,
//! `*_decoded` in), the executable conversions are tied to them by their
//! `ensures`, and each `lemma_*_round_trip` proves that a value sent and read
//! back is the value that was sent.

use vstd::prelude::*;

use crate::api;
use crate::config::items;
use crate::enums::{
    ErrorBody, ErrorBodyView, error_body_decoded, error_body_from_proto, error_body_to_proto,
    error_body_wire, lemma_api_enums_round_trip, lemma_error_body_round_trip, loop_decoded,
    loop_from_proto, loop_to_proto, loop_wire, phase_decoded, phase_from_proto, phase_to_proto,
    phase_wire, track_kind_decoded, track_kind_from_proto, track_kind_to_proto, track_kind_wire,
};
use crate::protocol::library::{
    lemma_track_info_opt_round_trip, narrow_bitrate, narrowed_bitrate, track_info_opt_decoded,
    track_info_opt_from_proto, track_info_opt_to_proto, track_info_opt_wire,
};
use crate::text::{clone_opt_string};
use crate::wire;

verus! {

pub open spec fn error_body_opt_wire(value: Option<ErrorBodyView>) -> Option<wire::ErrorBodyView> {
    match value {
        Some(v) => Some(error_body_wire(v)),
        None => None,
    }
}

pub open spec fn error_body_opt_decoded(value: Option<wire::ErrorBodyView>) -> Option<ErrorBodyView> {
    match value {
        Some(w) => Some(error_body_decoded(w)),
        None => None,
    }
}

pub fn error_body_opt_to_proto(value: &Option<ErrorBody>) -> (r: Option<wire::ErrorBody>)
    ensures
        r.deep_view() == error_body_opt_wire(value.deep_view()),
{
    match value {
        Some(v) => Some(error_body_to_proto(v)),
        None => None,
    }
}

pub fn error_body_opt_from_proto(value: &Option<wire::ErrorBody>) -> (r: Option<ErrorBody>)
    ensures
        r.deep_view() == error_body_opt_decoded(value.deep_view()),
{
    match value {
        Some(w) => Some(error_body_from_proto(w)),
        None => None,
    }
}

pub proof fn lemma_error_body_opt_round_trip(value: Option<ErrorBodyView>)
    ensures
        error_body_opt_decoded(error_body_opt_wire(value)) == value,
{
    if let Some(v) = value {
        lemma_error_body_round_trip(v);
    }
}

pub open spec fn intent_wire(v: api::IntentView) -> wire::IntentView {
    wire::IntentView {
        kind: Some(
            match v {
                api::IntentView::Stopped => wire::IntentKindView::Stopped,
                api::IntentView::Loading { token, from_token } => wire::IntentKindView::Loading {
                    token,
                    from_token,
                },
                api::IntentView::Committed { token } => wire::IntentKindView::Committed { token },
            },
        ),
    }
}

/// The intent a received message stands for; a missing message, or one with
/// no alternative set, reads as stopped.
pub open spec fn intent_decoded(value: Option<wire::IntentView>) -> api::IntentView {
    match value {
        Some(w) => match w.kind {
            Some(wire::IntentKindView::Stopped) => api::IntentView::Stopped,
            Some(wire::IntentKindView::Loading { token, from_token }) => api::IntentView::Loading {
                token,
                from_token,
            },
            Some(wire::IntentKindView::Committed { token }) => api::IntentView::Committed { token },
            None => api::IntentView::Stopped,
        },
        None => api::IntentView::Stopped,
    }
}

pub fn intent_to_proto(value: &api::Intent) -> (r: wire::Intent)
    ensures
        r@ == intent_wire(value@),
{
    let kind = match value {
        api::Intent::Stopped => wire::IntentKind::Stopped,
        api::Intent::Loading { token, from_token } => wire::IntentKind::Loading {
            token: *token,
            from_token: *from_token,
        },
        api::Intent::Committed { token } => wire::IntentKind::Committed { token: *token },
    };
    wire::Intent { kind: Some(kind) }
}

pub fn intent_from_proto(value: Option<&wire::Intent>) -> (r: api::Intent)
    ensures
        r@ == intent_decoded(value.deep_view()),
{
    match value {
        Some(w) => match &w.kind {
            Some(wire::IntentKind::Stopped) => api::Intent::Stopped,
            Some(wire::IntentKind::Loading { token, from_token }) => api::Intent::Loading {
                token: *token,
                from_token: *from_token,
            },
            Some(wire::IntentKind::Committed { token }) => api::Intent::Committed { token: *token },
            None => api::Intent::Stopped,
        },
        None => api::Intent::Stopped,
    }
}

/// Every value survives the wire: sent and read back, it is the value that
/// was sent.
pub proof fn lemma_intent_round_trip(v: api::IntentView)
    ensures
        intent_decoded(Some(intent_wire(v))) == v,
{
    lemma_api_enums_round_trip();
    match v {
        api::IntentView::Stopped => {},
        api::IntentView::Loading { .. } => {},
        api::IntentView::Committed { .. } => {},
    }
}

/// Each alternative travels as the wire alternative of the same name.
pub proof fn lemma_intent_alternatives_travel(v: api::IntentView)
    ensures
        intent_wire(v).kind is Some,
        (v is Stopped) == (intent_wire(v).kind.unwrap() is Stopped),
        (v is Loading) == (intent_wire(v).kind.unwrap() is Loading),
        (v is Committed) == (intent_wire(v).kind.unwrap() is Committed),
{
}

/// The empty NowPlaying: no text, no numbers, the default kind.
pub open spec fn now_playing_default() -> api::NowPlayingView {
    api::NowPlayingView {
        key: Seq::empty(),
        uid: Seq::empty(),
        title: Seq::empty(),
        artist: Seq::empty(),
        album: Seq::empty(),
        duration_ms: None,
        khz: 0,
        bitrate: 0,
        kind: api::TrackKind::Normal,
        seekable: false,
    }
}

impl Default for api::NowPlaying {
    fn default() -> (r: Self)
        ensures
            r@ == now_playing_default(),
    {
        api::NowPlaying {
            key: String::new(),
            uid: String::new(),
            title: String::new(),
            artist: String::new(),
            album: String::new(),
            duration_ms: None,
            khz: 0,
            bitrate: 0,
            kind: api::TrackKind::Normal,
            seekable: false,
        }
    }
}

pub open spec fn now_playing_wire(v: api::NowPlayingView) -> wire::NowPlayingView {
    wire::NowPlayingView {
        key: v.key,
        uid: v.uid,
        title: v.title,
        artist: v.artist,
        album: v.album,
        duration_ms: v.duration_ms,
        khz: v.khz,
        bitrate: (v.bitrate as u32),
        kind: track_kind_wire(v.kind).spec_code(),
        seekable: v.seekable,
    }
}

/// A received bit rate above what 16 bits hold reads as the largest one.
pub open spec fn now_playing_decoded(w: wire::NowPlayingView) -> api::NowPlayingView {
    api::NowPlayingView {
        key: w.key,
        uid: w.uid,
        title: w.title,
        artist: w.artist,
        album: w.album,
        duration_ms: w.duration_ms,
        khz: w.khz,
        bitrate: narrow_bitrate(w.bitrate),
        kind: track_kind_decoded(w.kind),
        seekable: w.seekable,
    }
}

pub fn now_playing_to_proto(value: &api::NowPlaying) -> (r: wire::NowPlaying)
    ensures
        r@ == now_playing_wire(value@),
{
    wire::NowPlaying {
        key: value.key.clone(),
        uid: value.uid.clone(),
        title: value.title.clone(),
        artist: value.artist.clone(),
        album: value.album.clone(),
        duration_ms: value.duration_ms,
        khz: value.khz,
        bitrate: (value.bitrate as u32),
        kind: track_kind_to_proto(value.kind).code(),
        seekable: value.seekable,
    }
}

pub fn now_playing_from_proto(value: &wire::NowPlaying) -> (r: api::NowPlaying)
    ensures
        r@ == now_playing_decoded(value@),
{
    api::NowPlaying {
        key: value.key.clone(),
        uid: value.uid.clone(),
        title: value.title.clone(),
        artist: value.artist.clone(),
        album: value.album.clone(),
        duration_ms: value.duration_ms,
        khz: value.khz,
        bitrate: narrowed_bitrate(value.bitrate),
        kind: track_kind_from_proto(value.kind),
        seekable: value.seekable,
    }
}

/// Every value survives the wire: sent and read back, it is the value that
/// was sent.
pub proof fn lemma_now_playing_round_trip(v: api::NowPlayingView)
    ensures
        now_playing_decoded(now_playing_wire(v)) == v,
{
    lemma_api_enums_round_trip();
}

/// Each field travels in the wire field of the same name, carried over
/// unchanged or through its own conversion, in both directions.
pub proof fn lemma_now_playing_fields_travel(v: api::NowPlayingView, w: wire::NowPlayingView)
    ensures
        now_playing_wire(v).key == v.key,
        now_playing_decoded(w).key == w.key,
        now_playing_wire(v).uid == v.uid,
        now_playing_decoded(w).uid == w.uid,
        now_playing_wire(v).title == v.title,
        now_playing_decoded(w).title == w.title,
        now_playing_wire(v).artist == v.artist,
        now_playing_decoded(w).artist == w.artist,
        now_playing_wire(v).album == v.album,
        now_playing_decoded(w).album == w.album,
        now_playing_wire(v).duration_ms == v.duration_ms,
        now_playing_decoded(w).duration_ms == w.duration_ms,
        now_playing_wire(v).khz == v.khz,
        now_playing_decoded(w).khz == w.khz,
        now_playing_wire(v).bitrate == v.bitrate as u32,
        w.bitrate <= 65535 ==> now_playing_decoded(w).bitrate == w.bitrate,
        w.bitrate > 65535 ==> now_playing_decoded(w).bitrate == 65535,
        now_playing_wire(v).kind == track_kind_wire(v.kind).spec_code(),
        now_playing_decoded(w).kind == track_kind_decoded(w.kind),
        now_playing_wire(v).seekable == v.seekable,
        now_playing_decoded(w).seekable == w.seekable,
{
}

pub open spec fn now_playing_opt_wire(value: Option<api::NowPlayingView>) -> Option<wire::NowPlayingView> {
    match value {
        Some(v) => Some(now_playing_wire(v)),
        None => None,
    }
}

pub open spec fn now_playing_opt_decoded(value: Option<wire::NowPlayingView>) -> Option<api::NowPlayingView> {
    match value {
        Some(w) => Some(now_playing_decoded(w)),
        None => None,
    }
}

pub fn now_playing_opt_to_proto(value: &Option<api::NowPlaying>) -> (r: Option<wire::NowPlaying>)
    ensures
        r.deep_view() == now_playing_opt_wire(value.deep_view()),
{
    match value {
        Some(v) => Some(now_playing_to_proto(v)),
        None => None,
    }
}

pub fn now_playing_opt_from_proto(value: &Option<wire::NowPlaying>) -> (r: Option<api::NowPlaying>)
    ensures
        r.deep_view() == now_playing_opt_decoded(value.deep_view()),
{
    match value {
        Some(w) => Some(now_playing_from_proto(w)),
        None => None,
    }
}

pub proof fn lemma_now_playing_opt_round_trip(value: Option<api::NowPlayingView>)
    ensures
        now_playing_opt_decoded(now_playing_opt_wire(value)) == value,
{
    if let Some(v) = value {
        lemma_now_playing_round_trip(v);
    }
}

pub open spec fn anchor_wire(v: api::PositionAnchorView) -> wire::PositionAnchorView {
    wire::PositionAnchorView {
        ms: v.ms,
        at_ms: v.at_ms,
        playing: v.playing,
    }
}

pub open spec fn anchor_decoded(w: wire::PositionAnchorView) -> api::PositionAnchorView {
    api::PositionAnchorView {
        ms: w.ms,
        at_ms: w.at_ms,
        playing: w.playing,
    }
}

pub fn anchor_to_proto(value: &api::PositionAnchor) -> (r: wire::PositionAnchor)
    ensures
        r@ == anchor_wire(value@),
{
    wire::PositionAnchor {
        ms: value.ms,
        at_ms: value.at_ms,
        playing: value.playing,
    }
}

pub fn anchor_from_proto(value: &wire::PositionAnchor) -> (r: api::PositionAnchor)
    ensures
        r@ == anchor_decoded(value@),
{
    api::PositionAnchor {
        ms: value.ms,
        at_ms: value.at_ms,
        playing: value.playing,
    }
}

/// Every value survives the wire: sent and read back, it is the value that
/// was sent.
pub proof fn lemma_anchor_round_trip(v: api::PositionAnchorView)
    ensures
        anchor_decoded(anchor_wire(v)) == v,
{
    lemma_api_enums_round_trip();
}

/// Each field travels in the wire field of the same name, carried over
/// unchanged or through its own conversion, in both directions.
pub proof fn lemma_anchor_fields_travel(v: api::PositionAnchorView, w: wire::PositionAnchorView)
    ensures
        anchor_wire(v).ms == v.ms,
        anchor_decoded(w).ms == w.ms,
        anchor_wire(v).at_ms == v.at_ms,
        anchor_decoded(w).at_ms == w.at_ms,
        anchor_wire(v).playing == v.playing,
        anchor_decoded(w).playing == w.playing,
{
}

pub open spec fn anchor_opt_wire(value: Option<api::PositionAnchorView>) -> Option<wire::PositionAnchorView> {
    match value {
        Some(v) => Some(anchor_wire(v)),
        None => None,
    }
}

pub open spec fn anchor_opt_decoded(value: Option<wire::PositionAnchorView>) -> Option<api::PositionAnchorView> {
    match value {
        Some(w) => Some(anchor_decoded(w)),
        None => None,
    }
}

pub fn anchor_opt_to_proto(value: &Option<api::PositionAnchor>) -> (r: Option<wire::PositionAnchor>)
    ensures
        r.deep_view() == anchor_opt_wire(value.deep_view()),
{
    match value {
        Some(v) => Some(anchor_to_proto(v)),
        None => None,
    }
}

pub fn anchor_opt_from_proto(value: &Option<wire::PositionAnchor>) -> (r: Option<api::PositionAnchor>)
    ensures
        r.deep_view() == anchor_opt_decoded(value.deep_view()),
{
    match value {
        Some(w) => Some(anchor_from_proto(w)),
        None => None,
    }
}

pub proof fn lemma_anchor_opt_round_trip(value: Option<api::PositionAnchorView>)
    ensures
        anchor_opt_decoded(anchor_opt_wire(value)) == value,
{
    if let Some(v) = value {
        lemma_anchor_round_trip(v);
    }
}

pub open spec fn buffered_wire(v: api::BufferedRangeView) -> wire::BufferedRangeView {
    wire::BufferedRangeView {
        start: v.start,
        end: v.end,
        total: v.total,
    }
}

pub open spec fn buffered_decoded(w: wire::BufferedRangeView) -> api::BufferedRangeView {
    api::BufferedRangeView {
        start: w.start,
        end: w.end,
        total: w.total,
    }
}

pub fn buffered_to_proto(value: &api::BufferedRange) -> (r: wire::BufferedRange)
    ensures
        r@ == buffered_wire(value@),
{
    wire::BufferedRange {
        start: value.start,
        end: value.end,
        total: value.total,
    }
}

pub fn buffered_from_proto(value: &wire::BufferedRange) -> (r: api::BufferedRange)
    ensures
        r@ == buffered_decoded(value@),
{
    api::BufferedRange {
        start: value.start,
        end: value.end,
        total: value.total,
    }
}

/// Every value survives the wire: sent and read back, it is the value that
/// was sent.
pub proof fn lemma_buffered_round_trip(v: api::BufferedRangeView)
    ensures
        buffered_decoded(buffered_wire(v)) == v,
{
    lemma_api_enums_round_trip();
}

/// Each field travels in the wire field of the same name, carried over
/// unchanged or through its own conversion, in both directions.
pub proof fn lemma_buffered_fields_travel(v: api::BufferedRangeView, w: wire::BufferedRangeView)
    ensures
        buffered_wire(v).start == v.start,
        buffered_decoded(w).start == w.start,
        buffered_wire(v).end == v.end,
        buffered_decoded(w).end == w.end,
        buffered_wire(v).total == v.total,
        buffered_decoded(w).total == w.total,
{
}

pub open spec fn buffered_ranges_wire(values: Seq<api::BufferedRangeView>) -> Seq<wire::BufferedRangeView> {
    Seq::new(values.len(), |i: int| buffered_wire(values[i]))
}

pub open spec fn buffered_ranges_decoded(values: Seq<wire::BufferedRangeView>) -> Seq<api::BufferedRangeView> {
    Seq::new(values.len(), |i: int| buffered_decoded(values[i]))
}

pub fn buffered_ranges_to_proto(values: &Vec<api::BufferedRange>) -> (r: Vec<wire::BufferedRange>)
    ensures
        items(r) == buffered_ranges_wire(items(*values)),
{
    let mut r: Vec<wire::BufferedRange> = Vec::new();
    let mut i: usize = 0;
    while i < values.len()
        invariant
            i <= values.len(),
            r@.len() == i,
            forall|j: int| 0 <= j < i ==> #[trigger] r@[j]@ == buffered_wire(values@[j]@),
        decreases values.len() - i,
    {
        r.push(buffered_to_proto(&values[i]));
        i += 1;
    }
    proof {
        reveal(items);
    }
    assert(r.deep_view() =~= buffered_ranges_wire(values.deep_view()));
    r
}

pub fn buffered_ranges_from_proto(values: &Vec<wire::BufferedRange>) -> (r: Vec<api::BufferedRange>)
    ensures
        items(r) == buffered_ranges_decoded(items(*values)),
{
    let mut r: Vec<api::BufferedRange> = Vec::new();
    let mut i: usize = 0;
    while i < values.len()
        invariant
            i <= values.len(),
            r@.len() == i,
            forall|j: int| 0 <= j < i ==> #[trigger] r@[j]@ == buffered_decoded(values@[j]@),
        decreases values.len() - i,
    {
        r.push(buffered_from_proto(&values[i]));
        i += 1;
    }
    proof {
        reveal(items);
    }
    assert(r.deep_view() =~= buffered_ranges_decoded(values.deep_view()));
    r
}

pub proof fn lemma_buffered_ranges_round_trip(values: Seq<api::BufferedRangeView>)
    ensures
        buffered_ranges_decoded(buffered_ranges_wire(values)) == values,
{
    assert forall|i: int| 0 <= i < values.len() implies #[trigger] buffered_ranges_decoded(buffered_ranges_wire(values))[i] == values[i] by {
        lemma_buffered_round_trip(values[i]);
    }
    assert(buffered_ranges_decoded(buffered_ranges_wire(values)) =~= values);
}

pub open spec fn queue_summary_wire(v: api::QueueSummaryView) -> wire::QueueSummaryView {
    wire::QueueSummaryView {
        rev: v.rev,
        length: v.length,
        index: v.index,
        shuffle: v.shuffle,
        loop_mode: loop_wire(v.loop_mode).spec_code(),
    }
}

/// The summary a received message stands for; a missing one reads as the
/// empty summary.
pub open spec fn queue_summary_decoded(value: Option<wire::QueueSummaryView>) -> api::QueueSummaryView {
    let w = match value {
        Some(w) => w,
        None => wire::QueueSummaryView {
            rev: 0,
            length: 0,
            index: None,
            shuffle: false,
            loop_mode: 0,
        },
    };
    api::QueueSummaryView {
        rev: w.rev,
        length: w.length,
        index: w.index,
        shuffle: w.shuffle,
        loop_mode: loop_decoded(w.loop_mode),
    }
}

pub fn queue_summary_to_proto(value: &api::QueueSummary) -> (r: wire::QueueSummary)
    ensures
        r@ == queue_summary_wire(value@),
{
    wire::QueueSummary {
        rev: value.rev,
        length: value.length,
        index: value.index,
        shuffle: value.shuffle,
        loop_mode: loop_to_proto(value.loop_mode).code(),
    }
}

pub fn queue_summary_from_proto(value: Option<&wire::QueueSummary>) -> (r: api::QueueSummary)
    ensures
        r@ == queue_summary_decoded(value.deep_view()),
{
    let zero = wire::QueueSummary { rev: 0, length: 0, index: None, shuffle: false, loop_mode: 0 };
    let w: &wire::QueueSummary = match value {
        Some(w) => w,
        None => &zero,
    };
    api::QueueSummary {
        rev: w.rev,
        length: w.length,
        index: w.index,
        shuffle: w.shuffle,
        loop_mode: loop_from_proto(w.loop_mode),
    }
}

/// Every value survives the wire: sent and read back, it is the value that
/// was sent.
pub proof fn lemma_queue_summary_round_trip(v: api::QueueSummaryView)
    ensures
        queue_summary_decoded(Some(queue_summary_wire(v))) == v,
{
    lemma_api_enums_round_trip();
}

/// Each field travels in the wire field of the same name, carried over
/// unchanged or through its own conversion, in both directions.
pub proof fn lemma_queue_summary_fields_travel(v: api::QueueSummaryView, w: wire::QueueSummaryView)
    ensures
        queue_summary_wire(v).rev == v.rev,
        queue_summary_decoded(Some(w)).rev == w.rev,
        queue_summary_wire(v).length == v.length,
        queue_summary_decoded(Some(w)).length == w.length,
        queue_summary_wire(v).index == v.index,
        queue_summary_decoded(Some(w)).index == w.index,
        queue_summary_wire(v).shuffle == v.shuffle,
        queue_summary_decoded(Some(w)).shuffle == w.shuffle,
        queue_summary_wire(v).loop_mode == loop_wire(v.loop_mode).spec_code(),
        queue_summary_decoded(Some(w)).loop_mode == loop_decoded(w.loop_mode),
{
}

pub open spec fn fading_state_wire(v: api::FadingStateView) -> wire::FadingStateView {
    wire::FadingStateView {
        from_token: v.from_token,
        track: Some(now_playing_wire(v.track)),
        position_ms: v.position_ms,
    }
}

/// A missing track reads as the empty one.
pub open spec fn fading_state_decoded(w: wire::FadingStateView) -> api::FadingStateView {
    api::FadingStateView {
        from_token: w.from_token,
        track: match w.track { Some(m) => now_playing_decoded(m), None => now_playing_default() },
        position_ms: w.position_ms,
    }
}

pub fn fading_state_to_proto(value: &api::FadingState) -> (r: wire::FadingState)
    ensures
        r@ == fading_state_wire(value@),
{
    wire::FadingState {
        from_token: value.from_token,
        track: Some(now_playing_to_proto(&value.track)),
        position_ms: value.position_ms,
    }
}

pub fn fading_state_from_proto(value: &wire::FadingState) -> (r: api::FadingState)
    ensures
        r@ == fading_state_decoded(value@),
{
    api::FadingState {
        from_token: value.from_token,
        track: match &value.track {
            Some(m) => now_playing_from_proto(m),
            None => api::NowPlaying::default(),
        },
        position_ms: value.position_ms,
    }
}

/// Every value survives the wire: sent and read back, it is the value that
/// was sent.
pub proof fn lemma_fading_state_round_trip(v: api::FadingStateView)
    ensures
        fading_state_decoded(fading_state_wire(v)) == v,
{
    lemma_api_enums_round_trip();
    lemma_now_playing_round_trip(v.track);
}

/// Each field travels in the wire field of the same name, carried over
/// unchanged or through its own conversion, in both directions.
pub proof fn lemma_fading_state_fields_travel(v: api::FadingStateView, w: wire::FadingStateView)
    ensures
        fading_state_wire(v).from_token == v.from_token,
        fading_state_decoded(w).from_token == w.from_token,
        fading_state_wire(v).track == Some(now_playing_wire(v.track)),
        fading_state_wire(v).position_ms == v.position_ms,
        fading_state_decoded(w).position_ms == w.position_ms,
{
}

pub open spec fn fading_state_opt_wire(value: Option<api::FadingStateView>) -> Option<wire::FadingStateView> {
    match value {
        Some(v) => Some(fading_state_wire(v)),
        None => None,
    }
}

pub open spec fn fading_state_opt_decoded(value: Option<wire::FadingStateView>) -> Option<api::FadingStateView> {
    match value {
        Some(w) => Some(fading_state_decoded(w)),
        None => None,
    }
}

pub fn fading_state_opt_to_proto(value: &Option<api::FadingState>) -> (r: Option<wire::FadingState>)
    ensures
        r.deep_view() == fading_state_opt_wire(value.deep_view()),
{
    match value {
        Some(v) => Some(fading_state_to_proto(v)),
        None => None,
    }
}

pub fn fading_state_opt_from_proto(value: &Option<wire::FadingState>) -> (r: Option<api::FadingState>)
    ensures
        r.deep_view() == fading_state_opt_decoded(value.deep_view()),
{
    match value {
        Some(w) => Some(fading_state_from_proto(w)),
        None => None,
    }
}

pub proof fn lemma_fading_state_opt_round_trip(value: Option<api::FadingStateView>)
    ensures
        fading_state_opt_decoded(fading_state_opt_wire(value)) == value,
{
    if let Some(v) = value {
        lemma_fading_state_round_trip(v);
    }
}

pub open spec fn external_playback_wire(v: api::ExternalPlaybackView) -> wire::ExternalPlaybackView {
    wire::ExternalPlaybackView {
        kind: v.kind,
        device: v.device,
    }
}

pub open spec fn external_playback_decoded(w: wire::ExternalPlaybackView) -> api::ExternalPlaybackView {
    api::ExternalPlaybackView {
        kind: w.kind,
        device: w.device,
    }
}

pub fn external_playback_to_proto(value: &api::ExternalPlayback) -> (r: wire::ExternalPlayback)
    ensures
        r@ == external_playback_wire(value@),
{
    wire::ExternalPlayback {
        kind: value.kind.clone(),
        device: clone_opt_string(&value.device),
    }
}

pub fn external_playback_from_proto(value: &wire::ExternalPlayback) -> (r: api::ExternalPlayback)
    ensures
        r@ == external_playback_decoded(value@),
{
    api::ExternalPlayback {
        kind: value.kind.clone(),
        device: clone_opt_string(&value.device),
    }
}

/// Every value survives the wire: sent and read back, it is the value that
/// was sent.
pub proof fn lemma_external_playback_round_trip(v: api::ExternalPlaybackView)
    ensures
        external_playback_decoded(external_playback_wire(v)) == v,
{
    lemma_api_enums_round_trip();
}

/// Each field travels in the wire field of the same name, carried over
/// unchanged or through its own conversion, in both directions.
pub proof fn lemma_external_playback_fields_travel(v: api::ExternalPlaybackView, w: wire::ExternalPlaybackView)
    ensures
        external_playback_wire(v).kind == v.kind,
        external_playback_decoded(w).kind == w.kind,
        external_playback_wire(v).device == v.device,
        external_playback_decoded(w).device == w.device,
{
}

pub open spec fn external_playback_opt_wire(value: Option<api::ExternalPlaybackView>) -> Option<wire::ExternalPlaybackView> {
    match value {
        Some(v) => Some(external_playback_wire(v)),
        None => None,
    }
}

pub open spec fn external_playback_opt_decoded(value: Option<wire::ExternalPlaybackView>) -> Option<api::ExternalPlaybackView> {
    match value {
        Some(w) => Some(external_playback_decoded(w)),
        None => None,
    }
}

pub fn external_playback_opt_to_proto(value: &Option<api::ExternalPlayback>) -> (r: Option<wire::ExternalPlayback>)
    ensures
        r.deep_view() == external_playback_opt_wire(value.deep_view()),
{
    match value {
        Some(v) => Some(external_playback_to_proto(v)),
        None => None,
    }
}

pub fn external_playback_opt_from_proto(value: &Option<wire::ExternalPlayback>) -> (r: Option<api::ExternalPlayback>)
    ensures
        r.deep_view() == external_playback_opt_decoded(value.deep_view()),
{
    match value {
        Some(w) => Some(external_playback_from_proto(w)),
        None => None,
    }
}

pub proof fn lemma_external_playback_opt_round_trip(value: Option<api::ExternalPlaybackView>)
    ensures
        external_playback_opt_decoded(external_playback_opt_wire(value)) == value,
{
    if let Some(v) = value {
        lemma_external_playback_round_trip(v);
    }
}

pub open spec fn player_state_wire(v: api::PlayerStateView) -> wire::PlayerStateView {
    wire::PlayerStateView {
        rev: v.rev,
        now_ms: v.now_ms,
        phase: phase_wire(v.phase).spec_code(),
        intent: Some(intent_wire(v.intent)),
        track: now_playing_opt_wire(v.track),
        position: anchor_opt_wire(v.position),
        queue: Some(queue_summary_wire(v.queue)),
        volume_bits: v.volume_bits,
        buffered: buffered_ranges_wire(v.buffered),
        fading: fading_state_opt_wire(v.fading),
        external: external_playback_opt_wire(v.external),
        error: error_body_opt_wire(v.error),
        output_latency_ms: v.output_latency_ms,
    }
}

/// A missing intent reads as stopped and a missing queue summary as the
/// empty one.
pub open spec fn player_state_decoded(w: wire::PlayerStateView) -> api::PlayerStateView {
    api::PlayerStateView {
        rev: w.rev,
        now_ms: w.now_ms,
        phase: phase_decoded(w.phase),
        intent: intent_decoded(w.intent),
        track: now_playing_opt_decoded(w.track),
        position: anchor_opt_decoded(w.position),
        queue: queue_summary_decoded(w.queue),
        volume_bits: w.volume_bits,
        buffered: buffered_ranges_decoded(w.buffered),
        fading: fading_state_opt_decoded(w.fading),
        external: external_playback_opt_decoded(w.external),
        error: error_body_opt_decoded(w.error),
        output_latency_ms: w.output_latency_ms,
    }
}

pub fn player_state_to_proto(value: &api::PlayerState) -> (r: wire::PlayerState)
    ensures
        r@ == player_state_wire(value@),
{
    wire::PlayerState {
        rev: value.rev,
        now_ms: value.now_ms,
        phase: phase_to_proto(value.phase).code(),
        intent: Some(intent_to_proto(&value.intent)),
        track: now_playing_opt_to_proto(&value.track),
        position: anchor_opt_to_proto(&value.position),
        queue: Some(queue_summary_to_proto(&value.queue)),
        volume_bits: value.volume_bits,
        buffered: buffered_ranges_to_proto(&value.buffered),
        fading: fading_state_opt_to_proto(&value.fading),
        external: external_playback_opt_to_proto(&value.external),
        error: error_body_opt_to_proto(&value.error),
        output_latency_ms: value.output_latency_ms,
    }
}

pub fn player_state_from_proto(value: &wire::PlayerState) -> (r: api::PlayerState)
    ensures
        r@ == player_state_decoded(value@),
{
    api::PlayerState {
        rev: value.rev,
        now_ms: value.now_ms,
        phase: phase_from_proto(value.phase),
        intent: intent_from_proto(value.intent.as_ref()),
        track: now_playing_opt_from_proto(&value.track),
        position: anchor_opt_from_proto(&value.position),
        queue: queue_summary_from_proto(value.queue.as_ref()),
        volume_bits: value.volume_bits,
        buffered: buffered_ranges_from_proto(&value.buffered),
        fading: fading_state_opt_from_proto(&value.fading),
        external: external_playback_opt_from_proto(&value.external),
        error: error_body_opt_from_proto(&value.error),
        output_latency_ms: value.output_latency_ms,
    }
}

/// Every value survives the wire: sent and read back, it is the value that
/// was sent.
pub proof fn lemma_player_state_round_trip(v: api::PlayerStateView)
    ensures
        player_state_decoded(player_state_wire(v)) == v,
{
    lemma_api_enums_round_trip();
    lemma_intent_round_trip(v.intent);
    lemma_now_playing_opt_round_trip(v.track);
    lemma_anchor_opt_round_trip(v.position);
    lemma_queue_summary_round_trip(v.queue);
    lemma_buffered_ranges_round_trip(v.buffered);
    lemma_fading_state_opt_round_trip(v.fading);
    lemma_external_playback_opt_round_trip(v.external);
    lemma_error_body_opt_round_trip(v.error);
}

/// Each field travels in the wire field of the same name, carried over
/// unchanged or through its own conversion, in both directions.
pub proof fn lemma_player_state_fields_travel(v: api::PlayerStateView, w: wire::PlayerStateView)
    ensures
        player_state_wire(v).rev == v.rev,
        player_state_decoded(w).rev == w.rev,
        player_state_wire(v).now_ms == v.now_ms,
        player_state_decoded(w).now_ms == w.now_ms,
        player_state_wire(v).phase == phase_wire(v.phase).spec_code(),
        player_state_decoded(w).phase == phase_decoded(w.phase),
        player_state_wire(v).intent == Some(intent_wire(v.intent)),
        player_state_wire(v).track == now_playing_opt_wire(v.track),
        player_state_decoded(w).track == now_playing_opt_decoded(w.track),
        player_state_wire(v).position == anchor_opt_wire(v.position),
        player_state_decoded(w).position == anchor_opt_decoded(w.position),
        player_state_wire(v).queue == Some(queue_summary_wire(v.queue)),
        player_state_wire(v).volume_bits == v.volume_bits,
        player_state_decoded(w).volume_bits == w.volume_bits,
        player_state_wire(v).buffered == buffered_ranges_wire(v.buffered),
        player_state_decoded(w).buffered == buffered_ranges_decoded(w.buffered),
        player_state_wire(v).fading == fading_state_opt_wire(v.fading),
        player_state_decoded(w).fading == fading_state_opt_decoded(w.fading),
        player_state_wire(v).external == external_playback_opt_wire(v.external),
        player_state_decoded(w).external == external_playback_opt_decoded(w.external),
        player_state_wire(v).error == error_body_opt_wire(v.error),
        player_state_decoded(w).error == error_body_opt_decoded(w.error),
        player_state_wire(v).output_latency_ms == v.output_latency_ms,
        player_state_decoded(w).output_latency_ms == w.output_latency_ms,
{
}

pub open spec fn command_wire(v: api::PlayerCommandView) -> wire::PlayerCommandView {
    wire::PlayerCommandView {
        kind: Some(
            match v {
                api::PlayerCommandView::Play => wire::PlayerCommandKindView::Play,
                api::PlayerCommandView::Pause => wire::PlayerCommandKindView::Pause,
                api::PlayerCommandView::Toggle => wire::PlayerCommandKindView::Toggle,
                api::PlayerCommandView::Next => wire::PlayerCommandKindView::Next,
                api::PlayerCommandView::Previous => wire::PlayerCommandKindView::Previous,
                api::PlayerCommandView::Stop => wire::PlayerCommandKindView::Stop,
                api::PlayerCommandView::Seek { position_ms } => wire::PlayerCommandKindView::Seek {
                    position_ms,
                },
                api::PlayerCommandView::SetVolume { volume_bits } => wire::PlayerCommandKindView::SetVolume {
                    volume_bits,
                },
                api::PlayerCommandView::SetMode { shuffle, loop_mode } => wire::PlayerCommandKindView::SetMode {
                    shuffle,
                    loop_mode: match loop_mode {
                        Some(m) => Some(loop_wire(m).spec_code()),
                        None => None,
                    },
                },
            },
        ),
    }
}

/// The command a received message stands for; one with no alternative set
/// is none.
pub open spec fn command_decoded(w: wire::PlayerCommandView) -> Option<api::PlayerCommandView> {
    match w.kind {
        Some(wire::PlayerCommandKindView::Play) => Some(api::PlayerCommandView::Play),
        Some(wire::PlayerCommandKindView::Pause) => Some(api::PlayerCommandView::Pause),
        Some(wire::PlayerCommandKindView::Toggle) => Some(api::PlayerCommandView::Toggle),
        Some(wire::PlayerCommandKindView::Next) => Some(api::PlayerCommandView::Next),
        Some(wire::PlayerCommandKindView::Previous) => Some(api::PlayerCommandView::Previous),
        Some(wire::PlayerCommandKindView::Stop) => Some(api::PlayerCommandView::Stop),
        Some(wire::PlayerCommandKindView::Seek { position_ms }) => Some(api::PlayerCommandView::Seek {
            position_ms,
        }),
        Some(wire::PlayerCommandKindView::SetVolume { volume_bits }) => Some(api::PlayerCommandView::SetVolume {
            volume_bits,
        }),
        Some(wire::PlayerCommandKindView::SetMode { shuffle, loop_mode }) => Some(api::PlayerCommandView::SetMode {
            shuffle,
            loop_mode: match loop_mode { Some(m) => Some(loop_decoded(m)), None => None },
        }),
        None => None,
    }
}

pub fn command_to_proto(value: &api::PlayerCommand) -> (r: wire::PlayerCommand)
    ensures
        r@ == command_wire(value@),
{
    let kind = match value {
        api::PlayerCommand::Play => wire::PlayerCommandKind::Play,
        api::PlayerCommand::Pause => wire::PlayerCommandKind::Pause,
        api::PlayerCommand::Toggle => wire::PlayerCommandKind::Toggle,
        api::PlayerCommand::Next => wire::PlayerCommandKind::Next,
        api::PlayerCommand::Previous => wire::PlayerCommandKind::Previous,
        api::PlayerCommand::Stop => wire::PlayerCommandKind::Stop,
        api::PlayerCommand::Seek { position_ms } => wire::PlayerCommandKind::Seek {
            position_ms: *position_ms,
        },
        api::PlayerCommand::SetVolume { volume_bits } => wire::PlayerCommandKind::SetVolume {
            volume_bits: *volume_bits,
        },
        api::PlayerCommand::SetMode { shuffle, loop_mode } => wire::PlayerCommandKind::SetMode {
            shuffle: *shuffle,
            loop_mode: match *loop_mode { Some(m) => Some(loop_to_proto(m).code()), None => None },
        },
    };
    wire::PlayerCommand { kind: Some(kind) }
}

pub fn command_from_proto(value: &wire::PlayerCommand) -> (r: Option<api::PlayerCommand>)
    ensures
        r.deep_view() == command_decoded(value@),
{
    match &value.kind {
        Some(wire::PlayerCommandKind::Play) => Some(api::PlayerCommand::Play),
        Some(wire::PlayerCommandKind::Pause) => Some(api::PlayerCommand::Pause),
        Some(wire::PlayerCommandKind::Toggle) => Some(api::PlayerCommand::Toggle),
        Some(wire::PlayerCommandKind::Next) => Some(api::PlayerCommand::Next),
        Some(wire::PlayerCommandKind::Previous) => Some(api::PlayerCommand::Previous),
        Some(wire::PlayerCommandKind::Stop) => Some(api::PlayerCommand::Stop),
        Some(wire::PlayerCommandKind::Seek { position_ms }) => Some(api::PlayerCommand::Seek {
            position_ms: *position_ms,
        }),
        Some(wire::PlayerCommandKind::SetVolume { volume_bits }) => Some(api::PlayerCommand::SetVolume {
            volume_bits: *volume_bits,
        }),
        Some(wire::PlayerCommandKind::SetMode { shuffle, loop_mode }) => Some(api::PlayerCommand::SetMode {
            shuffle: *shuffle,
            loop_mode: match *loop_mode { Some(m) => Some(loop_from_proto(m)), None => None },
        }),
        None => None,
    }
}

/// Every value survives the wire: sent and read back, it is the value that
/// was sent.
pub proof fn lemma_command_round_trip(v: api::PlayerCommandView)
    ensures
        command_decoded(command_wire(v)) == Some(v),
{
    lemma_api_enums_round_trip();
    match v {
        api::PlayerCommandView::Play => {},
        api::PlayerCommandView::Pause => {},
        api::PlayerCommandView::Toggle => {},
        api::PlayerCommandView::Next => {},
        api::PlayerCommandView::Previous => {},
        api::PlayerCommandView::Stop => {},
        api::PlayerCommandView::Seek { .. } => {},
        api::PlayerCommandView::SetVolume { .. } => {},
        api::PlayerCommandView::SetMode { .. } => {},
    }
}

/// Each alternative travels as the wire alternative of the same name.
pub proof fn lemma_command_alternatives_travel(v: api::PlayerCommandView)
    ensures
        command_wire(v).kind is Some,
        (v is Play) == (command_wire(v).kind.unwrap() is Play),
        (v is Pause) == (command_wire(v).kind.unwrap() is Pause),
        (v is Toggle) == (command_wire(v).kind.unwrap() is Toggle),
        (v is Next) == (command_wire(v).kind.unwrap() is Next),
        (v is Previous) == (command_wire(v).kind.unwrap() is Previous),
        (v is Stop) == (command_wire(v).kind.unwrap() is Stop),
        (v is Seek) == (command_wire(v).kind.unwrap() is Seek),
        (v is SetVolume) == (command_wire(v).kind.unwrap() is SetVolume),
        (v is SetMode) == (command_wire(v).kind.unwrap() is SetMode),
{
}

pub open spec fn external_lease_wire(v: api::ExternalPlaybackLeaseView) -> wire::ExternalPlaybackLeaseView {
    wire::ExternalPlaybackLeaseView {
        lease_id: v.lease_id,
        expires_in_ms: v.expires_in_ms,
    }
}

pub open spec fn external_lease_decoded(w: wire::ExternalPlaybackLeaseView) -> api::ExternalPlaybackLeaseView {
    api::ExternalPlaybackLeaseView {
        lease_id: w.lease_id,
        expires_in_ms: w.expires_in_ms,
    }
}

pub fn external_lease_to_proto(value: &api::ExternalPlaybackLease) -> (r: wire::ExternalPlaybackLease)
    ensures
        r@ == external_lease_wire(value@),
{
    wire::ExternalPlaybackLease {
        lease_id: value.lease_id.clone(),
        expires_in_ms: value.expires_in_ms,
    }
}

pub fn external_lease_from_proto(value: &wire::ExternalPlaybackLease) -> (r: api::ExternalPlaybackLease)
    ensures
        r@ == external_lease_decoded(value@),
{
    api::ExternalPlaybackLease {
        lease_id: value.lease_id.clone(),
        expires_in_ms: value.expires_in_ms,
    }
}

/// Every value survives the wire: sent and read back, it is the value that
/// was sent.
pub proof fn lemma_external_lease_round_trip(v: api::ExternalPlaybackLeaseView)
    ensures
        external_lease_decoded(external_lease_wire(v)) == v,
{
    lemma_api_enums_round_trip();
}

/// Each field travels in the wire field of the same name, carried over
/// unchanged or through its own conversion, in both directions.
pub proof fn lemma_external_lease_fields_travel(v: api::ExternalPlaybackLeaseView, w: wire::ExternalPlaybackLeaseView)
    ensures
        external_lease_wire(v).lease_id == v.lease_id,
        external_lease_decoded(w).lease_id == w.lease_id,
        external_lease_wire(v).expires_in_ms == v.expires_in_ms,
        external_lease_decoded(w).expires_in_ms == w.expires_in_ms,
{
}

pub open spec fn external_report_wire(v: api::ExternalPlaybackReportView) -> wire::ExternalPlaybackReportView {
    wire::ExternalPlaybackReportView {
        lease_id: v.lease_id,
        track: track_info_opt_wire(v.track),
        position_ms: v.position_ms,
        playing: v.playing,
        completed: v.completed,
        device: v.device,
    }
}

pub open spec fn external_report_decoded(w: wire::ExternalPlaybackReportView) -> api::ExternalPlaybackReportView {
    api::ExternalPlaybackReportView {
        lease_id: w.lease_id,
        track: track_info_opt_decoded(w.track),
        position_ms: w.position_ms,
        playing: w.playing,
        completed: w.completed,
        device: w.device,
    }
}

pub fn external_report_to_proto(value: &api::ExternalPlaybackReport) -> (r: wire::ExternalPlaybackReport)
    ensures
        r@ == external_report_wire(value@),
{
    wire::ExternalPlaybackReport {
        lease_id: value.lease_id.clone(),
        track: track_info_opt_to_proto(&value.track),
        position_ms: value.position_ms,
        playing: value.playing,
        completed: value.completed,
        device: clone_opt_string(&value.device),
    }
}

pub fn external_report_from_proto(value: &wire::ExternalPlaybackReport) -> (r: api::ExternalPlaybackReport)
    ensures
        r@ == external_report_decoded(value@),
{
    api::ExternalPlaybackReport {
        lease_id: value.lease_id.clone(),
        track: track_info_opt_from_proto(&value.track),
        position_ms: value.position_ms,
        playing: value.playing,
        completed: value.completed,
        device: clone_opt_string(&value.device),
    }
}

/// Every value survives the wire: sent and read back, it is the value that
/// was sent.
pub proof fn lemma_external_report_round_trip(v: api::ExternalPlaybackReportView)
    ensures
        external_report_decoded(external_report_wire(v)) == v,
{
    lemma_api_enums_round_trip();
    lemma_track_info_opt_round_trip(v.track);
}

/// Each field travels in the wire field of the same name, carried over
/// unchanged or through its own conversion, in both directions.
pub proof fn lemma_external_report_fields_travel(v: api::ExternalPlaybackReportView, w: wire::ExternalPlaybackReportView)
    ensures
        external_report_wire(v).lease_id == v.lease_id,
        external_report_decoded(w).lease_id == w.lease_id,
        external_report_wire(v).track == track_info_opt_wire(v.track),
        external_report_decoded(w).track == track_info_opt_decoded(w.track),
        external_report_wire(v).position_ms == v.position_ms,
        external_report_decoded(w).position_ms == w.position_ms,
        external_report_wire(v).playing == v.playing,
        external_report_decoded(w).playing == w.playing,
        external_report_wire(v).completed == v.completed,
        external_report_decoded(w).completed == w.completed,
        external_report_wire(v).device == v.device,
        external_report_decoded(w).device == w.device,
{
}

} // verus!
