//! Queue requests, edits and windows on the wire.
//!
//! Each message is stated as a spec function in both directions (`*_wire` out,
//! `*_decoded` in), the executable conversions are tied to them by their
//! `ensures`, and each `lemma_*_round_trip` proves that a value sent and read
//! back is the value that was sent.

use vstd::prelude::*;

use crate::api;
use crate::config::items;
use crate::enums::{
    lemma_api_enums_round_trip, queue_mode_decoded, queue_mode_from_proto, queue_mode_to_proto,
    queue_mode_wire,
};
use crate::protocol::library::{
    lemma_track_filter_round_trip, lemma_track_info_round_trip, lemma_track_infos_round_trip,
    track_filter_decoded, track_filter_from_proto, track_filter_to_proto, track_filter_wire,
    track_info_decoded, track_info_default, track_info_from_proto, track_info_to_proto,
    track_info_wire, track_infos_decoded, track_infos_from_proto, track_infos_to_proto,
    track_infos_wire,
};
use crate::text::{clone_strings, copy_u32s};
use crate::wire;

verus! {

pub open spec fn queue_context_wire(v: api::QueueContextView) -> wire::QueueContextView {
    wire::QueueContextView {
        kind: Some(
            match v {
                api::QueueContextView::Tracks { keys } => wire::QueueContextKindView::Tracks {
                    keys,
                },
                api::QueueContextView::Album { id } => wire::QueueContextKindView::Album { id },
                api::QueueContextView::Artist { name } => wire::QueueContextKindView::Artist {
                    name,
                },
                api::QueueContextView::Genre { name } => wire::QueueContextKindView::Genre { name },
                api::QueueContextView::Playlist { id } => wire::QueueContextKindView::Playlist {
                    id,
                },
                api::QueueContextView::Filter { filter } => wire::QueueContextKindView::Filter {
                    filter: track_filter_wire(filter),
                },
                api::QueueContextView::Radio { station_id, stream_id } => wire::QueueContextKindView::Radio {
                    station_id,
                    stream_id,
                },
                api::QueueContextView::InlineTracks { tracks } => wire::QueueContextKindView::InlineTracks {
                    tracks: track_infos_wire(tracks),
                },
            },
        ),
    }
}

/// The context a received message names; one with no alternative set names
/// none.
pub open spec fn queue_context_decoded(w: wire::QueueContextView) -> Option<api::QueueContextView> {
    match w.kind {
        Some(wire::QueueContextKindView::Tracks { keys }) => Some(api::QueueContextView::Tracks {
            keys,
        }),
        Some(wire::QueueContextKindView::Album { id }) => Some(api::QueueContextView::Album { id }),
        Some(wire::QueueContextKindView::Artist { name }) => Some(api::QueueContextView::Artist {
            name,
        }),
        Some(wire::QueueContextKindView::Genre { name }) => Some(api::QueueContextView::Genre {
            name,
        }),
        Some(wire::QueueContextKindView::Playlist { id }) => Some(api::QueueContextView::Playlist {
            id,
        }),
        Some(wire::QueueContextKindView::Filter { filter }) => Some(api::QueueContextView::Filter {
            filter: track_filter_decoded(filter),
        }),
        Some(wire::QueueContextKindView::Radio { station_id, stream_id }) => Some(api::QueueContextView::Radio {
            station_id,
            stream_id,
        }),
        Some(wire::QueueContextKindView::InlineTracks { tracks }) => Some(api::QueueContextView::InlineTracks {
            tracks: track_infos_decoded(tracks),
        }),
        None => None,
    }
}

pub fn queue_context_to_proto(value: &api::QueueContext) -> (r: wire::QueueContext)
    ensures
        r@ == queue_context_wire(value@),
{
    let kind = match value {
        api::QueueContext::Tracks { keys } => wire::QueueContextKind::Tracks {
            keys: clone_strings(keys),
        },
        api::QueueContext::Album { id } => wire::QueueContextKind::Album { id: id.clone() },
        api::QueueContext::Artist { name } => wire::QueueContextKind::Artist { name: name.clone() },
        api::QueueContext::Genre { name } => wire::QueueContextKind::Genre { name: name.clone() },
        api::QueueContext::Playlist { id } => wire::QueueContextKind::Playlist { id: id.clone() },
        api::QueueContext::Filter { filter } => wire::QueueContextKind::Filter {
            filter: track_filter_to_proto(filter),
        },
        api::QueueContext::Radio { station_id, stream_id } => wire::QueueContextKind::Radio {
            station_id: station_id.clone(),
            stream_id: stream_id.clone(),
        },
        api::QueueContext::InlineTracks { tracks } => wire::QueueContextKind::InlineTracks {
            tracks: track_infos_to_proto(tracks),
        },
    };
    wire::QueueContext { kind: Some(kind) }
}

pub fn queue_context_from_proto(value: &wire::QueueContext) -> (r: Option<api::QueueContext>)
    ensures
        r.deep_view() == queue_context_decoded(value@),
{
    match &value.kind {
        Some(wire::QueueContextKind::Tracks { keys }) => Some(api::QueueContext::Tracks {
            keys: clone_strings(keys),
        }),
        Some(wire::QueueContextKind::Album { id }) => Some(api::QueueContext::Album {
            id: id.clone(),
        }),
        Some(wire::QueueContextKind::Artist { name }) => Some(api::QueueContext::Artist {
            name: name.clone(),
        }),
        Some(wire::QueueContextKind::Genre { name }) => Some(api::QueueContext::Genre {
            name: name.clone(),
        }),
        Some(wire::QueueContextKind::Playlist { id }) => Some(api::QueueContext::Playlist {
            id: id.clone(),
        }),
        Some(wire::QueueContextKind::Filter { filter }) => Some(api::QueueContext::Filter {
            filter: track_filter_from_proto(filter),
        }),
        Some(wire::QueueContextKind::Radio { station_id, stream_id }) => Some(api::QueueContext::Radio {
            station_id: station_id.clone(),
            stream_id: stream_id.clone(),
        }),
        Some(wire::QueueContextKind::InlineTracks { tracks }) => Some(api::QueueContext::InlineTracks {
            tracks: track_infos_from_proto(tracks),
        }),
        None => None,
    }
}

/// Every value survives the wire: sent and read back, it is the value that
/// was sent.
pub proof fn lemma_queue_context_round_trip(v: api::QueueContextView)
    ensures
        queue_context_decoded(queue_context_wire(v)) == Some(v),
{
    lemma_api_enums_round_trip();
    match v {
        api::QueueContextView::Tracks { .. } => {},
        api::QueueContextView::Album { .. } => {},
        api::QueueContextView::Artist { .. } => {},
        api::QueueContextView::Genre { .. } => {},
        api::QueueContextView::Playlist { .. } => {},
        api::QueueContextView::Filter { filter } => {
            lemma_track_filter_round_trip(filter);
        },
        api::QueueContextView::Radio { .. } => {},
        api::QueueContextView::InlineTracks { tracks } => {
            lemma_track_infos_round_trip(tracks);
        },
    }
}

/// Each alternative travels as the wire alternative of the same name.
pub proof fn lemma_queue_context_alternatives_travel(v: api::QueueContextView)
    ensures
        queue_context_wire(v).kind is Some,
        (v is Tracks) == (queue_context_wire(v).kind.unwrap() is Tracks),
        (v is Album) == (queue_context_wire(v).kind.unwrap() is Album),
        (v is Artist) == (queue_context_wire(v).kind.unwrap() is Artist),
        (v is Genre) == (queue_context_wire(v).kind.unwrap() is Genre),
        (v is Playlist) == (queue_context_wire(v).kind.unwrap() is Playlist),
        (v is Filter) == (queue_context_wire(v).kind.unwrap() is Filter),
        (v is Radio) == (queue_context_wire(v).kind.unwrap() is Radio),
        (v is InlineTracks) == (queue_context_wire(v).kind.unwrap() is InlineTracks),
{
}

pub open spec fn set_queue_wire(v: api::SetQueueRequestView) -> wire::SetQueueRequestView {
    wire::SetQueueRequestView {
        mode: queue_mode_wire(v.mode).spec_code(),
        context: Some(queue_context_wire(v.context)),
        start_index: v.start_index,
        shuffle: v.shuffle,
        insert_index: v.insert_index,
    }
}

/// A request without a context, or whose context names nothing, is none.
pub open spec fn set_queue_decoded(w: wire::SetQueueRequestView) -> Option<api::SetQueueRequestView> {
    match w.context {
        Some(m) => match queue_context_decoded(m) {
            Some(context_inner) => Some(
                api::SetQueueRequestView {
                    mode: queue_mode_decoded(w.mode),
                    context: context_inner,
                    start_index: w.start_index,
                    shuffle: w.shuffle,
                    insert_index: w.insert_index,
                }
            ),
            None => None,
        },
        None => None,
    }
}

pub fn set_queue_to_proto(value: &api::SetQueueRequest) -> (r: wire::SetQueueRequest)
    ensures
        r@ == set_queue_wire(value@),
{
    wire::SetQueueRequest {
        mode: queue_mode_to_proto(value.mode).code(),
        context: Some(queue_context_to_proto(&value.context)),
        start_index: value.start_index,
        shuffle: value.shuffle,
        insert_index: value.insert_index,
    }
}

pub fn set_queue_from_proto(value: &wire::SetQueueRequest) -> (r: Option<api::SetQueueRequest>)
    ensures
        r.deep_view() == set_queue_decoded(value@),
{
    match &value.context {
        Some(m) => match queue_context_from_proto(m) {
            Some(context_inner) => Some(
                api::SetQueueRequest {
                    mode: queue_mode_from_proto(value.mode),
                    context: context_inner,
                    start_index: value.start_index,
                    shuffle: value.shuffle,
                    insert_index: value.insert_index,
                }
            ),
            None => None,
        },
        None => None,
    }
}

/// Every value survives the wire: sent and read back, it is the value that
/// was sent.
pub proof fn lemma_set_queue_round_trip(v: api::SetQueueRequestView)
    ensures
        set_queue_decoded(set_queue_wire(v)) == Some(v),
{
    lemma_api_enums_round_trip();
    lemma_queue_context_round_trip(v.context);
}

/// Each field travels in the wire field of the same name, carried over
/// unchanged or through its own conversion, in both directions.
pub proof fn lemma_set_queue_fields_travel(v: api::SetQueueRequestView, w: wire::SetQueueRequestView)
    ensures
        set_queue_wire(v).mode == queue_mode_wire(v.mode).spec_code(),
        set_queue_wire(v).context == Some(queue_context_wire(v.context)),
        set_queue_wire(v).start_index == v.start_index,
        set_queue_wire(v).shuffle == v.shuffle,
        set_queue_wire(v).insert_index == v.insert_index,
{
}

pub open spec fn queue_edit_wire(v: api::QueueEditView) -> wire::QueueEditRequestView {
    wire::QueueEditRequestView {
        kind: Some(
            match v {
                api::QueueEditView::Jump { index } => wire::QueueEditRequestKindView::Jump {
                    index,
                },
                api::QueueEditView::Move { from, to } => wire::QueueEditRequestKindView::Move {
                    from,
                    to,
                },
                api::QueueEditView::Remove { index } => wire::QueueEditRequestKindView::Remove {
                    index,
                },
            },
        ),
    }
}

/// An edit with no alternative set is none.
pub open spec fn queue_edit_decoded(w: wire::QueueEditRequestView) -> Option<api::QueueEditView> {
    match w.kind {
        Some(wire::QueueEditRequestKindView::Jump { index }) => Some(api::QueueEditView::Jump {
            index,
        }),
        Some(wire::QueueEditRequestKindView::Move { from, to }) => Some(api::QueueEditView::Move {
            from,
            to,
        }),
        Some(wire::QueueEditRequestKindView::Remove { index }) => Some(api::QueueEditView::Remove {
            index,
        }),
        None => None,
    }
}

pub fn queue_edit_to_proto(value: &api::QueueEdit) -> (r: wire::QueueEditRequest)
    ensures
        r@ == queue_edit_wire(value@),
{
    let kind = match value {
        api::QueueEdit::Jump { index } => wire::QueueEditRequestKind::Jump { index: *index },
        api::QueueEdit::Move { from, to } => wire::QueueEditRequestKind::Move {
            from: *from,
            to: *to,
        },
        api::QueueEdit::Remove { index } => wire::QueueEditRequestKind::Remove { index: *index },
    };
    wire::QueueEditRequest { kind: Some(kind) }
}

pub fn queue_edit_from_proto(value: &wire::QueueEditRequest) -> (r: Option<api::QueueEdit>)
    ensures
        r.deep_view() == queue_edit_decoded(value@),
{
    match &value.kind {
        Some(wire::QueueEditRequestKind::Jump { index }) => Some(api::QueueEdit::Jump {
            index: *index,
        }),
        Some(wire::QueueEditRequestKind::Move { from, to }) => Some(api::QueueEdit::Move {
            from: *from,
            to: *to,
        }),
        Some(wire::QueueEditRequestKind::Remove { index }) => Some(api::QueueEdit::Remove {
            index: *index,
        }),
        None => None,
    }
}

/// Every value survives the wire: sent and read back, it is the value that
/// was sent.
pub proof fn lemma_queue_edit_round_trip(v: api::QueueEditView)
    ensures
        queue_edit_decoded(queue_edit_wire(v)) == Some(v),
{
    lemma_api_enums_round_trip();
    match v {
        api::QueueEditView::Jump { .. } => {},
        api::QueueEditView::Move { .. } => {},
        api::QueueEditView::Remove { .. } => {},
    }
}

/// Each alternative travels as the wire alternative of the same name.
pub proof fn lemma_queue_edit_alternatives_travel(v: api::QueueEditView)
    ensures
        queue_edit_wire(v).kind is Some,
        (v is Jump) == (queue_edit_wire(v).kind.unwrap() is Jump),
        (v is Move) == (queue_edit_wire(v).kind.unwrap() is Move),
        (v is Remove) == (queue_edit_wire(v).kind.unwrap() is Remove),
{
}

pub open spec fn queue_item_wire(v: api::QueueItemView) -> wire::QueueItemView {
    wire::QueueItemView {
        index: v.index,
        track: Some(track_info_wire(v.track)),
    }
}

/// A missing track reads as the empty one.
pub open spec fn queue_item_decoded(w: wire::QueueItemView) -> api::QueueItemView {
    api::QueueItemView {
        index: w.index,
        track: match w.track { Some(m) => track_info_decoded(m), None => track_info_default() },
    }
}

pub fn queue_item_to_proto(value: &api::QueueItem) -> (r: wire::QueueItem)
    ensures
        r@ == queue_item_wire(value@),
{
    wire::QueueItem {
        index: value.index,
        track: Some(track_info_to_proto(&value.track)),
    }
}

pub fn queue_item_from_proto(value: &wire::QueueItem) -> (r: api::QueueItem)
    ensures
        r@ == queue_item_decoded(value@),
{
    api::QueueItem {
        index: value.index,
        track: match &value.track {
            Some(m) => track_info_from_proto(m),
            None => api::TrackInfo::default(),
        },
    }
}

/// Every value survives the wire: sent and read back, it is the value that
/// was sent.
pub proof fn lemma_queue_item_round_trip(v: api::QueueItemView)
    ensures
        queue_item_decoded(queue_item_wire(v)) == v,
{
    lemma_api_enums_round_trip();
    lemma_track_info_round_trip(v.track);
}

/// Each field travels in the wire field of the same name, carried over
/// unchanged or through its own conversion, in both directions.
pub proof fn lemma_queue_item_fields_travel(v: api::QueueItemView, w: wire::QueueItemView)
    ensures
        queue_item_wire(v).index == v.index,
        queue_item_decoded(w).index == w.index,
        queue_item_wire(v).track == Some(track_info_wire(v.track)),
{
}

pub open spec fn queue_items_wire(values: Seq<api::QueueItemView>) -> Seq<wire::QueueItemView> {
    Seq::new(values.len(), |i: int| queue_item_wire(values[i]))
}

pub open spec fn queue_items_decoded(values: Seq<wire::QueueItemView>) -> Seq<api::QueueItemView> {
    Seq::new(values.len(), |i: int| queue_item_decoded(values[i]))
}

pub fn queue_items_to_proto(values: &Vec<api::QueueItem>) -> (r: Vec<wire::QueueItem>)
    ensures
        items(r) == queue_items_wire(items(*values)),
{
    let mut r: Vec<wire::QueueItem> = Vec::new();
    let mut i: usize = 0;
    while i < values.len()
        invariant
            i <= values.len(),
            r@.len() == i,
            forall|j: int| 0 <= j < i ==> #[trigger] r@[j]@ == queue_item_wire(values@[j]@),
        decreases values.len() - i,
    {
        r.push(queue_item_to_proto(&values[i]));
        i += 1;
    }
    proof {
        reveal(items);
    }
    assert(r.deep_view() =~= queue_items_wire(values.deep_view()));
    r
}

pub fn queue_items_from_proto(values: &Vec<wire::QueueItem>) -> (r: Vec<api::QueueItem>)
    ensures
        items(r) == queue_items_decoded(items(*values)),
{
    let mut r: Vec<api::QueueItem> = Vec::new();
    let mut i: usize = 0;
    while i < values.len()
        invariant
            i <= values.len(),
            r@.len() == i,
            forall|j: int| 0 <= j < i ==> #[trigger] r@[j]@ == queue_item_decoded(values@[j]@),
        decreases values.len() - i,
    {
        r.push(queue_item_from_proto(&values[i]));
        i += 1;
    }
    proof {
        reveal(items);
    }
    assert(r.deep_view() =~= queue_items_decoded(values.deep_view()));
    r
}

pub proof fn lemma_queue_items_round_trip(values: Seq<api::QueueItemView>)
    ensures
        queue_items_decoded(queue_items_wire(values)) == values,
{
    assert forall|i: int| 0 <= i < values.len() implies #[trigger] queue_items_decoded(queue_items_wire(values))[i] == values[i] by {
        lemma_queue_item_round_trip(values[i]);
    }
    assert(queue_items_decoded(queue_items_wire(values)) =~= values);
}

pub open spec fn queue_window_wire(v: api::QueueWindowView) -> wire::QueueWindowView {
    wire::QueueWindowView {
        rev: v.rev,
        total: v.total,
        offset: v.offset,
        items: queue_items_wire(v.items),
    }
}

pub open spec fn queue_window_decoded(w: wire::QueueWindowView) -> api::QueueWindowView {
    api::QueueWindowView {
        rev: w.rev,
        total: w.total,
        offset: w.offset,
        items: queue_items_decoded(w.items),
    }
}

pub fn queue_window_to_proto(value: &api::QueueWindow) -> (r: wire::QueueWindow)
    ensures
        r@ == queue_window_wire(value@),
{
    wire::QueueWindow {
        rev: value.rev,
        total: value.total,
        offset: value.offset,
        items: queue_items_to_proto(&value.items),
    }
}

pub fn queue_window_from_proto(value: &wire::QueueWindow) -> (r: api::QueueWindow)
    ensures
        r@ == queue_window_decoded(value@),
{
    api::QueueWindow {
        rev: value.rev,
        total: value.total,
        offset: value.offset,
        items: queue_items_from_proto(&value.items),
    }
}

/// Every value survives the wire: sent and read back, it is the value that
/// was sent.
pub proof fn lemma_queue_window_round_trip(v: api::QueueWindowView)
    ensures
        queue_window_decoded(queue_window_wire(v)) == v,
{
    lemma_api_enums_round_trip();
    lemma_queue_items_round_trip(v.items);
}

/// Each field travels in the wire field of the same name, carried over
/// unchanged or through its own conversion, in both directions.
pub proof fn lemma_queue_window_fields_travel(v: api::QueueWindowView, w: wire::QueueWindowView)
    ensures
        queue_window_wire(v).rev == v.rev,
        queue_window_decoded(w).rev == w.rev,
        queue_window_wire(v).total == v.total,
        queue_window_decoded(w).total == w.total,
        queue_window_wire(v).offset == v.offset,
        queue_window_decoded(w).offset == w.offset,
        queue_window_wire(v).items == queue_items_wire(v.items),
        queue_window_decoded(w).items == queue_items_decoded(w.items),
{
}

pub open spec fn queue_persistence_snapshot_wire(v: api::QueuePersistenceSnapshotView) -> wire::QueuePersistenceSnapshotView {
    wire::QueuePersistenceSnapshotView {
        tracks: track_infos_wire(v.tracks),
        current_index: v.current_index,
        progress_ms: v.progress_ms,
        shuffle_order: v.shuffle_order,
        shuffle_enabled: v.shuffle_enabled,
    }
}

pub open spec fn queue_persistence_snapshot_decoded(w: wire::QueuePersistenceSnapshotView) -> api::QueuePersistenceSnapshotView {
    api::QueuePersistenceSnapshotView {
        tracks: track_infos_decoded(w.tracks),
        current_index: w.current_index,
        progress_ms: w.progress_ms,
        shuffle_order: w.shuffle_order,
        shuffle_enabled: w.shuffle_enabled,
    }
}

pub fn queue_persistence_snapshot_to_proto(value: &api::QueuePersistenceSnapshot) -> (r: wire::QueuePersistenceSnapshot)
    ensures
        r@ == queue_persistence_snapshot_wire(value@),
{
    wire::QueuePersistenceSnapshot {
        tracks: track_infos_to_proto(&value.tracks),
        current_index: value.current_index,
        progress_ms: value.progress_ms,
        shuffle_order: copy_u32s(&value.shuffle_order),
        shuffle_enabled: value.shuffle_enabled,
    }
}

pub fn queue_persistence_snapshot_from_proto(value: &wire::QueuePersistenceSnapshot) -> (r: api::QueuePersistenceSnapshot)
    ensures
        r@ == queue_persistence_snapshot_decoded(value@),
{
    api::QueuePersistenceSnapshot {
        tracks: track_infos_from_proto(&value.tracks),
        current_index: value.current_index,
        progress_ms: value.progress_ms,
        shuffle_order: copy_u32s(&value.shuffle_order),
        shuffle_enabled: value.shuffle_enabled,
    }
}

/// Every value survives the wire: sent and read back, it is the value that
/// was sent.
pub proof fn lemma_queue_persistence_snapshot_round_trip(v: api::QueuePersistenceSnapshotView)
    ensures
        queue_persistence_snapshot_decoded(queue_persistence_snapshot_wire(v)) == v,
{
    lemma_api_enums_round_trip();
    lemma_track_infos_round_trip(v.tracks);
}

/// Each field travels in the wire field of the same name, carried over
/// unchanged or through its own conversion, in both directions.
pub proof fn lemma_queue_persistence_snapshot_fields_travel(v: api::QueuePersistenceSnapshotView, w: wire::QueuePersistenceSnapshotView)
    ensures
        queue_persistence_snapshot_wire(v).tracks == track_infos_wire(v.tracks),
        queue_persistence_snapshot_decoded(w).tracks == track_infos_decoded(w.tracks),
        queue_persistence_snapshot_wire(v).current_index == v.current_index,
        queue_persistence_snapshot_decoded(w).current_index == w.current_index,
        queue_persistence_snapshot_wire(v).progress_ms == v.progress_ms,
        queue_persistence_snapshot_decoded(w).progress_ms == w.progress_ms,
        queue_persistence_snapshot_wire(v).shuffle_order == v.shuffle_order,
        queue_persistence_snapshot_decoded(w).shuffle_order == w.shuffle_order,
        queue_persistence_snapshot_wire(v).shuffle_enabled == v.shuffle_enabled,
        queue_persistence_snapshot_decoded(w).shuffle_enabled == w.shuffle_enabled,
{
}

} // verus!
