//! Tag edits and artwork requests, uploads and removals on the wire.
//!
//! Each message is stated as a spec function in both directions (`*_wire` out,
//! `*_decoded` in), the executable conversions are tied to them by their
//! `ensures`, and each `lemma_*_round_trip` proves that a value sent and read
//! back is the value that was sent.

use vstd::prelude::*;

use crate::api;
use crate::enums::{lemma_api_enums_round_trip};
use crate::text::{clone_opt_string, copy_bytes};
use crate::wire;

verus! {

pub open spec fn artwork_target_wire(v: api::ArtworkTargetView) -> wire::ArtworkTargetView {
    wire::ArtworkTargetView {
        kind: Some(
            match v {
                api::ArtworkTargetView::Track { key } => wire::ArtworkTargetKindView::Track { key },
                api::ArtworkTargetView::Album { id } => wire::ArtworkTargetKindView::Album { id },
                api::ArtworkTargetView::Artist { name } => wire::ArtworkTargetKindView::Artist {
                    name,
                },
                api::ArtworkTargetView::Playlist { id } => wire::ArtworkTargetKindView::Playlist {
                    id,
                },
            },
        ),
    }
}

/// A target with no alternative set names nothing.
pub open spec fn artwork_target_decoded(w: wire::ArtworkTargetView) -> Option<api::ArtworkTargetView> {
    match w.kind {
        Some(wire::ArtworkTargetKindView::Track { key }) => Some(api::ArtworkTargetView::Track {
            key,
        }),
        Some(wire::ArtworkTargetKindView::Album { id }) => Some(api::ArtworkTargetView::Album {
            id,
        }),
        Some(wire::ArtworkTargetKindView::Artist { name }) => Some(api::ArtworkTargetView::Artist {
            name,
        }),
        Some(wire::ArtworkTargetKindView::Playlist { id }) => Some(api::ArtworkTargetView::Playlist {
            id,
        }),
        None => None,
    }
}

pub fn artwork_target_to_proto(value: &api::ArtworkTarget) -> (r: wire::ArtworkTarget)
    ensures
        r@ == artwork_target_wire(value@),
{
    let kind = match value {
        api::ArtworkTarget::Track { key } => wire::ArtworkTargetKind::Track { key: key.clone() },
        api::ArtworkTarget::Album { id } => wire::ArtworkTargetKind::Album { id: id.clone() },
        api::ArtworkTarget::Artist { name } => wire::ArtworkTargetKind::Artist {
            name: name.clone(),
        },
        api::ArtworkTarget::Playlist { id } => wire::ArtworkTargetKind::Playlist { id: id.clone() },
    };
    wire::ArtworkTarget { kind: Some(kind) }
}

pub fn artwork_target_from_proto(value: &wire::ArtworkTarget) -> (r: Option<api::ArtworkTarget>)
    ensures
        r.deep_view() == artwork_target_decoded(value@),
{
    match &value.kind {
        Some(wire::ArtworkTargetKind::Track { key }) => Some(api::ArtworkTarget::Track {
            key: key.clone(),
        }),
        Some(wire::ArtworkTargetKind::Album { id }) => Some(api::ArtworkTarget::Album {
            id: id.clone(),
        }),
        Some(wire::ArtworkTargetKind::Artist { name }) => Some(api::ArtworkTarget::Artist {
            name: name.clone(),
        }),
        Some(wire::ArtworkTargetKind::Playlist { id }) => Some(api::ArtworkTarget::Playlist {
            id: id.clone(),
        }),
        None => None,
    }
}

/// Every value survives the wire: sent and read back, it is the value that
/// was sent.
pub proof fn lemma_artwork_target_round_trip(v: api::ArtworkTargetView)
    ensures
        artwork_target_decoded(artwork_target_wire(v)) == Some(v),
{
    lemma_api_enums_round_trip();
    match v {
        api::ArtworkTargetView::Track { .. } => {},
        api::ArtworkTargetView::Album { .. } => {},
        api::ArtworkTargetView::Artist { .. } => {},
        api::ArtworkTargetView::Playlist { .. } => {},
    }
}

/// Each alternative travels as the wire alternative of the same name.
pub proof fn lemma_artwork_target_alternatives_travel(v: api::ArtworkTargetView)
    ensures
        artwork_target_wire(v).kind is Some,
        (v is Track) == (artwork_target_wire(v).kind.unwrap() is Track),
        (v is Album) == (artwork_target_wire(v).kind.unwrap() is Album),
        (v is Artist) == (artwork_target_wire(v).kind.unwrap() is Artist),
        (v is Playlist) == (artwork_target_wire(v).kind.unwrap() is Playlist),
{
}

pub open spec fn artwork_entity_wire(v: api::ArtworkEntityView) -> wire::ArtworkEntityView {
    wire::ArtworkEntityView {
        kind: Some(
            match v {
                api::ArtworkEntityView::Track { key } => wire::ArtworkEntityKindView::Track { key },
                api::ArtworkEntityView::Album { id } => wire::ArtworkEntityKindView::Album { id },
                api::ArtworkEntityView::Artist { name } => wire::ArtworkEntityKindView::Artist {
                    name,
                },
                api::ArtworkEntityView::Playlist { id } => wire::ArtworkEntityKindView::Playlist {
                    id,
                },
            },
        ),
    }
}

/// An entity with no alternative set names nothing.
pub open spec fn artwork_entity_decoded(w: wire::ArtworkEntityView) -> Option<api::ArtworkEntityView> {
    match w.kind {
        Some(wire::ArtworkEntityKindView::Track { key }) => Some(api::ArtworkEntityView::Track {
            key,
        }),
        Some(wire::ArtworkEntityKindView::Album { id }) => Some(api::ArtworkEntityView::Album {
            id,
        }),
        Some(wire::ArtworkEntityKindView::Artist { name }) => Some(api::ArtworkEntityView::Artist {
            name,
        }),
        Some(wire::ArtworkEntityKindView::Playlist { id }) => Some(api::ArtworkEntityView::Playlist {
            id,
        }),
        None => None,
    }
}

pub fn artwork_entity_to_proto(value: &api::ArtworkEntity) -> (r: wire::ArtworkEntity)
    ensures
        r@ == artwork_entity_wire(value@),
{
    let kind = match value {
        api::ArtworkEntity::Track { key } => wire::ArtworkEntityKind::Track { key: key.clone() },
        api::ArtworkEntity::Album { id } => wire::ArtworkEntityKind::Album { id: id.clone() },
        api::ArtworkEntity::Artist { name } => wire::ArtworkEntityKind::Artist {
            name: name.clone(),
        },
        api::ArtworkEntity::Playlist { id } => wire::ArtworkEntityKind::Playlist { id: id.clone() },
    };
    wire::ArtworkEntity { kind: Some(kind) }
}

pub fn artwork_entity_from_proto(value: &wire::ArtworkEntity) -> (r: Option<api::ArtworkEntity>)
    ensures
        r.deep_view() == artwork_entity_decoded(value@),
{
    match &value.kind {
        Some(wire::ArtworkEntityKind::Track { key }) => Some(api::ArtworkEntity::Track {
            key: key.clone(),
        }),
        Some(wire::ArtworkEntityKind::Album { id }) => Some(api::ArtworkEntity::Album {
            id: id.clone(),
        }),
        Some(wire::ArtworkEntityKind::Artist { name }) => Some(api::ArtworkEntity::Artist {
            name: name.clone(),
        }),
        Some(wire::ArtworkEntityKind::Playlist { id }) => Some(api::ArtworkEntity::Playlist {
            id: id.clone(),
        }),
        None => None,
    }
}

/// Every value survives the wire: sent and read back, it is the value that
/// was sent.
pub proof fn lemma_artwork_entity_round_trip(v: api::ArtworkEntityView)
    ensures
        artwork_entity_decoded(artwork_entity_wire(v)) == Some(v),
{
    lemma_api_enums_round_trip();
    match v {
        api::ArtworkEntityView::Track { .. } => {},
        api::ArtworkEntityView::Album { .. } => {},
        api::ArtworkEntityView::Artist { .. } => {},
        api::ArtworkEntityView::Playlist { .. } => {},
    }
}

/// Each alternative travels as the wire alternative of the same name.
pub proof fn lemma_artwork_entity_alternatives_travel(v: api::ArtworkEntityView)
    ensures
        artwork_entity_wire(v).kind is Some,
        (v is Track) == (artwork_entity_wire(v).kind.unwrap() is Track),
        (v is Album) == (artwork_entity_wire(v).kind.unwrap() is Album),
        (v is Artist) == (artwork_entity_wire(v).kind.unwrap() is Artist),
        (v is Playlist) == (artwork_entity_wire(v).kind.unwrap() is Playlist),
{
}

pub open spec fn metadata_patch_wire(v: api::TrackMetadataPatchView) -> wire::TrackMetadataPatchView {
    wire::TrackMetadataPatchView {
        key: v.key,
        title: v.title,
        artist: v.artist,
        album: v.album,
        track_number: v.track_number,
        clear_track_number: v.clear_track_number,
        disc_number: v.disc_number,
        clear_disc_number: v.clear_disc_number,
    }
}

pub open spec fn metadata_patch_decoded(w: wire::TrackMetadataPatchView) -> api::TrackMetadataPatchView {
    api::TrackMetadataPatchView {
        key: w.key,
        title: w.title,
        artist: w.artist,
        album: w.album,
        track_number: w.track_number,
        clear_track_number: w.clear_track_number,
        disc_number: w.disc_number,
        clear_disc_number: w.clear_disc_number,
    }
}

pub fn metadata_patch_to_proto(value: &api::TrackMetadataPatch) -> (r: wire::TrackMetadataPatch)
    ensures
        r@ == metadata_patch_wire(value@),
{
    wire::TrackMetadataPatch {
        key: value.key.clone(),
        title: clone_opt_string(&value.title),
        artist: clone_opt_string(&value.artist),
        album: clone_opt_string(&value.album),
        track_number: value.track_number,
        clear_track_number: value.clear_track_number,
        disc_number: value.disc_number,
        clear_disc_number: value.clear_disc_number,
    }
}

pub fn metadata_patch_from_proto(value: &wire::TrackMetadataPatch) -> (r: api::TrackMetadataPatch)
    ensures
        r@ == metadata_patch_decoded(value@),
{
    api::TrackMetadataPatch {
        key: value.key.clone(),
        title: clone_opt_string(&value.title),
        artist: clone_opt_string(&value.artist),
        album: clone_opt_string(&value.album),
        track_number: value.track_number,
        clear_track_number: value.clear_track_number,
        disc_number: value.disc_number,
        clear_disc_number: value.clear_disc_number,
    }
}

/// Every value survives the wire: sent and read back, it is the value that
/// was sent.
pub proof fn lemma_metadata_patch_round_trip(v: api::TrackMetadataPatchView)
    ensures
        metadata_patch_decoded(metadata_patch_wire(v)) == v,
{
    lemma_api_enums_round_trip();
}

/// Each field travels in the wire field of the same name, carried over
/// unchanged or through its own conversion, in both directions.
pub proof fn lemma_metadata_patch_fields_travel(v: api::TrackMetadataPatchView, w: wire::TrackMetadataPatchView)
    ensures
        metadata_patch_wire(v).key == v.key,
        metadata_patch_decoded(w).key == w.key,
        metadata_patch_wire(v).title == v.title,
        metadata_patch_decoded(w).title == w.title,
        metadata_patch_wire(v).artist == v.artist,
        metadata_patch_decoded(w).artist == w.artist,
        metadata_patch_wire(v).album == v.album,
        metadata_patch_decoded(w).album == w.album,
        metadata_patch_wire(v).track_number == v.track_number,
        metadata_patch_decoded(w).track_number == w.track_number,
        metadata_patch_wire(v).clear_track_number == v.clear_track_number,
        metadata_patch_decoded(w).clear_track_number == w.clear_track_number,
        metadata_patch_wire(v).disc_number == v.disc_number,
        metadata_patch_decoded(w).disc_number == w.disc_number,
        metadata_patch_wire(v).clear_disc_number == v.clear_disc_number,
        metadata_patch_decoded(w).clear_disc_number == w.clear_disc_number,
{
}

/// The empty ArtworkRequest: no text, no numbers, the default kind.
pub open spec fn artwork_request_default() -> api::ArtworkRequestView {
    api::ArtworkRequestView {
        entity: None,
        hq: false,
    }
}

impl Default for api::ArtworkRequest {
    fn default() -> (r: Self)
        ensures
            r@ == artwork_request_default(),
    {
        api::ArtworkRequest {
            entity: None,
            hq: false,
        }
    }
}

pub open spec fn artwork_request_wire(v: api::ArtworkRequestView) -> wire::ArtworkRequestView {
    wire::ArtworkRequestView {
        entity: match v.entity { Some(m) => Some(artwork_entity_wire(m)), None => None },
        hq: v.hq,
    }
}

/// An entity that names nothing reads as no entity.
pub open spec fn artwork_request_decoded(w: wire::ArtworkRequestView) -> api::ArtworkRequestView {
    api::ArtworkRequestView {
        entity: match w.entity { Some(m) => artwork_entity_decoded(m), None => None },
        hq: w.hq,
    }
}

pub fn artwork_request_to_proto(value: &api::ArtworkRequest) -> (r: wire::ArtworkRequest)
    ensures
        r@ == artwork_request_wire(value@),
{
    wire::ArtworkRequest {
        entity: match &value.entity { Some(m) => Some(artwork_entity_to_proto(m)), None => None },
        hq: value.hq,
    }
}

pub fn artwork_request_from_proto(value: &wire::ArtworkRequest) -> (r: api::ArtworkRequest)
    ensures
        r@ == artwork_request_decoded(value@),
{
    api::ArtworkRequest {
        entity: match &value.entity { Some(m) => artwork_entity_from_proto(m), None => None },
        hq: value.hq,
    }
}

/// Every value survives the wire: sent and read back, it is the value that
/// was sent.
pub proof fn lemma_artwork_request_round_trip(v: api::ArtworkRequestView)
    ensures
        artwork_request_decoded(artwork_request_wire(v)) == v,
{
    lemma_api_enums_round_trip();
    if let Some(m) = v.entity { lemma_artwork_entity_round_trip(m); }
}

/// Each field travels in the wire field of the same name, carried over
/// unchanged or through its own conversion, in both directions.
pub proof fn lemma_artwork_request_fields_travel(v: api::ArtworkRequestView, w: wire::ArtworkRequestView)
    ensures
        artwork_request_wire(v).hq == v.hq,
        artwork_request_decoded(w).hq == w.hq,
{
}

/// The empty ArtworkUpload: no text, no numbers, the default kind.
pub open spec fn artwork_upload_default() -> api::ArtworkUploadView {
    api::ArtworkUploadView {
        target: None,
        content_type: Seq::empty(),
        data: Seq::empty(),
    }
}

impl Default for api::ArtworkUpload {
    fn default() -> (r: Self)
        ensures
            r@ == artwork_upload_default(),
    {
        api::ArtworkUpload {
            target: None,
            content_type: String::new(),
            data: Vec::new(),
        }
    }
}

pub open spec fn artwork_upload_wire(v: api::ArtworkUploadView) -> wire::ArtworkUploadView {
    wire::ArtworkUploadView {
        target: match v.target { Some(m) => Some(artwork_target_wire(m)), None => None },
        content_type: v.content_type,
        data: v.data,
    }
}

/// A target that names nothing reads as no target.
pub open spec fn artwork_upload_decoded(w: wire::ArtworkUploadView) -> api::ArtworkUploadView {
    api::ArtworkUploadView {
        target: match w.target { Some(m) => artwork_target_decoded(m), None => None },
        content_type: w.content_type,
        data: w.data,
    }
}

pub fn artwork_upload_to_proto(value: &api::ArtworkUpload) -> (r: wire::ArtworkUpload)
    ensures
        r@ == artwork_upload_wire(value@),
{
    wire::ArtworkUpload {
        target: match &value.target { Some(m) => Some(artwork_target_to_proto(m)), None => None },
        content_type: value.content_type.clone(),
        data: copy_bytes(&value.data),
    }
}

pub fn artwork_upload_from_proto(value: &wire::ArtworkUpload) -> (r: api::ArtworkUpload)
    ensures
        r@ == artwork_upload_decoded(value@),
{
    api::ArtworkUpload {
        target: match &value.target { Some(m) => artwork_target_from_proto(m), None => None },
        content_type: value.content_type.clone(),
        data: copy_bytes(&value.data),
    }
}

/// Every value survives the wire: sent and read back, it is the value that
/// was sent.
pub proof fn lemma_artwork_upload_round_trip(v: api::ArtworkUploadView)
    ensures
        artwork_upload_decoded(artwork_upload_wire(v)) == v,
{
    lemma_api_enums_round_trip();
    if let Some(m) = v.target { lemma_artwork_target_round_trip(m); }
}

/// Each field travels in the wire field of the same name, carried over
/// unchanged or through its own conversion, in both directions.
pub proof fn lemma_artwork_upload_fields_travel(v: api::ArtworkUploadView, w: wire::ArtworkUploadView)
    ensures
        artwork_upload_wire(v).content_type == v.content_type,
        artwork_upload_decoded(w).content_type == w.content_type,
        artwork_upload_wire(v).data == v.data,
        artwork_upload_decoded(w).data == w.data,
{
}

/// A removal request on the wire: the target whose artwork goes.
pub open spec fn remove_artwork_wire(v: api::ArtworkTargetView) -> wire::RemoveArtworkRequestView {
    wire::RemoveArtworkRequestView { target: Some(artwork_target_wire(v)) }
}

/// The target a received removal names; none when it names nothing.
pub open spec fn remove_artwork_decoded(w: wire::RemoveArtworkRequestView) -> Option<api::ArtworkTargetView> {
    match w.target {
        Some(t) => artwork_target_decoded(t),
        None => None,
    }
}

pub fn remove_artwork_to_proto(value: &api::ArtworkTarget) -> (r: wire::RemoveArtworkRequest)
    ensures
        r@ == remove_artwork_wire(value@),
{
    wire::RemoveArtworkRequest { target: Some(artwork_target_to_proto(value)) }
}

pub fn remove_artwork_from_proto(value: &wire::RemoveArtworkRequest) -> (r: Option<api::ArtworkTarget>)
    ensures
        r.deep_view() == remove_artwork_decoded(value@),
{
    match &value.target {
        Some(t) => artwork_target_from_proto(t),
        None => None,
    }
}

/// A removed target survives the wire: sent and read back, it is the target
/// that was sent.
pub proof fn lemma_remove_artwork_round_trip(v: api::ArtworkTargetView)
    ensures
        remove_artwork_decoded(remove_artwork_wire(v)) == Some(v),
{
    lemma_artwork_target_round_trip(v);
}

} // verus!
