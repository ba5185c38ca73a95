//! Playlists and their folders on the wire.
//!
//! Each message is stated as a spec function in both directions (`*_wire` out,
//! `*_decoded` in), the executable conversions are tied to them by their
//! `ensures`, and each `lemma_*_round_trip` proves that a value sent and read
//! back is the value that was sent.

use vstd::prelude::*;

use crate::api;
use crate::config::items;
use crate::enums::{lemma_api_enums_round_trip};
use crate::text::{clone_opt_string, clone_strings};
use crate::wire;

verus! {

pub open spec fn playlist_info_wire(v: api::PlaylistInfoView) -> wire::PlaylistInfoView {
    wire::PlaylistInfoView {
        id: v.id,
        name: v.name,
        track_count: v.track_count,
        track_keys: v.track_keys,
        artwork: v.artwork,
        manual_artwork: v.manual_artwork,
    }
}

pub open spec fn playlist_info_decoded(w: wire::PlaylistInfoView) -> api::PlaylistInfoView {
    api::PlaylistInfoView {
        id: w.id,
        name: w.name,
        track_count: w.track_count,
        track_keys: w.track_keys,
        artwork: w.artwork,
        manual_artwork: w.manual_artwork,
    }
}

pub fn playlist_info_to_proto(value: &api::PlaylistInfo) -> (r: wire::PlaylistInfo)
    ensures
        r@ == playlist_info_wire(value@),
{
    wire::PlaylistInfo {
        id: value.id.clone(),
        name: value.name.clone(),
        track_count: value.track_count,
        track_keys: clone_strings(&value.track_keys),
        artwork: clone_opt_string(&value.artwork),
        manual_artwork: value.manual_artwork,
    }
}

pub fn playlist_info_from_proto(value: &wire::PlaylistInfo) -> (r: api::PlaylistInfo)
    ensures
        r@ == playlist_info_decoded(value@),
{
    api::PlaylistInfo {
        id: value.id.clone(),
        name: value.name.clone(),
        track_count: value.track_count,
        track_keys: clone_strings(&value.track_keys),
        artwork: clone_opt_string(&value.artwork),
        manual_artwork: value.manual_artwork,
    }
}

/// Every value survives the wire: sent and read back, it is the value that
/// was sent.
pub proof fn lemma_playlist_info_round_trip(v: api::PlaylistInfoView)
    ensures
        playlist_info_decoded(playlist_info_wire(v)) == v,
{
    lemma_api_enums_round_trip();
}

/// Each field travels in the wire field of the same name, carried over
/// unchanged or through its own conversion, in both directions.
pub proof fn lemma_playlist_info_fields_travel(v: api::PlaylistInfoView, w: wire::PlaylistInfoView)
    ensures
        playlist_info_wire(v).id == v.id,
        playlist_info_decoded(w).id == w.id,
        playlist_info_wire(v).name == v.name,
        playlist_info_decoded(w).name == w.name,
        playlist_info_wire(v).track_count == v.track_count,
        playlist_info_decoded(w).track_count == w.track_count,
        playlist_info_wire(v).track_keys == v.track_keys,
        playlist_info_decoded(w).track_keys == w.track_keys,
        playlist_info_wire(v).artwork == v.artwork,
        playlist_info_decoded(w).artwork == w.artwork,
        playlist_info_wire(v).manual_artwork == v.manual_artwork,
        playlist_info_decoded(w).manual_artwork == w.manual_artwork,
{
}

pub open spec fn playlist_infos_wire(values: Seq<api::PlaylistInfoView>) -> Seq<wire::PlaylistInfoView> {
    Seq::new(values.len(), |i: int| playlist_info_wire(values[i]))
}

pub open spec fn playlist_infos_decoded(values: Seq<wire::PlaylistInfoView>) -> Seq<api::PlaylistInfoView> {
    Seq::new(values.len(), |i: int| playlist_info_decoded(values[i]))
}

pub fn playlist_infos_to_proto(values: &Vec<api::PlaylistInfo>) -> (r: Vec<wire::PlaylistInfo>)
    ensures
        items(r) == playlist_infos_wire(items(*values)),
{
    let mut r: Vec<wire::PlaylistInfo> = Vec::new();
    let mut i: usize = 0;
    while i < values.len()
        invariant
            i <= values.len(),
            r@.len() == i,
            forall|j: int| 0 <= j < i ==> #[trigger] r@[j]@ == playlist_info_wire(values@[j]@),
        decreases values.len() - i,
    {
        r.push(playlist_info_to_proto(&values[i]));
        i += 1;
    }
    proof {
        reveal(items);
    }
    assert(r.deep_view() =~= playlist_infos_wire(values.deep_view()));
    r
}

pub fn playlist_infos_from_proto(values: &Vec<wire::PlaylistInfo>) -> (r: Vec<api::PlaylistInfo>)
    ensures
        items(r) == playlist_infos_decoded(items(*values)),
{
    let mut r: Vec<api::PlaylistInfo> = Vec::new();
    let mut i: usize = 0;
    while i < values.len()
        invariant
            i <= values.len(),
            r@.len() == i,
            forall|j: int| 0 <= j < i ==> #[trigger] r@[j]@ == playlist_info_decoded(values@[j]@),
        decreases values.len() - i,
    {
        r.push(playlist_info_from_proto(&values[i]));
        i += 1;
    }
    proof {
        reveal(items);
    }
    assert(r.deep_view() =~= playlist_infos_decoded(values.deep_view()));
    r
}

pub proof fn lemma_playlist_infos_round_trip(values: Seq<api::PlaylistInfoView>)
    ensures
        playlist_infos_decoded(playlist_infos_wire(values)) == values,
{
    assert forall|i: int| 0 <= i < values.len() implies #[trigger] playlist_infos_decoded(playlist_infos_wire(values))[i] == values[i] by {
        lemma_playlist_info_round_trip(values[i]);
    }
    assert(playlist_infos_decoded(playlist_infos_wire(values)) =~= values);
}

pub open spec fn playlist_folder_wire(v: api::PlaylistFolderInfoView) -> wire::PlaylistFolderInfoView {
    wire::PlaylistFolderInfoView {
        id: v.id,
        name: v.name,
        playlist_ids: v.playlist_ids,
    }
}

pub open spec fn playlist_folder_decoded(w: wire::PlaylistFolderInfoView) -> api::PlaylistFolderInfoView {
    api::PlaylistFolderInfoView {
        id: w.id,
        name: w.name,
        playlist_ids: w.playlist_ids,
    }
}

pub fn playlist_folder_to_proto(value: &api::PlaylistFolderInfo) -> (r: wire::PlaylistFolderInfo)
    ensures
        r@ == playlist_folder_wire(value@),
{
    wire::PlaylistFolderInfo {
        id: value.id.clone(),
        name: value.name.clone(),
        playlist_ids: clone_strings(&value.playlist_ids),
    }
}

pub fn playlist_folder_from_proto(value: &wire::PlaylistFolderInfo) -> (r: api::PlaylistFolderInfo)
    ensures
        r@ == playlist_folder_decoded(value@),
{
    api::PlaylistFolderInfo {
        id: value.id.clone(),
        name: value.name.clone(),
        playlist_ids: clone_strings(&value.playlist_ids),
    }
}

/// Every value survives the wire: sent and read back, it is the value that
/// was sent.
pub proof fn lemma_playlist_folder_round_trip(v: api::PlaylistFolderInfoView)
    ensures
        playlist_folder_decoded(playlist_folder_wire(v)) == v,
{
    lemma_api_enums_round_trip();
}

/// Each field travels in the wire field of the same name, carried over
/// unchanged or through its own conversion, in both directions.
pub proof fn lemma_playlist_folder_fields_travel(v: api::PlaylistFolderInfoView, w: wire::PlaylistFolderInfoView)
    ensures
        playlist_folder_wire(v).id == v.id,
        playlist_folder_decoded(w).id == w.id,
        playlist_folder_wire(v).name == v.name,
        playlist_folder_decoded(w).name == w.name,
        playlist_folder_wire(v).playlist_ids == v.playlist_ids,
        playlist_folder_decoded(w).playlist_ids == w.playlist_ids,
{
}

pub open spec fn playlist_folders_wire(values: Seq<api::PlaylistFolderInfoView>) -> Seq<wire::PlaylistFolderInfoView> {
    Seq::new(values.len(), |i: int| playlist_folder_wire(values[i]))
}

pub open spec fn playlist_folders_decoded(values: Seq<wire::PlaylistFolderInfoView>) -> Seq<api::PlaylistFolderInfoView> {
    Seq::new(values.len(), |i: int| playlist_folder_decoded(values[i]))
}

pub fn playlist_folders_to_proto(values: &Vec<api::PlaylistFolderInfo>) -> (r: Vec<wire::PlaylistFolderInfo>)
    ensures
        items(r) == playlist_folders_wire(items(*values)),
{
    let mut r: Vec<wire::PlaylistFolderInfo> = Vec::new();
    let mut i: usize = 0;
    while i < values.len()
        invariant
            i <= values.len(),
            r@.len() == i,
            forall|j: int| 0 <= j < i ==> #[trigger] r@[j]@ == playlist_folder_wire(values@[j]@),
        decreases values.len() - i,
    {
        r.push(playlist_folder_to_proto(&values[i]));
        i += 1;
    }
    proof {
        reveal(items);
    }
    assert(r.deep_view() =~= playlist_folders_wire(values.deep_view()));
    r
}

pub fn playlist_folders_from_proto(values: &Vec<wire::PlaylistFolderInfo>) -> (r: Vec<api::PlaylistFolderInfo>)
    ensures
        items(r) == playlist_folders_decoded(items(*values)),
{
    let mut r: Vec<api::PlaylistFolderInfo> = Vec::new();
    let mut i: usize = 0;
    while i < values.len()
        invariant
            i <= values.len(),
            r@.len() == i,
            forall|j: int| 0 <= j < i ==> #[trigger] r@[j]@ == playlist_folder_decoded(values@[j]@),
        decreases values.len() - i,
    {
        r.push(playlist_folder_from_proto(&values[i]));
        i += 1;
    }
    proof {
        reveal(items);
    }
    assert(r.deep_view() =~= playlist_folders_decoded(values.deep_view()));
    r
}

pub proof fn lemma_playlist_folders_round_trip(values: Seq<api::PlaylistFolderInfoView>)
    ensures
        playlist_folders_decoded(playlist_folders_wire(values)) == values,
{
    assert forall|i: int| 0 <= i < values.len() implies #[trigger] playlist_folders_decoded(playlist_folders_wire(values))[i] == values[i] by {
        lemma_playlist_folder_round_trip(values[i]);
    }
    assert(playlist_folders_decoded(playlist_folders_wire(values)) =~= values);
}

pub open spec fn playlist_catalog_wire(v: api::PlaylistCatalogView) -> wire::PlaylistCatalogView {
    wire::PlaylistCatalogView {
        playlists: playlist_infos_wire(v.playlists),
        folders: playlist_folders_wire(v.folders),
    }
}

pub open spec fn playlist_catalog_decoded(w: wire::PlaylistCatalogView) -> api::PlaylistCatalogView {
    api::PlaylistCatalogView {
        playlists: playlist_infos_decoded(w.playlists),
        folders: playlist_folders_decoded(w.folders),
    }
}

pub fn playlist_catalog_to_proto(value: &api::PlaylistCatalog) -> (r: wire::PlaylistCatalog)
    ensures
        r@ == playlist_catalog_wire(value@),
{
    wire::PlaylistCatalog {
        playlists: playlist_infos_to_proto(&value.playlists),
        folders: playlist_folders_to_proto(&value.folders),
    }
}

pub fn playlist_catalog_from_proto(value: &wire::PlaylistCatalog) -> (r: api::PlaylistCatalog)
    ensures
        r@ == playlist_catalog_decoded(value@),
{
    api::PlaylistCatalog {
        playlists: playlist_infos_from_proto(&value.playlists),
        folders: playlist_folders_from_proto(&value.folders),
    }
}

/// Every value survives the wire: sent and read back, it is the value that
/// was sent.
pub proof fn lemma_playlist_catalog_round_trip(v: api::PlaylistCatalogView)
    ensures
        playlist_catalog_decoded(playlist_catalog_wire(v)) == v,
{
    lemma_api_enums_round_trip();
    lemma_playlist_infos_round_trip(v.playlists);
    lemma_playlist_folders_round_trip(v.folders);
}

/// Each field travels in the wire field of the same name, carried over
/// unchanged or through its own conversion, in both directions.
pub proof fn lemma_playlist_catalog_fields_travel(v: api::PlaylistCatalogView, w: wire::PlaylistCatalogView)
    ensures
        playlist_catalog_wire(v).playlists == playlist_infos_wire(v.playlists),
        playlist_catalog_decoded(w).playlists == playlist_infos_decoded(w.playlists),
        playlist_catalog_wire(v).folders == playlist_folders_wire(v.folders),
        playlist_catalog_decoded(w).folders == playlist_folders_decoded(w.folders),
{
}

} // verus!
