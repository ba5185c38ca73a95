//! Radio stations and their registries on the wire.
//!
//! Each message is stated as a spec function in both directions (`*_wire` out,
//! `*_decoded` in), the executable conversions are tied to them by their
//! `ensures`, and each `lemma_*_round_trip` proves that a value sent and read
//! back is the value that was sent.

use vstd::prelude::*;

use crate::api;
use crate::config::items;
use crate::enums::{lemma_api_enums_round_trip};
use crate::text::{clone_strings};
use crate::wire;

verus! {

pub open spec fn radio_stream_wire(v: api::RadioStreamInfoView) -> wire::RadioStreamInfoView {
    wire::RadioStreamInfoView {
        id: v.id,
        name: v.name,
        url: v.url,
    }
}

pub open spec fn radio_stream_decoded(w: wire::RadioStreamInfoView) -> api::RadioStreamInfoView {
    api::RadioStreamInfoView {
        id: w.id,
        name: w.name,
        url: w.url,
    }
}

pub fn radio_stream_to_proto(value: &api::RadioStreamInfo) -> (r: wire::RadioStreamInfo)
    ensures
        r@ == radio_stream_wire(value@),
{
    wire::RadioStreamInfo {
        id: value.id.clone(),
        name: value.name.clone(),
        url: value.url.clone(),
    }
}

pub fn radio_stream_from_proto(value: &wire::RadioStreamInfo) -> (r: api::RadioStreamInfo)
    ensures
        r@ == radio_stream_decoded(value@),
{
    api::RadioStreamInfo {
        id: value.id.clone(),
        name: value.name.clone(),
        url: value.url.clone(),
    }
}

/// Every value survives the wire: sent and read back, it is the value that
/// was sent.
pub proof fn lemma_radio_stream_round_trip(v: api::RadioStreamInfoView)
    ensures
        radio_stream_decoded(radio_stream_wire(v)) == v,
{
    lemma_api_enums_round_trip();
}

/// Each field travels in the wire field of the same name, carried over
/// unchanged or through its own conversion, in both directions.
pub proof fn lemma_radio_stream_fields_travel(v: api::RadioStreamInfoView, w: wire::RadioStreamInfoView)
    ensures
        radio_stream_wire(v).id == v.id,
        radio_stream_decoded(w).id == w.id,
        radio_stream_wire(v).name == v.name,
        radio_stream_decoded(w).name == w.name,
        radio_stream_wire(v).url == v.url,
        radio_stream_decoded(w).url == w.url,
{
}

pub open spec fn radio_streams_wire(values: Seq<api::RadioStreamInfoView>) -> Seq<wire::RadioStreamInfoView> {
    Seq::new(values.len(), |i: int| radio_stream_wire(values[i]))
}

pub open spec fn radio_streams_decoded(values: Seq<wire::RadioStreamInfoView>) -> Seq<api::RadioStreamInfoView> {
    Seq::new(values.len(), |i: int| radio_stream_decoded(values[i]))
}

pub fn radio_streams_to_proto(values: &Vec<api::RadioStreamInfo>) -> (r: Vec<wire::RadioStreamInfo>)
    ensures
        items(r) == radio_streams_wire(items(*values)),
{
    let mut r: Vec<wire::RadioStreamInfo> = Vec::new();
    let mut i: usize = 0;
    while i < values.len()
        invariant
            i <= values.len(),
            r@.len() == i,
            forall|j: int| 0 <= j < i ==> #[trigger] r@[j]@ == radio_stream_wire(values@[j]@),
        decreases values.len() - i,
    {
        r.push(radio_stream_to_proto(&values[i]));
        i += 1;
    }
    proof {
        reveal(items);
    }
    assert(r.deep_view() =~= radio_streams_wire(values.deep_view()));
    r
}

pub fn radio_streams_from_proto(values: &Vec<wire::RadioStreamInfo>) -> (r: Vec<api::RadioStreamInfo>)
    ensures
        items(r) == radio_streams_decoded(items(*values)),
{
    let mut r: Vec<api::RadioStreamInfo> = Vec::new();
    let mut i: usize = 0;
    while i < values.len()
        invariant
            i <= values.len(),
            r@.len() == i,
            forall|j: int| 0 <= j < i ==> #[trigger] r@[j]@ == radio_stream_decoded(values@[j]@),
        decreases values.len() - i,
    {
        r.push(radio_stream_from_proto(&values[i]));
        i += 1;
    }
    proof {
        reveal(items);
    }
    assert(r.deep_view() =~= radio_streams_decoded(values.deep_view()));
    r
}

pub proof fn lemma_radio_streams_round_trip(values: Seq<api::RadioStreamInfoView>)
    ensures
        radio_streams_decoded(radio_streams_wire(values)) == values,
{
    assert forall|i: int| 0 <= i < values.len() implies #[trigger] radio_streams_decoded(radio_streams_wire(values))[i] == values[i] by {
        lemma_radio_stream_round_trip(values[i]);
    }
    assert(radio_streams_decoded(radio_streams_wire(values)) =~= values);
}

pub open spec fn radio_station_wire(v: api::RadioStationInfoView) -> wire::RadioStationInfoView {
    wire::RadioStationInfoView {
        id: v.id,
        name: v.name,
        description: v.description,
        tags: v.tags,
        streams: radio_streams_wire(v.streams),
        pinned: v.pinned,
    }
}

pub open spec fn radio_station_decoded(w: wire::RadioStationInfoView) -> api::RadioStationInfoView {
    api::RadioStationInfoView {
        id: w.id,
        name: w.name,
        description: w.description,
        tags: w.tags,
        streams: radio_streams_decoded(w.streams),
        pinned: w.pinned,
    }
}

pub fn radio_station_to_proto(value: &api::RadioStationInfo) -> (r: wire::RadioStationInfo)
    ensures
        r@ == radio_station_wire(value@),
{
    wire::RadioStationInfo {
        id: value.id.clone(),
        name: value.name.clone(),
        description: value.description.clone(),
        tags: clone_strings(&value.tags),
        streams: radio_streams_to_proto(&value.streams),
        pinned: value.pinned,
    }
}

pub fn radio_station_from_proto(value: &wire::RadioStationInfo) -> (r: api::RadioStationInfo)
    ensures
        r@ == radio_station_decoded(value@),
{
    api::RadioStationInfo {
        id: value.id.clone(),
        name: value.name.clone(),
        description: value.description.clone(),
        tags: clone_strings(&value.tags),
        streams: radio_streams_from_proto(&value.streams),
        pinned: value.pinned,
    }
}

/// Every value survives the wire: sent and read back, it is the value that
/// was sent.
pub proof fn lemma_radio_station_round_trip(v: api::RadioStationInfoView)
    ensures
        radio_station_decoded(radio_station_wire(v)) == v,
{
    lemma_api_enums_round_trip();
    lemma_radio_streams_round_trip(v.streams);
}

/// Each field travels in the wire field of the same name, carried over
/// unchanged or through its own conversion, in both directions.
pub proof fn lemma_radio_station_fields_travel(v: api::RadioStationInfoView, w: wire::RadioStationInfoView)
    ensures
        radio_station_wire(v).id == v.id,
        radio_station_decoded(w).id == w.id,
        radio_station_wire(v).name == v.name,
        radio_station_decoded(w).name == w.name,
        radio_station_wire(v).description == v.description,
        radio_station_decoded(w).description == w.description,
        radio_station_wire(v).tags == v.tags,
        radio_station_decoded(w).tags == w.tags,
        radio_station_wire(v).streams == radio_streams_wire(v.streams),
        radio_station_decoded(w).streams == radio_streams_decoded(w.streams),
        radio_station_wire(v).pinned == v.pinned,
        radio_station_decoded(w).pinned == w.pinned,
{
}

pub open spec fn radio_registry_wire(v: api::RadioRegistryInfoView) -> wire::RadioRegistryInfoView {
    wire::RadioRegistryInfoView {
        url: v.url,
        enabled: v.enabled,
        built_in: v.built_in,
    }
}

pub open spec fn radio_registry_decoded(w: wire::RadioRegistryInfoView) -> api::RadioRegistryInfoView {
    api::RadioRegistryInfoView {
        url: w.url,
        enabled: w.enabled,
        built_in: w.built_in,
    }
}

pub fn radio_registry_to_proto(value: &api::RadioRegistryInfo) -> (r: wire::RadioRegistryInfo)
    ensures
        r@ == radio_registry_wire(value@),
{
    wire::RadioRegistryInfo {
        url: value.url.clone(),
        enabled: value.enabled,
        built_in: value.built_in,
    }
}

pub fn radio_registry_from_proto(value: &wire::RadioRegistryInfo) -> (r: api::RadioRegistryInfo)
    ensures
        r@ == radio_registry_decoded(value@),
{
    api::RadioRegistryInfo {
        url: value.url.clone(),
        enabled: value.enabled,
        built_in: value.built_in,
    }
}

/// Every value survives the wire: sent and read back, it is the value that
/// was sent.
pub proof fn lemma_radio_registry_round_trip(v: api::RadioRegistryInfoView)
    ensures
        radio_registry_decoded(radio_registry_wire(v)) == v,
{
    lemma_api_enums_round_trip();
}

/// Each field travels in the wire field of the same name, carried over
/// unchanged or through its own conversion, in both directions.
pub proof fn lemma_radio_registry_fields_travel(v: api::RadioRegistryInfoView, w: wire::RadioRegistryInfoView)
    ensures
        radio_registry_wire(v).url == v.url,
        radio_registry_decoded(w).url == w.url,
        radio_registry_wire(v).enabled == v.enabled,
        radio_registry_decoded(w).enabled == w.enabled,
        radio_registry_wire(v).built_in == v.built_in,
        radio_registry_decoded(w).built_in == w.built_in,
{
}

} // verus!
