//! Favourites and job status on the wire.
//!
//! Each message is stated as a spec function in both directions (`*_wire` out,
//! `*_decoded` in), the executable conversions are tied to them by their
//! `ensures`, and each `lemma_*_round_trip` proves that a value sent and read
//! back is the value that was sent.

use vstd::prelude::*;

use crate::api;
use crate::enums::{
    job_kind_decoded, job_kind_from_proto, job_kind_to_proto, job_kind_wire, job_state_decoded,
    job_state_from_proto, job_state_to_proto, job_state_wire, lemma_api_enums_round_trip,
};
use crate::protocol::player::{
    error_body_opt_decoded, error_body_opt_from_proto, error_body_opt_to_proto,
    error_body_opt_wire, lemma_error_body_opt_round_trip,
};
use crate::text::{clone_opt_string, clone_strings};
use crate::wire;

verus! {

pub open spec fn favorites_wire(v: api::FavoritesModel) -> wire::FavoritesView {
    wire::FavoritesView {
        refs: v.refs,
        generation: v.generation,
    }
}

pub open spec fn favorites_decoded(w: wire::FavoritesView) -> api::FavoritesModel {
    api::FavoritesModel {
        refs: w.refs,
        generation: w.generation,
    }
}

pub fn favorites_to_proto(value: &api::FavoritesView) -> (r: wire::Favorites)
    ensures
        r@ == favorites_wire(value@),
{
    wire::Favorites {
        refs: clone_strings(&value.refs),
        generation: value.generation,
    }
}

pub fn favorites_from_proto(value: &wire::Favorites) -> (r: api::FavoritesView)
    ensures
        r@ == favorites_decoded(value@),
{
    api::FavoritesView {
        refs: clone_strings(&value.refs),
        generation: value.generation,
    }
}

/// Every value survives the wire: sent and read back, it is the value that
/// was sent.
pub proof fn lemma_favorites_round_trip(v: api::FavoritesModel)
    ensures
        favorites_decoded(favorites_wire(v)) == v,
{
    lemma_api_enums_round_trip();
}

/// Each field travels in the wire field of the same name, carried over
/// unchanged or through its own conversion, in both directions.
pub proof fn lemma_favorites_fields_travel(v: api::FavoritesModel, w: wire::FavoritesView)
    ensures
        favorites_wire(v).refs == v.refs,
        favorites_decoded(w).refs == w.refs,
        favorites_wire(v).generation == v.generation,
        favorites_decoded(w).generation == w.generation,
{
}

pub open spec fn job_status_wire(v: api::JobStatusView) -> wire::JobStatusView {
    wire::JobStatusView {
        id: v.id,
        kind: job_kind_wire(v.kind).spec_code(),
        state: job_state_wire(v.state).spec_code(),
        phase: v.phase,
        current: v.current,
        total: v.total,
        message: v.message,
        error: error_body_opt_wire(v.error),
    }
}

pub open spec fn job_status_decoded(w: wire::JobStatusView) -> api::JobStatusView {
    api::JobStatusView {
        id: w.id,
        kind: job_kind_decoded(w.kind),
        state: job_state_decoded(w.state),
        phase: w.phase,
        current: w.current,
        total: w.total,
        message: w.message,
        error: error_body_opt_decoded(w.error),
    }
}

pub fn job_status_to_proto(value: &api::JobStatus) -> (r: wire::JobStatus)
    ensures
        r@ == job_status_wire(value@),
{
    wire::JobStatus {
        id: value.id.clone(),
        kind: job_kind_to_proto(value.kind).code(),
        state: job_state_to_proto(value.state).code(),
        phase: value.phase.clone(),
        current: value.current,
        total: value.total,
        message: clone_opt_string(&value.message),
        error: error_body_opt_to_proto(&value.error),
    }
}

pub fn job_status_from_proto(value: &wire::JobStatus) -> (r: api::JobStatus)
    ensures
        r@ == job_status_decoded(value@),
{
    api::JobStatus {
        id: value.id.clone(),
        kind: job_kind_from_proto(value.kind),
        state: job_state_from_proto(value.state),
        phase: value.phase.clone(),
        current: value.current,
        total: value.total,
        message: clone_opt_string(&value.message),
        error: error_body_opt_from_proto(&value.error),
    }
}

/// Every value survives the wire: sent and read back, it is the value that
/// was sent.
pub proof fn lemma_job_status_round_trip(v: api::JobStatusView)
    ensures
        job_status_decoded(job_status_wire(v)) == v,
{
    lemma_api_enums_round_trip();
    lemma_error_body_opt_round_trip(v.error);
}

/// Each field travels in the wire field of the same name, carried over
/// unchanged or through its own conversion, in both directions.
pub proof fn lemma_job_status_fields_travel(v: api::JobStatusView, w: wire::JobStatusView)
    ensures
        job_status_wire(v).id == v.id,
        job_status_decoded(w).id == w.id,
        job_status_wire(v).kind == job_kind_wire(v.kind).spec_code(),
        job_status_decoded(w).kind == job_kind_decoded(w.kind),
        job_status_wire(v).state == job_state_wire(v.state).spec_code(),
        job_status_decoded(w).state == job_state_decoded(w.state),
        job_status_wire(v).phase == v.phase,
        job_status_decoded(w).phase == w.phase,
        job_status_wire(v).current == v.current,
        job_status_decoded(w).current == w.current,
        job_status_wire(v).total == v.total,
        job_status_decoded(w).total == w.total,
        job_status_wire(v).message == v.message,
        job_status_decoded(w).message == w.message,
        job_status_wire(v).error == error_body_opt_wire(v.error),
        job_status_decoded(w).error == error_body_opt_decoded(w.error),
{
}

} // verus!
