//! The events the daemon pushes, on the wire.
//!
//! Each message is stated as a spec function in both directions (`*_wire` out,
//! `*_decoded` in), the executable conversions are tied to them by their
//! `ensures`, and each `lemma_*_round_trip` proves that a value sent and read
//! back is the value that was sent.

use vstd::prelude::*;

use crate::api;
use crate::enums::{
    job_kind_decoded, job_kind_from_proto, job_kind_to_proto, job_kind_wire,
    lemma_api_enums_round_trip, notice_level_decoded, notice_level_from_proto,
    notice_level_to_proto, notice_level_wire, source_state_decoded, source_state_from_proto,
    source_state_to_proto, source_state_wire, table_decoded, table_from_proto, table_to_proto,
    table_wire,
};
use crate::protocol::player::{
    buffered_ranges_decoded, buffered_ranges_from_proto, buffered_ranges_to_proto,
    buffered_ranges_wire, command_decoded, command_from_proto, command_to_proto, command_wire,
    error_body_opt_decoded, error_body_opt_from_proto, error_body_opt_to_proto,
    error_body_opt_wire, lemma_buffered_ranges_round_trip, lemma_command_round_trip,
    lemma_error_body_opt_round_trip, lemma_player_state_round_trip, player_state_decoded,
    player_state_from_proto, player_state_to_proto, player_state_wire,
};
use crate::text::{clone_opt_string, clone_strings};
use crate::wire;

verus! {

pub open spec fn job_progress_wire(v: api::JobProgressView) -> wire::JobProgressView {
    wire::JobProgressView {
        id: v.id,
        kind: job_kind_wire(v.kind).spec_code(),
        phase: v.phase,
        current: v.current,
        total: v.total,
        message: v.message,
    }
}

pub open spec fn job_progress_decoded(w: wire::JobProgressView) -> api::JobProgressView {
    api::JobProgressView {
        id: w.id,
        kind: job_kind_decoded(w.kind),
        phase: w.phase,
        current: w.current,
        total: w.total,
        message: w.message,
    }
}

pub fn job_progress_to_proto(value: &api::JobProgress) -> (r: wire::JobProgress)
    ensures
        r@ == job_progress_wire(value@),
{
    wire::JobProgress {
        id: value.id.clone(),
        kind: job_kind_to_proto(value.kind).code(),
        phase: value.phase.clone(),
        current: value.current,
        total: value.total,
        message: clone_opt_string(&value.message),
    }
}

pub fn job_progress_from_proto(value: &wire::JobProgress) -> (r: api::JobProgress)
    ensures
        r@ == job_progress_decoded(value@),
{
    api::JobProgress {
        id: value.id.clone(),
        kind: job_kind_from_proto(value.kind),
        phase: value.phase.clone(),
        current: value.current,
        total: value.total,
        message: clone_opt_string(&value.message),
    }
}

/// Every value survives the wire: sent and read back, it is the value that
/// was sent.
pub proof fn lemma_job_progress_round_trip(v: api::JobProgressView)
    ensures
        job_progress_decoded(job_progress_wire(v)) == v,
{
    lemma_api_enums_round_trip();
}

/// Each field travels in the wire field of the same name, carried over
/// unchanged or through its own conversion, in both directions.
pub proof fn lemma_job_progress_fields_travel(v: api::JobProgressView, w: wire::JobProgressView)
    ensures
        job_progress_wire(v).id == v.id,
        job_progress_decoded(w).id == w.id,
        job_progress_wire(v).kind == job_kind_wire(v.kind).spec_code(),
        job_progress_decoded(w).kind == job_kind_decoded(w.kind),
        job_progress_wire(v).phase == v.phase,
        job_progress_decoded(w).phase == w.phase,
        job_progress_wire(v).current == v.current,
        job_progress_decoded(w).current == w.current,
        job_progress_wire(v).total == v.total,
        job_progress_decoded(w).total == w.total,
        job_progress_wire(v).message == v.message,
        job_progress_decoded(w).message == w.message,
{
}

pub open spec fn event_wire(v: api::ApiEventView) -> wire::EventView {
    wire::EventView {
        kind: Some(
            match v {
                api::ApiEventView::PlayerState { player } => wire::EventKindView::PlayerState {
                    player: player_state_wire(player),
                },
                api::ApiEventView::PlayerPosition { token, position_ms, at_ms, playing } => wire::EventKindView::PlayerPosition {
                    token,
                    position_ms,
                    at_ms,
                    playing,
                },
                api::ApiEventView::PlayerBuffered { token, ranges } => wire::EventKindView::PlayerBuffered {
                    token,
                    ranges: buffered_ranges_wire(ranges),
                },
                api::ApiEventView::PlayerExternalCommand { command } => wire::EventKindView::PlayerExternalCommand {
                    command: command_wire(command),
                },
                api::ApiEventView::QueueChanged { rev, length, index } => wire::EventKindView::QueueChanged {
                    rev,
                    length,
                    index,
                },
                api::ApiEventView::LibraryInvalidated { table, generation } => wire::EventKindView::LibraryInvalidated {
                    table: table_wire(table).spec_code(),
                    generation,
                },
                api::ApiEventView::JobProgress { progress } => wire::EventKindView::JobProgress {
                    progress: job_progress_wire(progress),
                },
                api::ApiEventView::JobFinished { id, kind, ok, error } => wire::EventKindView::JobFinished {
                    id,
                    kind: job_kind_wire(kind).spec_code(),
                    ok,
                    error: error_body_opt_wire(error),
                },
                api::ApiEventView::ConfigChanged { keys } => wire::EventKindView::ConfigChanged {
                    keys,
                },
                api::ApiEventView::SourceStatus { source, state } => wire::EventKindView::SourceStatus {
                    source,
                    state: source_state_wire(state).spec_code(),
                },
                api::ApiEventView::Notice { level, code, message } => wire::EventKindView::Notice {
                    level: notice_level_wire(level).spec_code(),
                    code,
                    message,
                },
                api::ApiEventView::Resync => wire::EventKindView::Resync,
            },
        ),
    }
}

/// The event a received message stands for; one with no alternative set, or
/// carrying a command that names nothing, is none.
pub open spec fn event_decoded(w: wire::EventView) -> Option<api::ApiEventView> {
    match w.kind {
        Some(wire::EventKindView::PlayerState { player }) => Some(api::ApiEventView::PlayerState {
            player: player_state_decoded(player),
        }),
        Some(wire::EventKindView::PlayerPosition { token, position_ms, at_ms, playing }) => Some(api::ApiEventView::PlayerPosition {
            token,
            position_ms,
            at_ms,
            playing,
        }),
        Some(wire::EventKindView::PlayerBuffered { token, ranges }) => Some(api::ApiEventView::PlayerBuffered {
            token,
            ranges: buffered_ranges_decoded(ranges),
        }),
        Some(wire::EventKindView::PlayerExternalCommand {
            command,
        }) => match command_decoded(command) {
            Some(inner) => Some(api::ApiEventView::PlayerExternalCommand { command: inner }),
            None => None,
        },
        Some(wire::EventKindView::QueueChanged { rev, length, index }) => Some(api::ApiEventView::QueueChanged {
            rev,
            length,
            index,
        }),
        Some(wire::EventKindView::LibraryInvalidated { table, generation }) => Some(api::ApiEventView::LibraryInvalidated {
            table: table_decoded(table),
            generation,
        }),
        Some(wire::EventKindView::JobProgress { progress }) => Some(api::ApiEventView::JobProgress {
            progress: job_progress_decoded(progress),
        }),
        Some(wire::EventKindView::JobFinished { id, kind, ok, error }) => Some(api::ApiEventView::JobFinished {
            id,
            kind: job_kind_decoded(kind),
            ok,
            error: error_body_opt_decoded(error),
        }),
        Some(wire::EventKindView::ConfigChanged { keys }) => Some(api::ApiEventView::ConfigChanged {
            keys,
        }),
        Some(wire::EventKindView::SourceStatus { source, state }) => Some(api::ApiEventView::SourceStatus {
            source,
            state: source_state_decoded(state),
        }),
        Some(wire::EventKindView::Notice { level, code, message }) => Some(api::ApiEventView::Notice {
            level: notice_level_decoded(level),
            code,
            message,
        }),
        Some(wire::EventKindView::Resync) => Some(api::ApiEventView::Resync),
        None => None,
    }
}

pub fn event_to_proto(value: &api::ApiEvent) -> (r: wire::Event)
    ensures
        r@ == event_wire(value@),
{
    let kind = match value {
        api::ApiEvent::PlayerState { player } => wire::EventKind::PlayerState {
            player: player_state_to_proto(player),
        },
        api::ApiEvent::PlayerPosition { token, position_ms, at_ms, playing } => wire::EventKind::PlayerPosition {
            token: *token,
            position_ms: *position_ms,
            at_ms: *at_ms,
            playing: *playing,
        },
        api::ApiEvent::PlayerBuffered { token, ranges } => wire::EventKind::PlayerBuffered {
            token: *token,
            ranges: buffered_ranges_to_proto(ranges),
        },
        api::ApiEvent::PlayerExternalCommand { command } => wire::EventKind::PlayerExternalCommand {
            command: command_to_proto(command),
        },
        api::ApiEvent::QueueChanged { rev, length, index } => wire::EventKind::QueueChanged {
            rev: *rev,
            length: *length,
            index: *index,
        },
        api::ApiEvent::LibraryInvalidated { table, generation } => wire::EventKind::LibraryInvalidated {
            table: table_to_proto(*table).code(),
            generation: *generation,
        },
        api::ApiEvent::JobProgress { progress } => wire::EventKind::JobProgress {
            progress: job_progress_to_proto(progress),
        },
        api::ApiEvent::JobFinished { id, kind, ok, error } => wire::EventKind::JobFinished {
            id: id.clone(),
            kind: job_kind_to_proto(*kind).code(),
            ok: *ok,
            error: error_body_opt_to_proto(error),
        },
        api::ApiEvent::ConfigChanged { keys } => wire::EventKind::ConfigChanged {
            keys: clone_strings(keys),
        },
        api::ApiEvent::SourceStatus { source, state } => wire::EventKind::SourceStatus {
            source: source.clone(),
            state: source_state_to_proto(*state).code(),
        },
        api::ApiEvent::Notice { level, code, message } => wire::EventKind::Notice {
            level: notice_level_to_proto(*level).code(),
            code: code.clone(),
            message: clone_opt_string(message),
        },
        api::ApiEvent::Resync => wire::EventKind::Resync,
    };
    wire::Event { kind: Some(kind) }
}

pub fn event_from_proto(value: &wire::Event) -> (r: Option<api::ApiEvent>)
    ensures
        r.deep_view() == event_decoded(value@),
{
    match &value.kind {
        Some(wire::EventKind::PlayerState { player }) => Some(api::ApiEvent::PlayerState {
            player: player_state_from_proto(player),
        }),
        Some(wire::EventKind::PlayerPosition { token, position_ms, at_ms, playing }) => Some(api::ApiEvent::PlayerPosition {
            token: *token,
            position_ms: *position_ms,
            at_ms: *at_ms,
            playing: *playing,
        }),
        Some(wire::EventKind::PlayerBuffered { token, ranges }) => Some(api::ApiEvent::PlayerBuffered {
            token: *token,
            ranges: buffered_ranges_from_proto(ranges),
        }),
        Some(wire::EventKind::PlayerExternalCommand {
            command,
        }) => match command_from_proto(command) {
            Some(inner) => Some(api::ApiEvent::PlayerExternalCommand { command: inner }),
            None => None,
        },
        Some(wire::EventKind::QueueChanged { rev, length, index }) => Some(api::ApiEvent::QueueChanged {
            rev: *rev,
            length: *length,
            index: *index,
        }),
        Some(wire::EventKind::LibraryInvalidated { table, generation }) => Some(api::ApiEvent::LibraryInvalidated {
            table: table_from_proto(*table),
            generation: *generation,
        }),
        Some(wire::EventKind::JobProgress { progress }) => Some(api::ApiEvent::JobProgress {
            progress: job_progress_from_proto(progress),
        }),
        Some(wire::EventKind::JobFinished { id, kind, ok, error }) => Some(api::ApiEvent::JobFinished {
            id: id.clone(),
            kind: job_kind_from_proto(*kind),
            ok: *ok,
            error: error_body_opt_from_proto(error),
        }),
        Some(wire::EventKind::ConfigChanged { keys }) => Some(api::ApiEvent::ConfigChanged {
            keys: clone_strings(keys),
        }),
        Some(wire::EventKind::SourceStatus { source, state }) => Some(api::ApiEvent::SourceStatus {
            source: source.clone(),
            state: source_state_from_proto(*state),
        }),
        Some(wire::EventKind::Notice { level, code, message }) => Some(api::ApiEvent::Notice {
            level: notice_level_from_proto(*level),
            code: code.clone(),
            message: clone_opt_string(message),
        }),
        Some(wire::EventKind::Resync) => Some(api::ApiEvent::Resync),
        None => None,
    }
}

/// Every value survives the wire: sent and read back, it is the value that
/// was sent.
pub proof fn lemma_event_round_trip(v: api::ApiEventView)
    ensures
        event_decoded(event_wire(v)) == Some(v),
{
    lemma_api_enums_round_trip();
    match v {
        api::ApiEventView::PlayerState { player } => {
            lemma_player_state_round_trip(player);
        },
        api::ApiEventView::PlayerPosition { .. } => {},
        api::ApiEventView::PlayerBuffered { ranges, .. } => {
            lemma_buffered_ranges_round_trip(ranges);
        },
        api::ApiEventView::PlayerExternalCommand { command } => {
            lemma_command_round_trip(command);
        },
        api::ApiEventView::QueueChanged { .. } => {},
        api::ApiEventView::LibraryInvalidated { .. } => {},
        api::ApiEventView::JobProgress { progress } => {
            lemma_job_progress_round_trip(progress);
        },
        api::ApiEventView::JobFinished { error, .. } => {
            lemma_error_body_opt_round_trip(error);
        },
        api::ApiEventView::ConfigChanged { .. } => {},
        api::ApiEventView::SourceStatus { .. } => {},
        api::ApiEventView::Notice { .. } => {},
        api::ApiEventView::Resync => {},
    }
}

/// Each alternative travels as the wire alternative of the same name.
pub proof fn lemma_event_alternatives_travel(v: api::ApiEventView)
    ensures
        event_wire(v).kind is Some,
        (v is PlayerState) == (event_wire(v).kind.unwrap() is PlayerState),
        (v is PlayerPosition) == (event_wire(v).kind.unwrap() is PlayerPosition),
        (v is PlayerBuffered) == (event_wire(v).kind.unwrap() is PlayerBuffered),
        (v is PlayerExternalCommand) == (event_wire(v).kind.unwrap() is PlayerExternalCommand),
        (v is QueueChanged) == (event_wire(v).kind.unwrap() is QueueChanged),
        (v is LibraryInvalidated) == (event_wire(v).kind.unwrap() is LibraryInvalidated),
        (v is JobProgress) == (event_wire(v).kind.unwrap() is JobProgress),
        (v is JobFinished) == (event_wire(v).kind.unwrap() is JobFinished),
        (v is ConfigChanged) == (event_wire(v).kind.unwrap() is ConfigChanged),
        (v is SourceStatus) == (event_wire(v).kind.unwrap() is SourceStatus),
        (v is Notice) == (event_wire(v).kind.unwrap() is Notice),
        (v is Resync) == (event_wire(v).kind.unwrap() is Resync),
{
}

} // verus!
