//! The API's enumerations on the wire: each value travels as its code, and
//! a received code reads back as the value it stands for. A code the receiver
//! does not know, or the unspecified code, reads as the enumeration's unknown
//! value where it has one, else as its fallback.

use vstd::prelude::*;

use crate::{api, status, wire};

verus! {

pub open spec fn phase_wire(value: api::Phase) -> wire::Phase {
    match value {
        api::Phase::Idle => wire::Phase::Idle,
        api::Phase::Playing => wire::Phase::Playing,
        api::Phase::Paused => wire::Phase::Paused,
        api::Phase::Ended => wire::Phase::Ended,
    }
}

/// The value a received code stands for; an unknown or unspecified code
/// reads as [`api::Phase::Idle`].
pub open spec fn phase_decoded(code: i32) -> api::Phase {
    match wire::Phase::spec_from_code(code) {
        Some(wire::Phase::Idle) => api::Phase::Idle,
        Some(wire::Phase::Playing) => api::Phase::Playing,
        Some(wire::Phase::Paused) => api::Phase::Paused,
        Some(wire::Phase::Ended) => api::Phase::Ended,
        _ => api::Phase::Idle,
    }
}

pub fn phase_to_proto(value: api::Phase) -> (r: wire::Phase)
    ensures
        r == phase_wire(value),
{
    match value {
        api::Phase::Idle => wire::Phase::Idle,
        api::Phase::Playing => wire::Phase::Playing,
        api::Phase::Paused => wire::Phase::Paused,
        api::Phase::Ended => wire::Phase::Ended,
    }
}

pub fn phase_from_proto(value: i32) -> (r: api::Phase)
    ensures
        r == phase_decoded(value),
{
    match wire::Phase::try_from_code(value).unwrap_or(wire::Phase::Unspecified) {
        wire::Phase::Idle => api::Phase::Idle,
        wire::Phase::Playing => api::Phase::Playing,
        wire::Phase::Paused => api::Phase::Paused,
        wire::Phase::Ended => api::Phase::Ended,
        wire::Phase::Unspecified => api::Phase::Idle,
    }
}

pub open spec fn loop_wire(value: api::LoopMode) -> wire::LoopMode {
    match value {
        api::LoopMode::Off => wire::LoopMode::Off,
        api::LoopMode::Queue => wire::LoopMode::Queue,
        api::LoopMode::Track => wire::LoopMode::Track,
    }
}

/// The value a received code stands for; an unknown or unspecified code
/// reads as [`api::LoopMode::Off`].
pub open spec fn loop_decoded(code: i32) -> api::LoopMode {
    match wire::LoopMode::spec_from_code(code) {
        Some(wire::LoopMode::Off) => api::LoopMode::Off,
        Some(wire::LoopMode::Queue) => api::LoopMode::Queue,
        Some(wire::LoopMode::Track) => api::LoopMode::Track,
        _ => api::LoopMode::Off,
    }
}

pub fn loop_to_proto(value: api::LoopMode) -> (r: wire::LoopMode)
    ensures
        r == loop_wire(value),
{
    match value {
        api::LoopMode::Off => wire::LoopMode::Off,
        api::LoopMode::Queue => wire::LoopMode::Queue,
        api::LoopMode::Track => wire::LoopMode::Track,
    }
}

pub fn loop_from_proto(value: i32) -> (r: api::LoopMode)
    ensures
        r == loop_decoded(value),
{
    match wire::LoopMode::try_from_code(value).unwrap_or(wire::LoopMode::Unspecified) {
        wire::LoopMode::Off => api::LoopMode::Off,
        wire::LoopMode::Queue => api::LoopMode::Queue,
        wire::LoopMode::Track => api::LoopMode::Track,
        wire::LoopMode::Unspecified => api::LoopMode::Off,
    }
}

pub open spec fn track_kind_wire(value: api::TrackKind) -> wire::TrackKind {
    match value {
        api::TrackKind::Normal => wire::TrackKind::Normal,
        api::TrackKind::Radio => wire::TrackKind::Radio,
    }
}

/// The value a received code stands for; an unknown or unspecified code
/// reads as [`api::TrackKind::Normal`].
pub open spec fn track_kind_decoded(code: i32) -> api::TrackKind {
    match wire::TrackKind::spec_from_code(code) {
        Some(wire::TrackKind::Normal) => api::TrackKind::Normal,
        Some(wire::TrackKind::Radio) => api::TrackKind::Radio,
        _ => api::TrackKind::Normal,
    }
}

pub fn track_kind_to_proto(value: api::TrackKind) -> (r: wire::TrackKind)
    ensures
        r == track_kind_wire(value),
{
    match value {
        api::TrackKind::Normal => wire::TrackKind::Normal,
        api::TrackKind::Radio => wire::TrackKind::Radio,
    }
}

pub fn track_kind_from_proto(value: i32) -> (r: api::TrackKind)
    ensures
        r == track_kind_decoded(value),
{
    match wire::TrackKind::try_from_code(value).unwrap_or(wire::TrackKind::Unspecified) {
        wire::TrackKind::Normal => api::TrackKind::Normal,
        wire::TrackKind::Radio => api::TrackKind::Radio,
        wire::TrackKind::Unspecified => api::TrackKind::Normal,
    }
}

pub open spec fn queue_mode_wire(value: api::QueueMode) -> wire::QueueMode {
    match value {
        api::QueueMode::Replace => wire::QueueMode::Replace,
        api::QueueMode::Append => wire::QueueMode::Append,
        api::QueueMode::PlayNext => wire::QueueMode::PlayNext,
    }
}

/// The value a received code stands for; an unknown or unspecified code
/// reads as [`api::QueueMode::Replace`].
pub open spec fn queue_mode_decoded(code: i32) -> api::QueueMode {
    match wire::QueueMode::spec_from_code(code) {
        Some(wire::QueueMode::Replace) => api::QueueMode::Replace,
        Some(wire::QueueMode::Append) => api::QueueMode::Append,
        Some(wire::QueueMode::PlayNext) => api::QueueMode::PlayNext,
        _ => api::QueueMode::Replace,
    }
}

pub fn queue_mode_to_proto(value: api::QueueMode) -> (r: wire::QueueMode)
    ensures
        r == queue_mode_wire(value),
{
    match value {
        api::QueueMode::Replace => wire::QueueMode::Replace,
        api::QueueMode::Append => wire::QueueMode::Append,
        api::QueueMode::PlayNext => wire::QueueMode::PlayNext,
    }
}

pub fn queue_mode_from_proto(value: i32) -> (r: api::QueueMode)
    ensures
        r == queue_mode_decoded(value),
{
    match wire::QueueMode::try_from_code(value).unwrap_or(wire::QueueMode::Unspecified) {
        wire::QueueMode::Replace => api::QueueMode::Replace,
        wire::QueueMode::Append => api::QueueMode::Append,
        wire::QueueMode::PlayNext => api::QueueMode::PlayNext,
        wire::QueueMode::Unspecified => api::QueueMode::Replace,
    }
}

pub open spec fn table_wire(value: api::Table) -> wire::Table {
    match value {
        api::Table::Tracks => wire::Table::Tracks,
        api::Table::Albums => wire::Table::Albums,
        api::Table::Playlists => wire::Table::Playlists,
        api::Table::Favorites => wire::Table::Favorites,
        api::Table::Folders => wire::Table::Folders,
        api::Table::Servers => wire::Table::Servers,
        api::Table::Recents => wire::Table::Recents,
        api::Table::Unknown => wire::Table::Unspecified,
    }
}

/// The value a received code stands for; an unknown or unspecified code
/// reads as [`api::Table::Unknown`].
pub open spec fn table_decoded(code: i32) -> api::Table {
    match wire::Table::spec_from_code(code) {
        Some(wire::Table::Tracks) => api::Table::Tracks,
        Some(wire::Table::Albums) => api::Table::Albums,
        Some(wire::Table::Playlists) => api::Table::Playlists,
        Some(wire::Table::Favorites) => api::Table::Favorites,
        Some(wire::Table::Folders) => api::Table::Folders,
        Some(wire::Table::Servers) => api::Table::Servers,
        Some(wire::Table::Recents) => api::Table::Recents,
        _ => api::Table::Unknown,
    }
}

pub fn table_to_proto(value: api::Table) -> (r: wire::Table)
    ensures
        r == table_wire(value),
{
    match value {
        api::Table::Tracks => wire::Table::Tracks,
        api::Table::Albums => wire::Table::Albums,
        api::Table::Playlists => wire::Table::Playlists,
        api::Table::Favorites => wire::Table::Favorites,
        api::Table::Folders => wire::Table::Folders,
        api::Table::Servers => wire::Table::Servers,
        api::Table::Recents => wire::Table::Recents,
        api::Table::Unknown => wire::Table::Unspecified,
    }
}

pub fn table_from_proto(value: i32) -> (r: api::Table)
    ensures
        r == table_decoded(value),
{
    match wire::Table::try_from_code(value).unwrap_or(wire::Table::Unspecified) {
        wire::Table::Tracks => api::Table::Tracks,
        wire::Table::Albums => api::Table::Albums,
        wire::Table::Playlists => api::Table::Playlists,
        wire::Table::Favorites => api::Table::Favorites,
        wire::Table::Folders => api::Table::Folders,
        wire::Table::Servers => api::Table::Servers,
        wire::Table::Recents => api::Table::Recents,
        wire::Table::Unspecified => api::Table::Unknown,
    }
}

pub open spec fn job_kind_wire(value: api::JobKind) -> wire::JobKind {
    match value {
        api::JobKind::Scan => wire::JobKind::Scan,
        api::JobKind::LibrarySync => wire::JobKind::LibrarySync,
        api::JobKind::FavoritesSync => wire::JobKind::FavoritesSync,
        api::JobKind::PlaylistSync => wire::JobKind::PlaylistSync,
        api::JobKind::Download => wire::JobKind::Download,
        api::JobKind::Unknown => wire::JobKind::Unspecified,
    }
}

/// The value a received code stands for; an unknown or unspecified code
/// reads as [`api::JobKind::Unknown`].
pub open spec fn job_kind_decoded(code: i32) -> api::JobKind {
    match wire::JobKind::spec_from_code(code) {
        Some(wire::JobKind::Scan) => api::JobKind::Scan,
        Some(wire::JobKind::LibrarySync) => api::JobKind::LibrarySync,
        Some(wire::JobKind::FavoritesSync) => api::JobKind::FavoritesSync,
        Some(wire::JobKind::PlaylistSync) => api::JobKind::PlaylistSync,
        Some(wire::JobKind::Download) => api::JobKind::Download,
        _ => api::JobKind::Unknown,
    }
}

pub fn job_kind_to_proto(value: api::JobKind) -> (r: wire::JobKind)
    ensures
        r == job_kind_wire(value),
{
    match value {
        api::JobKind::Scan => wire::JobKind::Scan,
        api::JobKind::LibrarySync => wire::JobKind::LibrarySync,
        api::JobKind::FavoritesSync => wire::JobKind::FavoritesSync,
        api::JobKind::PlaylistSync => wire::JobKind::PlaylistSync,
        api::JobKind::Download => wire::JobKind::Download,
        api::JobKind::Unknown => wire::JobKind::Unspecified,
    }
}

pub fn job_kind_from_proto(value: i32) -> (r: api::JobKind)
    ensures
        r == job_kind_decoded(value),
{
    match wire::JobKind::try_from_code(value).unwrap_or(wire::JobKind::Unspecified) {
        wire::JobKind::Scan => api::JobKind::Scan,
        wire::JobKind::LibrarySync => api::JobKind::LibrarySync,
        wire::JobKind::FavoritesSync => api::JobKind::FavoritesSync,
        wire::JobKind::PlaylistSync => api::JobKind::PlaylistSync,
        wire::JobKind::Download => api::JobKind::Download,
        wire::JobKind::Unspecified => api::JobKind::Unknown,
    }
}

pub open spec fn job_state_wire(value: api::JobState) -> wire::JobState {
    match value {
        api::JobState::Running => wire::JobState::Running,
        api::JobState::Finished => wire::JobState::Finished,
        api::JobState::Failed => wire::JobState::Failed,
        api::JobState::Cancelled => wire::JobState::Cancelled,
        api::JobState::Unknown => wire::JobState::Unspecified,
    }
}

/// The value a received code stands for; an unknown or unspecified code
/// reads as [`api::JobState::Unknown`].
pub open spec fn job_state_decoded(code: i32) -> api::JobState {
    match wire::JobState::spec_from_code(code) {
        Some(wire::JobState::Running) => api::JobState::Running,
        Some(wire::JobState::Finished) => api::JobState::Finished,
        Some(wire::JobState::Failed) => api::JobState::Failed,
        Some(wire::JobState::Cancelled) => api::JobState::Cancelled,
        _ => api::JobState::Unknown,
    }
}

pub fn job_state_to_proto(value: api::JobState) -> (r: wire::JobState)
    ensures
        r == job_state_wire(value),
{
    match value {
        api::JobState::Running => wire::JobState::Running,
        api::JobState::Finished => wire::JobState::Finished,
        api::JobState::Failed => wire::JobState::Failed,
        api::JobState::Cancelled => wire::JobState::Cancelled,
        api::JobState::Unknown => wire::JobState::Unspecified,
    }
}

pub fn job_state_from_proto(value: i32) -> (r: api::JobState)
    ensures
        r == job_state_decoded(value),
{
    match wire::JobState::try_from_code(value).unwrap_or(wire::JobState::Unspecified) {
        wire::JobState::Running => api::JobState::Running,
        wire::JobState::Finished => api::JobState::Finished,
        wire::JobState::Failed => api::JobState::Failed,
        wire::JobState::Cancelled => api::JobState::Cancelled,
        wire::JobState::Unspecified => api::JobState::Unknown,
    }
}

pub open spec fn source_state_wire(value: api::SourceState) -> wire::SourceState {
    match value {
        api::SourceState::Online => wire::SourceState::Online,
        api::SourceState::AuthExpired => wire::SourceState::AuthExpired,
        api::SourceState::Offline => wire::SourceState::Offline,
    }
}

/// The value a received code stands for; an unknown or unspecified code
/// reads as [`api::SourceState::Offline`].
pub open spec fn source_state_decoded(code: i32) -> api::SourceState {
    match wire::SourceState::spec_from_code(code) {
        Some(wire::SourceState::Online) => api::SourceState::Online,
        Some(wire::SourceState::AuthExpired) => api::SourceState::AuthExpired,
        Some(wire::SourceState::Offline) => api::SourceState::Offline,
        _ => api::SourceState::Offline,
    }
}

pub fn source_state_to_proto(value: api::SourceState) -> (r: wire::SourceState)
    ensures
        r == source_state_wire(value),
{
    match value {
        api::SourceState::Online => wire::SourceState::Online,
        api::SourceState::AuthExpired => wire::SourceState::AuthExpired,
        api::SourceState::Offline => wire::SourceState::Offline,
    }
}

pub fn source_state_from_proto(value: i32) -> (r: api::SourceState)
    ensures
        r == source_state_decoded(value),
{
    match wire::SourceState::try_from_code(value).unwrap_or(wire::SourceState::Unspecified) {
        wire::SourceState::Online => api::SourceState::Online,
        wire::SourceState::AuthExpired => api::SourceState::AuthExpired,
        wire::SourceState::Offline => api::SourceState::Offline,
        wire::SourceState::Unspecified => api::SourceState::Offline,
    }
}

pub open spec fn notice_level_wire(value: api::NoticeLevel) -> wire::NoticeLevel {
    match value {
        api::NoticeLevel::Info => wire::NoticeLevel::Info,
        api::NoticeLevel::Warning => wire::NoticeLevel::Warning,
        api::NoticeLevel::Error => wire::NoticeLevel::Error,
        api::NoticeLevel::Unknown => wire::NoticeLevel::Unspecified,
    }
}

/// The value a received code stands for; an unknown or unspecified code
/// reads as [`api::NoticeLevel::Unknown`].
pub open spec fn notice_level_decoded(code: i32) -> api::NoticeLevel {
    match wire::NoticeLevel::spec_from_code(code) {
        Some(wire::NoticeLevel::Info) => api::NoticeLevel::Info,
        Some(wire::NoticeLevel::Warning) => api::NoticeLevel::Warning,
        Some(wire::NoticeLevel::Error) => api::NoticeLevel::Error,
        _ => api::NoticeLevel::Unknown,
    }
}

pub fn notice_level_to_proto(value: api::NoticeLevel) -> (r: wire::NoticeLevel)
    ensures
        r == notice_level_wire(value),
{
    match value {
        api::NoticeLevel::Info => wire::NoticeLevel::Info,
        api::NoticeLevel::Warning => wire::NoticeLevel::Warning,
        api::NoticeLevel::Error => wire::NoticeLevel::Error,
        api::NoticeLevel::Unknown => wire::NoticeLevel::Unspecified,
    }
}

pub fn notice_level_from_proto(value: i32) -> (r: api::NoticeLevel)
    ensures
        r == notice_level_decoded(value),
{
    match wire::NoticeLevel::try_from_code(value).unwrap_or(wire::NoticeLevel::Unspecified) {
        wire::NoticeLevel::Info => api::NoticeLevel::Info,
        wire::NoticeLevel::Warning => api::NoticeLevel::Warning,
        wire::NoticeLevel::Error => api::NoticeLevel::Error,
        wire::NoticeLevel::Unspecified => api::NoticeLevel::Unknown,
    }
}

pub open spec fn error_code_wire(value: status::ErrorCode) -> wire::ErrorCode {
    match value {
        status::ErrorCode::InvalidInput => wire::ErrorCode::InvalidInput,
        status::ErrorCode::NotFound => wire::ErrorCode::NotFound,
        status::ErrorCode::Conflict => wire::ErrorCode::Conflict,
        status::ErrorCode::SourceAuthExpired => wire::ErrorCode::SourceAuthExpired,
        status::ErrorCode::SourceUnreachable => wire::ErrorCode::SourceUnreachable,
        status::ErrorCode::DaemonGone => wire::ErrorCode::DaemonGone,
        status::ErrorCode::Unsupported => wire::ErrorCode::Unsupported,
        status::ErrorCode::Internal => wire::ErrorCode::Internal,
    }
}

/// The value a received code stands for; an unknown or unspecified code
/// reads as [`status::ErrorCode::Internal`].
pub open spec fn error_code_decoded(code: i32) -> status::ErrorCode {
    match wire::ErrorCode::spec_from_code(code) {
        Some(wire::ErrorCode::InvalidInput) => status::ErrorCode::InvalidInput,
        Some(wire::ErrorCode::NotFound) => status::ErrorCode::NotFound,
        Some(wire::ErrorCode::Conflict) => status::ErrorCode::Conflict,
        Some(wire::ErrorCode::SourceAuthExpired) => status::ErrorCode::SourceAuthExpired,
        Some(wire::ErrorCode::SourceUnreachable) => status::ErrorCode::SourceUnreachable,
        Some(wire::ErrorCode::DaemonGone) => status::ErrorCode::DaemonGone,
        Some(wire::ErrorCode::Unsupported) => status::ErrorCode::Unsupported,
        Some(wire::ErrorCode::Internal) => status::ErrorCode::Internal,
        _ => status::ErrorCode::Internal,
    }
}

pub fn error_code_to_proto(value: status::ErrorCode) -> (r: wire::ErrorCode)
    ensures
        r == error_code_wire(value),
{
    match value {
        status::ErrorCode::InvalidInput => wire::ErrorCode::InvalidInput,
        status::ErrorCode::NotFound => wire::ErrorCode::NotFound,
        status::ErrorCode::Conflict => wire::ErrorCode::Conflict,
        status::ErrorCode::SourceAuthExpired => wire::ErrorCode::SourceAuthExpired,
        status::ErrorCode::SourceUnreachable => wire::ErrorCode::SourceUnreachable,
        status::ErrorCode::DaemonGone => wire::ErrorCode::DaemonGone,
        status::ErrorCode::Unsupported => wire::ErrorCode::Unsupported,
        status::ErrorCode::Internal => wire::ErrorCode::Internal,
    }
}

pub fn error_code_from_proto(value: i32) -> (r: status::ErrorCode)
    ensures
        r == error_code_decoded(value),
{
    match wire::ErrorCode::try_from_code(value).unwrap_or(wire::ErrorCode::Unspecified) {
        wire::ErrorCode::InvalidInput => status::ErrorCode::InvalidInput,
        wire::ErrorCode::NotFound => status::ErrorCode::NotFound,
        wire::ErrorCode::Conflict => status::ErrorCode::Conflict,
        wire::ErrorCode::SourceAuthExpired => status::ErrorCode::SourceAuthExpired,
        wire::ErrorCode::SourceUnreachable => status::ErrorCode::SourceUnreachable,
        wire::ErrorCode::DaemonGone => status::ErrorCode::DaemonGone,
        wire::ErrorCode::Unsupported => status::ErrorCode::Unsupported,
        wire::ErrorCode::Internal => status::ErrorCode::Internal,
        wire::ErrorCode::Unspecified => status::ErrorCode::Internal,
    }
}

/// An error as a job or an event reports it: its code and its message.
#[derive(Clone, Debug, PartialEq, Eq)]
pub struct ErrorBody {
    pub code: status::ErrorCode,
    pub message: String,
}

/// The mathematical value of an [`ErrorBody`].
pub struct ErrorBodyView {
    pub code: status::ErrorCode,
    pub message: Seq<char>,
}

impl View for ErrorBody {
    type V = ErrorBodyView;

    open spec fn view(&self) -> ErrorBodyView {
        ErrorBodyView { code: self.code, message: self.message@ }
    }
}

impl DeepView for ErrorBody {
    type V = ErrorBodyView;

    open spec fn deep_view(&self) -> ErrorBodyView {
        self.view()
    }
}

pub open spec fn error_body_wire(value: ErrorBodyView) -> wire::ErrorBodyView {
    wire::ErrorBodyView { code: error_code_wire(value.code).spec_code(), message: value.message }
}

/// The error a received body stands for; an unknown code reads as internal.
pub open spec fn error_body_decoded(value: wire::ErrorBodyView) -> ErrorBodyView {
    ErrorBodyView { code: error_code_decoded(value.code), message: value.message }
}

pub fn error_body_to_proto(value: &ErrorBody) -> (r: wire::ErrorBody)
    ensures
        r@ == error_body_wire(value@),
{
    wire::ErrorBody { code: error_code_to_proto(value.code).code(), message: value.message.clone() }
}

pub fn error_body_from_proto(value: &wire::ErrorBody) -> (r: ErrorBody)
    ensures
        r@ == error_body_decoded(value@),
{
    ErrorBody { code: error_code_from_proto(value.code), message: value.message.clone() }
}

/// An error body survives the wire: sent and read back, it is the body that was sent.
pub proof fn lemma_error_body_round_trip(value: ErrorBodyView)
    ensures
        error_body_decoded(error_body_wire(value)) == value,
{
    lemma_api_enums_round_trip();
}

/// Every value survives the wire: sent as its code and read back, it is the
/// value that was sent (an unknown value travels as the unspecified code,
/// which reads back as unknown).
pub proof fn lemma_api_enums_round_trip()
    ensures
        forall|v: api::Phase| #[trigger] phase_decoded(phase_wire(v).spec_code()) == v,
        forall|v: api::LoopMode| #[trigger] loop_decoded(loop_wire(v).spec_code()) == v,
        forall|v: api::TrackKind| #[trigger] track_kind_decoded(track_kind_wire(v).spec_code()) == v,
        forall|v: api::QueueMode| #[trigger] queue_mode_decoded(queue_mode_wire(v).spec_code()) == v,
        forall|v: api::Table| #[trigger] table_decoded(table_wire(v).spec_code()) == v,
        forall|v: api::JobKind| #[trigger] job_kind_decoded(job_kind_wire(v).spec_code()) == v,
        forall|v: api::JobState| #[trigger] job_state_decoded(job_state_wire(v).spec_code()) == v,
        forall|v: api::SourceState| #[trigger] source_state_decoded(source_state_wire(v).spec_code()) == v,
        forall|v: api::NoticeLevel| #[trigger] notice_level_decoded(notice_level_wire(v).spec_code()) == v,
        forall|v: status::ErrorCode| #[trigger] error_code_decoded(error_code_wire(v).spec_code()) == v,
{
}

/// The unspecified code 0, and any code the receiver does not know, read as
/// the unknown value or the fallback rather than as an error.
pub proof fn lemma_unknown_api_codes_fall_back(code: i32)
    ensures
        (code <= 0 || code > 4) ==> phase_decoded(code) == api::Phase::Idle,
        (code <= 0 || code > 3) ==> loop_decoded(code) == api::LoopMode::Off,
        (code <= 0 || code > 2) ==> track_kind_decoded(code) == api::TrackKind::Normal,
        (code <= 0 || code > 3) ==> queue_mode_decoded(code) == api::QueueMode::Replace,
        (code <= 0 || code > 7) ==> table_decoded(code) == api::Table::Unknown,
        (code <= 0 || code > 5) ==> job_kind_decoded(code) == api::JobKind::Unknown,
        (code <= 0 || code > 4) ==> job_state_decoded(code) == api::JobState::Unknown,
        (code <= 0 || code > 3) ==> source_state_decoded(code) == api::SourceState::Offline,
        (code <= 0 || code > 3) ==> notice_level_decoded(code) == api::NoticeLevel::Unknown,
        (code <= 0 || code > 8) ==> error_code_decoded(code) == status::ErrorCode::Internal,
{
}

/// Each value travels as the wire value of the same name, whose code is its
/// place in the declaration counted from 1, and that code reads back as the
/// value of the same name; a value the wire has no name for travels as the
/// unspecified code 0.
pub proof fn lemma_api_enums_travel_by_name()
    ensures
        phase_wire(api::Phase::Idle).spec_code() == 1,
        phase_decoded(1) == api::Phase::Idle,
        phase_wire(api::Phase::Playing).spec_code() == 2,
        phase_decoded(2) == api::Phase::Playing,
        phase_wire(api::Phase::Paused).spec_code() == 3,
        phase_decoded(3) == api::Phase::Paused,
        phase_wire(api::Phase::Ended).spec_code() == 4,
        phase_decoded(4) == api::Phase::Ended,
        loop_wire(api::LoopMode::Off).spec_code() == 1,
        loop_decoded(1) == api::LoopMode::Off,
        loop_wire(api::LoopMode::Queue).spec_code() == 2,
        loop_decoded(2) == api::LoopMode::Queue,
        loop_wire(api::LoopMode::Track).spec_code() == 3,
        loop_decoded(3) == api::LoopMode::Track,
        track_kind_wire(api::TrackKind::Normal).spec_code() == 1,
        track_kind_decoded(1) == api::TrackKind::Normal,
        track_kind_wire(api::TrackKind::Radio).spec_code() == 2,
        track_kind_decoded(2) == api::TrackKind::Radio,
        queue_mode_wire(api::QueueMode::Replace).spec_code() == 1,
        queue_mode_decoded(1) == api::QueueMode::Replace,
        queue_mode_wire(api::QueueMode::Append).spec_code() == 2,
        queue_mode_decoded(2) == api::QueueMode::Append,
        queue_mode_wire(api::QueueMode::PlayNext).spec_code() == 3,
        queue_mode_decoded(3) == api::QueueMode::PlayNext,
        table_wire(api::Table::Tracks).spec_code() == 1,
        table_decoded(1) == api::Table::Tracks,
        table_wire(api::Table::Albums).spec_code() == 2,
        table_decoded(2) == api::Table::Albums,
        table_wire(api::Table::Playlists).spec_code() == 3,
        table_decoded(3) == api::Table::Playlists,
        table_wire(api::Table::Favorites).spec_code() == 4,
        table_decoded(4) == api::Table::Favorites,
        table_wire(api::Table::Folders).spec_code() == 5,
        table_decoded(5) == api::Table::Folders,
        table_wire(api::Table::Servers).spec_code() == 6,
        table_decoded(6) == api::Table::Servers,
        table_wire(api::Table::Recents).spec_code() == 7,
        table_decoded(7) == api::Table::Recents,
        table_wire(api::Table::Unknown).spec_code() == 0,
        job_kind_wire(api::JobKind::Scan).spec_code() == 1,
        job_kind_decoded(1) == api::JobKind::Scan,
        job_kind_wire(api::JobKind::LibrarySync).spec_code() == 2,
        job_kind_decoded(2) == api::JobKind::LibrarySync,
        job_kind_wire(api::JobKind::FavoritesSync).spec_code() == 3,
        job_kind_decoded(3) == api::JobKind::FavoritesSync,
        job_kind_wire(api::JobKind::PlaylistSync).spec_code() == 4,
        job_kind_decoded(4) == api::JobKind::PlaylistSync,
        job_kind_wire(api::JobKind::Download).spec_code() == 5,
        job_kind_decoded(5) == api::JobKind::Download,
        job_kind_wire(api::JobKind::Unknown).spec_code() == 0,
        job_state_wire(api::JobState::Running).spec_code() == 1,
        job_state_decoded(1) == api::JobState::Running,
        job_state_wire(api::JobState::Finished).spec_code() == 2,
        job_state_decoded(2) == api::JobState::Finished,
        job_state_wire(api::JobState::Failed).spec_code() == 3,
        job_state_decoded(3) == api::JobState::Failed,
        job_state_wire(api::JobState::Cancelled).spec_code() == 4,
        job_state_decoded(4) == api::JobState::Cancelled,
        job_state_wire(api::JobState::Unknown).spec_code() == 0,
        source_state_wire(api::SourceState::Online).spec_code() == 1,
        source_state_decoded(1) == api::SourceState::Online,
        source_state_wire(api::SourceState::AuthExpired).spec_code() == 2,
        source_state_decoded(2) == api::SourceState::AuthExpired,
        source_state_wire(api::SourceState::Offline).spec_code() == 3,
        source_state_decoded(3) == api::SourceState::Offline,
        notice_level_wire(api::NoticeLevel::Info).spec_code() == 1,
        notice_level_decoded(1) == api::NoticeLevel::Info,
        notice_level_wire(api::NoticeLevel::Warning).spec_code() == 2,
        notice_level_decoded(2) == api::NoticeLevel::Warning,
        notice_level_wire(api::NoticeLevel::Error).spec_code() == 3,
        notice_level_decoded(3) == api::NoticeLevel::Error,
        notice_level_wire(api::NoticeLevel::Unknown).spec_code() == 0,
        error_code_wire(status::ErrorCode::InvalidInput).spec_code() == 1,
        error_code_decoded(1) == status::ErrorCode::InvalidInput,
        error_code_wire(status::ErrorCode::NotFound).spec_code() == 2,
        error_code_decoded(2) == status::ErrorCode::NotFound,
        error_code_wire(status::ErrorCode::Conflict).spec_code() == 3,
        error_code_decoded(3) == status::ErrorCode::Conflict,
        error_code_wire(status::ErrorCode::SourceAuthExpired).spec_code() == 4,
        error_code_decoded(4) == status::ErrorCode::SourceAuthExpired,
        error_code_wire(status::ErrorCode::SourceUnreachable).spec_code() == 5,
        error_code_decoded(5) == status::ErrorCode::SourceUnreachable,
        error_code_wire(status::ErrorCode::DaemonGone).spec_code() == 6,
        error_code_decoded(6) == status::ErrorCode::DaemonGone,
        error_code_wire(status::ErrorCode::Unsupported).spec_code() == 7,
        error_code_decoded(7) == status::ErrorCode::Unsupported,
        error_code_wire(status::ErrorCode::Internal).spec_code() == 8,
        error_code_decoded(8) == status::ErrorCode::Internal,
{
}

} // verus!
