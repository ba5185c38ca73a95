use kopuz::api::{JobKind, JobState, LoopMode, NoticeLevel, Phase, QueueMode, SourceState, Table, TrackKind};
use kopuz::enums::{
    error_body_from_proto, error_body_to_proto, error_code_from_proto, error_code_to_proto,
    job_kind_from_proto, job_kind_to_proto, job_state_from_proto, job_state_to_proto,
    loop_from_proto, loop_to_proto, notice_level_from_proto, notice_level_to_proto,
    phase_from_proto, phase_to_proto, queue_mode_from_proto, queue_mode_to_proto,
    source_state_from_proto, source_state_to_proto, table_from_proto, table_to_proto,
    track_kind_from_proto, track_kind_to_proto, ErrorBody,
};
use kopuz::status::ErrorCode;

#[test]
fn enums_unspecified_status_values_are_unknown() {
    assert_eq!(job_state_from_proto(0), JobState::Unknown);
    assert_eq!(notice_level_from_proto(0), NoticeLevel::Unknown);
}

#[test]
fn lib_unspecified_status_values_are_unknown() {
    assert_eq!(job_state_from_proto(0), JobState::Unknown);
    assert_eq!(notice_level_from_proto(0), NoticeLevel::Unknown);
}

#[test]
fn every_api_value_survives_the_wire() {
    for v in [Phase::Idle, Phase::Playing, Phase::Paused, Phase::Ended] {
        assert_eq!(phase_from_proto(phase_to_proto(v).code()), v);
    }
    for v in [LoopMode::Off, LoopMode::Queue, LoopMode::Track] {
        assert_eq!(loop_from_proto(loop_to_proto(v).code()), v);
    }
    for v in [TrackKind::Normal, TrackKind::Radio] {
        assert_eq!(track_kind_from_proto(track_kind_to_proto(v).code()), v);
    }
    for v in [QueueMode::Replace, QueueMode::Append, QueueMode::PlayNext] {
        assert_eq!(queue_mode_from_proto(queue_mode_to_proto(v).code()), v);
    }
    for v in [
        Table::Tracks, Table::Albums, Table::Playlists, Table::Favorites,
        Table::Folders, Table::Servers, Table::Recents, Table::Unknown,
    ] {
        assert_eq!(table_from_proto(table_to_proto(v).code()), v);
    }
    for v in [
        JobKind::Scan, JobKind::LibrarySync, JobKind::FavoritesSync,
        JobKind::PlaylistSync, JobKind::Download, JobKind::Unknown,
    ] {
        assert_eq!(job_kind_from_proto(job_kind_to_proto(v).code()), v);
    }
    for v in [JobState::Running, JobState::Finished, JobState::Failed, JobState::Cancelled, JobState::Unknown] {
        assert_eq!(job_state_from_proto(job_state_to_proto(v).code()), v);
    }
    for v in [SourceState::Online, SourceState::AuthExpired, SourceState::Offline] {
        assert_eq!(source_state_from_proto(source_state_to_proto(v).code()), v);
    }
    for v in [NoticeLevel::Info, NoticeLevel::Warning, NoticeLevel::Error, NoticeLevel::Unknown] {
        assert_eq!(notice_level_from_proto(notice_level_to_proto(v).code()), v);
    }
    for v in [
        ErrorCode::InvalidInput, ErrorCode::NotFound, ErrorCode::Conflict,
        ErrorCode::SourceAuthExpired, ErrorCode::SourceUnreachable, ErrorCode::DaemonGone,
        ErrorCode::Unsupported, ErrorCode::Internal,
    ] {
        assert_eq!(error_code_from_proto(error_code_to_proto(v).code()), v);
    }
}

#[test]
fn unknown_codes_read_as_the_fallbacks() {
    assert_eq!(phase_from_proto(0), Phase::Idle);
    assert_eq!(loop_from_proto(77), LoopMode::Off);
    assert_eq!(queue_mode_from_proto(-3), QueueMode::Replace);
    assert_eq!(source_state_from_proto(0), SourceState::Offline);
    assert_eq!(table_from_proto(99), Table::Unknown);
    assert_eq!(error_code_from_proto(0), ErrorCode::Internal);
    assert_eq!(table_to_proto(Table::Unknown).code(), 0);
}

#[test]
fn error_bodies_survive_the_wire() {
    let body = ErrorBody { code: ErrorCode::SourceAuthExpired, message: "log in again".into() };
    let back = error_body_from_proto(&error_body_to_proto(&body));
    assert_eq!(back, body);
}
