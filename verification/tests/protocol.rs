use kopuz::api::{
    ApiEvent, ArtworkEntity, ArtworkRequest, ArtworkTarget, ArtworkUpload, BufferedRange, ExternalPlayback,
    ExternalPlaybackLease, ExternalPlaybackReport, FadingState, FavoritesView, Intent, JobKind, JobProgress, JobState,
    JobStatus, LoopMode, LyricChunkView, LyricLineView, LyricsView, NoticeLevel, NowPlaying, Page, Phase, PlayerCommand,
    PlayerState, PlaylistCatalog, PlaylistFolderInfo, PlaylistInfo, PositionAnchor, QueueContext, QueueEdit, QueueItem,
    QueueMode, QueuePersistenceSnapshot, QueueSummary, QueueWindow, RadioRegistryInfo, RadioStationInfo, RadioStreamInfo,
    SetQueueRequest, SourceState, StatsView, Table, TrackFilter, TrackInfo, TrackKind, TrackMetadataPatch, TrackPage,
};
use kopuz::enums::ErrorBody;
use kopuz::protocol::artwork::{
    artwork_request_from_proto, artwork_request_to_proto, artwork_upload_from_proto, artwork_upload_to_proto,
    metadata_patch_from_proto, metadata_patch_to_proto, remove_artwork_from_proto, remove_artwork_to_proto,
};
use kopuz::protocol::events::{event_from_proto, event_to_proto};
use kopuz::protocol::library::{
    lyrics_from_proto, lyrics_to_proto, page_from_proto, page_to_proto, stats_from_proto, stats_to_proto,
    track_filter_from_proto, track_filter_to_proto, track_info_from_proto, track_info_to_proto, track_page_from_proto,
    track_page_to_proto, DEFAULT_PAGE_LIMIT,
};
use kopuz::protocol::player::{
    command_from_proto, command_to_proto, external_lease_from_proto, external_lease_to_proto,
    external_playback_from_proto, external_playback_to_proto, external_report_from_proto, external_report_to_proto,
    intent_from_proto, now_playing_from_proto, now_playing_to_proto, player_state_from_proto, player_state_to_proto,
    queue_summary_from_proto,
};
use kopuz::protocol::playlists::{playlist_catalog_from_proto, playlist_catalog_to_proto};
use kopuz::protocol::queue::{
    queue_edit_from_proto, queue_edit_to_proto, queue_persistence_snapshot_from_proto,
    queue_persistence_snapshot_to_proto, queue_window_from_proto, queue_window_to_proto, set_queue_from_proto,
    set_queue_to_proto,
};
use kopuz::protocol::radio::{
    radio_registry_from_proto, radio_registry_to_proto, radio_station_from_proto, radio_station_to_proto,
};
use kopuz::protocol::service::{favorites_from_proto, favorites_to_proto, job_status_from_proto, job_status_to_proto};
use kopuz::status::ErrorCode;
use kopuz::wire;

fn sample_state() -> PlayerState {
    PlayerState {
        rev: 41,
        now_ms: 182_734,
        phase: Phase::Playing,
        intent: Intent::Loading { token: 7, from_token: Some(6) },
        track: Some(NowPlaying {
            key: "k".into(),
            uid: "ytmusic:k".into(),
            title: "t".into(),
            artist: "a".into(),
            album: "al".into(),
            duration_ms: Some(223_000),
            khz: 44,
            bitrate: 320,
            kind: TrackKind::Normal,
            seekable: true,
        }),
        position: Some(PositionAnchor { ms: 63_210, at_ms: 182_734, playing: true }),
        queue: QueueSummary { rev: 39, length: 42, index: Some(3), shuffle: true, loop_mode: LoopMode::Queue },
        volume_bits: 0.8f32.to_bits(),
        buffered: vec![BufferedRange { start: 0, end: 4096, total: Some(8192) }],
        fading: Some(FadingState { from_token: 6, track: NowPlaying::default(), position_ms: 1000 }),
        external: Some(ExternalPlayback { kind: "spotify".into(), device: None }),
        error: Some(ErrorBody { code: ErrorCode::SourceUnreachable, message: "m".into() }),
        output_latency_ms: 0,
    }
}

fn sample_events() -> Vec<ApiEvent> {
    vec![
        ApiEvent::PlayerState { player: sample_state() },
        ApiEvent::PlayerPosition { token: 1, position_ms: 2, at_ms: 3, playing: true },
        ApiEvent::PlayerBuffered { token: 1, ranges: vec![BufferedRange { start: 1, end: 2, total: None }] },
        ApiEvent::QueueChanged { rev: 1, length: 2, index: Some(0) },
        ApiEvent::LibraryInvalidated { table: Table::Favorites, generation: 4 },
        ApiEvent::JobProgress {
            progress: JobProgress {
                id: "j".into(),
                kind: JobKind::Scan,
                phase: "scanning".into(),
                current: Some(1),
                total: Some(2),
                message: Some("f".into()),
            },
        },
        ApiEvent::JobFinished {
            id: "j".into(),
            kind: JobKind::Download,
            ok: false,
            error: Some(ErrorBody { code: ErrorCode::Conflict, message: "busy".into() }),
        },
        ApiEvent::ConfigChanged { keys: vec!["volume".into()] },
        ApiEvent::SourceStatus { source: "jellyfin".into(), state: SourceState::AuthExpired },
        ApiEvent::Notice { level: NoticeLevel::Warning, code: "c".into(), message: None },
        ApiEvent::Resync,
    ]
}

fn radio_request() -> SetQueueRequest {
    SetQueueRequest {
        mode: QueueMode::PlayNext,
        context: QueueContext::Radio { station_id: "s".into(), stream_id: "st".into() },
        start_index: Some(2),
        shuffle: Some(false),
        insert_index: None,
    }
}

#[test]
fn player_player_state_round_trips() {
    let state = sample_state();
    let back = player_state_from_proto(&player_state_to_proto(&state));
    assert_eq!(state, back);
}

#[test]
fn lib_player_state_round_trips() {
    let state = sample_state();
    assert_eq!(state, player_state_from_proto(&player_state_to_proto(&state)));
    assert_eq!(f32::from_bits(back_volume(&state)), 0.8f32);
}

fn back_volume(state: &PlayerState) -> u32 {
    player_state_from_proto(&player_state_to_proto(state)).volume_bits
}

#[test]
fn external_playback_dtos_round_trip() {
    let playback = ExternalPlayback { kind: "spotify".into(), device: Some("device".into()) };
    assert_eq!(playback, external_playback_from_proto(&external_playback_to_proto(&playback)));

    let lease = ExternalPlaybackLease { lease_id: "lease".into(), expires_in_ms: 15_000 };
    assert_eq!(lease, external_lease_from_proto(&external_lease_to_proto(&lease)));

    let report = ExternalPlaybackReport {
        lease_id: "lease".into(),
        track: Some(TrackInfo { key: "track".into(), ..TrackInfo::default() }),
        position_ms: 42,
        playing: true,
        completed: false,
        device: Some("device".into()),
    };
    assert_eq!(report, external_report_from_proto(&external_report_to_proto(&report)));
}

#[test]
fn every_command_round_trips() {
    for command in [
        PlayerCommand::Play,
        PlayerCommand::Pause,
        PlayerCommand::Toggle,
        PlayerCommand::Next,
        PlayerCommand::Previous,
        PlayerCommand::Stop,
        PlayerCommand::Seek { position_ms: 1_200 },
        PlayerCommand::SetVolume { volume_bits: 0.4f32.to_bits() },
        PlayerCommand::SetMode { shuffle: Some(true), loop_mode: Some(LoopMode::Track) },
    ] {
        let back = command_from_proto(&command_to_proto(&command)).expect("command survives");
        assert_eq!(command, back);
    }
}

#[test]
fn events_every_event_round_trips() {
    for event in sample_events() {
        let back = event_from_proto(&event_to_proto(&event)).expect("event survives");
        assert_eq!(event, back);
    }
}

#[test]
fn lib_every_event_round_trips() {
    for event in sample_events() {
        let back = event_from_proto(&event_to_proto(&event)).expect("event survives");
        assert_eq!(event, back);
    }
}

#[test]
fn events_unknown_event_kind_is_ignorable() {
    assert!(event_from_proto(&wire::Event { kind: None }).is_none());
}

#[test]
fn lib_unknown_event_kind_is_ignorable() {
    assert!(event_from_proto(&wire::Event { kind: None }).is_none());
}

#[test]
fn a_command_that_names_nothing_drops_its_event() {
    let event = wire::Event {
        kind: Some(wire::EventKind::PlayerExternalCommand { command: wire::PlayerCommand { kind: None } }),
    };
    assert!(event_from_proto(&event).is_none());
}

#[test]
fn queue_requests_round_trip() {
    let request = radio_request();
    let back = set_queue_from_proto(&set_queue_to_proto(&request)).expect("request survives");
    assert_eq!(request, back);

    let edit = QueueEdit::Move { from: 1, to: 3 };
    let back = queue_edit_from_proto(&queue_edit_to_proto(&edit)).expect("edit survives");
    assert_eq!(edit, back);
}

#[test]
fn lib_requests_round_trip() {
    let request = radio_request();
    let back = set_queue_from_proto(&set_queue_to_proto(&request)).expect("request survives");
    assert_eq!(request, back);

    let edit = QueueEdit::Move { from: 1, to: 3 };
    let back = queue_edit_from_proto(&queue_edit_to_proto(&edit)).expect("edit survives");
    assert_eq!(edit, back);
}

#[test]
fn inline_tracks_insert_round_trips() {
    let request = SetQueueRequest {
        mode: QueueMode::Append,
        context: QueueContext::InlineTracks {
            tracks: vec![TrackInfo {
                key: "k".into(),
                uid: "ytmusic:k".into(),
                title: "t".into(),
                artist: "a".into(),
                album_id: Some("ytmusic".into()),
                ..TrackInfo::default()
            }],
        },
        start_index: None,
        shuffle: None,
        insert_index: Some(4),
    };
    let back = set_queue_from_proto(&set_queue_to_proto(&request)).expect("request survives");
    assert_eq!(request, back);
}

#[test]
fn a_queue_request_without_a_context_is_refused() {
    let mut sent = set_queue_to_proto(&radio_request());
    sent.context = None;
    assert!(set_queue_from_proto(&sent).is_none());
    sent.context = Some(wire::QueueContext { kind: None });
    assert!(set_queue_from_proto(&sent).is_none());
}

#[test]
fn every_queue_context_round_trips() {
    for context in [
        QueueContext::Tracks { keys: vec!["a".into(), "b".into()] },
        QueueContext::Album { id: "al".into() },
        QueueContext::Artist { name: "ar".into() },
        QueueContext::Genre { name: "g".into() },
        QueueContext::Playlist { id: "p".into() },
        QueueContext::Filter {
            filter: TrackFilter {
                search: Some("q".into()),
                artist: None,
                album: Some("al".into()),
                genre: None,
                favorite: Some(true),
                sort: Some("title".into()),
            },
        },
    ] {
        let request = SetQueueRequest { context, ..radio_request() };
        assert_eq!(request.clone(), set_queue_from_proto(&set_queue_to_proto(&request)).expect("request survives"));
    }
}

#[test]
fn queue_windows_and_snapshots_round_trip() {
    let track = TrackInfo { key: "k".into(), bitrate: 1411, track_number: Some(2), ..TrackInfo::default() };
    let window = QueueWindow {
        rev: 5,
        total: 10,
        offset: 2,
        items: vec![QueueItem { index: 2, track: track.clone() }, QueueItem { index: 3, track: TrackInfo::default() }],
    };
    assert_eq!(window, queue_window_from_proto(&queue_window_to_proto(&window)));

    let snapshot = QueuePersistenceSnapshot {
        tracks: vec![track],
        current_index: Some(0),
        progress_ms: 1234,
        shuffle_order: vec![2, 0, 1],
        shuffle_enabled: true,
    };
    assert_eq!(snapshot, queue_persistence_snapshot_from_proto(&queue_persistence_snapshot_to_proto(&snapshot)));
}

#[test]
fn a_queue_item_without_its_track_reads_the_empty_track() {
    let mut sent = queue_window_to_proto(&QueueWindow {
        rev: 1,
        total: 1,
        offset: 0,
        items: vec![QueueItem { index: 0, track: TrackInfo { key: "k".into(), ..TrackInfo::default() } }],
    });
    sent.items[0].track = None;
    assert_eq!(queue_window_from_proto(&sent).items[0].track, TrackInfo::default());
}

#[test]
fn a_missing_intent_or_summary_reads_as_stopped_and_empty() {
    assert_eq!(intent_from_proto(None), Intent::Stopped);
    assert_eq!(intent_from_proto(Some(&wire::Intent { kind: None })), Intent::Stopped);
    let summary = queue_summary_from_proto(None);
    assert_eq!(summary, QueueSummary { rev: 0, length: 0, index: None, shuffle: false, loop_mode: LoopMode::Off });
}

#[test]
fn a_wide_bitrate_saturates_at_sixteen_bits() {
    let mut sent = now_playing_to_proto(&NowPlaying::default());
    sent.bitrate = 100_000;
    assert_eq!(now_playing_from_proto(&sent).bitrate, 65_535);
    let mut sent = track_info_to_proto(&TrackInfo::default());
    sent.bitrate = 65_535;
    assert_eq!(track_info_from_proto(&sent).bitrate, 65_535);
    sent.kind = 9;
    assert_eq!(track_info_from_proto(&sent).kind, TrackKind::Normal);
}

#[test]
fn pages_round_trip_and_an_empty_limit_takes_the_default() {
    let page = Page { offset: 20, limit: 50 };
    assert_eq!(page_from_proto(Some(&page_to_proto(page))), page);
    assert_eq!(page_from_proto(None), Page { offset: 0, limit: DEFAULT_PAGE_LIMIT });
    assert_eq!(page_from_proto(Some(&page_to_proto(Page { offset: 3, limit: 0 }))), Page { offset: 3, limit: DEFAULT_PAGE_LIMIT });
}

#[test]
fn library_listings_round_trip() {
    let filter = TrackFilter { search: None, artist: Some("a".into()), album: None, genre: Some("g".into()), favorite: None, sort: None };
    assert_eq!(filter, track_filter_from_proto(&track_filter_to_proto(&filter)));

    let page = TrackPage { total: 3, offset: 1, items: vec![TrackInfo { title: "t".into(), offline: true, ..TrackInfo::default() }] };
    assert_eq!(page, track_page_from_proto(&track_page_to_proto(&page)));

    let lyrics = LyricsView {
        plain: Some("la la".into()),
        synced: vec![LyricLineView {
            start_ms: 10,
            end_ms: Some(20),
            text: "la".into(),
            chunks: vec![LyricChunkView { start_ms: 10, text: "l".into() }, LyricChunkView { start_ms: 15, text: "a".into() }],
            parent_line_index: None,
            background: true,
            opposite_turn: false,
        }],
    };
    assert_eq!(lyrics, lyrics_from_proto(&lyrics_to_proto(&lyrics)));

    let stats = StatsView { listen_counts: vec![("k".into(), 3), ("j".into(), 1)] };
    assert_eq!(stats, stats_from_proto(&stats_to_proto(&stats)));
}

#[test]
fn favorites_and_job_status_round_trip() {
    let favorites = FavoritesView { refs: vec!["a".into(), "b".into()], generation: 9 };
    assert_eq!(favorites, favorites_from_proto(&favorites_to_proto(&favorites)));

    let status = JobStatus {
        id: "j".into(),
        kind: JobKind::LibrarySync,
        state: JobState::Failed,
        phase: "sync".into(),
        current: Some(3),
        total: None,
        message: None,
        error: Some(ErrorBody { code: ErrorCode::Internal, message: "boom".into() }),
    };
    assert_eq!(status, job_status_from_proto(&job_status_to_proto(&status)));
}

#[test]
fn stations_and_registries_round_trip() {
    let station = RadioStationInfo {
        id: "station".into(),
        name: "Station".into(),
        description: "Description".into(),
        tags: vec!["tag".into()],
        streams: vec![RadioStreamInfo { id: "main".into(), name: "Main".into(), url: "https://example.com/stream".into() }],
        pinned: true,
    };
    assert_eq!(station, radio_station_from_proto(&radio_station_to_proto(&station)));

    let registry = RadioRegistryInfo { url: "https://example.com/index.json".into(), enabled: true, built_in: false };
    assert_eq!(registry, radio_registry_from_proto(&radio_registry_to_proto(&registry)));
}

#[test]
fn catalog_round_trips_with_folders() {
    let catalog = PlaylistCatalog {
        playlists: vec![PlaylistInfo {
            id: "playlist".into(),
            name: "Playlist".into(),
            track_count: 2,
            track_keys: vec!["a".into(), "b".into()],
            artwork: Some("playlist".into()),
            manual_artwork: false,
        }],
        folders: vec![PlaylistFolderInfo { id: "folder".into(), name: "Folder".into(), playlist_ids: vec!["playlist".into()] }],
    };
    assert_eq!(catalog, playlist_catalog_from_proto(&playlist_catalog_to_proto(&catalog)));
}

#[test]
fn metadata_patch_round_trips_with_clear_flags() {
    let metadata = TrackMetadataPatch {
        key: "track".into(),
        title: Some("Title".into()),
        artist: None,
        album: Some("Album".into()),
        track_number: Some(3),
        clear_track_number: false,
        disc_number: None,
        clear_disc_number: true,
    };
    assert_eq!(metadata, metadata_patch_from_proto(&metadata_patch_to_proto(&metadata)));
}

#[test]
fn every_artwork_target_and_entity_round_trips() {
    for target in [
        ArtworkTarget::Track { key: "track".into() },
        ArtworkTarget::Album { id: "album".into() },
        ArtworkTarget::Artist { name: "artist".into() },
        ArtworkTarget::Playlist { id: "playlist".into() },
    ] {
        let upload = ArtworkUpload { target: Some(target.clone()), content_type: "image/png".into(), data: vec![1, 2, 3] };
        assert_eq!(upload, artwork_upload_from_proto(&artwork_upload_to_proto(&upload)));
        assert_eq!(target, remove_artwork_from_proto(&remove_artwork_to_proto(&target)).expect("artwork target survives"));
    }
    assert_eq!(ArtworkUpload::default(), artwork_upload_from_proto(&artwork_upload_to_proto(&ArtworkUpload::default())));

    for entity in [
        ArtworkEntity::Track { key: "track".into() },
        ArtworkEntity::Album { id: "album".into() },
        ArtworkEntity::Artist { name: "artist".into() },
        ArtworkEntity::Playlist { id: "playlist".into() },
    ] {
        let request = ArtworkRequest { entity: Some(entity), hq: true };
        assert_eq!(request, artwork_request_from_proto(&artwork_request_to_proto(&request)));
    }
    assert_eq!(ArtworkRequest::default(), artwork_request_from_proto(&artwork_request_to_proto(&ArtworkRequest::default())));
}
