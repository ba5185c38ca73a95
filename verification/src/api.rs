//! The player, queue, library, job and download states that the API speaks
//! in, as the daemon and its clients share them.

use vstd::prelude::*;

use crate::config::items;
use crate::enums::{ErrorBody, ErrorBodyView};

verus! {

#[derive(Clone, Copy, Debug, PartialEq, Eq, Structural)]
pub enum Phase {
    Idle,
    Playing,
    Paused,
    Ended,
}

#[derive(Clone, Copy, Debug, PartialEq, Eq, Structural)]
pub enum LoopMode {
    Off,
    Queue,
    Track,
}

#[derive(Clone, Copy, Debug, PartialEq, Eq, Structural)]
pub enum TrackKind {
    Normal,
    Radio,
}

#[derive(Clone, Copy, Debug, PartialEq, Eq, Structural)]
pub enum QueueMode {
    Replace,
    Append,
    PlayNext,
}

#[derive(Clone, Copy, Debug, PartialEq, Eq, Structural)]
pub enum Table {
    Tracks,
    Albums,
    Playlists,
    Favorites,
    Folders,
    Servers,
    Recents,
    Unknown,
}

#[derive(Clone, Copy, Debug, PartialEq, Eq, Structural)]
pub enum JobKind {
    Scan,
    LibrarySync,
    FavoritesSync,
    PlaylistSync,
    Download,
    Unknown,
}

#[derive(Clone, Copy, Debug, PartialEq, Eq, Structural)]
pub enum JobState {
    Running,
    Finished,
    Failed,
    Cancelled,
    Unknown,
}

#[derive(Clone, Copy, Debug, PartialEq, Eq, Structural)]
pub enum SourceState {
    Online,
    AuthExpired,
    Offline,
}

#[derive(Clone, Copy, Debug, PartialEq, Eq, Structural)]
pub enum NoticeLevel {
    Info,
    Warning,
    Error,
    Unknown,
}

/// The formats the daemon's yt-dlp jobs download in.
#[derive(Clone, Copy, Debug, PartialEq, Eq, Structural)]
pub enum YtdlpAudioFormat {
    Best,
    Mp3,
    Flac,
    Opus,
    Wav,
    Video,
}

/// What the player means to be doing: nothing, loading a track under a
/// token, or playing the track of a token.
#[derive(Clone, Debug, PartialEq, Eq)]
pub enum Intent {
    Stopped,
    Loading { token: u64, from_token: Option<u64> },
    Committed { token: u64 },
}

/// The mathematical value of an [`Intent`].
pub enum IntentView {
    Stopped,
    Loading { token: u64, from_token: Option<u64> },
    Committed { token: u64 },
}

impl View for Intent {
    type V = IntentView;

    open spec fn view(&self) -> IntentView {
        match self {
            Intent::Stopped => IntentView::Stopped,
            Intent::Loading { token, from_token } => IntentView::Loading {
                token: *token,
                from_token: *from_token,
            },
            Intent::Committed { token } => IntentView::Committed { token: *token },
        }
    }
}

impl DeepView for Intent {
    type V = IntentView;

    open spec fn deep_view(&self) -> IntentView {
        self.view()
    }
}

/// The track the player holds, as the API describes it.
#[derive(Clone, Debug, PartialEq, Eq)]
pub struct NowPlaying {
    pub key: String,
    pub uid: String,
    pub title: String,
    pub artist: String,
    pub album: String,
    pub duration_ms: Option<u64>,
    pub khz: u32,
    pub bitrate: u16,
    pub kind: TrackKind,
    pub seekable: bool,
}

/// The mathematical value of a [`NowPlaying`].
pub struct NowPlayingView {
    pub key: Seq<char>,
    pub uid: Seq<char>,
    pub title: Seq<char>,
    pub artist: Seq<char>,
    pub album: Seq<char>,
    pub duration_ms: Option<u64>,
    pub khz: u32,
    pub bitrate: u16,
    pub kind: TrackKind,
    pub seekable: bool,
}

impl View for NowPlaying {
    type V = NowPlayingView;

    open spec fn view(&self) -> NowPlayingView {
        NowPlayingView {
            key: self.key@,
            uid: self.uid@,
            title: self.title@,
            artist: self.artist@,
            album: self.album@,
            duration_ms: self.duration_ms,
            khz: self.khz,
            bitrate: self.bitrate,
            kind: self.kind,
            seekable: self.seekable,
        }
    }
}

impl DeepView for NowPlaying {
    type V = NowPlayingView;

    open spec fn deep_view(&self) -> NowPlayingView {
        self.view()
    }
}

/// A playback position and the clock time it was taken at.
#[derive(Clone, Copy, Debug, PartialEq, Eq)]
pub struct PositionAnchor {
    pub ms: u64,
    pub at_ms: u64,
    pub playing: bool,
}

/// The mathematical value of a [`PositionAnchor`].
pub struct PositionAnchorView {
    pub ms: u64,
    pub at_ms: u64,
    pub playing: bool,
}

impl View for PositionAnchor {
    type V = PositionAnchorView;

    open spec fn view(&self) -> PositionAnchorView {
        PositionAnchorView {
            ms: self.ms,
            at_ms: self.at_ms,
            playing: self.playing,
        }
    }
}

impl DeepView for PositionAnchor {
    type V = PositionAnchorView;

    open spec fn deep_view(&self) -> PositionAnchorView {
        self.view()
    }
}

/// A buffered byte range of the current track, and the track's size where
/// known.
#[derive(Clone, Copy, Debug, PartialEq, Eq)]
pub struct BufferedRange {
    pub start: u64,
    pub end: u64,
    pub total: Option<u64>,
}

/// The mathematical value of a [`BufferedRange`].
pub struct BufferedRangeView {
    pub start: u64,
    pub end: u64,
    pub total: Option<u64>,
}

impl View for BufferedRange {
    type V = BufferedRangeView;

    open spec fn view(&self) -> BufferedRangeView {
        BufferedRangeView {
            start: self.start,
            end: self.end,
            total: self.total,
        }
    }
}

impl DeepView for BufferedRange {
    type V = BufferedRangeView;

    open spec fn deep_view(&self) -> BufferedRangeView {
        self.view()
    }
}

/// The queue as the player state reports it.
#[derive(Clone, Debug, PartialEq, Eq)]
pub struct QueueSummary {
    pub rev: u64,
    pub length: u32,
    pub index: Option<u32>,
    pub shuffle: bool,
    pub loop_mode: LoopMode,
}

/// The mathematical value of a [`QueueSummary`].
pub struct QueueSummaryView {
    pub rev: u64,
    pub length: u32,
    pub index: Option<u32>,
    pub shuffle: bool,
    pub loop_mode: LoopMode,
}

impl View for QueueSummary {
    type V = QueueSummaryView;

    open spec fn view(&self) -> QueueSummaryView {
        QueueSummaryView {
            rev: self.rev,
            length: self.length,
            index: self.index,
            shuffle: self.shuffle,
            loop_mode: self.loop_mode,
        }
    }
}

impl DeepView for QueueSummary {
    type V = QueueSummaryView;

    open spec fn deep_view(&self) -> QueueSummaryView {
        self.view()
    }
}

/// The track that is fading out during a crossfade.
#[derive(Clone, Debug, PartialEq, Eq)]
pub struct FadingState {
    pub from_token: u64,
    pub track: NowPlaying,
    pub position_ms: u64,
}

/// The mathematical value of a [`FadingState`].
pub struct FadingStateView {
    pub from_token: u64,
    pub track: NowPlayingView,
    pub position_ms: u64,
}

impl View for FadingState {
    type V = FadingStateView;

    open spec fn view(&self) -> FadingStateView {
        FadingStateView {
            from_token: self.from_token,
            track: self.track.deep_view(),
            position_ms: self.position_ms,
        }
    }
}

impl DeepView for FadingState {
    type V = FadingStateView;

    open spec fn deep_view(&self) -> FadingStateView {
        self.view()
    }
}

/// Playback that another service performs, and on which device.
#[derive(Clone, Debug, PartialEq, Eq)]
pub struct ExternalPlayback {
    pub kind: String,
    pub device: Option<String>,
}

/// The mathematical value of an [`ExternalPlayback`].
pub struct ExternalPlaybackView {
    pub kind: Seq<char>,
    pub device: Option<Seq<char>>,
}

impl View for ExternalPlayback {
    type V = ExternalPlaybackView;

    open spec fn view(&self) -> ExternalPlaybackView {
        ExternalPlaybackView {
            kind: self.kind@,
            device: self.device.deep_view(),
        }
    }
}

impl DeepView for ExternalPlayback {
    type V = ExternalPlaybackView;

    open spec fn deep_view(&self) -> ExternalPlaybackView {
        self.view()
    }
}

/// The whole player state. The volume is held as the bit pattern of its
/// 32-bit float, which both sides carry unchanged.
#[derive(Clone, Debug, PartialEq, Eq)]
pub struct PlayerState {
    pub rev: u64,
    pub now_ms: u64,
    pub phase: Phase,
    pub intent: Intent,
    pub track: Option<NowPlaying>,
    pub position: Option<PositionAnchor>,
    pub queue: QueueSummary,
    pub volume_bits: u32,
    pub buffered: Vec<BufferedRange>,
    pub fading: Option<FadingState>,
    pub external: Option<ExternalPlayback>,
    pub error: Option<ErrorBody>,
    pub output_latency_ms: u32,
}

/// The mathematical value of a [`PlayerState`].
pub struct PlayerStateView {
    pub rev: u64,
    pub now_ms: u64,
    pub phase: Phase,
    pub intent: IntentView,
    pub track: Option<NowPlayingView>,
    pub position: Option<PositionAnchorView>,
    pub queue: QueueSummaryView,
    pub volume_bits: u32,
    pub buffered: Seq<BufferedRangeView>,
    pub fading: Option<FadingStateView>,
    pub external: Option<ExternalPlaybackView>,
    pub error: Option<ErrorBodyView>,
    pub output_latency_ms: u32,
}

impl View for PlayerState {
    type V = PlayerStateView;

    open spec fn view(&self) -> PlayerStateView {
        PlayerStateView {
            rev: self.rev,
            now_ms: self.now_ms,
            phase: self.phase,
            intent: self.intent.deep_view(),
            track: self.track.deep_view(),
            position: self.position.deep_view(),
            queue: self.queue.deep_view(),
            volume_bits: self.volume_bits,
            buffered: items(self.buffered),
            fading: self.fading.deep_view(),
            external: self.external.deep_view(),
            error: self.error.deep_view(),
            output_latency_ms: self.output_latency_ms,
        }
    }
}

impl DeepView for PlayerState {
    type V = PlayerStateView;

    open spec fn deep_view(&self) -> PlayerStateView {
        self.view()
    }
}

/// A command to the player. A volume is the bit pattern of its 32-bit float.
#[derive(Clone, Debug, PartialEq, Eq)]
pub enum PlayerCommand {
    Play,
    Pause,
    Toggle,
    Next,
    Previous,
    Stop,
    Seek { position_ms: u64 },
    SetVolume { volume_bits: u32 },
    SetMode { shuffle: Option<bool>, loop_mode: Option<LoopMode> },
}

/// The mathematical value of a [`PlayerCommand`].
pub enum PlayerCommandView {
    Play,
    Pause,
    Toggle,
    Next,
    Previous,
    Stop,
    Seek { position_ms: u64 },
    SetVolume { volume_bits: u32 },
    SetMode { shuffle: Option<bool>, loop_mode: Option<LoopMode> },
}

impl View for PlayerCommand {
    type V = PlayerCommandView;

    open spec fn view(&self) -> PlayerCommandView {
        match self {
            PlayerCommand::Play => PlayerCommandView::Play,
            PlayerCommand::Pause => PlayerCommandView::Pause,
            PlayerCommand::Toggle => PlayerCommandView::Toggle,
            PlayerCommand::Next => PlayerCommandView::Next,
            PlayerCommand::Previous => PlayerCommandView::Previous,
            PlayerCommand::Stop => PlayerCommandView::Stop,
            PlayerCommand::Seek { position_ms } => PlayerCommandView::Seek {
                position_ms: *position_ms,
            },
            PlayerCommand::SetVolume { volume_bits } => PlayerCommandView::SetVolume {
                volume_bits: *volume_bits,
            },
            PlayerCommand::SetMode { shuffle, loop_mode } => PlayerCommandView::SetMode {
                shuffle: *shuffle,
                loop_mode: *loop_mode,
            },
        }
    }
}

impl DeepView for PlayerCommand {
    type V = PlayerCommandView;

    open spec fn deep_view(&self) -> PlayerCommandView {
        self.view()
    }
}

/// A lease that lets another service report playback.
#[derive(Clone, Debug, PartialEq, Eq)]
pub struct ExternalPlaybackLease {
    pub lease_id: String,
    pub expires_in_ms: u64,
}

/// The mathematical value of an [`ExternalPlaybackLease`].
pub struct ExternalPlaybackLeaseView {
    pub lease_id: Seq<char>,
    pub expires_in_ms: u64,
}

impl View for ExternalPlaybackLease {
    type V = ExternalPlaybackLeaseView;

    open spec fn view(&self) -> ExternalPlaybackLeaseView {
        ExternalPlaybackLeaseView {
            lease_id: self.lease_id@,
            expires_in_ms: self.expires_in_ms,
        }
    }
}

impl DeepView for ExternalPlaybackLease {
    type V = ExternalPlaybackLeaseView;

    open spec fn deep_view(&self) -> ExternalPlaybackLeaseView {
        self.view()
    }
}

/// What another service reports of its playback.
#[derive(Clone, Debug, PartialEq, Eq)]
pub struct ExternalPlaybackReport {
    pub lease_id: String,
    pub track: Option<TrackInfo>,
    pub position_ms: u64,
    pub playing: bool,
    pub completed: bool,
    pub device: Option<String>,
}

/// The mathematical value of an [`ExternalPlaybackReport`].
pub struct ExternalPlaybackReportView {
    pub lease_id: Seq<char>,
    pub track: Option<TrackInfoView>,
    pub position_ms: u64,
    pub playing: bool,
    pub completed: bool,
    pub device: Option<Seq<char>>,
}

impl View for ExternalPlaybackReport {
    type V = ExternalPlaybackReportView;

    open spec fn view(&self) -> ExternalPlaybackReportView {
        ExternalPlaybackReportView {
            lease_id: self.lease_id@,
            track: self.track.deep_view(),
            position_ms: self.position_ms,
            playing: self.playing,
            completed: self.completed,
            device: self.device.deep_view(),
        }
    }
}

impl DeepView for ExternalPlaybackReport {
    type V = ExternalPlaybackReportView;

    open spec fn deep_view(&self) -> ExternalPlaybackReportView {
        self.view()
    }
}

/// Which tracks a listing shows, and in what order.
#[derive(Clone, Debug, PartialEq, Eq)]
pub struct TrackFilter {
    pub search: Option<String>,
    pub artist: Option<String>,
    pub album: Option<String>,
    pub genre: Option<String>,
    pub favorite: Option<bool>,
    pub sort: Option<String>,
}

/// The mathematical value of a [`TrackFilter`].
pub struct TrackFilterView {
    pub search: Option<Seq<char>>,
    pub artist: Option<Seq<char>>,
    pub album: Option<Seq<char>>,
    pub genre: Option<Seq<char>>,
    pub favorite: Option<bool>,
    pub sort: Option<Seq<char>>,
}

impl View for TrackFilter {
    type V = TrackFilterView;

    open spec fn view(&self) -> TrackFilterView {
        TrackFilterView {
            search: self.search.deep_view(),
            artist: self.artist.deep_view(),
            album: self.album.deep_view(),
            genre: self.genre.deep_view(),
            favorite: self.favorite,
            sort: self.sort.deep_view(),
        }
    }
}

impl DeepView for TrackFilter {
    type V = TrackFilterView;

    open spec fn deep_view(&self) -> TrackFilterView {
        self.view()
    }
}

/// A window of a listing: where it starts and how many items it holds.
#[derive(Clone, Copy, Debug, PartialEq, Eq)]
pub struct Page {
    pub offset: u32,
    pub limit: u32,
}

/// The mathematical value of a [`Page`].
pub struct PageView {
    pub offset: u32,
    pub limit: u32,
}

impl View for Page {
    type V = PageView;

    open spec fn view(&self) -> PageView {
        PageView {
            offset: self.offset,
            limit: self.limit,
        }
    }
}

impl DeepView for Page {
    type V = PageView;

    open spec fn deep_view(&self) -> PageView {
        self.view()
    }
}

/// A track of the library as the API lists it.
#[derive(Clone, Debug, PartialEq, Eq)]
pub struct TrackInfo {
    pub key: String,
    pub uid: String,
    pub title: String,
    pub artist: String,
    pub album: String,
    pub album_id: Option<String>,
    pub duration_ms: Option<u64>,
    pub khz: u32,
    pub bitrate: u16,
    pub track_number: Option<u32>,
    pub disc_number: Option<u32>,
    pub kind: TrackKind,
    pub seekable: bool,
    pub offline: bool,
}

/// The mathematical value of a [`TrackInfo`].
pub struct TrackInfoView {
    pub key: Seq<char>,
    pub uid: Seq<char>,
    pub title: Seq<char>,
    pub artist: Seq<char>,
    pub album: Seq<char>,
    pub album_id: Option<Seq<char>>,
    pub duration_ms: Option<u64>,
    pub khz: u32,
    pub bitrate: u16,
    pub track_number: Option<u32>,
    pub disc_number: Option<u32>,
    pub kind: TrackKind,
    pub seekable: bool,
    pub offline: bool,
}

impl View for TrackInfo {
    type V = TrackInfoView;

    open spec fn view(&self) -> TrackInfoView {
        TrackInfoView {
            key: self.key@,
            uid: self.uid@,
            title: self.title@,
            artist: self.artist@,
            album: self.album@,
            album_id: self.album_id.deep_view(),
            duration_ms: self.duration_ms,
            khz: self.khz,
            bitrate: self.bitrate,
            track_number: self.track_number,
            disc_number: self.disc_number,
            kind: self.kind,
            seekable: self.seekable,
            offline: self.offline,
        }
    }
}

impl DeepView for TrackInfo {
    type V = TrackInfoView;

    open spec fn deep_view(&self) -> TrackInfoView {
        self.view()
    }
}

/// One page of a track listing.
#[derive(Clone, Debug, PartialEq, Eq)]
pub struct TrackPage {
    pub total: u64,
    pub offset: u64,
    pub items: Vec<TrackInfo>,
}

/// The mathematical value of a [`TrackPage`].
pub struct TrackPageView {
    pub total: u64,
    pub offset: u64,
    pub items: Seq<TrackInfoView>,
}

impl View for TrackPage {
    type V = TrackPageView;

    open spec fn view(&self) -> TrackPageView {
        TrackPageView {
            total: self.total,
            offset: self.offset,
            items: items(self.items),
        }
    }
}

impl DeepView for TrackPage {
    type V = TrackPageView;

    open spec fn deep_view(&self) -> TrackPageView {
        self.view()
    }
}

/// A timed piece of a lyric line.
#[derive(Clone, Debug, PartialEq, Eq)]
pub struct LyricChunkView {
    pub start_ms: u64,
    pub text: String,
}

/// The mathematical value of a [`LyricChunkView`].
pub struct LyricChunkModel {
    pub start_ms: u64,
    pub text: Seq<char>,
}

impl View for LyricChunkView {
    type V = LyricChunkModel;

    open spec fn view(&self) -> LyricChunkModel {
        LyricChunkModel {
            start_ms: self.start_ms,
            text: self.text@,
        }
    }
}

impl DeepView for LyricChunkView {
    type V = LyricChunkModel;

    open spec fn deep_view(&self) -> LyricChunkModel {
        self.view()
    }
}

/// A timed lyric line.
#[derive(Clone, Debug, PartialEq, Eq)]
pub struct LyricLineView {
    pub start_ms: u64,
    pub end_ms: Option<u64>,
    pub text: String,
    pub chunks: Vec<LyricChunkView>,
    pub parent_line_index: Option<u32>,
    pub background: bool,
    pub opposite_turn: bool,
}

/// The mathematical value of a [`LyricLineView`].
pub struct LyricLineModel {
    pub start_ms: u64,
    pub end_ms: Option<u64>,
    pub text: Seq<char>,
    pub chunks: Seq<LyricChunkModel>,
    pub parent_line_index: Option<u32>,
    pub background: bool,
    pub opposite_turn: bool,
}

impl View for LyricLineView {
    type V = LyricLineModel;

    open spec fn view(&self) -> LyricLineModel {
        LyricLineModel {
            start_ms: self.start_ms,
            end_ms: self.end_ms,
            text: self.text@,
            chunks: items(self.chunks),
            parent_line_index: self.parent_line_index,
            background: self.background,
            opposite_turn: self.opposite_turn,
        }
    }
}

impl DeepView for LyricLineView {
    type V = LyricLineModel;

    open spec fn deep_view(&self) -> LyricLineModel {
        self.view()
    }
}

/// The lyrics of a track: plain text, timed lines, or both.
#[derive(Clone, Debug, PartialEq, Eq)]
pub struct LyricsView {
    pub plain: Option<String>,
    pub synced: Vec<LyricLineView>,
}

/// The mathematical value of a [`LyricsView`].
pub struct LyricsModel {
    pub plain: Option<Seq<char>>,
    pub synced: Seq<LyricLineModel>,
}

impl View for LyricsView {
    type V = LyricsModel;

    open spec fn view(&self) -> LyricsModel {
        LyricsModel {
            plain: self.plain.deep_view(),
            synced: items(self.synced),
        }
    }
}

impl DeepView for LyricsView {
    type V = LyricsModel;

    open spec fn deep_view(&self) -> LyricsModel {
        self.view()
    }
}

/// How often each track was listened to, by track key.
#[derive(Clone, Debug, PartialEq, Eq)]
pub struct StatsView {
    pub listen_counts: Vec<(String, u32)>,
}

/// The mathematical value of a [`StatsView`].
pub struct StatsModel {
    pub listen_counts: Seq<(Seq<char>, u32)>,
}

impl View for StatsView {
    type V = StatsModel;

    open spec fn view(&self) -> StatsModel {
        StatsModel {
            listen_counts: items(self.listen_counts),
        }
    }
}

impl DeepView for StatsView {
    type V = StatsModel;

    open spec fn deep_view(&self) -> StatsModel {
        self.view()
    }
}

/// Where the tracks of a new queue come from.
#[derive(Clone, Debug, PartialEq, Eq)]
pub enum QueueContext {
    Tracks { keys: Vec<String> },
    Album { id: String },
    Artist { name: String },
    Genre { name: String },
    Playlist { id: String },
    Filter { filter: TrackFilter },
    Radio { station_id: String, stream_id: String },
    InlineTracks { tracks: Vec<TrackInfo> },
}

/// The mathematical value of a [`QueueContext`].
pub enum QueueContextView {
    Tracks { keys: Seq<Seq<char>> },
    Album { id: Seq<char> },
    Artist { name: Seq<char> },
    Genre { name: Seq<char> },
    Playlist { id: Seq<char> },
    Filter { filter: TrackFilterView },
    Radio { station_id: Seq<char>, stream_id: Seq<char> },
    InlineTracks { tracks: Seq<TrackInfoView> },
}

impl View for QueueContext {
    type V = QueueContextView;

    open spec fn view(&self) -> QueueContextView {
        match self {
            QueueContext::Tracks { keys } => QueueContextView::Tracks { keys: items(*keys) },
            QueueContext::Album { id } => QueueContextView::Album { id: id@ },
            QueueContext::Artist { name } => QueueContextView::Artist { name: name@ },
            QueueContext::Genre { name } => QueueContextView::Genre { name: name@ },
            QueueContext::Playlist { id } => QueueContextView::Playlist { id: id@ },
            QueueContext::Filter { filter } => QueueContextView::Filter { filter: filter@ },
            QueueContext::Radio { station_id, stream_id } => QueueContextView::Radio {
                station_id: station_id@,
                stream_id: stream_id@,
            },
            QueueContext::InlineTracks { tracks } => QueueContextView::InlineTracks {
                tracks: items(*tracks),
            },
        }
    }
}

impl DeepView for QueueContext {
    type V = QueueContextView;

    open spec fn deep_view(&self) -> QueueContextView {
        self.view()
    }
}

/// A request to fill or extend the queue.
#[derive(Clone, Debug, PartialEq, Eq)]
pub struct SetQueueRequest {
    pub mode: QueueMode,
    pub context: QueueContext,
    pub start_index: Option<u32>,
    pub shuffle: Option<bool>,
    pub insert_index: Option<u32>,
}

/// The mathematical value of a [`SetQueueRequest`].
pub struct SetQueueRequestView {
    pub mode: QueueMode,
    pub context: QueueContextView,
    pub start_index: Option<u32>,
    pub shuffle: Option<bool>,
    pub insert_index: Option<u32>,
}

impl View for SetQueueRequest {
    type V = SetQueueRequestView;

    open spec fn view(&self) -> SetQueueRequestView {
        SetQueueRequestView {
            mode: self.mode,
            context: self.context.deep_view(),
            start_index: self.start_index,
            shuffle: self.shuffle,
            insert_index: self.insert_index,
        }
    }
}

impl DeepView for SetQueueRequest {
    type V = SetQueueRequestView;

    open spec fn deep_view(&self) -> SetQueueRequestView {
        self.view()
    }
}

/// An edit of the queue.
#[derive(Clone, Debug, PartialEq, Eq)]
pub enum QueueEdit {
    Jump { index: u32 },
    Move { from: u32, to: u32 },
    Remove { index: u32 },
}

/// The mathematical value of a [`QueueEdit`].
pub enum QueueEditView {
    Jump { index: u32 },
    Move { from: u32, to: u32 },
    Remove { index: u32 },
}

impl View for QueueEdit {
    type V = QueueEditView;

    open spec fn view(&self) -> QueueEditView {
        match self {
            QueueEdit::Jump { index } => QueueEditView::Jump { index: *index },
            QueueEdit::Move { from, to } => QueueEditView::Move { from: *from, to: *to },
            QueueEdit::Remove { index } => QueueEditView::Remove { index: *index },
        }
    }
}

impl DeepView for QueueEdit {
    type V = QueueEditView;

    open spec fn deep_view(&self) -> QueueEditView {
        self.view()
    }
}

/// A track of the queue and its place in it.
#[derive(Clone, Debug, PartialEq, Eq)]
pub struct QueueItem {
    pub index: u32,
    pub track: TrackInfo,
}

/// The mathematical value of a [`QueueItem`].
pub struct QueueItemView {
    pub index: u32,
    pub track: TrackInfoView,
}

impl View for QueueItem {
    type V = QueueItemView;

    open spec fn view(&self) -> QueueItemView {
        QueueItemView {
            index: self.index,
            track: self.track.deep_view(),
        }
    }
}

impl DeepView for QueueItem {
    type V = QueueItemView;

    open spec fn deep_view(&self) -> QueueItemView {
        self.view()
    }
}

/// A window onto the queue.
#[derive(Clone, Debug, PartialEq, Eq)]
pub struct QueueWindow {
    pub rev: u64,
    pub total: u32,
    pub offset: u32,
    pub items: Vec<QueueItem>,
}

/// The mathematical value of a [`QueueWindow`].
pub struct QueueWindowView {
    pub rev: u64,
    pub total: u32,
    pub offset: u32,
    pub items: Seq<QueueItemView>,
}

impl View for QueueWindow {
    type V = QueueWindowView;

    open spec fn view(&self) -> QueueWindowView {
        QueueWindowView {
            rev: self.rev,
            total: self.total,
            offset: self.offset,
            items: items(self.items),
        }
    }
}

impl DeepView for QueueWindow {
    type V = QueueWindowView;

    open spec fn deep_view(&self) -> QueueWindowView {
        self.view()
    }
}

/// The queue as it is saved between runs.
#[derive(Clone, Debug, PartialEq, Eq)]
pub struct QueuePersistenceSnapshot {
    pub tracks: Vec<TrackInfo>,
    pub current_index: Option<u32>,
    pub progress_ms: u64,
    pub shuffle_order: Vec<u32>,
    pub shuffle_enabled: bool,
}

/// The mathematical value of a [`QueuePersistenceSnapshot`].
pub struct QueuePersistenceSnapshotView {
    pub tracks: Seq<TrackInfoView>,
    pub current_index: Option<u32>,
    pub progress_ms: u64,
    pub shuffle_order: Seq<u32>,
    pub shuffle_enabled: bool,
}

impl View for QueuePersistenceSnapshot {
    type V = QueuePersistenceSnapshotView;

    open spec fn view(&self) -> QueuePersistenceSnapshotView {
        QueuePersistenceSnapshotView {
            tracks: items(self.tracks),
            current_index: self.current_index,
            progress_ms: self.progress_ms,
            shuffle_order: self.shuffle_order@,
            shuffle_enabled: self.shuffle_enabled,
        }
    }
}

impl DeepView for QueuePersistenceSnapshot {
    type V = QueuePersistenceSnapshotView;

    open spec fn deep_view(&self) -> QueuePersistenceSnapshotView {
        self.view()
    }
}

/// How far a background job has come.
#[derive(Clone, Debug, PartialEq, Eq)]
pub struct JobProgress {
    pub id: String,
    pub kind: JobKind,
    pub phase: String,
    pub current: Option<u64>,
    pub total: Option<u64>,
    pub message: Option<String>,
}

/// The mathematical value of a [`JobProgress`].
pub struct JobProgressView {
    pub id: Seq<char>,
    pub kind: JobKind,
    pub phase: Seq<char>,
    pub current: Option<u64>,
    pub total: Option<u64>,
    pub message: Option<Seq<char>>,
}

impl View for JobProgress {
    type V = JobProgressView;

    open spec fn view(&self) -> JobProgressView {
        JobProgressView {
            id: self.id@,
            kind: self.kind,
            phase: self.phase@,
            current: self.current,
            total: self.total,
            message: self.message.deep_view(),
        }
    }
}

impl DeepView for JobProgress {
    type V = JobProgressView;

    open spec fn deep_view(&self) -> JobProgressView {
        self.view()
    }
}

/// The favourites and the generation they were read at.
#[derive(Clone, Debug, PartialEq, Eq)]
pub struct FavoritesView {
    pub refs: Vec<String>,
    pub generation: u64,
}

/// The mathematical value of a [`FavoritesView`].
pub struct FavoritesModel {
    pub refs: Seq<Seq<char>>,
    pub generation: u64,
}

impl View for FavoritesView {
    type V = FavoritesModel;

    open spec fn view(&self) -> FavoritesModel {
        FavoritesModel {
            refs: items(self.refs),
            generation: self.generation,
        }
    }
}

impl DeepView for FavoritesView {
    type V = FavoritesModel;

    open spec fn deep_view(&self) -> FavoritesModel {
        self.view()
    }
}

/// The state of a background job.
#[derive(Clone, Debug, PartialEq, Eq)]
pub struct JobStatus {
    pub id: String,
    pub kind: JobKind,
    pub state: JobState,
    pub phase: String,
    pub current: Option<u64>,
    pub total: Option<u64>,
    pub message: Option<String>,
    pub error: Option<ErrorBody>,
}

/// The mathematical value of a [`JobStatus`].
pub struct JobStatusView {
    pub id: Seq<char>,
    pub kind: JobKind,
    pub state: JobState,
    pub phase: Seq<char>,
    pub current: Option<u64>,
    pub total: Option<u64>,
    pub message: Option<Seq<char>>,
    pub error: Option<ErrorBodyView>,
}

impl View for JobStatus {
    type V = JobStatusView;

    open spec fn view(&self) -> JobStatusView {
        JobStatusView {
            id: self.id@,
            kind: self.kind,
            state: self.state,
            phase: self.phase@,
            current: self.current,
            total: self.total,
            message: self.message.deep_view(),
            error: self.error.deep_view(),
        }
    }
}

impl DeepView for JobStatus {
    type V = JobStatusView;

    open spec fn deep_view(&self) -> JobStatusView {
        self.view()
    }
}

/// An event the daemon pushes to its clients.
#[derive(Clone, Debug, PartialEq, Eq)]
pub enum ApiEvent {
    PlayerState { player: PlayerState },
    PlayerPosition { token: u64, position_ms: u64, at_ms: u64, playing: bool },
    PlayerBuffered { token: u64, ranges: Vec<BufferedRange> },
    PlayerExternalCommand { command: PlayerCommand },
    QueueChanged { rev: u64, length: u32, index: Option<u32> },
    LibraryInvalidated { table: Table, generation: u64 },
    JobProgress { progress: JobProgress },
    JobFinished { id: String, kind: JobKind, ok: bool, error: Option<ErrorBody> },
    ConfigChanged { keys: Vec<String> },
    SourceStatus { source: String, state: SourceState },
    Notice { level: NoticeLevel, code: String, message: Option<String> },
    Resync,
}

/// The mathematical value of an [`ApiEvent`].
pub enum ApiEventView {
    PlayerState { player: PlayerStateView },
    PlayerPosition { token: u64, position_ms: u64, at_ms: u64, playing: bool },
    PlayerBuffered { token: u64, ranges: Seq<BufferedRangeView> },
    PlayerExternalCommand { command: PlayerCommandView },
    QueueChanged { rev: u64, length: u32, index: Option<u32> },
    LibraryInvalidated { table: Table, generation: u64 },
    JobProgress { progress: JobProgressView },
    JobFinished { id: Seq<char>, kind: JobKind, ok: bool, error: Option<ErrorBodyView> },
    ConfigChanged { keys: Seq<Seq<char>> },
    SourceStatus { source: Seq<char>, state: SourceState },
    Notice { level: NoticeLevel, code: Seq<char>, message: Option<Seq<char>> },
    Resync,
}

impl View for ApiEvent {
    type V = ApiEventView;

    open spec fn view(&self) -> ApiEventView {
        match self {
            ApiEvent::PlayerState { player } => ApiEventView::PlayerState { player: player@ },
            ApiEvent::PlayerPosition { token, position_ms, at_ms, playing } => ApiEventView::PlayerPosition {
                token: *token,
                position_ms: *position_ms,
                at_ms: *at_ms,
                playing: *playing,
            },
            ApiEvent::PlayerBuffered { token, ranges } => ApiEventView::PlayerBuffered {
                token: *token,
                ranges: items(*ranges),
            },
            ApiEvent::PlayerExternalCommand { command } => ApiEventView::PlayerExternalCommand {
                command: command@,
            },
            ApiEvent::QueueChanged { rev, length, index } => ApiEventView::QueueChanged {
                rev: *rev,
                length: *length,
                index: *index,
            },
            ApiEvent::LibraryInvalidated { table, generation } => ApiEventView::LibraryInvalidated {
                table: *table,
                generation: *generation,
            },
            ApiEvent::JobProgress { progress } => ApiEventView::JobProgress { progress: progress@ },
            ApiEvent::JobFinished { id, kind, ok, error } => ApiEventView::JobFinished {
                id: id@,
                kind: *kind,
                ok: *ok,
                error: error.deep_view(),
            },
            ApiEvent::ConfigChanged { keys } => ApiEventView::ConfigChanged { keys: items(*keys) },
            ApiEvent::SourceStatus { source, state } => ApiEventView::SourceStatus {
                source: source@,
                state: *state,
            },
            ApiEvent::Notice { level, code, message } => ApiEventView::Notice {
                level: *level,
                code: code@,
                message: message.deep_view(),
            },
            ApiEvent::Resync => ApiEventView::Resync,
        }
    }
}

impl DeepView for ApiEvent {
    type V = ApiEventView;

    open spec fn deep_view(&self) -> ApiEventView {
        self.view()
    }
}

/// One stream of a radio station.
#[derive(Clone, Debug, PartialEq, Eq)]
pub struct RadioStreamInfo {
    pub id: String,
    pub name: String,
    pub url: String,
}

/// The mathematical value of a [`RadioStreamInfo`].
pub struct RadioStreamInfoView {
    pub id: Seq<char>,
    pub name: Seq<char>,
    pub url: Seq<char>,
}

impl View for RadioStreamInfo {
    type V = RadioStreamInfoView;

    open spec fn view(&self) -> RadioStreamInfoView {
        RadioStreamInfoView {
            id: self.id@,
            name: self.name@,
            url: self.url@,
        }
    }
}

impl DeepView for RadioStreamInfo {
    type V = RadioStreamInfoView;

    open spec fn deep_view(&self) -> RadioStreamInfoView {
        self.view()
    }
}

/// A radio station, its streams and whether it is pinned.
#[derive(Clone, Debug, PartialEq, Eq)]
pub struct RadioStationInfo {
    pub id: String,
    pub name: String,
    pub description: String,
    pub tags: Vec<String>,
    pub streams: Vec<RadioStreamInfo>,
    pub pinned: bool,
}

/// The mathematical value of a [`RadioStationInfo`].
pub struct RadioStationInfoView {
    pub id: Seq<char>,
    pub name: Seq<char>,
    pub description: Seq<char>,
    pub tags: Seq<Seq<char>>,
    pub streams: Seq<RadioStreamInfoView>,
    pub pinned: bool,
}

impl View for RadioStationInfo {
    type V = RadioStationInfoView;

    open spec fn view(&self) -> RadioStationInfoView {
        RadioStationInfoView {
            id: self.id@,
            name: self.name@,
            description: self.description@,
            tags: items(self.tags),
            streams: items(self.streams),
            pinned: self.pinned,
        }
    }
}

impl DeepView for RadioStationInfo {
    type V = RadioStationInfoView;

    open spec fn deep_view(&self) -> RadioStationInfoView {
        self.view()
    }
}

/// A registry radio stations are read from.
#[derive(Clone, Debug, PartialEq, Eq)]
pub struct RadioRegistryInfo {
    pub url: String,
    pub enabled: bool,
    pub built_in: bool,
}

/// The mathematical value of a [`RadioRegistryInfo`].
pub struct RadioRegistryInfoView {
    pub url: Seq<char>,
    pub enabled: bool,
    pub built_in: bool,
}

impl View for RadioRegistryInfo {
    type V = RadioRegistryInfoView;

    open spec fn view(&self) -> RadioRegistryInfoView {
        RadioRegistryInfoView {
            url: self.url@,
            enabled: self.enabled,
            built_in: self.built_in,
        }
    }
}

impl DeepView for RadioRegistryInfo {
    type V = RadioRegistryInfoView;

    open spec fn deep_view(&self) -> RadioRegistryInfoView {
        self.view()
    }
}

/// A playlist, its tracks and its artwork.
#[derive(Clone, Debug, PartialEq, Eq)]
pub struct PlaylistInfo {
    pub id: String,
    pub name: String,
    pub track_count: u32,
    pub track_keys: Vec<String>,
    pub artwork: Option<String>,
    pub manual_artwork: bool,
}

/// The mathematical value of a [`PlaylistInfo`].
pub struct PlaylistInfoView {
    pub id: Seq<char>,
    pub name: Seq<char>,
    pub track_count: u32,
    pub track_keys: Seq<Seq<char>>,
    pub artwork: Option<Seq<char>>,
    pub manual_artwork: bool,
}

impl View for PlaylistInfo {
    type V = PlaylistInfoView;

    open spec fn view(&self) -> PlaylistInfoView {
        PlaylistInfoView {
            id: self.id@,
            name: self.name@,
            track_count: self.track_count,
            track_keys: items(self.track_keys),
            artwork: self.artwork.deep_view(),
            manual_artwork: self.manual_artwork,
        }
    }
}

impl DeepView for PlaylistInfo {
    type V = PlaylistInfoView;

    open spec fn deep_view(&self) -> PlaylistInfoView {
        self.view()
    }
}

/// A folder of playlists.
#[derive(Clone, Debug, PartialEq, Eq)]
pub struct PlaylistFolderInfo {
    pub id: String,
    pub name: String,
    pub playlist_ids: Vec<String>,
}

/// The mathematical value of a [`PlaylistFolderInfo`].
pub struct PlaylistFolderInfoView {
    pub id: Seq<char>,
    pub name: Seq<char>,
    pub playlist_ids: Seq<Seq<char>>,
}

impl View for PlaylistFolderInfo {
    type V = PlaylistFolderInfoView;

    open spec fn view(&self) -> PlaylistFolderInfoView {
        PlaylistFolderInfoView {
            id: self.id@,
            name: self.name@,
            playlist_ids: items(self.playlist_ids),
        }
    }
}

impl DeepView for PlaylistFolderInfo {
    type V = PlaylistFolderInfoView;

    open spec fn deep_view(&self) -> PlaylistFolderInfoView {
        self.view()
    }
}

/// All playlists and the folders that hold them.
#[derive(Clone, Debug, PartialEq, Eq)]
pub struct PlaylistCatalog {
    pub playlists: Vec<PlaylistInfo>,
    pub folders: Vec<PlaylistFolderInfo>,
}

/// The mathematical value of a [`PlaylistCatalog`].
pub struct PlaylistCatalogView {
    pub playlists: Seq<PlaylistInfoView>,
    pub folders: Seq<PlaylistFolderInfoView>,
}

impl View for PlaylistCatalog {
    type V = PlaylistCatalogView;

    open spec fn view(&self) -> PlaylistCatalogView {
        PlaylistCatalogView {
            playlists: items(self.playlists),
            folders: items(self.folders),
        }
    }
}

impl DeepView for PlaylistCatalog {
    type V = PlaylistCatalogView;

    open spec fn deep_view(&self) -> PlaylistCatalogView {
        self.view()
    }
}

/// What a piece of artwork belongs to.
#[derive(Clone, Debug, PartialEq, Eq)]
pub enum ArtworkTarget {
    Track { key: String },
    Album { id: String },
    Artist { name: String },
    Playlist { id: String },
}

/// The mathematical value of an [`ArtworkTarget`].
pub enum ArtworkTargetView {
    Track { key: Seq<char> },
    Album { id: Seq<char> },
    Artist { name: Seq<char> },
    Playlist { id: Seq<char> },
}

impl View for ArtworkTarget {
    type V = ArtworkTargetView;

    open spec fn view(&self) -> ArtworkTargetView {
        match self {
            ArtworkTarget::Track { key } => ArtworkTargetView::Track { key: key@ },
            ArtworkTarget::Album { id } => ArtworkTargetView::Album { id: id@ },
            ArtworkTarget::Artist { name } => ArtworkTargetView::Artist { name: name@ },
            ArtworkTarget::Playlist { id } => ArtworkTargetView::Playlist { id: id@ },
        }
    }
}

impl DeepView for ArtworkTarget {
    type V = ArtworkTargetView;

    open spec fn deep_view(&self) -> ArtworkTargetView {
        self.view()
    }
}

/// The entity whose artwork is asked for.
#[derive(Clone, Debug, PartialEq, Eq)]
pub enum ArtworkEntity {
    Track { key: String },
    Album { id: String },
    Artist { name: String },
    Playlist { id: String },
}

/// The mathematical value of an [`ArtworkEntity`].
pub enum ArtworkEntityView {
    Track { key: Seq<char> },
    Album { id: Seq<char> },
    Artist { name: Seq<char> },
    Playlist { id: Seq<char> },
}

impl View for ArtworkEntity {
    type V = ArtworkEntityView;

    open spec fn view(&self) -> ArtworkEntityView {
        match self {
            ArtworkEntity::Track { key } => ArtworkEntityView::Track { key: key@ },
            ArtworkEntity::Album { id } => ArtworkEntityView::Album { id: id@ },
            ArtworkEntity::Artist { name } => ArtworkEntityView::Artist { name: name@ },
            ArtworkEntity::Playlist { id } => ArtworkEntityView::Playlist { id: id@ },
        }
    }
}

impl DeepView for ArtworkEntity {
    type V = ArtworkEntityView;

    open spec fn deep_view(&self) -> ArtworkEntityView {
        self.view()
    }
}

/// An edit of a track's tags; a clear flag removes the number.
#[derive(Clone, Debug, PartialEq, Eq)]
pub struct TrackMetadataPatch {
    pub key: String,
    pub title: Option<String>,
    pub artist: Option<String>,
    pub album: Option<String>,
    pub track_number: Option<u32>,
    pub clear_track_number: bool,
    pub disc_number: Option<u32>,
    pub clear_disc_number: bool,
}

/// The mathematical value of a [`TrackMetadataPatch`].
pub struct TrackMetadataPatchView {
    pub key: Seq<char>,
    pub title: Option<Seq<char>>,
    pub artist: Option<Seq<char>>,
    pub album: Option<Seq<char>>,
    pub track_number: Option<u32>,
    pub clear_track_number: bool,
    pub disc_number: Option<u32>,
    pub clear_disc_number: bool,
}

impl View for TrackMetadataPatch {
    type V = TrackMetadataPatchView;

    open spec fn view(&self) -> TrackMetadataPatchView {
        TrackMetadataPatchView {
            key: self.key@,
            title: self.title.deep_view(),
            artist: self.artist.deep_view(),
            album: self.album.deep_view(),
            track_number: self.track_number,
            clear_track_number: self.clear_track_number,
            disc_number: self.disc_number,
            clear_disc_number: self.clear_disc_number,
        }
    }
}

impl DeepView for TrackMetadataPatch {
    type V = TrackMetadataPatchView;

    open spec fn deep_view(&self) -> TrackMetadataPatchView {
        self.view()
    }
}

/// A request for an entity's artwork, at high quality or not.
#[derive(Clone, Debug, PartialEq, Eq)]
pub struct ArtworkRequest {
    pub entity: Option<ArtworkEntity>,
    pub hq: bool,
}

/// The mathematical value of an [`ArtworkRequest`].
pub struct ArtworkRequestView {
    pub entity: Option<ArtworkEntityView>,
    pub hq: bool,
}

impl View for ArtworkRequest {
    type V = ArtworkRequestView;

    open spec fn view(&self) -> ArtworkRequestView {
        ArtworkRequestView {
            entity: self.entity.deep_view(),
            hq: self.hq,
        }
    }
}

impl DeepView for ArtworkRequest {
    type V = ArtworkRequestView;

    open spec fn deep_view(&self) -> ArtworkRequestView {
        self.view()
    }
}

/// New artwork for a target: its media type and its bytes.
#[derive(Clone, Debug, PartialEq, Eq)]
pub struct ArtworkUpload {
    pub target: Option<ArtworkTarget>,
    pub content_type: String,
    pub data: Vec<u8>,
}

/// The mathematical value of an [`ArtworkUpload`].
pub struct ArtworkUploadView {
    pub target: Option<ArtworkTargetView>,
    pub content_type: Seq<char>,
    pub data: Seq<u8>,
}

impl View for ArtworkUpload {
    type V = ArtworkUploadView;

    open spec fn view(&self) -> ArtworkUploadView {
        ArtworkUploadView {
            target: self.target.deep_view(),
            content_type: self.content_type@,
            data: self.data@,
        }
    }
}

impl DeepView for ArtworkUpload {
    type V = ArtworkUploadView;

    open spec fn deep_view(&self) -> ArtworkUploadView {
        self.view()
    }
}

} // verus!
