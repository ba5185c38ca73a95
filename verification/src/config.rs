//! The application settings, as the daemon holds them in process.
//!
//! Every value here is also carried on the wire (see [`crate::wire`]); the
//! conversions between the two live in [`crate::convert`]. Floating-point
//! settings (volume, equalizer gains) are held as their IEEE-754 bit patterns:
//! nothing in this crate computes with them, it only carries them unchanged.

use vstd::prelude::*;

verus! {

/// A boolean setting as it appears in the mathematical views below. Keeping
/// booleans as a two-valued enumeration there keeps equalities between these
/// wide records cheap for the prover.
#[derive(Clone, Copy, Debug, PartialEq, Eq, Structural)]
pub enum Switch {
    Off,
    On,
}

/// The items of a vector, each by its deep view. Records mention a vector
/// field through this one name rather than through the vector's own deep view.
#[verifier::opaque]
pub open spec fn items<T: DeepView>(v: Vec<T>) -> Seq<T::V> {
    v.deep_view()
}

/// The [`Switch`] position of a boolean.
pub open spec fn switch(value: bool) -> Switch {
    if value {
        Switch::On
    } else {
        Switch::Off
    }
}

#[derive(Clone, Copy, Debug, PartialEq, Eq, Structural)]
pub enum AlbumViewMode {
    Grid,
    List,
}

impl Default for AlbumViewMode {
    fn default() -> (r: Self)
        ensures
            r == AlbumViewMode::Grid,
    {
        AlbumViewMode::Grid
    }
}

#[derive(Clone, Copy, Debug, PartialEq, Eq, Structural)]
pub enum ArtistViewOrder {
    Tracks,
    Albums,
}

#[derive(Clone, Copy, Debug, PartialEq, Eq, Structural)]
pub enum BackBehavior {
    RewindThenPrev,
    AlwaysPrev,
}

impl Default for BackBehavior {
    fn default() -> (r: Self)
        ensures
            r == BackBehavior::RewindThenPrev,
    {
        BackBehavior::RewindThenPrev
    }
}

#[derive(Clone, Copy, Debug, PartialEq, Eq, Structural)]
pub enum ChannelMode {
    Stereo,
    Mono,
    LeftOnly,
    RightOnly,
    SwapLeftRight,
}

impl Default for ChannelMode {
    fn default() -> (r: Self)
        ensures
            r == ChannelMode::Stereo,
    {
        ChannelMode::Stereo
    }
}

#[derive(Clone, Copy, Debug, PartialEq, Eq, Structural)]
pub enum DeviceChangeBehavior {
    Resume,
    Pause,
}

impl Default for DeviceChangeBehavior {
    fn default() -> (r: Self)
        ensures
            r == DeviceChangeBehavior::Resume,
    {
        DeviceChangeBehavior::Resume
    }
}

#[derive(Clone, Copy, Debug, PartialEq, Eq, Structural)]
pub enum FetchStrategy {
    MusicBrainzFirst,
    LastFmFirst,
    MusicBrainzOnly,
    LastFmOnly,
}

impl Default for FetchStrategy {
    fn default() -> (r: Self)
        ensures
            r == FetchStrategy::MusicBrainzFirst,
    {
        FetchStrategy::MusicBrainzFirst
    }
}

#[derive(Clone, Copy, Debug, PartialEq, Eq, Structural)]
pub enum ListenNowStyle {
    List,
    Cards,
}

impl Default for ListenNowStyle {
    fn default() -> (r: Self)
        ensures
            r == ListenNowStyle::List,
    {
        ListenNowStyle::List
    }
}

#[derive(Clone, Copy, Debug, PartialEq, Eq, Structural)]
pub enum OfflineQuality {
    Kbps128,
    Kbps160,
    Kbps192,
    Kbps256,
    Kbps320,
    Original,
}

impl Default for OfflineQuality {
    fn default() -> (r: Self)
        ensures
            r == OfflineQuality::Kbps128,
    {
        OfflineQuality::Kbps128
    }
}

#[derive(Clone, Copy, Debug, PartialEq, Eq, Structural)]
pub enum PlayerBarPosition {
    Bottom,
    Top,
}

impl Default for PlayerBarPosition {
    fn default() -> (r: Self)
        ensures
            r == PlayerBarPosition::Bottom,
    {
        PlayerBarPosition::Bottom
    }
}

#[derive(Clone, Copy, Debug, PartialEq, Eq, Structural)]
pub enum SampleRateMode {
    System,
    Source,
}

impl Default for SampleRateMode {
    fn default() -> (r: Self)
        ensures
            r == SampleRateMode::System,
    {
        SampleRateMode::System
    }
}

#[derive(Clone, Copy, Debug, PartialEq, Eq, Structural)]
pub enum SettingsLayout {
    Cd,
    TopBar,
}

impl Default for SettingsLayout {
    fn default() -> (r: Self)
        ensures
            r == SettingsLayout::Cd,
    {
        SettingsLayout::Cd
    }
}

#[derive(Clone, Copy, Debug, PartialEq, Eq, Structural)]
pub enum SortOrder {
    Title,
    Artist,
    Album,
}

#[derive(Clone, Copy, Debug, PartialEq, Eq, Structural)]
pub enum TitlebarMode {
    Custom,
    System,
    Off,
}

impl Default for TitlebarMode {
    fn default() -> (r: Self)
        ensures
            r == TitlebarMode::Custom,
    {
        TitlebarMode::Custom
    }
}

#[derive(Clone, Copy, Debug, PartialEq, Eq, Structural)]
pub enum UiStyle {
    Normal,
    Vaxry,
}

impl Default for UiStyle {
    fn default() -> (r: Self)
        ensures
            r == UiStyle::Normal,
    {
        UiStyle::Normal
    }
}

#[derive(Clone, Copy, Debug, PartialEq, Eq, Structural)]
pub enum EqPreset {
    Flat,
    BassBoost,
    TrebleBoost,
    VocalBoost,
    Loudness,
    Custom,
}

impl Default for EqPreset {
    fn default() -> (r: Self)
        ensures
            r == EqPreset::Flat,
    {
        EqPreset::Flat
    }
}

#[derive(Clone, Copy, Debug, PartialEq, Eq, Structural)]
pub enum SortDirection {
    Asc,
    Desc,
}

impl Default for SortDirection {
    fn default() -> (r: Self)
        ensures
            r == SortDirection::Asc,
    {
        SortDirection::Asc
    }
}

#[derive(Clone, Copy, Debug, PartialEq, Eq, Structural)]
pub enum AlbumSortField {
    Title,
    Artist,
    Year,
    Genre,
}

#[derive(Clone, Copy, Debug, PartialEq, Eq, Structural)]
pub enum TrackSortField {
    Title,
    Artist,
    Album,
    Duration,
    DateAdded,
}

#[derive(Clone, Copy, Debug, PartialEq, Eq, Structural)]
pub enum ArtistSortField {
    Name,
    Tracks,
    Albums,
}

/// One sort key of a list view: which field, in which direction.
#[derive(Clone, Copy, Debug, PartialEq, Eq, Structural)]
pub struct SortCriterion<F> {
    pub field: F,
    pub direction: SortDirection,
}

impl<F> DeepView for SortCriterion<F> {
    type V = SortCriterion<F>;

    open spec fn deep_view(&self) -> SortCriterion<F> {
        *self
    }
}

/// Which library the app is browsing.
pub enum Source {
    /// Every local folder at once.
    Local,
    /// One saved local library, by id.
    LocalLibrary(String),
    /// A media server, by id.
    Server(String),
}

/// The mathematical value of a [`Source`].
pub enum SourceView {
    Local,
    LocalLibrary(Seq<char>),
    Server(Seq<char>),
}

impl View for Source {
    type V = SourceView;

    open spec fn view(&self) -> SourceView {
        match self {
            Source::Local => SourceView::Local,
            Source::LocalLibrary(id) => SourceView::LocalLibrary(id@),
            Source::Server(id) => SourceView::Server(id@),
        }
    }
}

/// A saved local library: its id, display name and folders.
pub struct SavedLocalSource {
    pub id: String,
    pub name: String,
    pub directories: Vec<String>,
}

/// The mathematical value of a [`SavedLocalSource`]: strings as character sequences.
pub struct SavedLocalSourceView {
    pub id: Seq<char>,
    pub name: Seq<char>,
    pub directories: Seq<Seq<char>>,
}

impl View for SavedLocalSource {
    type V = SavedLocalSourceView;

    open spec fn view(&self) -> SavedLocalSourceView {
        SavedLocalSourceView {
            id: self.id@,
            name: self.name@,
            directories: items(self.directories),
        }
    }
}

impl DeepView for SavedLocalSource {
    type V = SavedLocalSourceView;

    open spec fn deep_view(&self) -> SavedLocalSourceView {
        self.view()
    }
}

/// One section of the home page and whether it is shown.
pub struct HomeSection {
    pub key: String,
    pub enabled: bool,
}

/// The mathematical value of a [`HomeSection`]: strings as character sequences.
pub struct HomeSectionView {
    pub key: Seq<char>,
    pub enabled: Switch,
}

impl View for HomeSection {
    type V = HomeSectionView;

    open spec fn view(&self) -> HomeSectionView {
        HomeSectionView {
            key: self.key@,
            enabled: switch(self.enabled),
        }
    }
}

impl DeepView for HomeSection {
    type V = HomeSectionView;

    open spec fn deep_view(&self) -> HomeSectionView {
        self.view()
    }
}

/// A radio station registry the app reads stations from.
pub struct RegistryEntry {
    pub url: String,
    pub enabled: bool,
    pub is_default: bool,
}

/// The mathematical value of a [`RegistryEntry`]: strings as character sequences.
pub struct RegistryEntryView {
    pub url: Seq<char>,
    pub enabled: Switch,
    pub is_default: Switch,
}

impl View for RegistryEntry {
    type V = RegistryEntryView;

    open spec fn view(&self) -> RegistryEntryView {
        RegistryEntryView {
            url: self.url@,
            enabled: switch(self.enabled),
            is_default: switch(self.is_default),
        }
    }
}

impl DeepView for RegistryEntry {
    type V = RegistryEntryView;

    open spec fn deep_view(&self) -> RegistryEntryView {
        self.view()
    }
}

/// A user theme: a name and its CSS variables, in order.
pub struct CustomTheme {
    pub name: String,
    pub vars: Vec<(String, String)>,
}

/// The mathematical value of a [`CustomTheme`]: strings as character sequences.
pub struct CustomThemeView {
    pub name: Seq<char>,
    pub vars: Seq<(Seq<char>, Seq<char>)>,
}

impl View for CustomTheme {
    type V = CustomThemeView;

    open spec fn view(&self) -> CustomThemeView {
        CustomThemeView {
            name: self.name@,
            vars: items(self.vars),
        }
    }
}

impl DeepView for CustomTheme {
    type V = CustomThemeView;

    open spec fn deep_view(&self) -> CustomThemeView {
        self.view()
    }
}

/// One past yt-dlp download as shown in the history list.
pub struct YtdlpHistoryEntry {
    pub url: String,
    pub title: String,
    pub format: String,
    pub status: String,
    pub error: Option<String>,
}

/// The mathematical value of a [`YtdlpHistoryEntry`]: strings as character sequences.
pub struct YtdlpHistoryEntryView {
    pub url: Seq<char>,
    pub title: Seq<char>,
    pub format: Seq<char>,
    pub status: Seq<char>,
    pub error: Option<Seq<char>>,
}

impl View for YtdlpHistoryEntry {
    type V = YtdlpHistoryEntryView;

    open spec fn view(&self) -> YtdlpHistoryEntryView {
        YtdlpHistoryEntryView {
            url: self.url@,
            title: self.title@,
            format: self.format@,
            status: self.status@,
            error: self.error.deep_view(),
        }
    }
}

impl DeepView for YtdlpHistoryEntry {
    type V = YtdlpHistoryEntryView;

    open spec fn deep_view(&self) -> YtdlpHistoryEntryView {
        self.view()
    }
}

/// The ten-band equalizer. Gains are IEEE-754 bit patterns of `f32` decibels.
pub struct EqualizerSettings {
    pub enabled: bool,
    pub preset: EqPreset,
    pub bands: [u32; 10],
    pub preamp_db: u32,
}

/// The mathematical value of an [`EqualizerSettings`].
pub struct EqualizerSettingsView {
    pub enabled: Switch,
    pub preset: EqPreset,
    pub bands: Seq<u32>,
    pub preamp_db: u32,
}

impl View for EqualizerSettings {
    type V = EqualizerSettingsView;

    open spec fn view(&self) -> EqualizerSettingsView {
        EqualizerSettingsView {
            enabled: switch(self.enabled),
            preset: self.preset,
            bands: self.bands@,
            preamp_db: self.preamp_db,
        }
    }
}

impl DeepView for EqualizerSettings {
    type V = EqualizerSettingsView;

    open spec fn deep_view(&self) -> EqualizerSettingsView {
        self.view()
    }
}

/// The equalizer a fresh install starts with: off, flat, every gain 0 dB.
pub open spec fn default_equalizer() -> EqualizerSettingsView {
    EqualizerSettingsView { enabled: Switch::Off, preset: EqPreset::Flat, bands: Seq::new(10, |i: int| 0u32), preamp_db: 0 }
}

impl EqualizerSettings {
    /// The default equalizer.
    pub fn flat() -> (r: Self)
        ensures
            r@ == default_equalizer(),
    {
        let r = EqualizerSettings { enabled: false, preset: EqPreset::Flat, bands: [0u32, 0, 0, 0, 0, 0, 0, 0, 0, 0], preamp_db: 0 };
        assert(r.bands@ =~= default_equalizer().bands);
        r
    }
}

/// Options handed to yt-dlp for every download.
pub struct YtdlpOptions {
    pub embed_metadata: bool,
    pub embed_thumbnail: bool,
    pub postprocess_thumbnail_square: bool,
    pub embed_chapters: bool,
    pub embed_subs: bool,
    pub embed_info_json: bool,
    pub write_thumbnail: bool,
    pub write_description: bool,
    pub write_info_json: bool,
    pub write_subs: bool,
    pub write_auto_subs: bool,
    pub write_comments: bool,
    pub sponsorblock: bool,
    pub sponsorblock_mark: bool,
    pub split_chapters: bool,
    pub convert_thumbnail: String,
    pub no_playlist: bool,
    pub xattrs: bool,
    pub no_mtime: bool,
    pub rate_limit: Option<String>,
    pub cookies_from_browser: Option<String>,
    pub js_runtimes: Option<String>,
    pub audio_quality: u8,
}

/// The mathematical value of a [`YtdlpOptions`]: strings as character sequences.
pub struct YtdlpOptionsView {
    pub embed_metadata: Switch,
    pub embed_thumbnail: Switch,
    pub postprocess_thumbnail_square: Switch,
    pub embed_chapters: Switch,
    pub embed_subs: Switch,
    pub embed_info_json: Switch,
    pub write_thumbnail: Switch,
    pub write_description: Switch,
    pub write_info_json: Switch,
    pub write_subs: Switch,
    pub write_auto_subs: Switch,
    pub write_comments: Switch,
    pub sponsorblock: Switch,
    pub sponsorblock_mark: Switch,
    pub split_chapters: Switch,
    pub convert_thumbnail: Seq<char>,
    pub no_playlist: Switch,
    pub xattrs: Switch,
    pub no_mtime: Switch,
    pub rate_limit: Option<Seq<char>>,
    pub cookies_from_browser: Option<Seq<char>>,
    pub js_runtimes: Option<Seq<char>>,
    pub audio_quality: u8,
}

impl View for YtdlpOptions {
    type V = YtdlpOptionsView;

    open spec fn view(&self) -> YtdlpOptionsView {
        YtdlpOptionsView {
            embed_metadata: switch(self.embed_metadata),
            embed_thumbnail: switch(self.embed_thumbnail),
            postprocess_thumbnail_square: switch(self.postprocess_thumbnail_square),
            embed_chapters: switch(self.embed_chapters),
            embed_subs: switch(self.embed_subs),
            embed_info_json: switch(self.embed_info_json),
            write_thumbnail: switch(self.write_thumbnail),
            write_description: switch(self.write_description),
            write_info_json: switch(self.write_info_json),
            write_subs: switch(self.write_subs),
            write_auto_subs: switch(self.write_auto_subs),
            write_comments: switch(self.write_comments),
            sponsorblock: switch(self.sponsorblock),
            sponsorblock_mark: switch(self.sponsorblock_mark),
            split_chapters: switch(self.split_chapters),
            convert_thumbnail: self.convert_thumbnail@,
            no_playlist: switch(self.no_playlist),
            xattrs: switch(self.xattrs),
            no_mtime: switch(self.no_mtime),
            rate_limit: self.rate_limit.deep_view(),
            cookies_from_browser: self.cookies_from_browser.deep_view(),
            js_runtimes: self.js_runtimes.deep_view(),
            audio_quality: self.audio_quality,
        }
    }
}

impl DeepView for YtdlpOptions {
    type V = YtdlpOptionsView;

    open spec fn deep_view(&self) -> YtdlpOptionsView {
        self.view()
    }
}

/// The options a fresh install starts with: every switch off, nothing set.
pub open spec fn default_ytdlp_options() -> YtdlpOptionsView {
    YtdlpOptionsView {
        embed_metadata: Switch::Off,
        embed_thumbnail: Switch::Off,
        postprocess_thumbnail_square: Switch::Off,
        embed_chapters: Switch::Off,
        embed_subs: Switch::Off,
        embed_info_json: Switch::Off,
        write_thumbnail: Switch::Off,
        write_description: Switch::Off,
        write_info_json: Switch::Off,
        write_subs: Switch::Off,
        write_auto_subs: Switch::Off,
        write_comments: Switch::Off,
        sponsorblock: Switch::Off,
        sponsorblock_mark: Switch::Off,
        split_chapters: Switch::Off,
        convert_thumbnail: Seq::empty(),
        no_playlist: Switch::Off,
        xattrs: Switch::Off,
        no_mtime: Switch::Off,
        rate_limit: None,
        cookies_from_browser: None,
        js_runtimes: None,
        audio_quality: 0,
    }
}

impl YtdlpOptions {
    /// The default options.
    pub fn off() -> (r: Self)
        ensures
            r@ == default_ytdlp_options(),
    {
        let r = YtdlpOptions {
            embed_metadata: false,
            embed_thumbnail: false,
            postprocess_thumbnail_square: false,
            embed_chapters: false,
            embed_subs: false,
            embed_info_json: false,
            write_thumbnail: false,
            write_description: false,
            write_info_json: false,
            write_subs: false,
            write_auto_subs: false,
            write_comments: false,
            sponsorblock: false,
            sponsorblock_mark: false,
            split_chapters: false,
            convert_thumbnail: String::new(),
            no_playlist: false,
            xattrs: false,
            no_mtime: false,
            rate_limit: None,
            cookies_from_browser: None,
            js_runtimes: None,
            audio_quality: 0,
        };
        r
    }
}

/// The whole settings surface that travels between the daemon and its clients.
pub struct AppConfig {
    pub local_sources: Vec<SavedLocalSource>,
    pub active_source: Source,
    pub source_explicitly_set: bool,
    pub server_folders: Vec<(String, Vec<String>)>,
    pub spotify_browser: Option<String>,
    pub spotify_prefer_active_device: bool,
    pub music_directory: Vec<String>,
    pub theme: String,
    pub live_theme_path: Option<String>,
    pub device_id: String,
    pub discord_presence: bool,
    pub discord_presence_paused: bool,
    pub discord_presence_source: bool,
    pub sort_order: SortOrder,
    pub album_sort: Vec<SortCriterion<AlbumSortField>>,
    pub library_sort: Vec<SortCriterion<TrackSortField>>,
    pub artist_album_sort: Vec<SortCriterion<AlbumSortField>>,
    pub artist_sort: Vec<SortCriterion<ArtistSortField>>,
    pub album_view_mode: AlbumViewMode,
    pub artist_album_view_mode: AlbumViewMode,
    pub artists_view_mode: AlbumViewMode,
    pub artist_view_order: ArtistViewOrder,
    pub listen_counts: Vec<(String, u32)>,
    pub language: String,
    pub reduce_animations: bool,
    pub fullscreen_use_player_bar: bool,
    pub fullscreen_tabs_collapsed: bool,
    pub cover_art_background: bool,
    pub cover_art_darkening: u8,
    pub cover_art_blur: u8,
    pub custom_background_path: Option<String>,
    pub custom_font_path: Option<String>,
    pub tracing_enabled: bool,
    pub auto_check_updates: bool,
    pub minimize_to_tray: bool,
    pub show_source_toggle: bool,
    pub show_row_images: bool,
    pub sidebar_order: Vec<String>,
    pub volume: u32,
    pub volume_scroll_step: u32,
    pub crossfade_seconds: u8,
    pub custom_themes: Vec<(String, CustomTheme)>,
    pub back_behavior: BackBehavior,
    pub channel_mode: ChannelMode,
    pub equalizer: EqualizerSettings,
    pub device_change_behavior: DeviceChangeBehavior,
    pub sample_rate_mode: SampleRateMode,
    pub ytdlp_output_dir: Option<String>,
    pub ytdlp_options: YtdlpOptions,
    pub ytdlp_history: Vec<YtdlpHistoryEntry>,
    pub titlebar_mode: TitlebarMode,
    pub offline_quality: OfflineQuality,
    pub player_bar_position: PlayerBarPosition,
    pub ui_style: UiStyle,
    pub settings_layout: SettingsLayout,
    pub hero_height: u32,
    pub home_sections: Vec<HomeSection>,
    pub listen_now_style: ListenNowStyle,
    pub auto_fetch_covers: bool,
    pub cover_fetch_strategy: FetchStrategy,
    pub radio_registries: Vec<RegistryEntry>,
    pub pinned_stations: Vec<String>,
    pub prefer_local_lyrics: bool,
    pub enable_musixmatch_lyrics: bool,
    pub lyrics_offset_ms: i64,
    pub lyrics_offset_auto: bool,
    pub lyrics_depth_blur: bool,
    pub lyrics_depth_blur_strength: u8,
}

/// The mathematical value of a [`AppConfig`]: strings as character sequences.
pub struct AppConfigView {
    pub local_sources: Seq<SavedLocalSourceView>,
    pub active_source: SourceView,
    pub source_explicitly_set: Switch,
    pub server_folders: Seq<(Seq<char>, Seq<Seq<char>>)>,
    pub spotify_browser: Option<Seq<char>>,
    pub spotify_prefer_active_device: Switch,
    pub music_directory: Seq<Seq<char>>,
    pub theme: Seq<char>,
    pub live_theme_path: Option<Seq<char>>,
    pub device_id: Seq<char>,
    pub discord_presence: Switch,
    pub discord_presence_paused: Switch,
    pub discord_presence_source: Switch,
    pub sort_order: SortOrder,
    pub album_sort: Seq<SortCriterion<AlbumSortField>>,
    pub library_sort: Seq<SortCriterion<TrackSortField>>,
    pub artist_album_sort: Seq<SortCriterion<AlbumSortField>>,
    pub artist_sort: Seq<SortCriterion<ArtistSortField>>,
    pub album_view_mode: AlbumViewMode,
    pub artist_album_view_mode: AlbumViewMode,
    pub artists_view_mode: AlbumViewMode,
    pub artist_view_order: ArtistViewOrder,
    pub listen_counts: Seq<(Seq<char>, u32)>,
    pub language: Seq<char>,
    pub reduce_animations: Switch,
    pub fullscreen_use_player_bar: Switch,
    pub fullscreen_tabs_collapsed: Switch,
    pub cover_art_background: Switch,
    pub cover_art_darkening: u8,
    pub cover_art_blur: u8,
    pub custom_background_path: Option<Seq<char>>,
    pub custom_font_path: Option<Seq<char>>,
    pub tracing_enabled: Switch,
    pub auto_check_updates: Switch,
    pub minimize_to_tray: Switch,
    pub show_source_toggle: Switch,
    pub show_row_images: Switch,
    pub sidebar_order: Seq<Seq<char>>,
    pub volume: u32,
    pub volume_scroll_step: u32,
    pub crossfade_seconds: u8,
    pub custom_themes: Seq<(Seq<char>, CustomThemeView)>,
    pub back_behavior: BackBehavior,
    pub channel_mode: ChannelMode,
    pub equalizer: EqualizerSettingsView,
    pub device_change_behavior: DeviceChangeBehavior,
    pub sample_rate_mode: SampleRateMode,
    pub ytdlp_output_dir: Option<Seq<char>>,
    pub ytdlp_options: YtdlpOptionsView,
    pub ytdlp_history: Seq<YtdlpHistoryEntryView>,
    pub titlebar_mode: TitlebarMode,
    pub offline_quality: OfflineQuality,
    pub player_bar_position: PlayerBarPosition,
    pub ui_style: UiStyle,
    pub settings_layout: SettingsLayout,
    pub hero_height: u32,
    pub home_sections: Seq<HomeSectionView>,
    pub listen_now_style: ListenNowStyle,
    pub auto_fetch_covers: Switch,
    pub cover_fetch_strategy: FetchStrategy,
    pub radio_registries: Seq<RegistryEntryView>,
    pub pinned_stations: Seq<Seq<char>>,
    pub prefer_local_lyrics: Switch,
    pub enable_musixmatch_lyrics: Switch,
    pub lyrics_offset_ms: i64,
    pub lyrics_offset_auto: Switch,
    pub lyrics_depth_blur: Switch,
    pub lyrics_depth_blur_strength: u8,
}

impl View for AppConfig {
    type V = AppConfigView;

    open spec fn view(&self) -> AppConfigView {
        AppConfigView {
            local_sources: items(self.local_sources),
            active_source: self.active_source@,
            source_explicitly_set: switch(self.source_explicitly_set),
            server_folders: items(self.server_folders),
            spotify_browser: self.spotify_browser.deep_view(),
            spotify_prefer_active_device: switch(self.spotify_prefer_active_device),
            music_directory: items(self.music_directory),
            theme: self.theme@,
            live_theme_path: self.live_theme_path.deep_view(),
            device_id: self.device_id@,
            discord_presence: switch(self.discord_presence),
            discord_presence_paused: switch(self.discord_presence_paused),
            discord_presence_source: switch(self.discord_presence_source),
            sort_order: self.sort_order,
            album_sort: items(self.album_sort),
            library_sort: items(self.library_sort),
            artist_album_sort: items(self.artist_album_sort),
            artist_sort: items(self.artist_sort),
            album_view_mode: self.album_view_mode,
            artist_album_view_mode: self.artist_album_view_mode,
            artists_view_mode: self.artists_view_mode,
            artist_view_order: self.artist_view_order,
            listen_counts: items(self.listen_counts),
            language: self.language@,
            reduce_animations: switch(self.reduce_animations),
            fullscreen_use_player_bar: switch(self.fullscreen_use_player_bar),
            fullscreen_tabs_collapsed: switch(self.fullscreen_tabs_collapsed),
            cover_art_background: switch(self.cover_art_background),
            cover_art_darkening: self.cover_art_darkening,
            cover_art_blur: self.cover_art_blur,
            custom_background_path: self.custom_background_path.deep_view(),
            custom_font_path: self.custom_font_path.deep_view(),
            tracing_enabled: switch(self.tracing_enabled),
            auto_check_updates: switch(self.auto_check_updates),
            minimize_to_tray: switch(self.minimize_to_tray),
            show_source_toggle: switch(self.show_source_toggle),
            show_row_images: switch(self.show_row_images),
            sidebar_order: items(self.sidebar_order),
            volume: self.volume,
            volume_scroll_step: self.volume_scroll_step,
            crossfade_seconds: self.crossfade_seconds,
            custom_themes: items(self.custom_themes),
            back_behavior: self.back_behavior,
            channel_mode: self.channel_mode,
            equalizer: self.equalizer@,
            device_change_behavior: self.device_change_behavior,
            sample_rate_mode: self.sample_rate_mode,
            ytdlp_output_dir: self.ytdlp_output_dir.deep_view(),
            ytdlp_options: self.ytdlp_options@,
            ytdlp_history: items(self.ytdlp_history),
            titlebar_mode: self.titlebar_mode,
            offline_quality: self.offline_quality,
            player_bar_position: self.player_bar_position,
            ui_style: self.ui_style,
            settings_layout: self.settings_layout,
            hero_height: self.hero_height,
            home_sections: items(self.home_sections),
            listen_now_style: self.listen_now_style,
            auto_fetch_covers: switch(self.auto_fetch_covers),
            cover_fetch_strategy: self.cover_fetch_strategy,
            radio_registries: items(self.radio_registries),
            pinned_stations: items(self.pinned_stations),
            prefer_local_lyrics: switch(self.prefer_local_lyrics),
            enable_musixmatch_lyrics: switch(self.enable_musixmatch_lyrics),
            lyrics_offset_ms: self.lyrics_offset_ms,
            lyrics_offset_auto: switch(self.lyrics_offset_auto),
            lyrics_depth_blur: switch(self.lyrics_depth_blur),
            lyrics_depth_blur_strength: self.lyrics_depth_blur_strength,
        }
    }
}

impl DeepView for AppConfig {
    type V = AppConfigView;

    open spec fn deep_view(&self) -> AppConfigView {
        self.view()
    }
}

} // verus!
