use kopuz::config::{
    AlbumSortField, AlbumViewMode, AppConfig, ArtistSortField, ArtistViewOrder, BackBehavior,
    ChannelMode, CustomTheme, DeviceChangeBehavior, EqPreset, EqualizerSettings, FetchStrategy,
    HomeSection, ListenNowStyle, OfflineQuality, PlayerBarPosition, RegistryEntry,
    SampleRateMode, SavedLocalSource, SettingsLayout, SortCriterion, SortDirection, SortOrder,
    Source, TitlebarMode, TrackSortField, UiStyle, YtdlpHistoryEntry, YtdlpOptions,
};
use kopuz::convert::{
    channel_mode_from_proto, channel_mode_to_proto, config_from_proto, config_to_proto,
    equalizer_from_proto, equalizer_to_proto, sort_order_from_proto, source_ref_from_proto,
    source_ref_to_proto, ytdlp_options_from_proto,
};
use kopuz::wire;

fn sample_config() -> AppConfig {
    let mut equalizer = EqualizerSettings::flat();
    equalizer.enabled = true;
    equalizer.preset = EqPreset::BassBoost;
    equalizer.bands[3] = 0x4040_0000;
    let mut ytdlp = YtdlpOptions::off();
    ytdlp.embed_metadata = true;
    ytdlp.convert_thumbnail = "jpg".to_string();
    ytdlp.rate_limit = Some("2M".to_string());
    ytdlp.audio_quality = 5;
    AppConfig {
        local_sources: vec![SavedLocalSource {
            id: "lib-1".into(),
            name: "Music".into(),
            directories: vec!["/music".into(), "/more".into()],
        }],
        active_source: Source::Server("jellyfin".into()),
        source_explicitly_set: true,
        server_folders: vec![("srv".into(), vec!["a".into(), "b".into()])],
        spotify_browser: Some("chrome".into()),
        spotify_prefer_active_device: true,
        music_directory: vec!["/music".into()],
        theme: "dark".into(),
        live_theme_path: None,
        device_id: "device".into(),
        discord_presence: true,
        discord_presence_paused: false,
        discord_presence_source: true,
        sort_order: SortOrder::Album,
        album_sort: vec![SortCriterion { field: AlbumSortField::Year, direction: SortDirection::Desc }],
        library_sort: vec![SortCriterion { field: TrackSortField::Duration, direction: SortDirection::Asc }],
        artist_album_sort: vec![],
        artist_sort: vec![SortCriterion { field: ArtistSortField::Albums, direction: SortDirection::Desc }],
        album_view_mode: AlbumViewMode::List,
        artist_album_view_mode: AlbumViewMode::Grid,
        artists_view_mode: AlbumViewMode::List,
        artist_view_order: ArtistViewOrder::Albums,
        listen_counts: vec![("track-1".into(), 12)],
        language: "tr".into(),
        reduce_animations: true,
        fullscreen_use_player_bar: false,
        fullscreen_tabs_collapsed: true,
        cover_art_background: true,
        cover_art_darkening: 40,
        cover_art_blur: 12,
        custom_background_path: Some("/bg.png".into()),
        custom_font_path: None,
        tracing_enabled: false,
        auto_check_updates: true,
        minimize_to_tray: false,
        show_source_toggle: true,
        show_row_images: true,
        sidebar_order: vec!["home".into(), "albums".into()],
        volume: 70,
        volume_scroll_step: 5,
        crossfade_seconds: 6,
        custom_themes: vec![(
            "mine".into(),
            CustomTheme { name: "Mine".into(), vars: vec![("--bg".into(), "#000".into())] },
        )],
        back_behavior: BackBehavior::AlwaysPrev,
        channel_mode: ChannelMode::SwapLeftRight,
        equalizer,
        device_change_behavior: DeviceChangeBehavior::Pause,
        sample_rate_mode: SampleRateMode::Source,
        ytdlp_output_dir: Some("/downloads".into()),
        ytdlp_options: ytdlp,
        ytdlp_history: vec![YtdlpHistoryEntry {
            url: "https://example.com/watch".into(),
            title: "A video".into(),
            format: "opus".into(),
            status: "done".into(),
            error: None,
        }],
        titlebar_mode: TitlebarMode::Off,
        offline_quality: OfflineQuality::Kbps192,
        player_bar_position: PlayerBarPosition::Top,
        ui_style: UiStyle::Vaxry,
        settings_layout: SettingsLayout::TopBar,
        hero_height: 320,
        home_sections: vec![HomeSection { key: "recent".into(), enabled: false }],
        listen_now_style: ListenNowStyle::Cards,
        auto_fetch_covers: true,
        cover_fetch_strategy: FetchStrategy::MusicBrainzOnly,
        radio_registries: vec![RegistryEntry {
            url: "https://example.com/index.json".into(),
            enabled: true,
            is_default: false,
        }],
        pinned_stations: vec!["station".into()],
        prefer_local_lyrics: true,
        enable_musixmatch_lyrics: false,
        lyrics_offset_ms: -250,
        lyrics_offset_auto: true,
        lyrics_depth_blur: false,
        lyrics_depth_blur_strength: 3,
    }
}

#[test]
fn a_config_survives_the_wire() {
    let config = sample_config();
    let wire = config_to_proto(&config);
    assert_eq!(wire.sort_order, wire::SortOrder::Album.code());
    assert_eq!(wire.cover_art_darkening, 40);
    let back = config_from_proto(&wire);
    assert_eq!(back.local_sources[0].directories, vec!["/music".to_string(), "/more".to_string()]);
    assert!(matches!(&back.active_source, Source::Server(id) if id == "jellyfin"));
    assert_eq!(back.server_folders, config.server_folders);
    assert_eq!(back.sort_order, SortOrder::Album);
    assert_eq!(back.album_sort, config.album_sort);
    assert_eq!(back.library_sort, config.library_sort);
    assert_eq!(back.artist_sort, config.artist_sort);
    assert_eq!(back.album_view_mode, AlbumViewMode::List);
    assert_eq!(back.artist_view_order, ArtistViewOrder::Albums);
    assert_eq!(back.listen_counts, config.listen_counts);
    assert_eq!(back.cover_art_darkening, 40);
    assert_eq!(back.crossfade_seconds, 6);
    assert_eq!(back.custom_themes[0].1.vars, config.custom_themes[0].1.vars);
    assert_eq!(back.channel_mode, ChannelMode::SwapLeftRight);
    assert_eq!(back.equalizer.bands, config.equalizer.bands);
    assert_eq!(back.equalizer.preset, EqPreset::BassBoost);
    assert_eq!(back.ytdlp_options.rate_limit, Some("2M".to_string()));
    assert_eq!(back.ytdlp_options.audio_quality, 5);
    assert_eq!(back.ytdlp_history[0].title, "A video");
    assert_eq!(back.offline_quality, OfflineQuality::Kbps192);
    assert_eq!(back.home_sections[0].key, "recent");
    assert!(!back.home_sections[0].enabled);
    assert_eq!(back.cover_fetch_strategy, FetchStrategy::MusicBrainzOnly);
    assert_eq!(back.lyrics_offset_ms, -250);
    assert_eq!(back.lyrics_depth_blur_strength, 3);
}

#[test]
fn unknown_codes_fall_back_to_the_defaults() {
    assert_eq!(channel_mode_from_proto(99), ChannelMode::Stereo);
    assert_eq!(channel_mode_from_proto(0), ChannelMode::Stereo);
    assert_eq!(channel_mode_from_proto(channel_mode_to_proto(ChannelMode::Mono).code()), ChannelMode::Mono);
    assert_eq!(sort_order_from_proto(-1), SortOrder::Title);
}

#[test]
fn a_malformed_equalizer_keeps_the_flat_curve() {
    let mut wire_eq = equalizer_to_proto(&EqualizerSettings::flat());
    assert_eq!(wire_eq.bands.len(), 10);
    wire_eq.bands = vec![1, 2, 3];
    wire_eq.enabled = true;
    let back = equalizer_from_proto(Some(&wire_eq));
    assert!(back.enabled);
    assert_eq!(back.bands, EqualizerSettings::flat().bands);
    assert!(!equalizer_from_proto(None).enabled);
}

#[test]
fn sources_survive_the_wire_and_a_missing_one_is_local() {
    for source in [Source::Local, Source::LocalLibrary("lib".into()), Source::Server("srv".into())] {
        let wire_ref = source_ref_to_proto(&source);
        let back = source_ref_from_proto(Some(&wire_ref));
        match (&source, &back) {
            (Source::Local, Source::Local) => {}
            (Source::LocalLibrary(a), Source::LocalLibrary(b)) => assert_eq!(a, b),
            (Source::Server(a), Source::Server(b)) => assert_eq!(a, b),
            _ => panic!("a source changed on the wire"),
        }
    }
    assert!(matches!(source_ref_from_proto(None), Source::Local));
}

#[test]
fn missing_ytdlp_options_are_all_off() {
    let off = ytdlp_options_from_proto(None);
    assert!(!off.embed_metadata);
    assert_eq!(off.rate_limit, None);
}
