use kopuz::config::ChannelMode;
use kopuz::player::engine::{position_from, EngineStatus, FadingStatus, Phase, Transition};
use kopuz::player::mpris::{
    absolute_seek_target, art_url, relative_seek_target, update_modes, PlayModes, RepeatMode,
};
use kopuz::player::playback::{Command, LoadArgs, NowPlayingMeta, Player, END_GUARD_MICROS};
use kopuz::player::sink::{
    best_output_format, engine_notice, preferred_buffer_size, smoothed_latency, stream_error_event,
    EngineNotice, NullSink, OutputFormatRange, SinkEvent, StreamErrorKind,
};

fn meta(title: &str, duration_micros: u64) -> NowPlayingMeta {
    NowPlayingMeta {
        title: title.to_string(),
        artist: "Artist".to_string(),
        album: "Album".to_string(),
        duration_micros,
        artwork: None,
    }
}

fn playing(duration_micros: u64, played_seconds: u64) -> EngineStatus {
    EngineStatus {
        token: 7,
        phase: Phase::Playing,
        paused: false,
        duration_micros,
        pending_token: None,
        fading: None,
        base_micros: 1_000_000,
        played_samples: played_seconds * 2 * 48_000,
        channels: 2,
        sample_rate: 48_000,
        output_latency_micros: 20_000,
    }
}

#[test]
fn the_position_is_the_base_plus_the_played_time_clamped_to_the_duration() {
    assert_eq!(position_from(1_000_000, 96_000, 2, 48_000, 0), 2_000_000);
    assert_eq!(position_from(1_000_000, 96_000, 2, 48_000, 1_500_000), 1_500_000);
    assert_eq!(position_from(5, 96_000, 0, 48_000, 0), 5);
    assert_eq!(EngineStatus::idle().position(), 0);
    assert_eq!(playing(0, 3).position(), 4_000_000);
    let mut fading = playing(0, 3);
    fading.fading = Some(FadingStatus {
        token: 6,
        duration_micros: 10_000_000,
        base_micros: 9_000_000,
        played_samples: 4 * 96_000,
    });
    assert_eq!(fading.fading_position(), Some(10_000_000));
    assert!(fading.transition_in_flight());
    assert!(!playing(0, 3).transition_in_flight());
}

#[test]
fn an_immediate_load_shows_the_new_track_at_its_start() {
    let mut player = Player::new();
    let effects = player.load(LoadArgs {
        token: 1,
        meta: meta("One", 180_000_000),
        transition: Transition::Immediate,
        start_at_micros: Some(30_000_000),
    });
    match effects.command {
        Some(Command::Load(request)) => {
            assert_eq!(request.token, 1);
            assert_eq!(request.duration_micros, 180_000_000);
            assert_eq!(request.start_at_micros, Some(30_000_000));
        }
        _ => panic!("a load"),
    }
    let push = effects.now_playing.expect("an immediate switch pushes");
    assert_eq!(push.position_micros, 30_000_000);
    assert!(push.playing);
    assert_eq!(player.now_playing().map(|m| m.title.clone()), Some("One".to_string()));
}

#[test]
fn a_crossfade_defers_the_display_until_committed() {
    let mut player = Player::new();
    let effects = player.load(LoadArgs {
        token: 2,
        meta: meta("Two", 200_000_000),
        transition: Transition::Crossfade(3_000_000),
        start_at_micros: None,
    });
    assert!(effects.now_playing.is_none());
    let commit = player.commit_now_playing();
    assert!(commit.command.is_none());
    assert!(commit.now_playing.is_some());
}

#[test]
fn a_seek_stops_short_of_the_end_guard() {
    let mut player = Player::new();
    player.load(LoadArgs {
        token: 3,
        meta: meta("Three", 10_000_000),
        transition: Transition::Immediate,
        start_at_micros: None,
    });
    player.observe(playing(10_000_000, 1));
    match player.seek(9_900_000).command {
        Some(Command::Seek { position_micros, token }) => {
            assert_eq!(position_micros, 10_000_000 - END_GUARD_MICROS);
            assert_eq!(token, None);
        }
        _ => panic!("a seek"),
    }
    match player.seek(1_000_000).command {
        Some(Command::Seek { position_micros, .. }) => assert_eq!(position_micros, 1_000_000),
        _ => panic!("a seek"),
    }
    match player.seek_for_session(9_900_000, 3).command {
        Some(Command::Seek { position_micros, token }) => {
            assert_eq!(position_micros, 9_900_000);
            assert_eq!(token, Some(3));
        }
        _ => panic!("a seek"),
    }
    let pause = player.pause();
    assert!(matches!(pause.command, Some(Command::Pause)));
    assert_eq!(pause.now_playing.map(|p| (p.position_micros, p.playing)), Some((2_000_000, false)));
}

#[test]
fn stop_clears_the_display_but_a_transition_stop_keeps_it() {
    let mut player = Player::new();
    player.load(LoadArgs {
        token: 4,
        meta: meta("Four", 10_000_000),
        transition: Transition::Immediate,
        start_at_micros: None,
    });
    let between = player.stop_for_transition();
    assert!(matches!(between.command, Some(Command::Stop { pause_device: false })));
    assert!(player.now_playing().is_some());
    let stop = player.stop();
    assert!(matches!(stop.command, Some(Command::Stop { pause_device: true })));
    assert!(player.now_playing().is_none());
    // With nothing stored there is nothing to push.
    assert!(player.play_resume().now_playing.is_none());
    assert!(matches!(player.set_channel_mode(ChannelMode::Mono).command, Some(Command::SetChannelMode(ChannelMode::Mono))));
}

#[test]
fn media_control_modes_and_seeks() {
    let mut modes = PlayModes::new();
    assert!(update_modes(&mut modes, true, RepeatMode::Track));
    assert!(!update_modes(&mut modes, true, RepeatMode::Track));
    assert_eq!(modes, PlayModes { shuffle: true, repeat: RepeatMode::Track });
    assert_eq!(relative_seek_target(5_000_000, -10_000_000), 0);
    assert_eq!(relative_seek_target(5_000_000, 1_000_000), 6_000_000);
    assert_eq!(absolute_seek_target(-1), 0);
    assert_eq!(absolute_seek_target(42), 42);
}

#[test]
fn artwork_urls_are_made_absolute() {
    assert_eq!(art_url("https://a/b.jpg", "/cwd"), "https://a/b.jpg");
    assert_eq!(art_url("/music/cover.jpg", "/cwd"), "file:///music/cover.jpg");
    assert_eq!(art_url("cover.jpg", "/cwd"), "file:///cwd/cover.jpg");
}

#[test]
fn sink_decisions() {
    assert_eq!(engine_notice(SinkEvent::DeviceLost), EngineNotice::DeviceError { device_lost: true });
    assert_eq!(stream_error_event(StreamErrorKind::Xrun), None);
    assert_eq!(stream_error_event(StreamErrorKind::Other), Some(SinkEvent::StreamStalled));
    assert_eq!(smoothed_latency(0, 800), 800);
    assert_eq!(smoothed_latency(800, 1600), 900);
    assert_eq!(preferred_buffer_size(false, Some((64, 4096))), Some(512));
    assert_eq!(preferred_buffer_size(true, Some((64, 1024))), Some(1024));
    assert_eq!(preferred_buffer_size(true, None), None);
    let ranges = vec![
        OutputFormatRange { channels: 2, sample_format: 1, min_sample_rate: 8_000, max_sample_rate: 44_100 },
        OutputFormatRange { channels: 2, sample_format: 1, min_sample_rate: 8_000, max_sample_rate: 96_000 },
        OutputFormatRange { channels: 2, sample_format: 1, min_sample_rate: 48_000, max_sample_rate: 48_000 },
        OutputFormatRange { channels: 1, sample_format: 1, min_sample_rate: 8_000, max_sample_rate: 96_000 },
    ];
    assert_eq!(best_output_format(2, 1, &ranges, 48_000), Some((1, 48_000)));
    assert_eq!(best_output_format(6, 1, &ranges, 48_000), None);

    let mut sink = NullSink::new();
    assert!(sink.config().is_none());
    let config = sink.open(Some(44_100), |_| ()).expect("a null sink opens");
    assert_eq!(config.sample_rate, 44_100);
    assert_eq!(sink.config(), Some(config));
    assert!(sink.play().is_ok());
    sink.close();
    assert!(sink.config().is_none());
}
