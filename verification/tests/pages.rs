use kopuz::api::JobState;
use kopuz::pages::favorites::{track_matches_filter, TrackMetadata};
use kopuz::api::YtdlpAudioFormat;
use kopuz::pages::home::{
    is_unknown_album, is_unknown_artist, section_label_key, song_card_actions, SongCardAction,
};
use kopuz::pages::settings_actions::cookie_value;
use kopuz::pages::ytdlp_jobs::{has_active_duplicate, report_completes, report_status, seed_status, AudioFormat, JobStatus};
use kopuz::text::contains_text;

fn track() -> TrackMetadata {
    TrackMetadata {
        title: "Midnight City".to_string(),
        artist: "M83".to_string(),
        album: "Hurry Up, We're Dreaming".to_string(),
        artists: vec!["Anthony Gonzalez".to_string()],
    }
}

#[test]
fn favorites_filter_matches_track_metadata_case_insensitively() {
    let track = track();

    for query in ["", "midnight", "M83", "dreaming", "GONZALEZ"] {
        assert!(track_matches_filter(&track, &query.to_lowercase()));
    }
    assert!(!track_matches_filter(&track, "unrelated"));
}

#[test]
fn an_upper_case_query_matches_nothing_but_itself_lowered() {
    // The query is lower-cased by the caller; an upper-case one can't occur
    // in lower-cased metadata.
    assert!(!track_matches_filter(&track(), "MIDNIGHT"));
    assert!(track_matches_filter(&track(), "city"));
}

#[test]
fn unknown_names_are_recognised_in_any_case_once_trimmed() {
    assert!(is_unknown_artist(""));
    assert!(is_unknown_artist("   "));
    assert!(is_unknown_artist("  Unknown ARTIST "));
    assert!(!is_unknown_artist("M83"));
    assert!(is_unknown_album("unknown album"));
    assert!(is_unknown_album("\t UNKNOWN ALBUM "));
    assert!(!is_unknown_album("Unknown Artist"));
}

#[test]
fn text_is_searched_for_an_infix() {
    assert!(contains_text("midnight city", "night"));
    assert!(contains_text("abc", ""));
    assert!(!contains_text("ab", "abc"));
}

#[test]
fn history_formats_are_read_back() {
    assert_eq!(AudioFormat::from_str("MP3"), AudioFormat::Mp3);
    assert_eq!(AudioFormat::from_str("FLAC"), AudioFormat::Flac);
    assert_eq!(AudioFormat::from_str("OPUS"), AudioFormat::Opus);
    assert_eq!(AudioFormat::from_str("WAV"), AudioFormat::Wav);
    assert_eq!(AudioFormat::from_str("Video (MP4)"), AudioFormat::Video);
    assert_eq!(AudioFormat::from_str("mp3"), AudioFormat::BestAudio);
    assert_eq!(AudioFormat::Opus.label_key(), "ytdlp_format_opus");
    assert_eq!(AudioFormat::BestAudio.label_key(), "ytdlp_format_best_audio");
}

#[test]
fn a_cookie_is_read_from_the_first_piece_that_names_it() {
    let header = "theme=dark; media-user-token=abc=def ;other=1; media-user-token=second";
    assert_eq!(cookie_value(header, "media-user-token"), Some("abc=def".to_string()));
    assert_eq!(cookie_value(header, "theme"), Some("dark".to_string()));
    assert_eq!(cookie_value("empty=; empty=later", "empty"), Some("later".to_string()));
    assert_eq!(cookie_value("novalue; x=1", "novalue"), None);
    assert_eq!(cookie_value("", "x"), None);
}

#[test]
fn home_sections_and_song_cards() {
    assert_eq!(section_label_key("listen_now"), Some("home_section_listen_now"));
    assert_eq!(section_label_key("custom"), None);
    assert_eq!(
        song_card_actions(true),
        vec![SongCardAction::PlayNext, SongCardAction::AddToQueue, SongCardAction::StartRadio, SongCardAction::Share]
    );
    assert_eq!(
        song_card_actions(false),
        vec![SongCardAction::PlayNext, SongCardAction::AddToQueue, SongCardAction::Share]
    );
}

#[test]
fn formats_map_to_the_daemon_formats() {
    assert_eq!(AudioFormat::BestAudio.api(), YtdlpAudioFormat::Best);
    assert_eq!(AudioFormat::Video.api(), YtdlpAudioFormat::Video);
}

#[test]
fn trimming_removes_unicode_white_space_at_either_end() {
    assert_eq!(kopuz::text::trim("\u{3000}\t x y \u{85}\n"), "x y");
    assert_eq!(kopuz::text::trim("\u{200B}x"), "\u{200B}x");
    assert_eq!(kopuz::text::trim("   "), "");
}

#[test]
fn restored_jobs_are_completed_or_failed() {
    assert_eq!(seed_status("completed", &None), JobStatus::Completed);
    assert_eq!(seed_status("failed", &Some("403".to_string())), JobStatus::Failed("403".to_string()));
    assert_eq!(seed_status("cancelled", &None), JobStatus::Failed(String::new()));
    assert!(!seed_status("completed", &None).is_active());
}

#[test]
fn reports_move_the_job_status() {
    let pending = JobStatus::Pending;
    assert_eq!(report_status(&pending, JobState::Running, "processing", None), JobStatus::Processing);
    assert_eq!(report_status(&pending, JobState::Running, "downloading", None), JobStatus::Downloading);
    assert_eq!(report_status(&pending, JobState::Finished, "", None), JobStatus::Completed);
    assert_eq!(report_status(&pending, JobState::Failed, "", Some("boom")), JobStatus::Failed("boom".to_string()));
    assert_eq!(report_status(&pending, JobState::Failed, "", None), JobStatus::Failed("yt-dlp failed".to_string()));
    assert_eq!(report_status(&pending, JobState::Cancelled, "", None), JobStatus::Failed("yt-dlp was cancelled".to_string()));
    assert_eq!(report_status(&JobStatus::Processing, JobState::Unknown, "", None), JobStatus::Processing);
    assert!(report_completes(JobState::Finished));
    assert!(!report_completes(JobState::Running));
}

#[test]
fn only_an_active_job_blocks_the_same_url() {
    let jobs = vec![
        ("  https://a.example/x ".to_string(), JobStatus::Downloading),
        ("https://b.example/y".to_string(), JobStatus::Completed),
    ];
    assert!(has_active_duplicate(&jobs, "https://a.example/x"));
    assert!(!has_active_duplicate(&jobs, "https://b.example/y"));
    assert!(!has_active_duplicate(&jobs, "https://c.example/z"));
}
