//! The home page: placeholder names, section labels, and song card actions.

use vstd::prelude::*;

use crate::text::{lowercase, same_text, to_lowercase, trim, trimmed};

verus! {

/// A name trimmed of surrounding whitespace and lower-cased.
pub open spec fn normalized(value: Seq<char>) -> Seq<char> {
    lowercase(trimmed(value))
}

/// Whether an artist name stands for no artist: empty, or "Unknown Artist" in
/// any case, once trimmed.
pub fn is_unknown_artist(value: &str) -> (r: bool)
    ensures
        r == (normalized(value@).len() == 0 || normalized(value@) == "unknown artist"@),
{
    let normalized = to_lowercase(trim(value));
    normalized.as_str().unicode_len() == 0 || same_text(normalized.as_str(), "unknown artist")
}

/// Whether an album name stands for no album: empty, or "Unknown Album" in any
/// case, once trimmed.
pub fn is_unknown_album(value: &str) -> (r: bool)
    ensures
        r == (normalized(value@).len() == 0 || normalized(value@) == "unknown album"@),
{
    let normalized = to_lowercase(trim(value));
    normalized.as_str().unicode_len() == 0 || same_text(normalized.as_str(), "unknown album")
}

/// The i18n key of a home section's label; `None` for a section the
/// home page does not know, whose key is shown as it is.
pub open spec fn section_label_key_spec(key: Seq<char>) -> Option<Seq<char>> {
    if key == "hero"@ {
        Some("home_section_hero"@)
    } else if key == "continue_listening"@ {
        Some("home_section_continue_listening"@)
    } else if key == "listen_now"@ {
        Some("home_section_listen_now"@)
    } else if key == "top_artists"@ {
        Some("home_section_top_artists"@)
    } else if key == "new_releases"@ {
        Some("home_section_new_releases"@)
    } else if key == "made_for_you"@ {
        Some("home_section_made_for_you"@)
    } else if key == "recently_added"@ {
        Some("home_section_recently_added"@)
    } else if key == "playlists"@ {
        Some("home_section_playlists"@)
    } else {
        None
    }
}

pub fn section_label_key(key: &str) -> (r: Option<&'static str>)
    ensures
        r.deep_view() == section_label_key_spec(key@),
{
    if same_text(key, "hero") {
        Some("home_section_hero")
    } else if same_text(key, "continue_listening") {
        Some("home_section_continue_listening")
    } else if same_text(key, "listen_now") {
        Some("home_section_listen_now")
    } else if same_text(key, "top_artists") {
        Some("home_section_top_artists")
    } else if same_text(key, "new_releases") {
        Some("home_section_new_releases")
    } else if same_text(key, "made_for_you") {
        Some("home_section_made_for_you")
    } else if same_text(key, "recently_added") {
        Some("home_section_recently_added")
    } else if same_text(key, "playlists") {
        Some("home_section_playlists")
    } else {
        None
    }
}

/// What a song card's menu offers.
#[derive(Clone, Copy, Debug, PartialEq, Eq, Structural)]
pub enum SongCardAction {
    PlayNext,
    AddToQueue,
    StartRadio,
    Share,
}

/// The actions a song card offers, in menu order: play next, add to queue,
/// start a radio (only where the source can), share.
pub fn song_card_actions(can_radio: bool) -> (r: Vec<SongCardAction>)
    ensures
        r@ == if can_radio {
            seq![SongCardAction::PlayNext, SongCardAction::AddToQueue, SongCardAction::StartRadio, SongCardAction::Share]
        } else {
            seq![SongCardAction::PlayNext, SongCardAction::AddToQueue, SongCardAction::Share]
        },
{
    let mut actions = Vec::new();
    actions.push(SongCardAction::PlayNext);
    actions.push(SongCardAction::AddToQueue);
    if can_radio {
        actions.push(SongCardAction::StartRadio);
    }
    actions.push(SongCardAction::Share);
    assert(actions@ =~= if can_radio {
        seq![SongCardAction::PlayNext, SongCardAction::AddToQueue, SongCardAction::StartRadio, SongCardAction::Share]
    } else {
        seq![SongCardAction::PlayNext, SongCardAction::AddToQueue, SongCardAction::Share]
    });
    actions
}

/// The label key of a home section is the section's key behind
/// `home_section_`, and every section the home page knows has one.
pub proof fn lemma_section_labels_follow_the_key(key: Seq<char>)
    ensures
        section_label_key_spec(key) matches Some(label) ==> label == "home_section_"@ + key,
        (key == "hero"@ || key == "continue_listening"@ || key == "listen_now"@ || key == "top_artists"@ || key == "new_releases"@ || key == "made_for_you"@ || key == "recently_added"@ || key == "playlists"@) ==> section_label_key_spec(key) is Some,
{
    reveal_strlit("home_section_");
    reveal_strlit("hero");
    reveal_strlit("home_section_hero");
    reveal_strlit("continue_listening");
    reveal_strlit("home_section_continue_listening");
    reveal_strlit("listen_now");
    reveal_strlit("home_section_listen_now");
    reveal_strlit("top_artists");
    reveal_strlit("home_section_top_artists");
    reveal_strlit("new_releases");
    reveal_strlit("home_section_new_releases");
    reveal_strlit("made_for_you");
    reveal_strlit("home_section_made_for_you");
    reveal_strlit("recently_added");
    reveal_strlit("home_section_recently_added");
    reveal_strlit("playlists");
    reveal_strlit("home_section_playlists");
}

} // verus!
