//! The desktop media-control integration: the shuffle and repeat state shown to
//! media-control clients, where their seek requests land, and the artwork URL
//! they are given.

use vstd::prelude::*;

use crate::text::{has_prefix, starts_with};

verus! {

#[derive(Clone, Copy, Debug, PartialEq, Eq, Structural)]
pub enum RepeatMode {
    Off,
    Playlist,
    Track,
}

/// The play modes media-control clients see.
#[derive(Clone, Copy, Debug, PartialEq, Eq, Structural)]
pub struct PlayModes {
    pub shuffle: bool,
    pub repeat: RepeatMode,
}

impl PlayModes {
    /// The modes before the app has said anything: no shuffle, no repeat.
    pub fn new() -> (r: Self)
        ensures
            r == (PlayModes { shuffle: false, repeat: RepeatMode::Off }),
    {
        PlayModes { shuffle: false, repeat: RepeatMode::Off }
    }
}

/// Record the shuffle and repeat state the app has set, so media-control
/// clients stay in sync. Returns whether anything changed, that is whether
/// clients must be notified.
pub fn update_modes(modes: &mut PlayModes, shuffle: bool, repeat: RepeatMode) -> (changed: bool)
    ensures
        *final(modes) == (PlayModes { shuffle, repeat }),
        changed == (old(modes).shuffle != shuffle || old(modes).repeat != repeat),
{
    let changed = modes.shuffle != shuffle || modes.repeat != repeat;
    modes.shuffle = shuffle;
    modes.repeat = repeat;
    changed
}

/// Where a relative seek lands: the current position moved by the offset,
/// never before the start.
pub fn relative_seek_target(current_micros: i64, offset_micros: i64) -> (r: i64)
    requires
        i64::MIN <= current_micros + offset_micros <= i64::MAX,
    ensures
        r == if current_micros + offset_micros > 0 { current_micros + offset_micros } else { 0 },
{
    let target = current_micros + offset_micros;
    if target > 0 {
        target
    } else {
        0
    }
}

/// Where an absolute seek lands: the requested position, never before the start.
pub fn absolute_seek_target(position_micros: i64) -> (r: i64)
    ensures
        r == if position_micros > 0 { position_micros } else { 0 },
{
    if position_micros > 0 {
        position_micros
    } else {
        0
    }
}

/// The artwork URL handed to media-control clients. Remote URLs and `file://`
/// URLs pass through unchanged; an absolute path becomes a `file://` URL; a
/// relative path is taken from `current_dir`.
pub open spec fn art_url_spec(art: Seq<char>, current_dir: Seq<char>) -> Seq<char> {
    if has_prefix(art, "http://"@) || has_prefix(art, "https://"@) || has_prefix(art, "file://"@) {
        art
    } else if has_prefix(art, "/"@) {
        "file://"@ + art
    } else {
        "file://"@ + current_dir + "/"@ + art
    }
}

pub fn art_url(art: &str, current_dir: &str) -> (r: String)
    ensures
        r@ == art_url_spec(art@, current_dir@),
{
    if starts_with(art, "http://") || starts_with(art, "https://") || starts_with(art, "file://") {
        String::from_str(art)
    } else if starts_with(art, "/") {
        let mut url = String::from_str("file://");
        url.append(art);
        url
    } else {
        let mut url = String::from_str("file://");
        url.append(current_dir);
        url.append("/");
        url.append(art);
        url
    }
}

/// A path that already is a URL is handed over as it is.
pub proof fn lemma_urls_pass_through(art: Seq<char>, current_dir: Seq<char>)
    requires
        has_prefix(art, "https://"@) || has_prefix(art, "http://"@) || has_prefix(art, "file://"@),
    ensures
        art_url_spec(art, current_dir) == art,
{
}

} // verus!
