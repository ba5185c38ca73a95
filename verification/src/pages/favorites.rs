//! Filtering the favourites list.

use vstd::prelude::*;

use crate::text::{contains_text, has_infix, lowercase, to_lowercase};

verus! {

/// The text of a track that a filter is matched against.
pub struct TrackMetadata {
    pub title: String,
    pub artist: String,
    pub album: String,
    /// Every credited artist.
    pub artists: Vec<String>,
}

/// Whether a filter query (already lower-cased) keeps a track: an empty query
/// keeps everything; otherwise the query must occur in the lower-cased title,
/// artist, album or one of the credited artists.
pub open spec fn matches_filter(title: Seq<char>, artist: Seq<char>, album: Seq<char>, artists: Seq<Seq<char>>, query: Seq<char>) -> bool {
    ||| query.len() == 0
    ||| has_infix(lowercase(title), query)
    ||| has_infix(lowercase(artist), query)
    ||| has_infix(lowercase(album), query)
    ||| exists|i: int| 0 <= i < artists.len() && has_infix(lowercase(#[trigger] artists[i]), query)
}

pub fn track_matches_filter(track: &TrackMetadata, query: &str) -> (r: bool)
    ensures
        r == matches_filter(track.title@, track.artist@, track.album@, track.artists.deep_view(), query@),
{
    if query.unicode_len() == 0 {
        return true;
    }
    if contains_text(to_lowercase(track.title.as_str()).as_str(), query)
        || contains_text(to_lowercase(track.artist.as_str()).as_str(), query)
        || contains_text(to_lowercase(track.album.as_str()).as_str(), query)
    {
        return true;
    }
    let mut i: usize = 0;
    while i < track.artists.len()
        invariant
            i <= track.artists@.len(),
            query@.len() > 0,
            !has_infix(lowercase(track.title@), query@),
            !has_infix(lowercase(track.artist@), query@),
            !has_infix(lowercase(track.album@), query@),
            forall|j: int| 0 <= j < i ==> !has_infix(lowercase(#[trigger] track.artists.deep_view()[j]), query@),
        decreases track.artists@.len() - i,
    {
        assert(track.artists.deep_view()[i as int] == track.artists@[i as int]@);
        if contains_text(to_lowercase(track.artists[i].as_str()).as_str(), query) {
            return true;
        }
        i += 1;
    }
    false
}

/// A track matches a query when the query is empty or any of its title,
/// artist, album and credited artists contains it, lowercased; and only then.
pub proof fn lemma_filter_matches_any_field(
    title: Seq<char>,
    artist: Seq<char>,
    album: Seq<char>,
    artists: Seq<Seq<char>>,
    query: Seq<char>,
    i: int,
)
    ensures
        query.len() == 0 ==> matches_filter(title, artist, album, artists, query),
        has_infix(lowercase(title), query) ==> matches_filter(title, artist, album, artists, query),
        has_infix(lowercase(artist), query) ==> matches_filter(title, artist, album, artists, query),
        has_infix(lowercase(album), query) ==> matches_filter(title, artist, album, artists, query),
        (0 <= i < artists.len() && has_infix(lowercase(artists[i]), query))
            ==> matches_filter(title, artist, album, artists, query),
        (query.len() > 0 && !has_infix(lowercase(title), query) && !has_infix(lowercase(artist), query)
            && !has_infix(lowercase(album), query)
            && forall|j: int| 0 <= j < artists.len() ==> !has_infix(lowercase(#[trigger] artists[j]), query))
            ==> !matches_filter(title, artist, album, artists, query),
{
}

} // verus!
