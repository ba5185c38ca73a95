//! Cover resolution: where an artist's photo fetch stands, which of an
//! artist's image candidates wins, and the image URLs the servers are asked
//! for.

use vstd::prelude::*;

use crate::text::{decimal, ends_with, has_suffix, push_decimal, same_text, trim_end, trim_end_matches};

verus! {

/// Where one artist's photo fetch stands, as the map of fetches holds it.
#[derive(Clone, Debug, PartialEq, Eq)]
pub enum FetchEntry {
    Pending,
    Hit(String),
    Miss,
}

/// The mathematical value of a [`FetchEntry`].
pub enum FetchStatus {
    Pending,
    Hit(Seq<char>),
    Miss,
}

pub open spec fn status_of(e: FetchEntry) -> FetchStatus {
    match e {
        FetchEntry::Pending => FetchStatus::Pending,
        FetchEntry::Hit(url) => FetchStatus::Hit(url@),
        FetchEntry::Miss => FetchStatus::Miss,
    }
}

/// One artist's position in the photo-fetch pipeline.
#[derive(Clone, Copy, Debug, PartialEq, Eq)]
pub enum ArtistFetchState<'a> {
    /// No fetch is planned for this name (a source with no photo fetcher, or a
    /// name the fetch loop skips): resolution proceeds to the last resort.
    NotFetching,
    /// Queued or in flight: show a placeholder rather than guess and swap.
    Pending,
    /// The fetch concluded: a photo URL, or a definitive miss.
    Resolved(Option<&'a str>),
}

/// What a fetch state says of a name, given the fetches: `None` for a name
/// with no fetch planned.
pub open spec fn fetch_state_is(r: ArtistFetchState, fetches: Map<Seq<char>, FetchStatus>, name: Seq<char>) -> bool {
    match r {
        ArtistFetchState::NotFetching => !fetches.dom().contains(name),
        ArtistFetchState::Pending => fetches.dom().contains(name) && fetches[name] == FetchStatus::Pending,
        ArtistFetchState::Resolved(Some(url)) => fetches.dom().contains(name) && fetches[name] == FetchStatus::Hit(url@),
        ArtistFetchState::Resolved(None) => fetches.dom().contains(name) && fetches[name] == FetchStatus::Miss,
    }
}

/// A name has an entry (the fetch loop's skip-set check) exactly when its
/// fetch state is pending or resolved.
pub proof fn lemma_entry_iff_fetch_planned(state: ArtistFetchState, fetches: Map<Seq<char>, FetchStatus>, name: Seq<char>)
    requires
        fetch_state_is(state, fetches, name),
    ensures
        fetches.dom().contains(name) <==> !(state is NotFetching),
{
}

/// The fetches that a list of entries holds: a later entry for a name
/// stands over an earlier one.
pub open spec fn entries_map(entries: Seq<(String, FetchEntry)>) -> Map<Seq<char>, FetchStatus>
    decreases entries.len(),
{
    if entries.len() == 0 {
        Map::empty()
    } else {
        entries_map(entries.drop_last()).insert(entries.last().0@, status_of(entries.last().1))
    }
}

/// Whether no name occurs twice among the entries.
pub open spec fn distinct_names(entries: Seq<(String, FetchEntry)>) -> bool {
    forall|i: int, j: int| 0 <= i < j < entries.len() ==> (#[trigger] entries[i]).0@ != (#[trigger] entries[j]).0@
}

proof fn lemma_entries_map_lookup(entries: Seq<(String, FetchEntry)>, name: Seq<char>)
    requires
        distinct_names(entries),
    ensures
        forall|i: int| 0 <= i < entries.len() && (#[trigger] entries[i]).0@ == name ==> entries_map(entries).dom().contains(name) && entries_map(entries)[name] == status_of(entries[i].1),
        (forall|i: int| 0 <= i < entries.len() ==> (#[trigger] entries[i]).0@ != name) ==> !entries_map(entries).dom().contains(name),
    decreases entries.len(),
{
    if entries.len() > 0 {
        let rest = entries.drop_last();
        assert(distinct_names(rest));
        lemma_entries_map_lookup(rest, name);
        assert forall|i: int| 0 <= i < entries.len() && (#[trigger] entries[i]).0@ == name implies entries_map(entries).dom().contains(name) && entries_map(entries)[name] == status_of(entries[i].1) by {
            if i < entries.len() - 1 {
                assert(rest[i] == entries[i]);
            }
        }
        if forall|i: int| 0 <= i < entries.len() ==> (#[trigger] entries[i]).0@ != name {
            assert forall|i: int| 0 <= i < rest.len() implies (#[trigger] rest[i]).0@ != name by {
                assert(rest[i] == entries[i]);
            }
        }
    }
}

proof fn lemma_entries_map_update(entries: Seq<(String, FetchEntry)>, i: int, entry: (String, FetchEntry))
    requires
        distinct_names(entries),
        0 <= i < entries.len(),
        entries[i].0@ == entry.0@,
    ensures
        entries_map(entries.update(i, entry)) == entries_map(entries).insert(entry.0@, status_of(entry.1)),
    decreases entries.len(),
{
    let updated = entries.update(i, entry);
    if i == entries.len() - 1 {
        assert(updated.drop_last() =~= entries.drop_last());
        assert(entries_map(updated) =~= entries_map(entries).insert(entry.0@, status_of(entry.1)));
    } else {
        let rest = entries.drop_last();
        assert(distinct_names(rest));
        lemma_entries_map_update(rest, i, entry);
        assert(updated.drop_last() =~= rest.update(i, entry));
        assert(entries[i].0@ != entries.last().0@);
        assert(entries_map(updated) =~= entries_map(entries).insert(entry.0@, status_of(entry.1)));
    }
}

/// The fetches after marking `names` pending, one after another: a name that
/// already has an entry keeps it.
pub open spec fn marked_pending(fetches: Map<Seq<char>, FetchStatus>, names: Seq<Seq<char>>) -> Map<Seq<char>, FetchStatus>
    decreases names.len(),
{
    if names.len() == 0 {
        fetches
    } else {
        let before = marked_pending(fetches, names.drop_last());
        if before.dom().contains(names.last()) {
            before
        } else {
            before.insert(names.last(), FetchStatus::Pending)
        }
    }
}

/// The fetches a bulk fetch's findings make: every name a hit, and a later
/// finding for a name standing over an earlier one.
pub open spec fn hits_from(found: Seq<(Seq<char>, Seq<char>)>) -> Map<Seq<char>, FetchStatus>
    decreases found.len(),
{
    if found.len() == 0 {
        Map::empty()
    } else {
        hits_from(found.drop_last()).insert(found.last().0, FetchStatus::Hit(found.last().1))
    }
}

/// Marking names pending never downgrades an entry: a name that is pending or
/// resolved keeps what it had, and every other name marked becomes pending.
pub proof fn lemma_mark_pending_never_downgrades(fetches: Map<Seq<char>, FetchStatus>, names: Seq<Seq<char>>, name: Seq<char>)
    ensures
        fetches.dom().contains(name) ==> marked_pending(fetches, names).dom().contains(name) && marked_pending(fetches, names)[name] == fetches[name],
        !fetches.dom().contains(name) && names.contains(name) ==> marked_pending(fetches, names).dom().contains(name) && marked_pending(fetches, names)[name] == FetchStatus::Pending,
        !fetches.dom().contains(name) && !names.contains(name) ==> !marked_pending(fetches, names).dom().contains(name),
    decreases names.len(),
{
    if names.len() > 0 {
        let rest = names.drop_last();
        lemma_mark_pending_never_downgrades(fetches, rest, name);
        if names.contains(name) && !rest.contains(name) {
            let i = choose|i: int| 0 <= i < names.len() && names[i] == name;
            if i < names.len() - 1 {
                assert(rest[i] == name);
            }
        }
        if !names.contains(name) && rest.contains(name) {
            let i = choose|i: int| 0 <= i < rest.len() && rest[i] == name;
            assert(names[i] == name);
        }
    }
}

/// Replacing with a bulk fetch's findings resets everything else: a name with
/// no finding has no entry afterwards, and a found name is a hit with the URL
/// of its last finding.
pub proof fn lemma_replace_all_resets(found: Seq<(Seq<char>, Seq<char>)>, name: Seq<char>)
    ensures
        (forall|i: int| 0 <= i < found.len() ==> (#[trigger] found[i]).0 != name) ==> !hits_from(found).dom().contains(name),
        forall|i: int| 0 <= i < found.len() && (#[trigger] found[i]).0 == name && (forall|j: int| i < j < found.len() ==> (#[trigger] found[j]).0 != name)
            ==> hits_from(found).dom().contains(name) && hits_from(found)[name] == FetchStatus::Hit(found[i].1),
    decreases found.len(),
{
    if found.len() > 0 {
        let rest = found.drop_last();
        lemma_replace_all_resets(rest, name);
        if forall|i: int| 0 <= i < found.len() ==> (#[trigger] found[i]).0 != name {
            assert forall|i: int| 0 <= i < rest.len() implies (#[trigger] rest[i]).0 != name by {
                assert(rest[i] == found[i]);
            }
        }
        assert forall|i: int| 0 <= i < found.len() && (#[trigger] found[i]).0 == name && (forall|j: int| i < j < found.len() ==> (#[trigger] found[j]).0 != name)
            implies hits_from(found).dom().contains(name) && hits_from(found)[name] == FetchStatus::Hit(found[i].1) by {
            if i < found.len() - 1 {
                assert(rest[i] == found[i]);
                assert(found[found.len() - 1].0 != name);
                assert forall|j: int| i < j < rest.len() implies (#[trigger] rest[j]).0 != name by {
                    assert(rest[j] == found[j]);
                }
            }
        }
    }
}

/// Session-scoped artist-photo fetch outcomes, keyed by display name. Every
/// state is reached through a method, so "resolved, no photo" is its own
/// state and never an empty URL.
#[derive(Debug)]
pub struct FetchedArtistImages {
    entries: Vec<(String, FetchEntry)>,
}

impl View for FetchedArtistImages {
    type V = Map<Seq<char>, FetchStatus>;

    closed spec fn view(&self) -> Map<Seq<char>, FetchStatus> {
        entries_map(self.entries@)
    }
}

impl Default for FetchedArtistImages {
    fn default() -> (r: Self)
        ensures
            r@ == Map::<Seq<char>, FetchStatus>::empty(),
    {
        FetchedArtistImages { entries: Vec::new() }
    }
}

impl FetchedArtistImages {
    #[verifier::type_invariant]
    spec fn names_distinct(self) -> bool {
        distinct_names(self.entries@)
    }

    /// The index of `name`'s entry, if it has one.
    fn find(&self, name: &str) -> (r: Option<usize>)
        ensures
            match r {
                Some(i) => i < self.entries@.len() && self.entries@[i as int].0@ == name@,
                None => forall|i: int| 0 <= i < self.entries@.len() ==> (#[trigger] self.entries@[i]).0@ != name@,
            },
    {
        let mut i: usize = 0;
        while i < self.entries.len()
            invariant
                i <= self.entries@.len(),
                forall|j: int| 0 <= j < i ==> (#[trigger] self.entries@[j]).0@ != name@,
            decreases self.entries@.len() - i,
        {
            if crate::text::same_text(self.entries[i].0.as_str(), name) {
                return Some(i);
            }
            i += 1;
        }
        None
    }

    /// Where `display`'s photo fetch stands.
    pub fn state(&self, display: &str) -> (r: ArtistFetchState<'_>)
        ensures
            fetch_state_is(r, self@, display@),
    {
        proof {
            use_type_invariant(self);
            lemma_entries_map_lookup(self.entries@, display@);
        }
        match self.find(display) {
            None => ArtistFetchState::NotFetching,
            Some(i) => match &self.entries[i].1 {
                FetchEntry::Pending => ArtistFetchState::Pending,
                FetchEntry::Hit(url) => ArtistFetchState::Resolved(Some(url.as_str())),
                FetchEntry::Miss => ArtistFetchState::Resolved(None),
            },
        }
    }

    /// Whether `display` has an entry at all, pending or resolved: the fetch
    /// loop's skip-set check.
    pub fn contains(&self, display: &str) -> (r: bool)
        ensures
            r == self@.dom().contains(display@),
    {
        proof {
            use_type_invariant(self);
            lemma_entries_map_lookup(self.entries@, display@);
        }
        self.find(display).is_some()
    }

    pub fn is_empty(&self) -> (r: bool)
        ensures
            r == (self@.dom() == Set::<Seq<char>>::empty()),
    {
        proof {
            use_type_invariant(self);
            if self.entries@.len() > 0 {
                lemma_entries_map_lookup(self.entries@, self.entries@[0].0@);
                assert(self@.dom().contains(self.entries@[0].0@));
            } else {
                assert(self@.dom() =~= Set::<Seq<char>>::empty());
            }
        }
        self.entries.len() == 0
    }

    /// Set `name`'s entry to `entry`, whatever it was.
    fn set(&mut self, name: String, entry: FetchEntry)
        ensures
            final(self)@ == old(self)@.insert(name@, status_of(entry)),
    {
        proof {
            use_type_invariant(&*self);
        }
        let found = self.find(name.as_str());
        let mut entries: Vec<(String, FetchEntry)> = Vec::new();
        std::mem::swap(&mut entries, &mut self.entries);
        let ghost before = entries@;
        match found {
            Some(i) => {
                proof {
                    lemma_entries_map_update(before, i as int, (name, entry));
                }
                entries.set(i, (name, entry));
                proof {
                    assert forall|a: int, b: int| 0 <= a < b < entries@.len() implies (#[trigger] entries@[a]).0@ != (#[trigger] entries@[b]).0@ by {
                        assert(before[a].0@ != before[b].0@);
                    }
                }
            },
            None => {
                entries.push((name, entry));
                proof {
                    assert(entries@.drop_last() =~= before);
                }
            },
        }
        self.entries = entries;
    }

    pub fn insert_hit(&mut self, display: String, url: String)
        ensures
            final(self)@ == old(self)@.insert(display@, FetchStatus::Hit(url@)),
    {
        self.set(display, FetchEntry::Hit(url));
    }

    /// Mark names as queued before the workers start, so their tiles show a
    /// placeholder instead of the last resort they'd otherwise get. A name
    /// that already has an entry keeps it.
    pub fn mark_pending(&mut self, names: Vec<String>)
        ensures
            final(self)@ == marked_pending(old(self)@, names.deep_view()),
    {
        let ghost start = self@;
        let mut i: usize = 0;
        while i < names.len()
            invariant
                i <= names@.len(),
                self@ == marked_pending(start, names.deep_view().take(i as int)),
            decreases names@.len() - i,
        {
            assert(names.deep_view().take(i + 1).drop_last() =~= names.deep_view().take(i as int));
            assert(names.deep_view()[i as int] == names@[i as int]@);
            if !self.contains(names[i].as_str()) {
                self.set(names[i].clone(), FetchEntry::Pending);
            }
            i += 1;
        }
        assert(names.deep_view().take(i as int) =~= names.deep_view());
    }

    /// Replace the whole map with a bulk fetch's findings (Jellyfin/Subsonic).
    pub fn replace_all(&mut self, found: Vec<(String, String)>)
        ensures
            final(self)@ == hits_from(found.deep_view()),
    {
        let mut fresh = FetchedArtistImages { entries: Vec::new() };
        assert(fresh@ =~= hits_from(found.deep_view().take(0)));
        let mut i: usize = 0;
        while i < found.len()
            invariant
                i <= found@.len(),
                fresh@ == hits_from(found.deep_view().take(i as int)),
            decreases found@.len() - i,
        {
            assert(found.deep_view().take(i + 1).drop_last() =~= found.deep_view().take(i as int));
            assert(found.deep_view()[i as int] == found@[i as int].deep_view());
            fresh.set(found[i].0.clone(), FetchEntry::Hit(found[i].1.clone()));
            i += 1;
        }
        assert(found.deep_view().take(i as int) =~= found.deep_view());
        *self = fresh;
    }

    /// Record a definitive "no photo exists" outcome.
    pub fn insert_miss(&mut self, display: String)
        ensures
            final(self)@ == old(self)@.insert(display@, FetchStatus::Miss),
    {
        self.set(display, FetchEntry::Miss);
    }
}

/// How a source presents artists.
#[derive(Clone, Copy, Debug, PartialEq, Eq, Structural)]
pub enum ArtistView {
    /// A library grid: artists mostly have no photo anywhere, so album art
    /// stands in for one.
    Library,
    /// A remote catalog: every artist resolves to a real photo or a
    /// placeholder.
    Remote,
}

/// An artist photo that the database holds.
#[derive(Clone, Debug, PartialEq, Eq)]
pub enum ArtistPhoto {
    /// A server-synced remote URL.
    Remote(String),
    /// A local folder image, as the cover URL it renders as (`None` when it
    /// has none).
    Local(Option<String>),
}

/// One artist's image candidates, each already resolved to the cover URL it
/// would render as.
pub struct ArtistCandidates<'a> {
    /// The user-set custom image: wins in every state.
    pub override_cover: Option<String>,
    /// The synced database photo.
    pub photo: Option<ArtistPhoto>,
    /// This session's fetch pipeline state for the artist.
    pub fetched: ArtistFetchState<'a>,
    /// The caller's best album-art candidate for the artist.
    pub album_cover: Option<String>,
    /// How the source presents artists.
    pub view: ArtistView,
}

/// The image an artist's tile shows, by the single policy: the custom
/// override; the source's own photo (a database server photo, then a
/// session-fetched hit, then a local folder image); while the fetch is
/// pending, a placeholder; for library sources, the album-art candidate;
/// else a placeholder (`None`).
pub open spec fn artist_cover(art: ArtistCandidates) -> Option<Seq<char>> {
    match art.override_cover {
        Some(cover) => Some(cover@),
        None => match art.photo {
            Some(ArtistPhoto::Remote(link)) => Some(link@),
            _ => match art.fetched {
                ArtistFetchState::Resolved(Some(link)) => Some(link@),
                _ => match art.photo {
                    Some(ArtistPhoto::Local(Some(cover))) => Some(cover@),
                    _ => if art.view == ArtistView::Library && !(art.fetched is Pending) {
                        art.album_cover.deep_view()
                    } else {
                        None
                    },
                },
            },
        },
    }
}

/// Resolve one artist's image, by the policy of [`artist_cover`].
pub fn artist(art: ArtistCandidates) -> (r: Option<String>)
    ensures
        r.deep_view() == artist_cover(art),
{
    if let Some(cover) = art.override_cover {
        return Some(cover);
    }
    if let Some(ArtistPhoto::Remote(url)) = &art.photo {
        return Some(url.clone());
    }
    if let ArtistFetchState::Resolved(Some(url)) = art.fetched {
        return Some(String::from_str(url));
    }
    if let Some(ArtistPhoto::Local(Some(cover))) = &art.photo {
        return Some(cover.clone());
    }
    let pending = match art.fetched {
        ArtistFetchState::Pending => true,
        _ => false,
    };
    match art.view {
        ArtistView::Library if !pending => art.album_cover,
        _ => None,
    }
}

/// A custom override beats everything, in every fetch state and on every
/// view.
pub proof fn lemma_override_wins(art: ArtistCandidates)
    requires
        art.override_cover is Some,
    ensures
        artist_cover(art) == art.override_cover.deep_view(),
{
}

/// A remote catalog never renders album art as an artist (its album covers
/// come from liked tracks), and a pending fetch never falls to it either: in
/// both cases the album-art candidate makes no difference.
pub proof fn lemma_album_art_only_for_settled_library(art: ArtistCandidates, other_album: Option<String>)
    requires
        art.view == ArtistView::Remote || art.fetched is Pending,
    ensures
        artist_cover(art) == artist_cover(ArtistCandidates { album_cover: other_album, ..art }),
{
}

/// The URL of a Jellyfin item's primary image, sized to `max_width` at
/// `quality`, with the image tag and the access token when there are any.
pub open spec fn jellyfin_item_url_spec(server_url: Seq<char>, item_id: Seq<char>, image_tag: Option<Seq<char>>, access_token: Option<Seq<char>>, max_width: u32, quality: u32) -> Seq<char> {
    server_url + "/Items/"@ + item_id + "/Images/Primary?maxWidth="@ + decimal(max_width as nat) + "&quality="@ + decimal(quality as nat)
        + match image_tag { Some(tag) => "&tag="@ + tag, None => Seq::empty() }
        + match access_token { Some(token) => "&api_key="@ + token, None => Seq::empty() }
}

/// A Jellyfin image URL is the item's sized primary-image address, then the
/// image tag when there is one, then the access token when there is one: the
/// token is sent whenever it is given, with or without a tag, and the tag
/// part appears only for a tag.
pub proof fn lemma_jellyfin_url_parts(
    server_url: Seq<char>,
    item_id: Seq<char>,
    image_tag: Option<Seq<char>>,
    access_token: Option<Seq<char>>,
    max_width: u32,
    quality: u32,
)
    ensures
        ({
            let url = jellyfin_item_url_spec(server_url, item_id, image_tag, access_token, max_width, quality);
            let base = server_url + "/Items/"@ + item_id + "/Images/Primary?maxWidth="@ + decimal(max_width as nat)
                + "&quality="@ + decimal(quality as nat);
            &&& image_tag is None ==> (access_token is None ==> url == base)
            &&& image_tag is None ==> (access_token matches Some(token) ==> url == base + "&api_key="@ + token)
            &&& image_tag matches Some(tag) ==> (access_token is None ==> url == base + "&tag="@ + tag)
            &&& image_tag matches Some(tag) ==> (access_token matches Some(token)
                ==> url == base + "&tag="@ + tag + "&api_key="@ + token)
        }),
{
    let base = server_url + "/Items/"@ + item_id + "/Images/Primary?maxWidth="@ + decimal(max_width as nat)
        + "&quality="@ + decimal(quality as nat);
    assert(base + Seq::<char>::empty() =~= base);
    assert(base + Seq::<char>::empty() + Seq::<char>::empty() =~= base);
    match image_tag {
        Some(tag) => {
            assert(base + ("&tag="@ + tag) + Seq::<char>::empty() =~= base + "&tag="@ + tag);
            match access_token {
                Some(token) => {
                    assert(base + ("&tag="@ + tag) + ("&api_key="@ + token) =~= base + "&tag="@ + tag + "&api_key="@ + token);
                },
                None => {},
            }
        },
        None => {
            match access_token {
                Some(token) => {
                    assert(base + Seq::<char>::empty() + ("&api_key="@ + token) =~= base + "&api_key="@ + token);
                },
                None => {},
            }
        },
    }
}

pub fn jellyfin_item_url(server_url: &str, item_id: &str, image_tag: Option<&str>, access_token: Option<&str>, max_width: u32, quality: u32) -> (r: String)
    ensures
        r@ == jellyfin_item_url_spec(server_url@, item_id@, image_tag.deep_view(), access_token.deep_view(), max_width, quality),
{
    let mut url = String::from_str(server_url);
    url.append("/Items/");
    url.append(item_id);
    url.append("/Images/Primary?maxWidth=");
    push_decimal(&mut url, max_width as u64);
    url.append("&quality=");
    push_decimal(&mut url, quality as u64);
    let ghost base = url@;
    match image_tag {
        Some(tag) => {
            url.append("&tag=");
            url.append(tag);
        },
        None => {},
    }
    let ghost tagged = url@;
    match access_token {
        Some(token) => {
            url.append("&api_key=");
            url.append(token);
        },
        None => {},
    }
    proof {
        let tag_part = match image_tag.deep_view() { Some(tag) => "&tag="@ + tag, None => Seq::<char>::empty() };
        let token_part = match access_token.deep_view() { Some(token) => "&api_key="@ + token, None => Seq::<char>::empty() };
        assert(tagged =~= base + tag_part);
        assert(url@ =~= base + tag_part + token_part);
    }
    url
}

/// The path of the URL that `text` parses to, and the name/value pairs its
/// query decodes to, in order; `None` when `text` does not parse as a URL.
pub uninterp spec fn url_path_and_query(text: Seq<char>) -> Option<(Seq<char>, Seq<(Seq<char>, Seq<char>)>)>;

/// Parses `text` with `url::Url::parse` and hands out `path()` and the pairs
/// of `query_pairs()`. The contract claims that the result is a function of
/// the text, named `url_path_and_query`.
#[verifier::external_body]
fn parse_url_parts(text: &str) -> (r: Option<(String, Vec<(String, String)>)>)
    ensures
        r.deep_view() == url_path_and_query(text@),
{
    match url::Url::parse(text) {
        Ok(parsed) => Some((
            parsed.path().to_string(),
            parsed.query_pairs().map(|(k, v)| (k.into_owned(), v.into_owned())).collect(),
        )),
        Err(_) => None,
    }
}

/// How long a URL and the query put into it may be, in characters: far enough
/// below the `u32` offsets the `url` crate keeps (it panics past them) that
/// no encoding of the characters reaches them.
pub const URL_ROOM: usize = 0x1000_0000;

/// The characters a query's pairs take: each name and value, with its `=`
/// and `&`.
pub open spec fn query_size(pairs: Seq<(Seq<char>, Seq<char>)>) -> int
    decreases pairs.len(),
{
    if pairs.len() == 0 {
        0
    } else {
        query_size(pairs.drop_last()) + pairs.last().0.len() + pairs.last().1.len() + 2
    }
}

/// Whether a URL and the pairs put into its query stay within [`URL_ROOM`].
pub open spec fn fits_url_room(text: Seq<char>, pairs: Seq<(Seq<char>, Seq<char>)>) -> bool {
    text.len() + query_size(pairs) <= URL_ROOM
}

proof fn lemma_query_size_grows(pairs: Seq<(Seq<char>, Seq<char>)>, i: int)
    requires
        0 <= i <= pairs.len(),
    ensures
        0 <= query_size(pairs.take(i)) <= query_size(pairs),
    decreases pairs.len(),
{
    if i < pairs.len() {
        lemma_query_size_grows(pairs.drop_last(), i);
        assert(pairs.drop_last().take(i) =~= pairs.take(i));
    } else {
        assert(pairs.take(i) =~= pairs);
        if pairs.len() > 0 {
            lemma_query_size_grows(pairs.drop_last(), 0);
        }
    }
}

fn fits_room(text: &str, pairs: &Vec<(String, String)>) -> (r: bool)
    ensures
        r == fits_url_room(text@, pairs.deep_view()),
{
    let mut total: usize = text.unicode_len();
    if total > URL_ROOM {
        proof {
            lemma_query_size_grows(pairs.deep_view(), 0);
        }
        return false;
    }
    let mut i: usize = 0;
    while i < pairs.len()
        invariant
            i <= pairs@.len(),
            total <= URL_ROOM,
            total == text@.len() + query_size(pairs.deep_view().take(i as int)),
        decreases pairs@.len() - i,
    {
        let pair = &pairs[i];
        assert(pairs.deep_view()[i as int] == pair.deep_view());
        assert(pairs.deep_view().take(i + 1).drop_last() =~= pairs.deep_view().take(i as int));
        let k = pair.0.as_str().unicode_len();
        let v = pair.1.as_str().unicode_len();
        if k > URL_ROOM || v > URL_ROOM || total + k + v + 2 > URL_ROOM {
            proof {
                lemma_query_size_grows(pairs.deep_view(), i + 1);
            }
            return false;
        }
        total = total + k + v + 2;
        i += 1;
    }
    assert(pairs.deep_view().take(i as int) =~= pairs.deep_view());
    true
}

/// The text of the URL that `text` parses to once its query is replaced by
/// `pairs`, form-encoded in order; `None` when `text` does not parse.
pub uninterp spec fn url_with_query(text: Seq<char>, pairs: Seq<(Seq<char>, Seq<char>)>) -> Option<Seq<char>>;

/// Parses `text` with `url::Url::parse`, then clears its query and appends
/// `pairs` through `query_pairs_mut()`, and serializes it. The contract claims
/// that the result is a function of the arguments, named `url_with_query`,
/// and that it is there exactly when `text` parses. The crate panics when the
/// URL it rebuilds outgrows its `u32` offsets, so the arguments are kept
/// within [`URL_ROOM`].
#[verifier::external_body]
fn replace_url_query(text: &str, pairs: &Vec<(String, String)>) -> (r: Option<String>)
    requires
        fits_url_room(text@, pairs.deep_view()),
    ensures
        r.deep_view() == url_with_query(text@, pairs.deep_view()),
        r is Some <==> url_path_and_query(text@) is Some,
{
    let mut parsed = url::Url::parse(text).ok()?;
    parsed.query_pairs_mut().clear().extend_pairs(pairs.iter().map(|(k, v)| (k.as_str(), v.as_str())));
    Some(parsed.to_string())
}

/// The text of the URL that `text` parses to once `pairs` are appended to its
/// query, form-encoded in order; `None` when `text` does not parse.
pub uninterp spec fn url_with_query_appended(text: Seq<char>, pairs: Seq<(Seq<char>, Seq<char>)>) -> Option<Seq<char>>;

/// Parses `text` with `url::Url::parse`, appends `pairs` to its query through
/// `query_pairs_mut()`, and serializes it. The contract claims that the
/// result is a function of the arguments, named `url_with_query_appended`,
/// and that it is there exactly when `text` parses. The crate panics when the
/// URL it rebuilds outgrows its `u32` offsets, so the arguments are kept
/// within [`URL_ROOM`].
#[verifier::external_body]
fn append_url_query(text: &str, pairs: &Vec<(String, String)>) -> (r: Option<String>)
    requires
        fits_url_room(text@, pairs.deep_view()),
    ensures
        r.deep_view() == url_with_query_appended(text@, pairs.deep_view()),
        r is Some <==> url_path_and_query(text@) is Some,
{
    let mut parsed = url::Url::parse(text).ok()?;
    parsed.query_pairs_mut().extend_pairs(pairs.iter().map(|(k, v)| (k.as_str(), v.as_str())));
    Some(parsed.to_string())
}

/// Whether a query pair is not the `size` one.
pub open spec fn not_size(pair: (Seq<char>, Seq<char>)) -> bool {
    pair.0 != "size"@
}

/// A query's pairs with the size set to `max_width`: every `size` pair
/// dropped, and one appended.
pub open spec fn sized_pairs(pairs: Seq<(Seq<char>, Seq<char>)>, max_width: u32) -> Seq<(Seq<char>, Seq<char>)> {
    pairs.filter(|p: (Seq<char>, Seq<char>)| not_size(p)).push(("size"@, decimal(max_width as nat)))
}

/// Resizing a cover query puts exactly one `size` pair in it, last, with the
/// width asked for; every other pair stays, and none is invented.
pub proof fn lemma_resize_sets_one_size(pairs: Seq<(Seq<char>, Seq<char>)>, max_width: u32, k: int, pair: (Seq<char>, Seq<char>))
    ensures
        sized_pairs(pairs, max_width).len() >= 1,
        sized_pairs(pairs, max_width).last() == ("size"@, decimal(max_width as nat)),
        forall|i: int| 0 <= i < sized_pairs(pairs, max_width).len() - 1
            ==> (#[trigger] sized_pairs(pairs, max_width)[i]).0 != "size"@,
        (0 <= k < pairs.len() && pairs[k].0 != "size"@) ==> sized_pairs(pairs, max_width).contains(pairs[k]),
        (sized_pairs(pairs, max_width).contains(pair) && pair.0 != "size"@) ==> pairs.contains(pair),
{
    let keep = |p: (Seq<char>, Seq<char>)| not_size(p);
    let kept = pairs.filter(keep);
    let r = sized_pairs(pairs, max_width);
    assert forall|i: int| 0 <= i < r.len() - 1 implies (#[trigger] r[i]).0 != "size"@ by {
        assert(r[i] == kept[i]);
        pairs.lemma_filter_pred(keep, i);
    }
    if 0 <= k < pairs.len() && pairs[k].0 != "size"@ {
        pairs.lemma_filter_contains(keep, k);
        let m = choose|m: int| 0 <= m < kept.len() && kept[m] == pairs[k];
        assert(r[m] == pairs[k]);
    }
    if r.contains(pair) && pair.0 != "size"@ {
        let m = choose|m: int| 0 <= m < r.len() && r[m] == pair;
        assert(m < kept.len());
        assert(kept[m] == pair);
        pairs.lemma_filter_contains_rev(keep, pair);
    }
}

/// A remote artwork URL as fetched at `max_width`: a persisted Subsonic
/// `getCoverArt` URL has its size set to `max_width`; any other URL, or text
/// that is no URL, is used as it is.
pub open spec fn artwork_url_at_size(url: Seq<char>, max_width: u32) -> Seq<char> {
    match url_path_and_query(url) {
        Some((path, pairs)) => if has_suffix(path, "/rest/getCoverArt.view"@) {
            url_with_query(url, sized_pairs(pairs, max_width))->Some_0
        } else {
            url
        },
        None => url,
    }
}

/// Whether resizing `url` stays within [`URL_ROOM`]: the URL with its resized
/// query, when it is a URL at all.
pub open spec fn artwork_resize_fits(url: Seq<char>, max_width: u32) -> bool {
    match url_path_and_query(url) {
        Some((_, pairs)) => fits_url_room(url, sized_pairs(pairs, max_width)),
        None => true,
    }
}

fn without_size(pairs: &Vec<(String, String)>) -> (r: Vec<(String, String)>)
    ensures
        r.deep_view() == pairs.deep_view().filter(|p: (Seq<char>, Seq<char>)| not_size(p)),
{
    let mut kept: Vec<(String, String)> = Vec::new();
    let mut i: usize = 0;
    proof {
        reveal_strlit("size");
    }
    while i < pairs.len()
        invariant
            i <= pairs@.len(),
            kept.deep_view() == pairs.deep_view().take(i as int).filter(|p: (Seq<char>, Seq<char>)| not_size(p)),
        decreases pairs@.len() - i,
    {
        let pair = &pairs[i];
        assert(pairs.deep_view()[i as int] == pair.deep_view());
        let is_size = same_text(pair.0.as_str(), "size");
        if !is_size {
            kept.push((pair.0.clone(), pair.1.clone()));
        }
        proof {
            reveal_with_fuel(Seq::filter, 1);
            assert(pairs.deep_view().take(i + 1).drop_last() =~= pairs.deep_view().take(i as int));
        }
        i += 1;
    }
    assert(pairs.deep_view().take(i as int) =~= pairs.deep_view());
    kept
}

/// A remote artwork URL as fetched at `max_width`, by [`artwork_url_at_size`],
/// for a URL whose resized form stays within [`URL_ROOM`].
pub fn artwork_url_resized(url: String, max_width: u32) -> (r: String)
    requires
        artwork_resize_fits(url@, max_width),
    ensures
        r@ == artwork_url_at_size(url@, max_width),
{
    let (path, pairs) = match parse_url_parts(url.as_str()) {
        Some(parts) => parts,
        None => return url,
    };
    if !ends_with(path.as_str(), "/rest/getCoverArt.view") {
        return url;
    }
    let sized = sized_query(&pairs, max_width);
    match replace_url_query(url.as_str(), &sized) {
        Some(resized) => resized,
        None => url,
    }
}

fn sized_query(pairs: &Vec<(String, String)>, max_width: u32) -> (r: Vec<(String, String)>)
    ensures
        r.deep_view() == sized_pairs(pairs.deep_view(), max_width),
{
    let mut sized = without_size(pairs);
    let mut width = String::new();
    push_decimal(&mut width, max_width as u64);
    let ghost kept = sized.deep_view();
    sized.push((String::from_str("size"), width));
    assert(sized.deep_view() =~= kept.push(("size"@, decimal(max_width as nat))));
    sized
}

/// A remote artwork URL as fetched at `max_width`. A URL whose resized form
/// would outgrow [`URL_ROOM`] (hundreds of millions of characters, where the
/// url crate's `u32` offsets give out) is used as it is; any other is
/// resized by [`artwork_url_resized`].
pub fn remote_artwork_url_at_size(url: String, max_width: u32) -> (r: String)
    ensures
        artwork_resize_fits(url@, max_width) ==> r@ == artwork_url_at_size(url@, max_width),
        !artwork_resize_fits(url@, max_width) ==> r@ == url@,
{
    let fits = match parse_url_parts(url.as_str()) {
        Some((_, pairs)) => {
            let sized = sized_query(&pairs, max_width);
            fits_room(url.as_str(), &sized)
        },
        None => true,
    };
    if fits {
        artwork_url_resized(url, max_width)
    } else {
        url
    }
}

/// The query a Subsonic `getCoverArt` request for an item carries.
pub open spec fn subsonic_cover_pairs(item_id: Seq<char>, access_token: Option<Seq<char>>, max_width: u32, quality: u32) -> Seq<(Seq<char>, Seq<char>)> {
    let pairs = seq![("id"@, item_id), ("size"@, decimal(max_width as nat)), ("quality"@, decimal(quality as nat))];
    match access_token {
        Some(token) => pairs.push(("access_token"@, token)),
        None => pairs,
    }
}

/// The token-authenticated Subsonic `getCoverArt` URL of an item, sized to
/// `max_width` at `quality`; `None` when the server or the item is unnamed, or
/// the server URL makes no URL.
pub open spec fn subsonic_item_url_spec(server_url: Seq<char>, item_id: Seq<char>, access_token: Option<Seq<char>>, max_width: u32, quality: u32) -> Option<Seq<char>> {
    if server_url.len() == 0 || item_id.len() == 0 {
        None
    } else {
        url_with_query_appended(
            trim_end(server_url, '/') + "/rest/getCoverArt.view"@,
            subsonic_cover_pairs(item_id, access_token, max_width, quality),
        )
    }
}

pub fn subsonic_item_url(server_url: &str, item_id: &str, access_token: Option<&str>, max_width: u32, quality: u32) -> (r: Option<String>)
    requires
        fits_url_room(
            trim_end(server_url@, '/') + "/rest/getCoverArt.view"@,
            subsonic_cover_pairs(item_id@, access_token.deep_view(), max_width, quality),
        ),
    ensures
        r.deep_view() == subsonic_item_url_spec(server_url@, item_id@, access_token.deep_view(), max_width, quality),
{
    if server_url.unicode_len() == 0 || item_id.unicode_len() == 0 {
        return None;
    }
    let mut base = String::from_str(trim_end_matches(server_url, '/'));
    base.append("/rest/getCoverArt.view");
    let mut size = String::new();
    push_decimal(&mut size, max_width as u64);
    let mut q = String::new();
    push_decimal(&mut q, quality as u64);
    let mut pairs: Vec<(String, String)> = Vec::new();
    pairs.push((String::from_str("id"), String::from_str(item_id)));
    pairs.push((String::from_str("size"), size));
    pairs.push((String::from_str("quality"), q));
    if let Some(token) = access_token {
        pairs.push((String::from_str("access_token"), String::from_str(token)));
    }
    assert(pairs.deep_view() =~= subsonic_cover_pairs(item_id@, access_token.deep_view(), max_width, quality));
    append_url_query(base.as_str(), &pairs)
}

} // verus!
