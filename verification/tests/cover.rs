use kopuz::cover::{
    artist, artwork_url_resized, jellyfin_item_url, remote_artwork_url_at_size, subsonic_item_url, ArtistCandidates,
    ArtistFetchState, ArtistPhoto, ArtistView, FetchedArtistImages,
};

#[test]
fn fetched_map_states() {
    let mut m = FetchedArtistImages::default();
    assert_eq!(m.state("A"), ArtistFetchState::NotFetching);
    m.mark_pending(vec!["A".to_string()]);
    assert_eq!(m.state("A"), ArtistFetchState::Pending);
    assert!(m.contains("A"));
    m.insert_hit("A".into(), "https://u".into());
    assert_eq!(m.state("A"), ArtistFetchState::Resolved(Some("https://u")));
    m.insert_miss("A".into());
    assert_eq!(m.state("A"), ArtistFetchState::Resolved(None));
    // mark_pending never downgrades a resolved entry.
    m.mark_pending(vec!["A".to_string()]);
    assert_eq!(m.state("A"), ArtistFetchState::Resolved(None));
    m.replace_all(vec![("B".to_string(), "https://b".to_string())]);
    assert_eq!(m.state("B"), ArtistFetchState::Resolved(Some("https://b")));
    assert_eq!(
        m.state("A"),
        ArtistFetchState::NotFetching,
        "replace_all resets"
    );
}

#[test]
fn a_later_finding_for_a_name_stands_and_emptiness_is_tracked() {
    let mut m = FetchedArtistImages::default();
    assert!(m.is_empty());
    m.replace_all(vec![
        ("B".to_string(), "https://first".to_string()),
        ("C".to_string(), "https://c".to_string()),
        ("B".to_string(), "https://second".to_string()),
    ]);
    assert!(!m.is_empty());
    assert_eq!(m.state("B"), ArtistFetchState::Resolved(Some("https://second")));
    assert_eq!(m.state("C"), ArtistFetchState::Resolved(Some("https://c")));
    m.mark_pending(vec!["C".to_string(), "D".to_string(), "D".to_string()]);
    assert_eq!(m.state("C"), ArtistFetchState::Resolved(Some("https://c")));
    assert_eq!(m.state("D"), ArtistFetchState::Pending);
    assert!(!m.contains("E"));
    m.replace_all(vec![]);
    assert!(m.is_empty());
}

fn art<'a>(
    override_cover: Option<&str>,
    photo: Option<ArtistPhoto>,
    fetched: ArtistFetchState<'a>,
    album_cover: Option<&str>,
    view: ArtistView,
) -> ArtistCandidates<'a> {
    ArtistCandidates {
        override_cover: override_cover.map(str::to_string),
        photo,
        fetched,
        album_cover: album_cover.map(str::to_string),
        view,
    }
}

/// The artist chain, candidate by candidate, with each candidate already
/// resolved to the cover URL it renders as.
#[test]
fn artist_chain_resolves_in_priority_order() {
    let album = Some("artwork:///music/band/album/cover.jpg");
    let over = Some("artwork:///pics/custom.png");
    let remote = || Some(ArtistPhoto::Remote("https://yt/photo.jpg".into()));
    let local = || Some(ArtistPhoto::Local(Some("artwork:///music/band/artist.jpg".into())));
    let hit = ArtistFetchState::Resolved(Some("https://fetched/p.jpg"));
    let miss = ArtistFetchState::Resolved(None);
    let none = ArtistFetchState::NotFetching;
    let lib = ArtistView::Library;
    let rem = ArtistView::Remote;

    // Override beats everything, in every state, on every view.
    for view in [lib, rem] {
        let got = artist(art(over, remote(), hit, album, view)).unwrap();
        assert!(got.contains("custom.png"));
    }

    // DB server photo > fetched hit.
    let got = artist(art(None, remote(), hit, album, lib)).unwrap();
    assert_eq!(got, "https://yt/photo.jpg");

    // Fetched hit > DB local photo.
    let got = artist(art(None, local(), hit, album, lib)).unwrap();
    assert_eq!(got, "https://fetched/p.jpg");

    // DB local photo without a fetched hit, even while pending.
    let got = artist(art(None, local(), ArtistFetchState::Pending, album, lib)).unwrap();
    assert!(got.contains("artist.jpg"));

    // Library: pending blocks the last resort (placeholder, no swap)...
    assert_eq!(artist(art(None, None, ArtistFetchState::Pending, album, lib)), None);
    // ...a miss or no fetch falls to the album-art candidate...
    for state in [miss, none] {
        let got = artist(art(None, None, state, album, lib)).unwrap();
        assert!(got.contains("cover.jpg"));
    }
    // ...and no candidates at all -> placeholder.
    assert_eq!(artist(art(None, None, miss, None, lib)), None);

    // Remote catalogs never render album art as an artist.
    for state in [miss, none, ArtistFetchState::Pending] {
        assert_eq!(artist(art(None, None, state, album, rem)), None);
    }
}

#[test]
fn a_local_photo_that_renders_as_nothing_falls_through() {
    let got = artist(art(
        None,
        Some(ArtistPhoto::Local(None)),
        ArtistFetchState::NotFetching,
        Some("artwork:///album.jpg"),
        ArtistView::Library,
    ));
    assert_eq!(got, Some("artwork:///album.jpg".to_string()));
}

#[test]
fn typed_jellyfin_ref_resolves_the_referenced_item_and_tag() {
    let got = jellyfin_item_url(
        "https://jelly.example.com",
        "album-42",
        Some("primary-tag"),
        Some("token"),
        640,
        80,
    );
    assert!(got.contains("/Items/album-42/Images/Primary"));
    assert!(got.contains("tag=primary-tag"));
    assert!(got.contains("maxWidth=640"));
    assert_eq!(
        got,
        "https://jelly.example.com/Items/album-42/Images/Primary?maxWidth=640&quality=80&tag=primary-tag&api_key=token"
    );
    assert_eq!(
        jellyfin_item_url("https://j", "x", None, None, 100, 80),
        "https://j/Items/x/Images/Primary?maxWidth=100&quality=80"
    );
}

#[test]
fn subsonic_item_urls_are_keyed_sized_and_token_authenticated() {
    let got = subsonic_item_url("https://sub.example.com/", "AL-7", Some("pw"), 512, 80).expect("cover url");
    assert!(got.contains("getCoverArt"), "got: {got}");
    assert!(got.contains("id=AL-7"), "keyed by the item: {got}");
    assert!(got.contains("size=512"), "sized by the view: {got}");
    assert!(got.contains("access_token=pw"), "token-authenticated: {got}");
    assert_eq!(
        got,
        "https://sub.example.com/rest/getCoverArt.view?id=AL-7&size=512&quality=80&access_token=pw"
    );
    assert_eq!(subsonic_item_url("", "AL-7", None, 512, 80), None);
    assert_eq!(subsonic_item_url("https://sub.example.com", "", None, 512, 80), None);
    assert_eq!(subsonic_item_url("not a url", "AL-7", None, 512, 80), None);
}

#[test]
fn embedded_url_resolves_without_an_active_server() {
    let url = "https://images.example/cover.jpg";
    let got = remote_artwork_url_at_size(url.to_string(), 320);
    assert_eq!(got, url);
}

#[test]
fn persisted_subsonic_urls_follow_the_view_size() {
    let url =
        "https://music.example/rest/getCoverArt.view?u=user&t=token&s=salt&id=cover-1&size=512";
    let got = remote_artwork_url_at_size(url.to_string(), 1920);
    let parsed = url::Url::parse(&got).expect("valid cover URL");

    assert_eq!(
        parsed
            .query_pairs()
            .find_map(|(key, value)| if key == "size" { Some(value.into_owned()) } else { None }),
        Some("1920".to_string())
    );
    assert!(parsed.query_pairs().any(|(key, value)| key == "t" && value == "token"));
    assert!(parsed.query_pairs().any(|(key, value)| key == "id" && value == "cover-1"));
    assert_eq!(
        got,
        "https://music.example/rest/getCoverArt.view?u=user&t=token&s=salt&id=cover-1&size=1920"
    );
}

#[test]
fn text_that_is_no_url_is_used_as_it_is() {
    assert_eq!(remote_artwork_url_at_size("not a url".to_string(), 10), "not a url");
}

#[test]
fn the_exact_resize_agrees_within_the_room() {
    let url = "https://music.example/rest/getCoverArt.view?id=c&size=1";
    assert_eq!(
        artwork_url_resized(url.to_string(), 64),
        remote_artwork_url_at_size(url.to_string(), 64)
    );
    assert_eq!(
        artwork_url_resized(url.to_string(), 64),
        "https://music.example/rest/getCoverArt.view?id=c&size=64"
    );
}

#[test]
fn artist_last_resort_resolves_remote_album_refs() {
    // The album-art candidate arrives already resolved to the URL it renders as.
    let url = "https://example.com/album.jpg";
    let got = artist(ArtistCandidates {
        override_cover: None,
        photo: None,
        fetched: ArtistFetchState::Resolved(None),
        album_cover: Some(url.to_string()),
        view: ArtistView::Library,
    })
    .unwrap();
    assert_eq!(got, url);
}
