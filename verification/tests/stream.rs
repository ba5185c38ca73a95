use kopuz::applemusic::stream::{
    cache_actions, cache_file_name, cache_hit, cache_policy, content_key_id, download_complete, is_library_id,
    license_bytes, license_key_uri, read_encrypted_playlist, resolve_map_url, select_asset,
    usable_sidecar, web_playback_for, web_playback_key, Asset, AssetEntry, AssetError, CacheActions, CacheHit,
    CachePolicy, CachedKeyInfo, LicenseError, SongEntry, WebPlayback, WebPlaybackInfo,
    WebPlaybackKey, CTR_FLAVOR,
};

fn asset(flavor: Option<&str>, url: Option<&str>) -> AssetEntry {
    AssetEntry {
        flavor: flavor.map(str::to_string),
        url: url.map(str::to_string),
    }
}

fn song(assets: Vec<AssetEntry>) -> SongEntry {
    SongEntry {
        hls_playlist_url: None,
        assets: Some(assets),
    }
}

fn key(uri_prefix: &str, kid_base64: &str) -> CachedKeyInfo {
    CachedKeyInfo {
        uri_prefix: uri_prefix.to_string(),
        kid_base64: kid_base64.to_string(),
    }
}

/// Plaintext at rest everywhere except Android, where we can never produce it.
#[test]
fn the_cache_policy_follows_the_platform() {
    assert_eq!(cache_policy(true), CachePolicy::Ciphertext);
    assert_eq!(cache_policy(false), CachePolicy::Decrypted);
}

#[test]
fn library_ids_are_told_apart_from_catalog_ids() {
    // The id that sent us down the wrong dispatch.
    assert!(is_library_id("i.ZOMr5KaurEbG7lz"));
    assert!(is_library_id("l.abc123"));
    assert!(is_library_id("p.playlist-1"));
    assert!(is_library_id("a.Album2"));

    assert!(!is_library_id("1811922756"), "catalog Adam IDs are numeric");
    assert!(!is_library_id("i."), "a prefix alone is not an id");
    assert!(!is_library_id("x.abc"), "only a/i/l/p prefix the library");
    assert!(!is_library_id(""));
    assert!(!is_library_id("i.has_underscore"));
}

/// Posting a library id as `salableAdamId` is what produced a 200 with no
/// `songList`: the store has nothing to sell for a track you uploaded.
#[test]
fn a_library_track_is_dispatched_by_its_library_id() {
    match web_playback_key("i.ZOMr5KaurEbG7lz") {
        WebPlaybackKey::UniversalLibraryId(id) => assert_eq!(id, "i.ZOMr5KaurEbG7lz"),
        other => panic!("{other:?}"),
    }
    match web_playback_key("1811922756") {
        WebPlaybackKey::SalableAdamId(id) => assert_eq!(id, "1811922756"),
        other => panic!("{other:?}"),
    }
}

/// An uploaded track comes back as a single asset with no `flavor` field at
/// all, so the flavour search that serves catalog tracks skips right past it.
#[test]
fn a_lone_flavourless_asset_is_an_upload() {
    let song = song(vec![asset(None, Some("https://example.com/uploaded.m4a"))]);
    match select_asset(&song) {
        Ok(Asset::Uploaded(url)) => assert_eq!(url, "https://example.com/uploaded.m4a"),
        Ok(Asset::Flavored(_)) => panic!("an upload has no flavour to match"),
        Err(e) => panic!("{}", e.message()),
    }
}

#[test]
fn a_catalog_song_picks_the_ctr_flavour() {
    let song = song(vec![
        asset(Some("32:cbcp64"), Some("https://example.com/cbcp.m3u8")),
        asset(Some(CTR_FLAVOR), Some("https://example.com/ctr.m3u8")),
    ]);
    match select_asset(&song) {
        Ok(Asset::Flavored(url)) => assert_eq!(url, "https://example.com/ctr.m3u8"),
        Ok(Asset::Uploaded(_)) => panic!("a multi-asset encode is not an upload"),
        Err(e) => panic!("{}", e.message()),
    }
}

/// A single *flavoured* asset is still an encode, not an upload: the upload
/// test is the absence of a flavour, not the count alone.
#[test]
fn a_lone_flavoured_asset_is_not_an_upload() {
    let song = song(vec![asset(Some(CTR_FLAVOR), Some("https://example.com/ctr.m3u8"))]);
    assert!(matches!(select_asset(&song), Ok(Asset::Flavored(_))));
}

#[test]
fn an_hls_playlist_is_reported_rather_than_mis_parsed() {
    let song = SongEntry {
        hls_playlist_url: Some("https://example.com/playlist.m3u8".to_string()),
        assets: Some(Vec::new()),
    };
    let err = select_asset(&song).expect_err("HLS playlists are unsupported");
    assert!(err.message().contains("HLS playlist"), "{}", err.message());
}

#[test]
fn a_song_with_no_playable_asset_is_an_error() {
    let song = song(vec![asset(Some("32:cbcp64"), Some("https://example.com/cbcp.m3u8"))]);
    assert!(select_asset(&song).is_err());
}

#[test]
fn a_song_without_assets_or_with_an_empty_hls_url_is_told_apart() {
    let no_assets = SongEntry {
        hls_playlist_url: None,
        assets: None,
    };
    assert_eq!(select_asset(&no_assets).err(), Some(AssetError::NoAssets));
    assert_eq!(AssetError::NoAssets.message(), "no assets");
    assert_eq!(AssetError::NoCtrAsset.message(), "no 28:ctrp256 asset found");

    // An empty HLS URL is no HLS playlist.
    let empty_hls = SongEntry {
        hls_playlist_url: Some(String::new()),
        assets: Some(vec![asset(None, Some("https://example.com/up.m4a"))]),
    };
    assert!(matches!(select_asset(&empty_hls), Ok(Asset::Uploaded(_))));

    // A lone flavourless asset with an empty URL is no upload.
    let empty_url = song(vec![asset(None, Some(""))]);
    assert_eq!(select_asset(&empty_url).err(), Some(AssetError::NoCtrAsset));

    // The first CTR asset decides, even without a URL.
    let first_without_url = song(vec![
        asset(Some(CTR_FLAVOR), None),
        asset(Some(CTR_FLAVOR), Some("https://example.com/second.m3u8")),
    ]);
    assert_eq!(select_asset(&first_without_url).err(), Some(AssetError::NoCtrAsset));
}

const ENCRYPTED_PLAYLIST: &str = "#EXTM3U
#EXT-X-VERSION:7
#EXT-X-TARGETDURATION:10
#EXT-X-MAP:URI=\"P000/track.mp4\"
#EXT-X-KEY:METHOD=SAMPLE-AES,URI=\"skd://itunes.apple.com/P000000000/s1/e1,q83vAAAAAAAAAAAAAAAAAA==\",KEYFORMAT=\"urn:uuid:edef8ba9-79d6-4ace-a3c8-27dcd51d21ed\",KEYFORMATVERSIONS=\"1\"
#EXTINF:10.0,
segment1.mp4
#EXT-X-ENDLIST
";

#[test]
fn an_encrypted_media_playlist_yields_its_kid_and_file() {
    let info = read_encrypted_playlist(
        "https://example.com/a/b/playlist.m3u8",
        ENCRYPTED_PLAYLIST.as_bytes(),
    )
    .expect("an encrypted playlist");
    assert_eq!(info.file_url, "https://example.com/a/b/P000/track.mp4");
    assert_eq!(info.kid_base64, "q83vAAAAAAAAAAAAAAAAAA==");
    assert_eq!(info.uri_prefix, "skd://itunes.apple.com/P000000000/s1/e1");

    // The licence request names the very KEY URI the playlist carried.
    let uri = license_key_uri(&key(&info.uri_prefix, &info.kid_base64));
    assert_eq!(
        uri,
        "skd://itunes.apple.com/P000000000/s1/e1,q83vAAAAAAAAAAAAAAAAAA=="
    );
}

#[test]
fn a_plain_file_or_a_keyless_playlist_is_not_encrypted() {
    assert!(read_encrypted_playlist("https://example.com/song.m4a", b"\x00\x00\x00\x20ftypM4A ").is_none());
    let keyless = "#EXTM3U
#EXT-X-TARGETDURATION:10
#EXTINF:10.0,
segment1.mp4
#EXT-X-ENDLIST
";
    assert!(read_encrypted_playlist("https://example.com/p.m3u8", keyless.as_bytes()).is_none());
}

#[test]
fn map_uris_resolve_against_the_asset_directory() {
    assert_eq!(
        resolve_map_url("https://example.com/a/b/p.m3u8", "init.mp4"),
        "https://example.com/a/b/init.mp4"
    );
    assert_eq!(
        resolve_map_url("https://example.com/a/p.m3u8", "https://cdn.example.com/x.mp4"),
        "https://cdn.example.com/x.mp4"
    );
    assert_eq!(resolve_map_url("no-slash", "init.mp4"), "no-slash/init.mp4");
}

fn info() -> WebPlaybackInfo {
    WebPlaybackInfo {
        file_url: "https://example.com/file.mp4".to_string(),
        kid_base64: "kid".to_string(),
        uri_prefix: "skd://prefix".to_string(),
    }
}

#[test]
fn a_catalog_asset_must_carry_a_key_but_an_upload_may_be_plain() {
    let err = web_playback_for(Asset::Flavored("https://example.com/c.m3u8".into()), None)
        .expect_err("a catalog asset without a KEY");
    assert_eq!(err, "catalog asset carried no Widevine KEY");

    match web_playback_for(Asset::Uploaded("https://example.com/u.m4a".into()), None) {
        Ok(WebPlayback::Plain { file_url }) => assert_eq!(file_url, "https://example.com/u.m4a"),
        other => panic!("{other:?}"),
    }
    match web_playback_for(Asset::Uploaded("https://example.com/u.m3u8".into()), Some(info())) {
        Ok(WebPlayback::Encrypted(i)) => assert_eq!(i.file_url, "https://example.com/file.mp4"),
        other => panic!("{other:?}"),
    }
    match web_playback_for(Asset::Flavored("https://example.com/c.m3u8".into()), Some(info())) {
        Ok(WebPlayback::Encrypted(i)) => assert_eq!(i.kid_base64, "kid"),
        other => panic!("{other:?}"),
    }
}

/// Ciphertext without usable key info can't be licensed, so it must not count
/// as a cache hit: otherwise a replay sends a licence request that decrypts
/// nothing.
#[test]
fn a_missing_or_empty_sidecar_is_not_a_hit() {
    let policy = CachePolicy::Ciphertext;
    assert!(matches!(cache_hit(policy, Some(1234), None), CacheHit::Miss), "no sidecar at all");
    assert!(
        matches!(cache_hit(policy, Some(1234), Some(key("", "q83vAA=="))), CacheHit::Miss),
        "half-written sidecar"
    );
    assert!(usable_sidecar(key("", "q83vAA==")).is_none());
    assert!(usable_sidecar(key("skd://x", "")).is_none());
    assert!(usable_sidecar(key("skd://x", "q83vAA==")).is_some());
}

#[test]
fn cache_hits_follow_the_policy() {
    match cache_hit(CachePolicy::Ciphertext, Some(10), Some(key("skd://x", "kid"))) {
        CacheHit::Relicense(k) => {
            assert_eq!(k.uri_prefix, "skd://x");
            assert_eq!(k.kid_base64, "kid");
        }
        other => panic!("{other:?}"),
    }
    assert!(matches!(
        cache_hit(CachePolicy::Ciphertext, Some(0), Some(key("skd://x", "kid"))),
        CacheHit::Miss
    ));
    assert!(matches!(cache_hit(CachePolicy::Decrypted, Some(10), None), CacheHit::Decrypted));
    assert!(matches!(cache_hit(CachePolicy::Decrypted, Some(0), None), CacheHit::Miss));
    assert!(matches!(cache_hit(CachePolicy::Decrypted, None, None), CacheHit::Miss));
}

#[test]
fn the_license_answer_is_checked_and_decoded() {
    assert_eq!(
        license_bytes(None, Some("aGVsbG8=".to_string())).expect("licence"),
        b"hello".to_vec()
    );
    assert_eq!(
        license_bytes(Some(0), Some("aGVsbG8=".to_string())).expect("licence"),
        b"hello".to_vec()
    );
    match license_bytes(Some(-1002), Some("aGVsbG8=".to_string())) {
        Err(e @ LicenseError::Rejected(-1002)) => assert_eq!(e.message(), "license error code: -1002"),
        other => panic!("{other:?}"),
    }
    match license_bytes(Some(7), None) {
        Err(e) => assert_eq!(e.message(), "license error code: 7"),
        other => panic!("{other:?}"),
    }
    match license_bytes(None, None) {
        Err(e) => assert_eq!(e.message(), "no license in response"),
        other => panic!("{other:?}"),
    }
    match license_bytes(None, Some("not base64!".to_string())) {
        Err(e @ LicenseError::Undecodable(_)) => assert!(e.message().starts_with("decode license: ")),
        other => panic!("{other:?}"),
    }
}

#[test]
fn the_content_key_id_is_the_decoded_kid() {
    assert_eq!(
        content_key_id(&key("skd://x", "q83vAAAAAAAAAAAAAAAAAA==")).expect("kid"),
        vec![0xab, 0xcd, 0xef, 0, 0, 0, 0, 0, 0, 0, 0, 0, 0, 0, 0, 0]
    );
    let err = content_key_id(&key("skd://x", "%%%")).expect_err("not base64");
    assert!(err.starts_with("decode KID: "), "{err}");
}

#[test]
fn cache_file_names_keep_only_safe_characters() {
    assert_eq!(cache_file_name("1811922756"), "1811922756.m4a");
    assert_eq!(cache_file_name("i.ZOM/../r5 K_a"), "i.ZOM..r5K_a.m4a");
    assert_eq!(cache_file_name(""), ".m4a");
}

#[test]
fn a_short_download_is_not_complete() {
    assert!(!download_complete(512, 1024));
    assert!(download_complete(1024, 1024));
}

#[test]
fn cache_writes_follow_the_policy() {
    let plain_any = CacheActions { store_download: true, write_sidecar: false, store_plaintext: false };
    assert_eq!(cache_actions(CachePolicy::Decrypted, true), plain_any);
    assert_eq!(cache_actions(CachePolicy::Ciphertext, true), plain_any);
    assert_eq!(
        cache_actions(CachePolicy::Ciphertext, false),
        CacheActions { store_download: true, write_sidecar: true, store_plaintext: false }
    );
    assert_eq!(
        cache_actions(CachePolicy::Decrypted, false),
        CacheActions { store_download: false, write_sidecar: false, store_plaintext: true }
    );
}
