//! Apple Music playback: how a track id is dispatched, which asset of a song
//! is played, what a Widevine-encrypted media playlist points at, and how the
//! on-disk cache is named and trusted.
//!
//! The HTTP requests, the licence exchange and the file I/O are the caller's;
//! the decisions between them are here.

use base64::Engine;
use vstd::prelude::*;

use crate::text::{
    find_first, find_last, first_index_of, has_prefix, last_index_of, push_signed_decimal,
    same_text, signed_decimal, starts_with,
};

verus! {

/// The only catalog flavour the Widevine CDM can open: `cbcp` flavours use
/// Apple's own `skd://` key delivery, which it can't speak.
pub const CTR_FLAVOR: &'static str = "28:ctrp256";

/// Whether a character may follow the prefix of a library id.
pub open spec fn library_id_char(c: char) -> bool {
    ||| ('a' as u32 <= c as u32 && c as u32 <= 'z' as u32)
    ||| ('A' as u32 <= c as u32 && c as u32 <= 'Z' as u32)
    ||| ('0' as u32 <= c as u32 && c as u32 <= '9' as u32)
    ||| c == '-'
}

/// The ids iCloud Music Library hands out: `a.`, `i.`, `l.` or `p.` and a
/// non-empty tail of ASCII letters, digits and dashes.
pub open spec fn library_id(id: Seq<char>) -> bool {
    &&& id.len() >= 3
    &&& (id[0] == 'a' || id[0] == 'i' || id[0] == 'l' || id[0] == 'p')
    &&& id[1] == '.'
    &&& forall|i: int| 2 <= i < id.len() ==> library_id_char(#[trigger] id[i])
}

fn is_library_id_char(c: char) -> (r: bool)
    ensures
        r == library_id_char(c),
{
    let v = c as u32;
    ('a' as u32 <= v && v <= 'z' as u32) || ('A' as u32 <= v && v <= 'Z' as u32) || ('0' as u32 <= v && v <= '9' as u32) || c == '-'
}

/// True for the ids iCloud Music Library hands out, as opposed to a numeric
/// catalog Adam ID. Same test MusicKit applies before choosing how to dispatch
/// playback.
pub fn is_library_id(id: &str) -> (r: bool)
    ensures
        r == library_id(id@),
{
    let n = id.unicode_len();
    if n < 3 {
        return false;
    }
    let first = id.get_char(0);
    if !(first == 'a' || first == 'i' || first == 'l' || first == 'p') || id.get_char(1) != '.' {
        return false;
    }
    let mut i: usize = 2;
    while i < n
        invariant
            n == id@.len(),
            2 <= i <= n,
            forall|j: int| 2 <= j < i ==> library_id_char(#[trigger] id@[j]),
        decreases n - i,
    {
        if !is_library_id_char(id.get_char(i)) {
            return false;
        }
        i += 1;
    }
    true
}

/// How the `webPlayback` request names a track. A library item is dispatched
/// by its library id; only catalog items have something salable to look up.
#[derive(Debug)]
pub enum WebPlaybackKey {
    UniversalLibraryId(String),
    SalableAdamId(String),
}

pub fn web_playback_key(id: &str) -> (r: WebPlaybackKey)
    ensures
        match r {
            WebPlaybackKey::UniversalLibraryId(key) => library_id(id@) && key@ == id@,
            WebPlaybackKey::SalableAdamId(key) => !library_id(id@) && key@ == id@,
        },
{
    if is_library_id(id) {
        WebPlaybackKey::UniversalLibraryId(String::from_str(id))
    } else {
        WebPlaybackKey::SalableAdamId(String::from_str(id))
    }
}

/// One asset of a `songList` entry, as far as the selection reads it: its
/// flavour and URL when they are strings.
pub struct AssetEntry {
    pub flavor: Option<String>,
    pub url: Option<String>,
}

/// A `songList` entry, as far as the selection reads it: its HLS playlist URL
/// when that is a string, and its assets when they are an array.
pub struct SongEntry {
    pub hls_playlist_url: Option<String>,
    pub assets: Option<Vec<AssetEntry>>,
}

/// The asset to play out of a `songList` entry.
#[derive(Debug)]
pub enum Asset {
    /// A catalog encode, named by flavour: an M3U8 whose KEY carries the KID.
    Flavored(String),
    /// An uploaded track: a single asset with no flavour at all, pointing
    /// straight at the file the user uploaded.
    Uploaded(String),
}

/// Why no asset could be chosen.
#[derive(Clone, Copy, Debug, PartialEq, Eq, Structural)]
pub enum AssetError {
    HlsPlaylist,
    NoAssets,
    NoCtrAsset,
}

impl AssetError {
    pub fn message(&self) -> (r: String)
        ensures
            r@ == match self {
                AssetError::HlsPlaylist => "track is served as an HLS playlist, which kopuz can't play yet"@,
                AssetError::NoAssets => "no assets"@,
                AssetError::NoCtrAsset => "no 28:ctrp256 asset found"@,
            },
    {
        match self {
            AssetError::HlsPlaylist => String::from_str("track is served as an HLS playlist, which kopuz can't play yet"),
            AssetError::NoAssets => String::from_str("no assets"),
            AssetError::NoCtrAsset => String::from_str("no 28:ctrp256 asset found"),
        }
    }
}

/// Whether an optional text is present and not empty.
pub open spec fn present(text: Option<String>) -> bool {
    text matches Some(t) && t@.len() > 0
}

/// Whether an asset is of the CTR flavour.
pub open spec fn is_ctr(asset: AssetEntry) -> bool {
    asset.flavor matches Some(f) && f@ == CTR_FLAVOR@
}

/// Whether `i` is the index of the first asset with the CTR flavour.
pub open spec fn first_ctr(assets: Seq<AssetEntry>, i: int) -> bool {
    &&& 0 <= i < assets.len()
    &&& is_ctr(assets[i])
    &&& forall|j: int| 0 <= j < i ==> !is_ctr(#[trigger] assets[j])
}

/// Whether the entry is a lone, flavourless asset with a URL: an upload.
pub open spec fn lone_upload(assets: Seq<AssetEntry>) -> bool {
    assets.len() == 1 && assets[0].flavor is None && present(assets[0].url)
}

/// Pick the asset to play, following the three shapes MusicKit distinguishes:
/// an HLS playlist is refused; a lone flavourless asset is an upload; otherwise
/// the first asset of the CTR flavour is played, by its URL.
pub fn select_asset(song: &SongEntry) -> (r: Result<Asset, AssetError>)
    ensures
        present(song.hls_playlist_url) ==> r == Err::<Asset, AssetError>(AssetError::HlsPlaylist),
        !present(song.hls_playlist_url) ==> match song.assets {
            None => r == Err::<Asset, AssetError>(AssetError::NoAssets),
            Some(assets) => if lone_upload(assets@) {
                r matches Ok(Asset::Uploaded(url)) && Some(url@) == assets@[0].url.deep_view()
            } else if exists|i: int| first_ctr(assets@, i) {
                let i = choose|i: int| first_ctr(assets@, i);
                match assets@[i].url {
                    Some(url) => r matches Ok(Asset::Flavored(u)) && u@ == url@,
                    None => r == Err::<Asset, AssetError>(AssetError::NoCtrAsset),
                }
            } else {
                r == Err::<Asset, AssetError>(AssetError::NoCtrAsset)
            },
        },
{
    if let Some(url) = &song.hls_playlist_url {
        if url.as_str().unicode_len() > 0 {
            return Err(AssetError::HlsPlaylist);
        }
    }
    let assets = match &song.assets {
        Some(assets) => assets,
        None => return Err(AssetError::NoAssets),
    };
    if assets.len() == 1 && assets[0].flavor.is_none() {
        if let Some(url) = &assets[0].url {
            if url.as_str().unicode_len() > 0 {
                return Ok(Asset::Uploaded(url.clone()));
            }
        }
    }
    let mut i: usize = 0;
    while i < assets.len()
        invariant
            !present(song.hls_playlist_url),
            song.assets == Some(*assets),
            !lone_upload(assets@),
            i <= assets@.len(),
            forall|j: int| 0 <= j < i ==> !is_ctr(#[trigger] assets@[j]),
        decreases assets@.len() - i,
    {
        let is_ctr = match &assets[i].flavor {
            Some(flavor) => same_text(flavor.as_str(), CTR_FLAVOR),
            None => false,
        };
        if is_ctr {
            proof {
                assert(first_ctr(assets@, i as int));
                let k = choose|k: int| first_ctr(assets@, k);
                assert(k == i);
            }
            return match &assets[i].url {
                Some(url) => Ok(Asset::Flavored(url.clone())),
                None => Err(AssetError::NoCtrAsset),
            };
        }
        i += 1;
    }
    Err(AssetError::NoCtrAsset)
}

/// What a Widevine-encrypted media playlist points at.
#[derive(Debug)]
pub struct WebPlaybackInfo {
    pub file_url: String,
    pub kid_base64: String,
    pub uri_prefix: String,
}

/// The URL directory an asset URL sits in: everything before its last `/`,
/// or the whole URL when it has none.
pub open spec fn url_base(url: Seq<char>) -> Seq<char> {
    if exists|i: int| last_index_of(url, '/', i) {
        url.take(choose|i: int| last_index_of(url, '/', i))
    } else {
        url
    }
}

/// The file a playlist's MAP names: an absolute `http…` URI as it is, anything
/// else relative to the asset's directory.
pub open spec fn map_file_url(asset_url: Seq<char>, map_uri: Seq<char>) -> Seq<char> {
    if has_prefix(map_uri, "http"@) {
        map_uri
    } else {
        url_base(asset_url) + "/"@ + map_uri
    }
}

/// The playback information of a media playlist, from the KEY URI and the MAP
/// URI of its first segment. The KEY URI is `uriPrefix,kidBase64`, split at its
/// first comma; a playlist with no segment, no KEY URI or no comma in it is not
/// an encrypted one.
pub open spec fn playlist_info(asset_url: Seq<char>, segments: Seq<(Option<Seq<char>>, Option<Seq<char>>)>) -> Option<(Seq<char>, Seq<char>, Seq<char>)> {
    if segments.len() == 0 {
        None
    } else {
        match segments[0].0 {
            None => None,
            Some(key_uri) => if exists|i: int| first_index_of(key_uri, ',', i) {
                let i = choose|i: int| first_index_of(key_uri, ',', i);
                let map_uri = match segments[0].1 {
                    Some(m) => m,
                    None => Seq::empty(),
                };
                Some((map_file_url(asset_url, map_uri), key_uri.skip(i + 1), key_uri.take(i)))
            } else {
                None
            },
        }
    }
}

/// The view of playback information as (file URL, KID, URI prefix).
pub open spec fn info_view(info: Option<WebPlaybackInfo>) -> Option<(Seq<char>, Seq<char>, Seq<char>)> {
    match info {
        Some(i) => Some((i.file_url@, i.kid_base64@, i.uri_prefix@)),
        None => None,
    }
}

/// The URL a playlist's MAP names, resolved against the asset URL.
pub fn resolve_map_url(asset_url: &str, map_uri: &str) -> (r: String)
    ensures
        r@ == map_file_url(asset_url@, map_uri@),
{
    if starts_with(map_uri, "http") {
        return String::from_str(map_uri);
    }
    let mut url = match find_last(asset_url, '/') {
        Some(i) => {
            proof {
                let k = choose|k: int| last_index_of(asset_url@, '/', k);
                assert(k == i);
            }
            String::from_str(asset_url.substring_char(0, i))
        },
        None => String::from_str(asset_url),
    };
    url.append("/");
    url.append(map_uri);
    url
}

/// The playback information of a parsed media playlist, given the KEY URI and
/// MAP URI of each of its segments.
pub fn playback_info_from_segments(asset_url: &str, segments: &Vec<(Option<String>, Option<String>)>) -> (r: Option<WebPlaybackInfo>)
    ensures
        info_view(r) == playlist_info(asset_url@, segments.deep_view()),
{
    if segments.len() == 0 {
        return None;
    }
    let first = &segments[0];
    assert(segments.deep_view()[0] == first.deep_view());
    let key_uri = match &first.0 {
        Some(key_uri) => key_uri.as_str(),
        None => return None,
    };
    assert(segments.deep_view()[0].0 == Some(key_uri@));
    let comma = match find_first(key_uri, ',') {
        Some(i) => i,
        None => return None,
    };
    proof {
        let k = choose|k: int| first_index_of(key_uri@, ',', k);
        assert(k == comma);
    }
    let n = key_uri.unicode_len();
    let uri_prefix = String::from_str(key_uri.substring_char(0, comma));
    let kid_base64 = String::from_str(key_uri.substring_char(comma + 1, n));
    let file_url = match &first.1 {
        Some(map_uri) => resolve_map_url(asset_url, map_uri.as_str()),
        None => {
            proof {
                reveal_strlit("");
                assert(""@ =~= Seq::<char>::empty());
            }
            resolve_map_url(asset_url, "")
        },
    };
    let ghost map_uri = match segments.deep_view()[0].1 {
        Some(m) => m,
        None => Seq::<char>::empty(),
    };
    assert(file_url@ == map_file_url(asset_url@, map_uri));
    assert(key_uri@.skip(comma + 1) =~= key_uri@.subrange(comma + 1, n as int));
    assert(key_uri@.take(comma as int) =~= key_uri@.subrange(0, comma as int));
    let r = Some(WebPlaybackInfo { file_url, kid_base64, uri_prefix });
    assert(segments.deep_view().len() != 0);
    r
}

/// The KEY URI and MAP URI of each segment of the media playlist that `body`
/// holds, or `None` when `body` does not parse as a media playlist.
pub uninterp spec fn media_playlist_segment_uris(body: Seq<u8>) -> Option<Seq<(Option<Seq<char>>, Option<Seq<char>>)>>;

/// Parses `body` with `m3u8_rs::parse_media_playlist` and hands out, for each
/// segment in order, the URI of its KEY (when it has a KEY with a URI) and the
/// URI of its MAP (when it has a MAP). The contract claims only that the
/// result is a function of the bytes, named `media_playlist_segment_uris`.
#[verifier::external_body]
fn parse_media_playlist_segments(body: &[u8]) -> (r: Option<Vec<(Option<String>, Option<String>)>>)
    ensures
        r.deep_view() == media_playlist_segment_uris(body@),
{
    match m3u8_rs::parse_media_playlist(body) {
        Ok((_, playlist)) => Some(
            playlist.segments.into_iter().map(|s| (s.key.and_then(|k| k.uri), s.map.map(|m| m.uri))).collect(),
        ),
        Err(_) => None,
    }
}

/// The playback information of the M3U8 at `asset_url`, whose text is `body`.
pub open spec fn encrypted_playlist(asset_url: Seq<char>, body: Seq<u8>) -> Option<(Seq<char>, Seq<char>, Seq<char>)> {
    match media_playlist_segment_uris(body) {
        Some(segments) => playlist_info(asset_url, segments),
        None => None,
    }
}

/// Read the M3U8 at `asset_url`, whose bytes are `body`, and pull out the
/// Widevine KID plus the fMP4 its segments map to. `None` means it simply
/// isn't an encrypted media playlist: an unreadable playlist, or one with no
/// KEY.
pub fn read_encrypted_playlist(asset_url: &str, body: &[u8]) -> (r: Option<WebPlaybackInfo>)
    ensures
        info_view(r) == encrypted_playlist(asset_url@, body@),
{
    match parse_media_playlist_segments(body) {
        Some(segments) => playback_info_from_segments(asset_url, &segments),
        None => None,
    }
}

/// What a lone flavourless asset's download does: an encrypted media playlist
/// is played through its licence, anything else is the plain file at the URL.
#[derive(Debug)]
pub enum WebPlayback {
    /// Widevine-encrypted fMP4 — needs a licence before a byte can be read.
    Encrypted(WebPlaybackInfo),
    /// A plain file. An uploaded iCloud Music Library track is the user's own
    /// audio, so Apple has no content key for it and there is nothing to unwrap.
    Plain { file_url: String },
}

/// The view of a playback outcome: `Ok((true, file URL, KID, URI prefix))`
/// for an encrypted one, `Ok((false, file URL, "", ""))` for a plain file.
pub open spec fn playback_view(p: WebPlayback) -> (bool, Seq<char>, Seq<char>, Seq<char>) {
    match p {
        WebPlayback::Encrypted(i) => (true, i.file_url@, i.kid_base64@, i.uri_prefix@),
        WebPlayback::Plain { file_url } => (false, file_url@, Seq::empty(), Seq::empty()),
    }
}

/// What to play, given the chosen asset and what reading its URL as an
/// encrypted media playlist gave. A catalog encode must carry a KEY; uploaded
/// audio may be the file itself, so with no KEY its URL is what is played.
pub fn web_playback_for(asset: Asset, info: Option<WebPlaybackInfo>) -> (r: Result<WebPlayback, String>)
    ensures
        match (asset, info) {
            (_, Some(i)) => r matches Ok(p) && playback_view(p) == (true, i.file_url@, i.kid_base64@, i.uri_prefix@),
            (Asset::Flavored(_), None) => r matches Err(e) && e@ == "catalog asset carried no Widevine KEY"@,
            (Asset::Uploaded(url), None) => r matches Ok(p) && playback_view(p) == (false, url@, Seq::<char>::empty(), Seq::<char>::empty()),
        },
{
    match info {
        Some(i) => Ok(WebPlayback::Encrypted(i)),
        None => match asset {
            Asset::Flavored(_) => Err(String::from_str("catalog asset carried no Widevine KEY")),
            Asset::Uploaded(url) => Ok(WebPlayback::Plain { file_url: url }),
        },
    }
}

/// What the on-disk cache holds for a DRM-protected track.
#[derive(Clone, Copy, Debug, PartialEq, Eq, Structural)]
pub enum CachePolicy {
    /// Plaintext, so a replay needs neither the network nor a licence.
    Decrypted,
    /// Ciphertext plus a sidecar. The only shape available on Android, where
    /// Widevine decrypts inside `MediaCodec` and the cleartext is never held.
    Ciphertext,
}

/// Ciphertext at rest on Android, plaintext elsewhere.
pub fn cache_policy(on_android: bool) -> (r: CachePolicy)
    ensures
        r == if on_android { CachePolicy::Ciphertext } else { CachePolicy::Decrypted },
{
    if on_android {
        CachePolicy::Ciphertext
    } else {
        CachePolicy::Decrypted
    }
}

/// The cache writes that resolving one track makes under a policy.
#[derive(Clone, Copy, Debug, PartialEq, Eq, Structural)]
pub struct CacheActions {
    /// Store the downloaded asset as it came: plain audio always, ciphertext
    /// under the ciphertext policy.
    pub store_download: bool,
    /// Write the key sidecar beside a ciphertext entry once it is licensed.
    pub write_sidecar: bool,
    /// Store the plaintext the CDM decrypted.
    pub store_plaintext: bool,
}

/// Which cache writes a resolved track gets: a plain (uploaded) asset is
/// stored as it came under either policy; an encrypted one is stored as
/// ciphertext with its key sidecar under the ciphertext policy, and as the
/// decrypted plaintext under the plaintext policy.
pub open spec fn planned_cache_actions(policy: CachePolicy, plain: bool) -> CacheActions {
    CacheActions {
        store_download: plain || policy == CachePolicy::Ciphertext,
        write_sidecar: !plain && policy == CachePolicy::Ciphertext,
        store_plaintext: !plain && policy == CachePolicy::Decrypted,
    }
}

pub fn cache_actions(policy: CachePolicy, plain: bool) -> (r: CacheActions)
    ensures
        r == planned_cache_actions(policy, plain),
{
    let ciphertext = match policy {
        CachePolicy::Ciphertext => true,
        CachePolicy::Decrypted => false,
    };
    CacheActions {
        store_download: plain || ciphertext,
        write_sidecar: !plain && ciphertext,
        store_plaintext: !plain && !ciphertext,
    }
}

/// A track's bytes land in the cache exactly once, either as they were
/// downloaded or as the plaintext the CDM produced; a key sidecar is only
/// written beside a stored ciphertext.
pub proof fn lemma_one_cache_entry_per_track(policy: CachePolicy, plain: bool)
    ensures
        planned_cache_actions(policy, plain).store_download != planned_cache_actions(policy, plain).store_plaintext,
        planned_cache_actions(policy, plain).write_sidecar ==> planned_cache_actions(policy, plain).store_download,
{
}

/// What a licence request needs, kept beside a ciphertext cache entry.
#[derive(Debug)]
pub struct CachedKeyInfo {
    pub uri_prefix: String,
    pub kid_base64: String,
}

/// A sidecar read back from disk, if it is usable: a half-written one (either
/// half empty) would send a licence request that can't decrypt anything.
pub fn usable_sidecar(info: CachedKeyInfo) -> (r: Option<CachedKeyInfo>)
    ensures
        r is Some <==> (info.kid_base64@.len() > 0 && info.uri_prefix@.len() > 0),
        r matches Some(kept) ==> kept.kid_base64@ == info.kid_base64@ && kept.uri_prefix@ == info.uri_prefix@,
{
    if info.kid_base64.as_str().unicode_len() > 0 && info.uri_prefix.as_str().unicode_len() > 0 {
        Some(info)
    } else {
        None
    }
}

/// What a cache lookup found for a track.
#[derive(Debug)]
pub enum CacheHit {
    /// Decrypted audio, ready to play as it is.
    Decrypted,
    /// Ciphertext with a usable sidecar: licensed again with this key info.
    Relicense(CachedKeyInfo),
    /// Nothing usable: the track is resolved from scratch.
    Miss,
}

/// Whether a cache read found something: a non-empty file.
pub open spec fn nonempty_read(cached_len: Option<u64>) -> bool {
    cached_len matches Some(n) && n > 0
}

/// What the cache holds for a track under `policy`, given the length of the
/// cached audio file (`None` when it could not be read) and the sidecar read
/// beside it (`None` when there is none or it does not parse). Under the
/// ciphertext policy it is only a hit when both halves are there: ciphertext
/// without its key info can't be licensed.
pub fn cache_hit(policy: CachePolicy, cached_len: Option<u64>, sidecar: Option<CachedKeyInfo>) -> (r: CacheHit)
    ensures
        policy == CachePolicy::Decrypted ==> (r is Decrypted <==> nonempty_read(cached_len)) && (r is Decrypted || r is Miss),
        policy == CachePolicy::Ciphertext ==> match sidecar {
            Some(info) => if nonempty_read(cached_len) && info.kid_base64@.len() > 0 && info.uri_prefix@.len() > 0 {
                r matches CacheHit::Relicense(k) && k.kid_base64@ == info.kid_base64@ && k.uri_prefix@ == info.uri_prefix@
            } else {
                r is Miss
            },
            None => r is Miss,
        },
{
    let nonempty = match cached_len {
        Some(n) => n > 0,
        None => false,
    };
    match policy {
        CachePolicy::Decrypted => if nonempty { CacheHit::Decrypted } else { CacheHit::Miss },
        CachePolicy::Ciphertext => match sidecar {
            Some(info) => match usable_sidecar(info) {
                Some(key) => if nonempty { CacheHit::Relicense(key) } else { CacheHit::Miss },
                None => CacheHit::Miss,
            },
            None => CacheHit::Miss,
        },
    }
}

/// The KEY URI a licence request names: `uriPrefix,kidBase64`.
pub open spec fn key_uri_of(uri_prefix: Seq<char>, kid_base64: Seq<char>) -> Seq<char> {
    uri_prefix + seq![','] + kid_base64
}

/// The KEY URI that the licence request for `key` carries.
pub fn license_key_uri(key: &CachedKeyInfo) -> (r: String)
    ensures
        r@ == key_uri_of(key.uri_prefix@, key.kid_base64@),
{
    let mut uri = key.uri_prefix.clone();
    proof {
        reveal_strlit(",");
    }
    uri.append(",");
    uri.append(key.kid_base64.as_str());
    uri
}

/// The licence request names the very KEY URI the playlist carried: joining
/// the URI prefix and KID read out of a media playlist gives back the KEY URI
/// of its first segment.
pub proof fn lemma_license_uri_is_playlist_key_uri(asset_url: Seq<char>, segments: Seq<(Option<Seq<char>>, Option<Seq<char>>)>)
    requires
        playlist_info(asset_url, segments) is Some,
    ensures
        ({
            let (file_url, kid_base64, uri_prefix) = playlist_info(asset_url, segments)->Some_0;
            segments[0].0 == Some(key_uri_of(uri_prefix, kid_base64))
        }),
{
    let key_uri = segments[0].0->Some_0;
    let i = choose|i: int| first_index_of(key_uri, ',', i);
    assert(key_uri =~= key_uri.take(i) + seq![','] + key_uri.skip(i + 1));
}

/// Splitting a KEY URI made of a comma-free URI prefix and a KID gives them
/// back: a playlist whose first segment's KEY URI is `prefix,kid` is read as
/// that prefix and that KID.
pub proof fn lemma_key_uri_splits_back(asset_url: Seq<char>, segments: Seq<(Option<Seq<char>>, Option<Seq<char>>)>, uri_prefix: Seq<char>, kid_base64: Seq<char>)
    requires
        segments.len() > 0,
        segments[0].0 == Some(key_uri_of(uri_prefix, kid_base64)),
        !uri_prefix.contains(','),
    ensures
        playlist_info(asset_url, segments) matches Some((_, kid, prefix)) && kid == kid_base64 && prefix == uri_prefix,
{
    let key_uri = key_uri_of(uri_prefix, kid_base64);
    let n = uri_prefix.len() as int;
    assert forall|j: int| 0 <= j < n implies key_uri[j] != ',' by {
        assert(key_uri[j] == uri_prefix[j]);
        if key_uri[j] == ',' {
            assert(uri_prefix.contains(','));
        }
    }
    assert(first_index_of(key_uri, ',', n));
    let i = choose|i: int| first_index_of(key_uri, ',', i);
    assert(i == n);
    assert(key_uri.take(n) =~= uri_prefix);
    assert(key_uri.skip(n + 1) =~= kid_base64);
}

/// What standard, padded base64 decodes `text` to, or `None` when `text` is
/// not valid base64.
pub uninterp spec fn standard_base64_decoded(text: Seq<char>) -> Option<Seq<u8>>;

/// Decodes `text` with `base64`'s `STANDARD` engine (the standard alphabet,
/// padded). The contract claims that the bytes, or the failure, are a
/// function of the text, named `standard_base64_decoded`; the error's text is
/// the crate's own description and is left unsaid.
#[verifier::external_body]
fn decode_standard_base64(text: &str) -> (r: Result<Vec<u8>, String>)
    ensures
        match r {
            Ok(bytes) => standard_base64_decoded(text@) == Some(bytes@),
            Err(_) => standard_base64_decoded(text@) is None,
        },
{
    base64::engine::general_purpose::STANDARD.decode(text).map_err(|e| e.to_string())
}

/// The content key id a licence is asked for: the KID of `key`, decoded.
pub fn content_key_id(key: &CachedKeyInfo) -> (r: Result<Vec<u8>, String>)
    ensures
        match standard_base64_decoded(key.kid_base64@) {
            Some(bytes) => r matches Ok(b) && b@ == bytes,
            None => r is Err,
        },
{
    match decode_standard_base64(key.kid_base64.as_str()) {
        Ok(bytes) => Ok(bytes),
        Err(e) => {
            let mut message = String::from_str("decode KID: ");
            message.append(e.as_str());
            Err(message)
        },
    }
}

/// Why the licence server's answer could not be loaded into the CDM.
#[derive(Debug)]
pub enum LicenseError {
    /// Apple answered with a non-zero `errorCode`.
    Rejected(i64),
    /// The answer carried no `license` string.
    Missing,
    /// The `license` was not base64; the decoder's description of why.
    Undecodable(String),
}

impl LicenseError {
    pub fn message(&self) -> (r: String)
        ensures
            match self {
                LicenseError::Rejected(code) => r@ == "license error code: "@ + signed_decimal(*code as int),
                LicenseError::Missing => r@ == "no license in response"@,
                LicenseError::Undecodable(why) => r@ == "decode license: "@ + why@,
            },
    {
        match self {
            LicenseError::Rejected(code) => {
                let mut m = String::from_str("license error code: ");
                push_signed_decimal(&mut m, *code);
                m
            },
            LicenseError::Missing => String::from_str("no license in response"),
            LicenseError::Undecodable(why) => {
                let mut m = String::from_str("decode license: ");
                m.append(why.as_str());
                m
            },
        }
    }
}

/// The licence to load, out of the licence server's answer: its `errorCode`
/// when that is an integer, and its `license` when that is a string. Apple
/// answers 200 with a failure in the body, so a non-zero code is checked
/// first; the licence itself is base64.
pub fn license_bytes(error_code: Option<i64>, license: Option<String>) -> (r: Result<Vec<u8>, LicenseError>)
    ensures
        match error_code {
            Some(code) if code != 0 => r matches Err(LicenseError::Rejected(c)) && c == code,
            _ => match license {
                None => r matches Err(LicenseError::Missing),
                Some(text) => match standard_base64_decoded(text@) {
                    Some(bytes) => r matches Ok(b) && b@ == bytes,
                    None => r matches Err(LicenseError::Undecodable(_)),
                },
            },
        },
{
    if let Some(code) = error_code {
        if code != 0 {
            return Err(LicenseError::Rejected(code));
        }
    }
    match license {
        None => Err(LicenseError::Missing),
        Some(text) => match decode_standard_base64(text.as_str()) {
            Ok(bytes) => Ok(bytes),
            Err(why) => Err(LicenseError::Undecodable(why)),
        },
    }
}

/// Whether a character is kept in a cache file name.
pub open spec fn cache_name_char(c: char) -> bool {
    library_id_char(c) && c != '-' || c == '-' || c == '_' || c == '.'
}

/// The file name a track's cache entry has: its id with every character but
/// ASCII letters, digits, `-`, `_` and `.` dropped, and `.m4a` appended.
pub open spec fn cache_file_name_spec(adam_id: Seq<char>) -> Seq<char> {
    adam_id.filter(|c: char| cache_name_char(c)) + ".m4a"@
}

pub fn cache_file_name(adam_id: &str) -> (r: String)
    ensures
        r@ == cache_file_name_spec(adam_id@),
{
    let n = adam_id.unicode_len();
    let mut name = String::new();
    let mut i: usize = 0;
    while i < n
        invariant
            n == adam_id@.len(),
            i <= n,
            name@ == adam_id@.take(i as int).filter(|c: char| cache_name_char(c)),
        decreases n - i,
    {
        let c = adam_id.get_char(i);
        let keep = is_library_id_char(c) || c == '_' || c == '.';
        if keep {
            name.append(adam_id.substring_char(i, i + 1));
        }
        proof {
            reveal_with_fuel(Seq::filter, 1);
            assert(adam_id@.take(i + 1).drop_last() =~= adam_id@.take(i as int));
            assert(adam_id@.subrange(i as int, i + 1) =~= seq![c]);
        }
        i += 1;
    }
    assert(adam_id@.take(n as int) =~= adam_id@);
    name.append(".m4a");
    name
}

/// A cache file name stays inside the cache directory: whatever the id, the
/// name has no path separator in it and ends in `.m4a`.
pub proof fn lemma_cache_file_name_is_plain(adam_id: Seq<char>)
    ensures
        !cache_file_name_spec(adam_id).contains('/'),
        !cache_file_name_spec(adam_id).contains('\\'),
        cache_file_name_spec(adam_id).len() >= 4,
        cache_file_name_spec(adam_id).skip(cache_file_name_spec(adam_id).len() - 4) == ".m4a"@,
{
    let kept = adam_id.filter(|c: char| cache_name_char(c));
    let name = cache_file_name_spec(adam_id);
    reveal_strlit(".m4a");
    assert forall|i: int| 0 <= i < name.len() implies name[i] != '/' && name[i] != '\\' by {
        if i < kept.len() {
            adam_id.lemma_filter_pred(|c: char| cache_name_char(c), i);
        }
    }
    assert(name.skip(name.len() - 4) =~= ".m4a"@);
}

/// Whether a download that stopped after `received` of `total` bytes is whole.
/// A body that simply stops is not an error on the connection, so this is the
/// check that keeps a truncated download from being published as silence.
pub fn download_complete(received: u64, total: u64) -> (r: bool)
    ensures
        r == (received >= total),
{
    received >= total
}

} // verus!
