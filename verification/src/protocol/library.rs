//! Library listings, tracks, lyrics and statistics on the wire.
//!
//! Each message is stated as a spec function in both directions (`*_wire` out,
//! `*_decoded` in), the executable conversions are tied to them by their
//! `ensures`, and each `lemma_*_round_trip` proves that a value sent and read
//! back is the value that was sent.

use vstd::prelude::*;

use crate::api;
use crate::config::items;
use crate::enums::{
    lemma_api_enums_round_trip, track_kind_decoded, track_kind_from_proto, track_kind_to_proto,
    track_kind_wire,
};
use crate::text::{clone_counts, clone_opt_string};
use crate::wire;

verus! {

/// How many items a page holds when its request names no limit.
pub const DEFAULT_PAGE_LIMIT: u32 = 100;

/// A received bit rate narrowed to the 16 bits the API holds, saturating.
pub open spec fn narrow_bitrate(value: u32) -> u16 {
    if value > 65535 {
        65535
    } else {
        value as u16
    }
}

pub(crate) fn narrowed_bitrate(value: u32) -> (r: u16)
    ensures
        r == narrow_bitrate(value),
{
    if value > 65535 {
        65535
    } else {
        value as u16
    }
}

pub open spec fn track_filter_wire(v: api::TrackFilterView) -> wire::TrackFilterView {
    wire::TrackFilterView {
        search: v.search,
        artist: v.artist,
        album: v.album,
        genre: v.genre,
        favorite: v.favorite,
        sort: v.sort,
    }
}

pub open spec fn track_filter_decoded(w: wire::TrackFilterView) -> api::TrackFilterView {
    api::TrackFilterView {
        search: w.search,
        artist: w.artist,
        album: w.album,
        genre: w.genre,
        favorite: w.favorite,
        sort: w.sort,
    }
}

pub fn track_filter_to_proto(value: &api::TrackFilter) -> (r: wire::TrackFilter)
    ensures
        r@ == track_filter_wire(value@),
{
    wire::TrackFilter {
        search: clone_opt_string(&value.search),
        artist: clone_opt_string(&value.artist),
        album: clone_opt_string(&value.album),
        genre: clone_opt_string(&value.genre),
        favorite: value.favorite,
        sort: clone_opt_string(&value.sort),
    }
}

pub fn track_filter_from_proto(value: &wire::TrackFilter) -> (r: api::TrackFilter)
    ensures
        r@ == track_filter_decoded(value@),
{
    api::TrackFilter {
        search: clone_opt_string(&value.search),
        artist: clone_opt_string(&value.artist),
        album: clone_opt_string(&value.album),
        genre: clone_opt_string(&value.genre),
        favorite: value.favorite,
        sort: clone_opt_string(&value.sort),
    }
}

/// Every value survives the wire: sent and read back, it is the value that
/// was sent.
pub proof fn lemma_track_filter_round_trip(v: api::TrackFilterView)
    ensures
        track_filter_decoded(track_filter_wire(v)) == v,
{
    lemma_api_enums_round_trip();
}

/// Each field travels in the wire field of the same name, carried over
/// unchanged or through its own conversion, in both directions.
pub proof fn lemma_track_filter_fields_travel(v: api::TrackFilterView, w: wire::TrackFilterView)
    ensures
        track_filter_wire(v).search == v.search,
        track_filter_decoded(w).search == w.search,
        track_filter_wire(v).artist == v.artist,
        track_filter_decoded(w).artist == w.artist,
        track_filter_wire(v).album == v.album,
        track_filter_decoded(w).album == w.album,
        track_filter_wire(v).genre == v.genre,
        track_filter_decoded(w).genre == w.genre,
        track_filter_wire(v).favorite == v.favorite,
        track_filter_decoded(w).favorite == w.favorite,
        track_filter_wire(v).sort == v.sort,
        track_filter_decoded(w).sort == w.sort,
{
}

pub open spec fn page_wire(v: api::PageView) -> wire::PageView {
    wire::PageView {
        offset: v.offset,
        limit: v.limit,
    }
}

/// The page a received message asks for; a missing one, or a limit of 0,
/// asks for the default number of items.
pub open spec fn page_decoded(value: Option<wire::PageView>) -> api::PageView {
    let w = match value {
        Some(w) => w,
        None => wire::PageView { offset: 0, limit: 0 },
    };
    api::PageView {
        offset: w.offset,
        limit: if w.limit == 0 { DEFAULT_PAGE_LIMIT } else { w.limit },
    }
}

pub fn page_to_proto(value: api::Page) -> (r: wire::Page)
    ensures
        r@ == page_wire(value@),
{
    wire::Page {
        offset: value.offset,
        limit: value.limit,
    }
}

pub fn page_from_proto(value: Option<&wire::Page>) -> (r: api::Page)
    ensures
        r@ == page_decoded(value.deep_view()),
{
    let zero = wire::Page { offset: 0, limit: 0 };
    let w: &wire::Page = match value {
        Some(w) => w,
        None => &zero,
    };
    api::Page {
        offset: w.offset,
        limit: if w.limit == 0 { DEFAULT_PAGE_LIMIT } else { w.limit },
    }
}

/// A page with a limit survives the wire: sent and read back, it is the
/// page that was sent. (A limit of 0 reads back as the default limit.)
pub proof fn lemma_page_round_trip(v: api::PageView)
    requires
        v.limit != 0,
    ensures
        page_decoded(Some(page_wire(v))) == v,
{
    lemma_api_enums_round_trip();
}

/// Each field travels in the wire field of the same name, carried over
/// unchanged or through its own conversion, in both directions.
pub proof fn lemma_page_fields_travel(v: api::PageView, w: wire::PageView)
    ensures
        page_wire(v).offset == v.offset,
        page_decoded(Some(w)).offset == w.offset,
        page_wire(v).limit == v.limit,
        page_decoded(Some(w)).limit == (if w.limit == 0 { DEFAULT_PAGE_LIMIT } else { w.limit }),
{
}

/// The empty TrackInfo: no text, no numbers, the default kind.
pub open spec fn track_info_default() -> api::TrackInfoView {
    api::TrackInfoView {
        key: Seq::empty(),
        uid: Seq::empty(),
        title: Seq::empty(),
        artist: Seq::empty(),
        album: Seq::empty(),
        album_id: None,
        duration_ms: None,
        khz: 0,
        bitrate: 0,
        track_number: None,
        disc_number: None,
        kind: api::TrackKind::Normal,
        seekable: false,
        offline: false,
    }
}

impl Default for api::TrackInfo {
    fn default() -> (r: Self)
        ensures
            r@ == track_info_default(),
    {
        api::TrackInfo {
            key: String::new(),
            uid: String::new(),
            title: String::new(),
            artist: String::new(),
            album: String::new(),
            album_id: None,
            duration_ms: None,
            khz: 0,
            bitrate: 0,
            track_number: None,
            disc_number: None,
            kind: api::TrackKind::Normal,
            seekable: false,
            offline: false,
        }
    }
}

pub open spec fn track_info_wire(v: api::TrackInfoView) -> wire::TrackInfoView {
    wire::TrackInfoView {
        key: v.key,
        uid: v.uid,
        title: v.title,
        artist: v.artist,
        album: v.album,
        album_id: v.album_id,
        duration_ms: v.duration_ms,
        khz: v.khz,
        bitrate: (v.bitrate as u32),
        track_number: v.track_number,
        disc_number: v.disc_number,
        kind: track_kind_wire(v.kind).spec_code(),
        seekable: v.seekable,
        offline: v.offline,
    }
}

/// A received bit rate above what 16 bits hold reads as the largest one.
pub open spec fn track_info_decoded(w: wire::TrackInfoView) -> api::TrackInfoView {
    api::TrackInfoView {
        key: w.key,
        uid: w.uid,
        title: w.title,
        artist: w.artist,
        album: w.album,
        album_id: w.album_id,
        duration_ms: w.duration_ms,
        khz: w.khz,
        bitrate: narrow_bitrate(w.bitrate),
        track_number: w.track_number,
        disc_number: w.disc_number,
        kind: track_kind_decoded(w.kind),
        seekable: w.seekable,
        offline: w.offline,
    }
}

pub fn track_info_to_proto(value: &api::TrackInfo) -> (r: wire::TrackInfo)
    ensures
        r@ == track_info_wire(value@),
{
    wire::TrackInfo {
        key: value.key.clone(),
        uid: value.uid.clone(),
        title: value.title.clone(),
        artist: value.artist.clone(),
        album: value.album.clone(),
        album_id: clone_opt_string(&value.album_id),
        duration_ms: value.duration_ms,
        khz: value.khz,
        bitrate: (value.bitrate as u32),
        track_number: value.track_number,
        disc_number: value.disc_number,
        kind: track_kind_to_proto(value.kind).code(),
        seekable: value.seekable,
        offline: value.offline,
    }
}

pub fn track_info_from_proto(value: &wire::TrackInfo) -> (r: api::TrackInfo)
    ensures
        r@ == track_info_decoded(value@),
{
    api::TrackInfo {
        key: value.key.clone(),
        uid: value.uid.clone(),
        title: value.title.clone(),
        artist: value.artist.clone(),
        album: value.album.clone(),
        album_id: clone_opt_string(&value.album_id),
        duration_ms: value.duration_ms,
        khz: value.khz,
        bitrate: narrowed_bitrate(value.bitrate),
        track_number: value.track_number,
        disc_number: value.disc_number,
        kind: track_kind_from_proto(value.kind),
        seekable: value.seekable,
        offline: value.offline,
    }
}

/// Every value survives the wire: sent and read back, it is the value that
/// was sent.
pub proof fn lemma_track_info_round_trip(v: api::TrackInfoView)
    ensures
        track_info_decoded(track_info_wire(v)) == v,
{
    lemma_api_enums_round_trip();
}

/// Each field travels in the wire field of the same name, carried over
/// unchanged or through its own conversion, in both directions.
pub proof fn lemma_track_info_fields_travel(v: api::TrackInfoView, w: wire::TrackInfoView)
    ensures
        track_info_wire(v).key == v.key,
        track_info_decoded(w).key == w.key,
        track_info_wire(v).uid == v.uid,
        track_info_decoded(w).uid == w.uid,
        track_info_wire(v).title == v.title,
        track_info_decoded(w).title == w.title,
        track_info_wire(v).artist == v.artist,
        track_info_decoded(w).artist == w.artist,
        track_info_wire(v).album == v.album,
        track_info_decoded(w).album == w.album,
        track_info_wire(v).album_id == v.album_id,
        track_info_decoded(w).album_id == w.album_id,
        track_info_wire(v).duration_ms == v.duration_ms,
        track_info_decoded(w).duration_ms == w.duration_ms,
        track_info_wire(v).khz == v.khz,
        track_info_decoded(w).khz == w.khz,
        track_info_wire(v).bitrate == v.bitrate as u32,
        w.bitrate <= 65535 ==> track_info_decoded(w).bitrate == w.bitrate,
        w.bitrate > 65535 ==> track_info_decoded(w).bitrate == 65535,
        track_info_wire(v).track_number == v.track_number,
        track_info_decoded(w).track_number == w.track_number,
        track_info_wire(v).disc_number == v.disc_number,
        track_info_decoded(w).disc_number == w.disc_number,
        track_info_wire(v).kind == track_kind_wire(v.kind).spec_code(),
        track_info_decoded(w).kind == track_kind_decoded(w.kind),
        track_info_wire(v).seekable == v.seekable,
        track_info_decoded(w).seekable == w.seekable,
        track_info_wire(v).offline == v.offline,
        track_info_decoded(w).offline == w.offline,
{
}

pub open spec fn track_info_opt_wire(value: Option<api::TrackInfoView>) -> Option<wire::TrackInfoView> {
    match value {
        Some(v) => Some(track_info_wire(v)),
        None => None,
    }
}

pub open spec fn track_info_opt_decoded(value: Option<wire::TrackInfoView>) -> Option<api::TrackInfoView> {
    match value {
        Some(w) => Some(track_info_decoded(w)),
        None => None,
    }
}

pub fn track_info_opt_to_proto(value: &Option<api::TrackInfo>) -> (r: Option<wire::TrackInfo>)
    ensures
        r.deep_view() == track_info_opt_wire(value.deep_view()),
{
    match value {
        Some(v) => Some(track_info_to_proto(v)),
        None => None,
    }
}

pub fn track_info_opt_from_proto(value: &Option<wire::TrackInfo>) -> (r: Option<api::TrackInfo>)
    ensures
        r.deep_view() == track_info_opt_decoded(value.deep_view()),
{
    match value {
        Some(w) => Some(track_info_from_proto(w)),
        None => None,
    }
}

pub proof fn lemma_track_info_opt_round_trip(value: Option<api::TrackInfoView>)
    ensures
        track_info_opt_decoded(track_info_opt_wire(value)) == value,
{
    if let Some(v) = value {
        lemma_track_info_round_trip(v);
    }
}

pub open spec fn track_infos_wire(values: Seq<api::TrackInfoView>) -> Seq<wire::TrackInfoView> {
    Seq::new(values.len(), |i: int| track_info_wire(values[i]))
}

pub open spec fn track_infos_decoded(values: Seq<wire::TrackInfoView>) -> Seq<api::TrackInfoView> {
    Seq::new(values.len(), |i: int| track_info_decoded(values[i]))
}

pub fn track_infos_to_proto(values: &Vec<api::TrackInfo>) -> (r: Vec<wire::TrackInfo>)
    ensures
        items(r) == track_infos_wire(items(*values)),
{
    let mut r: Vec<wire::TrackInfo> = Vec::new();
    let mut i: usize = 0;
    while i < values.len()
        invariant
            i <= values.len(),
            r@.len() == i,
            forall|j: int| 0 <= j < i ==> #[trigger] r@[j]@ == track_info_wire(values@[j]@),
        decreases values.len() - i,
    {
        r.push(track_info_to_proto(&values[i]));
        i += 1;
    }
    proof {
        reveal(items);
    }
    assert(r.deep_view() =~= track_infos_wire(values.deep_view()));
    r
}

pub fn track_infos_from_proto(values: &Vec<wire::TrackInfo>) -> (r: Vec<api::TrackInfo>)
    ensures
        items(r) == track_infos_decoded(items(*values)),
{
    let mut r: Vec<api::TrackInfo> = Vec::new();
    let mut i: usize = 0;
    while i < values.len()
        invariant
            i <= values.len(),
            r@.len() == i,
            forall|j: int| 0 <= j < i ==> #[trigger] r@[j]@ == track_info_decoded(values@[j]@),
        decreases values.len() - i,
    {
        r.push(track_info_from_proto(&values[i]));
        i += 1;
    }
    proof {
        reveal(items);
    }
    assert(r.deep_view() =~= track_infos_decoded(values.deep_view()));
    r
}

pub proof fn lemma_track_infos_round_trip(values: Seq<api::TrackInfoView>)
    ensures
        track_infos_decoded(track_infos_wire(values)) == values,
{
    assert forall|i: int| 0 <= i < values.len() implies #[trigger] track_infos_decoded(track_infos_wire(values))[i] == values[i] by {
        lemma_track_info_round_trip(values[i]);
    }
    assert(track_infos_decoded(track_infos_wire(values)) =~= values);
}

pub open spec fn track_page_wire(v: api::TrackPageView) -> wire::TrackPageView {
    wire::TrackPageView {
        total: v.total,
        offset: v.offset,
        items: track_infos_wire(v.items),
    }
}

pub open spec fn track_page_decoded(w: wire::TrackPageView) -> api::TrackPageView {
    api::TrackPageView {
        total: w.total,
        offset: w.offset,
        items: track_infos_decoded(w.items),
    }
}

pub fn track_page_to_proto(value: &api::TrackPage) -> (r: wire::TrackPage)
    ensures
        r@ == track_page_wire(value@),
{
    wire::TrackPage {
        total: value.total,
        offset: value.offset,
        items: track_infos_to_proto(&value.items),
    }
}

pub fn track_page_from_proto(value: &wire::TrackPage) -> (r: api::TrackPage)
    ensures
        r@ == track_page_decoded(value@),
{
    api::TrackPage {
        total: value.total,
        offset: value.offset,
        items: track_infos_from_proto(&value.items),
    }
}

/// Every value survives the wire: sent and read back, it is the value that
/// was sent.
pub proof fn lemma_track_page_round_trip(v: api::TrackPageView)
    ensures
        track_page_decoded(track_page_wire(v)) == v,
{
    lemma_api_enums_round_trip();
    lemma_track_infos_round_trip(v.items);
}

/// Each field travels in the wire field of the same name, carried over
/// unchanged or through its own conversion, in both directions.
pub proof fn lemma_track_page_fields_travel(v: api::TrackPageView, w: wire::TrackPageView)
    ensures
        track_page_wire(v).total == v.total,
        track_page_decoded(w).total == w.total,
        track_page_wire(v).offset == v.offset,
        track_page_decoded(w).offset == w.offset,
        track_page_wire(v).items == track_infos_wire(v.items),
        track_page_decoded(w).items == track_infos_decoded(w.items),
{
}

pub open spec fn lyric_chunk_wire(v: api::LyricChunkModel) -> wire::LyricChunkView {
    wire::LyricChunkView {
        start_ms: v.start_ms,
        text: v.text,
    }
}

pub open spec fn lyric_chunk_decoded(w: wire::LyricChunkView) -> api::LyricChunkModel {
    api::LyricChunkModel {
        start_ms: w.start_ms,
        text: w.text,
    }
}

pub fn lyric_chunk_to_proto(value: &api::LyricChunkView) -> (r: wire::LyricChunk)
    ensures
        r@ == lyric_chunk_wire(value@),
{
    wire::LyricChunk {
        start_ms: value.start_ms,
        text: value.text.clone(),
    }
}

pub fn lyric_chunk_from_proto(value: &wire::LyricChunk) -> (r: api::LyricChunkView)
    ensures
        r@ == lyric_chunk_decoded(value@),
{
    api::LyricChunkView {
        start_ms: value.start_ms,
        text: value.text.clone(),
    }
}

/// Every value survives the wire: sent and read back, it is the value that
/// was sent.
pub proof fn lemma_lyric_chunk_round_trip(v: api::LyricChunkModel)
    ensures
        lyric_chunk_decoded(lyric_chunk_wire(v)) == v,
{
    lemma_api_enums_round_trip();
}

/// Each field travels in the wire field of the same name, carried over
/// unchanged or through its own conversion, in both directions.
pub proof fn lemma_lyric_chunk_fields_travel(v: api::LyricChunkModel, w: wire::LyricChunkView)
    ensures
        lyric_chunk_wire(v).start_ms == v.start_ms,
        lyric_chunk_decoded(w).start_ms == w.start_ms,
        lyric_chunk_wire(v).text == v.text,
        lyric_chunk_decoded(w).text == w.text,
{
}

pub open spec fn lyric_chunks_wire(values: Seq<api::LyricChunkModel>) -> Seq<wire::LyricChunkView> {
    Seq::new(values.len(), |i: int| lyric_chunk_wire(values[i]))
}

pub open spec fn lyric_chunks_decoded(values: Seq<wire::LyricChunkView>) -> Seq<api::LyricChunkModel> {
    Seq::new(values.len(), |i: int| lyric_chunk_decoded(values[i]))
}

pub fn lyric_chunks_to_proto(values: &Vec<api::LyricChunkView>) -> (r: Vec<wire::LyricChunk>)
    ensures
        items(r) == lyric_chunks_wire(items(*values)),
{
    let mut r: Vec<wire::LyricChunk> = Vec::new();
    let mut i: usize = 0;
    while i < values.len()
        invariant
            i <= values.len(),
            r@.len() == i,
            forall|j: int| 0 <= j < i ==> #[trigger] r@[j]@ == lyric_chunk_wire(values@[j]@),
        decreases values.len() - i,
    {
        r.push(lyric_chunk_to_proto(&values[i]));
        i += 1;
    }
    proof {
        reveal(items);
    }
    assert(r.deep_view() =~= lyric_chunks_wire(values.deep_view()));
    r
}

pub fn lyric_chunks_from_proto(values: &Vec<wire::LyricChunk>) -> (r: Vec<api::LyricChunkView>)
    ensures
        items(r) == lyric_chunks_decoded(items(*values)),
{
    let mut r: Vec<api::LyricChunkView> = Vec::new();
    let mut i: usize = 0;
    while i < values.len()
        invariant
            i <= values.len(),
            r@.len() == i,
            forall|j: int| 0 <= j < i ==> #[trigger] r@[j]@ == lyric_chunk_decoded(values@[j]@),
        decreases values.len() - i,
    {
        r.push(lyric_chunk_from_proto(&values[i]));
        i += 1;
    }
    proof {
        reveal(items);
    }
    assert(r.deep_view() =~= lyric_chunks_decoded(values.deep_view()));
    r
}

pub proof fn lemma_lyric_chunks_round_trip(values: Seq<api::LyricChunkModel>)
    ensures
        lyric_chunks_decoded(lyric_chunks_wire(values)) == values,
{
    assert forall|i: int| 0 <= i < values.len() implies #[trigger] lyric_chunks_decoded(lyric_chunks_wire(values))[i] == values[i] by {
        lemma_lyric_chunk_round_trip(values[i]);
    }
    assert(lyric_chunks_decoded(lyric_chunks_wire(values)) =~= values);
}

pub open spec fn lyric_line_wire(v: api::LyricLineModel) -> wire::LyricLineView {
    wire::LyricLineView {
        start_ms: v.start_ms,
        end_ms: v.end_ms,
        text: v.text,
        chunks: lyric_chunks_wire(v.chunks),
        parent_line_index: v.parent_line_index,
        background: v.background,
        opposite_turn: v.opposite_turn,
    }
}

pub open spec fn lyric_line_decoded(w: wire::LyricLineView) -> api::LyricLineModel {
    api::LyricLineModel {
        start_ms: w.start_ms,
        end_ms: w.end_ms,
        text: w.text,
        chunks: lyric_chunks_decoded(w.chunks),
        parent_line_index: w.parent_line_index,
        background: w.background,
        opposite_turn: w.opposite_turn,
    }
}

pub fn lyric_line_to_proto(value: &api::LyricLineView) -> (r: wire::LyricLine)
    ensures
        r@ == lyric_line_wire(value@),
{
    wire::LyricLine {
        start_ms: value.start_ms,
        end_ms: value.end_ms,
        text: value.text.clone(),
        chunks: lyric_chunks_to_proto(&value.chunks),
        parent_line_index: value.parent_line_index,
        background: value.background,
        opposite_turn: value.opposite_turn,
    }
}

pub fn lyric_line_from_proto(value: &wire::LyricLine) -> (r: api::LyricLineView)
    ensures
        r@ == lyric_line_decoded(value@),
{
    api::LyricLineView {
        start_ms: value.start_ms,
        end_ms: value.end_ms,
        text: value.text.clone(),
        chunks: lyric_chunks_from_proto(&value.chunks),
        parent_line_index: value.parent_line_index,
        background: value.background,
        opposite_turn: value.opposite_turn,
    }
}

/// Every value survives the wire: sent and read back, it is the value that
/// was sent.
pub proof fn lemma_lyric_line_round_trip(v: api::LyricLineModel)
    ensures
        lyric_line_decoded(lyric_line_wire(v)) == v,
{
    lemma_api_enums_round_trip();
    lemma_lyric_chunks_round_trip(v.chunks);
}

/// Each field travels in the wire field of the same name, carried over
/// unchanged or through its own conversion, in both directions.
pub proof fn lemma_lyric_line_fields_travel(v: api::LyricLineModel, w: wire::LyricLineView)
    ensures
        lyric_line_wire(v).start_ms == v.start_ms,
        lyric_line_decoded(w).start_ms == w.start_ms,
        lyric_line_wire(v).end_ms == v.end_ms,
        lyric_line_decoded(w).end_ms == w.end_ms,
        lyric_line_wire(v).text == v.text,
        lyric_line_decoded(w).text == w.text,
        lyric_line_wire(v).chunks == lyric_chunks_wire(v.chunks),
        lyric_line_decoded(w).chunks == lyric_chunks_decoded(w.chunks),
        lyric_line_wire(v).parent_line_index == v.parent_line_index,
        lyric_line_decoded(w).parent_line_index == w.parent_line_index,
        lyric_line_wire(v).background == v.background,
        lyric_line_decoded(w).background == w.background,
        lyric_line_wire(v).opposite_turn == v.opposite_turn,
        lyric_line_decoded(w).opposite_turn == w.opposite_turn,
{
}

pub open spec fn lyric_lines_wire(values: Seq<api::LyricLineModel>) -> Seq<wire::LyricLineView> {
    Seq::new(values.len(), |i: int| lyric_line_wire(values[i]))
}

pub open spec fn lyric_lines_decoded(values: Seq<wire::LyricLineView>) -> Seq<api::LyricLineModel> {
    Seq::new(values.len(), |i: int| lyric_line_decoded(values[i]))
}

pub fn lyric_lines_to_proto(values: &Vec<api::LyricLineView>) -> (r: Vec<wire::LyricLine>)
    ensures
        items(r) == lyric_lines_wire(items(*values)),
{
    let mut r: Vec<wire::LyricLine> = Vec::new();
    let mut i: usize = 0;
    while i < values.len()
        invariant
            i <= values.len(),
            r@.len() == i,
            forall|j: int| 0 <= j < i ==> #[trigger] r@[j]@ == lyric_line_wire(values@[j]@),
        decreases values.len() - i,
    {
        r.push(lyric_line_to_proto(&values[i]));
        i += 1;
    }
    proof {
        reveal(items);
    }
    assert(r.deep_view() =~= lyric_lines_wire(values.deep_view()));
    r
}

pub fn lyric_lines_from_proto(values: &Vec<wire::LyricLine>) -> (r: Vec<api::LyricLineView>)
    ensures
        items(r) == lyric_lines_decoded(items(*values)),
{
    let mut r: Vec<api::LyricLineView> = Vec::new();
    let mut i: usize = 0;
    while i < values.len()
        invariant
            i <= values.len(),
            r@.len() == i,
            forall|j: int| 0 <= j < i ==> #[trigger] r@[j]@ == lyric_line_decoded(values@[j]@),
        decreases values.len() - i,
    {
        r.push(lyric_line_from_proto(&values[i]));
        i += 1;
    }
    proof {
        reveal(items);
    }
    assert(r.deep_view() =~= lyric_lines_decoded(values.deep_view()));
    r
}

pub proof fn lemma_lyric_lines_round_trip(values: Seq<api::LyricLineModel>)
    ensures
        lyric_lines_decoded(lyric_lines_wire(values)) == values,
{
    assert forall|i: int| 0 <= i < values.len() implies #[trigger] lyric_lines_decoded(lyric_lines_wire(values))[i] == values[i] by {
        lemma_lyric_line_round_trip(values[i]);
    }
    assert(lyric_lines_decoded(lyric_lines_wire(values)) =~= values);
}

pub open spec fn lyrics_wire(v: api::LyricsModel) -> wire::LyricsView {
    wire::LyricsView {
        plain: v.plain,
        synced: lyric_lines_wire(v.synced),
    }
}

pub open spec fn lyrics_decoded(w: wire::LyricsView) -> api::LyricsModel {
    api::LyricsModel {
        plain: w.plain,
        synced: lyric_lines_decoded(w.synced),
    }
}

pub fn lyrics_to_proto(value: &api::LyricsView) -> (r: wire::Lyrics)
    ensures
        r@ == lyrics_wire(value@),
{
    wire::Lyrics {
        plain: clone_opt_string(&value.plain),
        synced: lyric_lines_to_proto(&value.synced),
    }
}

pub fn lyrics_from_proto(value: &wire::Lyrics) -> (r: api::LyricsView)
    ensures
        r@ == lyrics_decoded(value@),
{
    api::LyricsView {
        plain: clone_opt_string(&value.plain),
        synced: lyric_lines_from_proto(&value.synced),
    }
}

/// Every value survives the wire: sent and read back, it is the value that
/// was sent.
pub proof fn lemma_lyrics_round_trip(v: api::LyricsModel)
    ensures
        lyrics_decoded(lyrics_wire(v)) == v,
{
    lemma_api_enums_round_trip();
    lemma_lyric_lines_round_trip(v.synced);
}

/// Each field travels in the wire field of the same name, carried over
/// unchanged or through its own conversion, in both directions.
pub proof fn lemma_lyrics_fields_travel(v: api::LyricsModel, w: wire::LyricsView)
    ensures
        lyrics_wire(v).plain == v.plain,
        lyrics_decoded(w).plain == w.plain,
        lyrics_wire(v).synced == lyric_lines_wire(v.synced),
        lyrics_decoded(w).synced == lyric_lines_decoded(w.synced),
{
}

pub open spec fn stats_wire(v: api::StatsModel) -> wire::StatsView {
    wire::StatsView {
        listen_counts: v.listen_counts,
    }
}

pub open spec fn stats_decoded(w: wire::StatsView) -> api::StatsModel {
    api::StatsModel {
        listen_counts: w.listen_counts,
    }
}

pub fn stats_to_proto(value: &api::StatsView) -> (r: wire::Stats)
    ensures
        r@ == stats_wire(value@),
{
    wire::Stats {
        listen_counts: clone_counts(&value.listen_counts),
    }
}

pub fn stats_from_proto(value: &wire::Stats) -> (r: api::StatsView)
    ensures
        r@ == stats_decoded(value@),
{
    api::StatsView {
        listen_counts: clone_counts(&value.listen_counts),
    }
}

/// Every value survives the wire: sent and read back, it is the value that
/// was sent.
pub proof fn lemma_stats_round_trip(v: api::StatsModel)
    ensures
        stats_decoded(stats_wire(v)) == v,
{
    lemma_api_enums_round_trip();
}

/// Each field travels in the wire field of the same name, carried over
/// unchanged or through its own conversion, in both directions.
pub proof fn lemma_stats_fields_travel(v: api::StatsModel, w: wire::StatsView)
    ensures
        stats_wire(v).listen_counts == v.listen_counts,
        stats_decoded(w).listen_counts == w.listen_counts,
{
}

} // verus!
