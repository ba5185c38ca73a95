//! Conversions between the in-process settings ([`crate::config`]) and their
//! wire messages ([`crate::wire`]).
//!
//! Every conversion is stated twice: as a spec function over mathematical
//! values (`*_wire` for the outgoing direction, `*_decoded` for the incoming
//! one), and as the executable function whose `ensures` ties it to that spec.
//! The laws at the end of the file are what the wire contract promises: a
//! value sent and read back is the value that was sent.

use vstd::prelude::*;

use crate::config;
use crate::config::items;
use crate::text::{clone_counts, clone_opt_string, clone_string_pairs, clone_strings};
use crate::wire;

verus! {

/// A `u32` narrowed to a `u8`, saturating at 255.
pub open spec fn saturate_u8(value: u32) -> u8 {
    if value > 255 {
        255
    } else {
        value as u8
    }
}

fn saturating_u8(value: u32) -> (r: u8)
    ensures
        r == saturate_u8(value),
{
    if value > 255 {
        255
    } else {
        value as u8
    }
}

pub open spec fn album_view_mode_wire(value: config::AlbumViewMode) -> wire::AlbumViewMode {
    match value {
        config::AlbumViewMode::Grid => wire::AlbumViewMode::Grid,
        config::AlbumViewMode::List => wire::AlbumViewMode::List,
    }
}

/// The setting a received code stands for; an unknown or unspecified code
/// reads as [`config::AlbumViewMode::Grid`].
pub open spec fn album_view_mode_decoded(code: i32) -> config::AlbumViewMode {
    match wire::AlbumViewMode::spec_from_code(code) {
        Some(wire::AlbumViewMode::Grid) => config::AlbumViewMode::Grid,
        Some(wire::AlbumViewMode::List) => config::AlbumViewMode::List,
        _ => config::AlbumViewMode::Grid,
    }
}

pub fn album_view_mode_to_proto(value: config::AlbumViewMode) -> (r: wire::AlbumViewMode)
    ensures
        r == album_view_mode_wire(value),
{
    match value {
        config::AlbumViewMode::Grid => wire::AlbumViewMode::Grid,
        config::AlbumViewMode::List => wire::AlbumViewMode::List,
    }
}

pub fn album_view_mode_from_proto(value: i32) -> (r: config::AlbumViewMode)
    ensures
        r == album_view_mode_decoded(value),
{
    match wire::AlbumViewMode::try_from_code(value).unwrap_or(wire::AlbumViewMode::Unspecified) {
        wire::AlbumViewMode::Grid => config::AlbumViewMode::Grid,
        wire::AlbumViewMode::List => config::AlbumViewMode::List,
        wire::AlbumViewMode::Unspecified => config::AlbumViewMode::default(),
    }
}

pub open spec fn artist_view_order_wire(value: config::ArtistViewOrder) -> wire::ArtistViewOrder {
    match value {
        config::ArtistViewOrder::Tracks => wire::ArtistViewOrder::Tracks,
        config::ArtistViewOrder::Albums => wire::ArtistViewOrder::Albums,
    }
}

/// The setting a received code stands for; an unknown or unspecified code
/// reads as [`config::ArtistViewOrder::Tracks`].
pub open spec fn artist_view_order_decoded(code: i32) -> config::ArtistViewOrder {
    match wire::ArtistViewOrder::spec_from_code(code) {
        Some(wire::ArtistViewOrder::Tracks) => config::ArtistViewOrder::Tracks,
        Some(wire::ArtistViewOrder::Albums) => config::ArtistViewOrder::Albums,
        _ => config::ArtistViewOrder::Tracks,
    }
}

pub fn artist_view_order_to_proto(value: &config::ArtistViewOrder) -> (r: wire::ArtistViewOrder)
    ensures
        r == artist_view_order_wire(*value),
{
    match value {
        config::ArtistViewOrder::Tracks => wire::ArtistViewOrder::Tracks,
        config::ArtistViewOrder::Albums => wire::ArtistViewOrder::Albums,
    }
}

pub fn artist_view_order_from_proto(value: i32) -> (r: config::ArtistViewOrder)
    ensures
        r == artist_view_order_decoded(value),
{
    match wire::ArtistViewOrder::try_from_code(value).unwrap_or(wire::ArtistViewOrder::Unspecified) {
        wire::ArtistViewOrder::Tracks => config::ArtistViewOrder::Tracks,
        wire::ArtistViewOrder::Albums => config::ArtistViewOrder::Albums,
        wire::ArtistViewOrder::Unspecified => config::ArtistViewOrder::Tracks,
    }
}

pub open spec fn back_behavior_wire(value: config::BackBehavior) -> wire::BackBehavior {
    match value {
        config::BackBehavior::RewindThenPrev => wire::BackBehavior::RewindThenPrev,
        config::BackBehavior::AlwaysPrev => wire::BackBehavior::AlwaysPrev,
    }
}

/// The setting a received code stands for; an unknown or unspecified code
/// reads as [`config::BackBehavior::RewindThenPrev`].
pub open spec fn back_behavior_decoded(code: i32) -> config::BackBehavior {
    match wire::BackBehavior::spec_from_code(code) {
        Some(wire::BackBehavior::RewindThenPrev) => config::BackBehavior::RewindThenPrev,
        Some(wire::BackBehavior::AlwaysPrev) => config::BackBehavior::AlwaysPrev,
        _ => config::BackBehavior::RewindThenPrev,
    }
}

pub fn back_behavior_to_proto(value: config::BackBehavior) -> (r: wire::BackBehavior)
    ensures
        r == back_behavior_wire(value),
{
    match value {
        config::BackBehavior::RewindThenPrev => wire::BackBehavior::RewindThenPrev,
        config::BackBehavior::AlwaysPrev => wire::BackBehavior::AlwaysPrev,
    }
}

pub fn back_behavior_from_proto(value: i32) -> (r: config::BackBehavior)
    ensures
        r == back_behavior_decoded(value),
{
    match wire::BackBehavior::try_from_code(value).unwrap_or(wire::BackBehavior::Unspecified) {
        wire::BackBehavior::RewindThenPrev => config::BackBehavior::RewindThenPrev,
        wire::BackBehavior::AlwaysPrev => config::BackBehavior::AlwaysPrev,
        wire::BackBehavior::Unspecified => config::BackBehavior::default(),
    }
}

pub open spec fn channel_mode_wire(value: config::ChannelMode) -> wire::ChannelMode {
    match value {
        config::ChannelMode::Stereo => wire::ChannelMode::Stereo,
        config::ChannelMode::Mono => wire::ChannelMode::Mono,
        config::ChannelMode::LeftOnly => wire::ChannelMode::LeftOnly,
        config::ChannelMode::RightOnly => wire::ChannelMode::RightOnly,
        config::ChannelMode::SwapLeftRight => wire::ChannelMode::SwapLeftRight,
    }
}

/// The setting a received code stands for; an unknown or unspecified code
/// reads as [`config::ChannelMode::Stereo`].
pub open spec fn channel_mode_decoded(code: i32) -> config::ChannelMode {
    match wire::ChannelMode::spec_from_code(code) {
        Some(wire::ChannelMode::Stereo) => config::ChannelMode::Stereo,
        Some(wire::ChannelMode::Mono) => config::ChannelMode::Mono,
        Some(wire::ChannelMode::LeftOnly) => config::ChannelMode::LeftOnly,
        Some(wire::ChannelMode::RightOnly) => config::ChannelMode::RightOnly,
        Some(wire::ChannelMode::SwapLeftRight) => config::ChannelMode::SwapLeftRight,
        _ => config::ChannelMode::Stereo,
    }
}

pub fn channel_mode_to_proto(value: config::ChannelMode) -> (r: wire::ChannelMode)
    ensures
        r == channel_mode_wire(value),
{
    match value {
        config::ChannelMode::Stereo => wire::ChannelMode::Stereo,
        config::ChannelMode::Mono => wire::ChannelMode::Mono,
        config::ChannelMode::LeftOnly => wire::ChannelMode::LeftOnly,
        config::ChannelMode::RightOnly => wire::ChannelMode::RightOnly,
        config::ChannelMode::SwapLeftRight => wire::ChannelMode::SwapLeftRight,
    }
}

pub fn channel_mode_from_proto(value: i32) -> (r: config::ChannelMode)
    ensures
        r == channel_mode_decoded(value),
{
    match wire::ChannelMode::try_from_code(value).unwrap_or(wire::ChannelMode::Unspecified) {
        wire::ChannelMode::Stereo => config::ChannelMode::Stereo,
        wire::ChannelMode::Mono => config::ChannelMode::Mono,
        wire::ChannelMode::LeftOnly => config::ChannelMode::LeftOnly,
        wire::ChannelMode::RightOnly => config::ChannelMode::RightOnly,
        wire::ChannelMode::SwapLeftRight => config::ChannelMode::SwapLeftRight,
        wire::ChannelMode::Unspecified => config::ChannelMode::default(),
    }
}

pub open spec fn device_change_behavior_wire(value: config::DeviceChangeBehavior) -> wire::DeviceChangeBehavior {
    match value {
        config::DeviceChangeBehavior::Resume => wire::DeviceChangeBehavior::Resume,
        config::DeviceChangeBehavior::Pause => wire::DeviceChangeBehavior::Pause,
    }
}

/// The setting a received code stands for; an unknown or unspecified code
/// reads as [`config::DeviceChangeBehavior::Resume`].
pub open spec fn device_change_behavior_decoded(code: i32) -> config::DeviceChangeBehavior {
    match wire::DeviceChangeBehavior::spec_from_code(code) {
        Some(wire::DeviceChangeBehavior::Resume) => config::DeviceChangeBehavior::Resume,
        Some(wire::DeviceChangeBehavior::Pause) => config::DeviceChangeBehavior::Pause,
        _ => config::DeviceChangeBehavior::Resume,
    }
}

pub fn device_change_behavior_to_proto(value: config::DeviceChangeBehavior) -> (r: wire::DeviceChangeBehavior)
    ensures
        r == device_change_behavior_wire(value),
{
    match value {
        config::DeviceChangeBehavior::Resume => wire::DeviceChangeBehavior::Resume,
        config::DeviceChangeBehavior::Pause => wire::DeviceChangeBehavior::Pause,
    }
}

pub fn device_change_behavior_from_proto(value: i32) -> (r: config::DeviceChangeBehavior)
    ensures
        r == device_change_behavior_decoded(value),
{
    match wire::DeviceChangeBehavior::try_from_code(value).unwrap_or(wire::DeviceChangeBehavior::Unspecified) {
        wire::DeviceChangeBehavior::Resume => config::DeviceChangeBehavior::Resume,
        wire::DeviceChangeBehavior::Pause => config::DeviceChangeBehavior::Pause,
        wire::DeviceChangeBehavior::Unspecified => config::DeviceChangeBehavior::default(),
    }
}

pub open spec fn fetch_strategy_wire(value: config::FetchStrategy) -> wire::FetchStrategy {
    match value {
        config::FetchStrategy::MusicBrainzFirst => wire::FetchStrategy::MusicBrainzFirst,
        config::FetchStrategy::LastFmFirst => wire::FetchStrategy::LastFmFirst,
        config::FetchStrategy::MusicBrainzOnly => wire::FetchStrategy::MusicBrainzOnly,
        config::FetchStrategy::LastFmOnly => wire::FetchStrategy::LastFmOnly,
    }
}

/// The setting a received code stands for; an unknown or unspecified code
/// reads as [`config::FetchStrategy::MusicBrainzFirst`].
pub open spec fn fetch_strategy_decoded(code: i32) -> config::FetchStrategy {
    match wire::FetchStrategy::spec_from_code(code) {
        Some(wire::FetchStrategy::MusicBrainzFirst) => config::FetchStrategy::MusicBrainzFirst,
        Some(wire::FetchStrategy::LastFmFirst) => config::FetchStrategy::LastFmFirst,
        Some(wire::FetchStrategy::MusicBrainzOnly) => config::FetchStrategy::MusicBrainzOnly,
        Some(wire::FetchStrategy::LastFmOnly) => config::FetchStrategy::LastFmOnly,
        _ => config::FetchStrategy::MusicBrainzFirst,
    }
}

pub fn fetch_strategy_to_proto(value: config::FetchStrategy) -> (r: wire::FetchStrategy)
    ensures
        r == fetch_strategy_wire(value),
{
    match value {
        config::FetchStrategy::MusicBrainzFirst => wire::FetchStrategy::MusicBrainzFirst,
        config::FetchStrategy::LastFmFirst => wire::FetchStrategy::LastFmFirst,
        config::FetchStrategy::MusicBrainzOnly => wire::FetchStrategy::MusicBrainzOnly,
        config::FetchStrategy::LastFmOnly => wire::FetchStrategy::LastFmOnly,
    }
}

pub fn fetch_strategy_from_proto(value: i32) -> (r: config::FetchStrategy)
    ensures
        r == fetch_strategy_decoded(value),
{
    match wire::FetchStrategy::try_from_code(value).unwrap_or(wire::FetchStrategy::Unspecified) {
        wire::FetchStrategy::MusicBrainzFirst => config::FetchStrategy::MusicBrainzFirst,
        wire::FetchStrategy::LastFmFirst => config::FetchStrategy::LastFmFirst,
        wire::FetchStrategy::MusicBrainzOnly => config::FetchStrategy::MusicBrainzOnly,
        wire::FetchStrategy::LastFmOnly => config::FetchStrategy::LastFmOnly,
        wire::FetchStrategy::Unspecified => config::FetchStrategy::default(),
    }
}

pub open spec fn listen_now_style_wire(value: config::ListenNowStyle) -> wire::ListenNowStyle {
    match value {
        config::ListenNowStyle::List => wire::ListenNowStyle::List,
        config::ListenNowStyle::Cards => wire::ListenNowStyle::Cards,
    }
}

/// The setting a received code stands for; an unknown or unspecified code
/// reads as [`config::ListenNowStyle::List`].
pub open spec fn listen_now_style_decoded(code: i32) -> config::ListenNowStyle {
    match wire::ListenNowStyle::spec_from_code(code) {
        Some(wire::ListenNowStyle::List) => config::ListenNowStyle::List,
        Some(wire::ListenNowStyle::Cards) => config::ListenNowStyle::Cards,
        _ => config::ListenNowStyle::List,
    }
}

pub fn listen_now_style_to_proto(value: config::ListenNowStyle) -> (r: wire::ListenNowStyle)
    ensures
        r == listen_now_style_wire(value),
{
    match value {
        config::ListenNowStyle::List => wire::ListenNowStyle::List,
        config::ListenNowStyle::Cards => wire::ListenNowStyle::Cards,
    }
}

pub fn listen_now_style_from_proto(value: i32) -> (r: config::ListenNowStyle)
    ensures
        r == listen_now_style_decoded(value),
{
    match wire::ListenNowStyle::try_from_code(value).unwrap_or(wire::ListenNowStyle::Unspecified) {
        wire::ListenNowStyle::List => config::ListenNowStyle::List,
        wire::ListenNowStyle::Cards => config::ListenNowStyle::Cards,
        wire::ListenNowStyle::Unspecified => config::ListenNowStyle::default(),
    }
}

pub open spec fn offline_quality_wire(value: config::OfflineQuality) -> wire::OfflineQuality {
    match value {
        config::OfflineQuality::Kbps128 => wire::OfflineQuality::Kbps128,
        config::OfflineQuality::Kbps160 => wire::OfflineQuality::Kbps160,
        config::OfflineQuality::Kbps192 => wire::OfflineQuality::Kbps192,
        config::OfflineQuality::Kbps256 => wire::OfflineQuality::Kbps256,
        config::OfflineQuality::Kbps320 => wire::OfflineQuality::Kbps320,
        config::OfflineQuality::Original => wire::OfflineQuality::Original,
    }
}

/// The setting a received code stands for; an unknown or unspecified code
/// reads as [`config::OfflineQuality::Kbps128`].
pub open spec fn offline_quality_decoded(code: i32) -> config::OfflineQuality {
    match wire::OfflineQuality::spec_from_code(code) {
        Some(wire::OfflineQuality::Kbps128) => config::OfflineQuality::Kbps128,
        Some(wire::OfflineQuality::Kbps160) => config::OfflineQuality::Kbps160,
        Some(wire::OfflineQuality::Kbps192) => config::OfflineQuality::Kbps192,
        Some(wire::OfflineQuality::Kbps256) => config::OfflineQuality::Kbps256,
        Some(wire::OfflineQuality::Kbps320) => config::OfflineQuality::Kbps320,
        Some(wire::OfflineQuality::Original) => config::OfflineQuality::Original,
        _ => config::OfflineQuality::Kbps128,
    }
}

pub fn offline_quality_to_proto(value: config::OfflineQuality) -> (r: wire::OfflineQuality)
    ensures
        r == offline_quality_wire(value),
{
    match value {
        config::OfflineQuality::Kbps128 => wire::OfflineQuality::Kbps128,
        config::OfflineQuality::Kbps160 => wire::OfflineQuality::Kbps160,
        config::OfflineQuality::Kbps192 => wire::OfflineQuality::Kbps192,
        config::OfflineQuality::Kbps256 => wire::OfflineQuality::Kbps256,
        config::OfflineQuality::Kbps320 => wire::OfflineQuality::Kbps320,
        config::OfflineQuality::Original => wire::OfflineQuality::Original,
    }
}

pub fn offline_quality_from_proto(value: i32) -> (r: config::OfflineQuality)
    ensures
        r == offline_quality_decoded(value),
{
    match wire::OfflineQuality::try_from_code(value).unwrap_or(wire::OfflineQuality::Unspecified) {
        wire::OfflineQuality::Kbps128 => config::OfflineQuality::Kbps128,
        wire::OfflineQuality::Kbps160 => config::OfflineQuality::Kbps160,
        wire::OfflineQuality::Kbps192 => config::OfflineQuality::Kbps192,
        wire::OfflineQuality::Kbps256 => config::OfflineQuality::Kbps256,
        wire::OfflineQuality::Kbps320 => config::OfflineQuality::Kbps320,
        wire::OfflineQuality::Original => config::OfflineQuality::Original,
        wire::OfflineQuality::Unspecified => config::OfflineQuality::default(),
    }
}

pub open spec fn player_bar_position_wire(value: config::PlayerBarPosition) -> wire::PlayerBarPosition {
    match value {
        config::PlayerBarPosition::Bottom => wire::PlayerBarPosition::Bottom,
        config::PlayerBarPosition::Top => wire::PlayerBarPosition::Top,
    }
}

/// The setting a received code stands for; an unknown or unspecified code
/// reads as [`config::PlayerBarPosition::Bottom`].
pub open spec fn player_bar_position_decoded(code: i32) -> config::PlayerBarPosition {
    match wire::PlayerBarPosition::spec_from_code(code) {
        Some(wire::PlayerBarPosition::Bottom) => config::PlayerBarPosition::Bottom,
        Some(wire::PlayerBarPosition::Top) => config::PlayerBarPosition::Top,
        _ => config::PlayerBarPosition::Bottom,
    }
}

pub fn player_bar_position_to_proto(value: config::PlayerBarPosition) -> (r: wire::PlayerBarPosition)
    ensures
        r == player_bar_position_wire(value),
{
    match value {
        config::PlayerBarPosition::Bottom => wire::PlayerBarPosition::Bottom,
        config::PlayerBarPosition::Top => wire::PlayerBarPosition::Top,
    }
}

pub fn player_bar_position_from_proto(value: i32) -> (r: config::PlayerBarPosition)
    ensures
        r == player_bar_position_decoded(value),
{
    match wire::PlayerBarPosition::try_from_code(value).unwrap_or(wire::PlayerBarPosition::Unspecified) {
        wire::PlayerBarPosition::Bottom => config::PlayerBarPosition::Bottom,
        wire::PlayerBarPosition::Top => config::PlayerBarPosition::Top,
        wire::PlayerBarPosition::Unspecified => config::PlayerBarPosition::default(),
    }
}

pub open spec fn sample_rate_mode_wire(value: config::SampleRateMode) -> wire::SampleRateMode {
    match value {
        config::SampleRateMode::System => wire::SampleRateMode::System,
        config::SampleRateMode::Source => wire::SampleRateMode::Source,
    }
}

/// The setting a received code stands for; an unknown or unspecified code
/// reads as [`config::SampleRateMode::System`].
pub open spec fn sample_rate_mode_decoded(code: i32) -> config::SampleRateMode {
    match wire::SampleRateMode::spec_from_code(code) {
        Some(wire::SampleRateMode::System) => config::SampleRateMode::System,
        Some(wire::SampleRateMode::Source) => config::SampleRateMode::Source,
        _ => config::SampleRateMode::System,
    }
}

pub fn sample_rate_mode_to_proto(value: config::SampleRateMode) -> (r: wire::SampleRateMode)
    ensures
        r == sample_rate_mode_wire(value),
{
    match value {
        config::SampleRateMode::System => wire::SampleRateMode::System,
        config::SampleRateMode::Source => wire::SampleRateMode::Source,
    }
}

pub fn sample_rate_mode_from_proto(value: i32) -> (r: config::SampleRateMode)
    ensures
        r == sample_rate_mode_decoded(value),
{
    match wire::SampleRateMode::try_from_code(value).unwrap_or(wire::SampleRateMode::Unspecified) {
        wire::SampleRateMode::System => config::SampleRateMode::System,
        wire::SampleRateMode::Source => config::SampleRateMode::Source,
        wire::SampleRateMode::Unspecified => config::SampleRateMode::default(),
    }
}

pub open spec fn settings_layout_wire(value: config::SettingsLayout) -> wire::SettingsLayout {
    match value {
        config::SettingsLayout::Cd => wire::SettingsLayout::Cd,
        config::SettingsLayout::TopBar => wire::SettingsLayout::TopBar,
    }
}

/// The setting a received code stands for; an unknown or unspecified code
/// reads as [`config::SettingsLayout::Cd`].
pub open spec fn settings_layout_decoded(code: i32) -> config::SettingsLayout {
    match wire::SettingsLayout::spec_from_code(code) {
        Some(wire::SettingsLayout::Cd) => config::SettingsLayout::Cd,
        Some(wire::SettingsLayout::TopBar) => config::SettingsLayout::TopBar,
        _ => config::SettingsLayout::Cd,
    }
}

pub fn settings_layout_to_proto(value: config::SettingsLayout) -> (r: wire::SettingsLayout)
    ensures
        r == settings_layout_wire(value),
{
    match value {
        config::SettingsLayout::Cd => wire::SettingsLayout::Cd,
        config::SettingsLayout::TopBar => wire::SettingsLayout::TopBar,
    }
}

pub fn settings_layout_from_proto(value: i32) -> (r: config::SettingsLayout)
    ensures
        r == settings_layout_decoded(value),
{
    match wire::SettingsLayout::try_from_code(value).unwrap_or(wire::SettingsLayout::Unspecified) {
        wire::SettingsLayout::Cd => config::SettingsLayout::Cd,
        wire::SettingsLayout::TopBar => config::SettingsLayout::TopBar,
        wire::SettingsLayout::Unspecified => config::SettingsLayout::default(),
    }
}

pub open spec fn sort_order_wire(value: config::SortOrder) -> wire::SortOrder {
    match value {
        config::SortOrder::Title => wire::SortOrder::Title,
        config::SortOrder::Artist => wire::SortOrder::Artist,
        config::SortOrder::Album => wire::SortOrder::Album,
    }
}

/// The setting a received code stands for; an unknown or unspecified code
/// reads as [`config::SortOrder::Title`].
pub open spec fn sort_order_decoded(code: i32) -> config::SortOrder {
    match wire::SortOrder::spec_from_code(code) {
        Some(wire::SortOrder::Title) => config::SortOrder::Title,
        Some(wire::SortOrder::Artist) => config::SortOrder::Artist,
        Some(wire::SortOrder::Album) => config::SortOrder::Album,
        _ => config::SortOrder::Title,
    }
}

pub fn sort_order_to_proto(value: &config::SortOrder) -> (r: wire::SortOrder)
    ensures
        r == sort_order_wire(*value),
{
    match value {
        config::SortOrder::Title => wire::SortOrder::Title,
        config::SortOrder::Artist => wire::SortOrder::Artist,
        config::SortOrder::Album => wire::SortOrder::Album,
    }
}

pub fn sort_order_from_proto(value: i32) -> (r: config::SortOrder)
    ensures
        r == sort_order_decoded(value),
{
    match wire::SortOrder::try_from_code(value).unwrap_or(wire::SortOrder::Unspecified) {
        wire::SortOrder::Title => config::SortOrder::Title,
        wire::SortOrder::Artist => config::SortOrder::Artist,
        wire::SortOrder::Album => config::SortOrder::Album,
        wire::SortOrder::Unspecified => config::SortOrder::Title,
    }
}

pub open spec fn titlebar_mode_wire(value: config::TitlebarMode) -> wire::TitlebarMode {
    match value {
        config::TitlebarMode::Custom => wire::TitlebarMode::Custom,
        config::TitlebarMode::System => wire::TitlebarMode::System,
        config::TitlebarMode::Off => wire::TitlebarMode::Off,
    }
}

/// The setting a received code stands for; an unknown or unspecified code
/// reads as [`config::TitlebarMode::Custom`].
pub open spec fn titlebar_mode_decoded(code: i32) -> config::TitlebarMode {
    match wire::TitlebarMode::spec_from_code(code) {
        Some(wire::TitlebarMode::Custom) => config::TitlebarMode::Custom,
        Some(wire::TitlebarMode::System) => config::TitlebarMode::System,
        Some(wire::TitlebarMode::Off) => config::TitlebarMode::Off,
        _ => config::TitlebarMode::Custom,
    }
}

pub fn titlebar_mode_to_proto(value: config::TitlebarMode) -> (r: wire::TitlebarMode)
    ensures
        r == titlebar_mode_wire(value),
{
    match value {
        config::TitlebarMode::Custom => wire::TitlebarMode::Custom,
        config::TitlebarMode::System => wire::TitlebarMode::System,
        config::TitlebarMode::Off => wire::TitlebarMode::Off,
    }
}

pub fn titlebar_mode_from_proto(value: i32) -> (r: config::TitlebarMode)
    ensures
        r == titlebar_mode_decoded(value),
{
    match wire::TitlebarMode::try_from_code(value).unwrap_or(wire::TitlebarMode::Unspecified) {
        wire::TitlebarMode::Custom => config::TitlebarMode::Custom,
        wire::TitlebarMode::System => config::TitlebarMode::System,
        wire::TitlebarMode::Off => config::TitlebarMode::Off,
        wire::TitlebarMode::Unspecified => config::TitlebarMode::default(),
    }
}

pub open spec fn ui_style_wire(value: config::UiStyle) -> wire::UiStyle {
    match value {
        config::UiStyle::Normal => wire::UiStyle::Normal,
        config::UiStyle::Vaxry => wire::UiStyle::Vaxry,
    }
}

/// The setting a received code stands for; an unknown or unspecified code
/// reads as [`config::UiStyle::Normal`].
pub open spec fn ui_style_decoded(code: i32) -> config::UiStyle {
    match wire::UiStyle::spec_from_code(code) {
        Some(wire::UiStyle::Normal) => config::UiStyle::Normal,
        Some(wire::UiStyle::Vaxry) => config::UiStyle::Vaxry,
        _ => config::UiStyle::Normal,
    }
}

pub fn ui_style_to_proto(value: config::UiStyle) -> (r: wire::UiStyle)
    ensures
        r == ui_style_wire(value),
{
    match value {
        config::UiStyle::Normal => wire::UiStyle::Normal,
        config::UiStyle::Vaxry => wire::UiStyle::Vaxry,
    }
}

pub fn ui_style_from_proto(value: i32) -> (r: config::UiStyle)
    ensures
        r == ui_style_decoded(value),
{
    match wire::UiStyle::try_from_code(value).unwrap_or(wire::UiStyle::Unspecified) {
        wire::UiStyle::Normal => config::UiStyle::Normal,
        wire::UiStyle::Vaxry => config::UiStyle::Vaxry,
        wire::UiStyle::Unspecified => config::UiStyle::default(),
    }
}

pub open spec fn eq_preset_wire(value: config::EqPreset) -> wire::EqPreset {
    match value {
        config::EqPreset::Flat => wire::EqPreset::Flat,
        config::EqPreset::BassBoost => wire::EqPreset::BassBoost,
        config::EqPreset::TrebleBoost => wire::EqPreset::TrebleBoost,
        config::EqPreset::VocalBoost => wire::EqPreset::VocalBoost,
        config::EqPreset::Loudness => wire::EqPreset::Loudness,
        config::EqPreset::Custom => wire::EqPreset::Custom,
    }
}

/// The setting a received code stands for; an unknown or unspecified code
/// reads as [`config::EqPreset::Flat`].
pub open spec fn eq_preset_decoded(code: i32) -> config::EqPreset {
    match wire::EqPreset::spec_from_code(code) {
        Some(wire::EqPreset::Flat) => config::EqPreset::Flat,
        Some(wire::EqPreset::BassBoost) => config::EqPreset::BassBoost,
        Some(wire::EqPreset::TrebleBoost) => config::EqPreset::TrebleBoost,
        Some(wire::EqPreset::VocalBoost) => config::EqPreset::VocalBoost,
        Some(wire::EqPreset::Loudness) => config::EqPreset::Loudness,
        Some(wire::EqPreset::Custom) => config::EqPreset::Custom,
        _ => config::EqPreset::Flat,
    }
}

pub fn eq_preset_to_proto(value: config::EqPreset) -> (r: wire::EqPreset)
    ensures
        r == eq_preset_wire(value),
{
    match value {
        config::EqPreset::Flat => wire::EqPreset::Flat,
        config::EqPreset::BassBoost => wire::EqPreset::BassBoost,
        config::EqPreset::TrebleBoost => wire::EqPreset::TrebleBoost,
        config::EqPreset::VocalBoost => wire::EqPreset::VocalBoost,
        config::EqPreset::Loudness => wire::EqPreset::Loudness,
        config::EqPreset::Custom => wire::EqPreset::Custom,
    }
}

pub fn eq_preset_from_proto(value: i32) -> (r: config::EqPreset)
    ensures
        r == eq_preset_decoded(value),
{
    match wire::EqPreset::try_from_code(value).unwrap_or(wire::EqPreset::Unspecified) {
        wire::EqPreset::Flat => config::EqPreset::Flat,
        wire::EqPreset::BassBoost => config::EqPreset::BassBoost,
        wire::EqPreset::TrebleBoost => config::EqPreset::TrebleBoost,
        wire::EqPreset::VocalBoost => config::EqPreset::VocalBoost,
        wire::EqPreset::Loudness => config::EqPreset::Loudness,
        wire::EqPreset::Custom => config::EqPreset::Custom,
        wire::EqPreset::Unspecified => config::EqPreset::default(),
    }
}

pub open spec fn sort_direction_wire(value: config::SortDirection) -> wire::SortDirection {
    match value {
        config::SortDirection::Asc => wire::SortDirection::Asc,
        config::SortDirection::Desc => wire::SortDirection::Desc,
    }
}

/// The setting a received code stands for; an unknown or unspecified code
/// reads as [`config::SortDirection::Asc`].
pub open spec fn sort_direction_decoded(code: i32) -> config::SortDirection {
    match wire::SortDirection::spec_from_code(code) {
        Some(wire::SortDirection::Asc) => config::SortDirection::Asc,
        Some(wire::SortDirection::Desc) => config::SortDirection::Desc,
        _ => config::SortDirection::Asc,
    }
}

pub fn sort_direction_to_proto(value: config::SortDirection) -> (r: wire::SortDirection)
    ensures
        r == sort_direction_wire(value),
{
    match value {
        config::SortDirection::Asc => wire::SortDirection::Asc,
        config::SortDirection::Desc => wire::SortDirection::Desc,
    }
}

pub fn sort_direction_from_proto(value: i32) -> (r: config::SortDirection)
    ensures
        r == sort_direction_decoded(value),
{
    match wire::SortDirection::try_from_code(value).unwrap_or(wire::SortDirection::Unspecified) {
        wire::SortDirection::Asc => config::SortDirection::Asc,
        wire::SortDirection::Desc => config::SortDirection::Desc,
        wire::SortDirection::Unspecified => config::SortDirection::default(),
    }
}

pub open spec fn album_sort_field_wire(value: config::AlbumSortField) -> wire::AlbumSortField {
    match value {
        config::AlbumSortField::Title => wire::AlbumSortField::Title,
        config::AlbumSortField::Artist => wire::AlbumSortField::Artist,
        config::AlbumSortField::Year => wire::AlbumSortField::Year,
        config::AlbumSortField::Genre => wire::AlbumSortField::Genre,
    }
}

/// The setting a received code stands for; an unknown or unspecified code
/// reads as [`config::AlbumSortField::Title`].
pub open spec fn album_sort_field_decoded(code: i32) -> config::AlbumSortField {
    match wire::AlbumSortField::spec_from_code(code) {
        Some(wire::AlbumSortField::Title) => config::AlbumSortField::Title,
        Some(wire::AlbumSortField::Artist) => config::AlbumSortField::Artist,
        Some(wire::AlbumSortField::Year) => config::AlbumSortField::Year,
        Some(wire::AlbumSortField::Genre) => config::AlbumSortField::Genre,
        _ => config::AlbumSortField::Title,
    }
}

pub fn album_sort_field_to_proto(value: config::AlbumSortField) -> (r: wire::AlbumSortField)
    ensures
        r == album_sort_field_wire(value),
{
    match value {
        config::AlbumSortField::Title => wire::AlbumSortField::Title,
        config::AlbumSortField::Artist => wire::AlbumSortField::Artist,
        config::AlbumSortField::Year => wire::AlbumSortField::Year,
        config::AlbumSortField::Genre => wire::AlbumSortField::Genre,
    }
}

pub fn album_sort_field_from_proto(value: i32) -> (r: config::AlbumSortField)
    ensures
        r == album_sort_field_decoded(value),
{
    match wire::AlbumSortField::try_from_code(value).unwrap_or(wire::AlbumSortField::Unspecified) {
        wire::AlbumSortField::Title => config::AlbumSortField::Title,
        wire::AlbumSortField::Artist => config::AlbumSortField::Artist,
        wire::AlbumSortField::Year => config::AlbumSortField::Year,
        wire::AlbumSortField::Genre => config::AlbumSortField::Genre,
        wire::AlbumSortField::Unspecified => config::AlbumSortField::Title,
    }
}

pub open spec fn track_sort_field_wire(value: config::TrackSortField) -> wire::TrackSortField {
    match value {
        config::TrackSortField::Title => wire::TrackSortField::Title,
        config::TrackSortField::Artist => wire::TrackSortField::Artist,
        config::TrackSortField::Album => wire::TrackSortField::Album,
        config::TrackSortField::Duration => wire::TrackSortField::Duration,
        config::TrackSortField::DateAdded => wire::TrackSortField::DateAdded,
    }
}

/// The setting a received code stands for; an unknown or unspecified code
/// reads as [`config::TrackSortField::Title`].
pub open spec fn track_sort_field_decoded(code: i32) -> config::TrackSortField {
    match wire::TrackSortField::spec_from_code(code) {
        Some(wire::TrackSortField::Title) => config::TrackSortField::Title,
        Some(wire::TrackSortField::Artist) => config::TrackSortField::Artist,
        Some(wire::TrackSortField::Album) => config::TrackSortField::Album,
        Some(wire::TrackSortField::Duration) => config::TrackSortField::Duration,
        Some(wire::TrackSortField::DateAdded) => config::TrackSortField::DateAdded,
        _ => config::TrackSortField::Title,
    }
}

pub fn track_sort_field_to_proto(value: config::TrackSortField) -> (r: wire::TrackSortField)
    ensures
        r == track_sort_field_wire(value),
{
    match value {
        config::TrackSortField::Title => wire::TrackSortField::Title,
        config::TrackSortField::Artist => wire::TrackSortField::Artist,
        config::TrackSortField::Album => wire::TrackSortField::Album,
        config::TrackSortField::Duration => wire::TrackSortField::Duration,
        config::TrackSortField::DateAdded => wire::TrackSortField::DateAdded,
    }
}

pub fn track_sort_field_from_proto(value: i32) -> (r: config::TrackSortField)
    ensures
        r == track_sort_field_decoded(value),
{
    match wire::TrackSortField::try_from_code(value).unwrap_or(wire::TrackSortField::Unspecified) {
        wire::TrackSortField::Title => config::TrackSortField::Title,
        wire::TrackSortField::Artist => config::TrackSortField::Artist,
        wire::TrackSortField::Album => config::TrackSortField::Album,
        wire::TrackSortField::Duration => config::TrackSortField::Duration,
        wire::TrackSortField::DateAdded => config::TrackSortField::DateAdded,
        wire::TrackSortField::Unspecified => config::TrackSortField::Title,
    }
}

pub open spec fn artist_sort_field_wire(value: config::ArtistSortField) -> wire::ArtistSortField {
    match value {
        config::ArtistSortField::Name => wire::ArtistSortField::Name,
        config::ArtistSortField::Tracks => wire::ArtistSortField::Tracks,
        config::ArtistSortField::Albums => wire::ArtistSortField::Albums,
    }
}

/// The setting a received code stands for; an unknown or unspecified code
/// reads as [`config::ArtistSortField::Name`].
pub open spec fn artist_sort_field_decoded(code: i32) -> config::ArtistSortField {
    match wire::ArtistSortField::spec_from_code(code) {
        Some(wire::ArtistSortField::Name) => config::ArtistSortField::Name,
        Some(wire::ArtistSortField::Tracks) => config::ArtistSortField::Tracks,
        Some(wire::ArtistSortField::Albums) => config::ArtistSortField::Albums,
        _ => config::ArtistSortField::Name,
    }
}

pub fn artist_sort_field_to_proto(value: config::ArtistSortField) -> (r: wire::ArtistSortField)
    ensures
        r == artist_sort_field_wire(value),
{
    match value {
        config::ArtistSortField::Name => wire::ArtistSortField::Name,
        config::ArtistSortField::Tracks => wire::ArtistSortField::Tracks,
        config::ArtistSortField::Albums => wire::ArtistSortField::Albums,
    }
}

pub fn artist_sort_field_from_proto(value: i32) -> (r: config::ArtistSortField)
    ensures
        r == artist_sort_field_decoded(value),
{
    match wire::ArtistSortField::try_from_code(value).unwrap_or(wire::ArtistSortField::Unspecified) {
        wire::ArtistSortField::Name => config::ArtistSortField::Name,
        wire::ArtistSortField::Tracks => config::ArtistSortField::Tracks,
        wire::ArtistSortField::Albums => config::ArtistSortField::Albums,
        wire::ArtistSortField::Unspecified => config::ArtistSortField::Name,
    }
}

pub open spec fn source_ref_wire(value: config::SourceView) -> wire::SourceRefView {
    wire::SourceRefView {
        kind: Some(
            match value {
                config::SourceView::Local => wire::SourceRefKindView::Local,
                config::SourceView::LocalLibrary(id) => wire::SourceRefKindView::LocalLibrary(id),
                config::SourceView::Server(id) => wire::SourceRefKindView::Server(id),
            },
        ),
    }
}

/// The source a received reference names. A missing reference, or one with no
/// kind, names the local library.
pub open spec fn source_decoded(value: Option<wire::SourceRefView>) -> config::SourceView {
    match value {
        Some(r) => match r.kind {
            Some(wire::SourceRefKindView::LocalLibrary(id)) => config::SourceView::LocalLibrary(id),
            Some(wire::SourceRefKindView::Server(id)) => config::SourceView::Server(id),
            _ => config::SourceView::Local,
        },
        None => config::SourceView::Local,
    }
}

pub fn source_ref_to_proto(value: &config::Source) -> (r: wire::SourceRef)
    ensures
        r@ == source_ref_wire(value@),
{
    let kind = match value {
        config::Source::Local => wire::SourceRefKind::Local(wire::Unit {}),
        config::Source::LocalLibrary(id) => wire::SourceRefKind::LocalLibrary(id.clone()),
        config::Source::Server(id) => wire::SourceRefKind::Server(id.clone()),
    };
    wire::SourceRef { kind: Some(kind) }
}

pub fn source_ref_from_proto(value: Option<&wire::SourceRef>) -> (r: config::Source)
    ensures
        r@ == source_decoded(value.deep_view()),
{
    match value {
        Some(reference) => match &reference.kind {
            Some(wire::SourceRefKind::LocalLibrary(id)) => config::Source::LocalLibrary(id.clone()),
            Some(wire::SourceRefKind::Server(id)) => config::Source::Server(id.clone()),
            _ => config::Source::Local,
        },
        None => config::Source::Local,
    }
}

pub open spec fn saved_local_source_wire(value: config::SavedLocalSourceView) -> wire::SavedLocalSourceView {
    wire::SavedLocalSourceView {
        id: value.id,
        name: value.name,
        directories: value.directories,
    }
}

pub open spec fn saved_local_source_decoded(value: wire::SavedLocalSourceView) -> config::SavedLocalSourceView {
    config::SavedLocalSourceView {
        id: value.id,
        name: value.name,
        directories: value.directories,
    }
}

/// Folders travel as the same path strings the settings hold.
pub fn saved_local_source_to_proto(value: &config::SavedLocalSource) -> (r: wire::SavedLocalSource)
    ensures
        r@ == saved_local_source_wire(value@),
{
    let r = wire::SavedLocalSource {
        id: value.id.clone(),
        name: value.name.clone(),
        directories: clone_strings(&value.directories),
    };
    r
}

pub fn saved_local_source_from_proto(value: &wire::SavedLocalSource) -> (r: config::SavedLocalSource)
    ensures
        r@ == saved_local_source_decoded(value@),
{
    let r = config::SavedLocalSource {
        id: value.id.clone(),
        name: value.name.clone(),
        directories: clone_strings(&value.directories),
    };
    r
}

pub open spec fn home_section_wire(value: config::HomeSectionView) -> wire::HomeSectionView {
    wire::HomeSectionView {
        key: value.key,
        enabled: value.enabled,
    }
}

pub open spec fn home_section_decoded(value: wire::HomeSectionView) -> config::HomeSectionView {
    config::HomeSectionView {
        key: value.key,
        enabled: value.enabled,
    }
}

pub fn home_section_to_proto(value: &config::HomeSection) -> (r: wire::HomeSection)
    ensures
        r@ == home_section_wire(value@),
{
    let r = wire::HomeSection {
        key: value.key.clone(),
        enabled: value.enabled,
    };
    r
}

pub fn home_section_from_proto(value: &wire::HomeSection) -> (r: config::HomeSection)
    ensures
        r@ == home_section_decoded(value@),
{
    let r = config::HomeSection {
        key: value.key.clone(),
        enabled: value.enabled,
    };
    r
}

pub open spec fn registry_entry_wire(value: config::RegistryEntryView) -> wire::RegistryEntryView {
    wire::RegistryEntryView {
        url: value.url,
        enabled: value.enabled,
        is_default: value.is_default,
    }
}

pub open spec fn registry_entry_decoded(value: wire::RegistryEntryView) -> config::RegistryEntryView {
    config::RegistryEntryView {
        url: value.url,
        enabled: value.enabled,
        is_default: value.is_default,
    }
}

pub fn registry_entry_to_proto(value: &config::RegistryEntry) -> (r: wire::RegistryEntry)
    ensures
        r@ == registry_entry_wire(value@),
{
    let r = wire::RegistryEntry {
        url: value.url.clone(),
        enabled: value.enabled,
        is_default: value.is_default,
    };
    r
}

pub fn registry_entry_from_proto(value: &wire::RegistryEntry) -> (r: config::RegistryEntry)
    ensures
        r@ == registry_entry_decoded(value@),
{
    let r = config::RegistryEntry {
        url: value.url.clone(),
        enabled: value.enabled,
        is_default: value.is_default,
    };
    r
}

pub open spec fn custom_theme_wire(value: config::CustomThemeView) -> wire::CustomThemeView {
    wire::CustomThemeView {
        name: value.name,
        vars: value.vars,
    }
}

pub open spec fn custom_theme_decoded(value: wire::CustomThemeView) -> config::CustomThemeView {
    config::CustomThemeView {
        name: value.name,
        vars: value.vars,
    }
}

pub fn custom_theme_to_proto(value: &config::CustomTheme) -> (r: wire::CustomTheme)
    ensures
        r@ == custom_theme_wire(value@),
{
    let r = wire::CustomTheme {
        name: value.name.clone(),
        vars: clone_string_pairs(&value.vars),
    };
    r
}

pub fn custom_theme_from_proto(value: &wire::CustomTheme) -> (r: config::CustomTheme)
    ensures
        r@ == custom_theme_decoded(value@),
{
    let r = config::CustomTheme {
        name: value.name.clone(),
        vars: clone_string_pairs(&value.vars),
    };
    r
}

pub open spec fn ytdlp_history_entry_wire(value: config::YtdlpHistoryEntryView) -> wire::YtdlpHistoryEntryView {
    wire::YtdlpHistoryEntryView {
        url: value.url,
        title: value.title,
        format: value.format,
        status: value.status,
        error: value.error,
    }
}

pub open spec fn ytdlp_history_entry_decoded(value: wire::YtdlpHistoryEntryView) -> config::YtdlpHistoryEntryView {
    config::YtdlpHistoryEntryView {
        url: value.url,
        title: value.title,
        format: value.format,
        status: value.status,
        error: value.error,
    }
}

pub fn ytdlp_history_entry_to_proto(value: &config::YtdlpHistoryEntry) -> (r: wire::YtdlpHistoryEntry)
    ensures
        r@ == ytdlp_history_entry_wire(value@),
{
    let r = wire::YtdlpHistoryEntry {
        url: value.url.clone(),
        title: value.title.clone(),
        format: value.format.clone(),
        status: value.status.clone(),
        error: clone_opt_string(&value.error),
    };
    r
}

pub fn ytdlp_history_entry_from_proto(value: &wire::YtdlpHistoryEntry) -> (r: config::YtdlpHistoryEntry)
    ensures
        r@ == ytdlp_history_entry_decoded(value@),
{
    let r = config::YtdlpHistoryEntry {
        url: value.url.clone(),
        title: value.title.clone(),
        format: value.format.clone(),
        status: value.status.clone(),
        error: clone_opt_string(&value.error),
    };
    r
}

pub open spec fn equalizer_wire(value: config::EqualizerSettingsView) -> wire::EqualizerSettingsView {
    wire::EqualizerSettingsView {
        enabled: value.enabled,
        preset: eq_preset_wire(value.preset).spec_code(),
        bands: value.bands,
        preamp_db: value.preamp_db,
    }
}

/// The equalizer a received message stands for. A missing message gives the
/// default equalizer; a band list that is not exactly ten long is malformed, so
/// the default gains stand rather than a partially applied curve.
pub open spec fn equalizer_decoded(value: Option<wire::EqualizerSettingsView>) -> config::EqualizerSettingsView {
    match value {
        None => config::default_equalizer(),
        Some(w) => config::EqualizerSettingsView {
            enabled: w.enabled,
            preset: eq_preset_decoded(w.preset),
            bands: if w.bands.len() == 10 {
                w.bands
            } else {
                config::default_equalizer().bands
            },
            preamp_db: w.preamp_db,
        },
    }
}

pub fn equalizer_to_proto(value: &config::EqualizerSettings) -> (r: wire::EqualizerSettings)
    ensures
        r@ == equalizer_wire(value@),
{
    let mut bands: Vec<u32> = Vec::new();
    let mut i: usize = 0;
    while i < 10
        invariant
            i <= 10,
            bands@ == value.bands@.take(i as int),
        decreases 10 - i,
    {
        bands.push(value.bands[i]);
        i += 1;
        assert(bands@ =~= value.bands@.take(i as int));
    }
    assert(value.bands@.take(10) =~= value.bands@);
    wire::EqualizerSettings {
        enabled: value.enabled,
        preset: eq_preset_to_proto(value.preset).code(),
        bands,
        preamp_db: value.preamp_db,
    }
}

/// The band count is fixed at ten. A message carrying anything else is
/// malformed, so the defaults stand rather than a partially applied curve.
pub fn equalizer_from_proto(value: Option<&wire::EqualizerSettings>) -> (r: config::EqualizerSettings)
    ensures
        r@ == equalizer_decoded(value.deep_view()),
{
    let value = match value {
        Some(value) => value,
        None => return config::EqualizerSettings::flat(),
    };
    let b = &value.bands;
    let bands: [u32; 10] = if b.len() == 10 {
        let a = [b[0], b[1], b[2], b[3], b[4], b[5], b[6], b[7], b[8], b[9]];
        assert(a@ =~= b@);
        a
    } else {
        config::EqualizerSettings::flat().bands
    };
    config::EqualizerSettings {
        enabled: value.enabled,
        preset: eq_preset_from_proto(value.preset),
        bands,
        preamp_db: value.preamp_db,
    }
}

pub open spec fn album_sort_criterion_wire(value: config::SortCriterion<config::AlbumSortField>) -> wire::AlbumSortCriterion {
    wire::AlbumSortCriterion {
        field: album_sort_field_wire(value.field).spec_code(),
        direction: sort_direction_wire(value.direction).spec_code(),
    }
}

pub open spec fn album_sort_criterion_decoded(value: wire::AlbumSortCriterion) -> config::SortCriterion<config::AlbumSortField> {
    config::SortCriterion {
        field: album_sort_field_decoded(value.field),
        direction: sort_direction_decoded(value.direction),
    }
}

pub fn album_sort_criterion_to_proto(value: &config::SortCriterion<config::AlbumSortField>) -> (r: wire::AlbumSortCriterion)
    ensures
        r == album_sort_criterion_wire(*value),
{
    wire::AlbumSortCriterion {
        field: album_sort_field_to_proto(value.field).code(),
        direction: sort_direction_to_proto(value.direction).code(),
    }
}

pub fn album_sort_criterion_from_proto(value: &wire::AlbumSortCriterion) -> (r: config::SortCriterion<config::AlbumSortField>)
    ensures
        r == album_sort_criterion_decoded(*value),
{
    config::SortCriterion {
        field: album_sort_field_from_proto(value.field),
        direction: sort_direction_from_proto(value.direction),
    }
}

pub open spec fn track_sort_criterion_wire(value: config::SortCriterion<config::TrackSortField>) -> wire::TrackSortCriterion {
    wire::TrackSortCriterion {
        field: track_sort_field_wire(value.field).spec_code(),
        direction: sort_direction_wire(value.direction).spec_code(),
    }
}

pub open spec fn track_sort_criterion_decoded(value: wire::TrackSortCriterion) -> config::SortCriterion<config::TrackSortField> {
    config::SortCriterion {
        field: track_sort_field_decoded(value.field),
        direction: sort_direction_decoded(value.direction),
    }
}

pub fn track_sort_criterion_to_proto(value: &config::SortCriterion<config::TrackSortField>) -> (r: wire::TrackSortCriterion)
    ensures
        r == track_sort_criterion_wire(*value),
{
    wire::TrackSortCriterion {
        field: track_sort_field_to_proto(value.field).code(),
        direction: sort_direction_to_proto(value.direction).code(),
    }
}

pub fn track_sort_criterion_from_proto(value: &wire::TrackSortCriterion) -> (r: config::SortCriterion<config::TrackSortField>)
    ensures
        r == track_sort_criterion_decoded(*value),
{
    config::SortCriterion {
        field: track_sort_field_from_proto(value.field),
        direction: sort_direction_from_proto(value.direction),
    }
}

pub open spec fn artist_sort_criterion_wire(value: config::SortCriterion<config::ArtistSortField>) -> wire::ArtistSortCriterion {
    wire::ArtistSortCriterion {
        field: artist_sort_field_wire(value.field).spec_code(),
        direction: sort_direction_wire(value.direction).spec_code(),
    }
}

pub open spec fn artist_sort_criterion_decoded(value: wire::ArtistSortCriterion) -> config::SortCriterion<config::ArtistSortField> {
    config::SortCriterion {
        field: artist_sort_field_decoded(value.field),
        direction: sort_direction_decoded(value.direction),
    }
}

pub fn artist_sort_criterion_to_proto(value: &config::SortCriterion<config::ArtistSortField>) -> (r: wire::ArtistSortCriterion)
    ensures
        r == artist_sort_criterion_wire(*value),
{
    wire::ArtistSortCriterion {
        field: artist_sort_field_to_proto(value.field).code(),
        direction: sort_direction_to_proto(value.direction).code(),
    }
}

pub fn artist_sort_criterion_from_proto(value: &wire::ArtistSortCriterion) -> (r: config::SortCriterion<config::ArtistSortField>)
    ensures
        r == artist_sort_criterion_decoded(*value),
{
    config::SortCriterion {
        field: artist_sort_field_from_proto(value.field),
        direction: sort_direction_from_proto(value.direction),
    }
}

pub open spec fn ytdlp_options_wire(value: config::YtdlpOptionsView) -> wire::YtdlpOptionsView {
    wire::YtdlpOptionsView {
        embed_metadata: value.embed_metadata,
        embed_thumbnail: value.embed_thumbnail,
        postprocess_thumbnail_square: value.postprocess_thumbnail_square,
        embed_chapters: value.embed_chapters,
        embed_subs: value.embed_subs,
        embed_info_json: value.embed_info_json,
        write_thumbnail: value.write_thumbnail,
        write_description: value.write_description,
        write_info_json: value.write_info_json,
        write_subs: value.write_subs,
        write_auto_subs: value.write_auto_subs,
        write_comments: value.write_comments,
        sponsorblock: value.sponsorblock,
        sponsorblock_mark: value.sponsorblock_mark,
        split_chapters: value.split_chapters,
        convert_thumbnail: value.convert_thumbnail,
        no_playlist: value.no_playlist,
        xattrs: value.xattrs,
        no_mtime: value.no_mtime,
        rate_limit: value.rate_limit,
        cookies_from_browser: value.cookies_from_browser,
        js_runtimes: value.js_runtimes,
        audio_quality: value.audio_quality as u32,
    }
}

/// The options a received message stands for; a missing message gives the defaults.
pub open spec fn ytdlp_options_decoded(value: Option<wire::YtdlpOptionsView>) -> config::YtdlpOptionsView {
    match value {
        None => config::default_ytdlp_options(),
        Some(w) => config::YtdlpOptionsView {
            embed_metadata: w.embed_metadata,
            embed_thumbnail: w.embed_thumbnail,
            postprocess_thumbnail_square: w.postprocess_thumbnail_square,
            embed_chapters: w.embed_chapters,
            embed_subs: w.embed_subs,
            embed_info_json: w.embed_info_json,
            write_thumbnail: w.write_thumbnail,
            write_description: w.write_description,
            write_info_json: w.write_info_json,
            write_subs: w.write_subs,
            write_auto_subs: w.write_auto_subs,
            write_comments: w.write_comments,
            sponsorblock: w.sponsorblock,
            sponsorblock_mark: w.sponsorblock_mark,
            split_chapters: w.split_chapters,
            convert_thumbnail: w.convert_thumbnail,
            no_playlist: w.no_playlist,
            xattrs: w.xattrs,
            no_mtime: w.no_mtime,
            rate_limit: w.rate_limit,
            cookies_from_browser: w.cookies_from_browser,
            js_runtimes: w.js_runtimes,
            audio_quality: saturate_u8(w.audio_quality),
        },
    }
}

pub fn ytdlp_options_to_proto(value: &config::YtdlpOptions) -> (r: wire::YtdlpOptions)
    ensures
        r@ == ytdlp_options_wire(value@),
{
    let convert_thumbnail = value.convert_thumbnail.clone();
    let rate_limit = clone_opt_string(&value.rate_limit);
    let cookies_from_browser = clone_opt_string(&value.cookies_from_browser);
    let js_runtimes = clone_opt_string(&value.js_runtimes);
    wire::YtdlpOptions {
        embed_metadata: value.embed_metadata,
        embed_thumbnail: value.embed_thumbnail,
        postprocess_thumbnail_square: value.postprocess_thumbnail_square,
        embed_chapters: value.embed_chapters,
        embed_subs: value.embed_subs,
        embed_info_json: value.embed_info_json,
        write_thumbnail: value.write_thumbnail,
        write_description: value.write_description,
        write_info_json: value.write_info_json,
        write_subs: value.write_subs,
        write_auto_subs: value.write_auto_subs,
        write_comments: value.write_comments,
        sponsorblock: value.sponsorblock,
        sponsorblock_mark: value.sponsorblock_mark,
        split_chapters: value.split_chapters,
        convert_thumbnail,
        no_playlist: value.no_playlist,
        xattrs: value.xattrs,
        no_mtime: value.no_mtime,
        rate_limit,
        cookies_from_browser,
        js_runtimes,
        audio_quality: value.audio_quality as u32,
    }
}

fn ytdlp_options_from_message(value: &wire::YtdlpOptions) -> (r: config::YtdlpOptions)
    ensures
        r@ == ytdlp_options_decoded(Some(value@)),
{
    let convert_thumbnail = value.convert_thumbnail.clone();
    let rate_limit = clone_opt_string(&value.rate_limit);
    let cookies_from_browser = clone_opt_string(&value.cookies_from_browser);
    let js_runtimes = clone_opt_string(&value.js_runtimes);
    let audio_quality = saturating_u8(value.audio_quality);
    config::YtdlpOptions {
        embed_metadata: value.embed_metadata,
        embed_thumbnail: value.embed_thumbnail,
        postprocess_thumbnail_square: value.postprocess_thumbnail_square,
        embed_chapters: value.embed_chapters,
        embed_subs: value.embed_subs,
        embed_info_json: value.embed_info_json,
        write_thumbnail: value.write_thumbnail,
        write_description: value.write_description,
        write_info_json: value.write_info_json,
        write_subs: value.write_subs,
        write_auto_subs: value.write_auto_subs,
        write_comments: value.write_comments,
        sponsorblock: value.sponsorblock,
        sponsorblock_mark: value.sponsorblock_mark,
        split_chapters: value.split_chapters,
        convert_thumbnail,
        no_playlist: value.no_playlist,
        xattrs: value.xattrs,
        no_mtime: value.no_mtime,
        rate_limit,
        cookies_from_browser,
        js_runtimes,
        audio_quality,
    }
}

pub fn ytdlp_options_from_proto(value: Option<&wire::YtdlpOptions>) -> (r: config::YtdlpOptions)
    ensures
        r@ == ytdlp_options_decoded(value.deep_view()),
{
    match value {
        Some(value) => ytdlp_options_from_message(value),
        None => config::YtdlpOptions::off(),
    }
}

pub open spec fn folder_wire(entry: (Seq<char>, Seq<Seq<char>>)) -> (Seq<char>, wire::StringListView) {
    (entry.0, wire::StringListView { values: entry.1 })
}

pub open spec fn folder_decoded(entry: (Seq<char>, wire::StringListView)) -> (Seq<char>, Seq<Seq<char>>) {
    (entry.0, entry.1.values)
}

pub open spec fn theme_entry_wire(entry: (Seq<char>, config::CustomThemeView)) -> (Seq<char>, wire::CustomThemeView) {
    (entry.0, custom_theme_wire(entry.1))
}

pub open spec fn theme_entry_decoded(entry: (Seq<char>, wire::CustomThemeView)) -> (Seq<char>, config::CustomThemeView) {
    (entry.0, custom_theme_decoded(entry.1))
}

#[verifier::opaque]
pub open spec fn saved_local_sources_wire(values: Seq<config::SavedLocalSourceView>) -> Seq<wire::SavedLocalSourceView> {
    values.map_values(|e: config::SavedLocalSourceView| saved_local_source_wire(e))
}

fn saved_local_sources_to_proto(values: &Vec<config::SavedLocalSource>) -> (r: Vec<wire::SavedLocalSource>)
    ensures
        items(r) == saved_local_sources_wire(items(*values)),
{
    let mut r: Vec<wire::SavedLocalSource> = Vec::new();
    let mut i: usize = 0;
    while i < values.len()
        invariant
            i <= values.len(),
            r@.len() == i,
            forall|j: int| 0 <= j < i ==> #[trigger] r@[j].deep_view() == saved_local_source_wire(values@[j].deep_view()),
        decreases values.len() - i,
    {
        let e = &values[i];
        r.push(saved_local_source_to_proto(e));
        proof {
            reveal(items);
        }
        i += 1;
    }
    proof {
        reveal(saved_local_sources_wire);
        reveal(items);
    }
    assert(r.deep_view() =~= saved_local_sources_wire(values.deep_view()));
    r
}

#[verifier::opaque]
pub open spec fn saved_local_sources_decoded(values: Seq<wire::SavedLocalSourceView>) -> Seq<config::SavedLocalSourceView> {
    values.map_values(|e: wire::SavedLocalSourceView| saved_local_source_decoded(e))
}

fn saved_local_sources_from_proto(values: &Vec<wire::SavedLocalSource>) -> (r: Vec<config::SavedLocalSource>)
    ensures
        items(r) == saved_local_sources_decoded(items(*values)),
{
    let mut r: Vec<config::SavedLocalSource> = Vec::new();
    let mut i: usize = 0;
    while i < values.len()
        invariant
            i <= values.len(),
            r@.len() == i,
            forall|j: int| 0 <= j < i ==> #[trigger] r@[j].deep_view() == saved_local_source_decoded(values@[j].deep_view()),
        decreases values.len() - i,
    {
        let e = &values[i];
        r.push(saved_local_source_from_proto(e));
        proof {
            reveal(items);
        }
        i += 1;
    }
    proof {
        reveal(saved_local_sources_decoded);
        reveal(items);
    }
    assert(r.deep_view() =~= saved_local_sources_decoded(values.deep_view()));
    r
}

#[verifier::opaque]
pub open spec fn ytdlp_history_entries_wire(values: Seq<config::YtdlpHistoryEntryView>) -> Seq<wire::YtdlpHistoryEntryView> {
    values.map_values(|e: config::YtdlpHistoryEntryView| ytdlp_history_entry_wire(e))
}

fn ytdlp_history_entries_to_proto(values: &Vec<config::YtdlpHistoryEntry>) -> (r: Vec<wire::YtdlpHistoryEntry>)
    ensures
        items(r) == ytdlp_history_entries_wire(items(*values)),
{
    let mut r: Vec<wire::YtdlpHistoryEntry> = Vec::new();
    let mut i: usize = 0;
    while i < values.len()
        invariant
            i <= values.len(),
            r@.len() == i,
            forall|j: int| 0 <= j < i ==> #[trigger] r@[j].deep_view() == ytdlp_history_entry_wire(values@[j].deep_view()),
        decreases values.len() - i,
    {
        let e = &values[i];
        r.push(ytdlp_history_entry_to_proto(e));
        proof {
            reveal(items);
        }
        i += 1;
    }
    proof {
        reveal(ytdlp_history_entries_wire);
        reveal(items);
    }
    assert(r.deep_view() =~= ytdlp_history_entries_wire(values.deep_view()));
    r
}

#[verifier::opaque]
pub open spec fn ytdlp_history_entries_decoded(values: Seq<wire::YtdlpHistoryEntryView>) -> Seq<config::YtdlpHistoryEntryView> {
    values.map_values(|e: wire::YtdlpHistoryEntryView| ytdlp_history_entry_decoded(e))
}

fn ytdlp_history_entries_from_proto(values: &Vec<wire::YtdlpHistoryEntry>) -> (r: Vec<config::YtdlpHistoryEntry>)
    ensures
        items(r) == ytdlp_history_entries_decoded(items(*values)),
{
    let mut r: Vec<config::YtdlpHistoryEntry> = Vec::new();
    let mut i: usize = 0;
    while i < values.len()
        invariant
            i <= values.len(),
            r@.len() == i,
            forall|j: int| 0 <= j < i ==> #[trigger] r@[j].deep_view() == ytdlp_history_entry_decoded(values@[j].deep_view()),
        decreases values.len() - i,
    {
        let e = &values[i];
        r.push(ytdlp_history_entry_from_proto(e));
        proof {
            reveal(items);
        }
        i += 1;
    }
    proof {
        reveal(ytdlp_history_entries_decoded);
        reveal(items);
    }
    assert(r.deep_view() =~= ytdlp_history_entries_decoded(values.deep_view()));
    r
}

#[verifier::opaque]
pub open spec fn home_sections_wire(values: Seq<config::HomeSectionView>) -> Seq<wire::HomeSectionView> {
    values.map_values(|e: config::HomeSectionView| home_section_wire(e))
}

fn home_sections_to_proto(values: &Vec<config::HomeSection>) -> (r: Vec<wire::HomeSection>)
    ensures
        items(r) == home_sections_wire(items(*values)),
{
    let mut r: Vec<wire::HomeSection> = Vec::new();
    let mut i: usize = 0;
    while i < values.len()
        invariant
            i <= values.len(),
            r@.len() == i,
            forall|j: int| 0 <= j < i ==> #[trigger] r@[j].deep_view() == home_section_wire(values@[j].deep_view()),
        decreases values.len() - i,
    {
        let e = &values[i];
        r.push(home_section_to_proto(e));
        proof {
            reveal(items);
        }
        i += 1;
    }
    proof {
        reveal(home_sections_wire);
        reveal(items);
    }
    assert(r.deep_view() =~= home_sections_wire(values.deep_view()));
    r
}

#[verifier::opaque]
pub open spec fn home_sections_decoded(values: Seq<wire::HomeSectionView>) -> Seq<config::HomeSectionView> {
    values.map_values(|e: wire::HomeSectionView| home_section_decoded(e))
}

fn home_sections_from_proto(values: &Vec<wire::HomeSection>) -> (r: Vec<config::HomeSection>)
    ensures
        items(r) == home_sections_decoded(items(*values)),
{
    let mut r: Vec<config::HomeSection> = Vec::new();
    let mut i: usize = 0;
    while i < values.len()
        invariant
            i <= values.len(),
            r@.len() == i,
            forall|j: int| 0 <= j < i ==> #[trigger] r@[j].deep_view() == home_section_decoded(values@[j].deep_view()),
        decreases values.len() - i,
    {
        let e = &values[i];
        r.push(home_section_from_proto(e));
        proof {
            reveal(items);
        }
        i += 1;
    }
    proof {
        reveal(home_sections_decoded);
        reveal(items);
    }
    assert(r.deep_view() =~= home_sections_decoded(values.deep_view()));
    r
}

#[verifier::opaque]
pub open spec fn registry_entries_wire(values: Seq<config::RegistryEntryView>) -> Seq<wire::RegistryEntryView> {
    values.map_values(|e: config::RegistryEntryView| registry_entry_wire(e))
}

fn registry_entries_to_proto(values: &Vec<config::RegistryEntry>) -> (r: Vec<wire::RegistryEntry>)
    ensures
        items(r) == registry_entries_wire(items(*values)),
{
    let mut r: Vec<wire::RegistryEntry> = Vec::new();
    let mut i: usize = 0;
    while i < values.len()
        invariant
            i <= values.len(),
            r@.len() == i,
            forall|j: int| 0 <= j < i ==> #[trigger] r@[j].deep_view() == registry_entry_wire(values@[j].deep_view()),
        decreases values.len() - i,
    {
        let e = &values[i];
        r.push(registry_entry_to_proto(e));
        proof {
            reveal(items);
        }
        i += 1;
    }
    proof {
        reveal(registry_entries_wire);
        reveal(items);
    }
    assert(r.deep_view() =~= registry_entries_wire(values.deep_view()));
    r
}

#[verifier::opaque]
pub open spec fn registry_entries_decoded(values: Seq<wire::RegistryEntryView>) -> Seq<config::RegistryEntryView> {
    values.map_values(|e: wire::RegistryEntryView| registry_entry_decoded(e))
}

fn registry_entries_from_proto(values: &Vec<wire::RegistryEntry>) -> (r: Vec<config::RegistryEntry>)
    ensures
        items(r) == registry_entries_decoded(items(*values)),
{
    let mut r: Vec<config::RegistryEntry> = Vec::new();
    let mut i: usize = 0;
    while i < values.len()
        invariant
            i <= values.len(),
            r@.len() == i,
            forall|j: int| 0 <= j < i ==> #[trigger] r@[j].deep_view() == registry_entry_decoded(values@[j].deep_view()),
        decreases values.len() - i,
    {
        let e = &values[i];
        r.push(registry_entry_from_proto(e));
        proof {
            reveal(items);
        }
        i += 1;
    }
    proof {
        reveal(registry_entries_decoded);
        reveal(items);
    }
    assert(r.deep_view() =~= registry_entries_decoded(values.deep_view()));
    r
}

#[verifier::opaque]
pub open spec fn album_sort_criteria_wire(values: Seq<config::SortCriterion<config::AlbumSortField>>) -> Seq<wire::AlbumSortCriterion> {
    values.map_values(|e: config::SortCriterion<config::AlbumSortField>| album_sort_criterion_wire(e))
}

fn album_sort_criteria_to_proto(values: &Vec<config::SortCriterion<config::AlbumSortField>>) -> (r: Vec<wire::AlbumSortCriterion>)
    ensures
        items(r) == album_sort_criteria_wire(items(*values)),
{
    let mut r: Vec<wire::AlbumSortCriterion> = Vec::new();
    let mut i: usize = 0;
    while i < values.len()
        invariant
            i <= values.len(),
            r@.len() == i,
            forall|j: int| 0 <= j < i ==> #[trigger] r@[j].deep_view() == album_sort_criterion_wire(values@[j].deep_view()),
        decreases values.len() - i,
    {
        let e = &values[i];
        r.push(album_sort_criterion_to_proto(e));
        proof {
            reveal(items);
        }
        i += 1;
    }
    proof {
        reveal(album_sort_criteria_wire);
        reveal(items);
    }
    assert(r.deep_view() =~= album_sort_criteria_wire(values.deep_view()));
    r
}

#[verifier::opaque]
pub open spec fn album_sort_criteria_decoded(values: Seq<wire::AlbumSortCriterion>) -> Seq<config::SortCriterion<config::AlbumSortField>> {
    values.map_values(|e: wire::AlbumSortCriterion| album_sort_criterion_decoded(e))
}

fn album_sort_criteria_from_proto(values: &Vec<wire::AlbumSortCriterion>) -> (r: Vec<config::SortCriterion<config::AlbumSortField>>)
    ensures
        items(r) == album_sort_criteria_decoded(items(*values)),
{
    let mut r: Vec<config::SortCriterion<config::AlbumSortField>> = Vec::new();
    let mut i: usize = 0;
    while i < values.len()
        invariant
            i <= values.len(),
            r@.len() == i,
            forall|j: int| 0 <= j < i ==> #[trigger] r@[j].deep_view() == album_sort_criterion_decoded(values@[j].deep_view()),
        decreases values.len() - i,
    {
        let e = &values[i];
        r.push(album_sort_criterion_from_proto(e));
        proof {
            reveal(items);
        }
        i += 1;
    }
    proof {
        reveal(album_sort_criteria_decoded);
        reveal(items);
    }
    assert(r.deep_view() =~= album_sort_criteria_decoded(values.deep_view()));
    r
}

#[verifier::opaque]
pub open spec fn track_sort_criteria_wire(values: Seq<config::SortCriterion<config::TrackSortField>>) -> Seq<wire::TrackSortCriterion> {
    values.map_values(|e: config::SortCriterion<config::TrackSortField>| track_sort_criterion_wire(e))
}

fn track_sort_criteria_to_proto(values: &Vec<config::SortCriterion<config::TrackSortField>>) -> (r: Vec<wire::TrackSortCriterion>)
    ensures
        items(r) == track_sort_criteria_wire(items(*values)),
{
    let mut r: Vec<wire::TrackSortCriterion> = Vec::new();
    let mut i: usize = 0;
    while i < values.len()
        invariant
            i <= values.len(),
            r@.len() == i,
            forall|j: int| 0 <= j < i ==> #[trigger] r@[j].deep_view() == track_sort_criterion_wire(values@[j].deep_view()),
        decreases values.len() - i,
    {
        let e = &values[i];
        r.push(track_sort_criterion_to_proto(e));
        proof {
            reveal(items);
        }
        i += 1;
    }
    proof {
        reveal(track_sort_criteria_wire);
        reveal(items);
    }
    assert(r.deep_view() =~= track_sort_criteria_wire(values.deep_view()));
    r
}

#[verifier::opaque]
pub open spec fn track_sort_criteria_decoded(values: Seq<wire::TrackSortCriterion>) -> Seq<config::SortCriterion<config::TrackSortField>> {
    values.map_values(|e: wire::TrackSortCriterion| track_sort_criterion_decoded(e))
}

fn track_sort_criteria_from_proto(values: &Vec<wire::TrackSortCriterion>) -> (r: Vec<config::SortCriterion<config::TrackSortField>>)
    ensures
        items(r) == track_sort_criteria_decoded(items(*values)),
{
    let mut r: Vec<config::SortCriterion<config::TrackSortField>> = Vec::new();
    let mut i: usize = 0;
    while i < values.len()
        invariant
            i <= values.len(),
            r@.len() == i,
            forall|j: int| 0 <= j < i ==> #[trigger] r@[j].deep_view() == track_sort_criterion_decoded(values@[j].deep_view()),
        decreases values.len() - i,
    {
        let e = &values[i];
        r.push(track_sort_criterion_from_proto(e));
        proof {
            reveal(items);
        }
        i += 1;
    }
    proof {
        reveal(track_sort_criteria_decoded);
        reveal(items);
    }
    assert(r.deep_view() =~= track_sort_criteria_decoded(values.deep_view()));
    r
}

#[verifier::opaque]
pub open spec fn artist_sort_criteria_wire(values: Seq<config::SortCriterion<config::ArtistSortField>>) -> Seq<wire::ArtistSortCriterion> {
    values.map_values(|e: config::SortCriterion<config::ArtistSortField>| artist_sort_criterion_wire(e))
}

fn artist_sort_criteria_to_proto(values: &Vec<config::SortCriterion<config::ArtistSortField>>) -> (r: Vec<wire::ArtistSortCriterion>)
    ensures
        items(r) == artist_sort_criteria_wire(items(*values)),
{
    let mut r: Vec<wire::ArtistSortCriterion> = Vec::new();
    let mut i: usize = 0;
    while i < values.len()
        invariant
            i <= values.len(),
            r@.len() == i,
            forall|j: int| 0 <= j < i ==> #[trigger] r@[j].deep_view() == artist_sort_criterion_wire(values@[j].deep_view()),
        decreases values.len() - i,
    {
        let e = &values[i];
        r.push(artist_sort_criterion_to_proto(e));
        proof {
            reveal(items);
        }
        i += 1;
    }
    proof {
        reveal(artist_sort_criteria_wire);
        reveal(items);
    }
    assert(r.deep_view() =~= artist_sort_criteria_wire(values.deep_view()));
    r
}

#[verifier::opaque]
pub open spec fn artist_sort_criteria_decoded(values: Seq<wire::ArtistSortCriterion>) -> Seq<config::SortCriterion<config::ArtistSortField>> {
    values.map_values(|e: wire::ArtistSortCriterion| artist_sort_criterion_decoded(e))
}

fn artist_sort_criteria_from_proto(values: &Vec<wire::ArtistSortCriterion>) -> (r: Vec<config::SortCriterion<config::ArtistSortField>>)
    ensures
        items(r) == artist_sort_criteria_decoded(items(*values)),
{
    let mut r: Vec<config::SortCriterion<config::ArtistSortField>> = Vec::new();
    let mut i: usize = 0;
    while i < values.len()
        invariant
            i <= values.len(),
            r@.len() == i,
            forall|j: int| 0 <= j < i ==> #[trigger] r@[j].deep_view() == artist_sort_criterion_decoded(values@[j].deep_view()),
        decreases values.len() - i,
    {
        let e = &values[i];
        r.push(artist_sort_criterion_from_proto(e));
        proof {
            reveal(items);
        }
        i += 1;
    }
    proof {
        reveal(artist_sort_criteria_decoded);
        reveal(items);
    }
    assert(r.deep_view() =~= artist_sort_criteria_decoded(values.deep_view()));
    r
}

#[verifier::opaque]
pub open spec fn folders_wire(values: Seq<(Seq<char>, Seq<Seq<char>>)>) -> Seq<(Seq<char>, wire::StringListView)> {
    values.map_values(|e: (Seq<char>, Seq<Seq<char>>)| folder_wire(e))
}

fn folders_to_proto(values: &Vec<(String, Vec<String>)>) -> (r: Vec<(String, wire::StringList)>)
    ensures
        items(r) == folders_wire(items(*values)),
{
    let mut r: Vec<(String, wire::StringList)> = Vec::new();
    let mut i: usize = 0;
    while i < values.len()
        invariant
            i <= values.len(),
            r@.len() == i,
            forall|j: int| 0 <= j < i ==> #[trigger] r@[j].deep_view() == folder_wire(values@[j].deep_view()),
        decreases values.len() - i,
    {
        let e = &values[i];
        r.push((e.0.clone(), wire::StringList { values: clone_strings(&e.1) }));
        proof {
            reveal(items);
        }
        i += 1;
    }
    proof {
        reveal(folders_wire);
        reveal(items);
    }
    assert(r.deep_view() =~= folders_wire(values.deep_view()));
    r
}

#[verifier::opaque]
pub open spec fn folders_decoded(values: Seq<(Seq<char>, wire::StringListView)>) -> Seq<(Seq<char>, Seq<Seq<char>>)> {
    values.map_values(|e: (Seq<char>, wire::StringListView)| folder_decoded(e))
}

fn folders_from_proto(values: &Vec<(String, wire::StringList)>) -> (r: Vec<(String, Vec<String>)>)
    ensures
        items(r) == folders_decoded(items(*values)),
{
    let mut r: Vec<(String, Vec<String>)> = Vec::new();
    let mut i: usize = 0;
    while i < values.len()
        invariant
            i <= values.len(),
            r@.len() == i,
            forall|j: int| 0 <= j < i ==> #[trigger] r@[j].deep_view() == folder_decoded(values@[j].deep_view()),
        decreases values.len() - i,
    {
        let e = &values[i];
        r.push((e.0.clone(), clone_strings(&e.1.values)));
        proof {
            reveal(items);
        }
        i += 1;
    }
    proof {
        reveal(folders_decoded);
        reveal(items);
    }
    assert(r.deep_view() =~= folders_decoded(values.deep_view()));
    r
}

#[verifier::opaque]
pub open spec fn custom_themes_wire(values: Seq<(Seq<char>, config::CustomThemeView)>) -> Seq<(Seq<char>, wire::CustomThemeView)> {
    values.map_values(|e: (Seq<char>, config::CustomThemeView)| theme_entry_wire(e))
}

fn custom_themes_to_proto(values: &Vec<(String, config::CustomTheme)>) -> (r: Vec<(String, wire::CustomTheme)>)
    ensures
        items(r) == custom_themes_wire(items(*values)),
{
    let mut r: Vec<(String, wire::CustomTheme)> = Vec::new();
    let mut i: usize = 0;
    while i < values.len()
        invariant
            i <= values.len(),
            r@.len() == i,
            forall|j: int| 0 <= j < i ==> #[trigger] r@[j].deep_view() == theme_entry_wire(values@[j].deep_view()),
        decreases values.len() - i,
    {
        let e = &values[i];
        r.push((e.0.clone(), custom_theme_to_proto(&e.1)));
        proof {
            reveal(items);
        }
        i += 1;
    }
    proof {
        reveal(custom_themes_wire);
        reveal(items);
    }
    assert(r.deep_view() =~= custom_themes_wire(values.deep_view()));
    r
}

#[verifier::opaque]
pub open spec fn custom_themes_decoded(values: Seq<(Seq<char>, wire::CustomThemeView)>) -> Seq<(Seq<char>, config::CustomThemeView)> {
    values.map_values(|e: (Seq<char>, wire::CustomThemeView)| theme_entry_decoded(e))
}

fn custom_themes_from_proto(values: &Vec<(String, wire::CustomTheme)>) -> (r: Vec<(String, config::CustomTheme)>)
    ensures
        items(r) == custom_themes_decoded(items(*values)),
{
    let mut r: Vec<(String, config::CustomTheme)> = Vec::new();
    let mut i: usize = 0;
    while i < values.len()
        invariant
            i <= values.len(),
            r@.len() == i,
            forall|j: int| 0 <= j < i ==> #[trigger] r@[j].deep_view() == theme_entry_decoded(values@[j].deep_view()),
        decreases values.len() - i,
    {
        let e = &values[i];
        r.push((e.0.clone(), custom_theme_from_proto(&e.1)));
        proof {
            reveal(items);
        }
        i += 1;
    }
    proof {
        reveal(custom_themes_decoded);
        reveal(items);
    }
    assert(r.deep_view() =~= custom_themes_decoded(values.deep_view()));
    r
}

proof fn lemma_saved_local_sources_round_trip(values: Seq<config::SavedLocalSourceView>)
    ensures
        saved_local_sources_decoded(saved_local_sources_wire(values)) == values,
{
    reveal(saved_local_sources_wire);
    reveal(saved_local_sources_decoded);
    lemma_setting_enums_round_trip();
    assert(saved_local_sources_decoded(saved_local_sources_wire(values)) =~= values);
}

proof fn lemma_ytdlp_history_entries_round_trip(values: Seq<config::YtdlpHistoryEntryView>)
    ensures
        ytdlp_history_entries_decoded(ytdlp_history_entries_wire(values)) == values,
{
    reveal(ytdlp_history_entries_wire);
    reveal(ytdlp_history_entries_decoded);
    lemma_setting_enums_round_trip();
    assert(ytdlp_history_entries_decoded(ytdlp_history_entries_wire(values)) =~= values);
}

proof fn lemma_home_sections_round_trip(values: Seq<config::HomeSectionView>)
    ensures
        home_sections_decoded(home_sections_wire(values)) == values,
{
    reveal(home_sections_wire);
    reveal(home_sections_decoded);
    lemma_setting_enums_round_trip();
    assert(home_sections_decoded(home_sections_wire(values)) =~= values);
}

proof fn lemma_registry_entries_round_trip(values: Seq<config::RegistryEntryView>)
    ensures
        registry_entries_decoded(registry_entries_wire(values)) == values,
{
    reveal(registry_entries_wire);
    reveal(registry_entries_decoded);
    lemma_setting_enums_round_trip();
    assert(registry_entries_decoded(registry_entries_wire(values)) =~= values);
}

proof fn lemma_album_sort_criteria_round_trip(values: Seq<config::SortCriterion<config::AlbumSortField>>)
    ensures
        album_sort_criteria_decoded(album_sort_criteria_wire(values)) == values,
{
    reveal(album_sort_criteria_wire);
    reveal(album_sort_criteria_decoded);
    lemma_setting_enums_round_trip();
    assert(album_sort_criteria_decoded(album_sort_criteria_wire(values)) =~= values);
}

proof fn lemma_track_sort_criteria_round_trip(values: Seq<config::SortCriterion<config::TrackSortField>>)
    ensures
        track_sort_criteria_decoded(track_sort_criteria_wire(values)) == values,
{
    reveal(track_sort_criteria_wire);
    reveal(track_sort_criteria_decoded);
    lemma_setting_enums_round_trip();
    assert(track_sort_criteria_decoded(track_sort_criteria_wire(values)) =~= values);
}

proof fn lemma_artist_sort_criteria_round_trip(values: Seq<config::SortCriterion<config::ArtistSortField>>)
    ensures
        artist_sort_criteria_decoded(artist_sort_criteria_wire(values)) == values,
{
    reveal(artist_sort_criteria_wire);
    reveal(artist_sort_criteria_decoded);
    lemma_setting_enums_round_trip();
    assert(artist_sort_criteria_decoded(artist_sort_criteria_wire(values)) =~= values);
}

proof fn lemma_folders_round_trip(values: Seq<(Seq<char>, Seq<Seq<char>>)>)
    ensures
        folders_decoded(folders_wire(values)) == values,
{
    reveal(folders_wire);
    reveal(folders_decoded);
    lemma_setting_enums_round_trip();
    assert(folders_decoded(folders_wire(values)) =~= values);
}

proof fn lemma_custom_themes_round_trip(values: Seq<(Seq<char>, config::CustomThemeView)>)
    ensures
        custom_themes_decoded(custom_themes_wire(values)) == values,
{
    reveal(custom_themes_wire);
    reveal(custom_themes_decoded);
    lemma_setting_enums_round_trip();
    assert(custom_themes_decoded(custom_themes_wire(values)) =~= values);
}

pub open spec fn config_wire(value: config::AppConfigView) -> wire::ConfigView {
    wire::ConfigView {
        local_sources: saved_local_sources_wire(value.local_sources),
        active_source: Some(source_ref_wire(value.active_source)),
        source_explicitly_set: value.source_explicitly_set,
        server_folders: folders_wire(value.server_folders),
        spotify_browser: value.spotify_browser,
        spotify_prefer_active_device: value.spotify_prefer_active_device,
        music_directory: value.music_directory,
        theme: value.theme,
        live_theme_path: value.live_theme_path,
        device_id: value.device_id,
        discord_presence: value.discord_presence,
        discord_presence_paused: value.discord_presence_paused,
        discord_presence_source: value.discord_presence_source,
        sort_order: sort_order_wire(value.sort_order).spec_code(),
        album_sort: album_sort_criteria_wire(value.album_sort),
        library_sort: track_sort_criteria_wire(value.library_sort),
        artist_album_sort: album_sort_criteria_wire(value.artist_album_sort),
        artist_sort: artist_sort_criteria_wire(value.artist_sort),
        album_view_mode: album_view_mode_wire(value.album_view_mode).spec_code(),
        artist_album_view_mode: album_view_mode_wire(value.artist_album_view_mode).spec_code(),
        artists_view_mode: album_view_mode_wire(value.artists_view_mode).spec_code(),
        artist_view_order: artist_view_order_wire(value.artist_view_order).spec_code(),
        listen_counts: value.listen_counts,
        language: value.language,
        reduce_animations: value.reduce_animations,
        fullscreen_use_player_bar: value.fullscreen_use_player_bar,
        fullscreen_tabs_collapsed: value.fullscreen_tabs_collapsed,
        cover_art_background: value.cover_art_background,
        cover_art_darkening: value.cover_art_darkening as u32,
        cover_art_blur: value.cover_art_blur as u32,
        custom_background_path: value.custom_background_path,
        custom_font_path: value.custom_font_path,
        tracing_enabled: value.tracing_enabled,
        auto_check_updates: value.auto_check_updates,
        minimize_to_tray: value.minimize_to_tray,
        show_source_toggle: value.show_source_toggle,
        show_row_images: value.show_row_images,
        sidebar_order: value.sidebar_order,
        volume: value.volume,
        volume_scroll_step: value.volume_scroll_step,
        crossfade_seconds: value.crossfade_seconds as u32,
        custom_themes: custom_themes_wire(value.custom_themes),
        back_behavior: back_behavior_wire(value.back_behavior).spec_code(),
        channel_mode: channel_mode_wire(value.channel_mode).spec_code(),
        equalizer: Some(equalizer_wire(value.equalizer)),
        device_change_behavior: device_change_behavior_wire(value.device_change_behavior).spec_code(),
        sample_rate_mode: sample_rate_mode_wire(value.sample_rate_mode).spec_code(),
        ytdlp_output_dir: value.ytdlp_output_dir,
        ytdlp_options: Some(ytdlp_options_wire(value.ytdlp_options)),
        ytdlp_history: ytdlp_history_entries_wire(value.ytdlp_history),
        titlebar_mode: titlebar_mode_wire(value.titlebar_mode).spec_code(),
        offline_quality: offline_quality_wire(value.offline_quality).spec_code(),
        player_bar_position: player_bar_position_wire(value.player_bar_position).spec_code(),
        ui_style: ui_style_wire(value.ui_style).spec_code(),
        settings_layout: settings_layout_wire(value.settings_layout).spec_code(),
        hero_height: value.hero_height,
        home_sections: home_sections_wire(value.home_sections),
        listen_now_style: listen_now_style_wire(value.listen_now_style).spec_code(),
        auto_fetch_covers: value.auto_fetch_covers,
        cover_fetch_strategy: fetch_strategy_wire(value.cover_fetch_strategy).spec_code(),
        radio_registries: registry_entries_wire(value.radio_registries),
        pinned_stations: value.pinned_stations,
        prefer_local_lyrics: value.prefer_local_lyrics,
        enable_musixmatch_lyrics: value.enable_musixmatch_lyrics,
        lyrics_offset_ms: value.lyrics_offset_ms,
        lyrics_offset_auto: value.lyrics_offset_auto,
        lyrics_depth_blur: value.lyrics_depth_blur,
        lyrics_depth_blur_strength: value.lyrics_depth_blur_strength as u32,
    }
}

/// The settings a received message stands for. Every enumeration decodes as
/// its own `*_decoded` says, narrowed numbers saturate at 255, and the nested
/// messages that may be missing fall back to their defaults.
pub open spec fn config_decoded(value: wire::ConfigView) -> config::AppConfigView {
    config::AppConfigView {
        local_sources: saved_local_sources_decoded(value.local_sources),
        active_source: source_decoded(value.active_source),
        source_explicitly_set: value.source_explicitly_set,
        server_folders: folders_decoded(value.server_folders),
        spotify_browser: value.spotify_browser,
        spotify_prefer_active_device: value.spotify_prefer_active_device,
        music_directory: value.music_directory,
        theme: value.theme,
        live_theme_path: value.live_theme_path,
        device_id: value.device_id,
        discord_presence: value.discord_presence,
        discord_presence_paused: value.discord_presence_paused,
        discord_presence_source: value.discord_presence_source,
        sort_order: sort_order_decoded(value.sort_order),
        album_sort: album_sort_criteria_decoded(value.album_sort),
        library_sort: track_sort_criteria_decoded(value.library_sort),
        artist_album_sort: album_sort_criteria_decoded(value.artist_album_sort),
        artist_sort: artist_sort_criteria_decoded(value.artist_sort),
        album_view_mode: album_view_mode_decoded(value.album_view_mode),
        artist_album_view_mode: album_view_mode_decoded(value.artist_album_view_mode),
        artists_view_mode: album_view_mode_decoded(value.artists_view_mode),
        artist_view_order: artist_view_order_decoded(value.artist_view_order),
        listen_counts: value.listen_counts,
        language: value.language,
        reduce_animations: value.reduce_animations,
        fullscreen_use_player_bar: value.fullscreen_use_player_bar,
        fullscreen_tabs_collapsed: value.fullscreen_tabs_collapsed,
        cover_art_background: value.cover_art_background,
        cover_art_darkening: saturate_u8(value.cover_art_darkening),
        cover_art_blur: saturate_u8(value.cover_art_blur),
        custom_background_path: value.custom_background_path,
        custom_font_path: value.custom_font_path,
        tracing_enabled: value.tracing_enabled,
        auto_check_updates: value.auto_check_updates,
        minimize_to_tray: value.minimize_to_tray,
        show_source_toggle: value.show_source_toggle,
        show_row_images: value.show_row_images,
        sidebar_order: value.sidebar_order,
        volume: value.volume,
        volume_scroll_step: value.volume_scroll_step,
        crossfade_seconds: saturate_u8(value.crossfade_seconds),
        custom_themes: custom_themes_decoded(value.custom_themes),
        back_behavior: back_behavior_decoded(value.back_behavior),
        channel_mode: channel_mode_decoded(value.channel_mode),
        equalizer: equalizer_decoded(value.equalizer),
        device_change_behavior: device_change_behavior_decoded(value.device_change_behavior),
        sample_rate_mode: sample_rate_mode_decoded(value.sample_rate_mode),
        ytdlp_output_dir: value.ytdlp_output_dir,
        ytdlp_options: ytdlp_options_decoded(value.ytdlp_options),
        ytdlp_history: ytdlp_history_entries_decoded(value.ytdlp_history),
        titlebar_mode: titlebar_mode_decoded(value.titlebar_mode),
        offline_quality: offline_quality_decoded(value.offline_quality),
        player_bar_position: player_bar_position_decoded(value.player_bar_position),
        ui_style: ui_style_decoded(value.ui_style),
        settings_layout: settings_layout_decoded(value.settings_layout),
        hero_height: value.hero_height,
        home_sections: home_sections_decoded(value.home_sections),
        listen_now_style: listen_now_style_decoded(value.listen_now_style),
        auto_fetch_covers: value.auto_fetch_covers,
        cover_fetch_strategy: fetch_strategy_decoded(value.cover_fetch_strategy),
        radio_registries: registry_entries_decoded(value.radio_registries),
        pinned_stations: value.pinned_stations,
        prefer_local_lyrics: value.prefer_local_lyrics,
        enable_musixmatch_lyrics: value.enable_musixmatch_lyrics,
        lyrics_offset_ms: value.lyrics_offset_ms,
        lyrics_offset_auto: value.lyrics_offset_auto,
        lyrics_depth_blur: value.lyrics_depth_blur,
        lyrics_depth_blur_strength: saturate_u8(value.lyrics_depth_blur_strength),
    }
}

pub fn config_to_proto(value: &config::AppConfig) -> (r: wire::Config)
    ensures
        r@ == config_wire(value@),
{
    let local_sources = saved_local_sources_to_proto(&value.local_sources);
    let active_source = Some(source_ref_to_proto(&value.active_source));
    let server_folders = folders_to_proto(&value.server_folders);
    let spotify_browser = clone_opt_string(&value.spotify_browser);
    let music_directory = clone_strings(&value.music_directory);
    let theme = value.theme.clone();
    let live_theme_path = clone_opt_string(&value.live_theme_path);
    let device_id = value.device_id.clone();
    let sort_order = sort_order_to_proto(&value.sort_order).code();
    let album_sort = album_sort_criteria_to_proto(&value.album_sort);
    let library_sort = track_sort_criteria_to_proto(&value.library_sort);
    let artist_album_sort = album_sort_criteria_to_proto(&value.artist_album_sort);
    let artist_sort = artist_sort_criteria_to_proto(&value.artist_sort);
    let album_view_mode = album_view_mode_to_proto(value.album_view_mode).code();
    let artist_album_view_mode = album_view_mode_to_proto(value.artist_album_view_mode).code();
    let artists_view_mode = album_view_mode_to_proto(value.artists_view_mode).code();
    let artist_view_order = artist_view_order_to_proto(&value.artist_view_order).code();
    let listen_counts = clone_counts(&value.listen_counts);
    let language = value.language.clone();
    let cover_art_darkening = value.cover_art_darkening as u32;
    let cover_art_blur = value.cover_art_blur as u32;
    let custom_background_path = clone_opt_string(&value.custom_background_path);
    let custom_font_path = clone_opt_string(&value.custom_font_path);
    let sidebar_order = clone_strings(&value.sidebar_order);
    let crossfade_seconds = value.crossfade_seconds as u32;
    let custom_themes = custom_themes_to_proto(&value.custom_themes);
    let back_behavior = back_behavior_to_proto(value.back_behavior).code();
    let channel_mode = channel_mode_to_proto(value.channel_mode).code();
    let equalizer = Some(equalizer_to_proto(&value.equalizer));
    let device_change_behavior = device_change_behavior_to_proto(value.device_change_behavior).code();
    let sample_rate_mode = sample_rate_mode_to_proto(value.sample_rate_mode).code();
    let ytdlp_output_dir = clone_opt_string(&value.ytdlp_output_dir);
    let ytdlp_options = Some(ytdlp_options_to_proto(&value.ytdlp_options));
    let ytdlp_history = ytdlp_history_entries_to_proto(&value.ytdlp_history);
    let titlebar_mode = titlebar_mode_to_proto(value.titlebar_mode).code();
    let offline_quality = offline_quality_to_proto(value.offline_quality).code();
    let player_bar_position = player_bar_position_to_proto(value.player_bar_position).code();
    let ui_style = ui_style_to_proto(value.ui_style).code();
    let settings_layout = settings_layout_to_proto(value.settings_layout).code();
    let home_sections = home_sections_to_proto(&value.home_sections);
    let listen_now_style = listen_now_style_to_proto(value.listen_now_style).code();
    let cover_fetch_strategy = fetch_strategy_to_proto(value.cover_fetch_strategy).code();
    let radio_registries = registry_entries_to_proto(&value.radio_registries);
    let pinned_stations = clone_strings(&value.pinned_stations);
    let lyrics_depth_blur_strength = value.lyrics_depth_blur_strength as u32;
    wire::Config {
        local_sources,
        active_source,
        source_explicitly_set: value.source_explicitly_set,
        server_folders,
        spotify_browser,
        spotify_prefer_active_device: value.spotify_prefer_active_device,
        music_directory,
        theme,
        live_theme_path,
        device_id,
        discord_presence: value.discord_presence,
        discord_presence_paused: value.discord_presence_paused,
        discord_presence_source: value.discord_presence_source,
        sort_order,
        album_sort,
        library_sort,
        artist_album_sort,
        artist_sort,
        album_view_mode,
        artist_album_view_mode,
        artists_view_mode,
        artist_view_order,
        listen_counts,
        language,
        reduce_animations: value.reduce_animations,
        fullscreen_use_player_bar: value.fullscreen_use_player_bar,
        fullscreen_tabs_collapsed: value.fullscreen_tabs_collapsed,
        cover_art_background: value.cover_art_background,
        cover_art_darkening,
        cover_art_blur,
        custom_background_path,
        custom_font_path,
        tracing_enabled: value.tracing_enabled,
        auto_check_updates: value.auto_check_updates,
        minimize_to_tray: value.minimize_to_tray,
        show_source_toggle: value.show_source_toggle,
        show_row_images: value.show_row_images,
        sidebar_order,
        volume: value.volume,
        volume_scroll_step: value.volume_scroll_step,
        crossfade_seconds,
        custom_themes,
        back_behavior,
        channel_mode,
        equalizer,
        device_change_behavior,
        sample_rate_mode,
        ytdlp_output_dir,
        ytdlp_options,
        ytdlp_history,
        titlebar_mode,
        offline_quality,
        player_bar_position,
        ui_style,
        settings_layout,
        hero_height: value.hero_height,
        home_sections,
        listen_now_style,
        auto_fetch_covers: value.auto_fetch_covers,
        cover_fetch_strategy,
        radio_registries,
        pinned_stations,
        prefer_local_lyrics: value.prefer_local_lyrics,
        enable_musixmatch_lyrics: value.enable_musixmatch_lyrics,
        lyrics_offset_ms: value.lyrics_offset_ms,
        lyrics_offset_auto: value.lyrics_offset_auto,
        lyrics_depth_blur: value.lyrics_depth_blur,
        lyrics_depth_blur_strength,
    }
}

/// Credential and machine-local state is not part of [`config::AppConfig`] at
/// all, so nothing here needs restoring: the daemon keeps that state beside it.
pub fn config_from_proto(value: &wire::Config) -> (r: config::AppConfig)
    ensures
        r@ == config_decoded(value@),
{
    let local_sources = saved_local_sources_from_proto(&value.local_sources);
    let active_source = source_ref_from_proto(value.active_source.as_ref());
    let server_folders = folders_from_proto(&value.server_folders);
    let spotify_browser = clone_opt_string(&value.spotify_browser);
    let music_directory = clone_strings(&value.music_directory);
    let theme = value.theme.clone();
    let live_theme_path = clone_opt_string(&value.live_theme_path);
    let device_id = value.device_id.clone();
    let sort_order = sort_order_from_proto(value.sort_order);
    let album_sort = album_sort_criteria_from_proto(&value.album_sort);
    let library_sort = track_sort_criteria_from_proto(&value.library_sort);
    let artist_album_sort = album_sort_criteria_from_proto(&value.artist_album_sort);
    let artist_sort = artist_sort_criteria_from_proto(&value.artist_sort);
    let album_view_mode = album_view_mode_from_proto(value.album_view_mode);
    let artist_album_view_mode = album_view_mode_from_proto(value.artist_album_view_mode);
    let artists_view_mode = album_view_mode_from_proto(value.artists_view_mode);
    let artist_view_order = artist_view_order_from_proto(value.artist_view_order);
    let listen_counts = clone_counts(&value.listen_counts);
    let language = value.language.clone();
    let cover_art_darkening = saturating_u8(value.cover_art_darkening);
    let cover_art_blur = saturating_u8(value.cover_art_blur);
    let custom_background_path = clone_opt_string(&value.custom_background_path);
    let custom_font_path = clone_opt_string(&value.custom_font_path);
    let sidebar_order = clone_strings(&value.sidebar_order);
    let crossfade_seconds = saturating_u8(value.crossfade_seconds);
    let custom_themes = custom_themes_from_proto(&value.custom_themes);
    let back_behavior = back_behavior_from_proto(value.back_behavior);
    let channel_mode = channel_mode_from_proto(value.channel_mode);
    let equalizer = equalizer_from_proto(value.equalizer.as_ref());
    let device_change_behavior = device_change_behavior_from_proto(value.device_change_behavior);
    let sample_rate_mode = sample_rate_mode_from_proto(value.sample_rate_mode);
    let ytdlp_output_dir = clone_opt_string(&value.ytdlp_output_dir);
    let ytdlp_options = ytdlp_options_from_proto(value.ytdlp_options.as_ref());
    let ytdlp_history = ytdlp_history_entries_from_proto(&value.ytdlp_history);
    let titlebar_mode = titlebar_mode_from_proto(value.titlebar_mode);
    let offline_quality = offline_quality_from_proto(value.offline_quality);
    let player_bar_position = player_bar_position_from_proto(value.player_bar_position);
    let ui_style = ui_style_from_proto(value.ui_style);
    let settings_layout = settings_layout_from_proto(value.settings_layout);
    let home_sections = home_sections_from_proto(&value.home_sections);
    let listen_now_style = listen_now_style_from_proto(value.listen_now_style);
    let cover_fetch_strategy = fetch_strategy_from_proto(value.cover_fetch_strategy);
    let radio_registries = registry_entries_from_proto(&value.radio_registries);
    let pinned_stations = clone_strings(&value.pinned_stations);
    let lyrics_depth_blur_strength = saturating_u8(value.lyrics_depth_blur_strength);
    config::AppConfig {
        local_sources,
        active_source,
        source_explicitly_set: value.source_explicitly_set,
        server_folders,
        spotify_browser,
        spotify_prefer_active_device: value.spotify_prefer_active_device,
        music_directory,
        theme,
        live_theme_path,
        device_id,
        discord_presence: value.discord_presence,
        discord_presence_paused: value.discord_presence_paused,
        discord_presence_source: value.discord_presence_source,
        sort_order,
        album_sort,
        library_sort,
        artist_album_sort,
        artist_sort,
        album_view_mode,
        artist_album_view_mode,
        artists_view_mode,
        artist_view_order,
        listen_counts,
        language,
        reduce_animations: value.reduce_animations,
        fullscreen_use_player_bar: value.fullscreen_use_player_bar,
        fullscreen_tabs_collapsed: value.fullscreen_tabs_collapsed,
        cover_art_background: value.cover_art_background,
        cover_art_darkening,
        cover_art_blur,
        custom_background_path,
        custom_font_path,
        tracing_enabled: value.tracing_enabled,
        auto_check_updates: value.auto_check_updates,
        minimize_to_tray: value.minimize_to_tray,
        show_source_toggle: value.show_source_toggle,
        show_row_images: value.show_row_images,
        sidebar_order,
        volume: value.volume,
        volume_scroll_step: value.volume_scroll_step,
        crossfade_seconds,
        custom_themes,
        back_behavior,
        channel_mode,
        equalizer,
        device_change_behavior,
        sample_rate_mode,
        ytdlp_output_dir,
        ytdlp_options,
        ytdlp_history,
        titlebar_mode,
        offline_quality,
        player_bar_position,
        ui_style,
        settings_layout,
        hero_height: value.hero_height,
        home_sections,
        listen_now_style,
        auto_fetch_covers: value.auto_fetch_covers,
        cover_fetch_strategy,
        radio_registries,
        pinned_stations,
        prefer_local_lyrics: value.prefer_local_lyrics,
        enable_musixmatch_lyrics: value.enable_musixmatch_lyrics,
        lyrics_offset_ms: value.lyrics_offset_ms,
        lyrics_offset_auto: value.lyrics_offset_auto,
        lyrics_depth_blur: value.lyrics_depth_blur,
        lyrics_depth_blur_strength,
    }
}

/// Every settings enumeration survives the wire: decoding the code of an
/// encoded value gives the value back, and no value is sent as unspecified.
pub proof fn lemma_setting_enums_round_trip()
    ensures
        forall|v: config::AlbumViewMode| #[trigger] album_view_mode_decoded(album_view_mode_wire(v).spec_code()) == v,
        forall|v: config::AlbumViewMode| #[trigger] album_view_mode_wire(v) != wire::AlbumViewMode::Unspecified,
        forall|v: config::ArtistViewOrder| #[trigger] artist_view_order_decoded(artist_view_order_wire(v).spec_code()) == v,
        forall|v: config::ArtistViewOrder| #[trigger] artist_view_order_wire(v) != wire::ArtistViewOrder::Unspecified,
        forall|v: config::BackBehavior| #[trigger] back_behavior_decoded(back_behavior_wire(v).spec_code()) == v,
        forall|v: config::BackBehavior| #[trigger] back_behavior_wire(v) != wire::BackBehavior::Unspecified,
        forall|v: config::ChannelMode| #[trigger] channel_mode_decoded(channel_mode_wire(v).spec_code()) == v,
        forall|v: config::ChannelMode| #[trigger] channel_mode_wire(v) != wire::ChannelMode::Unspecified,
        forall|v: config::DeviceChangeBehavior| #[trigger] device_change_behavior_decoded(device_change_behavior_wire(v).spec_code()) == v,
        forall|v: config::DeviceChangeBehavior| #[trigger] device_change_behavior_wire(v) != wire::DeviceChangeBehavior::Unspecified,
        forall|v: config::FetchStrategy| #[trigger] fetch_strategy_decoded(fetch_strategy_wire(v).spec_code()) == v,
        forall|v: config::FetchStrategy| #[trigger] fetch_strategy_wire(v) != wire::FetchStrategy::Unspecified,
        forall|v: config::ListenNowStyle| #[trigger] listen_now_style_decoded(listen_now_style_wire(v).spec_code()) == v,
        forall|v: config::ListenNowStyle| #[trigger] listen_now_style_wire(v) != wire::ListenNowStyle::Unspecified,
        forall|v: config::OfflineQuality| #[trigger] offline_quality_decoded(offline_quality_wire(v).spec_code()) == v,
        forall|v: config::OfflineQuality| #[trigger] offline_quality_wire(v) != wire::OfflineQuality::Unspecified,
        forall|v: config::PlayerBarPosition| #[trigger] player_bar_position_decoded(player_bar_position_wire(v).spec_code()) == v,
        forall|v: config::PlayerBarPosition| #[trigger] player_bar_position_wire(v) != wire::PlayerBarPosition::Unspecified,
        forall|v: config::SampleRateMode| #[trigger] sample_rate_mode_decoded(sample_rate_mode_wire(v).spec_code()) == v,
        forall|v: config::SampleRateMode| #[trigger] sample_rate_mode_wire(v) != wire::SampleRateMode::Unspecified,
        forall|v: config::SettingsLayout| #[trigger] settings_layout_decoded(settings_layout_wire(v).spec_code()) == v,
        forall|v: config::SettingsLayout| #[trigger] settings_layout_wire(v) != wire::SettingsLayout::Unspecified,
        forall|v: config::SortOrder| #[trigger] sort_order_decoded(sort_order_wire(v).spec_code()) == v,
        forall|v: config::SortOrder| #[trigger] sort_order_wire(v) != wire::SortOrder::Unspecified,
        forall|v: config::TitlebarMode| #[trigger] titlebar_mode_decoded(titlebar_mode_wire(v).spec_code()) == v,
        forall|v: config::TitlebarMode| #[trigger] titlebar_mode_wire(v) != wire::TitlebarMode::Unspecified,
        forall|v: config::UiStyle| #[trigger] ui_style_decoded(ui_style_wire(v).spec_code()) == v,
        forall|v: config::UiStyle| #[trigger] ui_style_wire(v) != wire::UiStyle::Unspecified,
        forall|v: config::EqPreset| #[trigger] eq_preset_decoded(eq_preset_wire(v).spec_code()) == v,
        forall|v: config::EqPreset| #[trigger] eq_preset_wire(v) != wire::EqPreset::Unspecified,
        forall|v: config::SortDirection| #[trigger] sort_direction_decoded(sort_direction_wire(v).spec_code()) == v,
        forall|v: config::SortDirection| #[trigger] sort_direction_wire(v) != wire::SortDirection::Unspecified,
        forall|v: config::AlbumSortField| #[trigger] album_sort_field_decoded(album_sort_field_wire(v).spec_code()) == v,
        forall|v: config::AlbumSortField| #[trigger] album_sort_field_wire(v) != wire::AlbumSortField::Unspecified,
        forall|v: config::TrackSortField| #[trigger] track_sort_field_decoded(track_sort_field_wire(v).spec_code()) == v,
        forall|v: config::TrackSortField| #[trigger] track_sort_field_wire(v) != wire::TrackSortField::Unspecified,
        forall|v: config::ArtistSortField| #[trigger] artist_sort_field_decoded(artist_sort_field_wire(v).spec_code()) == v,
        forall|v: config::ArtistSortField| #[trigger] artist_sort_field_wire(v) != wire::ArtistSortField::Unspecified,
{
}

/// A code the receiver does not know, and the unspecified code 0, read as the
/// setting's fallback value rather than as an error.
pub proof fn lemma_unknown_codes_fall_back(code: i32)
    ensures
        (code <= 0 || code > 2) ==> album_view_mode_decoded(code) == config::AlbumViewMode::Grid,
        (code <= 0 || code > 2) ==> artist_view_order_decoded(code) == config::ArtistViewOrder::Tracks,
        (code <= 0 || code > 2) ==> back_behavior_decoded(code) == config::BackBehavior::RewindThenPrev,
        (code <= 0 || code > 5) ==> channel_mode_decoded(code) == config::ChannelMode::Stereo,
        (code <= 0 || code > 2) ==> device_change_behavior_decoded(code) == config::DeviceChangeBehavior::Resume,
        (code <= 0 || code > 4) ==> fetch_strategy_decoded(code) == config::FetchStrategy::MusicBrainzFirst,
        (code <= 0 || code > 2) ==> listen_now_style_decoded(code) == config::ListenNowStyle::List,
        (code <= 0 || code > 6) ==> offline_quality_decoded(code) == config::OfflineQuality::Kbps128,
        (code <= 0 || code > 2) ==> player_bar_position_decoded(code) == config::PlayerBarPosition::Bottom,
        (code <= 0 || code > 2) ==> sample_rate_mode_decoded(code) == config::SampleRateMode::System,
        (code <= 0 || code > 2) ==> settings_layout_decoded(code) == config::SettingsLayout::Cd,
        (code <= 0 || code > 3) ==> sort_order_decoded(code) == config::SortOrder::Title,
        (code <= 0 || code > 3) ==> titlebar_mode_decoded(code) == config::TitlebarMode::Custom,
        (code <= 0 || code > 2) ==> ui_style_decoded(code) == config::UiStyle::Normal,
        (code <= 0 || code > 6) ==> eq_preset_decoded(code) == config::EqPreset::Flat,
        (code <= 0 || code > 2) ==> sort_direction_decoded(code) == config::SortDirection::Asc,
        (code <= 0 || code > 4) ==> album_sort_field_decoded(code) == config::AlbumSortField::Title,
        (code <= 0 || code > 5) ==> track_sort_field_decoded(code) == config::TrackSortField::Title,
        (code <= 0 || code > 3) ==> artist_sort_field_decoded(code) == config::ArtistSortField::Name,
{
}

/// Settings sent over the wire and read back are the settings that were sent.
pub proof fn lemma_config_round_trip(value: config::AppConfig)
    ensures
        config_decoded(config_wire(value@)) == value@,
{
    let c = value@;
    lemma_setting_enums_round_trip();
    assert(value.equalizer.bands@.len() == 10);
    lemma_saved_local_sources_round_trip(c.local_sources);
    lemma_folders_round_trip(c.server_folders);
    lemma_album_sort_criteria_round_trip(c.album_sort);
    lemma_track_sort_criteria_round_trip(c.library_sort);
    lemma_album_sort_criteria_round_trip(c.artist_album_sort);
    lemma_artist_sort_criteria_round_trip(c.artist_sort);
    lemma_custom_themes_round_trip(c.custom_themes);
    lemma_ytdlp_history_entries_round_trip(c.ytdlp_history);
    lemma_home_sections_round_trip(c.home_sections);
    lemma_registry_entries_round_trip(c.radio_registries);
    assert(c.equalizer.bands.len() == 10);
    assert(config_decoded(config_wire(c)) == c);
}

/// Each value travels as the wire value of the same name, whose code is its
/// place in the declaration counted from 1, and that code reads back as the
/// value of the same name; a value the wire has no name for travels as the
/// unspecified code 0.
pub proof fn lemma_settings_enums_travel_by_name()
    ensures
        album_view_mode_wire(config::AlbumViewMode::Grid).spec_code() == 1,
        album_view_mode_decoded(1) == config::AlbumViewMode::Grid,
        album_view_mode_wire(config::AlbumViewMode::List).spec_code() == 2,
        album_view_mode_decoded(2) == config::AlbumViewMode::List,
        artist_view_order_wire(config::ArtistViewOrder::Tracks).spec_code() == 1,
        artist_view_order_decoded(1) == config::ArtistViewOrder::Tracks,
        artist_view_order_wire(config::ArtistViewOrder::Albums).spec_code() == 2,
        artist_view_order_decoded(2) == config::ArtistViewOrder::Albums,
        back_behavior_wire(config::BackBehavior::RewindThenPrev).spec_code() == 1,
        back_behavior_decoded(1) == config::BackBehavior::RewindThenPrev,
        back_behavior_wire(config::BackBehavior::AlwaysPrev).spec_code() == 2,
        back_behavior_decoded(2) == config::BackBehavior::AlwaysPrev,
        channel_mode_wire(config::ChannelMode::Stereo).spec_code() == 1,
        channel_mode_decoded(1) == config::ChannelMode::Stereo,
        channel_mode_wire(config::ChannelMode::Mono).spec_code() == 2,
        channel_mode_decoded(2) == config::ChannelMode::Mono,
        channel_mode_wire(config::ChannelMode::LeftOnly).spec_code() == 3,
        channel_mode_decoded(3) == config::ChannelMode::LeftOnly,
        channel_mode_wire(config::ChannelMode::RightOnly).spec_code() == 4,
        channel_mode_decoded(4) == config::ChannelMode::RightOnly,
        channel_mode_wire(config::ChannelMode::SwapLeftRight).spec_code() == 5,
        channel_mode_decoded(5) == config::ChannelMode::SwapLeftRight,
        device_change_behavior_wire(config::DeviceChangeBehavior::Resume).spec_code() == 1,
        device_change_behavior_decoded(1) == config::DeviceChangeBehavior::Resume,
        device_change_behavior_wire(config::DeviceChangeBehavior::Pause).spec_code() == 2,
        device_change_behavior_decoded(2) == config::DeviceChangeBehavior::Pause,
        fetch_strategy_wire(config::FetchStrategy::MusicBrainzFirst).spec_code() == 1,
        fetch_strategy_decoded(1) == config::FetchStrategy::MusicBrainzFirst,
        fetch_strategy_wire(config::FetchStrategy::LastFmFirst).spec_code() == 2,
        fetch_strategy_decoded(2) == config::FetchStrategy::LastFmFirst,
        fetch_strategy_wire(config::FetchStrategy::MusicBrainzOnly).spec_code() == 3,
        fetch_strategy_decoded(3) == config::FetchStrategy::MusicBrainzOnly,
        fetch_strategy_wire(config::FetchStrategy::LastFmOnly).spec_code() == 4,
        fetch_strategy_decoded(4) == config::FetchStrategy::LastFmOnly,
        listen_now_style_wire(config::ListenNowStyle::List).spec_code() == 1,
        listen_now_style_decoded(1) == config::ListenNowStyle::List,
        listen_now_style_wire(config::ListenNowStyle::Cards).spec_code() == 2,
        listen_now_style_decoded(2) == config::ListenNowStyle::Cards,
        offline_quality_wire(config::OfflineQuality::Kbps128).spec_code() == 1,
        offline_quality_decoded(1) == config::OfflineQuality::Kbps128,
        offline_quality_wire(config::OfflineQuality::Kbps160).spec_code() == 2,
        offline_quality_decoded(2) == config::OfflineQuality::Kbps160,
        offline_quality_wire(config::OfflineQuality::Kbps192).spec_code() == 3,
        offline_quality_decoded(3) == config::OfflineQuality::Kbps192,
        offline_quality_wire(config::OfflineQuality::Kbps256).spec_code() == 4,
        offline_quality_decoded(4) == config::OfflineQuality::Kbps256,
        offline_quality_wire(config::OfflineQuality::Kbps320).spec_code() == 5,
        offline_quality_decoded(5) == config::OfflineQuality::Kbps320,
        offline_quality_wire(config::OfflineQuality::Original).spec_code() == 6,
        offline_quality_decoded(6) == config::OfflineQuality::Original,
        player_bar_position_wire(config::PlayerBarPosition::Bottom).spec_code() == 1,
        player_bar_position_decoded(1) == config::PlayerBarPosition::Bottom,
        player_bar_position_wire(config::PlayerBarPosition::Top).spec_code() == 2,
        player_bar_position_decoded(2) == config::PlayerBarPosition::Top,
        sample_rate_mode_wire(config::SampleRateMode::System).spec_code() == 1,
        sample_rate_mode_decoded(1) == config::SampleRateMode::System,
        sample_rate_mode_wire(config::SampleRateMode::Source).spec_code() == 2,
        sample_rate_mode_decoded(2) == config::SampleRateMode::Source,
        settings_layout_wire(config::SettingsLayout::Cd).spec_code() == 1,
        settings_layout_decoded(1) == config::SettingsLayout::Cd,
        settings_layout_wire(config::SettingsLayout::TopBar).spec_code() == 2,
        settings_layout_decoded(2) == config::SettingsLayout::TopBar,
        sort_order_wire(config::SortOrder::Title).spec_code() == 1,
        sort_order_decoded(1) == config::SortOrder::Title,
        sort_order_wire(config::SortOrder::Artist).spec_code() == 2,
        sort_order_decoded(2) == config::SortOrder::Artist,
        sort_order_wire(config::SortOrder::Album).spec_code() == 3,
        sort_order_decoded(3) == config::SortOrder::Album,
        titlebar_mode_wire(config::TitlebarMode::Custom).spec_code() == 1,
        titlebar_mode_decoded(1) == config::TitlebarMode::Custom,
        titlebar_mode_wire(config::TitlebarMode::System).spec_code() == 2,
        titlebar_mode_decoded(2) == config::TitlebarMode::System,
        titlebar_mode_wire(config::TitlebarMode::Off).spec_code() == 3,
        titlebar_mode_decoded(3) == config::TitlebarMode::Off,
        ui_style_wire(config::UiStyle::Normal).spec_code() == 1,
        ui_style_decoded(1) == config::UiStyle::Normal,
        ui_style_wire(config::UiStyle::Vaxry).spec_code() == 2,
        ui_style_decoded(2) == config::UiStyle::Vaxry,
        eq_preset_wire(config::EqPreset::Flat).spec_code() == 1,
        eq_preset_decoded(1) == config::EqPreset::Flat,
        eq_preset_wire(config::EqPreset::BassBoost).spec_code() == 2,
        eq_preset_decoded(2) == config::EqPreset::BassBoost,
        eq_preset_wire(config::EqPreset::TrebleBoost).spec_code() == 3,
        eq_preset_decoded(3) == config::EqPreset::TrebleBoost,
        eq_preset_wire(config::EqPreset::VocalBoost).spec_code() == 4,
        eq_preset_decoded(4) == config::EqPreset::VocalBoost,
        eq_preset_wire(config::EqPreset::Loudness).spec_code() == 5,
        eq_preset_decoded(5) == config::EqPreset::Loudness,
        eq_preset_wire(config::EqPreset::Custom).spec_code() == 6,
        eq_preset_decoded(6) == config::EqPreset::Custom,
        sort_direction_wire(config::SortDirection::Asc).spec_code() == 1,
        sort_direction_decoded(1) == config::SortDirection::Asc,
        sort_direction_wire(config::SortDirection::Desc).spec_code() == 2,
        sort_direction_decoded(2) == config::SortDirection::Desc,
        album_sort_field_wire(config::AlbumSortField::Title).spec_code() == 1,
        album_sort_field_decoded(1) == config::AlbumSortField::Title,
        album_sort_field_wire(config::AlbumSortField::Artist).spec_code() == 2,
        album_sort_field_decoded(2) == config::AlbumSortField::Artist,
        album_sort_field_wire(config::AlbumSortField::Year).spec_code() == 3,
        album_sort_field_decoded(3) == config::AlbumSortField::Year,
        album_sort_field_wire(config::AlbumSortField::Genre).spec_code() == 4,
        album_sort_field_decoded(4) == config::AlbumSortField::Genre,
        track_sort_field_wire(config::TrackSortField::Title).spec_code() == 1,
        track_sort_field_decoded(1) == config::TrackSortField::Title,
        track_sort_field_wire(config::TrackSortField::Artist).spec_code() == 2,
        track_sort_field_decoded(2) == config::TrackSortField::Artist,
        track_sort_field_wire(config::TrackSortField::Album).spec_code() == 3,
        track_sort_field_decoded(3) == config::TrackSortField::Album,
        track_sort_field_wire(config::TrackSortField::Duration).spec_code() == 4,
        track_sort_field_decoded(4) == config::TrackSortField::Duration,
        track_sort_field_wire(config::TrackSortField::DateAdded).spec_code() == 5,
        track_sort_field_decoded(5) == config::TrackSortField::DateAdded,
        artist_sort_field_wire(config::ArtistSortField::Name).spec_code() == 1,
        artist_sort_field_decoded(1) == config::ArtistSortField::Name,
        artist_sort_field_wire(config::ArtistSortField::Tracks).spec_code() == 2,
        artist_sort_field_decoded(2) == config::ArtistSortField::Tracks,
        artist_sort_field_wire(config::ArtistSortField::Albums).spec_code() == 3,
        artist_sort_field_decoded(3) == config::ArtistSortField::Albums,
{
}

} // verus!
