//! The wire messages of the settings surface, and the API's enumerations.
//!
//! Enumerations travel as `i32` codes. Code 0 is the unspecified value of every
//! enumeration; the named values follow from 1 in declaration order. A code
//! the receiver does not know is not an error: it reads as unspecified.

use vstd::prelude::*;

use crate::config::{items, switch, Switch};

verus! {

#[derive(Clone, Copy, Debug, PartialEq, Eq, Structural)]
pub enum AlbumViewMode {
    Unspecified,
    Grid,
    List,
}

impl AlbumViewMode {
    /// The value's code on the wire.
    pub open spec fn spec_code(self) -> i32 {
        match self {
            AlbumViewMode::Unspecified => 0,
            AlbumViewMode::Grid => 1,
            AlbumViewMode::List => 2,
        }
    }

    /// The value a code stands for, if any.
    pub open spec fn spec_from_code(code: i32) -> Option<Self> {
        if code == 0 {
            Some(AlbumViewMode::Unspecified)
        } else if code == 1 {
            Some(AlbumViewMode::Grid)
        } else if code == 2 {
            Some(AlbumViewMode::List)
        } else {
            None
        }
    }

    pub fn code(self) -> (r: i32)
        ensures
            r == self.spec_code(),
    {
        match self {
            AlbumViewMode::Unspecified => 0,
            AlbumViewMode::Grid => 1,
            AlbumViewMode::List => 2,
        }
    }

    pub fn try_from_code(code: i32) -> (r: Option<Self>)
        ensures
            r == Self::spec_from_code(code),
    {
        if code == 0 {
            Some(AlbumViewMode::Unspecified)
        } else if code == 1 {
            Some(AlbumViewMode::Grid)
        } else if code == 2 {
            Some(AlbumViewMode::List)
        } else {
            None
        }
    }
}

#[derive(Clone, Copy, Debug, PartialEq, Eq, Structural)]
pub enum ArtistViewOrder {
    Unspecified,
    Tracks,
    Albums,
}

impl ArtistViewOrder {
    /// The value's code on the wire.
    pub open spec fn spec_code(self) -> i32 {
        match self {
            ArtistViewOrder::Unspecified => 0,
            ArtistViewOrder::Tracks => 1,
            ArtistViewOrder::Albums => 2,
        }
    }

    /// The value a code stands for, if any.
    pub open spec fn spec_from_code(code: i32) -> Option<Self> {
        if code == 0 {
            Some(ArtistViewOrder::Unspecified)
        } else if code == 1 {
            Some(ArtistViewOrder::Tracks)
        } else if code == 2 {
            Some(ArtistViewOrder::Albums)
        } else {
            None
        }
    }

    pub fn code(self) -> (r: i32)
        ensures
            r == self.spec_code(),
    {
        match self {
            ArtistViewOrder::Unspecified => 0,
            ArtistViewOrder::Tracks => 1,
            ArtistViewOrder::Albums => 2,
        }
    }

    pub fn try_from_code(code: i32) -> (r: Option<Self>)
        ensures
            r == Self::spec_from_code(code),
    {
        if code == 0 {
            Some(ArtistViewOrder::Unspecified)
        } else if code == 1 {
            Some(ArtistViewOrder::Tracks)
        } else if code == 2 {
            Some(ArtistViewOrder::Albums)
        } else {
            None
        }
    }
}

#[derive(Clone, Copy, Debug, PartialEq, Eq, Structural)]
pub enum BackBehavior {
    Unspecified,
    RewindThenPrev,
    AlwaysPrev,
}

impl BackBehavior {
    /// The value's code on the wire.
    pub open spec fn spec_code(self) -> i32 {
        match self {
            BackBehavior::Unspecified => 0,
            BackBehavior::RewindThenPrev => 1,
            BackBehavior::AlwaysPrev => 2,
        }
    }

    /// The value a code stands for, if any.
    pub open spec fn spec_from_code(code: i32) -> Option<Self> {
        if code == 0 {
            Some(BackBehavior::Unspecified)
        } else if code == 1 {
            Some(BackBehavior::RewindThenPrev)
        } else if code == 2 {
            Some(BackBehavior::AlwaysPrev)
        } else {
            None
        }
    }

    pub fn code(self) -> (r: i32)
        ensures
            r == self.spec_code(),
    {
        match self {
            BackBehavior::Unspecified => 0,
            BackBehavior::RewindThenPrev => 1,
            BackBehavior::AlwaysPrev => 2,
        }
    }

    pub fn try_from_code(code: i32) -> (r: Option<Self>)
        ensures
            r == Self::spec_from_code(code),
    {
        if code == 0 {
            Some(BackBehavior::Unspecified)
        } else if code == 1 {
            Some(BackBehavior::RewindThenPrev)
        } else if code == 2 {
            Some(BackBehavior::AlwaysPrev)
        } else {
            None
        }
    }
}

#[derive(Clone, Copy, Debug, PartialEq, Eq, Structural)]
pub enum ChannelMode {
    Unspecified,
    Stereo,
    Mono,
    LeftOnly,
    RightOnly,
    SwapLeftRight,
}

impl ChannelMode {
    /// The value's code on the wire.
    pub open spec fn spec_code(self) -> i32 {
        match self {
            ChannelMode::Unspecified => 0,
            ChannelMode::Stereo => 1,
            ChannelMode::Mono => 2,
            ChannelMode::LeftOnly => 3,
            ChannelMode::RightOnly => 4,
            ChannelMode::SwapLeftRight => 5,
        }
    }

    /// The value a code stands for, if any.
    pub open spec fn spec_from_code(code: i32) -> Option<Self> {
        if code == 0 {
            Some(ChannelMode::Unspecified)
        } else if code == 1 {
            Some(ChannelMode::Stereo)
        } else if code == 2 {
            Some(ChannelMode::Mono)
        } else if code == 3 {
            Some(ChannelMode::LeftOnly)
        } else if code == 4 {
            Some(ChannelMode::RightOnly)
        } else if code == 5 {
            Some(ChannelMode::SwapLeftRight)
        } else {
            None
        }
    }

    pub fn code(self) -> (r: i32)
        ensures
            r == self.spec_code(),
    {
        match self {
            ChannelMode::Unspecified => 0,
            ChannelMode::Stereo => 1,
            ChannelMode::Mono => 2,
            ChannelMode::LeftOnly => 3,
            ChannelMode::RightOnly => 4,
            ChannelMode::SwapLeftRight => 5,
        }
    }

    pub fn try_from_code(code: i32) -> (r: Option<Self>)
        ensures
            r == Self::spec_from_code(code),
    {
        if code == 0 {
            Some(ChannelMode::Unspecified)
        } else if code == 1 {
            Some(ChannelMode::Stereo)
        } else if code == 2 {
            Some(ChannelMode::Mono)
        } else if code == 3 {
            Some(ChannelMode::LeftOnly)
        } else if code == 4 {
            Some(ChannelMode::RightOnly)
        } else if code == 5 {
            Some(ChannelMode::SwapLeftRight)
        } else {
            None
        }
    }
}

#[derive(Clone, Copy, Debug, PartialEq, Eq, Structural)]
pub enum DeviceChangeBehavior {
    Unspecified,
    Resume,
    Pause,
}

impl DeviceChangeBehavior {
    /// The value's code on the wire.
    pub open spec fn spec_code(self) -> i32 {
        match self {
            DeviceChangeBehavior::Unspecified => 0,
            DeviceChangeBehavior::Resume => 1,
            DeviceChangeBehavior::Pause => 2,
        }
    }

    /// The value a code stands for, if any.
    pub open spec fn spec_from_code(code: i32) -> Option<Self> {
        if code == 0 {
            Some(DeviceChangeBehavior::Unspecified)
        } else if code == 1 {
            Some(DeviceChangeBehavior::Resume)
        } else if code == 2 {
            Some(DeviceChangeBehavior::Pause)
        } else {
            None
        }
    }

    pub fn code(self) -> (r: i32)
        ensures
            r == self.spec_code(),
    {
        match self {
            DeviceChangeBehavior::Unspecified => 0,
            DeviceChangeBehavior::Resume => 1,
            DeviceChangeBehavior::Pause => 2,
        }
    }

    pub fn try_from_code(code: i32) -> (r: Option<Self>)
        ensures
            r == Self::spec_from_code(code),
    {
        if code == 0 {
            Some(DeviceChangeBehavior::Unspecified)
        } else if code == 1 {
            Some(DeviceChangeBehavior::Resume)
        } else if code == 2 {
            Some(DeviceChangeBehavior::Pause)
        } else {
            None
        }
    }
}

#[derive(Clone, Copy, Debug, PartialEq, Eq, Structural)]
pub enum FetchStrategy {
    Unspecified,
    MusicBrainzFirst,
    LastFmFirst,
    MusicBrainzOnly,
    LastFmOnly,
}

impl FetchStrategy {
    /// The value's code on the wire.
    pub open spec fn spec_code(self) -> i32 {
        match self {
            FetchStrategy::Unspecified => 0,
            FetchStrategy::MusicBrainzFirst => 1,
            FetchStrategy::LastFmFirst => 2,
            FetchStrategy::MusicBrainzOnly => 3,
            FetchStrategy::LastFmOnly => 4,
        }
    }

    /// The value a code stands for, if any.
    pub open spec fn spec_from_code(code: i32) -> Option<Self> {
        if code == 0 {
            Some(FetchStrategy::Unspecified)
        } else if code == 1 {
            Some(FetchStrategy::MusicBrainzFirst)
        } else if code == 2 {
            Some(FetchStrategy::LastFmFirst)
        } else if code == 3 {
            Some(FetchStrategy::MusicBrainzOnly)
        } else if code == 4 {
            Some(FetchStrategy::LastFmOnly)
        } else {
            None
        }
    }

    pub fn code(self) -> (r: i32)
        ensures
            r == self.spec_code(),
    {
        match self {
            FetchStrategy::Unspecified => 0,
            FetchStrategy::MusicBrainzFirst => 1,
            FetchStrategy::LastFmFirst => 2,
            FetchStrategy::MusicBrainzOnly => 3,
            FetchStrategy::LastFmOnly => 4,
        }
    }

    pub fn try_from_code(code: i32) -> (r: Option<Self>)
        ensures
            r == Self::spec_from_code(code),
    {
        if code == 0 {
            Some(FetchStrategy::Unspecified)
        } else if code == 1 {
            Some(FetchStrategy::MusicBrainzFirst)
        } else if code == 2 {
            Some(FetchStrategy::LastFmFirst)
        } else if code == 3 {
            Some(FetchStrategy::MusicBrainzOnly)
        } else if code == 4 {
            Some(FetchStrategy::LastFmOnly)
        } else {
            None
        }
    }
}

#[derive(Clone, Copy, Debug, PartialEq, Eq, Structural)]
pub enum ListenNowStyle {
    Unspecified,
    List,
    Cards,
}

impl ListenNowStyle {
    /// The value's code on the wire.
    pub open spec fn spec_code(self) -> i32 {
        match self {
            ListenNowStyle::Unspecified => 0,
            ListenNowStyle::List => 1,
            ListenNowStyle::Cards => 2,
        }
    }

    /// The value a code stands for, if any.
    pub open spec fn spec_from_code(code: i32) -> Option<Self> {
        if code == 0 {
            Some(ListenNowStyle::Unspecified)
        } else if code == 1 {
            Some(ListenNowStyle::List)
        } else if code == 2 {
            Some(ListenNowStyle::Cards)
        } else {
            None
        }
    }

    pub fn code(self) -> (r: i32)
        ensures
            r == self.spec_code(),
    {
        match self {
            ListenNowStyle::Unspecified => 0,
            ListenNowStyle::List => 1,
            ListenNowStyle::Cards => 2,
        }
    }

    pub fn try_from_code(code: i32) -> (r: Option<Self>)
        ensures
            r == Self::spec_from_code(code),
    {
        if code == 0 {
            Some(ListenNowStyle::Unspecified)
        } else if code == 1 {
            Some(ListenNowStyle::List)
        } else if code == 2 {
            Some(ListenNowStyle::Cards)
        } else {
            None
        }
    }
}

#[derive(Clone, Copy, Debug, PartialEq, Eq, Structural)]
pub enum OfflineQuality {
    Unspecified,
    Kbps128,
    Kbps160,
    Kbps192,
    Kbps256,
    Kbps320,
    Original,
}

impl OfflineQuality {
    /// The value's code on the wire.
    pub open spec fn spec_code(self) -> i32 {
        match self {
            OfflineQuality::Unspecified => 0,
            OfflineQuality::Kbps128 => 1,
            OfflineQuality::Kbps160 => 2,
            OfflineQuality::Kbps192 => 3,
            OfflineQuality::Kbps256 => 4,
            OfflineQuality::Kbps320 => 5,
            OfflineQuality::Original => 6,
        }
    }

    /// The value a code stands for, if any.
    pub open spec fn spec_from_code(code: i32) -> Option<Self> {
        if code == 0 {
            Some(OfflineQuality::Unspecified)
        } else if code == 1 {
            Some(OfflineQuality::Kbps128)
        } else if code == 2 {
            Some(OfflineQuality::Kbps160)
        } else if code == 3 {
            Some(OfflineQuality::Kbps192)
        } else if code == 4 {
            Some(OfflineQuality::Kbps256)
        } else if code == 5 {
            Some(OfflineQuality::Kbps320)
        } else if code == 6 {
            Some(OfflineQuality::Original)
        } else {
            None
        }
    }

    pub fn code(self) -> (r: i32)
        ensures
            r == self.spec_code(),
    {
        match self {
            OfflineQuality::Unspecified => 0,
            OfflineQuality::Kbps128 => 1,
            OfflineQuality::Kbps160 => 2,
            OfflineQuality::Kbps192 => 3,
            OfflineQuality::Kbps256 => 4,
            OfflineQuality::Kbps320 => 5,
            OfflineQuality::Original => 6,
        }
    }

    pub fn try_from_code(code: i32) -> (r: Option<Self>)
        ensures
            r == Self::spec_from_code(code),
    {
        if code == 0 {
            Some(OfflineQuality::Unspecified)
        } else if code == 1 {
            Some(OfflineQuality::Kbps128)
        } else if code == 2 {
            Some(OfflineQuality::Kbps160)
        } else if code == 3 {
            Some(OfflineQuality::Kbps192)
        } else if code == 4 {
            Some(OfflineQuality::Kbps256)
        } else if code == 5 {
            Some(OfflineQuality::Kbps320)
        } else if code == 6 {
            Some(OfflineQuality::Original)
        } else {
            None
        }
    }
}

#[derive(Clone, Copy, Debug, PartialEq, Eq, Structural)]
pub enum PlayerBarPosition {
    Unspecified,
    Bottom,
    Top,
}

impl PlayerBarPosition {
    /// The value's code on the wire.
    pub open spec fn spec_code(self) -> i32 {
        match self {
            PlayerBarPosition::Unspecified => 0,
            PlayerBarPosition::Bottom => 1,
            PlayerBarPosition::Top => 2,
        }
    }

    /// The value a code stands for, if any.
    pub open spec fn spec_from_code(code: i32) -> Option<Self> {
        if code == 0 {
            Some(PlayerBarPosition::Unspecified)
        } else if code == 1 {
            Some(PlayerBarPosition::Bottom)
        } else if code == 2 {
            Some(PlayerBarPosition::Top)
        } else {
            None
        }
    }

    pub fn code(self) -> (r: i32)
        ensures
            r == self.spec_code(),
    {
        match self {
            PlayerBarPosition::Unspecified => 0,
            PlayerBarPosition::Bottom => 1,
            PlayerBarPosition::Top => 2,
        }
    }

    pub fn try_from_code(code: i32) -> (r: Option<Self>)
        ensures
            r == Self::spec_from_code(code),
    {
        if code == 0 {
            Some(PlayerBarPosition::Unspecified)
        } else if code == 1 {
            Some(PlayerBarPosition::Bottom)
        } else if code == 2 {
            Some(PlayerBarPosition::Top)
        } else {
            None
        }
    }
}

#[derive(Clone, Copy, Debug, PartialEq, Eq, Structural)]
pub enum SampleRateMode {
    Unspecified,
    System,
    Source,
}

impl SampleRateMode {
    /// The value's code on the wire.
    pub open spec fn spec_code(self) -> i32 {
        match self {
            SampleRateMode::Unspecified => 0,
            SampleRateMode::System => 1,
            SampleRateMode::Source => 2,
        }
    }

    /// The value a code stands for, if any.
    pub open spec fn spec_from_code(code: i32) -> Option<Self> {
        if code == 0 {
            Some(SampleRateMode::Unspecified)
        } else if code == 1 {
            Some(SampleRateMode::System)
        } else if code == 2 {
            Some(SampleRateMode::Source)
        } else {
            None
        }
    }

    pub fn code(self) -> (r: i32)
        ensures
            r == self.spec_code(),
    {
        match self {
            SampleRateMode::Unspecified => 0,
            SampleRateMode::System => 1,
            SampleRateMode::Source => 2,
        }
    }

    pub fn try_from_code(code: i32) -> (r: Option<Self>)
        ensures
            r == Self::spec_from_code(code),
    {
        if code == 0 {
            Some(SampleRateMode::Unspecified)
        } else if code == 1 {
            Some(SampleRateMode::System)
        } else if code == 2 {
            Some(SampleRateMode::Source)
        } else {
            None
        }
    }
}

#[derive(Clone, Copy, Debug, PartialEq, Eq, Structural)]
pub enum SettingsLayout {
    Unspecified,
    Cd,
    TopBar,
}

impl SettingsLayout {
    /// The value's code on the wire.
    pub open spec fn spec_code(self) -> i32 {
        match self {
            SettingsLayout::Unspecified => 0,
            SettingsLayout::Cd => 1,
            SettingsLayout::TopBar => 2,
        }
    }

    /// The value a code stands for, if any.
    pub open spec fn spec_from_code(code: i32) -> Option<Self> {
        if code == 0 {
            Some(SettingsLayout::Unspecified)
        } else if code == 1 {
            Some(SettingsLayout::Cd)
        } else if code == 2 {
            Some(SettingsLayout::TopBar)
        } else {
            None
        }
    }

    pub fn code(self) -> (r: i32)
        ensures
            r == self.spec_code(),
    {
        match self {
            SettingsLayout::Unspecified => 0,
            SettingsLayout::Cd => 1,
            SettingsLayout::TopBar => 2,
        }
    }

    pub fn try_from_code(code: i32) -> (r: Option<Self>)
        ensures
            r == Self::spec_from_code(code),
    {
        if code == 0 {
            Some(SettingsLayout::Unspecified)
        } else if code == 1 {
            Some(SettingsLayout::Cd)
        } else if code == 2 {
            Some(SettingsLayout::TopBar)
        } else {
            None
        }
    }
}

#[derive(Clone, Copy, Debug, PartialEq, Eq, Structural)]
pub enum SortOrder {
    Unspecified,
    Title,
    Artist,
    Album,
}

impl SortOrder {
    /// The value's code on the wire.
    pub open spec fn spec_code(self) -> i32 {
        match self {
            SortOrder::Unspecified => 0,
            SortOrder::Title => 1,
            SortOrder::Artist => 2,
            SortOrder::Album => 3,
        }
    }

    /// The value a code stands for, if any.
    pub open spec fn spec_from_code(code: i32) -> Option<Self> {
        if code == 0 {
            Some(SortOrder::Unspecified)
        } else if code == 1 {
            Some(SortOrder::Title)
        } else if code == 2 {
            Some(SortOrder::Artist)
        } else if code == 3 {
            Some(SortOrder::Album)
        } else {
            None
        }
    }

    pub fn code(self) -> (r: i32)
        ensures
            r == self.spec_code(),
    {
        match self {
            SortOrder::Unspecified => 0,
            SortOrder::Title => 1,
            SortOrder::Artist => 2,
            SortOrder::Album => 3,
        }
    }

    pub fn try_from_code(code: i32) -> (r: Option<Self>)
        ensures
            r == Self::spec_from_code(code),
    {
        if code == 0 {
            Some(SortOrder::Unspecified)
        } else if code == 1 {
            Some(SortOrder::Title)
        } else if code == 2 {
            Some(SortOrder::Artist)
        } else if code == 3 {
            Some(SortOrder::Album)
        } else {
            None
        }
    }
}

#[derive(Clone, Copy, Debug, PartialEq, Eq, Structural)]
pub enum TitlebarMode {
    Unspecified,
    Custom,
    System,
    Off,
}

impl TitlebarMode {
    /// The value's code on the wire.
    pub open spec fn spec_code(self) -> i32 {
        match self {
            TitlebarMode::Unspecified => 0,
            TitlebarMode::Custom => 1,
            TitlebarMode::System => 2,
            TitlebarMode::Off => 3,
        }
    }

    /// The value a code stands for, if any.
    pub open spec fn spec_from_code(code: i32) -> Option<Self> {
        if code == 0 {
            Some(TitlebarMode::Unspecified)
        } else if code == 1 {
            Some(TitlebarMode::Custom)
        } else if code == 2 {
            Some(TitlebarMode::System)
        } else if code == 3 {
            Some(TitlebarMode::Off)
        } else {
            None
        }
    }

    pub fn code(self) -> (r: i32)
        ensures
            r == self.spec_code(),
    {
        match self {
            TitlebarMode::Unspecified => 0,
            TitlebarMode::Custom => 1,
            TitlebarMode::System => 2,
            TitlebarMode::Off => 3,
        }
    }

    pub fn try_from_code(code: i32) -> (r: Option<Self>)
        ensures
            r == Self::spec_from_code(code),
    {
        if code == 0 {
            Some(TitlebarMode::Unspecified)
        } else if code == 1 {
            Some(TitlebarMode::Custom)
        } else if code == 2 {
            Some(TitlebarMode::System)
        } else if code == 3 {
            Some(TitlebarMode::Off)
        } else {
            None
        }
    }
}

#[derive(Clone, Copy, Debug, PartialEq, Eq, Structural)]
pub enum UiStyle {
    Unspecified,
    Normal,
    Vaxry,
}

impl UiStyle {
    /// The value's code on the wire.
    pub open spec fn spec_code(self) -> i32 {
        match self {
            UiStyle::Unspecified => 0,
            UiStyle::Normal => 1,
            UiStyle::Vaxry => 2,
        }
    }

    /// The value a code stands for, if any.
    pub open spec fn spec_from_code(code: i32) -> Option<Self> {
        if code == 0 {
            Some(UiStyle::Unspecified)
        } else if code == 1 {
            Some(UiStyle::Normal)
        } else if code == 2 {
            Some(UiStyle::Vaxry)
        } else {
            None
        }
    }

    pub fn code(self) -> (r: i32)
        ensures
            r == self.spec_code(),
    {
        match self {
            UiStyle::Unspecified => 0,
            UiStyle::Normal => 1,
            UiStyle::Vaxry => 2,
        }
    }

    pub fn try_from_code(code: i32) -> (r: Option<Self>)
        ensures
            r == Self::spec_from_code(code),
    {
        if code == 0 {
            Some(UiStyle::Unspecified)
        } else if code == 1 {
            Some(UiStyle::Normal)
        } else if code == 2 {
            Some(UiStyle::Vaxry)
        } else {
            None
        }
    }
}

#[derive(Clone, Copy, Debug, PartialEq, Eq, Structural)]
pub enum EqPreset {
    Unspecified,
    Flat,
    BassBoost,
    TrebleBoost,
    VocalBoost,
    Loudness,
    Custom,
}

impl EqPreset {
    /// The value's code on the wire.
    pub open spec fn spec_code(self) -> i32 {
        match self {
            EqPreset::Unspecified => 0,
            EqPreset::Flat => 1,
            EqPreset::BassBoost => 2,
            EqPreset::TrebleBoost => 3,
            EqPreset::VocalBoost => 4,
            EqPreset::Loudness => 5,
            EqPreset::Custom => 6,
        }
    }

    /// The value a code stands for, if any.
    pub open spec fn spec_from_code(code: i32) -> Option<Self> {
        if code == 0 {
            Some(EqPreset::Unspecified)
        } else if code == 1 {
            Some(EqPreset::Flat)
        } else if code == 2 {
            Some(EqPreset::BassBoost)
        } else if code == 3 {
            Some(EqPreset::TrebleBoost)
        } else if code == 4 {
            Some(EqPreset::VocalBoost)
        } else if code == 5 {
            Some(EqPreset::Loudness)
        } else if code == 6 {
            Some(EqPreset::Custom)
        } else {
            None
        }
    }

    pub fn code(self) -> (r: i32)
        ensures
            r == self.spec_code(),
    {
        match self {
            EqPreset::Unspecified => 0,
            EqPreset::Flat => 1,
            EqPreset::BassBoost => 2,
            EqPreset::TrebleBoost => 3,
            EqPreset::VocalBoost => 4,
            EqPreset::Loudness => 5,
            EqPreset::Custom => 6,
        }
    }

    pub fn try_from_code(code: i32) -> (r: Option<Self>)
        ensures
            r == Self::spec_from_code(code),
    {
        if code == 0 {
            Some(EqPreset::Unspecified)
        } else if code == 1 {
            Some(EqPreset::Flat)
        } else if code == 2 {
            Some(EqPreset::BassBoost)
        } else if code == 3 {
            Some(EqPreset::TrebleBoost)
        } else if code == 4 {
            Some(EqPreset::VocalBoost)
        } else if code == 5 {
            Some(EqPreset::Loudness)
        } else if code == 6 {
            Some(EqPreset::Custom)
        } else {
            None
        }
    }
}

#[derive(Clone, Copy, Debug, PartialEq, Eq, Structural)]
pub enum SortDirection {
    Unspecified,
    Asc,
    Desc,
}

impl SortDirection {
    /// The value's code on the wire.
    pub open spec fn spec_code(self) -> i32 {
        match self {
            SortDirection::Unspecified => 0,
            SortDirection::Asc => 1,
            SortDirection::Desc => 2,
        }
    }

    /// The value a code stands for, if any.
    pub open spec fn spec_from_code(code: i32) -> Option<Self> {
        if code == 0 {
            Some(SortDirection::Unspecified)
        } else if code == 1 {
            Some(SortDirection::Asc)
        } else if code == 2 {
            Some(SortDirection::Desc)
        } else {
            None
        }
    }

    pub fn code(self) -> (r: i32)
        ensures
            r == self.spec_code(),
    {
        match self {
            SortDirection::Unspecified => 0,
            SortDirection::Asc => 1,
            SortDirection::Desc => 2,
        }
    }

    pub fn try_from_code(code: i32) -> (r: Option<Self>)
        ensures
            r == Self::spec_from_code(code),
    {
        if code == 0 {
            Some(SortDirection::Unspecified)
        } else if code == 1 {
            Some(SortDirection::Asc)
        } else if code == 2 {
            Some(SortDirection::Desc)
        } else {
            None
        }
    }
}

#[derive(Clone, Copy, Debug, PartialEq, Eq, Structural)]
pub enum AlbumSortField {
    Unspecified,
    Title,
    Artist,
    Year,
    Genre,
}

impl AlbumSortField {
    /// The value's code on the wire.
    pub open spec fn spec_code(self) -> i32 {
        match self {
            AlbumSortField::Unspecified => 0,
            AlbumSortField::Title => 1,
            AlbumSortField::Artist => 2,
            AlbumSortField::Year => 3,
            AlbumSortField::Genre => 4,
        }
    }

    /// The value a code stands for, if any.
    pub open spec fn spec_from_code(code: i32) -> Option<Self> {
        if code == 0 {
            Some(AlbumSortField::Unspecified)
        } else if code == 1 {
            Some(AlbumSortField::Title)
        } else if code == 2 {
            Some(AlbumSortField::Artist)
        } else if code == 3 {
            Some(AlbumSortField::Year)
        } else if code == 4 {
            Some(AlbumSortField::Genre)
        } else {
            None
        }
    }

    pub fn code(self) -> (r: i32)
        ensures
            r == self.spec_code(),
    {
        match self {
            AlbumSortField::Unspecified => 0,
            AlbumSortField::Title => 1,
            AlbumSortField::Artist => 2,
            AlbumSortField::Year => 3,
            AlbumSortField::Genre => 4,
        }
    }

    pub fn try_from_code(code: i32) -> (r: Option<Self>)
        ensures
            r == Self::spec_from_code(code),
    {
        if code == 0 {
            Some(AlbumSortField::Unspecified)
        } else if code == 1 {
            Some(AlbumSortField::Title)
        } else if code == 2 {
            Some(AlbumSortField::Artist)
        } else if code == 3 {
            Some(AlbumSortField::Year)
        } else if code == 4 {
            Some(AlbumSortField::Genre)
        } else {
            None
        }
    }
}

#[derive(Clone, Copy, Debug, PartialEq, Eq, Structural)]
pub enum TrackSortField {
    Unspecified,
    Title,
    Artist,
    Album,
    Duration,
    DateAdded,
}

impl TrackSortField {
    /// The value's code on the wire.
    pub open spec fn spec_code(self) -> i32 {
        match self {
            TrackSortField::Unspecified => 0,
            TrackSortField::Title => 1,
            TrackSortField::Artist => 2,
            TrackSortField::Album => 3,
            TrackSortField::Duration => 4,
            TrackSortField::DateAdded => 5,
        }
    }

    /// The value a code stands for, if any.
    pub open spec fn spec_from_code(code: i32) -> Option<Self> {
        if code == 0 {
            Some(TrackSortField::Unspecified)
        } else if code == 1 {
            Some(TrackSortField::Title)
        } else if code == 2 {
            Some(TrackSortField::Artist)
        } else if code == 3 {
            Some(TrackSortField::Album)
        } else if code == 4 {
            Some(TrackSortField::Duration)
        } else if code == 5 {
            Some(TrackSortField::DateAdded)
        } else {
            None
        }
    }

    pub fn code(self) -> (r: i32)
        ensures
            r == self.spec_code(),
    {
        match self {
            TrackSortField::Unspecified => 0,
            TrackSortField::Title => 1,
            TrackSortField::Artist => 2,
            TrackSortField::Album => 3,
            TrackSortField::Duration => 4,
            TrackSortField::DateAdded => 5,
        }
    }

    pub fn try_from_code(code: i32) -> (r: Option<Self>)
        ensures
            r == Self::spec_from_code(code),
    {
        if code == 0 {
            Some(TrackSortField::Unspecified)
        } else if code == 1 {
            Some(TrackSortField::Title)
        } else if code == 2 {
            Some(TrackSortField::Artist)
        } else if code == 3 {
            Some(TrackSortField::Album)
        } else if code == 4 {
            Some(TrackSortField::Duration)
        } else if code == 5 {
            Some(TrackSortField::DateAdded)
        } else {
            None
        }
    }
}

#[derive(Clone, Copy, Debug, PartialEq, Eq, Structural)]
pub enum ArtistSortField {
    Unspecified,
    Name,
    Tracks,
    Albums,
}

impl ArtistSortField {
    /// The value's code on the wire.
    pub open spec fn spec_code(self) -> i32 {
        match self {
            ArtistSortField::Unspecified => 0,
            ArtistSortField::Name => 1,
            ArtistSortField::Tracks => 2,
            ArtistSortField::Albums => 3,
        }
    }

    /// The value a code stands for, if any.
    pub open spec fn spec_from_code(code: i32) -> Option<Self> {
        if code == 0 {
            Some(ArtistSortField::Unspecified)
        } else if code == 1 {
            Some(ArtistSortField::Name)
        } else if code == 2 {
            Some(ArtistSortField::Tracks)
        } else if code == 3 {
            Some(ArtistSortField::Albums)
        } else {
            None
        }
    }

    pub fn code(self) -> (r: i32)
        ensures
            r == self.spec_code(),
    {
        match self {
            ArtistSortField::Unspecified => 0,
            ArtistSortField::Name => 1,
            ArtistSortField::Tracks => 2,
            ArtistSortField::Albums => 3,
        }
    }

    pub fn try_from_code(code: i32) -> (r: Option<Self>)
        ensures
            r == Self::spec_from_code(code),
    {
        if code == 0 {
            Some(ArtistSortField::Unspecified)
        } else if code == 1 {
            Some(ArtistSortField::Name)
        } else if code == 2 {
            Some(ArtistSortField::Tracks)
        } else if code == 3 {
            Some(ArtistSortField::Albums)
        } else {
            None
        }
    }
}

#[derive(Clone, Copy, Debug, PartialEq, Eq, Structural)]
pub struct AlbumSortCriterion {
    pub field: i32,
    pub direction: i32,
}

impl DeepView for AlbumSortCriterion {
    type V = AlbumSortCriterion;

    open spec fn deep_view(&self) -> AlbumSortCriterion {
        *self
    }
}

#[derive(Clone, Copy, Debug, PartialEq, Eq, Structural)]
pub struct TrackSortCriterion {
    pub field: i32,
    pub direction: i32,
}

impl DeepView for TrackSortCriterion {
    type V = TrackSortCriterion;

    open spec fn deep_view(&self) -> TrackSortCriterion {
        *self
    }
}

#[derive(Clone, Copy, Debug, PartialEq, Eq, Structural)]
pub struct ArtistSortCriterion {
    pub field: i32,
    pub direction: i32,
}

impl DeepView for ArtistSortCriterion {
    type V = ArtistSortCriterion;

    open spec fn deep_view(&self) -> ArtistSortCriterion {
        *self
    }
}

/// The empty message.
#[derive(Clone, Copy, Debug, PartialEq, Eq, Structural)]
pub struct Unit {}

/// Which library a client is browsing.
pub enum SourceRefKind {
    Local(Unit),
    LocalLibrary(String),
    Server(String),
}

/// The mathematical value of a [`SourceRefKind`].
pub enum SourceRefKindView {
    Local,
    LocalLibrary(Seq<char>),
    Server(Seq<char>),
}

impl View for SourceRefKind {
    type V = SourceRefKindView;

    open spec fn view(&self) -> SourceRefKindView {
        match self {
            SourceRefKind::Local(_) => SourceRefKindView::Local,
            SourceRefKind::LocalLibrary(id) => SourceRefKindView::LocalLibrary(id@),
            SourceRefKind::Server(id) => SourceRefKindView::Server(id@),
        }
    }
}

impl DeepView for SourceRefKind {
    type V = SourceRefKindView;

    open spec fn deep_view(&self) -> SourceRefKindView {
        self.view()
    }
}

/// A source reference; its kind may be missing on the wire.
pub struct SourceRef {
    pub kind: Option<SourceRefKind>,
}

/// The mathematical value of a [`SourceRef`].
pub struct SourceRefView {
    pub kind: Option<SourceRefKindView>,
}

impl View for SourceRef {
    type V = SourceRefView;

    open spec fn view(&self) -> SourceRefView {
        SourceRefView {
            kind: self.kind.deep_view(),
        }
    }
}

impl DeepView for SourceRef {
    type V = SourceRefView;

    open spec fn deep_view(&self) -> SourceRefView {
        self.view()
    }
}

/// A list of strings, for map values that are lists.
pub struct StringList {
    pub values: Vec<String>,
}

/// The mathematical value of a [`StringList`]: strings as character sequences.
pub struct StringListView {
    pub values: Seq<Seq<char>>,
}

impl View for StringList {
    type V = StringListView;

    open spec fn view(&self) -> StringListView {
        StringListView {
            values: items(self.values),
        }
    }
}

impl DeepView for StringList {
    type V = StringListView;

    open spec fn deep_view(&self) -> StringListView {
        self.view()
    }
}

/// A saved local library: its id, display name and folders.
pub struct SavedLocalSource {
    pub id: String,
    pub name: String,
    pub directories: Vec<String>,
}

/// The mathematical value of a [`SavedLocalSource`]: strings as character sequences.
pub struct SavedLocalSourceView {
    pub id: Seq<char>,
    pub name: Seq<char>,
    pub directories: Seq<Seq<char>>,
}

impl View for SavedLocalSource {
    type V = SavedLocalSourceView;

    open spec fn view(&self) -> SavedLocalSourceView {
        SavedLocalSourceView {
            id: self.id@,
            name: self.name@,
            directories: items(self.directories),
        }
    }
}

impl DeepView for SavedLocalSource {
    type V = SavedLocalSourceView;

    open spec fn deep_view(&self) -> SavedLocalSourceView {
        self.view()
    }
}

/// One section of the home page and whether it is shown.
pub struct HomeSection {
    pub key: String,
    pub enabled: bool,
}

/// The mathematical value of a [`HomeSection`]: strings as character sequences.
pub struct HomeSectionView {
    pub key: Seq<char>,
    pub enabled: Switch,
}

impl View for HomeSection {
    type V = HomeSectionView;

    open spec fn view(&self) -> HomeSectionView {
        HomeSectionView {
            key: self.key@,
            enabled: switch(self.enabled),
        }
    }
}

impl DeepView for HomeSection {
    type V = HomeSectionView;

    open spec fn deep_view(&self) -> HomeSectionView {
        self.view()
    }
}

/// A radio station registry the app reads stations from.
pub struct RegistryEntry {
    pub url: String,
    pub enabled: bool,
    pub is_default: bool,
}

/// The mathematical value of a [`RegistryEntry`]: strings as character sequences.
pub struct RegistryEntryView {
    pub url: Seq<char>,
    pub enabled: Switch,
    pub is_default: Switch,
}

impl View for RegistryEntry {
    type V = RegistryEntryView;

    open spec fn view(&self) -> RegistryEntryView {
        RegistryEntryView {
            url: self.url@,
            enabled: switch(self.enabled),
            is_default: switch(self.is_default),
        }
    }
}

impl DeepView for RegistryEntry {
    type V = RegistryEntryView;

    open spec fn deep_view(&self) -> RegistryEntryView {
        self.view()
    }
}

/// A user theme: a name and its CSS variables, in order.
pub struct CustomTheme {
    pub name: String,
    pub vars: Vec<(String, String)>,
}

/// The mathematical value of a [`CustomTheme`]: strings as character sequences.
pub struct CustomThemeView {
    pub name: Seq<char>,
    pub vars: Seq<(Seq<char>, Seq<char>)>,
}

impl View for CustomTheme {
    type V = CustomThemeView;

    open spec fn view(&self) -> CustomThemeView {
        CustomThemeView {
            name: self.name@,
            vars: items(self.vars),
        }
    }
}

impl DeepView for CustomTheme {
    type V = CustomThemeView;

    open spec fn deep_view(&self) -> CustomThemeView {
        self.view()
    }
}

/// One past yt-dlp download as shown in the history list.
pub struct YtdlpHistoryEntry {
    pub url: String,
    pub title: String,
    pub format: String,
    pub status: String,
    pub error: Option<String>,
}

/// The mathematical value of a [`YtdlpHistoryEntry`]: strings as character sequences.
pub struct YtdlpHistoryEntryView {
    pub url: Seq<char>,
    pub title: Seq<char>,
    pub format: Seq<char>,
    pub status: Seq<char>,
    pub error: Option<Seq<char>>,
}

impl View for YtdlpHistoryEntry {
    type V = YtdlpHistoryEntryView;

    open spec fn view(&self) -> YtdlpHistoryEntryView {
        YtdlpHistoryEntryView {
            url: self.url@,
            title: self.title@,
            format: self.format@,
            status: self.status@,
            error: self.error.deep_view(),
        }
    }
}

impl DeepView for YtdlpHistoryEntry {
    type V = YtdlpHistoryEntryView;

    open spec fn deep_view(&self) -> YtdlpHistoryEntryView {
        self.view()
    }
}

/// The equalizer as sent: the preset as a code and the gains as a list.
pub struct EqualizerSettings {
    pub enabled: bool,
    pub preset: i32,
    pub bands: Vec<u32>,
    pub preamp_db: u32,
}

pub struct EqualizerSettingsView {
    pub enabled: Switch,
    pub preset: i32,
    pub bands: Seq<u32>,
    pub preamp_db: u32,
}

impl View for EqualizerSettings {
    type V = EqualizerSettingsView;

    open spec fn view(&self) -> EqualizerSettingsView {
        EqualizerSettingsView {
            enabled: switch(self.enabled),
            preset: self.preset,
            bands: self.bands@,
            preamp_db: self.preamp_db,
        }
    }
}

impl DeepView for EqualizerSettings {
    type V = EqualizerSettingsView;

    open spec fn deep_view(&self) -> EqualizerSettingsView {
        self.view()
    }
}

/// The yt-dlp options as sent.
pub struct YtdlpOptions {
    pub embed_metadata: bool,
    pub embed_thumbnail: bool,
    pub postprocess_thumbnail_square: bool,
    pub embed_chapters: bool,
    pub embed_subs: bool,
    pub embed_info_json: bool,
    pub write_thumbnail: bool,
    pub write_description: bool,
    pub write_info_json: bool,
    pub write_subs: bool,
    pub write_auto_subs: bool,
    pub write_comments: bool,
    pub sponsorblock: bool,
    pub sponsorblock_mark: bool,
    pub split_chapters: bool,
    pub convert_thumbnail: String,
    pub no_playlist: bool,
    pub xattrs: bool,
    pub no_mtime: bool,
    pub rate_limit: Option<String>,
    pub cookies_from_browser: Option<String>,
    pub js_runtimes: Option<String>,
    pub audio_quality: u32,
}

/// The mathematical value of a [`YtdlpOptions`]: strings as character sequences.
pub struct YtdlpOptionsView {
    pub embed_metadata: Switch,
    pub embed_thumbnail: Switch,
    pub postprocess_thumbnail_square: Switch,
    pub embed_chapters: Switch,
    pub embed_subs: Switch,
    pub embed_info_json: Switch,
    pub write_thumbnail: Switch,
    pub write_description: Switch,
    pub write_info_json: Switch,
    pub write_subs: Switch,
    pub write_auto_subs: Switch,
    pub write_comments: Switch,
    pub sponsorblock: Switch,
    pub sponsorblock_mark: Switch,
    pub split_chapters: Switch,
    pub convert_thumbnail: Seq<char>,
    pub no_playlist: Switch,
    pub xattrs: Switch,
    pub no_mtime: Switch,
    pub rate_limit: Option<Seq<char>>,
    pub cookies_from_browser: Option<Seq<char>>,
    pub js_runtimes: Option<Seq<char>>,
    pub audio_quality: u32,
}

impl View for YtdlpOptions {
    type V = YtdlpOptionsView;

    open spec fn view(&self) -> YtdlpOptionsView {
        YtdlpOptionsView {
            embed_metadata: switch(self.embed_metadata),
            embed_thumbnail: switch(self.embed_thumbnail),
            postprocess_thumbnail_square: switch(self.postprocess_thumbnail_square),
            embed_chapters: switch(self.embed_chapters),
            embed_subs: switch(self.embed_subs),
            embed_info_json: switch(self.embed_info_json),
            write_thumbnail: switch(self.write_thumbnail),
            write_description: switch(self.write_description),
            write_info_json: switch(self.write_info_json),
            write_subs: switch(self.write_subs),
            write_auto_subs: switch(self.write_auto_subs),
            write_comments: switch(self.write_comments),
            sponsorblock: switch(self.sponsorblock),
            sponsorblock_mark: switch(self.sponsorblock_mark),
            split_chapters: switch(self.split_chapters),
            convert_thumbnail: self.convert_thumbnail@,
            no_playlist: switch(self.no_playlist),
            xattrs: switch(self.xattrs),
            no_mtime: switch(self.no_mtime),
            rate_limit: self.rate_limit.deep_view(),
            cookies_from_browser: self.cookies_from_browser.deep_view(),
            js_runtimes: self.js_runtimes.deep_view(),
            audio_quality: self.audio_quality,
        }
    }
}

impl DeepView for YtdlpOptions {
    type V = YtdlpOptionsView;

    open spec fn deep_view(&self) -> YtdlpOptionsView {
        self.view()
    }
}

/// The settings message.
pub struct Config {
    pub local_sources: Vec<SavedLocalSource>,
    pub active_source: Option<SourceRef>,
    pub source_explicitly_set: bool,
    pub server_folders: Vec<(String, StringList)>,
    pub spotify_browser: Option<String>,
    pub spotify_prefer_active_device: bool,
    pub music_directory: Vec<String>,
    pub theme: String,
    pub live_theme_path: Option<String>,
    pub device_id: String,
    pub discord_presence: bool,
    pub discord_presence_paused: bool,
    pub discord_presence_source: bool,
    pub sort_order: i32,
    pub album_sort: Vec<AlbumSortCriterion>,
    pub library_sort: Vec<TrackSortCriterion>,
    pub artist_album_sort: Vec<AlbumSortCriterion>,
    pub artist_sort: Vec<ArtistSortCriterion>,
    pub album_view_mode: i32,
    pub artist_album_view_mode: i32,
    pub artists_view_mode: i32,
    pub artist_view_order: i32,
    pub listen_counts: Vec<(String, u32)>,
    pub language: String,
    pub reduce_animations: bool,
    pub fullscreen_use_player_bar: bool,
    pub fullscreen_tabs_collapsed: bool,
    pub cover_art_background: bool,
    pub cover_art_darkening: u32,
    pub cover_art_blur: u32,
    pub custom_background_path: Option<String>,
    pub custom_font_path: Option<String>,
    pub tracing_enabled: bool,
    pub auto_check_updates: bool,
    pub minimize_to_tray: bool,
    pub show_source_toggle: bool,
    pub show_row_images: bool,
    pub sidebar_order: Vec<String>,
    pub volume: u32,
    pub volume_scroll_step: u32,
    pub crossfade_seconds: u32,
    pub custom_themes: Vec<(String, CustomTheme)>,
    pub back_behavior: i32,
    pub channel_mode: i32,
    pub equalizer: Option<EqualizerSettings>,
    pub device_change_behavior: i32,
    pub sample_rate_mode: i32,
    pub ytdlp_output_dir: Option<String>,
    pub ytdlp_options: Option<YtdlpOptions>,
    pub ytdlp_history: Vec<YtdlpHistoryEntry>,
    pub titlebar_mode: i32,
    pub offline_quality: i32,
    pub player_bar_position: i32,
    pub ui_style: i32,
    pub settings_layout: i32,
    pub hero_height: u32,
    pub home_sections: Vec<HomeSection>,
    pub listen_now_style: i32,
    pub auto_fetch_covers: bool,
    pub cover_fetch_strategy: i32,
    pub radio_registries: Vec<RegistryEntry>,
    pub pinned_stations: Vec<String>,
    pub prefer_local_lyrics: bool,
    pub enable_musixmatch_lyrics: bool,
    pub lyrics_offset_ms: i64,
    pub lyrics_offset_auto: bool,
    pub lyrics_depth_blur: bool,
    pub lyrics_depth_blur_strength: u32,
}

/// The mathematical value of a [`Config`]: strings as character sequences.
pub struct ConfigView {
    pub local_sources: Seq<SavedLocalSourceView>,
    pub active_source: Option<SourceRefView>,
    pub source_explicitly_set: Switch,
    pub server_folders: Seq<(Seq<char>, StringListView)>,
    pub spotify_browser: Option<Seq<char>>,
    pub spotify_prefer_active_device: Switch,
    pub music_directory: Seq<Seq<char>>,
    pub theme: Seq<char>,
    pub live_theme_path: Option<Seq<char>>,
    pub device_id: Seq<char>,
    pub discord_presence: Switch,
    pub discord_presence_paused: Switch,
    pub discord_presence_source: Switch,
    pub sort_order: i32,
    pub album_sort: Seq<AlbumSortCriterion>,
    pub library_sort: Seq<TrackSortCriterion>,
    pub artist_album_sort: Seq<AlbumSortCriterion>,
    pub artist_sort: Seq<ArtistSortCriterion>,
    pub album_view_mode: i32,
    pub artist_album_view_mode: i32,
    pub artists_view_mode: i32,
    pub artist_view_order: i32,
    pub listen_counts: Seq<(Seq<char>, u32)>,
    pub language: Seq<char>,
    pub reduce_animations: Switch,
    pub fullscreen_use_player_bar: Switch,
    pub fullscreen_tabs_collapsed: Switch,
    pub cover_art_background: Switch,
    pub cover_art_darkening: u32,
    pub cover_art_blur: u32,
    pub custom_background_path: Option<Seq<char>>,
    pub custom_font_path: Option<Seq<char>>,
    pub tracing_enabled: Switch,
    pub auto_check_updates: Switch,
    pub minimize_to_tray: Switch,
    pub show_source_toggle: Switch,
    pub show_row_images: Switch,
    pub sidebar_order: Seq<Seq<char>>,
    pub volume: u32,
    pub volume_scroll_step: u32,
    pub crossfade_seconds: u32,
    pub custom_themes: Seq<(Seq<char>, CustomThemeView)>,
    pub back_behavior: i32,
    pub channel_mode: i32,
    pub equalizer: Option<EqualizerSettingsView>,
    pub device_change_behavior: i32,
    pub sample_rate_mode: i32,
    pub ytdlp_output_dir: Option<Seq<char>>,
    pub ytdlp_options: Option<YtdlpOptionsView>,
    pub ytdlp_history: Seq<YtdlpHistoryEntryView>,
    pub titlebar_mode: i32,
    pub offline_quality: i32,
    pub player_bar_position: i32,
    pub ui_style: i32,
    pub settings_layout: i32,
    pub hero_height: u32,
    pub home_sections: Seq<HomeSectionView>,
    pub listen_now_style: i32,
    pub auto_fetch_covers: Switch,
    pub cover_fetch_strategy: i32,
    pub radio_registries: Seq<RegistryEntryView>,
    pub pinned_stations: Seq<Seq<char>>,
    pub prefer_local_lyrics: Switch,
    pub enable_musixmatch_lyrics: Switch,
    pub lyrics_offset_ms: i64,
    pub lyrics_offset_auto: Switch,
    pub lyrics_depth_blur: Switch,
    pub lyrics_depth_blur_strength: u32,
}

impl View for Config {
    type V = ConfigView;

    open spec fn view(&self) -> ConfigView {
        ConfigView {
            local_sources: items(self.local_sources),
            active_source: self.active_source.deep_view(),
            source_explicitly_set: switch(self.source_explicitly_set),
            server_folders: items(self.server_folders),
            spotify_browser: self.spotify_browser.deep_view(),
            spotify_prefer_active_device: switch(self.spotify_prefer_active_device),
            music_directory: items(self.music_directory),
            theme: self.theme@,
            live_theme_path: self.live_theme_path.deep_view(),
            device_id: self.device_id@,
            discord_presence: switch(self.discord_presence),
            discord_presence_paused: switch(self.discord_presence_paused),
            discord_presence_source: switch(self.discord_presence_source),
            sort_order: self.sort_order,
            album_sort: items(self.album_sort),
            library_sort: items(self.library_sort),
            artist_album_sort: items(self.artist_album_sort),
            artist_sort: items(self.artist_sort),
            album_view_mode: self.album_view_mode,
            artist_album_view_mode: self.artist_album_view_mode,
            artists_view_mode: self.artists_view_mode,
            artist_view_order: self.artist_view_order,
            listen_counts: items(self.listen_counts),
            language: self.language@,
            reduce_animations: switch(self.reduce_animations),
            fullscreen_use_player_bar: switch(self.fullscreen_use_player_bar),
            fullscreen_tabs_collapsed: switch(self.fullscreen_tabs_collapsed),
            cover_art_background: switch(self.cover_art_background),
            cover_art_darkening: self.cover_art_darkening,
            cover_art_blur: self.cover_art_blur,
            custom_background_path: self.custom_background_path.deep_view(),
            custom_font_path: self.custom_font_path.deep_view(),
            tracing_enabled: switch(self.tracing_enabled),
            auto_check_updates: switch(self.auto_check_updates),
            minimize_to_tray: switch(self.minimize_to_tray),
            show_source_toggle: switch(self.show_source_toggle),
            show_row_images: switch(self.show_row_images),
            sidebar_order: items(self.sidebar_order),
            volume: self.volume,
            volume_scroll_step: self.volume_scroll_step,
            crossfade_seconds: self.crossfade_seconds,
            custom_themes: items(self.custom_themes),
            back_behavior: self.back_behavior,
            channel_mode: self.channel_mode,
            equalizer: self.equalizer.deep_view(),
            device_change_behavior: self.device_change_behavior,
            sample_rate_mode: self.sample_rate_mode,
            ytdlp_output_dir: self.ytdlp_output_dir.deep_view(),
            ytdlp_options: self.ytdlp_options.deep_view(),
            ytdlp_history: items(self.ytdlp_history),
            titlebar_mode: self.titlebar_mode,
            offline_quality: self.offline_quality,
            player_bar_position: self.player_bar_position,
            ui_style: self.ui_style,
            settings_layout: self.settings_layout,
            hero_height: self.hero_height,
            home_sections: items(self.home_sections),
            listen_now_style: self.listen_now_style,
            auto_fetch_covers: switch(self.auto_fetch_covers),
            cover_fetch_strategy: self.cover_fetch_strategy,
            radio_registries: items(self.radio_registries),
            pinned_stations: items(self.pinned_stations),
            prefer_local_lyrics: switch(self.prefer_local_lyrics),
            enable_musixmatch_lyrics: switch(self.enable_musixmatch_lyrics),
            lyrics_offset_ms: self.lyrics_offset_ms,
            lyrics_offset_auto: switch(self.lyrics_offset_auto),
            lyrics_depth_blur: switch(self.lyrics_depth_blur),
            lyrics_depth_blur_strength: self.lyrics_depth_blur_strength,
        }
    }
}

impl DeepView for Config {
    type V = ConfigView;

    open spec fn deep_view(&self) -> ConfigView {
        self.view()
    }
}

#[derive(Clone, Copy, Debug, PartialEq, Eq, Structural)]
pub enum Phase {
    Unspecified,
    Idle,
    Playing,
    Paused,
    Ended,
}

impl Phase {
    /// The value's code on the wire.
    pub open spec fn spec_code(self) -> i32 {
        match self {
            Phase::Unspecified => 0,
            Phase::Idle => 1,
            Phase::Playing => 2,
            Phase::Paused => 3,
            Phase::Ended => 4,
        }
    }

    /// The value a code stands for, if any.
    pub open spec fn spec_from_code(code: i32) -> Option<Self> {
        if code == 0 {
            Some(Phase::Unspecified)
        } else if code == 1 {
            Some(Phase::Idle)
        } else if code == 2 {
            Some(Phase::Playing)
        } else if code == 3 {
            Some(Phase::Paused)
        } else if code == 4 {
            Some(Phase::Ended)
        } else {
            None
        }
    }

    pub fn code(self) -> (r: i32)
        ensures
            r == self.spec_code(),
    {
        match self {
            Phase::Unspecified => 0,
            Phase::Idle => 1,
            Phase::Playing => 2,
            Phase::Paused => 3,
            Phase::Ended => 4,
        }
    }

    pub fn try_from_code(code: i32) -> (r: Option<Self>)
        ensures
            r == Self::spec_from_code(code),
    {
        if code == 0 {
            Some(Phase::Unspecified)
        } else if code == 1 {
            Some(Phase::Idle)
        } else if code == 2 {
            Some(Phase::Playing)
        } else if code == 3 {
            Some(Phase::Paused)
        } else if code == 4 {
            Some(Phase::Ended)
        } else {
            None
        }
    }
}

#[derive(Clone, Copy, Debug, PartialEq, Eq, Structural)]
pub enum LoopMode {
    Unspecified,
    Off,
    Queue,
    Track,
}

impl LoopMode {
    /// The value's code on the wire.
    pub open spec fn spec_code(self) -> i32 {
        match self {
            LoopMode::Unspecified => 0,
            LoopMode::Off => 1,
            LoopMode::Queue => 2,
            LoopMode::Track => 3,
        }
    }

    /// The value a code stands for, if any.
    pub open spec fn spec_from_code(code: i32) -> Option<Self> {
        if code == 0 {
            Some(LoopMode::Unspecified)
        } else if code == 1 {
            Some(LoopMode::Off)
        } else if code == 2 {
            Some(LoopMode::Queue)
        } else if code == 3 {
            Some(LoopMode::Track)
        } else {
            None
        }
    }

    pub fn code(self) -> (r: i32)
        ensures
            r == self.spec_code(),
    {
        match self {
            LoopMode::Unspecified => 0,
            LoopMode::Off => 1,
            LoopMode::Queue => 2,
            LoopMode::Track => 3,
        }
    }

    pub fn try_from_code(code: i32) -> (r: Option<Self>)
        ensures
            r == Self::spec_from_code(code),
    {
        if code == 0 {
            Some(LoopMode::Unspecified)
        } else if code == 1 {
            Some(LoopMode::Off)
        } else if code == 2 {
            Some(LoopMode::Queue)
        } else if code == 3 {
            Some(LoopMode::Track)
        } else {
            None
        }
    }
}

#[derive(Clone, Copy, Debug, PartialEq, Eq, Structural)]
pub enum TrackKind {
    Unspecified,
    Normal,
    Radio,
}

impl TrackKind {
    /// The value's code on the wire.
    pub open spec fn spec_code(self) -> i32 {
        match self {
            TrackKind::Unspecified => 0,
            TrackKind::Normal => 1,
            TrackKind::Radio => 2,
        }
    }

    /// The value a code stands for, if any.
    pub open spec fn spec_from_code(code: i32) -> Option<Self> {
        if code == 0 {
            Some(TrackKind::Unspecified)
        } else if code == 1 {
            Some(TrackKind::Normal)
        } else if code == 2 {
            Some(TrackKind::Radio)
        } else {
            None
        }
    }

    pub fn code(self) -> (r: i32)
        ensures
            r == self.spec_code(),
    {
        match self {
            TrackKind::Unspecified => 0,
            TrackKind::Normal => 1,
            TrackKind::Radio => 2,
        }
    }

    pub fn try_from_code(code: i32) -> (r: Option<Self>)
        ensures
            r == Self::spec_from_code(code),
    {
        if code == 0 {
            Some(TrackKind::Unspecified)
        } else if code == 1 {
            Some(TrackKind::Normal)
        } else if code == 2 {
            Some(TrackKind::Radio)
        } else {
            None
        }
    }
}

#[derive(Clone, Copy, Debug, PartialEq, Eq, Structural)]
pub enum QueueMode {
    Unspecified,
    Replace,
    Append,
    PlayNext,
}

impl QueueMode {
    /// The value's code on the wire.
    pub open spec fn spec_code(self) -> i32 {
        match self {
            QueueMode::Unspecified => 0,
            QueueMode::Replace => 1,
            QueueMode::Append => 2,
            QueueMode::PlayNext => 3,
        }
    }

    /// The value a code stands for, if any.
    pub open spec fn spec_from_code(code: i32) -> Option<Self> {
        if code == 0 {
            Some(QueueMode::Unspecified)
        } else if code == 1 {
            Some(QueueMode::Replace)
        } else if code == 2 {
            Some(QueueMode::Append)
        } else if code == 3 {
            Some(QueueMode::PlayNext)
        } else {
            None
        }
    }

    pub fn code(self) -> (r: i32)
        ensures
            r == self.spec_code(),
    {
        match self {
            QueueMode::Unspecified => 0,
            QueueMode::Replace => 1,
            QueueMode::Append => 2,
            QueueMode::PlayNext => 3,
        }
    }

    pub fn try_from_code(code: i32) -> (r: Option<Self>)
        ensures
            r == Self::spec_from_code(code),
    {
        if code == 0 {
            Some(QueueMode::Unspecified)
        } else if code == 1 {
            Some(QueueMode::Replace)
        } else if code == 2 {
            Some(QueueMode::Append)
        } else if code == 3 {
            Some(QueueMode::PlayNext)
        } else {
            None
        }
    }
}

#[derive(Clone, Copy, Debug, PartialEq, Eq, Structural)]
pub enum Table {
    Unspecified,
    Tracks,
    Albums,
    Playlists,
    Favorites,
    Folders,
    Servers,
    Recents,
}

impl Table {
    /// The value's code on the wire.
    pub open spec fn spec_code(self) -> i32 {
        match self {
            Table::Unspecified => 0,
            Table::Tracks => 1,
            Table::Albums => 2,
            Table::Playlists => 3,
            Table::Favorites => 4,
            Table::Folders => 5,
            Table::Servers => 6,
            Table::Recents => 7,
        }
    }

    /// The value a code stands for, if any.
    pub open spec fn spec_from_code(code: i32) -> Option<Self> {
        if code == 0 {
            Some(Table::Unspecified)
        } else if code == 1 {
            Some(Table::Tracks)
        } else if code == 2 {
            Some(Table::Albums)
        } else if code == 3 {
            Some(Table::Playlists)
        } else if code == 4 {
            Some(Table::Favorites)
        } else if code == 5 {
            Some(Table::Folders)
        } else if code == 6 {
            Some(Table::Servers)
        } else if code == 7 {
            Some(Table::Recents)
        } else {
            None
        }
    }

    pub fn code(self) -> (r: i32)
        ensures
            r == self.spec_code(),
    {
        match self {
            Table::Unspecified => 0,
            Table::Tracks => 1,
            Table::Albums => 2,
            Table::Playlists => 3,
            Table::Favorites => 4,
            Table::Folders => 5,
            Table::Servers => 6,
            Table::Recents => 7,
        }
    }

    pub fn try_from_code(code: i32) -> (r: Option<Self>)
        ensures
            r == Self::spec_from_code(code),
    {
        if code == 0 {
            Some(Table::Unspecified)
        } else if code == 1 {
            Some(Table::Tracks)
        } else if code == 2 {
            Some(Table::Albums)
        } else if code == 3 {
            Some(Table::Playlists)
        } else if code == 4 {
            Some(Table::Favorites)
        } else if code == 5 {
            Some(Table::Folders)
        } else if code == 6 {
            Some(Table::Servers)
        } else if code == 7 {
            Some(Table::Recents)
        } else {
            None
        }
    }
}

#[derive(Clone, Copy, Debug, PartialEq, Eq, Structural)]
pub enum JobKind {
    Unspecified,
    Scan,
    LibrarySync,
    FavoritesSync,
    PlaylistSync,
    Download,
}

impl JobKind {
    /// The value's code on the wire.
    pub open spec fn spec_code(self) -> i32 {
        match self {
            JobKind::Unspecified => 0,
            JobKind::Scan => 1,
            JobKind::LibrarySync => 2,
            JobKind::FavoritesSync => 3,
            JobKind::PlaylistSync => 4,
            JobKind::Download => 5,
        }
    }

    /// The value a code stands for, if any.
    pub open spec fn spec_from_code(code: i32) -> Option<Self> {
        if code == 0 {
            Some(JobKind::Unspecified)
        } else if code == 1 {
            Some(JobKind::Scan)
        } else if code == 2 {
            Some(JobKind::LibrarySync)
        } else if code == 3 {
            Some(JobKind::FavoritesSync)
        } else if code == 4 {
            Some(JobKind::PlaylistSync)
        } else if code == 5 {
            Some(JobKind::Download)
        } else {
            None
        }
    }

    pub fn code(self) -> (r: i32)
        ensures
            r == self.spec_code(),
    {
        match self {
            JobKind::Unspecified => 0,
            JobKind::Scan => 1,
            JobKind::LibrarySync => 2,
            JobKind::FavoritesSync => 3,
            JobKind::PlaylistSync => 4,
            JobKind::Download => 5,
        }
    }

    pub fn try_from_code(code: i32) -> (r: Option<Self>)
        ensures
            r == Self::spec_from_code(code),
    {
        if code == 0 {
            Some(JobKind::Unspecified)
        } else if code == 1 {
            Some(JobKind::Scan)
        } else if code == 2 {
            Some(JobKind::LibrarySync)
        } else if code == 3 {
            Some(JobKind::FavoritesSync)
        } else if code == 4 {
            Some(JobKind::PlaylistSync)
        } else if code == 5 {
            Some(JobKind::Download)
        } else {
            None
        }
    }
}

#[derive(Clone, Copy, Debug, PartialEq, Eq, Structural)]
pub enum JobState {
    Unspecified,
    Running,
    Finished,
    Failed,
    Cancelled,
}

impl JobState {
    /// The value's code on the wire.
    pub open spec fn spec_code(self) -> i32 {
        match self {
            JobState::Unspecified => 0,
            JobState::Running => 1,
            JobState::Finished => 2,
            JobState::Failed => 3,
            JobState::Cancelled => 4,
        }
    }

    /// The value a code stands for, if any.
    pub open spec fn spec_from_code(code: i32) -> Option<Self> {
        if code == 0 {
            Some(JobState::Unspecified)
        } else if code == 1 {
            Some(JobState::Running)
        } else if code == 2 {
            Some(JobState::Finished)
        } else if code == 3 {
            Some(JobState::Failed)
        } else if code == 4 {
            Some(JobState::Cancelled)
        } else {
            None
        }
    }

    pub fn code(self) -> (r: i32)
        ensures
            r == self.spec_code(),
    {
        match self {
            JobState::Unspecified => 0,
            JobState::Running => 1,
            JobState::Finished => 2,
            JobState::Failed => 3,
            JobState::Cancelled => 4,
        }
    }

    pub fn try_from_code(code: i32) -> (r: Option<Self>)
        ensures
            r == Self::spec_from_code(code),
    {
        if code == 0 {
            Some(JobState::Unspecified)
        } else if code == 1 {
            Some(JobState::Running)
        } else if code == 2 {
            Some(JobState::Finished)
        } else if code == 3 {
            Some(JobState::Failed)
        } else if code == 4 {
            Some(JobState::Cancelled)
        } else {
            None
        }
    }
}

#[derive(Clone, Copy, Debug, PartialEq, Eq, Structural)]
pub enum SourceState {
    Unspecified,
    Online,
    AuthExpired,
    Offline,
}

impl SourceState {
    /// The value's code on the wire.
    pub open spec fn spec_code(self) -> i32 {
        match self {
            SourceState::Unspecified => 0,
            SourceState::Online => 1,
            SourceState::AuthExpired => 2,
            SourceState::Offline => 3,
        }
    }

    /// The value a code stands for, if any.
    pub open spec fn spec_from_code(code: i32) -> Option<Self> {
        if code == 0 {
            Some(SourceState::Unspecified)
        } else if code == 1 {
            Some(SourceState::Online)
        } else if code == 2 {
            Some(SourceState::AuthExpired)
        } else if code == 3 {
            Some(SourceState::Offline)
        } else {
            None
        }
    }

    pub fn code(self) -> (r: i32)
        ensures
            r == self.spec_code(),
    {
        match self {
            SourceState::Unspecified => 0,
            SourceState::Online => 1,
            SourceState::AuthExpired => 2,
            SourceState::Offline => 3,
        }
    }

    pub fn try_from_code(code: i32) -> (r: Option<Self>)
        ensures
            r == Self::spec_from_code(code),
    {
        if code == 0 {
            Some(SourceState::Unspecified)
        } else if code == 1 {
            Some(SourceState::Online)
        } else if code == 2 {
            Some(SourceState::AuthExpired)
        } else if code == 3 {
            Some(SourceState::Offline)
        } else {
            None
        }
    }
}

#[derive(Clone, Copy, Debug, PartialEq, Eq, Structural)]
pub enum NoticeLevel {
    Unspecified,
    Info,
    Warning,
    Error,
}

impl NoticeLevel {
    /// The value's code on the wire.
    pub open spec fn spec_code(self) -> i32 {
        match self {
            NoticeLevel::Unspecified => 0,
            NoticeLevel::Info => 1,
            NoticeLevel::Warning => 2,
            NoticeLevel::Error => 3,
        }
    }

    /// The value a code stands for, if any.
    pub open spec fn spec_from_code(code: i32) -> Option<Self> {
        if code == 0 {
            Some(NoticeLevel::Unspecified)
        } else if code == 1 {
            Some(NoticeLevel::Info)
        } else if code == 2 {
            Some(NoticeLevel::Warning)
        } else if code == 3 {
            Some(NoticeLevel::Error)
        } else {
            None
        }
    }

    pub fn code(self) -> (r: i32)
        ensures
            r == self.spec_code(),
    {
        match self {
            NoticeLevel::Unspecified => 0,
            NoticeLevel::Info => 1,
            NoticeLevel::Warning => 2,
            NoticeLevel::Error => 3,
        }
    }

    pub fn try_from_code(code: i32) -> (r: Option<Self>)
        ensures
            r == Self::spec_from_code(code),
    {
        if code == 0 {
            Some(NoticeLevel::Unspecified)
        } else if code == 1 {
            Some(NoticeLevel::Info)
        } else if code == 2 {
            Some(NoticeLevel::Warning)
        } else if code == 3 {
            Some(NoticeLevel::Error)
        } else {
            None
        }
    }
}

#[derive(Clone, Copy, Debug, PartialEq, Eq, Structural)]
pub enum ErrorCode {
    Unspecified,
    InvalidInput,
    NotFound,
    Conflict,
    SourceAuthExpired,
    SourceUnreachable,
    DaemonGone,
    Unsupported,
    Internal,
}

impl ErrorCode {
    /// The value's code on the wire.
    pub open spec fn spec_code(self) -> i32 {
        match self {
            ErrorCode::Unspecified => 0,
            ErrorCode::InvalidInput => 1,
            ErrorCode::NotFound => 2,
            ErrorCode::Conflict => 3,
            ErrorCode::SourceAuthExpired => 4,
            ErrorCode::SourceUnreachable => 5,
            ErrorCode::DaemonGone => 6,
            ErrorCode::Unsupported => 7,
            ErrorCode::Internal => 8,
        }
    }

    /// The value a code stands for, if any.
    pub open spec fn spec_from_code(code: i32) -> Option<Self> {
        if code == 0 {
            Some(ErrorCode::Unspecified)
        } else if code == 1 {
            Some(ErrorCode::InvalidInput)
        } else if code == 2 {
            Some(ErrorCode::NotFound)
        } else if code == 3 {
            Some(ErrorCode::Conflict)
        } else if code == 4 {
            Some(ErrorCode::SourceAuthExpired)
        } else if code == 5 {
            Some(ErrorCode::SourceUnreachable)
        } else if code == 6 {
            Some(ErrorCode::DaemonGone)
        } else if code == 7 {
            Some(ErrorCode::Unsupported)
        } else if code == 8 {
            Some(ErrorCode::Internal)
        } else {
            None
        }
    }

    pub fn code(self) -> (r: i32)
        ensures
            r == self.spec_code(),
    {
        match self {
            ErrorCode::Unspecified => 0,
            ErrorCode::InvalidInput => 1,
            ErrorCode::NotFound => 2,
            ErrorCode::Conflict => 3,
            ErrorCode::SourceAuthExpired => 4,
            ErrorCode::SourceUnreachable => 5,
            ErrorCode::DaemonGone => 6,
            ErrorCode::Unsupported => 7,
            ErrorCode::Internal => 8,
        }
    }

    pub fn try_from_code(code: i32) -> (r: Option<Self>)
        ensures
            r == Self::spec_from_code(code),
    {
        if code == 0 {
            Some(ErrorCode::Unspecified)
        } else if code == 1 {
            Some(ErrorCode::InvalidInput)
        } else if code == 2 {
            Some(ErrorCode::NotFound)
        } else if code == 3 {
            Some(ErrorCode::Conflict)
        } else if code == 4 {
            Some(ErrorCode::SourceAuthExpired)
        } else if code == 5 {
            Some(ErrorCode::SourceUnreachable)
        } else if code == 6 {
            Some(ErrorCode::DaemonGone)
        } else if code == 7 {
            Some(ErrorCode::Unsupported)
        } else if code == 8 {
            Some(ErrorCode::Internal)
        } else {
            None
        }
    }
}

/// An error body on the wire: the error code's code, and the message.
#[derive(Clone, Debug, PartialEq, Eq)]
pub struct ErrorBody {
    pub code: i32,
    pub message: String,
}

/// The mathematical value of an [`ErrorBody`].
pub struct ErrorBodyView {
    pub code: i32,
    pub message: Seq<char>,
}

impl View for ErrorBody {
    type V = ErrorBodyView;

    open spec fn view(&self) -> ErrorBodyView {
        ErrorBodyView { code: self.code, message: self.message@ }
    }
}

impl DeepView for ErrorBody {
    type V = ErrorBodyView;

    open spec fn deep_view(&self) -> ErrorBodyView {
        self.view()
    }
}

/// Which of its alternatives an [`Intent`] carries, with that alternative's
/// fields.
#[derive(Clone, Debug, PartialEq, Eq)]
pub enum IntentKind {
    Stopped,
    Loading { token: u64, from_token: Option<u64> },
    Committed { token: u64 },
}

/// The mathematical value of an [`IntentKind`].
pub enum IntentKindView {
    Stopped,
    Loading { token: u64, from_token: Option<u64> },
    Committed { token: u64 },
}

impl View for IntentKind {
    type V = IntentKindView;

    open spec fn view(&self) -> IntentKindView {
        match self {
            IntentKind::Stopped => IntentKindView::Stopped,
            IntentKind::Loading { token, from_token } => IntentKindView::Loading {
                token: *token,
                from_token: *from_token,
            },
            IntentKind::Committed { token } => IntentKindView::Committed { token: *token },
        }
    }
}

impl DeepView for IntentKind {
    type V = IntentKindView;

    open spec fn deep_view(&self) -> IntentKindView {
        self.view()
    }
}

/// An intent on the wire. With no alternative set it carries nothing a
/// receiver can act on.
#[derive(Clone, Debug, PartialEq, Eq)]
pub struct Intent {
    pub kind: Option<IntentKind>,
}

/// The mathematical value of an [`Intent`].
pub struct IntentView {
    pub kind: Option<IntentKindView>,
}

impl View for Intent {
    type V = IntentView;

    open spec fn view(&self) -> IntentView {
        IntentView { kind: self.kind.deep_view() }
    }
}

impl DeepView for Intent {
    type V = IntentView;

    open spec fn deep_view(&self) -> IntentView {
        self.view()
    }
}

/// A playing track on the wire; the bit rate travels widened to 32 bits.
#[derive(Clone, Debug, PartialEq, Eq)]
pub struct NowPlaying {
    pub key: String,
    pub uid: String,
    pub title: String,
    pub artist: String,
    pub album: String,
    pub duration_ms: Option<u64>,
    pub khz: u32,
    pub bitrate: u32,
    pub kind: i32,
    pub seekable: bool,
}

/// The mathematical value of a [`NowPlaying`].
pub struct NowPlayingView {
    pub key: Seq<char>,
    pub uid: Seq<char>,
    pub title: Seq<char>,
    pub artist: Seq<char>,
    pub album: Seq<char>,
    pub duration_ms: Option<u64>,
    pub khz: u32,
    pub bitrate: u32,
    pub kind: i32,
    pub seekable: bool,
}

impl View for NowPlaying {
    type V = NowPlayingView;

    open spec fn view(&self) -> NowPlayingView {
        NowPlayingView {
            key: self.key@,
            uid: self.uid@,
            title: self.title@,
            artist: self.artist@,
            album: self.album@,
            duration_ms: self.duration_ms,
            khz: self.khz,
            bitrate: self.bitrate,
            kind: self.kind,
            seekable: self.seekable,
        }
    }
}

impl DeepView for NowPlaying {
    type V = NowPlayingView;

    open spec fn deep_view(&self) -> NowPlayingView {
        self.view()
    }
}

/// A position anchor on the wire.
#[derive(Clone, Copy, Debug, PartialEq, Eq)]
pub struct PositionAnchor {
    pub ms: u64,
    pub at_ms: u64,
    pub playing: bool,
}

/// The mathematical value of a [`PositionAnchor`].
pub struct PositionAnchorView {
    pub ms: u64,
    pub at_ms: u64,
    pub playing: bool,
}

impl View for PositionAnchor {
    type V = PositionAnchorView;

    open spec fn view(&self) -> PositionAnchorView {
        PositionAnchorView {
            ms: self.ms,
            at_ms: self.at_ms,
            playing: self.playing,
        }
    }
}

impl DeepView for PositionAnchor {
    type V = PositionAnchorView;

    open spec fn deep_view(&self) -> PositionAnchorView {
        self.view()
    }
}

/// A buffered range on the wire.
#[derive(Clone, Copy, Debug, PartialEq, Eq)]
pub struct BufferedRange {
    pub start: u64,
    pub end: u64,
    pub total: Option<u64>,
}

/// The mathematical value of a [`BufferedRange`].
pub struct BufferedRangeView {
    pub start: u64,
    pub end: u64,
    pub total: Option<u64>,
}

impl View for BufferedRange {
    type V = BufferedRangeView;

    open spec fn view(&self) -> BufferedRangeView {
        BufferedRangeView {
            start: self.start,
            end: self.end,
            total: self.total,
        }
    }
}

impl DeepView for BufferedRange {
    type V = BufferedRangeView;

    open spec fn deep_view(&self) -> BufferedRangeView {
        self.view()
    }
}

/// A queue summary on the wire.
#[derive(Clone, Debug, PartialEq, Eq)]
pub struct QueueSummary {
    pub rev: u64,
    pub length: u32,
    pub index: Option<u32>,
    pub shuffle: bool,
    pub loop_mode: i32,
}

/// The mathematical value of a [`QueueSummary`].
pub struct QueueSummaryView {
    pub rev: u64,
    pub length: u32,
    pub index: Option<u32>,
    pub shuffle: bool,
    pub loop_mode: i32,
}

impl View for QueueSummary {
    type V = QueueSummaryView;

    open spec fn view(&self) -> QueueSummaryView {
        QueueSummaryView {
            rev: self.rev,
            length: self.length,
            index: self.index,
            shuffle: self.shuffle,
            loop_mode: self.loop_mode,
        }
    }
}

impl DeepView for QueueSummary {
    type V = QueueSummaryView;

    open spec fn deep_view(&self) -> QueueSummaryView {
        self.view()
    }
}

/// A fading track on the wire.
#[derive(Clone, Debug, PartialEq, Eq)]
pub struct FadingState {
    pub from_token: u64,
    pub track: Option<NowPlaying>,
    pub position_ms: u64,
}

/// The mathematical value of a [`FadingState`].
pub struct FadingStateView {
    pub from_token: u64,
    pub track: Option<NowPlayingView>,
    pub position_ms: u64,
}

impl View for FadingState {
    type V = FadingStateView;

    open spec fn view(&self) -> FadingStateView {
        FadingStateView {
            from_token: self.from_token,
            track: self.track.deep_view(),
            position_ms: self.position_ms,
        }
    }
}

impl DeepView for FadingState {
    type V = FadingStateView;

    open spec fn deep_view(&self) -> FadingStateView {
        self.view()
    }
}

/// External playback on the wire.
#[derive(Clone, Debug, PartialEq, Eq)]
pub struct ExternalPlayback {
    pub kind: String,
    pub device: Option<String>,
}

/// The mathematical value of an [`ExternalPlayback`].
pub struct ExternalPlaybackView {
    pub kind: Seq<char>,
    pub device: Option<Seq<char>>,
}

impl View for ExternalPlayback {
    type V = ExternalPlaybackView;

    open spec fn view(&self) -> ExternalPlaybackView {
        ExternalPlaybackView {
            kind: self.kind@,
            device: self.device.deep_view(),
        }
    }
}

impl DeepView for ExternalPlayback {
    type V = ExternalPlaybackView;

    open spec fn deep_view(&self) -> ExternalPlaybackView {
        self.view()
    }
}

/// A player state on the wire.
#[derive(Clone, Debug, PartialEq, Eq)]
pub struct PlayerState {
    pub rev: u64,
    pub now_ms: u64,
    pub phase: i32,
    pub intent: Option<Intent>,
    pub track: Option<NowPlaying>,
    pub position: Option<PositionAnchor>,
    pub queue: Option<QueueSummary>,
    pub volume_bits: u32,
    pub buffered: Vec<BufferedRange>,
    pub fading: Option<FadingState>,
    pub external: Option<ExternalPlayback>,
    pub error: Option<ErrorBody>,
    pub output_latency_ms: u32,
}

/// The mathematical value of a [`PlayerState`].
pub struct PlayerStateView {
    pub rev: u64,
    pub now_ms: u64,
    pub phase: i32,
    pub intent: Option<IntentView>,
    pub track: Option<NowPlayingView>,
    pub position: Option<PositionAnchorView>,
    pub queue: Option<QueueSummaryView>,
    pub volume_bits: u32,
    pub buffered: Seq<BufferedRangeView>,
    pub fading: Option<FadingStateView>,
    pub external: Option<ExternalPlaybackView>,
    pub error: Option<ErrorBodyView>,
    pub output_latency_ms: u32,
}

impl View for PlayerState {
    type V = PlayerStateView;

    open spec fn view(&self) -> PlayerStateView {
        PlayerStateView {
            rev: self.rev,
            now_ms: self.now_ms,
            phase: self.phase,
            intent: self.intent.deep_view(),
            track: self.track.deep_view(),
            position: self.position.deep_view(),
            queue: self.queue.deep_view(),
            volume_bits: self.volume_bits,
            buffered: items(self.buffered),
            fading: self.fading.deep_view(),
            external: self.external.deep_view(),
            error: self.error.deep_view(),
            output_latency_ms: self.output_latency_ms,
        }
    }
}

impl DeepView for PlayerState {
    type V = PlayerStateView;

    open spec fn deep_view(&self) -> PlayerStateView {
        self.view()
    }
}

/// Which of its alternatives a [`PlayerCommand`] carries, with that
/// alternative's fields.
#[derive(Clone, Debug, PartialEq, Eq)]
pub enum PlayerCommandKind {
    Play,
    Pause,
    Toggle,
    Next,
    Previous,
    Stop,
    Seek { position_ms: u64 },
    SetVolume { volume_bits: u32 },
    SetMode { shuffle: Option<bool>, loop_mode: Option<i32> },
}

/// The mathematical value of a [`PlayerCommandKind`].
pub enum PlayerCommandKindView {
    Play,
    Pause,
    Toggle,
    Next,
    Previous,
    Stop,
    Seek { position_ms: u64 },
    SetVolume { volume_bits: u32 },
    SetMode { shuffle: Option<bool>, loop_mode: Option<i32> },
}

impl View for PlayerCommandKind {
    type V = PlayerCommandKindView;

    open spec fn view(&self) -> PlayerCommandKindView {
        match self {
            PlayerCommandKind::Play => PlayerCommandKindView::Play,
            PlayerCommandKind::Pause => PlayerCommandKindView::Pause,
            PlayerCommandKind::Toggle => PlayerCommandKindView::Toggle,
            PlayerCommandKind::Next => PlayerCommandKindView::Next,
            PlayerCommandKind::Previous => PlayerCommandKindView::Previous,
            PlayerCommandKind::Stop => PlayerCommandKindView::Stop,
            PlayerCommandKind::Seek { position_ms } => PlayerCommandKindView::Seek {
                position_ms: *position_ms,
            },
            PlayerCommandKind::SetVolume { volume_bits } => PlayerCommandKindView::SetVolume {
                volume_bits: *volume_bits,
            },
            PlayerCommandKind::SetMode { shuffle, loop_mode } => PlayerCommandKindView::SetMode {
                shuffle: *shuffle,
                loop_mode: *loop_mode,
            },
        }
    }
}

impl DeepView for PlayerCommandKind {
    type V = PlayerCommandKindView;

    open spec fn deep_view(&self) -> PlayerCommandKindView {
        self.view()
    }
}

/// A player command on the wire. With no alternative set it carries nothing
/// a receiver can act on.
#[derive(Clone, Debug, PartialEq, Eq)]
pub struct PlayerCommand {
    pub kind: Option<PlayerCommandKind>,
}

/// The mathematical value of a [`PlayerCommand`].
pub struct PlayerCommandView {
    pub kind: Option<PlayerCommandKindView>,
}

impl View for PlayerCommand {
    type V = PlayerCommandView;

    open spec fn view(&self) -> PlayerCommandView {
        PlayerCommandView { kind: self.kind.deep_view() }
    }
}

impl DeepView for PlayerCommand {
    type V = PlayerCommandView;

    open spec fn deep_view(&self) -> PlayerCommandView {
        self.view()
    }
}

/// A playback lease on the wire.
#[derive(Clone, Debug, PartialEq, Eq)]
pub struct ExternalPlaybackLease {
    pub lease_id: String,
    pub expires_in_ms: u64,
}

/// The mathematical value of an [`ExternalPlaybackLease`].
pub struct ExternalPlaybackLeaseView {
    pub lease_id: Seq<char>,
    pub expires_in_ms: u64,
}

impl View for ExternalPlaybackLease {
    type V = ExternalPlaybackLeaseView;

    open spec fn view(&self) -> ExternalPlaybackLeaseView {
        ExternalPlaybackLeaseView {
            lease_id: self.lease_id@,
            expires_in_ms: self.expires_in_ms,
        }
    }
}

impl DeepView for ExternalPlaybackLease {
    type V = ExternalPlaybackLeaseView;

    open spec fn deep_view(&self) -> ExternalPlaybackLeaseView {
        self.view()
    }
}

/// A playback report on the wire.
#[derive(Clone, Debug, PartialEq, Eq)]
pub struct ExternalPlaybackReport {
    pub lease_id: String,
    pub track: Option<TrackInfo>,
    pub position_ms: u64,
    pub playing: bool,
    pub completed: bool,
    pub device: Option<String>,
}

/// The mathematical value of an [`ExternalPlaybackReport`].
pub struct ExternalPlaybackReportView {
    pub lease_id: Seq<char>,
    pub track: Option<TrackInfoView>,
    pub position_ms: u64,
    pub playing: bool,
    pub completed: bool,
    pub device: Option<Seq<char>>,
}

impl View for ExternalPlaybackReport {
    type V = ExternalPlaybackReportView;

    open spec fn view(&self) -> ExternalPlaybackReportView {
        ExternalPlaybackReportView {
            lease_id: self.lease_id@,
            track: self.track.deep_view(),
            position_ms: self.position_ms,
            playing: self.playing,
            completed: self.completed,
            device: self.device.deep_view(),
        }
    }
}

impl DeepView for ExternalPlaybackReport {
    type V = ExternalPlaybackReportView;

    open spec fn deep_view(&self) -> ExternalPlaybackReportView {
        self.view()
    }
}

/// A track filter on the wire.
#[derive(Clone, Debug, PartialEq, Eq)]
pub struct TrackFilter {
    pub search: Option<String>,
    pub artist: Option<String>,
    pub album: Option<String>,
    pub genre: Option<String>,
    pub favorite: Option<bool>,
    pub sort: Option<String>,
}

/// The mathematical value of a [`TrackFilter`].
pub struct TrackFilterView {
    pub search: Option<Seq<char>>,
    pub artist: Option<Seq<char>>,
    pub album: Option<Seq<char>>,
    pub genre: Option<Seq<char>>,
    pub favorite: Option<bool>,
    pub sort: Option<Seq<char>>,
}

impl View for TrackFilter {
    type V = TrackFilterView;

    open spec fn view(&self) -> TrackFilterView {
        TrackFilterView {
            search: self.search.deep_view(),
            artist: self.artist.deep_view(),
            album: self.album.deep_view(),
            genre: self.genre.deep_view(),
            favorite: self.favorite,
            sort: self.sort.deep_view(),
        }
    }
}

impl DeepView for TrackFilter {
    type V = TrackFilterView;

    open spec fn deep_view(&self) -> TrackFilterView {
        self.view()
    }
}

/// A page request on the wire.
#[derive(Clone, Copy, Debug, PartialEq, Eq)]
pub struct Page {
    pub offset: u32,
    pub limit: u32,
}

/// The mathematical value of a [`Page`].
pub struct PageView {
    pub offset: u32,
    pub limit: u32,
}

impl View for Page {
    type V = PageView;

    open spec fn view(&self) -> PageView {
        PageView {
            offset: self.offset,
            limit: self.limit,
        }
    }
}

impl DeepView for Page {
    type V = PageView;

    open spec fn deep_view(&self) -> PageView {
        self.view()
    }
}

/// A track on the wire; the bit rate travels widened to 32 bits.
#[derive(Clone, Debug, PartialEq, Eq)]
pub struct TrackInfo {
    pub key: String,
    pub uid: String,
    pub title: String,
    pub artist: String,
    pub album: String,
    pub album_id: Option<String>,
    pub duration_ms: Option<u64>,
    pub khz: u32,
    pub bitrate: u32,
    pub track_number: Option<u32>,
    pub disc_number: Option<u32>,
    pub kind: i32,
    pub seekable: bool,
    pub offline: bool,
}

/// The mathematical value of a [`TrackInfo`].
pub struct TrackInfoView {
    pub key: Seq<char>,
    pub uid: Seq<char>,
    pub title: Seq<char>,
    pub artist: Seq<char>,
    pub album: Seq<char>,
    pub album_id: Option<Seq<char>>,
    pub duration_ms: Option<u64>,
    pub khz: u32,
    pub bitrate: u32,
    pub track_number: Option<u32>,
    pub disc_number: Option<u32>,
    pub kind: i32,
    pub seekable: bool,
    pub offline: bool,
}

impl View for TrackInfo {
    type V = TrackInfoView;

    open spec fn view(&self) -> TrackInfoView {
        TrackInfoView {
            key: self.key@,
            uid: self.uid@,
            title: self.title@,
            artist: self.artist@,
            album: self.album@,
            album_id: self.album_id.deep_view(),
            duration_ms: self.duration_ms,
            khz: self.khz,
            bitrate: self.bitrate,
            track_number: self.track_number,
            disc_number: self.disc_number,
            kind: self.kind,
            seekable: self.seekable,
            offline: self.offline,
        }
    }
}

impl DeepView for TrackInfo {
    type V = TrackInfoView;

    open spec fn deep_view(&self) -> TrackInfoView {
        self.view()
    }
}

/// A page of tracks on the wire.
#[derive(Clone, Debug, PartialEq, Eq)]
pub struct TrackPage {
    pub total: u64,
    pub offset: u64,
    pub items: Vec<TrackInfo>,
}

/// The mathematical value of a [`TrackPage`].
pub struct TrackPageView {
    pub total: u64,
    pub offset: u64,
    pub items: Seq<TrackInfoView>,
}

impl View for TrackPage {
    type V = TrackPageView;

    open spec fn view(&self) -> TrackPageView {
        TrackPageView {
            total: self.total,
            offset: self.offset,
            items: items(self.items),
        }
    }
}

impl DeepView for TrackPage {
    type V = TrackPageView;

    open spec fn deep_view(&self) -> TrackPageView {
        self.view()
    }
}

/// A lyric chunk on the wire.
#[derive(Clone, Debug, PartialEq, Eq)]
pub struct LyricChunk {
    pub start_ms: u64,
    pub text: String,
}

/// The mathematical value of a [`LyricChunk`].
pub struct LyricChunkView {
    pub start_ms: u64,
    pub text: Seq<char>,
}

impl View for LyricChunk {
    type V = LyricChunkView;

    open spec fn view(&self) -> LyricChunkView {
        LyricChunkView {
            start_ms: self.start_ms,
            text: self.text@,
        }
    }
}

impl DeepView for LyricChunk {
    type V = LyricChunkView;

    open spec fn deep_view(&self) -> LyricChunkView {
        self.view()
    }
}

/// A lyric line on the wire.
#[derive(Clone, Debug, PartialEq, Eq)]
pub struct LyricLine {
    pub start_ms: u64,
    pub end_ms: Option<u64>,
    pub text: String,
    pub chunks: Vec<LyricChunk>,
    pub parent_line_index: Option<u32>,
    pub background: bool,
    pub opposite_turn: bool,
}

/// The mathematical value of a [`LyricLine`].
pub struct LyricLineView {
    pub start_ms: u64,
    pub end_ms: Option<u64>,
    pub text: Seq<char>,
    pub chunks: Seq<LyricChunkView>,
    pub parent_line_index: Option<u32>,
    pub background: bool,
    pub opposite_turn: bool,
}

impl View for LyricLine {
    type V = LyricLineView;

    open spec fn view(&self) -> LyricLineView {
        LyricLineView {
            start_ms: self.start_ms,
            end_ms: self.end_ms,
            text: self.text@,
            chunks: items(self.chunks),
            parent_line_index: self.parent_line_index,
            background: self.background,
            opposite_turn: self.opposite_turn,
        }
    }
}

impl DeepView for LyricLine {
    type V = LyricLineView;

    open spec fn deep_view(&self) -> LyricLineView {
        self.view()
    }
}

/// Lyrics on the wire.
#[derive(Clone, Debug, PartialEq, Eq)]
pub struct Lyrics {
    pub plain: Option<String>,
    pub synced: Vec<LyricLine>,
}

/// The mathematical value of a [`Lyrics`].
pub struct LyricsView {
    pub plain: Option<Seq<char>>,
    pub synced: Seq<LyricLineView>,
}

impl View for Lyrics {
    type V = LyricsView;

    open spec fn view(&self) -> LyricsView {
        LyricsView {
            plain: self.plain.deep_view(),
            synced: items(self.synced),
        }
    }
}

impl DeepView for Lyrics {
    type V = LyricsView;

    open spec fn deep_view(&self) -> LyricsView {
        self.view()
    }
}

/// Listening statistics on the wire.
#[derive(Clone, Debug, PartialEq, Eq)]
pub struct Stats {
    pub listen_counts: Vec<(String, u32)>,
}

/// The mathematical value of a [`Stats`].
pub struct StatsView {
    pub listen_counts: Seq<(Seq<char>, u32)>,
}

impl View for Stats {
    type V = StatsView;

    open spec fn view(&self) -> StatsView {
        StatsView {
            listen_counts: items(self.listen_counts),
        }
    }
}

impl DeepView for Stats {
    type V = StatsView;

    open spec fn deep_view(&self) -> StatsView {
        self.view()
    }
}

/// Which of its alternatives a [`QueueContext`] carries, with that
/// alternative's fields.
#[derive(Clone, Debug, PartialEq, Eq)]
pub enum QueueContextKind {
    Tracks { keys: Vec<String> },
    Album { id: String },
    Artist { name: String },
    Genre { name: String },
    Playlist { id: String },
    Filter { filter: TrackFilter },
    Radio { station_id: String, stream_id: String },
    InlineTracks { tracks: Vec<TrackInfo> },
}

/// The mathematical value of a [`QueueContextKind`].
pub enum QueueContextKindView {
    Tracks { keys: Seq<Seq<char>> },
    Album { id: Seq<char> },
    Artist { name: Seq<char> },
    Genre { name: Seq<char> },
    Playlist { id: Seq<char> },
    Filter { filter: TrackFilterView },
    Radio { station_id: Seq<char>, stream_id: Seq<char> },
    InlineTracks { tracks: Seq<TrackInfoView> },
}

impl View for QueueContextKind {
    type V = QueueContextKindView;

    open spec fn view(&self) -> QueueContextKindView {
        match self {
            QueueContextKind::Tracks { keys } => QueueContextKindView::Tracks {
                keys: items(*keys),
            },
            QueueContextKind::Album { id } => QueueContextKindView::Album { id: id@ },
            QueueContextKind::Artist { name } => QueueContextKindView::Artist { name: name@ },
            QueueContextKind::Genre { name } => QueueContextKindView::Genre { name: name@ },
            QueueContextKind::Playlist { id } => QueueContextKindView::Playlist { id: id@ },
            QueueContextKind::Filter { filter } => QueueContextKindView::Filter { filter: filter@ },
            QueueContextKind::Radio { station_id, stream_id } => QueueContextKindView::Radio {
                station_id: station_id@,
                stream_id: stream_id@,
            },
            QueueContextKind::InlineTracks { tracks } => QueueContextKindView::InlineTracks {
                tracks: items(*tracks),
            },
        }
    }
}

impl DeepView for QueueContextKind {
    type V = QueueContextKindView;

    open spec fn deep_view(&self) -> QueueContextKindView {
        self.view()
    }
}

/// A queue context on the wire. With no alternative set it carries nothing
/// a receiver can act on.
#[derive(Clone, Debug, PartialEq, Eq)]
pub struct QueueContext {
    pub kind: Option<QueueContextKind>,
}

/// The mathematical value of a [`QueueContext`].
pub struct QueueContextView {
    pub kind: Option<QueueContextKindView>,
}

impl View for QueueContext {
    type V = QueueContextView;

    open spec fn view(&self) -> QueueContextView {
        QueueContextView { kind: self.kind.deep_view() }
    }
}

impl DeepView for QueueContext {
    type V = QueueContextView;

    open spec fn deep_view(&self) -> QueueContextView {
        self.view()
    }
}

/// A queue request on the wire.
#[derive(Clone, Debug, PartialEq, Eq)]
pub struct SetQueueRequest {
    pub mode: i32,
    pub context: Option<QueueContext>,
    pub start_index: Option<u32>,
    pub shuffle: Option<bool>,
    pub insert_index: Option<u32>,
}

/// The mathematical value of a [`SetQueueRequest`].
pub struct SetQueueRequestView {
    pub mode: i32,
    pub context: Option<QueueContextView>,
    pub start_index: Option<u32>,
    pub shuffle: Option<bool>,
    pub insert_index: Option<u32>,
}

impl View for SetQueueRequest {
    type V = SetQueueRequestView;

    open spec fn view(&self) -> SetQueueRequestView {
        SetQueueRequestView {
            mode: self.mode,
            context: self.context.deep_view(),
            start_index: self.start_index,
            shuffle: self.shuffle,
            insert_index: self.insert_index,
        }
    }
}

impl DeepView for SetQueueRequest {
    type V = SetQueueRequestView;

    open spec fn deep_view(&self) -> SetQueueRequestView {
        self.view()
    }
}

/// Which of its alternatives a [`QueueEditRequest`] carries, with that
/// alternative's fields.
#[derive(Clone, Debug, PartialEq, Eq)]
pub enum QueueEditRequestKind {
    Jump { index: u32 },
    Move { from: u32, to: u32 },
    Remove { index: u32 },
}

/// The mathematical value of a [`QueueEditRequestKind`].
pub enum QueueEditRequestKindView {
    Jump { index: u32 },
    Move { from: u32, to: u32 },
    Remove { index: u32 },
}

impl View for QueueEditRequestKind {
    type V = QueueEditRequestKindView;

    open spec fn view(&self) -> QueueEditRequestKindView {
        match self {
            QueueEditRequestKind::Jump { index } => QueueEditRequestKindView::Jump {
                index: *index,
            },
            QueueEditRequestKind::Move { from, to } => QueueEditRequestKindView::Move {
                from: *from,
                to: *to,
            },
            QueueEditRequestKind::Remove { index } => QueueEditRequestKindView::Remove {
                index: *index,
            },
        }
    }
}

impl DeepView for QueueEditRequestKind {
    type V = QueueEditRequestKindView;

    open spec fn deep_view(&self) -> QueueEditRequestKindView {
        self.view()
    }
}

/// A queue edit on the wire. With no alternative set it carries nothing a
/// receiver can act on.
#[derive(Clone, Debug, PartialEq, Eq)]
pub struct QueueEditRequest {
    pub kind: Option<QueueEditRequestKind>,
}

/// The mathematical value of a [`QueueEditRequest`].
pub struct QueueEditRequestView {
    pub kind: Option<QueueEditRequestKindView>,
}

impl View for QueueEditRequest {
    type V = QueueEditRequestView;

    open spec fn view(&self) -> QueueEditRequestView {
        QueueEditRequestView { kind: self.kind.deep_view() }
    }
}

impl DeepView for QueueEditRequest {
    type V = QueueEditRequestView;

    open spec fn deep_view(&self) -> QueueEditRequestView {
        self.view()
    }
}

/// A queue entry on the wire.
#[derive(Clone, Debug, PartialEq, Eq)]
pub struct QueueItem {
    pub index: u32,
    pub track: Option<TrackInfo>,
}

/// The mathematical value of a [`QueueItem`].
pub struct QueueItemView {
    pub index: u32,
    pub track: Option<TrackInfoView>,
}

impl View for QueueItem {
    type V = QueueItemView;

    open spec fn view(&self) -> QueueItemView {
        QueueItemView {
            index: self.index,
            track: self.track.deep_view(),
        }
    }
}

impl DeepView for QueueItem {
    type V = QueueItemView;

    open spec fn deep_view(&self) -> QueueItemView {
        self.view()
    }
}

/// A queue window on the wire.
#[derive(Clone, Debug, PartialEq, Eq)]
pub struct QueueWindow {
    pub rev: u64,
    pub total: u32,
    pub offset: u32,
    pub items: Vec<QueueItem>,
}

/// The mathematical value of a [`QueueWindow`].
pub struct QueueWindowView {
    pub rev: u64,
    pub total: u32,
    pub offset: u32,
    pub items: Seq<QueueItemView>,
}

impl View for QueueWindow {
    type V = QueueWindowView;

    open spec fn view(&self) -> QueueWindowView {
        QueueWindowView {
            rev: self.rev,
            total: self.total,
            offset: self.offset,
            items: items(self.items),
        }
    }
}

impl DeepView for QueueWindow {
    type V = QueueWindowView;

    open spec fn deep_view(&self) -> QueueWindowView {
        self.view()
    }
}

/// A saved queue on the wire.
#[derive(Clone, Debug, PartialEq, Eq)]
pub struct QueuePersistenceSnapshot {
    pub tracks: Vec<TrackInfo>,
    pub current_index: Option<u32>,
    pub progress_ms: u64,
    pub shuffle_order: Vec<u32>,
    pub shuffle_enabled: bool,
}

/// The mathematical value of a [`QueuePersistenceSnapshot`].
pub struct QueuePersistenceSnapshotView {
    pub tracks: Seq<TrackInfoView>,
    pub current_index: Option<u32>,
    pub progress_ms: u64,
    pub shuffle_order: Seq<u32>,
    pub shuffle_enabled: bool,
}

impl View for QueuePersistenceSnapshot {
    type V = QueuePersistenceSnapshotView;

    open spec fn view(&self) -> QueuePersistenceSnapshotView {
        QueuePersistenceSnapshotView {
            tracks: items(self.tracks),
            current_index: self.current_index,
            progress_ms: self.progress_ms,
            shuffle_order: self.shuffle_order@,
            shuffle_enabled: self.shuffle_enabled,
        }
    }
}

impl DeepView for QueuePersistenceSnapshot {
    type V = QueuePersistenceSnapshotView;

    open spec fn deep_view(&self) -> QueuePersistenceSnapshotView {
        self.view()
    }
}

/// Job progress on the wire.
#[derive(Clone, Debug, PartialEq, Eq)]
pub struct JobProgress {
    pub id: String,
    pub kind: i32,
    pub phase: String,
    pub current: Option<u64>,
    pub total: Option<u64>,
    pub message: Option<String>,
}

/// The mathematical value of a [`JobProgress`].
pub struct JobProgressView {
    pub id: Seq<char>,
    pub kind: i32,
    pub phase: Seq<char>,
    pub current: Option<u64>,
    pub total: Option<u64>,
    pub message: Option<Seq<char>>,
}

impl View for JobProgress {
    type V = JobProgressView;

    open spec fn view(&self) -> JobProgressView {
        JobProgressView {
            id: self.id@,
            kind: self.kind,
            phase: self.phase@,
            current: self.current,
            total: self.total,
            message: self.message.deep_view(),
        }
    }
}

impl DeepView for JobProgress {
    type V = JobProgressView;

    open spec fn deep_view(&self) -> JobProgressView {
        self.view()
    }
}

/// Favourites on the wire.
#[derive(Clone, Debug, PartialEq, Eq)]
pub struct Favorites {
    pub refs: Vec<String>,
    pub generation: u64,
}

/// The mathematical value of a [`Favorites`].
pub struct FavoritesView {
    pub refs: Seq<Seq<char>>,
    pub generation: u64,
}

impl View for Favorites {
    type V = FavoritesView;

    open spec fn view(&self) -> FavoritesView {
        FavoritesView {
            refs: items(self.refs),
            generation: self.generation,
        }
    }
}

impl DeepView for Favorites {
    type V = FavoritesView;

    open spec fn deep_view(&self) -> FavoritesView {
        self.view()
    }
}

/// A job status on the wire.
#[derive(Clone, Debug, PartialEq, Eq)]
pub struct JobStatus {
    pub id: String,
    pub kind: i32,
    pub state: i32,
    pub phase: String,
    pub current: Option<u64>,
    pub total: Option<u64>,
    pub message: Option<String>,
    pub error: Option<ErrorBody>,
}

/// The mathematical value of a [`JobStatus`].
pub struct JobStatusView {
    pub id: Seq<char>,
    pub kind: i32,
    pub state: i32,
    pub phase: Seq<char>,
    pub current: Option<u64>,
    pub total: Option<u64>,
    pub message: Option<Seq<char>>,
    pub error: Option<ErrorBodyView>,
}

impl View for JobStatus {
    type V = JobStatusView;

    open spec fn view(&self) -> JobStatusView {
        JobStatusView {
            id: self.id@,
            kind: self.kind,
            state: self.state,
            phase: self.phase@,
            current: self.current,
            total: self.total,
            message: self.message.deep_view(),
            error: self.error.deep_view(),
        }
    }
}

impl DeepView for JobStatus {
    type V = JobStatusView;

    open spec fn deep_view(&self) -> JobStatusView {
        self.view()
    }
}

/// Which of its alternatives an [`Event`] carries, with that alternative's
/// fields.
#[derive(Clone, Debug, PartialEq, Eq)]
pub enum EventKind {
    PlayerState { player: PlayerState },
    PlayerPosition { token: u64, position_ms: u64, at_ms: u64, playing: bool },
    PlayerBuffered { token: u64, ranges: Vec<BufferedRange> },
    PlayerExternalCommand { command: PlayerCommand },
    QueueChanged { rev: u64, length: u32, index: Option<u32> },
    LibraryInvalidated { table: i32, generation: u64 },
    JobProgress { progress: JobProgress },
    JobFinished { id: String, kind: i32, ok: bool, error: Option<ErrorBody> },
    ConfigChanged { keys: Vec<String> },
    SourceStatus { source: String, state: i32 },
    Notice { level: i32, code: String, message: Option<String> },
    Resync,
}

/// The mathematical value of an [`EventKind`].
pub enum EventKindView {
    PlayerState { player: PlayerStateView },
    PlayerPosition { token: u64, position_ms: u64, at_ms: u64, playing: bool },
    PlayerBuffered { token: u64, ranges: Seq<BufferedRangeView> },
    PlayerExternalCommand { command: PlayerCommandView },
    QueueChanged { rev: u64, length: u32, index: Option<u32> },
    LibraryInvalidated { table: i32, generation: u64 },
    JobProgress { progress: JobProgressView },
    JobFinished { id: Seq<char>, kind: i32, ok: bool, error: Option<ErrorBodyView> },
    ConfigChanged { keys: Seq<Seq<char>> },
    SourceStatus { source: Seq<char>, state: i32 },
    Notice { level: i32, code: Seq<char>, message: Option<Seq<char>> },
    Resync,
}

impl View for EventKind {
    type V = EventKindView;

    open spec fn view(&self) -> EventKindView {
        match self {
            EventKind::PlayerState { player } => EventKindView::PlayerState { player: player@ },
            EventKind::PlayerPosition { token, position_ms, at_ms, playing } => EventKindView::PlayerPosition {
                token: *token,
                position_ms: *position_ms,
                at_ms: *at_ms,
                playing: *playing,
            },
            EventKind::PlayerBuffered { token, ranges } => EventKindView::PlayerBuffered {
                token: *token,
                ranges: items(*ranges),
            },
            EventKind::PlayerExternalCommand { command } => EventKindView::PlayerExternalCommand {
                command: command@,
            },
            EventKind::QueueChanged { rev, length, index } => EventKindView::QueueChanged {
                rev: *rev,
                length: *length,
                index: *index,
            },
            EventKind::LibraryInvalidated { table, generation } => EventKindView::LibraryInvalidated {
                table: *table,
                generation: *generation,
            },
            EventKind::JobProgress { progress } => EventKindView::JobProgress {
                progress: progress@,
            },
            EventKind::JobFinished { id, kind, ok, error } => EventKindView::JobFinished {
                id: id@,
                kind: *kind,
                ok: *ok,
                error: error.deep_view(),
            },
            EventKind::ConfigChanged { keys } => EventKindView::ConfigChanged {
                keys: items(*keys),
            },
            EventKind::SourceStatus { source, state } => EventKindView::SourceStatus {
                source: source@,
                state: *state,
            },
            EventKind::Notice { level, code, message } => EventKindView::Notice {
                level: *level,
                code: code@,
                message: message.deep_view(),
            },
            EventKind::Resync => EventKindView::Resync,
        }
    }
}

impl DeepView for EventKind {
    type V = EventKindView;

    open spec fn deep_view(&self) -> EventKindView {
        self.view()
    }
}

/// An event on the wire. With no alternative set it carries nothing a
/// receiver can act on.
#[derive(Clone, Debug, PartialEq, Eq)]
pub struct Event {
    pub kind: Option<EventKind>,
}

/// The mathematical value of an [`Event`].
pub struct EventView {
    pub kind: Option<EventKindView>,
}

impl View for Event {
    type V = EventView;

    open spec fn view(&self) -> EventView {
        EventView { kind: self.kind.deep_view() }
    }
}

impl DeepView for Event {
    type V = EventView;

    open spec fn deep_view(&self) -> EventView {
        self.view()
    }
}

/// A radio stream on the wire.
#[derive(Clone, Debug, PartialEq, Eq)]
pub struct RadioStreamInfo {
    pub id: String,
    pub name: String,
    pub url: String,
}

/// The mathematical value of a [`RadioStreamInfo`].
pub struct RadioStreamInfoView {
    pub id: Seq<char>,
    pub name: Seq<char>,
    pub url: Seq<char>,
}

impl View for RadioStreamInfo {
    type V = RadioStreamInfoView;

    open spec fn view(&self) -> RadioStreamInfoView {
        RadioStreamInfoView {
            id: self.id@,
            name: self.name@,
            url: self.url@,
        }
    }
}

impl DeepView for RadioStreamInfo {
    type V = RadioStreamInfoView;

    open spec fn deep_view(&self) -> RadioStreamInfoView {
        self.view()
    }
}

/// A radio station on the wire.
#[derive(Clone, Debug, PartialEq, Eq)]
pub struct RadioStationInfo {
    pub id: String,
    pub name: String,
    pub description: String,
    pub tags: Vec<String>,
    pub streams: Vec<RadioStreamInfo>,
    pub pinned: bool,
}

/// The mathematical value of a [`RadioStationInfo`].
pub struct RadioStationInfoView {
    pub id: Seq<char>,
    pub name: Seq<char>,
    pub description: Seq<char>,
    pub tags: Seq<Seq<char>>,
    pub streams: Seq<RadioStreamInfoView>,
    pub pinned: bool,
}

impl View for RadioStationInfo {
    type V = RadioStationInfoView;

    open spec fn view(&self) -> RadioStationInfoView {
        RadioStationInfoView {
            id: self.id@,
            name: self.name@,
            description: self.description@,
            tags: items(self.tags),
            streams: items(self.streams),
            pinned: self.pinned,
        }
    }
}

impl DeepView for RadioStationInfo {
    type V = RadioStationInfoView;

    open spec fn deep_view(&self) -> RadioStationInfoView {
        self.view()
    }
}

/// A radio registry on the wire.
#[derive(Clone, Debug, PartialEq, Eq)]
pub struct RadioRegistryInfo {
    pub url: String,
    pub enabled: bool,
    pub built_in: bool,
}

/// The mathematical value of a [`RadioRegistryInfo`].
pub struct RadioRegistryInfoView {
    pub url: Seq<char>,
    pub enabled: bool,
    pub built_in: bool,
}

impl View for RadioRegistryInfo {
    type V = RadioRegistryInfoView;

    open spec fn view(&self) -> RadioRegistryInfoView {
        RadioRegistryInfoView {
            url: self.url@,
            enabled: self.enabled,
            built_in: self.built_in,
        }
    }
}

impl DeepView for RadioRegistryInfo {
    type V = RadioRegistryInfoView;

    open spec fn deep_view(&self) -> RadioRegistryInfoView {
        self.view()
    }
}

/// A playlist on the wire.
#[derive(Clone, Debug, PartialEq, Eq)]
pub struct PlaylistInfo {
    pub id: String,
    pub name: String,
    pub track_count: u32,
    pub track_keys: Vec<String>,
    pub artwork: Option<String>,
    pub manual_artwork: bool,
}

/// The mathematical value of a [`PlaylistInfo`].
pub struct PlaylistInfoView {
    pub id: Seq<char>,
    pub name: Seq<char>,
    pub track_count: u32,
    pub track_keys: Seq<Seq<char>>,
    pub artwork: Option<Seq<char>>,
    pub manual_artwork: bool,
}

impl View for PlaylistInfo {
    type V = PlaylistInfoView;

    open spec fn view(&self) -> PlaylistInfoView {
        PlaylistInfoView {
            id: self.id@,
            name: self.name@,
            track_count: self.track_count,
            track_keys: items(self.track_keys),
            artwork: self.artwork.deep_view(),
            manual_artwork: self.manual_artwork,
        }
    }
}

impl DeepView for PlaylistInfo {
    type V = PlaylistInfoView;

    open spec fn deep_view(&self) -> PlaylistInfoView {
        self.view()
    }
}

/// A playlist folder on the wire.
#[derive(Clone, Debug, PartialEq, Eq)]
pub struct PlaylistFolderInfo {
    pub id: String,
    pub name: String,
    pub playlist_ids: Vec<String>,
}

/// The mathematical value of a [`PlaylistFolderInfo`].
pub struct PlaylistFolderInfoView {
    pub id: Seq<char>,
    pub name: Seq<char>,
    pub playlist_ids: Seq<Seq<char>>,
}

impl View for PlaylistFolderInfo {
    type V = PlaylistFolderInfoView;

    open spec fn view(&self) -> PlaylistFolderInfoView {
        PlaylistFolderInfoView {
            id: self.id@,
            name: self.name@,
            playlist_ids: items(self.playlist_ids),
        }
    }
}

impl DeepView for PlaylistFolderInfo {
    type V = PlaylistFolderInfoView;

    open spec fn deep_view(&self) -> PlaylistFolderInfoView {
        self.view()
    }
}

/// A playlist catalog on the wire.
#[derive(Clone, Debug, PartialEq, Eq)]
pub struct PlaylistCatalog {
    pub playlists: Vec<PlaylistInfo>,
    pub folders: Vec<PlaylistFolderInfo>,
}

/// The mathematical value of a [`PlaylistCatalog`].
pub struct PlaylistCatalogView {
    pub playlists: Seq<PlaylistInfoView>,
    pub folders: Seq<PlaylistFolderInfoView>,
}

impl View for PlaylistCatalog {
    type V = PlaylistCatalogView;

    open spec fn view(&self) -> PlaylistCatalogView {
        PlaylistCatalogView {
            playlists: items(self.playlists),
            folders: items(self.folders),
        }
    }
}

impl DeepView for PlaylistCatalog {
    type V = PlaylistCatalogView;

    open spec fn deep_view(&self) -> PlaylistCatalogView {
        self.view()
    }
}

/// Which of its alternatives an [`ArtworkTarget`] carries, with that
/// alternative's fields.
#[derive(Clone, Debug, PartialEq, Eq)]
pub enum ArtworkTargetKind {
    Track { key: String },
    Album { id: String },
    Artist { name: String },
    Playlist { id: String },
}

/// The mathematical value of an [`ArtworkTargetKind`].
pub enum ArtworkTargetKindView {
    Track { key: Seq<char> },
    Album { id: Seq<char> },
    Artist { name: Seq<char> },
    Playlist { id: Seq<char> },
}

impl View for ArtworkTargetKind {
    type V = ArtworkTargetKindView;

    open spec fn view(&self) -> ArtworkTargetKindView {
        match self {
            ArtworkTargetKind::Track { key } => ArtworkTargetKindView::Track { key: key@ },
            ArtworkTargetKind::Album { id } => ArtworkTargetKindView::Album { id: id@ },
            ArtworkTargetKind::Artist { name } => ArtworkTargetKindView::Artist { name: name@ },
            ArtworkTargetKind::Playlist { id } => ArtworkTargetKindView::Playlist { id: id@ },
        }
    }
}

impl DeepView for ArtworkTargetKind {
    type V = ArtworkTargetKindView;

    open spec fn deep_view(&self) -> ArtworkTargetKindView {
        self.view()
    }
}

/// An artwork target on the wire. With no alternative set it carries
/// nothing a receiver can act on.
#[derive(Clone, Debug, PartialEq, Eq)]
pub struct ArtworkTarget {
    pub kind: Option<ArtworkTargetKind>,
}

/// The mathematical value of an [`ArtworkTarget`].
pub struct ArtworkTargetView {
    pub kind: Option<ArtworkTargetKindView>,
}

impl View for ArtworkTarget {
    type V = ArtworkTargetView;

    open spec fn view(&self) -> ArtworkTargetView {
        ArtworkTargetView { kind: self.kind.deep_view() }
    }
}

impl DeepView for ArtworkTarget {
    type V = ArtworkTargetView;

    open spec fn deep_view(&self) -> ArtworkTargetView {
        self.view()
    }
}

/// Which of its alternatives an [`ArtworkEntity`] carries, with that
/// alternative's fields.
#[derive(Clone, Debug, PartialEq, Eq)]
pub enum ArtworkEntityKind {
    Track { key: String },
    Album { id: String },
    Artist { name: String },
    Playlist { id: String },
}

/// The mathematical value of an [`ArtworkEntityKind`].
pub enum ArtworkEntityKindView {
    Track { key: Seq<char> },
    Album { id: Seq<char> },
    Artist { name: Seq<char> },
    Playlist { id: Seq<char> },
}

impl View for ArtworkEntityKind {
    type V = ArtworkEntityKindView;

    open spec fn view(&self) -> ArtworkEntityKindView {
        match self {
            ArtworkEntityKind::Track { key } => ArtworkEntityKindView::Track { key: key@ },
            ArtworkEntityKind::Album { id } => ArtworkEntityKindView::Album { id: id@ },
            ArtworkEntityKind::Artist { name } => ArtworkEntityKindView::Artist { name: name@ },
            ArtworkEntityKind::Playlist { id } => ArtworkEntityKindView::Playlist { id: id@ },
        }
    }
}

impl DeepView for ArtworkEntityKind {
    type V = ArtworkEntityKindView;

    open spec fn deep_view(&self) -> ArtworkEntityKindView {
        self.view()
    }
}

/// An artwork entity on the wire. With no alternative set it carries
/// nothing a receiver can act on.
#[derive(Clone, Debug, PartialEq, Eq)]
pub struct ArtworkEntity {
    pub kind: Option<ArtworkEntityKind>,
}

/// The mathematical value of an [`ArtworkEntity`].
pub struct ArtworkEntityView {
    pub kind: Option<ArtworkEntityKindView>,
}

impl View for ArtworkEntity {
    type V = ArtworkEntityView;

    open spec fn view(&self) -> ArtworkEntityView {
        ArtworkEntityView { kind: self.kind.deep_view() }
    }
}

impl DeepView for ArtworkEntity {
    type V = ArtworkEntityView;

    open spec fn deep_view(&self) -> ArtworkEntityView {
        self.view()
    }
}

/// A tag edit on the wire.
#[derive(Clone, Debug, PartialEq, Eq)]
pub struct TrackMetadataPatch {
    pub key: String,
    pub title: Option<String>,
    pub artist: Option<String>,
    pub album: Option<String>,
    pub track_number: Option<u32>,
    pub clear_track_number: bool,
    pub disc_number: Option<u32>,
    pub clear_disc_number: bool,
}

/// The mathematical value of a [`TrackMetadataPatch`].
pub struct TrackMetadataPatchView {
    pub key: Seq<char>,
    pub title: Option<Seq<char>>,
    pub artist: Option<Seq<char>>,
    pub album: Option<Seq<char>>,
    pub track_number: Option<u32>,
    pub clear_track_number: bool,
    pub disc_number: Option<u32>,
    pub clear_disc_number: bool,
}

impl View for TrackMetadataPatch {
    type V = TrackMetadataPatchView;

    open spec fn view(&self) -> TrackMetadataPatchView {
        TrackMetadataPatchView {
            key: self.key@,
            title: self.title.deep_view(),
            artist: self.artist.deep_view(),
            album: self.album.deep_view(),
            track_number: self.track_number,
            clear_track_number: self.clear_track_number,
            disc_number: self.disc_number,
            clear_disc_number: self.clear_disc_number,
        }
    }
}

impl DeepView for TrackMetadataPatch {
    type V = TrackMetadataPatchView;

    open spec fn deep_view(&self) -> TrackMetadataPatchView {
        self.view()
    }
}

/// An artwork request on the wire.
#[derive(Clone, Debug, PartialEq, Eq)]
pub struct ArtworkRequest {
    pub entity: Option<ArtworkEntity>,
    pub hq: bool,
}

/// The mathematical value of an [`ArtworkRequest`].
pub struct ArtworkRequestView {
    pub entity: Option<ArtworkEntityView>,
    pub hq: bool,
}

impl View for ArtworkRequest {
    type V = ArtworkRequestView;

    open spec fn view(&self) -> ArtworkRequestView {
        ArtworkRequestView {
            entity: self.entity.deep_view(),
            hq: self.hq,
        }
    }
}

impl DeepView for ArtworkRequest {
    type V = ArtworkRequestView;

    open spec fn deep_view(&self) -> ArtworkRequestView {
        self.view()
    }
}

/// An artwork upload on the wire.
#[derive(Clone, Debug, PartialEq, Eq)]
pub struct ArtworkUpload {
    pub target: Option<ArtworkTarget>,
    pub content_type: String,
    pub data: Vec<u8>,
}

/// The mathematical value of an [`ArtworkUpload`].
pub struct ArtworkUploadView {
    pub target: Option<ArtworkTargetView>,
    pub content_type: Seq<char>,
    pub data: Seq<u8>,
}

impl View for ArtworkUpload {
    type V = ArtworkUploadView;

    open spec fn view(&self) -> ArtworkUploadView {
        ArtworkUploadView {
            target: self.target.deep_view(),
            content_type: self.content_type@,
            data: self.data@,
        }
    }
}

impl DeepView for ArtworkUpload {
    type V = ArtworkUploadView;

    open spec fn deep_view(&self) -> ArtworkUploadView {
        self.view()
    }
}

/// A request to remove the artwork of a target.
#[derive(Clone, Debug, PartialEq, Eq)]
pub struct RemoveArtworkRequest {
    pub target: Option<ArtworkTarget>,
}

/// The mathematical value of a [`RemoveArtworkRequest`].
pub struct RemoveArtworkRequestView {
    pub target: Option<ArtworkTargetView>,
}

impl View for RemoveArtworkRequest {
    type V = RemoveArtworkRequestView;

    open spec fn view(&self) -> RemoveArtworkRequestView {
        RemoveArtworkRequestView { target: self.target.deep_view() }
    }
}

} // verus!
