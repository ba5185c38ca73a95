//! The player façade: the commands it sends to the engine and what it shows
//! in the operating system's now-playing display.
//!
//! [`Player`] holds the now-playing metadata and the latest engine status the
//! caller has observed. Each operation returns its [`PlayerEffects`]: the
//! command to send to the engine and the now-playing update to push, which the
//! caller performs. Nothing here talks to a device or a thread.

use vstd::prelude::*;

use crate::config::{ChannelMode, DeviceChangeBehavior, EqualizerSettings, SampleRateMode};
use crate::player::engine::{clamped_position, raw_position, EngineStatus, Phase, Transition};

verus! {

/// What the operating system shows for the current track.
pub struct NowPlayingMeta {
    pub title: String,
    pub artist: String,
    pub album: String,
    pub duration_micros: u64,
    pub artwork: Option<String>,
}

/// A load as the engine receives it. The source factory and the reply channel
/// travel beside it, with the caller.
#[derive(Clone, Copy, Debug, PartialEq, Eq, Structural)]
pub struct LoadRequest {
    pub token: u64,
    pub duration_micros: u64,
    pub transition: Transition,
    pub start_at_micros: Option<u64>,
}

/// A command for the engine.
pub enum Command {
    Load(LoadRequest),
    /// Drop a load that is still probing without touching the live session.
    CancelPending,
    /// Seek the visible session. `token`, when set, is the session the caller
    /// believes is visible; the engine drops the seek if a crossfade has since
    /// promoted a different session.
    Seek { position_micros: u64, token: Option<u64> },
    Pause,
    Resume,
    Stop { pause_device: bool },
    SetChannelMode(ChannelMode),
    SetEqualizer(EqualizerSettings),
    SetDeviceChangeBehavior(DeviceChangeBehavior),
    SetSampleRateMode(SampleRateMode),
    SetDuration(u64),
}

/// A push to the now-playing display: the stored metadata at this position,
/// playing or paused. The position and state are the intent of the command
/// just sent, since the engine status may not reflect it yet.
#[derive(Clone, Copy, Debug, PartialEq, Eq, Structural)]
pub struct NowPlayingUpdate {
    pub position_micros: u64,
    pub playing: bool,
}

/// What an operation asks the caller to do.
pub struct PlayerEffects {
    pub command: Option<Command>,
    pub now_playing: Option<NowPlayingUpdate>,
}

/// Everything the engine needs to start playing a new source, but the source
/// factory and the reply channel, which stay with the caller.
pub struct LoadArgs {
    /// Caller-chosen monotonic token; every engine event and the reply are
    /// correlated to it.
    pub token: u64,
    pub meta: NowPlayingMeta,
    pub transition: Transition,
    pub start_at_micros: Option<u64>,
}

/// How close to the end a seek may land: the engine's end guard.
pub const END_GUARD_MICROS: u64 = 2_000_000;

/// The mathematical value of a [`Player`].
pub struct PlayerView {
    pub now_playing: Option<NowPlayingMeta>,
    pub status: EngineStatus,
}

pub struct Player {
    now_playing: Option<NowPlayingMeta>,
    status: EngineStatus,
}

/// The push an operation makes when metadata is stored, at the given position.
pub open spec fn push_at(view: PlayerView, position_micros: int, playing: bool) -> Option<NowPlayingUpdate> {
    if view.now_playing is Some {
        Some(NowPlayingUpdate { position_micros: position_micros as u64, playing })
    } else {
        None
    }
}

/// The push that shows the engine's own position and state.
pub open spec fn push_current(view: PlayerView) -> Option<NowPlayingUpdate> {
    push_at(view, view.status.spec_position(), !view.status.paused)
}

/// Where a seek to `time_micros` lands: the engine never seeks into the last
/// two seconds of a track of known metadata, and a track no longer than that
/// seeks to its start.
pub open spec fn seek_target(view: PlayerView, time_micros: u64) -> u64 {
    match view.now_playing {
        Some(meta) => if meta.duration_micros > END_GUARD_MICROS {
            if time_micros < meta.duration_micros - END_GUARD_MICROS {
                time_micros
            } else {
                (meta.duration_micros - END_GUARD_MICROS) as u64
            }
        } else {
            0
        },
        None => time_micros,
    }
}

/// The player after a load: the new metadata is stored.
pub open spec fn after_load(view: PlayerView, meta: NowPlayingMeta) -> PlayerView {
    PlayerView { now_playing: Some(meta), status: view.status }
}

/// The push a load makes: an immediate switch shows the new track at once
/// from its start offset; a crossfade keeps showing the outgoing track.
pub open spec fn load_push(view: PlayerView, meta: NowPlayingMeta, transition: Transition, start_at_micros: Option<u64>) -> Option<NowPlayingUpdate> {
    if transition == Transition::Immediate {
        push_at(
            after_load(view, meta),
            match start_at_micros {
                Some(t) => t as int,
                None => 0,
            },
            true,
        )
    } else {
        None
    }
}

impl View for Player {
    type V = PlayerView;

    closed spec fn view(&self) -> PlayerView {
        PlayerView { now_playing: self.now_playing, status: self.status }
    }
}

impl Player {
    #[verifier::type_invariant]
    spec fn status_in_range(self) -> bool {
        self.status.well_formed()
    }

    /// A player with nothing loaded and an idle engine.
    pub fn new() -> (r: Self)
        ensures
            r@.now_playing is None,
            r@.status == EngineStatus::idle_spec(),
    {
        let status = EngineStatus::idle();
        proof {
            EngineStatus::lemma_idle_is_idle_spec(status);
        }
        Player { now_playing: None, status }
    }

    /// Record the engine status the caller has just read.
    pub fn observe(&mut self, status: EngineStatus)
        requires
            status.well_formed(),
        ensures
            final(self)@ == (PlayerView { now_playing: old(self)@.now_playing, status }),
    {
        self.status = status;
    }

    /// The metadata currently stored for the now-playing display.
    pub fn now_playing(&self) -> (r: Option<&NowPlayingMeta>)
        ensures
            r == match self@.now_playing {
                Some(meta) => Some(&meta),
                None => None::<&NowPlayingMeta>,
            },
    {
        match &self.now_playing {
            Some(meta) => Some(meta),
            None => None,
        }
    }

    /// Start loading a new source. The now-playing display switches at once
    /// only for an immediate switch; a crossfade keeps showing the outgoing
    /// track until [`Player::commit_now_playing`].
    pub fn load(&mut self, args: LoadArgs) -> (r: PlayerEffects)
        ensures
            final(self)@ == after_load(old(self)@, args.meta),
            r.command == Some(
                Command::Load(
                    LoadRequest {
                        token: args.token,
                        duration_micros: args.meta.duration_micros,
                        transition: args.transition,
                        start_at_micros: args.start_at_micros,
                    },
                ),
            ),
            r.now_playing == load_push(old(self)@, args.meta, args.transition, args.start_at_micros),
    {
        let LoadArgs { token, meta, transition, start_at_micros } = args;
        let request = LoadRequest { token, duration_micros: meta.duration_micros, transition, start_at_micros };
        proof {
            use_type_invariant(&*self);
        }
        self.now_playing = Some(meta);
        let now_playing = match transition {
            Transition::Immediate => Some(
                NowPlayingUpdate {
                    position_micros: match start_at_micros {
                        Some(t) => t,
                        None => 0,
                    },
                    playing: true,
                },
            ),
            Transition::Crossfade(_) => None,
        };
        PlayerEffects { command: Some(Command::Load(request)), now_playing }
    }

    /// Push the stored now-playing metadata to the OS display. Commits a
    /// crossfade's incoming track once its fade completes.
    pub fn commit_now_playing(&self) -> (r: PlayerEffects)
        ensures
            r.command is None,
            r.now_playing == push_current(self@),
    {
        PlayerEffects { command: None, now_playing: self.update_now_playing_system() }
    }

    /// Drop a load that is still resolving without touching live playback.
    pub fn cancel_pending_load(&self) -> (r: PlayerEffects)
        ensures
            r.command == Some(Command::CancelPending),
            r.now_playing is None,
    {
        PlayerEffects { command: Some(Command::CancelPending), now_playing: None }
    }

    pub fn pause(&self) -> (r: PlayerEffects)
        ensures
            r.command == Some(Command::Pause),
            r.now_playing == push_at(self@, self@.status.spec_position(), false),
    {
        let position = self.get_position();
        PlayerEffects { command: Some(Command::Pause), now_playing: self.push_now_playing(position, false) }
    }

    pub fn play_resume(&self) -> (r: PlayerEffects)
        ensures
            r.command == Some(Command::Resume),
            r.now_playing == push_at(self@, self@.status.spec_position(), true),
    {
        let position = self.get_position();
        PlayerEffects { command: Some(Command::Resume), now_playing: self.push_now_playing(position, true) }
    }

    /// Seek the visible session. The target mirrors the engine's end-guard
    /// clamp so the system position display matches what will actually play.
    pub fn seek(&self, time_micros: u64) -> (r: PlayerEffects)
        ensures
            r.command == Some(Command::Seek { position_micros: seek_target(self@, time_micros), token: None }),
            r.now_playing == push_at(self@, seek_target(self@, time_micros) as int, !self@.status.paused),
    {
        let time = match &self.now_playing {
            Some(meta) => if meta.duration_micros > END_GUARD_MICROS {
                let latest = meta.duration_micros - END_GUARD_MICROS;
                if time_micros < latest {
                    time_micros
                } else {
                    latest
                }
            } else {
                0
            },
            None => time_micros,
        };
        let playing = !self.is_paused();
        PlayerEffects {
            command: Some(Command::Seek { position_micros: time, token: None }),
            now_playing: self.push_now_playing(time, playing),
        }
    }

    pub fn is_playback_complete(&self) -> (r: bool)
        ensures
            r == (self@.status.phase == Phase::Idle || self@.status.phase == Phase::Ended),
    {
        match self.status.phase {
            Phase::Idle | Phase::Ended => true,
            _ => false,
        }
    }

    pub fn is_paused(&self) -> (r: bool)
        ensures
            r == self@.status.paused,
    {
        self.status.paused
    }

    pub fn can_resume(&self) -> (r: bool)
        ensures
            r == (self@.status.phase == Phase::Playing || self@.status.phase == Phase::Paused),
    {
        match self.status.phase {
            Phase::Playing | Phase::Paused => true,
            _ => false,
        }
    }

    /// Stop playback, pausing the device, and forget the now-playing metadata.
    pub fn stop(&mut self) -> (r: PlayerEffects)
        ensures
            final(self)@ == (PlayerView { now_playing: None, status: old(self)@.status }),
            r.command == Some(Command::Stop { pause_device: true }),
            r.now_playing is None,
    {
        proof {
            use_type_invariant(&*self);
        }
        self.now_playing = None;
        PlayerEffects { command: Some(Command::Stop { pause_device: true }), now_playing: None }
    }

    /// Stop between tracks: the device keeps running and the metadata stays.
    pub fn stop_for_transition(&self) -> (r: PlayerEffects)
        ensures
            r.command == Some(Command::Stop { pause_device: false }),
            r.now_playing is None,
    {
        PlayerEffects { command: Some(Command::Stop { pause_device: false }), now_playing: None }
    }

    pub fn set_channel_mode(&self, mode: ChannelMode) -> (r: PlayerEffects)
        ensures
            r.command == Some(Command::SetChannelMode(mode)),
            r.now_playing is None,
    {
        PlayerEffects { command: Some(Command::SetChannelMode(mode)), now_playing: None }
    }

    pub fn set_equalizer(&self, settings: EqualizerSettings) -> (r: PlayerEffects)
        ensures
            r.command == Some(Command::SetEqualizer(settings)),
            r.now_playing is None,
    {
        PlayerEffects { command: Some(Command::SetEqualizer(settings)), now_playing: None }
    }

    /// Whether playback keeps going or holds paused after migrating to a new
    /// output device.
    pub fn set_device_change_behavior(&self, behavior: DeviceChangeBehavior) -> (r: PlayerEffects)
        ensures
            r.command == Some(Command::SetDeviceChangeBehavior(behavior)),
            r.now_playing is None,
    {
        PlayerEffects { command: Some(Command::SetDeviceChangeBehavior(behavior)), now_playing: None }
    }

    /// Whether the output stream follows the device's default sample rate or
    /// reopens at each track's native rate.
    pub fn set_sample_rate_mode(&self, mode: SampleRateMode) -> (r: PlayerEffects)
        ensures
            r.command == Some(Command::SetSampleRateMode(mode)),
            r.now_playing is None,
    {
        PlayerEffects { command: Some(Command::SetSampleRateMode(mode)), now_playing: None }
    }

    /// Replace the now-playing metadata, telling the engine the new duration.
    pub fn update_metadata(&mut self, meta: NowPlayingMeta) -> (r: PlayerEffects)
        ensures
            final(self)@ == after_load(old(self)@, meta),
            r.command == Some(Command::SetDuration(meta.duration_micros)),
            r.now_playing == push_current(after_load(old(self)@, meta)),
    {
        let duration = meta.duration_micros;
        proof {
            use_type_invariant(&*self);
        }
        self.now_playing = Some(meta);
        PlayerEffects { command: Some(Command::SetDuration(duration)), now_playing: self.update_now_playing_system() }
    }

    pub fn get_position(&self) -> (r: u64)
        ensures
            r == self@.status.spec_position(),
    {
        proof {
            use_type_invariant(self);
        }
        self.status.position()
    }

    /// How far the position clock runs ahead of the speakers.
    pub fn output_latency(&self) -> (r: u64)
        ensures
            r == self@.status.output_latency_micros,
    {
        self.status.output_latency()
    }

    /// The outgoing (fading) session's live position during a crossfade.
    pub fn fading_position(&self) -> (r: Option<u64>)
        ensures
            match self@.status.fading {
                None => r is None,
                Some(f) => r == Some(
                    clamped_position(
                        raw_position(f.base_micros, f.played_samples, self@.status.channels, self@.status.sample_rate),
                        f.duration_micros,
                    ) as u64,
                ),
            },
    {
        proof {
            use_type_invariant(self);
        }
        self.status.fading_position()
    }

    /// The engine's current session token (the last session's if idle).
    pub fn session_token(&self) -> (r: u64)
        ensures
            r == self@.status.token,
    {
        self.status.token
    }

    /// Seek a specific session; the engine ignores it if a completed crossfade
    /// has since promoted a different one.
    pub fn seek_for_session(&self, time_micros: u64, token: u64) -> (r: PlayerEffects)
        ensures
            r.command == Some(Command::Seek { position_micros: time_micros, token: Some(token) }),
            r.now_playing == push_at(self@, time_micros as int, !self@.status.paused),
    {
        let playing = !self.is_paused();
        PlayerEffects {
            command: Some(Command::Seek { position_micros: time_micros, token: Some(token) }),
            now_playing: self.push_now_playing(time_micros, playing),
        }
    }

    /// The engine status last observed.
    pub fn status(&self) -> (r: EngineStatus)
        ensures
            r == self@.status,
    {
        self.status
    }

    fn update_now_playing_system(&self) -> (r: Option<NowPlayingUpdate>)
        ensures
            r == push_current(self@),
    {
        let position = self.get_position();
        let playing = !self.is_paused();
        self.push_now_playing(position, playing)
    }

    fn push_now_playing(&self, position_micros: u64, playing: bool) -> (r: Option<NowPlayingUpdate>)
        ensures
            r == push_at(self@, position_micros as int, playing),
    {
        if self.now_playing.is_some() {
            Some(NowPlayingUpdate { position_micros, playing })
        } else {
            None
        }
    }
}

/// A seek never lands in the last two seconds of a track whose metadata is
/// known, and a seek within the allowed range lands where it was asked.
pub proof fn lemma_seek_respects_end_guard(view: PlayerView, time_micros: u64)
    ensures
        view.now_playing matches Some(meta) ==> (meta.duration_micros > END_GUARD_MICROS ==> seek_target(view, time_micros) <= meta.duration_micros - END_GUARD_MICROS),
        view.now_playing matches Some(meta) ==> (meta.duration_micros <= END_GUARD_MICROS ==> seek_target(view, time_micros) == 0),
        view.now_playing matches Some(meta) ==> (time_micros + END_GUARD_MICROS <= meta.duration_micros ==> seek_target(view, time_micros) == time_micros),
        view.now_playing is None ==> seek_target(view, time_micros) == time_micros,
{
}

/// A crossfading load shows nothing new until it is committed; committing it
/// then shows the incoming track's metadata.
pub proof fn lemma_crossfade_defers_now_playing(view: PlayerView, meta: NowPlayingMeta, fade_micros: u64, start_at_micros: Option<u64>)
    ensures
        load_push(view, meta, Transition::Crossfade(fade_micros), start_at_micros) is None,
        push_current(after_load(view, meta)) is Some,
        after_load(view, meta).now_playing == Some(meta),
{
}

/// An immediate load shows the new track at once, playing, from its start offset.
pub proof fn lemma_immediate_load_shows_new_track(view: PlayerView, meta: NowPlayingMeta, start_at_micros: Option<u64>)
    ensures
        load_push(view, meta, Transition::Immediate, start_at_micros) == Some(
            NowPlayingUpdate {
                position_micros: match start_at_micros {
                    Some(t) => t,
                    None => 0,
                },
                playing: true,
            },
        ),
{
}

/// After a stop, nothing is shown until new metadata arrives: no operation
/// pushes to the display.
pub proof fn lemma_stop_clears_display(view: PlayerView, position_micros: int, playing: bool)
    ensures
        push_at(PlayerView { now_playing: None, status: view.status }, position_micros, playing) is None,
{
}

/// What the now-playing display is told is the engine's own clock and play
/// state: with a track shown, the position the engine reports and whether
/// it is not paused; with none, nothing.
pub proof fn lemma_push_reports_the_engine(view: PlayerView)
    ensures
        view.now_playing is Some ==> push_current(view) == Some(
            NowPlayingUpdate { position_micros: view.status.spec_position() as u64, playing: !view.status.paused },
        ),
        view.now_playing is None ==> push_current(view) is None,
{
}

} // verus!
