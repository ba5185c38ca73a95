//! The engine's side of playback: its phases, its events and the status
//! snapshot it publishes.
//!
//! Times are whole microseconds. The engine's live counters (the samples the
//! audio callback has played, the measured output latency) are read by the
//! caller into an [`EngineStatus`]; everything computed from them is here.

use vstd::prelude::*;

verus! {

/// How a newly loaded source replaces the current one.
#[derive(Clone, Copy, Debug, PartialEq, Eq, Structural)]
pub enum Transition {
    Immediate,
    /// Mix the outgoing session out over this many microseconds.
    Crossfade(u64),
}

#[derive(Clone, Copy, Debug, PartialEq, Eq, Structural)]
pub enum Phase {
    Idle,
    Playing,
    Paused,
    Ended,
}

impl Default for Phase {
    fn default() -> (r: Self)
        ensures
            r == Phase::Idle,
    {
        Phase::Idle
    }
}

/// What actually happened when a load started playing.
#[derive(Clone, Copy, Debug, PartialEq, Eq, Structural)]
pub struct LoadOutcome {
    /// False when a requested crossfade fell back to an immediate switch
    /// (config mismatch, idle/drained outgoing session, or paused).
    pub crossfaded: bool,
}

/// What the engine reports, each tagged with the session token it concerns.
#[derive(Clone, Debug, PartialEq, Eq)]
pub enum Event {
    Loaded { token: u64 },
    PhaseChanged { token: u64, phase: Phase },
    Position { token: u64, position_micros: u64 },
    Ended { token: u64 },
    /// A crossfade finished and the outgoing session was torn down. `token` is
    /// the now-sole (incoming) session; `from_token` the retired outgoing one.
    TrackSwitched { token: u64, from_token: u64 },
    Error { token: u64, message: String },
}

/// The outgoing session during a crossfade.
#[derive(Clone, Copy, Debug, PartialEq, Eq, Structural)]
pub struct FadingStatus {
    pub token: u64,
    pub duration_micros: u64,
    /// Offset the session's position started from (load or seek target).
    pub base_micros: u64,
    /// Samples (over all channels) the audio callback has played since.
    pub played_samples: u64,
}

/// A snapshot of the engine's published status.
#[derive(Clone, Copy, Debug, PartialEq, Eq, Structural)]
pub struct EngineStatus {
    pub token: u64,
    pub phase: Phase,
    pub paused: bool,
    pub duration_micros: u64,
    /// A load is resolving (probe/network); its token. The current session
    /// keeps playing until it lands.
    pub pending_token: Option<u64>,
    /// A crossfade is mixing out the previous session.
    pub fading: Option<FadingStatus>,
    pub base_micros: u64,
    pub played_samples: u64,
    pub channels: u32,
    pub sample_rate: u32,
    pub output_latency_micros: u64,
}

/// The unclamped position: the base offset plus the time the played samples
/// last at the stream's rate, or the base alone when the stream has no format.
pub open spec fn raw_position(base_micros: u64, played_samples: u64, channels: u32, sample_rate: u32) -> int {
    if channels > 0 && sample_rate > 0 {
        base_micros + (played_samples * 1_000_000) / (channels * sample_rate)
    } else {
        base_micros as int
    }
}

/// Whether the position arithmetic stays within `u64`.
pub open spec fn position_fits(base_micros: u64, played_samples: u64, channels: u32, sample_rate: u32) -> bool {
    &&& played_samples * 1_000_000 <= u64::MAX
    &&& raw_position(base_micros, played_samples, channels, sample_rate) <= u64::MAX
}

/// The position clamped to the track's duration (a zero duration is unknown,
/// and clamps nothing).
pub open spec fn clamped_position(raw: int, duration_micros: u64) -> int {
    if duration_micros > 0 && raw > duration_micros {
        duration_micros as int
    } else {
        raw
    }
}

/// Position from a base offset plus the samples the audio callback has played,
/// clamped to the track duration. Shared by the current and fading sessions.
pub fn position_from(
    base_micros: u64,
    played_samples: u64,
    channels: u32,
    sample_rate: u32,
    duration_micros: u64,
) -> (r: u64)
    requires
        position_fits(base_micros, played_samples, channels, sample_rate),
    ensures
        r == clamped_position(raw_position(base_micros, played_samples, channels, sample_rate), duration_micros),
{
    let micros = if channels > 0 && sample_rate > 0 {
        assert(0 < channels as int * sample_rate as int <= u64::MAX) by (nonlinear_arith)
            requires
                0 < channels <= u32::MAX,
                0 < sample_rate <= u32::MAX,
        ;
        let per_second: u64 = channels as u64 * sample_rate as u64;
        let played_micros: u64 = played_samples * 1_000_000;
        base_micros + played_micros / per_second
    } else {
        base_micros
    };
    if duration_micros > 0 && micros > duration_micros {
        duration_micros
    } else {
        micros
    }
}

impl FadingStatus {
    /// Whether this session's position can be computed at the given stream format.
    pub open spec fn fits(self, channels: u32, sample_rate: u32) -> bool {
        position_fits(self.base_micros, self.played_samples, channels, sample_rate)
    }
}

impl EngineStatus {
    /// Whether the counters in this snapshot keep every position in range.
    pub open spec fn well_formed(self) -> bool {
        &&& position_fits(self.base_micros, self.played_samples, self.channels, self.sample_rate)
        &&& (self.fading matches Some(f) ==> f.fits(self.channels, self.sample_rate))
    }

    /// The position this snapshot reports.
    pub open spec fn spec_position(self) -> int {
        if self.phase == Phase::Idle {
            0
        } else {
            clamped_position(
                raw_position(self.base_micros, self.played_samples, self.channels, self.sample_rate),
                self.duration_micros,
            )
        }
    }

    /// The status before anything has been loaded: all zero, idle, nothing
    /// pending or fading.
    pub open spec fn idle_spec() -> Self {
        EngineStatus {
            token: 0,
            phase: Phase::Idle,
            paused: false,
            duration_micros: 0,
            pending_token: None,
            fading: None,
            base_micros: 0,
            played_samples: 0,
            channels: 0,
            sample_rate: 0,
            output_latency_micros: 0,
        }
    }

    pub proof fn lemma_idle_is_idle_spec(status: Self)
        requires
            status.token == 0,
            status.phase == Phase::Idle,
            !status.paused,
            status.duration_micros == 0,
            status.pending_token is None,
            status.fading is None,
            status.base_micros == 0,
            status.played_samples == 0,
            status.channels == 0,
            status.sample_rate == 0,
            status.output_latency_micros == 0,
        ensures
            status == Self::idle_spec(),
    {
    }

    pub fn idle() -> (r: Self)
        ensures
            r == Self::idle_spec(),
            r.well_formed(),
    {
        EngineStatus {
            token: 0,
            phase: Phase::Idle,
            paused: false,
            duration_micros: 0,
            pending_token: None,
            fading: None,
            base_micros: 0,
            played_samples: 0,
            channels: 0,
            sample_rate: 0,
            output_latency_micros: 0,
        }
    }

    /// Output buffer plus device latency, zero when the backend won't say.
    pub fn output_latency(&self) -> (r: u64)
        ensures
            r == self.output_latency_micros,
    {
        self.output_latency_micros
    }

    /// True while a load is resolving or a crossfade is mixing out — the single
    /// source of truth the UI gates its transition handling on.
    pub fn transition_in_flight(&self) -> (r: bool)
        ensures
            r == (self.pending_token is Some || self.fading is Some),
    {
        self.pending_token.is_some() || self.fading.is_some()
    }

    pub fn position(&self) -> (r: u64)
        requires
            self.phase != Phase::Idle ==> position_fits(self.base_micros, self.played_samples, self.channels, self.sample_rate),
        ensures
            r == self.spec_position(),
    {
        if self.phase == Phase::Idle {
            return 0;
        }
        position_from(self.base_micros, self.played_samples, self.channels, self.sample_rate, self.duration_micros)
    }

    /// The outgoing session's live position during a crossfade. Uses the
    /// current stream format — a crossfade requires an identical one.
    pub fn fading_position(&self) -> (r: Option<u64>)
        requires
            self.fading matches Some(f) ==> f.fits(self.channels, self.sample_rate),
        ensures
            match self.fading {
                None => r is None,
                Some(f) => r == Some(
                    clamped_position(
                        raw_position(f.base_micros, f.played_samples, self.channels, self.sample_rate),
                        f.duration_micros,
                    ) as u64,
                ),
            },
    {
        match &self.fading {
            None => None,
            Some(fading) => Some(
                position_from(fading.base_micros, fading.played_samples, self.channels, self.sample_rate, fading.duration_micros),
            ),
        }
    }
}

/// Outside the idle phase (playing, paused or ended alike) the position is
/// the clock's reading: the base offset plus the played samples in
/// microseconds at the stream's rate, capped at a known duration. A track
/// that has played to its end reports its duration.
pub proof fn lemma_position_reads_the_clock(status: EngineStatus)
    requires
        status.phase != Phase::Idle,
    ensures
        ({
            let clock = if status.channels > 0 && status.sample_rate > 0 {
                status.base_micros + (status.played_samples * 1_000_000) / (status.channels * status.sample_rate)
            } else {
                status.base_micros as int
            };
            &&& (status.duration_micros == 0 || clock <= status.duration_micros) ==> status.spec_position() == clock
            &&& (status.duration_micros > 0 && clock > status.duration_micros)
                ==> status.spec_position() == status.duration_micros
        }),
{
}

/// The clock never runs backwards: of two snapshots that differ only in the
/// samples played, the one that has played more reports no earlier position.
pub proof fn lemma_position_grows_with_played_samples(status: EngineStatus, more: u64)
    requires
        status.phase != Phase::Idle,
        status.played_samples <= more,
    ensures
        status.spec_position() <= (EngineStatus { played_samples: more, ..status }).spec_position(),
{
    if status.channels > 0 && status.sample_rate > 0 {
        let d = status.channels * status.sample_rate;
        let x = status.played_samples * 1_000_000;
        let y = more * 1_000_000;
        assert(d > 0) by (nonlinear_arith)
            requires
                status.channels > 0,
                status.sample_rate > 0,
                d == status.channels * status.sample_rate,
        ;
        assert(x <= y) by (nonlinear_arith)
            requires
                status.played_samples <= more,
                x == status.played_samples * 1_000_000,
                y == more * 1_000_000,
        ;
        assert(x / d <= y / d) by (nonlinear_arith)
            requires
                0 <= x <= y,
                d > 0,
        ;
    }
}

/// A reported position never runs past a known duration, and an idle engine
/// is at the start.
pub proof fn lemma_position_within_duration(status: EngineStatus)
    ensures
        status.phase == Phase::Idle ==> status.spec_position() == 0,
        status.duration_micros > 0 ==> status.spec_position() <= status.duration_micros,
        status.spec_position() >= 0,
{
    let played = status.played_samples * 1_000_000;
    let per_second = status.channels * status.sample_rate;
    if status.channels > 0 && status.sample_rate > 0 {
        assert(per_second > 0) by (nonlinear_arith)
            requires
                status.channels > 0,
                status.sample_rate > 0,
                per_second == status.channels * status.sample_rate,
        ;
        assert(played / per_second >= 0) by (nonlinear_arith)
            requires
                played >= 0,
                per_second > 0,
        ;
    }
}

} // verus!
