//! The audio output: the stream format it opened, what it reports, and the
//! decisions the device backend needs (which supported format to open, how
//! large a buffer to ask for, which stream errors need a rebuild).

use vstd::prelude::*;

verus! {

/// Channel count and sample rate of an opened output stream.
#[derive(Clone, Copy, Debug, PartialEq, Eq, Structural)]
pub struct SinkConfig {
    pub channels: usize,
    pub sample_rate: u32,
}

/// Out-of-band notifications from the audio backend.
#[derive(Clone, Copy, Debug, PartialEq, Eq, Structural)]
pub enum SinkEvent {
    /// The device is gone (unplugged, format lost) — recovery lands on
    /// whatever device is the default now.
    DeviceLost,
    /// The stream stalled on a still-present device. Rebuilding lands on the
    /// same device.
    StreamStalled,
    /// The OS default output device changed while our stream kept playing on
    /// the old one.
    DefaultDeviceChanged,
}

/// What the engine is told about a sink event.
#[derive(Clone, Copy, Debug, PartialEq, Eq, Structural)]
pub enum EngineNotice {
    DeviceError { device_lost: bool },
    DefaultDeviceChanged,
}

/// The engine message a sink event becomes.
pub fn engine_notice(event: SinkEvent) -> (r: EngineNotice)
    ensures
        r == match event {
            SinkEvent::DeviceLost => EngineNotice::DeviceError { device_lost: true },
            SinkEvent::StreamStalled => EngineNotice::DeviceError { device_lost: false },
            SinkEvent::DefaultDeviceChanged => EngineNotice::DefaultDeviceChanged,
        },
{
    match event {
        SinkEvent::DeviceLost => EngineNotice::DeviceError { device_lost: true },
        SinkEvent::StreamStalled => EngineNotice::DeviceError { device_lost: false },
        SinkEvent::DefaultDeviceChanged => EngineNotice::DefaultDeviceChanged,
    }
}

/// The kinds of stream error the backend reports.
#[derive(Clone, Copy, Debug, PartialEq, Eq, Structural)]
pub enum StreamErrorKind {
    DeviceNotAvailable,
    /// A buffer underrun the backend recovers in place.
    Xrun,
    /// The backend rerouted the stream itself; it stays active.
    DeviceChanged,
    Other,
}

/// The sink event a stream error raises, if any. An underrun and a reroute are
/// recovered by the backend in place, so they raise nothing.
pub fn stream_error_event(kind: StreamErrorKind) -> (r: Option<SinkEvent>)
    ensures
        r == match kind {
            StreamErrorKind::DeviceNotAvailable => Some(SinkEvent::DeviceLost),
            StreamErrorKind::Xrun => None,
            StreamErrorKind::DeviceChanged => None,
            StreamErrorKind::Other => Some(SinkEvent::StreamStalled),
        },
{
    match kind {
        StreamErrorKind::DeviceNotAvailable => Some(SinkEvent::DeviceLost),
        StreamErrorKind::Xrun => None,
        StreamErrorKind::DeviceChanged => None,
        StreamErrorKind::Other => Some(SinkEvent::StreamStalled),
    }
}

/// The next smoothed output latency: the first reading as is, then an
/// exponential average giving the new reading one eighth of the weight.
pub fn smoothed_latency(prior_micros: u64, sample_micros: u64) -> (r: u64)
    requires
        prior_micros * 7 + sample_micros <= u64::MAX,
    ensures
        r == if prior_micros == 0 {
            sample_micros as int
        } else {
            (prior_micros * 7 + sample_micros) / 8
        },
{
    if prior_micros == 0 {
        sample_micros
    } else {
        (prior_micros * 7 + sample_micros) / 8
    }
}

pub open spec fn clamp_u32(value: u32, min: u32, max: u32) -> u32 {
    if value < min {
        min
    } else if value > max {
        max
    } else {
        value
    }
}

/// `value` brought into `min..=max`.
fn clamp_to(value: u32, min: u32, max: u32) -> (r: u32)
    requires
        min <= max,
    ensures
        r == clamp_u32(value, min, max),
{
    if value < min {
        min
    } else if value > max {
        max
    } else {
        value
    }
}

/// The fixed buffer size to ask the device for, or `None` to leave the choice
/// to the backend when it does not report a supported range. Android asks for
/// a larger buffer, for stability when the UI thread is busy.
pub fn preferred_buffer_size(on_android: bool, supported: Option<(u32, u32)>) -> (r: Option<u32>)
    requires
        supported matches Some((min, max)) ==> min <= max,
    ensures
        r == match supported {
            Some((min, max)) => Some(clamp_u32(if on_android { 2048u32 } else { 512u32 }, min, max)),
            None => None,
        },
{
    match supported {
        Some((min, max)) => {
            let target: u32 = if on_android { 2048 } else { 512 };
            Some(clamp_to(target, min, max))
        },
        None => None,
    }
}

/// One entry of the device's supported output formats.
#[derive(Clone, Copy, Debug, PartialEq, Eq, Structural)]
pub struct OutputFormatRange {
    pub channels: u16,
    /// The backend's sample format, by an identifier the caller assigns.
    pub sample_format: u16,
    pub min_sample_rate: u32,
    pub max_sample_rate: u32,
}

pub open spec fn abs_diff(a: u32, b: u32) -> u32 {
    if a >= b {
        (a - b) as u32
    } else {
        (b - a) as u32
    }
}

impl OutputFormatRange {
    /// Whether the range has the default format's channel count and sample format.
    pub open spec fn matches(self, channels: u16, sample_format: u16) -> bool {
        self.channels == channels && self.sample_format == sample_format
    }

    /// The rate this range would open at for a desired rate.
    pub open spec fn rate_for(self, desired: u32) -> u32 {
        clamp_u32(desired, self.min_sample_rate, self.max_sample_rate)
    }

    /// How far that rate is from the desired one.
    pub open spec fn distance(self, desired: u32) -> u32 {
        abs_diff(self.rate_for(desired), desired)
    }
}

/// Whether a range can be chosen at all: it matches the default format, and
/// its distance is below the `u32::MAX` that the search starts from.
pub open spec fn candidate(range: OutputFormatRange, channels: u16, sample_format: u16, desired: u32) -> bool {
    range.matches(channels, sample_format) && range.distance(desired) < u32::MAX
}

/// The supported format to open for a desired sample rate: among the ranges
/// with the default format's channel count and sample format, the one whose
/// clamped rate is nearest the desired one, the first on a tie. Returns its
/// index and the rate to open at, or `None` to keep the default format.
pub fn best_output_format(
    channels: u16,
    sample_format: u16,
    ranges: &Vec<OutputFormatRange>,
    desired: u32,
) -> (r: Option<(usize, u32)>)
    requires
        forall|i: int| 0 <= i < ranges@.len() && (#[trigger] ranges@[i]).matches(channels, sample_format)
            ==> ranges@[i].min_sample_rate <= ranges@[i].max_sample_rate,
    ensures
        r is None <==> forall|i: int| 0 <= i < ranges@.len() ==> !candidate(#[trigger] ranges@[i], channels, sample_format, desired),
        r matches Some((i, rate)) ==> {
            &&& i < ranges@.len()
            &&& candidate(ranges@[i as int], channels, sample_format, desired)
            &&& rate == ranges@[i as int].rate_for(desired)
            &&& forall|j: int| 0 <= j < ranges@.len() && candidate(#[trigger] ranges@[j], channels, sample_format, desired)
                ==> ranges@[i as int].distance(desired) <= ranges@[j].distance(desired)
            &&& forall|j: int| 0 <= j < i && candidate(#[trigger] ranges@[j], channels, sample_format, desired)
                ==> ranges@[i as int].distance(desired) < ranges@[j].distance(desired)
        },
{
    let mut best: Option<(usize, u32)> = None;
    let mut best_distance: u32 = u32::MAX;
    let mut k: usize = 0;
    while k < ranges.len()
        invariant
            k <= ranges@.len(),
            forall|i: int| 0 <= i < ranges@.len() && (#[trigger] ranges@[i]).matches(channels, sample_format)
                ==> ranges@[i].min_sample_rate <= ranges@[i].max_sample_rate,
            best is None <==> forall|i: int| 0 <= i < k ==> !candidate(#[trigger] ranges@[i], channels, sample_format, desired),
            best is None ==> best_distance == u32::MAX,
            best matches Some((i, rate)) ==> {
                &&& i < k
                &&& candidate(ranges@[i as int], channels, sample_format, desired)
                &&& rate == ranges@[i as int].rate_for(desired)
                &&& best_distance == ranges@[i as int].distance(desired)
                &&& forall|j: int| 0 <= j < k && candidate(#[trigger] ranges@[j], channels, sample_format, desired)
                    ==> best_distance <= ranges@[j].distance(desired)
                &&& forall|j: int| 0 <= j < i && candidate(#[trigger] ranges@[j], channels, sample_format, desired)
                    ==> best_distance < ranges@[j].distance(desired)
            },
        decreases ranges@.len() - k,
    {
        let range = ranges[k];
        if range.channels == channels && range.sample_format == sample_format {
            let rate = clamp_to(desired, range.min_sample_rate, range.max_sample_rate);
            let distance = if rate >= desired { rate - desired } else { desired - rate };
            if distance < best_distance {
                best_distance = distance;
                best = Some((k, rate));
            }
        }
        k += 1;
    }
    best
}

/// An output that discards audio: it opens at the desired rate (44.1 kHz when
/// none is asked for), in stereo, and never pulls samples. Lets the engine's
/// state machine run without an output device.
pub struct NullSink {
    config: Option<SinkConfig>,
}

/// The format a null sink opens at.
pub open spec fn null_config(desired_sample_rate: Option<u32>) -> SinkConfig {
    SinkConfig {
        channels: 2,
        sample_rate: match desired_sample_rate {
            Some(rate) => rate,
            None => 44_100,
        },
    }
}

impl NullSink {
    pub fn new() -> (r: Self)
        ensures
            r.spec_config() is None,
    {
        NullSink { config: None }
    }

    /// The format of the currently open stream, if any.
    pub closed spec fn spec_config(&self) -> Option<SinkConfig> {
        self.config
    }

    /// The format `open` would produce for this source rate.
    pub fn probe_config(&mut self, desired_sample_rate: Option<u32>) -> (r: Result<SinkConfig, String>)
        ensures
            r == Ok::<SinkConfig, String>(null_config(desired_sample_rate)),
            final(self).spec_config() == old(self).spec_config(),
    {
        Ok(SinkConfig { channels: 2, sample_rate: desired_sample_rate.unwrap_or(44_100) })
    }

    /// Opens the stream, replacing any open one. The data callback is built for
    /// the opened format and dropped, since nothing is ever played.
    pub fn open<F, C>(&mut self, desired_sample_rate: Option<u32>, make_cb: F) -> (r: Result<SinkConfig, String>)
        where
            F: FnOnce(SinkConfig) -> C,
        requires
            make_cb.requires((null_config(desired_sample_rate),)),
        ensures
            r == Ok::<SinkConfig, String>(null_config(desired_sample_rate)),
            final(self).spec_config() == Some(null_config(desired_sample_rate)),
    {
        let config = SinkConfig { channels: 2, sample_rate: desired_sample_rate.unwrap_or(44_100) };
        let _callback = make_cb(config);
        self.config = Some(config);
        Ok(config)
    }

    pub fn config(&self) -> (r: Option<SinkConfig>)
        ensures
            r == self.spec_config(),
    {
        self.config
    }

    pub fn play(&mut self) -> (r: Result<(), String>)
        ensures
            r is Ok,
            final(self).spec_config() == old(self).spec_config(),
    {
        Ok(())
    }

    pub fn pause(&mut self)
        ensures
            final(self).spec_config() == old(self).spec_config(),
    {
    }

    pub fn close(&mut self)
        ensures
            final(self).spec_config() is None,
    {
        self.config = None;
    }
}

/// A range opens at the supported rate nearest the desired one: a rate
/// inside the range, the desired rate itself when the range holds it, and no
/// farther from it than any `other` rate of the range. Its distance is how far
/// that rate lies from the desired one.
pub proof fn lemma_range_opens_at_the_nearest_rate(range: OutputFormatRange, desired: u32, other: u32)
    requires
        range.min_sample_rate <= range.max_sample_rate,
    ensures
        range.min_sample_rate <= range.rate_for(desired) <= range.max_sample_rate,
        range.min_sample_rate <= desired <= range.max_sample_rate ==> range.rate_for(desired) == desired,
        range.distance(desired) as int == (if range.rate_for(desired) >= desired {
            range.rate_for(desired) - desired
        } else {
            desired - range.rate_for(desired)
        }),
        range.min_sample_rate <= other <= range.max_sample_rate
            ==> range.distance(desired) as int <= (if other >= desired { other - desired } else { desired - other }),
{
}

/// A null sink opens in stereo at the rate asked for, or at 44.1 kHz when
/// none is.
pub proof fn lemma_null_sink_format(desired_sample_rate: Option<u32>)
    ensures
        null_config(desired_sample_rate).channels == 2,
        desired_sample_rate matches Some(rate) ==> null_config(desired_sample_rate).sample_rate == rate,
        desired_sample_rate is None ==> null_config(desired_sample_rate).sample_rate == 44_100,
{
}

} // verus!
