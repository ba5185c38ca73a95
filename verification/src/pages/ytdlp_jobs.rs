//! The download formats a yt-dlp job can ask for, and how a job's status
//! moves: restored from history, updated from the daemon's reports, kept or
//! cleared, and checked for duplicates before a new download starts.

use vstd::prelude::*;

use crate::api::{JobState, YtdlpAudioFormat};
use crate::text::{same_text, trim, trimmed};

verus! {

#[derive(Clone, Copy, Debug, PartialEq, Eq, Structural)]
pub enum AudioFormat {
    BestAudio,
    Mp3,
    Flac,
    Opus,
    Wav,
    Video,
}

impl AudioFormat {
    /// The i18n key of the format's label.
    pub fn label_key(self) -> (r: &'static str)
        ensures
            r@ == match self {
                AudioFormat::BestAudio => "ytdlp_format_best_audio"@,
                AudioFormat::Mp3 => "ytdlp_format_mp3"@,
                AudioFormat::Flac => "ytdlp_format_flac"@,
                AudioFormat::Opus => "ytdlp_format_opus"@,
                AudioFormat::Wav => "ytdlp_format_wav"@,
                AudioFormat::Video => "ytdlp_format_video"@,
            },
    {
        match self {
            AudioFormat::BestAudio => "ytdlp_format_best_audio",
            AudioFormat::Mp3 => "ytdlp_format_mp3",
            AudioFormat::Flac => "ytdlp_format_flac",
            AudioFormat::Opus => "ytdlp_format_opus",
            AudioFormat::Wav => "ytdlp_format_wav",
            AudioFormat::Video => "ytdlp_format_video",
        }
    }

    /// The format the daemon's job is asked for.
    pub fn api(self) -> (r: YtdlpAudioFormat)
        ensures
            r == match self {
                AudioFormat::BestAudio => YtdlpAudioFormat::Best,
                AudioFormat::Mp3 => YtdlpAudioFormat::Mp3,
                AudioFormat::Flac => YtdlpAudioFormat::Flac,
                AudioFormat::Opus => YtdlpAudioFormat::Opus,
                AudioFormat::Wav => YtdlpAudioFormat::Wav,
                AudioFormat::Video => YtdlpAudioFormat::Video,
            },
    {
        match self {
            AudioFormat::BestAudio => YtdlpAudioFormat::Best,
            AudioFormat::Mp3 => YtdlpAudioFormat::Mp3,
            AudioFormat::Flac => YtdlpAudioFormat::Flac,
            AudioFormat::Opus => YtdlpAudioFormat::Opus,
            AudioFormat::Wav => YtdlpAudioFormat::Wav,
            AudioFormat::Video => YtdlpAudioFormat::Video,
        }
    }

    /// The format a history entry names: `MP3`, `FLAC`, `OPUS`, `WAV` or
    /// `Video (MP4)`; anything else is the best audio.
    pub fn from_str(value: &str) -> (r: Self)
        ensures
            r == if value@ == "MP3"@ {
                AudioFormat::Mp3
            } else if value@ == "FLAC"@ {
                AudioFormat::Flac
            } else if value@ == "OPUS"@ {
                AudioFormat::Opus
            } else if value@ == "WAV"@ {
                AudioFormat::Wav
            } else if value@ == "Video (MP4)"@ {
                AudioFormat::Video
            } else {
                AudioFormat::BestAudio
            },
    {
        if crate::text::same_text(value, "MP3") {
            AudioFormat::Mp3
        } else if crate::text::same_text(value, "FLAC") {
            AudioFormat::Flac
        } else if crate::text::same_text(value, "OPUS") {
            AudioFormat::Opus
        } else if crate::text::same_text(value, "WAV") {
            AudioFormat::Wav
        } else if crate::text::same_text(value, "Video (MP4)") {
            AudioFormat::Video
        } else {
            AudioFormat::BestAudio
        }
    }
}


/// Where a yt-dlp job stands.
#[derive(Clone, Debug, PartialEq, Eq)]
pub enum JobStatus {
    Pending,
    Downloading,
    Processing,
    Completed,
    Failed(String),
}

/// The mathematical value of a [`JobStatus`].
pub enum JobStatusView {
    Pending,
    Downloading,
    Processing,
    Completed,
    Failed(Seq<char>),
}

impl View for JobStatus {
    type V = JobStatusView;

    open spec fn view(&self) -> JobStatusView {
        match self {
            JobStatus::Pending => JobStatusView::Pending,
            JobStatus::Downloading => JobStatusView::Downloading,
            JobStatus::Processing => JobStatusView::Processing,
            JobStatus::Completed => JobStatusView::Completed,
            JobStatus::Failed(message) => JobStatusView::Failed(message@),
        }
    }
}

impl JobStatusView {
    /// A job is active while it waits, downloads or post-processes.
    pub open spec fn active(self) -> bool {
        self is Pending || self is Downloading || self is Processing
    }
}

impl JobStatus {
    pub fn is_active(&self) -> (r: bool)
        ensures
            r == self@.active(),
    {
        match self {
            JobStatus::Pending | JobStatus::Downloading | JobStatus::Processing => true,
            _ => false,
        }
    }
}

/// The status a job restored from the download history starts in: completed
/// when the history says `completed`, otherwise failed with the recorded
/// error, or with an empty message when none was recorded.
pub open spec fn seeded_status(status: Seq<char>, error: Option<Seq<char>>) -> JobStatusView {
    if status == "completed"@ {
        JobStatusView::Completed
    } else {
        JobStatusView::Failed(
            match error {
                Some(message) => message,
                None => Seq::empty(),
            },
        )
    }
}

pub fn seed_status(status: &str, error: &Option<String>) -> (r: JobStatus)
    ensures
        r@ == seeded_status(status@, error.deep_view()),
{
    if same_text(status, "completed") {
        JobStatus::Completed
    } else {
        JobStatus::Failed(
            match error {
                Some(message) => message.clone(),
                None => String::new(),
            },
        )
    }
}

/// The status a daemon report moves a job to: a running job is processing
/// in the `processing` phase and downloading otherwise; a finished one is
/// completed; a failed one carries the report's error message (or says that
/// yt-dlp failed); a cancelled one says so; an unknown state keeps the status
/// the job had.
pub open spec fn reported_status(
    current: JobStatusView,
    state: JobState,
    phase: Seq<char>,
    error: Option<Seq<char>>,
) -> JobStatusView {
    match state {
        JobState::Running => if phase == "processing"@ {
            JobStatusView::Processing
        } else {
            JobStatusView::Downloading
        },
        JobState::Finished => JobStatusView::Completed,
        JobState::Failed => JobStatusView::Failed(
            match error {
                Some(message) => message,
                None => "yt-dlp failed"@,
            },
        ),
        JobState::Cancelled => JobStatusView::Failed("yt-dlp was cancelled"@),
        JobState::Unknown => current,
    }
}

pub fn report_status(current: &JobStatus, state: JobState, phase: &str, error: Option<&str>) -> (r: JobStatus)
    ensures
        r@ == reported_status(current@, state, phase@, error.deep_view()),
{
    match state {
        JobState::Running => if same_text(phase, "processing") {
            JobStatus::Processing
        } else {
            JobStatus::Downloading
        },
        JobState::Finished => JobStatus::Completed,
        JobState::Failed => JobStatus::Failed(
            match error {
                Some(message) => String::from_str(message),
                None => String::from_str("yt-dlp failed"),
            },
        ),
        JobState::Cancelled => JobStatus::Failed(String::from_str("yt-dlp was cancelled")),
        JobState::Unknown => match current {
            JobStatus::Pending => JobStatus::Pending,
            JobStatus::Downloading => JobStatus::Downloading,
            JobStatus::Processing => JobStatus::Processing,
            JobStatus::Completed => JobStatus::Completed,
            JobStatus::Failed(message) => JobStatus::Failed(message.clone()),
        },
    }
}

/// Whether a report leaves the job at full progress: only a finished one
/// does; otherwise the progress is what the report's counts give, or stays.
pub fn report_completes(state: JobState) -> (r: bool)
    ensures
        r == (state == JobState::Finished),
{
    match state {
        JobState::Finished => true,
        _ => false,
    }
}

/// Whether an active job already downloads `url`: a job's URL is compared
/// without its surrounding white space.
pub open spec fn active_duplicate(jobs: Seq<(Seq<char>, JobStatusView)>, url: Seq<char>) -> bool {
    exists|i: int| 0 <= i < jobs.len() && #[trigger] trimmed(jobs[i].0) == url && jobs[i].1.active()
}

pub fn has_active_duplicate(jobs: &Vec<(String, JobStatus)>, url: &str) -> (r: bool)
    ensures
        r == active_duplicate(jobs@.map_values(|job: (String, JobStatus)| (job.0@, job.1@)), url@),
{
    let ghost seen = jobs@.map_values(|job: (String, JobStatus)| (job.0@, job.1@));
    let mut i: usize = 0;
    while i < jobs.len()
        invariant
            i <= jobs.len(),
            seen == jobs@.map_values(|job: (String, JobStatus)| (job.0@, job.1@)),
            forall|j: int| 0 <= j < i ==> !(#[trigger] trimmed(seen[j].0) == url@ && seen[j].1.active()),
        decreases jobs.len() - i,
    {
        let job = &jobs[i];
        if same_text(trim(job.0.as_str()), url) && job.1.is_active() {
            assert(trimmed(seen[i as int].0) == url@ && seen[i as int].1.active());
            return true;
        }
        i += 1;
    }
    false
}

/// A job restored from history is never active: clearing the finished jobs
/// removes it, and it never blocks a new download of its URL.
pub proof fn lemma_restored_jobs_are_inactive(status: Seq<char>, error: Option<Seq<char>>)
    ensures
        !seeded_status(status, error).active(),
{
}

/// A job is active exactly while it is unfinished: waiting, downloading or
/// post-processing. A completed or failed job is not.
pub proof fn lemma_unfinished_jobs_are_active(status: JobStatusView)
    ensures
        status is Pending ==> status.active(),
        status is Downloading ==> status.active(),
        status is Processing ==> status.active(),
        status is Completed ==> !status.active(),
        status is Failed ==> !status.active(),
{
}

/// An unfinished job (waiting, downloading or post-processing) for a URL
/// refuses a second download of it.
pub proof fn lemma_an_unfinished_job_blocks_its_url(jobs: Seq<(Seq<char>, JobStatusView)>, url: Seq<char>, i: int)
    requires
        0 <= i < jobs.len(),
        trimmed(jobs[i].0) == url,
        jobs[i].1 is Pending || jobs[i].1 is Downloading || jobs[i].1 is Processing,
    ensures
        active_duplicate(jobs, url),
{
}

/// Finished jobs, completed or failed, never refuse a download.
pub proof fn lemma_finished_jobs_never_block(jobs: Seq<(Seq<char>, JobStatusView)>, url: Seq<char>)
    requires
        forall|i: int| 0 <= i < jobs.len() ==> (#[trigger] jobs[i]).1 is Completed || jobs[i].1 is Failed,
    ensures
        !active_duplicate(jobs, url),
{
}

/// A report of a running job leaves it active; a report that it finished,
/// failed or was cancelled ends it.
pub proof fn lemma_reports_start_and_end_jobs(
    current: JobStatusView,
    state: JobState,
    phase: Seq<char>,
    error: Option<Seq<char>>,
)
    ensures
        state == JobState::Running ==> reported_status(current, state, phase, error) is Processing
            || reported_status(current, state, phase, error) is Downloading,
        state == JobState::Finished ==> reported_status(current, state, phase, error) is Completed,
        (state == JobState::Failed || state == JobState::Cancelled) ==> reported_status(current, state, phase, error) is Failed,
        state == JobState::Unknown ==> reported_status(current, state, phase, error) == current,
{
}

} // verus!
