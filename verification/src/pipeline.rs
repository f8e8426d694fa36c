use vstd::prelude::*;

use crate::calendar::{civil_date, date_of, date_text};
use crate::text::joined_text;
use crate::transcript::{meeting_markdown, spec_meeting_markdown};
use crate::wav::{
    spec_wav_format_for, spec_whisper_input, wav_format_for, SampleDecoding, SampleFormat,
    WavFormat,
};

verus! {

/// How long the capture is given to hand over its last samples, in milliseconds.
pub const FLUSH_WAIT_MILLIS: u64 = 500;

/// The sample rate, in Hz, at which a finished recording is written for
/// transcription: whisper takes 16 kHz audio.
pub const TRANSCRIPTION_SAMPLE_RATE: u32 = 16000;

/// The sample depth, in bits, at which a finished recording is written for
/// transcription: whisper takes 16-bit integer samples.
pub const TRANSCRIPTION_BITS: u16 = 16;

/// The format a finished recording is written in for transcription.
pub open spec fn transcription_format() -> WavFormat {
    spec_wav_format_for(TRANSCRIPTION_SAMPLE_RATE, TRANSCRIPTION_BITS)
}

/// Where the work that follows the end of a recording stands.
#[derive(Debug, PartialEq, Eq)]
pub enum RecordingStage {
    /// The capture is being stopped.
    Stopping,
    /// Waiting for the capture to hand over its last samples.
    Flushing,
    /// The recording is being written as a WAV file.
    Exporting,
    /// The WAV file, of the given length in seconds, is being transcribed.
    Transcribing { duration_secs: u64 },
    /// The transcript is being summarized.
    Summarizing { duration_secs: u64, transcript: String },
    /// The note is written; the audio buffer is being emptied.
    Clearing { note: String },
    /// The note is being saved.
    Saving,
    /// The outcome has been handed out; nothing more happens.
    Finished,
}

/// What the outside world reports back after an action.
#[derive(Debug, PartialEq, Eq)]
pub enum RecordingEvent {
    CaptureStopped,
    Flushed,
    /// The WAV file was written; it holds this many samples.
    Exported { sample_count: u64 },
    ExportFailed { message: String },
    Transcribed { transcript: String },
    /// The task that ran the transcription did not come back.
    TranscriptionCrashed { message: String },
    /// The transcription itself reported an error.
    TranscriptionFailed { message: String },
    Summarized { summary: String },
    /// The task that ran the summarization did not come back.
    SummarizationCrashed { message: String },
    /// The summarization itself reported an error.
    SummarizationFailed { message: String },
    BufferCleared,
    Saved { path: String },
    SaveFailed { message: String },
}

/// What the outside world is asked to do next.
#[derive(Debug, PartialEq, Eq)]
pub enum RecordingAction {
    StopCapture,
    WaitForFlush { millis: u64 },
    /// Write the recording as a WAV file in this format.
    ExportWav { format: WavFormat },
    Transcribe,
    Summarize { transcript: String },
    ClearBuffer,
    SaveNote { note: String },
    /// Hand this outcome to the caller.
    Finish { outcome: Result<String, String> },
}

/// A stage with its texts taken as character sequences.
pub enum StageSpec {
    Stopping,
    Flushing,
    Exporting,
    Transcribing(u64),
    Summarizing(u64, Seq<char>),
    Clearing(Seq<char>),
    Saving,
    Finished,
}

/// An event with its texts taken as character sequences.
pub enum EventSpec {
    CaptureStopped,
    Flushed,
    Exported(u64),
    ExportFailed(Seq<char>),
    Transcribed(Seq<char>),
    TranscriptionCrashed(Seq<char>),
    TranscriptionFailed(Seq<char>),
    Summarized(Seq<char>),
    SummarizationCrashed(Seq<char>),
    SummarizationFailed(Seq<char>),
    BufferCleared,
    Saved(Seq<char>),
    SaveFailed(Seq<char>),
}

/// An action with its texts taken as character sequences.
pub enum ActionSpec {
    StopCapture,
    WaitForFlush(u64),
    ExportWav(WavFormat),
    Transcribe,
    Summarize(Seq<char>),
    ClearBuffer,
    SaveNote(Seq<char>),
    Finish(Result<Seq<char>, Seq<char>>),
}

/// The whole work: the date and application the note will carry, and the stage.
pub struct FlowSpec {
    pub date: Seq<char>,
    pub application: Seq<char>,
    pub stage: StageSpec,
}

impl View for RecordingStage {
    type V = StageSpec;

    open spec fn view(&self) -> StageSpec {
        match self {
            RecordingStage::Stopping => StageSpec::Stopping,
            RecordingStage::Flushing => StageSpec::Flushing,
            RecordingStage::Exporting => StageSpec::Exporting,
            RecordingStage::Transcribing { duration_secs } => StageSpec::Transcribing(
                *duration_secs,
            ),
            RecordingStage::Summarizing { duration_secs, transcript } => StageSpec::Summarizing(
                *duration_secs,
                transcript@,
            ),
            RecordingStage::Clearing { note } => StageSpec::Clearing(note@),
            RecordingStage::Saving => StageSpec::Saving,
            RecordingStage::Finished => StageSpec::Finished,
        }
    }
}

impl View for RecordingEvent {
    type V = EventSpec;

    open spec fn view(&self) -> EventSpec {
        match self {
            RecordingEvent::CaptureStopped => EventSpec::CaptureStopped,
            RecordingEvent::Flushed => EventSpec::Flushed,
            RecordingEvent::Exported { sample_count } => EventSpec::Exported(*sample_count),
            RecordingEvent::ExportFailed { message } => EventSpec::ExportFailed(message@),
            RecordingEvent::Transcribed { transcript } => EventSpec::Transcribed(transcript@),
            RecordingEvent::TranscriptionCrashed { message } => EventSpec::TranscriptionCrashed(message@),
            RecordingEvent::TranscriptionFailed { message } => EventSpec::TranscriptionFailed(message@),
            RecordingEvent::Summarized { summary } => EventSpec::Summarized(summary@),
            RecordingEvent::SummarizationCrashed { message } => EventSpec::SummarizationCrashed(message@),
            RecordingEvent::SummarizationFailed { message } => EventSpec::SummarizationFailed(message@),
            RecordingEvent::BufferCleared => EventSpec::BufferCleared,
            RecordingEvent::Saved { path } => EventSpec::Saved(path@),
            RecordingEvent::SaveFailed { message } => EventSpec::SaveFailed(message@),
        }
    }
}

impl View for RecordingAction {
    type V = ActionSpec;

    open spec fn view(&self) -> ActionSpec {
        match self {
            RecordingAction::StopCapture => ActionSpec::StopCapture,
            RecordingAction::WaitForFlush { millis } => ActionSpec::WaitForFlush(*millis),
            RecordingAction::ExportWav { format } => ActionSpec::ExportWav(*format),
            RecordingAction::Transcribe => ActionSpec::Transcribe,
            RecordingAction::Summarize { transcript } => ActionSpec::Summarize(transcript@),
            RecordingAction::ClearBuffer => ActionSpec::ClearBuffer,
            RecordingAction::SaveNote { note } => ActionSpec::SaveNote(note@),
            RecordingAction::Finish { outcome } => ActionSpec::Finish(
                match outcome {
                    Ok(m) => Ok(m@),
                    Err(m) => Err(m@),
                },
            ),
        }
    }
}

/// Whether `event` can answer the action issued on entering `stage`.
pub open spec fn accepts(stage: StageSpec, event: EventSpec) -> bool {
    match stage {
        StageSpec::Stopping => event is CaptureStopped,
        StageSpec::Flushing => event is Flushed,
        StageSpec::Exporting => event is Exported || event is ExportFailed,
        StageSpec::Transcribing(_) => event is Transcribed || event is TranscriptionCrashed
            || event is TranscriptionFailed,
        StageSpec::Summarizing(_, _) => event is Summarized || event is SummarizationCrashed
            || event is SummarizationFailed,
        StageSpec::Clearing(_) => event is BufferCleared,
        StageSpec::Saving => event is Saved || event is SaveFailed,
        StageSpec::Finished => false,
    }
}

/// The length in seconds of a recording of `sample_count` samples written
/// for transcription: the samples divided by the sample rate.
pub open spec fn duration_secs(sample_count: u64) -> u64 {
    (sample_count / (TRANSCRIPTION_SAMPLE_RATE as u64)) as u64
}

/// The stage that follows `stage` on `event`, and the action it asks for, for a
/// note that will carry `date` and `application`.
pub open spec fn transition(
    date: Seq<char>,
    application: Seq<char>,
    stage: StageSpec,
    event: EventSpec,
) -> (StageSpec, ActionSpec) {
    match (stage, event) {
        (StageSpec::Stopping, EventSpec::CaptureStopped) =>
            (StageSpec::Flushing, ActionSpec::WaitForFlush(FLUSH_WAIT_MILLIS)),
        (StageSpec::Flushing, EventSpec::Flushed) =>
            (StageSpec::Exporting, ActionSpec::ExportWav(transcription_format())),
        (StageSpec::Exporting, EventSpec::Exported(n)) =>
            (StageSpec::Transcribing(duration_secs(n)), ActionSpec::Transcribe),
        (StageSpec::Exporting, EventSpec::ExportFailed(m)) =>
            (StageSpec::Finished, ActionSpec::Finish(Err(m))),
        (StageSpec::Transcribing(d), EventSpec::Transcribed(t)) =>
            (StageSpec::Summarizing(d, t), ActionSpec::Summarize(t)),
        (StageSpec::Transcribing(_), EventSpec::TranscriptionCrashed(m)) =>
            (StageSpec::Finished, ActionSpec::Finish(Err(m))),
        (StageSpec::Transcribing(_), EventSpec::TranscriptionFailed(m)) =>
            (StageSpec::Finished, ActionSpec::Finish(Err("Transcription failed: "@ + m))),
        (StageSpec::Summarizing(d, t), EventSpec::Summarized(s)) => (
            StageSpec::Clearing(spec_meeting_markdown(date, d as nat, application, t, s)),
            ActionSpec::ClearBuffer,
        ),
        (StageSpec::Summarizing(_, _), EventSpec::SummarizationCrashed(m)) =>
            (StageSpec::Finished, ActionSpec::Finish(Err(m))),
        (StageSpec::Summarizing(_, _), EventSpec::SummarizationFailed(m)) =>
            (StageSpec::Finished, ActionSpec::Finish(Err("Summarization failed: "@ + m))),
        (StageSpec::Clearing(note), EventSpec::BufferCleared) =>
            (StageSpec::Saving, ActionSpec::SaveNote(note)),
        (StageSpec::Saving, EventSpec::Saved(p)) =>
            (StageSpec::Finished, ActionSpec::Finish(Ok("Summary saved to "@ + p))),
        (StageSpec::Saving, EventSpec::SaveFailed(m)) =>
            (StageSpec::Finished, ActionSpec::Finish(Err("Failed to save summary: "@ + m))),
        (s, _) => (s, ActionSpec::StopCapture),
    }
}

/// The work that follows the end of a recording: stop the capture, let it
/// flush, write the WAV file as 16 kHz mono 16-bit audio, transcribe it,
/// summarize the transcript, empty the buffer, save the note (front matter,
/// transcript and summary), and report how it went.
pub struct StopRecording {
    date: String,
    application: String,
    stage: RecordingStage,
}

impl View for StopRecording {
    type V = FlowSpec;

    closed spec fn view(&self) -> FlowSpec {
        FlowSpec { date: self.date@, application: self.application@, stage: self.stage@ }
    }
}

impl StopRecording {
    /// Begins the work for a recording that stopped at `stopped_at` (seconds
    /// since the Unix epoch) and captured `application` ("unknown" when the
    /// caller does not say); the first action is to stop the capture.
    pub fn start(stopped_at: u64, application: Option<String>) -> (res: (StopRecording, RecordingAction))
        ensures
            res.0@ == (FlowSpec {
                date: date_text(civil_date(stopped_at as nat)),
                application: match application {
                    Some(a) => a@,
                    None => "unknown"@,
                },
                stage: StageSpec::Stopping,
            }),
            res.1@ == ActionSpec::StopCapture,
    {
        let date = date_of(stopped_at);
        let application = match application {
            Some(a) => a,
            None => "unknown".to_owned(),
        };
        (StopRecording { date, application, stage: RecordingStage::Stopping }, RecordingAction::StopCapture)
    }

    /// The stage the work is in.
    pub fn stage(&self) -> (stage: &RecordingStage)
        ensures
            stage@ == self@.stage,
    {
        &self.stage
    }

    /// Whether the work is over.
    pub fn is_finished(&self) -> (done: bool)
        ensures
            done <==> self@.stage is Finished,
    {
        match self.stage {
            RecordingStage::Finished => true,
            _ => false,
        }
    }

    /// Whether `event` can answer the action last asked for.
    pub fn accepts(&self, event: &RecordingEvent) -> (ok: bool)
        ensures
            ok == accepts(self@.stage, event@),
    {
        match (&self.stage, event) {
            (RecordingStage::Stopping, RecordingEvent::CaptureStopped) => true,
            (RecordingStage::Flushing, RecordingEvent::Flushed) => true,
            (RecordingStage::Exporting, RecordingEvent::Exported { .. }) => true,
            (RecordingStage::Exporting, RecordingEvent::ExportFailed { .. }) => true,
            (RecordingStage::Transcribing { .. }, RecordingEvent::Transcribed { .. }) => true,
            (RecordingStage::Transcribing { .. }, RecordingEvent::TranscriptionCrashed { .. }) => true,
            (RecordingStage::Transcribing { .. }, RecordingEvent::TranscriptionFailed { .. }) => true,
            (RecordingStage::Summarizing { .. }, RecordingEvent::Summarized { .. }) => true,
            (RecordingStage::Summarizing { .. }, RecordingEvent::SummarizationCrashed { .. }) => true,
            (RecordingStage::Summarizing { .. }, RecordingEvent::SummarizationFailed { .. }) => true,
            (RecordingStage::Clearing { .. }, RecordingEvent::BufferCleared) => true,
            (RecordingStage::Saving, RecordingEvent::Saved { .. }) => true,
            (RecordingStage::Saving, RecordingEvent::SaveFailed { .. }) => true,
            _ => false,
        }
    }

    /// Takes in what the last action gave and says what to do next.
    pub fn step(&mut self, event: RecordingEvent) -> (action: RecordingAction)
        requires
            accepts(old(self)@.stage, event@),
        ensures
            final(self)@.date == old(self)@.date,
            final(self)@.application == old(self)@.application,
            (final(self)@.stage, action@) == transition(
                old(self)@.date,
                old(self)@.application,
                old(self)@.stage,
                event@,
            ),
    {
        let mut stage = RecordingStage::Finished;
        std::mem::swap(&mut stage, &mut self.stage);
        match stage {
            RecordingStage::Stopping => {
                self.stage = RecordingStage::Flushing;
                RecordingAction::WaitForFlush { millis: FLUSH_WAIT_MILLIS }
            },
            RecordingStage::Flushing => {
                self.stage = RecordingStage::Exporting;
                RecordingAction::ExportWav {
                    format: wav_format_for(TRANSCRIPTION_SAMPLE_RATE, TRANSCRIPTION_BITS),
                }
            },
            RecordingStage::Exporting => match event {
                RecordingEvent::Exported { sample_count } => {
                    let duration_secs = sample_count / (TRANSCRIPTION_SAMPLE_RATE as u64);
                    self.stage = RecordingStage::Transcribing { duration_secs };
                    RecordingAction::Transcribe
                },
                RecordingEvent::ExportFailed { message } => {
                    RecordingAction::Finish { outcome: Err(message) }
                },
                _ => RecordingAction::StopCapture,
            },
            RecordingStage::Transcribing { duration_secs } => match event {
                RecordingEvent::Transcribed { transcript } => {
                    let copy = transcript.clone();
                    self.stage = RecordingStage::Summarizing { duration_secs, transcript };
                    RecordingAction::Summarize { transcript: copy }
                },
                RecordingEvent::TranscriptionCrashed { message } => {
                    RecordingAction::Finish { outcome: Err(message) }
                },
                RecordingEvent::TranscriptionFailed { message } => {
                    RecordingAction::Finish {
                        outcome: Err(joined_text("Transcription failed: ", message.as_str())),
                    }
                },
                _ => RecordingAction::StopCapture,
            },
            RecordingStage::Summarizing { duration_secs, transcript } => match event {
                RecordingEvent::Summarized { summary } => {
                    let note = meeting_markdown(
                        self.date.as_str(),
                        duration_secs,
                        self.application.as_str(),
                        transcript.as_str(),
                        summary.as_str(),
                    );
                    self.stage = RecordingStage::Clearing { note };
                    RecordingAction::ClearBuffer
                },
                RecordingEvent::SummarizationCrashed { message } => {
                    RecordingAction::Finish { outcome: Err(message) }
                },
                RecordingEvent::SummarizationFailed { message } => {
                    RecordingAction::Finish {
                        outcome: Err(joined_text("Summarization failed: ", message.as_str())),
                    }
                },
                _ => RecordingAction::StopCapture,
            },
            RecordingStage::Clearing { note } => {
                self.stage = RecordingStage::Saving;
                RecordingAction::SaveNote { note }
            },
            RecordingStage::Saving => match event {
                RecordingEvent::Saved { path } => {
                    RecordingAction::Finish {
                        outcome: Ok(joined_text("Summary saved to ", path.as_str())),
                    }
                },
                RecordingEvent::SaveFailed { message } => {
                    RecordingAction::Finish {
                        outcome: Err(joined_text("Failed to save summary: ", message.as_str())),
                    }
                },
                _ => RecordingAction::StopCapture,
            },
            RecordingStage::Finished => RecordingAction::StopCapture,
        }
    }
}

/// Where a stage stands in the fixed order of the work.
pub open spec fn stage_rank(stage: StageSpec) -> nat {
    match stage {
        StageSpec::Stopping => 0,
        StageSpec::Flushing => 1,
        StageSpec::Exporting => 2,
        StageSpec::Transcribing(_) => 3,
        StageSpec::Summarizing(_, _) => 4,
        StageSpec::Clearing(_) => 5,
        StageSpec::Saving => 6,
        StageSpec::Finished => 7,
    }
}

/// The stage reached and the actions asked for when `events` come in, in order,
/// starting from `stage`.
pub open spec fn run(
    date: Seq<char>,
    application: Seq<char>,
    stage: StageSpec,
    events: Seq<EventSpec>,
) -> (StageSpec, Seq<ActionSpec>)
    decreases events.len(),
{
    if events.len() == 0 {
        (stage, Seq::empty())
    } else {
        let next = transition(date, application, stage, events[0]);
        let rest = run(date, application, next.0, events.drop_first());
        (rest.0, seq![next.1] + rest.1)
    }
}

/// Running a first event and then the rest is one step followed by the run of the rest.
pub proof fn lemma_run_first(
    date: Seq<char>,
    application: Seq<char>,
    stage: StageSpec,
    first: EventSpec,
    rest: Seq<EventSpec>,
)
    ensures
        run(date, application, stage, seq![first] + rest) == ({
            let next = transition(date, application, stage, first);
            let after = run(date, application, next.0, rest);
            (after.0, seq![next.1] + after.1)
        }),
{
    let events = seq![first] + rest;
    assert(events[0] == first);
    assert(events.drop_first() =~= rest);
}

/// The audio handed to whisper is what whisper takes: 16 kHz, one channel,
/// 16-bit integer samples, whatever depth was chosen elsewhere.
pub proof fn lemma_transcription_audio_is_sixteen_khz_mono_int16()
    ensures
        transcription_format() == (WavFormat {
            channels: 1,
            sample_rate: 16000,
            bits_per_sample: 16,
            sample_format: SampleFormat::Int,
        }),
        transition(Seq::empty(), Seq::empty(), StageSpec::Flushing, EventSpec::Flushed).1
            == ActionSpec::ExportWav(transcription_format()),
        spec_whisper_input(transcription_format()) == Ok::<
            SampleDecoding,
            crate::wav::WhisperInputError,
        >(SampleDecoding::Int16),
{
}

/// Once the outcome has been handed out, no event is taken in any more.
pub proof fn lemma_finished_takes_nothing(event: EventSpec)
    ensures
        !accepts(StageSpec::Finished, event),
{
}

/// The work only moves forward: every event taken in leads to a later stage,
/// so no stage is entered twice and the work ends after at most seven events.
pub proof fn lemma_stages_move_forward(
    date: Seq<char>,
    application: Seq<char>,
    stage: StageSpec,
    event: EventSpec,
)
    requires
        accepts(stage, event),
    ensures
        stage_rank(transition(date, application, stage, event).0) > stage_rank(stage),
        stage_rank(transition(date, application, stage, event).0) <= 7,
{
}

/// A failure reported at any point ends the work at once with an error.
pub proof fn lemma_failure_ends_with_error(
    date: Seq<char>,
    application: Seq<char>,
    stage: StageSpec,
    event: EventSpec,
)
    requires
        accepts(stage, event),
        !(event is CaptureStopped || event is Flushed || event is Exported
            || event is Transcribed || event is Summarized || event is BufferCleared
            || event is Saved),
    ensures
        transition(date, application, stage, event).0 is Finished,
        transition(date, application, stage, event).1 matches ActionSpec::Finish(Err(_)),
{
}

/// The work reports success only when the note has just been saved, and then
/// names the file it was saved to.
pub proof fn lemma_success_only_after_save(
    date: Seq<char>,
    application: Seq<char>,
    stage: StageSpec,
    event: EventSpec,
)
    requires
        accepts(stage, event),
        transition(date, application, stage, event).1 matches ActionSpec::Finish(Ok(_)),
    ensures
        stage is Saving,
        event matches EventSpec::Saved(p) && transition(date, application, stage, event).1
            == ActionSpec::Finish(Ok("Summary saved to "@ + p)),
{
}

/// When every step succeeds, the recording is written as 16 kHz mono 16-bit
/// audio, the transcript is summarized, the buffer is emptied, and the note
/// that is saved carries the date, the recording's length (its samples divided
/// by the rate) and the application, then the transcript and the summary.
pub proof fn lemma_successful_run(
    date: Seq<char>,
    application: Seq<char>,
    sample_count: u64,
    transcript: Seq<char>,
    summary: Seq<char>,
    path: Seq<char>,
)
    ensures
        run(
            date,
            application,
            StageSpec::Stopping,
            seq![
                EventSpec::CaptureStopped,
                EventSpec::Flushed,
                EventSpec::Exported(sample_count),
                EventSpec::Transcribed(transcript),
                EventSpec::Summarized(summary),
                EventSpec::BufferCleared,
                EventSpec::Saved(path),
            ],
        ) == (
            StageSpec::Finished,
            seq![
                ActionSpec::WaitForFlush(FLUSH_WAIT_MILLIS),
                ActionSpec::ExportWav(transcription_format()),
                ActionSpec::Transcribe,
                ActionSpec::Summarize(transcript),
                ActionSpec::ClearBuffer,
                ActionSpec::SaveNote(
                    spec_meeting_markdown(
                        date,
                        (sample_count / 16000) as nat,
                        application,
                        transcript,
                        summary,
                    ),
                ),
                ActionSpec::Finish(Ok("Summary saved to "@ + path)),
            ],
        ),
{
    let e7 = seq![EventSpec::Saved(path)];
    let e6 = seq![EventSpec::BufferCleared] + e7;
    let e5 = seq![EventSpec::Summarized(summary)] + e6;
    let e4 = seq![EventSpec::Transcribed(transcript)] + e5;
    let e3 = seq![EventSpec::Exported(sample_count)] + e4;
    let e2 = seq![EventSpec::Flushed] + e3;
    let e1 = seq![EventSpec::CaptureStopped] + e2;
    let note = spec_meeting_markdown(
        date,
        (sample_count / 16000) as nat,
        application,
        transcript,
        summary,
    );
    let d = duration_secs(sample_count);
    lemma_run_first(date, application, StageSpec::Saving, EventSpec::Saved(path), Seq::empty());
    assert(seq![EventSpec::Saved(path)] + Seq::<EventSpec>::empty() =~= e7);
    lemma_run_first(date, application, StageSpec::Clearing(note), EventSpec::BufferCleared, e7);
    lemma_run_first(date, application, StageSpec::Summarizing(d, transcript), EventSpec::Summarized(summary), e6);
    lemma_run_first(date, application, StageSpec::Transcribing(d), EventSpec::Transcribed(transcript), e5);
    lemma_run_first(date, application, StageSpec::Exporting, EventSpec::Exported(sample_count), e4);
    lemma_run_first(date, application, StageSpec::Flushing, EventSpec::Flushed, e3);
    lemma_run_first(date, application, StageSpec::Stopping, EventSpec::CaptureStopped, e2);
    assert(e1 =~= seq![
        EventSpec::CaptureStopped,
        EventSpec::Flushed,
        EventSpec::Exported(sample_count),
        EventSpec::Transcribed(transcript),
        EventSpec::Summarized(summary),
        EventSpec::BufferCleared,
        EventSpec::Saved(path),
    ]);
    assert(run(date, application, StageSpec::Stopping, e1).1 =~= seq![
        ActionSpec::WaitForFlush(FLUSH_WAIT_MILLIS),
        ActionSpec::ExportWav(transcription_format()),
        ActionSpec::Transcribe,
        ActionSpec::Summarize(transcript),
        ActionSpec::ClearBuffer,
        ActionSpec::SaveNote(note),
        ActionSpec::Finish(Ok("Summary saved to "@ + path)),
    ]);
}

/// Every answer that an action can get is taken in at the stage that asked
/// for it, whatever it carries: a recording of any length is exported and
/// transcribed, and every success, failure and crash is accepted. After an
/// export of any length the next action is to transcribe.
pub proof fn lemma_every_answer_is_taken(
    date: Seq<char>,
    application: Seq<char>,
    sample_count: u64,
    duration: u64,
    transcript: Seq<char>,
    summary: Seq<char>,
    note: Seq<char>,
    text: Seq<char>,
)
    ensures
        accepts(StageSpec::Stopping, EventSpec::CaptureStopped),
        accepts(StageSpec::Flushing, EventSpec::Flushed),
        accepts(StageSpec::Exporting, EventSpec::Exported(sample_count)),
        accepts(StageSpec::Exporting, EventSpec::ExportFailed(text)),
        accepts(StageSpec::Transcribing(duration), EventSpec::Transcribed(text)),
        accepts(StageSpec::Transcribing(duration), EventSpec::TranscriptionFailed(text)),
        accepts(StageSpec::Transcribing(duration), EventSpec::TranscriptionCrashed(text)),
        accepts(StageSpec::Summarizing(duration, transcript), EventSpec::Summarized(summary)),
        accepts(StageSpec::Summarizing(duration, transcript), EventSpec::SummarizationFailed(text)),
        accepts(StageSpec::Summarizing(duration, transcript), EventSpec::SummarizationCrashed(text)),
        accepts(StageSpec::Clearing(note), EventSpec::BufferCleared),
        accepts(StageSpec::Saving, EventSpec::Saved(text)),
        accepts(StageSpec::Saving, EventSpec::SaveFailed(text)),
        transition(date, application, StageSpec::Exporting, EventSpec::Exported(sample_count)).1
            == ActionSpec::Transcribe,
        transition(date, application, StageSpec::Exporting, EventSpec::Exported(sample_count)).0
            == StageSpec::Transcribing(sample_count / 16000),
{
}

/// On the successful run, each event is taken in at the stage the events
/// before it led to, for every recording, transcript, summary and path.
pub proof fn lemma_successful_run_is_taken(
    date: Seq<char>,
    application: Seq<char>,
    sample_count: u64,
    transcript: Seq<char>,
    summary: Seq<char>,
    path: Seq<char>,
)
    ensures
        ({
            let events = seq![
                EventSpec::CaptureStopped,
                EventSpec::Flushed,
                EventSpec::Exported(sample_count),
                EventSpec::Transcribed(transcript),
                EventSpec::Summarized(summary),
                EventSpec::BufferCleared,
                EventSpec::Saved(path),
            ];
            forall|i: int|
                0 <= i < 7 ==> #[trigger] accepts(
                    run(date, application, StageSpec::Stopping, events.take(i)).0,
                    events[i],
                )
        }),
{
    let events = seq![
        EventSpec::CaptureStopped,
        EventSpec::Flushed,
        EventSpec::Exported(sample_count),
        EventSpec::Transcribed(transcript),
        EventSpec::Summarized(summary),
        EventSpec::BufferCleared,
        EventSpec::Saved(path),
    ];
    let d = duration_secs(sample_count);
    let note = spec_meeting_markdown(date, d as nat, application, transcript, summary);
    let stages = seq![
        StageSpec::Stopping,
        StageSpec::Flushing,
        StageSpec::Exporting,
        StageSpec::Transcribing(d),
        StageSpec::Summarizing(d, transcript),
        StageSpec::Clearing(note),
        StageSpec::Saving,
    ];
    assert forall|i: int| 0 <= i < 7 implies #[trigger] accepts(
        run(date, application, StageSpec::Stopping, events.take(i)).0,
        events[i],
    ) by {
        lemma_run_reaches(date, application, events, stages, i);
    }
}

proof fn lemma_run_reaches(
    date: Seq<char>,
    application: Seq<char>,
    events: Seq<EventSpec>,
    stages: Seq<StageSpec>,
    i: int,
)
    requires
        0 <= i < events.len(),
        stages.len() == events.len(),
        stages[0] == StageSpec::Stopping,
        forall|j: int|
            0 <= j < events.len() - 1 ==> #[trigger] transition(date, application, stages[j], events[j]).0
                == stages[j + 1],
        forall|j: int| 0 <= j < events.len() ==> #[trigger] accepts(stages[j], events[j]),
    ensures
        run(date, application, StageSpec::Stopping, events.take(i)).0 == stages[i],
        accepts(run(date, application, StageSpec::Stopping, events.take(i)).0, events[i]),
    decreases i,
{
    if i == 0 {
        assert(events.take(0) =~= Seq::<EventSpec>::empty());
    } else {
        lemma_run_reaches(date, application, events, stages, i - 1);
        lemma_run_last(date, application, StageSpec::Stopping, events.take(i - 1), events[i - 1]);
        assert(events.take(i - 1).push(events[i - 1]) =~= events.take(i));
        assert(transition(date, application, stages[i - 1], events[i - 1]).0 == stages[i]);
    }
}

/// Running some events and then one more is running them and taking one step.
pub proof fn lemma_run_last(
    date: Seq<char>,
    application: Seq<char>,
    stage: StageSpec,
    events: Seq<EventSpec>,
    last: EventSpec,
)
    ensures
        run(date, application, stage, events.push(last)).0 == transition(
            date,
            application,
            run(date, application, stage, events).0,
            last,
        ).0,
    decreases events.len(),
{
    if events.len() == 0 {
        let t = transition(date, application, stage, last);
        assert(events.push(last).drop_first() =~= Seq::<EventSpec>::empty());
        assert(events.push(last)[0] == last);
        assert(run(date, application, t.0, Seq::<EventSpec>::empty()).0 == t.0);
        assert(run(date, application, stage, events).0 == stage);
    } else {
        let next = transition(date, application, stage, events[0]);
        lemma_run_last(date, application, next.0, events.drop_first(), last);
        assert(events.push(last).drop_first() =~= events.drop_first().push(last));
        assert(events.push(last)[0] == events[0]);
    }
}

/// What each failure reports, for every text it carries: export failures and
/// crashed tasks pass their text on unchanged; a failed transcription,
/// summarization or save is prefixed with what failed.
pub proof fn lemma_failure_messages(
    date: Seq<char>,
    application: Seq<char>,
    duration: u64,
    transcript: Seq<char>,
    m: Seq<char>,
)
    ensures
        transition(date, application, StageSpec::Exporting, EventSpec::ExportFailed(m)).1
            == ActionSpec::Finish(Err(m)),
        transition(date, application, StageSpec::Transcribing(duration), EventSpec::TranscriptionCrashed(m)).1
            == ActionSpec::Finish(Err(m)),
        transition(date, application, StageSpec::Transcribing(duration), EventSpec::TranscriptionFailed(m)).1
            == ActionSpec::Finish(Err("Transcription failed: "@ + m)),
        transition(
            date,
            application,
            StageSpec::Summarizing(duration, transcript),
            EventSpec::SummarizationCrashed(m),
        ).1 == ActionSpec::Finish(Err(m)),
        transition(
            date,
            application,
            StageSpec::Summarizing(duration, transcript),
            EventSpec::SummarizationFailed(m),
        ).1 == ActionSpec::Finish(Err("Summarization failed: "@ + m)),
        transition(date, application, StageSpec::Saving, EventSpec::SaveFailed(m)).1
            == ActionSpec::Finish(Err("Failed to save summary: "@ + m)),
{
}

} // verus!
