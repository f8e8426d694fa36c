use meeting_assistant::pipeline::{
    RecordingAction, RecordingEvent, RecordingStage, StopRecording, FLUSH_WAIT_MILLIS,
    TRANSCRIPTION_BITS, TRANSCRIPTION_SAMPLE_RATE,
};
use meeting_assistant::wav::{whisper_input, SampleDecoding, SampleFormat, WavFormat};

fn whisper_format() -> WavFormat {
    WavFormat { channels: 1, sample_rate: 16000, bits_per_sample: 16, sample_format: SampleFormat::Int }
}

fn advance(flow: &mut StopRecording, event: RecordingEvent) -> RecordingAction {
    assert!(flow.accepts(&event));
    flow.step(event)
}

fn up_to_transcription() -> StopRecording {
    let (mut flow, first) = StopRecording::start(1700000000, Some("zoom.us".to_string()));
    assert_eq!(first, RecordingAction::StopCapture);
    assert_eq!(advance(&mut flow, RecordingEvent::CaptureStopped), RecordingAction::WaitForFlush { millis: 500 });
    assert_eq!(
        advance(&mut flow, RecordingEvent::Flushed),
        RecordingAction::ExportWav { format: whisper_format() }
    );
    assert_eq!(
        advance(&mut flow, RecordingEvent::Exported { sample_count: 16000 * 125 + 300 }),
        RecordingAction::Transcribe
    );
    flow
}

#[test]
fn successful_run_saves_the_note() {
    let mut flow = up_to_transcription();
    assert_eq!(
        advance(&mut flow, RecordingEvent::Transcribed { transcript: "hi there".to_string() }),
        RecordingAction::Summarize { transcript: "hi there".to_string() }
    );
    assert_eq!(
        advance(&mut flow, RecordingEvent::Summarized { summary: "a greeting".to_string() }),
        RecordingAction::ClearBuffer
    );
    assert_eq!(
        advance(&mut flow, RecordingEvent::BufferCleared),
        RecordingAction::SaveNote {
            note: "---\ndate: 2023-11-14\nduration: 125s\napplication: zoom.us\n---\n\n\
                   # Meeting Summary\n\n## Transcript\nhi there\n\n## Summary\na greeting"
                .to_string()
        }
    );
    assert_eq!(
        advance(&mut flow, RecordingEvent::Saved { path: "/docs/summary_1.md".to_string() }),
        RecordingAction::Finish { outcome: Ok("Summary saved to /docs/summary_1.md".to_string()) }
    );
    assert!(flow.is_finished());
    assert_eq!(*flow.stage(), RecordingStage::Finished);
}

#[test]
fn constants_match_whisper_needs() {
    assert_eq!(FLUSH_WAIT_MILLIS, 500);
    assert_eq!(TRANSCRIPTION_SAMPLE_RATE, 16000);
    assert_eq!(TRANSCRIPTION_BITS, 16);
}

#[test]
fn transcription_audio_is_what_whisper_takes() {
    assert_eq!(whisper_input(whisper_format()), Ok(SampleDecoding::Int16));
}

#[test]
fn export_failure_is_reported_as_is() {
    let (mut flow, _) = StopRecording::start(0, Some("Teams".to_string()));
    advance(&mut flow, RecordingEvent::CaptureStopped);
    advance(&mut flow, RecordingEvent::Flushed);
    assert_eq!(
        advance(&mut flow, RecordingEvent::ExportFailed { message: "disk full".to_string() }),
        RecordingAction::Finish { outcome: Err("disk full".to_string()) }
    );
    assert!(flow.is_finished());
}

#[test]
fn transcription_errors_are_prefixed_but_crashes_are_not() {
    let mut flow = up_to_transcription();
    assert_eq!(
        advance(&mut flow, RecordingEvent::TranscriptionFailed { message: "no model".to_string() }),
        RecordingAction::Finish { outcome: Err("Transcription failed: no model".to_string()) }
    );
    let mut flow = up_to_transcription();
    assert_eq!(
        advance(&mut flow, RecordingEvent::TranscriptionCrashed { message: "task panicked".to_string() }),
        RecordingAction::Finish { outcome: Err("task panicked".to_string()) }
    );
}

#[test]
fn summarization_errors_are_prefixed_but_crashes_are_not() {
    let mut flow = up_to_transcription();
    advance(&mut flow, RecordingEvent::Transcribed { transcript: "t".to_string() });
    assert_eq!(
        advance(&mut flow, RecordingEvent::SummarizationFailed { message: "bad gguf".to_string() }),
        RecordingAction::Finish { outcome: Err("Summarization failed: bad gguf".to_string()) }
    );
    let mut flow = up_to_transcription();
    advance(&mut flow, RecordingEvent::Transcribed { transcript: "t".to_string() });
    assert_eq!(
        advance(&mut flow, RecordingEvent::SummarizationCrashed { message: "joined".to_string() }),
        RecordingAction::Finish { outcome: Err("joined".to_string()) }
    );
}

#[test]
fn save_failure_is_prefixed() {
    let mut flow = up_to_transcription();
    advance(&mut flow, RecordingEvent::Transcribed { transcript: "t".to_string() });
    advance(&mut flow, RecordingEvent::Summarized { summary: "s".to_string() });
    advance(&mut flow, RecordingEvent::BufferCleared);
    assert_eq!(
        advance(&mut flow, RecordingEvent::SaveFailed { message: "read-only".to_string() }),
        RecordingAction::Finish { outcome: Err("Failed to save summary: read-only".to_string()) }
    );
}

#[test]
fn out_of_order_events_are_not_accepted() {
    let (flow, _) = StopRecording::start(0, None);
    assert!(!flow.accepts(&RecordingEvent::Flushed));
    assert!(!flow.accepts(&RecordingEvent::Saved { path: "p".to_string() }));
    let mut flow = up_to_transcription();
    advance(&mut flow, RecordingEvent::TranscriptionFailed { message: "x".to_string() });
    assert!(!flow.accepts(&RecordingEvent::CaptureStopped));
    assert!(!flow.accepts(&RecordingEvent::Transcribed { transcript: "t".to_string() }));
}

#[test]
fn note_without_application_says_unknown() {
    let (mut flow, _) = StopRecording::start(0, None);
    advance(&mut flow, RecordingEvent::CaptureStopped);
    advance(&mut flow, RecordingEvent::Flushed);
    advance(&mut flow, RecordingEvent::Exported { sample_count: 15999 });
    advance(&mut flow, RecordingEvent::Transcribed { transcript: "t".to_string() });
    advance(&mut flow, RecordingEvent::Summarized { summary: "s".to_string() });
    assert_eq!(
        advance(&mut flow, RecordingEvent::BufferCleared),
        RecordingAction::SaveNote {
            note: "---\ndate: 1970-01-01\nduration: 0s\napplication: unknown\n---\n\n\
                   # Meeting Summary\n\n## Transcript\nt\n\n## Summary\ns"
                .to_string()
        }
    );
}
