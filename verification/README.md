# meeting_assistant

The core of a menu-bar meeting assistant: it records a meeting, writes the
audio as WAV, transcribes it with whisper, summarizes the transcript and saves
a Markdown note. The decisions and text handling are verified with Verus; the
audio capture, file and network I/O, the models and the Tauri shell live in
`app/`.

- `src/buffer.rs` – the recording buffer (append, empty).
- `src/wav.rs` – the WAV format a recording is written in, how a WAV file is
  read back, and the checks on decoded audio.
- `src/transcript.rs` – assembling a transcript from whisper segments, the
  stand-in summary, the Markdown note.
- `src/pipeline.rs` – the state machine of the work after a recording stops.
- `src/model.rs`, `src/download.rs` – which model file to fetch, and the state
  machine of fetching it with progress reports.
- `src/storage.rs` – where summaries are saved and under which file name.
- `src/upload.rs` – checks and headers for uploading a recording.
- `src/calendar.rs` – the calendar date of a Unix time, for the note's front matter.
- `src/text.rs` – decimal notation and small string helpers.
