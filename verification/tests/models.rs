use meeting_assistant::download::{DownloadAction, DownloadEvent, DownloadModel, DownloadProgress};
use meeting_assistant::model::{model_source, resolve_model, ModelError, ModelKind, ModelSource};

#[test]
fn whisper_model_is_named_by_its_id() {
    assert_eq!(
        resolve_model("whisper", "base"),
        Ok(ModelSource {
            kind: ModelKind::Whisper,
            url: "https://huggingface.co/ggerganov/whisper.cpp/resolve/main/ggml-base.bin".to_string(),
            file_name: "ggml-base.bin".to_string(),
        })
    );
}

#[test]
fn gemma_model_is_one_fixed_file() {
    assert_eq!(
        resolve_model("gemma", "ignored"),
        Ok(ModelSource {
            kind: ModelKind::Gemma,
            url: "https://huggingface.co/bartowski/gemma-2-2b-it-GGUF/resolve/main/gemma-2-2b-it-Q4_K_M.gguf"
                .to_string(),
            file_name: "gemma-2-2b-it-Q4_K_M.gguf".to_string(),
        })
    );
}

#[test]
fn unknown_model_type_is_refused() {
    assert_eq!(resolve_model("llama", "7b"), Err(ModelError::InvalidModelType));
    assert_eq!(resolve_model("", "x"), Err(ModelError::InvalidModelType));
    assert_eq!(ModelError::InvalidModelType.message(), "Invalid model type");
}

#[test]
fn model_type_is_matched_in_any_case() {
    let upper = model_source("WHISPER", "small").unwrap();
    assert_eq!(upper.kind, ModelKind::Whisper);
    assert_eq!(upper.file_name, "ggml-small.bin");
    assert_eq!(model_source("GeMmA", "").unwrap().kind, ModelKind::Gemma);
    assert_eq!(model_source("Whisperx", "small"), Err(ModelError::InvalidModelType));
}

#[test]
fn url_ends_with_the_file_name() {
    for (t, id) in [("whisper", "medium"), ("gemma", "")] {
        let source = resolve_model(t, id).unwrap();
        assert!(source.url.ends_with(&format!("/{}", source.file_name)));
    }
}

#[test]
fn invalid_type_fails_before_any_io() {
    let (flow, action) = DownloadModel::start("mistral", "x");
    assert_eq!(action, DownloadAction::Fail { message: "Invalid model type".to_string() });
    assert!(flow.is_finished());
}

#[test]
fn cached_model_is_returned_without_request() {
    let (mut flow, action) = DownloadModel::start("Whisper", "tiny");
    assert_eq!(action, DownloadAction::CheckCache { file_name: "ggml-tiny.bin".to_string() });
    let event = DownloadEvent::CacheChecked { exists: true };
    assert!(flow.accepts(&event));
    assert_eq!(flow.step(event), DownloadAction::ReturnModelPath);
    assert!(flow.is_finished());
}

#[test]
fn refused_download_reports_the_status() {
    let (mut flow, _) = DownloadModel::start("gemma", "");
    assert_eq!(
        flow.step(DownloadEvent::CacheChecked { exists: false }),
        DownloadAction::Request {
            url: "https://huggingface.co/bartowski/gemma-2-2b-it-GGUF/resolve/main/gemma-2-2b-it-Q4_K_M.gguf"
                .to_string()
        }
    );
    assert_eq!(
        flow.step(DownloadEvent::Responded {
            success: false,
            status: "404 Not Found".to_string(),
            total: None
        }),
        DownloadAction::Fail { message: "Download failed with status: 404 Not Found".to_string() }
    );
    assert!(flow.is_finished());
}

#[test]
fn progress_counts_every_byte_received() {
    let (mut flow, _) = DownloadModel::start("whisper", "base");
    flow.step(DownloadEvent::CacheChecked { exists: false });
    assert_eq!(
        flow.step(DownloadEvent::Responded { success: true, status: "200 OK".to_string(), total: Some(10) }),
        DownloadAction::StartReceiving
    );
    assert_eq!(
        flow.step(DownloadEvent::ChunkReceived { bytes: vec![1, 2, 3, 4] }),
        DownloadAction::Store {
            bytes: vec![1, 2, 3, 4],
            progress: DownloadProgress { received: 4, total: Some(10) }
        }
    );
    assert_eq!(
        flow.step(DownloadEvent::ChunkReceived { bytes: vec![5, 6, 7, 8, 9, 10] }),
        DownloadAction::Store {
            bytes: vec![5, 6, 7, 8, 9, 10],
            progress: DownloadProgress { received: 10, total: Some(10) }
        }
    );
    assert_eq!(flow.step(DownloadEvent::StreamEnded), DownloadAction::ReturnModelPath);
    assert!(flow.is_finished());
    assert!(!flow.accepts(&DownloadEvent::StreamEnded));
}

#[test]
fn failure_while_receiving_is_reported_as_is() {
    let (mut flow, _) = DownloadModel::start("whisper", "base");
    flow.step(DownloadEvent::CacheChecked { exists: false });
    flow.step(DownloadEvent::Responded { success: true, status: "200 OK".to_string(), total: None });
    assert_eq!(
        flow.step(DownloadEvent::Failed { message: "connection reset".to_string() }),
        DownloadAction::Fail { message: "connection reset".to_string() }
    );
}

#[test]
fn pieces_of_any_size_are_taken_while_receiving() {
    let (mut flow, _) = DownloadModel::start("whisper", "base");
    flow.step(DownloadEvent::CacheChecked { exists: false });
    flow.step(DownloadEvent::Responded { success: true, status: "200 OK".to_string(), total: None });
    assert!(flow.accepts(&DownloadEvent::ChunkReceived { bytes: vec![0; 3] }));
    flow.step(DownloadEvent::ChunkReceived { bytes: vec![0; 3] });
    assert!(flow.accepts(&DownloadEvent::ChunkReceived { bytes: Vec::new() }));
}

#[test]
fn events_out_of_order_are_not_accepted() {
    let (flow, _) = DownloadModel::start("whisper", "base");
    assert!(!flow.accepts(&DownloadEvent::ChunkReceived { bytes: vec![1] }));
    assert!(!flow.accepts(&DownloadEvent::StreamEnded));
    assert!(flow.accepts(&DownloadEvent::Failed { message: "mkdir".to_string() }));
}

#[test]
fn type_and_its_lowercase_start_alike() {
    for t in ["Whisper", "GEMMA", "Llama"] {
        let (a_flow, a_action) = DownloadModel::start(t, "base");
        let (b_flow, b_action) = DownloadModel::start(&t.to_lowercase(), "base");
        assert_eq!(a_action, b_action);
        assert_eq!(a_flow.is_finished(), b_flow.is_finished());
    }
}

#[test]
fn stored_pieces_make_up_the_body() {
    let (mut flow, _) = DownloadModel::start("whisper", "tiny");
    flow.step(DownloadEvent::CacheChecked { exists: false });
    flow.step(DownloadEvent::Responded { success: true, status: "200 OK".to_string(), total: None });
    let mut file = Vec::new();
    for piece in [vec![b'a', b'b'], vec![], vec![b'c']] {
        match flow.step(DownloadEvent::ChunkReceived { bytes: piece }) {
            DownloadAction::Store { bytes, .. } => file.extend(bytes),
            other => panic!("unexpected {:?}", other),
        }
    }
    assert_eq!(file, b"abc".to_vec());
}
