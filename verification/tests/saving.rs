use meeting_assistant::storage::{
    documents_subfolder, require_documents_folder, summaries_folder, summary_file_name, SaveError, SummaryFolder,
};
use meeting_assistant::upload::{
    authorization_value, check_api_url, check_upload_status, upload_failed_message, UploadError,
};

#[test]
fn chosen_folder_is_used() {
    assert_eq!(
        summaries_folder(Some("/vault/meetings")),
        SummaryFolder::Custom { path: "/vault/meetings".to_string() }
    );
}

#[test]
fn empty_or_missing_choice_falls_back_to_documents() {
    assert_eq!(summaries_folder(Some("")), SummaryFolder::InDocuments);
    assert_eq!(summaries_folder(None), SummaryFolder::InDocuments);
    assert_eq!(documents_subfolder(), "Meeting-Summaries");
    assert_eq!(SaveError::NoDocumentsFolder.message(), "Could not find documents directory");
}

#[test]
fn summary_file_is_named_by_timestamp() {
    assert_eq!(summary_file_name(1700000000), "summary_1700000000.md");
    assert_eq!(summary_file_name(0), "summary_0.md");
}

#[test]
fn different_seconds_give_different_files() {
    assert_ne!(summary_file_name(1700000000), summary_file_name(1700000001));
    assert_ne!(summary_file_name(1), summary_file_name(10));
}

#[test]
fn empty_api_url_is_refused() {
    assert_eq!(check_api_url(""), Err(UploadError::EmptyApiUrl));
    assert_eq!(
        UploadError::EmptyApiUrl.message(),
        "API URL is empty. Please configure it in Settings."
    );
    assert_eq!(check_api_url("https://router.example/v1"), Ok(()));
}

#[test]
fn api_key_is_sent_as_bearer() {
    assert_eq!(authorization_value("sk-test-key"), "Bearer sk-test-key");
}

#[test]
fn refused_upload_names_the_status() {
    assert_eq!(upload_failed_message("500 Internal Server Error"), "Upload failed with status: 500 Internal Server Error");
}

#[test]
fn upload_status_decides_the_outcome() {
    assert_eq!(check_upload_status(true, "200 OK"), Ok(()));
    assert_eq!(
        check_upload_status(false, "401 Unauthorized"),
        Err("Upload failed with status: 401 Unauthorized".to_string())
    );
}

#[test]
fn documents_folder_is_required_when_needed() {
    assert_eq!(require_documents_folder(Some("/home/u/Documents")), Ok("/home/u/Documents"));
    assert_eq!(require_documents_folder::<&str>(None), Err(SaveError::NoDocumentsFolder));
}

#[test]
fn file_name_is_summary_digits_md() {
    let name = summary_file_name(1234567890);
    assert!(name.starts_with("summary_") && name.ends_with(".md"));
    assert!(name[8..name.len() - 3].chars().all(|c| c.is_ascii_digit()));
}
