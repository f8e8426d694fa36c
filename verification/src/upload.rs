use vstd::prelude::*;

use crate::text::joined_text;

verus! {

/// Why an upload was refused before anything was sent.
#[derive(Debug, Clone, Copy, PartialEq, Eq)]
pub enum UploadError {
    /// No endpoint was configured.
    EmptyApiUrl,
}

impl UploadError {
    /// The text shown to the user.
    pub fn message(&self) -> (text: &'static str)
        ensures
            text@ == "API URL is empty. Please configure it in Settings."@,
    {
        "API URL is empty. Please configure it in Settings."
    }
}

/// Refuses an empty endpoint; any other endpoint is accepted.
pub fn check_api_url(api_url: &str) -> (res: Result<(), UploadError>)
    ensures
        res is Ok <==> api_url@.len() > 0,
        res is Err ==> res == Err::<(), UploadError>(UploadError::EmptyApiUrl),
{
    if api_url.is_empty() {
        Err(UploadError::EmptyApiUrl)
    } else {
        Ok(())
    }
}

/// The value of the Authorization header that carries the API key.
pub fn authorization_value(api_key: &str) -> (value: String)
    ensures
        value@ == "Bearer "@ + api_key@,
{
    joined_text("Bearer ", api_key)
}

/// The text shown when the server refused the upload with the given status.
pub fn upload_failed_message(status: &str) -> (text: String)
    ensures
        text@ == "Upload failed with status: "@ + status@,
{
    joined_text("Upload failed with status: ", status)
}

/// What follows the server's answer to an upload: on a success status the
/// reply's content is read; on any other status the upload fails, naming it.
pub fn check_upload_status(success: bool, status: &str) -> (res: Result<(), String>)
    ensures
        success ==> res == Ok::<(), String>(()),
        !success ==> (res matches Err(text) && text@ == "Upload failed with status: "@ + status@),
{
    if success {
        Ok(())
    } else {
        Err(upload_failed_message(status))
    }
}

} // verus!
