use vstd::prelude::*;

use vstd::utf8::is_ascii_chars;

use crate::text::{joined_text, same_text};

verus! {

/// What `str::to_lowercase` makes of a text: every character replaced by its
/// lowercase mapping as Unicode defines it.
pub uninterp spec fn spec_to_lowercase(text: Seq<char>) -> Seq<char>;

/// A character with the letters A to Z replaced by a to z; any other character as it is.
pub open spec fn ascii_lower_char(c: char) -> char {
    if 65 <= (c as u32) <= 90 {
        ((c as u32) + 32) as char
    } else {
        c
    }
}

/// A text with its ASCII capitals replaced by the matching small letters.
pub open spec fn ascii_lowercase(text: Seq<char>) -> Seq<char> {
    text.map_values(|c: char| ascii_lower_char(c))
}

/// Calls `str::to_lowercase`. Its contract claims that the result is a
/// function of the text's characters, named `spec_to_lowercase`, and that on
/// an ASCII text it maps exactly the capitals A to Z to a to z (Unicode's
/// lowercase mapping of the ASCII range). The Unicode tables for other
/// characters are not written out here.
#[verifier::external_body]
fn to_lowercase(text: &str) -> (lower: String)
    ensures
        lower@ == spec_to_lowercase(text@),
        is_ascii_chars(text@) ==> lower@ == ascii_lowercase(text@),
{
    text.to_lowercase()
}

/// The models the assistant can fetch.
#[derive(Debug, Clone, Copy, PartialEq, Eq, Structural)]
pub enum ModelKind {
    /// A speech-to-text model in whisper.cpp's format.
    Whisper,
    /// The summarization model, in GGUF format.
    Gemma,
}

/// Where a model is fetched from and the name it is stored under.
#[derive(Debug, PartialEq, Eq)]
pub struct ModelSource {
    pub kind: ModelKind,
    pub url: String,
    pub file_name: String,
}

/// Why a model could not be fetched before anything was asked of the network.
#[derive(Debug, Clone, Copy, PartialEq, Eq, Structural)]
pub enum ModelError {
    /// The model type is neither whisper nor gemma.
    InvalidModelType,
}

impl ModelError {
    /// The text shown to the user.
    pub fn message(&self) -> (text: &'static str)
        ensures
            text@ == "Invalid model type"@,
    {
        "Invalid model type"
    }
}

/// The folder that whisper models are fetched from.
pub open spec fn whisper_base_url() -> Seq<char> {
    "https://huggingface.co/ggerganov/whisper.cpp/resolve/main/"@
}

/// The folder that the gemma model is fetched from.
pub open spec fn gemma_base_url() -> Seq<char> {
    "https://huggingface.co/bartowski/gemma-2-2b-it-GGUF/resolve/main/"@
}

/// The file name of the gemma model.
pub open spec fn gemma_file_name() -> Seq<char> {
    "gemma-2-2b-it-Q4_K_M.gguf"@
}

/// The file name of the whisper model with the given id.
pub open spec fn whisper_file_name(model_id: Seq<char>) -> Seq<char> {
    "ggml-"@ + model_id + ".bin"@
}

/// What a model type (already in lowercase) and a model id resolve to: whisper
/// models are named by their id, gemma is a single fixed file, anything else is
/// refused. The file is stored under the name it has at the end of its URL.
pub open spec fn resolves_to(
    model_type_lower: Seq<char>,
    model_id: Seq<char>,
    res: Result<ModelSource, ModelError>,
) -> bool {
    if model_type_lower == "whisper"@ {
        res matches Ok(source) && source.kind == ModelKind::Whisper && source.file_name@
            == whisper_file_name(model_id) && source.url@ == whisper_base_url()
            + source.file_name@
    } else if model_type_lower == "gemma"@ {
        res matches Ok(source) && source.kind == ModelKind::Gemma && source.file_name@
            == gemma_file_name() && source.url@ == gemma_base_url() + source.file_name@
    } else {
        res == Err::<ModelSource, ModelError>(ModelError::InvalidModelType)
    }
}

/// Resolves a model type that is already in lowercase.
pub fn resolve_model(model_type_lower: &str, model_id: &str) -> (res: Result<ModelSource, ModelError>)
    ensures
        resolves_to(model_type_lower@, model_id@, res),
{
    proof {
        reveal_strlit("whisper");
        reveal_strlit("gemma");
    }
    if same_text(model_type_lower, "whisper") {
        let mut file_name = joined_text("ggml-", model_id);
        file_name.append(".bin");
        let url = joined_text(
            "https://huggingface.co/ggerganov/whisper.cpp/resolve/main/",
            file_name.as_str(),
        );
        assert(file_name@ =~= whisper_file_name(model_id@));
        Ok(ModelSource { kind: ModelKind::Whisper, url, file_name })
    } else if same_text(model_type_lower, "gemma") {
        let file_name = "gemma-2-2b-it-Q4_K_M.gguf".to_owned();
        let url = joined_text(
            "https://huggingface.co/bartowski/gemma-2-2b-it-GGUF/resolve/main/",
            file_name.as_str(),
        );
        assert(file_name@ =~= gemma_file_name());
        Ok(ModelSource { kind: ModelKind::Gemma, url, file_name })
    } else {
        Err(ModelError::InvalidModelType)
    }
}

/// Resolves a model type in any case: it is lowercased first, so that for an
/// ASCII type such as "Whisper" or "WHISPER" only the letters count, not their case.
pub fn model_source(model_type: &str, model_id: &str) -> (res: Result<ModelSource, ModelError>)
    ensures
        resolves_to(spec_to_lowercase(model_type@), model_id@, res),
        is_ascii_chars(model_type@) ==> resolves_to(ascii_lowercase(model_type@), model_id@, res),
{
    let lower = to_lowercase(model_type);
    resolve_model(lower.as_str(), model_id)
}

/// Lowercasing an ASCII text again changes nothing, and the result is ASCII too.
pub proof fn lemma_ascii_lowercase_idempotent(text: Seq<char>)
    requires
        is_ascii_chars(text),
    ensures
        is_ascii_chars(ascii_lowercase(text)),
        ascii_lowercase(ascii_lowercase(text)) == ascii_lowercase(text),
{
    assert forall|i: int| 0 <= i < ascii_lowercase(text).len() implies '\0' <= #[trigger] ascii_lowercase(text)[i] <= '\u{7f}' by {
        assert(text[i] <= '\u{7f}');
    }
    assert(ascii_lowercase(ascii_lowercase(text)) =~= ascii_lowercase(text));
}

/// An ASCII model type and its lowercase resolve alike: for every id and
/// result, the one resolves to it exactly when the other does.
pub proof fn lemma_case_does_not_matter(
    model_type: Seq<char>,
    model_id: Seq<char>,
    res: Result<ModelSource, ModelError>,
)
    requires
        is_ascii_chars(model_type),
    ensures
        resolves_to(ascii_lowercase(ascii_lowercase(model_type)), model_id, res) <==> resolves_to(
            ascii_lowercase(model_type),
            model_id,
            res,
        ),
{
    lemma_ascii_lowercase_idempotent(model_type);
}

/// A whisper model is stored as "ggml-", then its id exactly as given, then
/// ".bin", for every id; it is fetched from whisper.cpp's folder under that
/// same name.
pub proof fn lemma_whisper_file_is_named_by_id(model_id: Seq<char>, res: Result<ModelSource, ModelError>)
    requires
        resolves_to("whisper"@, model_id, res),
    ensures
        res matches Ok(source) && ({
            let f = source.file_name@;
            let k = model_id.len() as int;
            &&& source.kind == ModelKind::Whisper
            &&& f.len() == k + 9
            &&& f.subrange(0, 5) == "ggml-"@
            &&& f.subrange(5, k + 5) == model_id
            &&& f.subrange(k + 5, k + 9) == ".bin"@
            &&& source.url@.len() == whisper_base_url().len() + f.len()
            &&& source.url@.subrange(0, whisper_base_url().len() as int) == whisper_base_url()
            &&& source.url@.subrange(whisper_base_url().len() as int, source.url@.len() as int) == f
        }),
{
    reveal_strlit("ggml-");
    reveal_strlit(".bin");
    let source = res->Ok_0;
    let f = source.file_name@;
    let k = model_id.len() as int;
    assert(f == "ggml-"@ + model_id + ".bin"@);
    assert(f.subrange(0, 5) =~= "ggml-"@);
    assert(f.subrange(5, k + 5) =~= model_id);
    assert(f.subrange(k + 5, k + 9) =~= ".bin"@);
    assert(source.url@.subrange(0, whisper_base_url().len() as int) =~= whisper_base_url());
    assert(source.url@.subrange(whisper_base_url().len() as int, source.url@.len() as int) =~= f);
}

/// The gemma model is one fixed file, whatever the id: two ids give the same
/// file name and URL, and the URL ends with the file name.
pub proof fn lemma_gemma_ignores_id(
    id1: Seq<char>,
    id2: Seq<char>,
    res1: Result<ModelSource, ModelError>,
    res2: Result<ModelSource, ModelError>,
)
    requires
        resolves_to("gemma"@, id1, res1),
        resolves_to("gemma"@, id2, res2),
    ensures
        res1 matches Ok(s1) && res2 matches Ok(s2) && s1.kind == ModelKind::Gemma && s1.kind
            == s2.kind && s1.file_name@ == s2.file_name@ && s1.url@ == s2.url@
            && s1.url@.subrange(gemma_base_url().len() as int, s1.url@.len() as int)
            == s1.file_name@,
{
    reveal_strlit("whisper");
    reveal_strlit("gemma");
    assert("gemma"@.len() != "whisper"@.len());
    assert("gemma"@ != "whisper"@);
    let s1 = res1->Ok_0;
    assert(s1.url@.subrange(gemma_base_url().len() as int, s1.url@.len() as int) =~= s1.file_name@);
}

/// Only "whisper" and "gemma" are accepted; every other type is refused with
/// the invalid-type error.
pub proof fn lemma_other_types_are_refused(
    model_type_lower: Seq<char>,
    model_id: Seq<char>,
    res: Result<ModelSource, ModelError>,
)
    requires
        resolves_to(model_type_lower, model_id, res),
    ensures
        res is Ok <==> (model_type_lower == "whisper"@ || model_type_lower == "gemma"@),
        res is Err ==> res == Err::<ModelSource, ModelError>(ModelError::InvalidModelType),
{
}

/// ASCII lowercasing keeps the length, leaves no capital A to Z, turns each
/// capital into the small letter 32 code points above it, and leaves every
/// other character as it is.
pub proof fn lemma_ascii_lowercase_letters(text: Seq<char>)
    ensures
        ascii_lowercase(text).len() == text.len(),
        forall|i: int|
            0 <= i < text.len() ==> !(65 <= (#[trigger] ascii_lowercase(text)[i] as u32) <= 90),
        forall|i: int|
            0 <= i < text.len() && 65 <= (text[i] as u32) <= 90 ==> (#[trigger] ascii_lowercase(text)[i]
                as u32) == (text[i] as u32) + 32,
        forall|i: int|
            0 <= i < text.len() && !(65 <= (text[i] as u32) <= 90) ==> #[trigger] ascii_lowercase(text)[i]
                == text[i],
{
}

} // verus!
