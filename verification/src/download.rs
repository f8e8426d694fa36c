use vstd::prelude::*;

use vstd::utf8::is_ascii_chars;

use crate::model::{
    ascii_lowercase, lemma_ascii_lowercase_idempotent,
    gemma_base_url, gemma_file_name, model_source, spec_to_lowercase, whisper_base_url,
    whisper_file_name, ModelSource,
};
use crate::text::joined_text;

verus! {

/// How far a download has come: the bytes received so far and, when the
/// server announced it, the size of the whole file.
#[derive(Debug, Clone, Copy, PartialEq, Eq, Structural)]
pub struct DownloadProgress {
    pub received: u64,
    pub total: Option<u64>,
}

/// Where the fetching of a model stands.
#[derive(Debug, PartialEq, Eq)]
pub enum DownloadStage {
    /// Looking whether the model file is already on disk.
    CheckingCache { url: String },
    /// The request is out; waiting for the server's answer.
    AwaitingResponse,
    /// The body is coming in.
    Receiving { received: u64, total: Option<u64> },
    /// The outcome has been handed out; nothing more happens.
    Finished,
}

/// What the outside world reports back after an action.
#[derive(Debug, PartialEq, Eq)]
pub enum DownloadEvent {
    /// Whether the model file is already on disk.
    CacheChecked { exists: bool },
    /// The server answered: whether the status means success, the status as
    /// text, and the announced length of the body.
    Responded { success: bool, status: String, total: Option<u64> },
    /// A piece of the body came in.
    ChunkReceived { bytes: Vec<u8> },
    /// The body is complete.
    StreamEnded,
    /// Something outside failed; the text says what.
    Failed { message: String },
}

/// What the outside world is asked to do next.
#[derive(Debug, PartialEq, Eq)]
pub enum DownloadAction {
    /// Make sure the models folder exists and look whether this file is in it.
    CheckCache { file_name: String },
    /// Ask the server for this URL.
    Request { url: String },
    /// Create the model file and read the first piece of the body.
    StartReceiving,
    /// Append these bytes (the piece just received) to the model file, report
    /// this progress, read the next piece.
    Store { bytes: Vec<u8>, progress: DownloadProgress },
    /// Hand out the path of the model file.
    ReturnModelPath,
    /// Hand out this error.
    Fail { message: String },
}

/// A stage with its texts taken as character sequences.
pub enum DownloadStageSpec {
    CheckingCache(Seq<char>),
    AwaitingResponse,
    Receiving(u64, Option<u64>),
    Finished,
}

/// An event with its texts taken as character sequences.
pub enum DownloadEventSpec {
    CacheChecked(bool),
    Responded(bool, Seq<char>, Option<u64>),
    ChunkReceived(Seq<u8>),
    StreamEnded,
    Failed(Seq<char>),
}

/// An action with its texts taken as character sequences.
pub enum DownloadActionSpec {
    CheckCache(Seq<char>),
    Request(Seq<char>),
    StartReceiving,
    Store(Seq<u8>, DownloadProgress),
    ReturnModelPath,
    Fail(Seq<char>),
}

impl View for DownloadStage {
    type V = DownloadStageSpec;

    open spec fn view(&self) -> DownloadStageSpec {
        match self {
            DownloadStage::CheckingCache { url } => DownloadStageSpec::CheckingCache(url@),
            DownloadStage::AwaitingResponse => DownloadStageSpec::AwaitingResponse,
            DownloadStage::Receiving { received, total } => DownloadStageSpec::Receiving(
                *received,
                *total,
            ),
            DownloadStage::Finished => DownloadStageSpec::Finished,
        }
    }
}

impl View for DownloadEvent {
    type V = DownloadEventSpec;

    open spec fn view(&self) -> DownloadEventSpec {
        match self {
            DownloadEvent::CacheChecked { exists } => DownloadEventSpec::CacheChecked(*exists),
            DownloadEvent::Responded { success, status, total } => DownloadEventSpec::Responded(
                *success,
                status@,
                *total,
            ),
            DownloadEvent::ChunkReceived { bytes } => DownloadEventSpec::ChunkReceived(bytes@),
            DownloadEvent::StreamEnded => DownloadEventSpec::StreamEnded,
            DownloadEvent::Failed { message } => DownloadEventSpec::Failed(message@),
        }
    }
}

impl View for DownloadAction {
    type V = DownloadActionSpec;

    open spec fn view(&self) -> DownloadActionSpec {
        match self {
            DownloadAction::CheckCache { file_name } => DownloadActionSpec::CheckCache(file_name@),
            DownloadAction::Request { url } => DownloadActionSpec::Request(url@),
            DownloadAction::StartReceiving => DownloadActionSpec::StartReceiving,
            DownloadAction::Store { bytes, progress } => DownloadActionSpec::Store(
                bytes@,
                *progress,
            ),
            DownloadAction::ReturnModelPath => DownloadActionSpec::ReturnModelPath,
            DownloadAction::Fail { message } => DownloadActionSpec::Fail(message@),
        }
    }
}

/// Whether `event` can answer the action issued on entering `stage`.
pub open spec fn download_accepts(stage: DownloadStageSpec, event: DownloadEventSpec) -> bool {
    match stage {
        DownloadStageSpec::CheckingCache(_) => event is CacheChecked || event is Failed,
        DownloadStageSpec::AwaitingResponse => event is Responded || event is Failed,
        DownloadStageSpec::Receiving(received, _) => match event {
            DownloadEventSpec::ChunkReceived(piece) => received + piece.len() <= u64::MAX,
            DownloadEventSpec::StreamEnded => true,
            DownloadEventSpec::Failed(_) => true,
            _ => false,
        },
        DownloadStageSpec::Finished => false,
    }
}

/// The stage that follows `stage` on `event`, and the action it asks for.
pub open spec fn download_transition(stage: DownloadStageSpec, event: DownloadEventSpec) -> (
    DownloadStageSpec,
    DownloadActionSpec,
) {
    match (stage, event) {
        (_, DownloadEventSpec::Failed(m)) => (
            DownloadStageSpec::Finished,
            DownloadActionSpec::Fail(m),
        ),
        (DownloadStageSpec::CheckingCache(url), DownloadEventSpec::CacheChecked(exists)) => if exists {
            (DownloadStageSpec::Finished, DownloadActionSpec::ReturnModelPath)
        } else {
            (DownloadStageSpec::AwaitingResponse, DownloadActionSpec::Request(url))
        },
        (
            DownloadStageSpec::AwaitingResponse,
            DownloadEventSpec::Responded(success, status, total),
        ) => if success {
            (DownloadStageSpec::Receiving(0, total), DownloadActionSpec::StartReceiving)
        } else {
            (
                DownloadStageSpec::Finished,
                DownloadActionSpec::Fail("Download failed with status: "@ + status),
            )
        },
        (DownloadStageSpec::Receiving(received, total), DownloadEventSpec::ChunkReceived(piece)) => {
            let now = (received + piece.len()) as u64;
            (
                DownloadStageSpec::Receiving(now, total),
                DownloadActionSpec::Store(piece, DownloadProgress { received: now, total }),
            )
        },
        (DownloadStageSpec::Receiving(_, _), DownloadEventSpec::StreamEnded) => (
            DownloadStageSpec::Finished,
            DownloadActionSpec::ReturnModelPath,
        ),
        (s, _) => (s, DownloadActionSpec::StartReceiving),
    }
}

/// Where the fetching of a model begins, for a model type already in
/// lowercase and a model id.
pub open spec fn download_start(model_type_lower: Seq<char>, model_id: Seq<char>) -> (
    DownloadStageSpec,
    DownloadActionSpec,
) {
    if model_type_lower == "whisper"@ {
        (
            DownloadStageSpec::CheckingCache(whisper_base_url() + whisper_file_name(model_id)),
            DownloadActionSpec::CheckCache(whisper_file_name(model_id)),
        )
    } else if model_type_lower == "gemma"@ {
        (
            DownloadStageSpec::CheckingCache(gemma_base_url() + gemma_file_name()),
            DownloadActionSpec::CheckCache(gemma_file_name()),
        )
    } else {
        (DownloadStageSpec::Finished, DownloadActionSpec::Fail("Invalid model type"@))
    }
}

/// The fetching of a model: resolve what to fetch, skip it when it is already
/// on disk, otherwise request it, refuse an unsuccessful answer, and store the
/// body piece by piece, reporting the bytes received after each piece.
pub struct DownloadModel {
    stage: DownloadStage,
}

impl View for DownloadModel {
    type V = DownloadStageSpec;

    closed spec fn view(&self) -> DownloadStageSpec {
        self.stage@
    }
}

impl DownloadModel {
    /// Begins with a resolved model: the first action is to look for its file.
    pub fn for_source(source: ModelSource) -> (res: (DownloadModel, DownloadAction))
        ensures
            res.0@ == DownloadStageSpec::CheckingCache(source.url@),
            res.1@ == DownloadActionSpec::CheckCache(source.file_name@),
    {
        let ModelSource { kind: _, url, file_name } = source;
        (
            DownloadModel { stage: DownloadStage::CheckingCache { url } },
            DownloadAction::CheckCache { file_name },
        )
    }

    /// Begins from the model type and id the user gave. A type that is neither
    /// whisper nor gemma (in any case) ends the work at once with
    /// "Invalid model type"; otherwise the first action is to look for the file.
    pub fn start(model_type: &str, model_id: &str) -> (res: (DownloadModel, DownloadAction))
        ensures
            (res.0@, res.1@) == download_start(spec_to_lowercase(model_type@), model_id@),
            is_ascii_chars(model_type@) ==> (res.0@, res.1@) == download_start(
                ascii_lowercase(model_type@),
                model_id@,
            ),
    {
        let resolved = model_source(model_type, model_id);
        match resolved {
            Ok(source) => DownloadModel::for_source(source),
            Err(e) => {
                let message = e.message().to_owned();
                (DownloadModel { stage: DownloadStage::Finished }, DownloadAction::Fail { message })
            },
        }
    }

    /// Whether the work is over.
    pub fn is_finished(&self) -> (done: bool)
        ensures
            done <==> self@ is Finished,
    {
        match self.stage {
            DownloadStage::Finished => true,
            _ => false,
        }
    }

    /// Whether `event` can answer the action last asked for. A piece that would
    /// carry the byte count past `u64::MAX` cannot.
    pub fn accepts(&self, event: &DownloadEvent) -> (ok: bool)
        ensures
            ok == download_accepts(self@, event@),
    {
        match (&self.stage, event) {
            (DownloadStage::CheckingCache { .. }, DownloadEvent::CacheChecked { .. }) => true,
            (DownloadStage::CheckingCache { .. }, DownloadEvent::Failed { .. }) => true,
            (DownloadStage::AwaitingResponse, DownloadEvent::Responded { .. }) => true,
            (DownloadStage::AwaitingResponse, DownloadEvent::Failed { .. }) => true,
            (DownloadStage::Receiving { received, .. }, DownloadEvent::ChunkReceived { bytes }) => {
                bytes.len() as u64 <= u64::MAX - *received
            },
            (DownloadStage::Receiving { .. }, DownloadEvent::StreamEnded) => true,
            (DownloadStage::Receiving { .. }, DownloadEvent::Failed { .. }) => true,
            _ => false,
        }
    }

    /// Takes in what the last action gave and says what to do next.
    pub fn step(&mut self, event: DownloadEvent) -> (action: DownloadAction)
        requires
            download_accepts(old(self)@, event@),
        ensures
            (final(self)@, action@) == download_transition(old(self)@, event@),
    {
        let mut stage = DownloadStage::Finished;
        std::mem::swap(&mut stage, &mut self.stage);
        match event {
            DownloadEvent::Failed { message } => DownloadAction::Fail { message },
            DownloadEvent::CacheChecked { exists } => match stage {
                DownloadStage::CheckingCache { url } => {
                    if exists {
                        DownloadAction::ReturnModelPath
                    } else {
                        self.stage = DownloadStage::AwaitingResponse;
                        DownloadAction::Request { url }
                    }
                },
                _ => DownloadAction::StartReceiving,
            },
            DownloadEvent::Responded { success, status, total } => {
                if success {
                    self.stage = DownloadStage::Receiving { received: 0, total };
                    DownloadAction::StartReceiving
                } else {
                    DownloadAction::Fail {
                        message: joined_text("Download failed with status: ", status.as_str()),
                    }
                }
            },
            DownloadEvent::ChunkReceived { bytes } => match stage {
                DownloadStage::Receiving { received, total } => {
                    let now = received + bytes.len() as u64;
                    self.stage = DownloadStage::Receiving { received: now, total };
                    DownloadAction::Store { bytes, progress: DownloadProgress { received: now, total } }
                },
                _ => DownloadAction::StartReceiving,
            },
            DownloadEvent::StreamEnded => DownloadAction::ReturnModelPath,
        }
    }
}

/// The stage reached and the actions asked for when `events` come in, in order,
/// starting from `stage`.
pub open spec fn download_run(stage: DownloadStageSpec, events: Seq<DownloadEventSpec>) -> (
    DownloadStageSpec,
    Seq<DownloadActionSpec>,
)
    decreases events.len(),
{
    if events.len() == 0 {
        (stage, Seq::empty())
    } else {
        let next = download_transition(stage, events[0]);
        let rest = download_run(next.0, events.drop_first());
        (rest.0, seq![next.1] + rest.1)
    }
}

/// The events that report the given pieces of the body, in order.
pub open spec fn chunk_events(pieces: Seq<Seq<u8>>) -> Seq<DownloadEventSpec> {
    pieces.map_values(|piece: Seq<u8>| DownloadEventSpec::ChunkReceived(piece))
}

/// The pieces put one after the other.
pub open spec fn joined_pieces(pieces: Seq<Seq<u8>>) -> Seq<u8>
    decreases pieces.len(),
{
    if pieces.len() == 0 {
        Seq::empty()
    } else {
        pieces[0] + joined_pieces(pieces.drop_first())
    }
}

/// The bytes that a run of actions appends to the model file, in order.
pub open spec fn stored_bytes(actions: Seq<DownloadActionSpec>) -> Seq<u8>
    decreases actions.len(),
{
    if actions.len() == 0 {
        Seq::empty()
    } else {
        match actions[0] {
            DownloadActionSpec::Store(bytes, _) => bytes + stored_bytes(actions.drop_first()),
            _ => stored_bytes(actions.drop_first()),
        }
    }
}

/// The number of bytes in the pieces.
pub open spec fn total_len(pieces: Seq<Seq<u8>>) -> nat {
    joined_pieces(pieces).len()
}

/// Once the outcome has been handed out, no event is taken in any more.
pub proof fn lemma_download_finished_takes_nothing(event: DownloadEventSpec)
    ensures
        !download_accepts(DownloadStageSpec::Finished, event),
{
}

/// A model file that is already on disk is handed out without any request.
pub proof fn lemma_cached_model_is_not_fetched(url: Seq<char>)
    ensures
        download_transition(DownloadStageSpec::CheckingCache(url), DownloadEventSpec::CacheChecked(true))
            == (DownloadStageSpec::Finished, DownloadActionSpec::ReturnModelPath),
{
}

/// Any failure ends the download at once and hands out its own text unchanged.
pub proof fn lemma_failure_ends_download(stage: DownloadStageSpec, message: Seq<char>)
    requires
        download_accepts(stage, DownloadEventSpec::Failed(message)),
    ensures
        download_transition(stage, DownloadEventSpec::Failed(message)) == (
            DownloadStageSpec::Finished,
            DownloadActionSpec::Fail(message),
        ),
{
}

/// While the body comes in, each piece is handed back to be stored as it
/// came: after pieces `pieces`, starting from `received` bytes, the count is
/// `received` plus the pieces' bytes, the i-th action stores exactly the i-th
/// piece, and the progress reported with it counts every byte up to and
/// including that piece.
pub proof fn lemma_received_counts_chunks(received: u64, total: Option<u64>, pieces: Seq<Seq<u8>>)
    requires
        received + total_len(pieces) <= u64::MAX,
    ensures
        download_run(DownloadStageSpec::Receiving(received, total), chunk_events(pieces)).0
            == DownloadStageSpec::Receiving((received + total_len(pieces)) as u64, total),
        download_run(DownloadStageSpec::Receiving(received, total), chunk_events(pieces)).1.len()
            == pieces.len(),
        forall|i: int|
            0 <= i < pieces.len() ==> #[trigger] download_run(
                DownloadStageSpec::Receiving(received, total),
                chunk_events(pieces),
            ).1[i] == DownloadActionSpec::Store(
                pieces[i],
                DownloadProgress {
                    received: (received + total_len(pieces.take(i + 1))) as u64,
                    total,
                },
            ),
    decreases pieces.len(),
{
    let stage = DownloadStageSpec::Receiving(received, total);
    if pieces.len() == 0 {
        assert(chunk_events(pieces) =~= Seq::<DownloadEventSpec>::empty());
    } else {
        let first = pieces[0];
        let rest = pieces.drop_first();
        let now = (received + first.len()) as u64;
        assert(chunk_events(pieces)[0] == DownloadEventSpec::ChunkReceived(first));
        assert(chunk_events(pieces).drop_first() =~= chunk_events(rest));
        assert(total_len(pieces) == first.len() + total_len(rest));
        lemma_received_counts_chunks(now, total, rest);
        let r = download_run(stage, chunk_events(pieces));
        let r2 = download_run(DownloadStageSpec::Receiving(now, total), chunk_events(rest));
        assert(r.1 == seq![DownloadActionSpec::Store(first, DownloadProgress { received: now, total })] + r2.1);
        assert forall|i: int| 0 <= i < pieces.len() implies #[trigger] r.1[i]
            == DownloadActionSpec::Store(
            pieces[i],
            DownloadProgress { received: (received + total_len(pieces.take(i + 1))) as u64, total },
        ) by {
            assert(pieces.take(i + 1)[0] == first);
            assert(pieces.take(i + 1).drop_first() =~= rest.take(i));
            assert(total_len(pieces.take(i + 1)) == first.len() + total_len(rest.take(i)));
            if i == 0 {
                assert(rest.take(0) =~= Seq::<Seq<u8>>::empty());
            } else {
                assert(r.1[i] == r2.1[i - 1]);
                assert(rest[i - 1] == pieces[i]);
            }
        }
    }
}

/// The model file receives exactly the body: the bytes that the actions append
/// while the pieces come in are the pieces joined, in order, and the byte count
/// reached is their length.
pub proof fn lemma_file_holds_the_body(received: u64, total: Option<u64>, pieces: Seq<Seq<u8>>)
    requires
        received + total_len(pieces) <= u64::MAX,
    ensures
        stored_bytes(
            download_run(DownloadStageSpec::Receiving(received, total), chunk_events(pieces)).1,
        ) == joined_pieces(pieces),
        download_run(DownloadStageSpec::Receiving(received, total), chunk_events(pieces)).0
            == DownloadStageSpec::Receiving((received + joined_pieces(pieces).len()) as u64, total),
    decreases pieces.len(),
{
    lemma_received_counts_chunks(received, total, pieces);
    if pieces.len() == 0 {
        assert(chunk_events(pieces) =~= Seq::<DownloadEventSpec>::empty());
    } else {
        let first = pieces[0];
        let rest = pieces.drop_first();
        let now = (received + first.len()) as u64;
        assert(chunk_events(pieces)[0] == DownloadEventSpec::ChunkReceived(first));
        assert(chunk_events(pieces).drop_first() =~= chunk_events(rest));
        assert(total_len(pieces) == first.len() + total_len(rest));
        lemma_file_holds_the_body(now, total, rest);
        let r = download_run(DownloadStageSpec::Receiving(received, total), chunk_events(pieces));
        let r2 = download_run(DownloadStageSpec::Receiving(now, total), chunk_events(rest));
        let head = DownloadActionSpec::Store(first, DownloadProgress { received: now, total });
        assert(r.1 == seq![head] + r2.1);
        assert((seq![head] + r2.1)[0] == head);
        assert((seq![head] + r2.1).drop_first() =~= r2.1);
    }
}

/// For an ASCII model type, starting from the type or from its lowercase is
/// the same: "Whisper" and "GEMMA" are fetched like "whisper" and "gemma", and
/// a type whose lowercase is neither fails alike.
pub proof fn lemma_lowercase_type_starts_alike(model_type: Seq<char>, model_id: Seq<char>)
    requires
        is_ascii_chars(model_type),
    ensures
        is_ascii_chars(ascii_lowercase(model_type)),
        download_start(ascii_lowercase(ascii_lowercase(model_type)), model_id) == download_start(
            ascii_lowercase(model_type),
            model_id,
        ),
{
    lemma_ascii_lowercase_idempotent(model_type);
}

/// Every answer that an action can get is taken in at the stage that asked
/// for it: the cache check either way, any server answer, the end of the body,
/// any failure before the end, and any piece of the body as long as the byte
/// count stays within `u64`.
pub proof fn lemma_every_download_answer_is_taken(
    url: Seq<char>,
    exists: bool,
    success: bool,
    status: Seq<char>,
    total: Option<u64>,
    received: u64,
    piece: Seq<u8>,
    message: Seq<char>,
)
    ensures
        download_accepts(DownloadStageSpec::CheckingCache(url), DownloadEventSpec::CacheChecked(exists)),
        download_accepts(DownloadStageSpec::CheckingCache(url), DownloadEventSpec::Failed(message)),
        download_accepts(
            DownloadStageSpec::AwaitingResponse,
            DownloadEventSpec::Responded(success, status, total),
        ),
        download_accepts(DownloadStageSpec::AwaitingResponse, DownloadEventSpec::Failed(message)),
        download_accepts(DownloadStageSpec::Receiving(received, total), DownloadEventSpec::StreamEnded),
        download_accepts(DownloadStageSpec::Receiving(received, total), DownloadEventSpec::Failed(message)),
        received + piece.len() <= u64::MAX ==> download_accepts(
            DownloadStageSpec::Receiving(received, total),
            DownloadEventSpec::ChunkReceived(piece),
        ),
        received + piece.len() > u64::MAX ==> !download_accepts(
            DownloadStageSpec::Receiving(received, total),
            DownloadEventSpec::ChunkReceived(piece),
        ),
{
}

/// A model that is not on disk is requested from the URL it was resolved to;
/// a successful answer starts the body at zero bytes with the announced size,
/// and an unsuccessful one fails naming the status.
pub proof fn lemma_missing_model_is_requested(
    url: Seq<char>,
    status: Seq<char>,
    total: Option<u64>,
)
    ensures
        download_transition(DownloadStageSpec::CheckingCache(url), DownloadEventSpec::CacheChecked(false))
            == (DownloadStageSpec::AwaitingResponse, DownloadActionSpec::Request(url)),
        download_transition(
            DownloadStageSpec::AwaitingResponse,
            DownloadEventSpec::Responded(true, status, total),
        ) == (DownloadStageSpec::Receiving(0, total), DownloadActionSpec::StartReceiving),
        download_transition(
            DownloadStageSpec::AwaitingResponse,
            DownloadEventSpec::Responded(false, status, total),
        ) == (
            DownloadStageSpec::Finished,
            DownloadActionSpec::Fail("Download failed with status: "@ + status),
        ),
{
}

/// Whatever the model, the file looked for on disk is the one at the end of
/// the URL that will be requested, and an unknown type fails before any check.
pub proof fn lemma_start_looks_for_the_fetched_file(model_type_lower: Seq<char>, model_id: Seq<char>)
    ensures
        match download_start(model_type_lower, model_id) {
            (DownloadStageSpec::CheckingCache(url), DownloadActionSpec::CheckCache(file)) =>
                url.len() >= file.len() && url.subrange(url.len() - file.len(), url.len() as int)
                    == file && (model_type_lower == "whisper"@ || model_type_lower == "gemma"@),
            (DownloadStageSpec::Finished, DownloadActionSpec::Fail(m)) => m == "Invalid model type"@
                && model_type_lower != "whisper"@ && model_type_lower != "gemma"@,
            _ => false,
        },
{
    let (stage, action) = download_start(model_type_lower, model_id);
    if model_type_lower == "whisper"@ {
        let file = whisper_file_name(model_id);
        let url = whisper_base_url() + file;
        assert(url.subrange(url.len() - file.len(), url.len() as int) =~= file);
    } else if model_type_lower == "gemma"@ {
        let file = gemma_file_name();
        let url = gemma_base_url() + file;
        assert(url.subrange(url.len() - file.len(), url.len() as int) =~= file);
    }
}

} // verus!
