//! The photo upload route: naming the stored file, walking the multipart
//! form, and the reply to the storage request.
use vstd::prelude::*;
use crate::reply::{Reply, Status, text_reply, message_reply};
use crate::text::{replace_all, replace_text, lemma_replace_removes_char};

verus! {

/// The name under which an upload is stored: `{fresh_id}:{filename}` with
/// every space turned into `_`.
pub open spec fn stored_name_text(fresh_id: Seq<char>, filename: Seq<char>) -> Seq<char> {
    replace_all(fresh_id + ":"@ + filename, " "@, "_"@)
}

/// The storage name of a file called `filename`, made unique by `fresh_id`.
pub fn stored_file_name(fresh_id: &str, filename: &str) -> (name: String)
    ensures
        name@ == stored_name_text(fresh_id@, filename@),
        !name@.contains(' '),
{
    proof {
        reveal_strlit(" ");
        reveal_strlit("_");
        assert(" "@ =~= seq![' ']);
        lemma_replace_removes_char(fresh_id@ + ":"@ + filename@, ' ', "_"@);
    }
    let mut joined = String::from_str(fresh_id);
    joined.append(":");
    joined.append(filename);
    replace_text(joined.as_str(), " ", "_")
}

/// Where the upload stands.
pub enum UploadState {
    /// Waiting for the next field of the form.
    SeekingField,
    /// Reading the chunks of a field that will be stored under this name.
    ReadingField { stored_name: String },
    /// The request has its answer.
    Finished,
}

/// What the caller found when it did the last action.
pub enum UploadEvent {
    /// The next field, with the file name it declares, if any, and a fresh
    /// unique id (a new v4 UUID).
    Field { filename: Option<String>, fresh_id: String },
    /// The form has no further field (or could not be read further).
    NoMoreFields,
    /// The next chunk of the current field.
    Chunk { data: Vec<u8> },
    /// The current field has no further chunk.
    NoMoreChunks,
}

/// What the caller does next.
pub enum UploadAction {
    /// Read the next field of the form.
    NextField,
    /// Read the next chunk of the current field.
    NextChunk,
    /// Store these bytes under this name; the reply to that is the answer.
    Store { stored_name: String, data: Vec<u8> },
    /// Answer with this reply.
    Respond(Reply),
}

/// Which events can follow in each state: fields when seeking one, chunks
/// when reading one, nothing once finished.
pub open spec fn expects(state: UploadState, event: UploadEvent) -> bool {
    match state {
        UploadState::SeekingField => event is Field || event is NoMoreFields,
        UploadState::ReadingField { .. } => event is Chunk || event is NoMoreChunks,
        UploadState::Finished => false,
    }
}

/// How the upload moves on an event.
pub open spec fn upload_transition(
    state: UploadState,
    event: UploadEvent,
    next: UploadState,
    action: UploadAction,
) -> bool {
    match (state, event) {
        (UploadState::SeekingField, UploadEvent::Field { filename: None, .. }) => {
            &&& next is Finished
            &&& action matches UploadAction::Respond(r)
                && r@ == (Status::InternalServerError, "No filename provided"@)
        },
        (UploadState::SeekingField, UploadEvent::Field { filename: Some(f), fresh_id }) => {
            &&& next matches UploadState::ReadingField { stored_name }
                && stored_name@ == stored_name_text(fresh_id@, f@)
            &&& action is NextChunk
        },
        (UploadState::SeekingField, UploadEvent::NoMoreFields) => {
            &&& next is Finished
            &&& action matches UploadAction::Respond(r)
                && r@ == (Status::InternalServerError, "Unknown error"@)
        },
        (UploadState::ReadingField { stored_name }, UploadEvent::Chunk { data }) => {
            &&& next is Finished
            &&& action matches UploadAction::Store { stored_name: n, data: d }
                && n == stored_name && d@ == data@
        },
        (UploadState::ReadingField { .. }, UploadEvent::NoMoreChunks) => {
            &&& next is SeekingField
            &&& action is NextField
        },
        _ => false,
    }
}

/// The first state and action of an upload: look for a field.
pub fn upload_start() -> (start: (UploadState, UploadAction))
    ensures
        start.0 is SeekingField,
        start.1 is NextField,
{
    (UploadState::SeekingField, UploadAction::NextField)
}

/// One step of the upload: the first chunk of the first named field is
/// stored; a field without a file name, or a form without a stored chunk,
/// is answered with an error.
pub fn upload_step(state: UploadState, event: UploadEvent) -> (out: (UploadState, UploadAction))
    requires
        expects(state, event),
    ensures
        upload_transition(state, event, out.0, out.1),
        state matches UploadState::ReadingField { stored_name } ==> (event matches UploadEvent::Chunk {
            data,
        } ==> (out.1 matches UploadAction::Store { stored_name: n, data: d } && n@ == stored_name@
            && d@ == data@)),
        out.1 matches UploadAction::Store { data: d, .. } ==> (event matches UploadEvent::Chunk {
            data,
        } && d@ == data@),
{
    match state {
        UploadState::SeekingField => match event {
            UploadEvent::Field { filename: None, fresh_id: _ } => (
                UploadState::Finished,
                UploadAction::Respond(
                    text_reply(Status::InternalServerError, "No filename provided"),
                ),
            ),
            UploadEvent::Field { filename: Some(f), fresh_id } => {
                let name = stored_file_name(fresh_id.as_str(), f.as_str());
                (UploadState::ReadingField { stored_name: name }, UploadAction::NextChunk)
            },
            _ => (
                UploadState::Finished,
                UploadAction::Respond(text_reply(Status::InternalServerError, "Unknown error")),
            ),
        },
        UploadState::ReadingField { stored_name } => match event {
            UploadEvent::Chunk { data } => (
                UploadState::Finished,
                UploadAction::Store { stored_name, data },
            ),
            _ => (UploadState::SeekingField, UploadAction::NextField),
        },
        UploadState::Finished => (UploadState::Finished, UploadAction::NextField),
    }
}

/// An upload stores at most once: the step that stores, or that answers,
/// leaves the upload finished, and a finished upload takes no event.
pub proof fn lemma_upload_ends_after_store_or_reply(
    state: UploadState,
    event: UploadEvent,
    next: UploadState,
    action: UploadAction,
    later: UploadEvent,
)
    requires
        upload_transition(state, event, next, action),
        action is Store || action is Respond,
    ensures
        next is Finished,
        !expects(next, later),
{
}

/// The bytes handed to storage are the bytes of the chunk received, byte for
/// byte, stored under the name that the field was given; and storage is
/// asked for only on a chunk.
pub proof fn lemma_chunk_stored_unchanged(
    stored_name: String,
    data: Vec<u8>,
    next: UploadState,
    action: UploadAction,
)
    requires
        upload_transition(
            UploadState::ReadingField { stored_name },
            UploadEvent::Chunk { data },
            next,
            action,
        ),
    ensures
        action matches UploadAction::Store { stored_name: n, data: d } && n@ == stored_name@
            && d@ == data@ && d.len() == data.len(),
        forall|i: int| 0 <= i < data.len() ==> action->Store_data@[i] == data@[i],
        next is Finished,
{
}

/// Storage is asked for only right after a chunk, and with its bytes.
pub proof fn lemma_store_only_on_chunk(
    state: UploadState,
    event: UploadEvent,
    next: UploadState,
    action: UploadAction,
)
    requires
        upload_transition(state, event, next, action),
        action is Store,
    ensures
        event matches UploadEvent::Chunk { data } && action->Store_data@ == data@,
        state is ReadingField,
{
}

/// `{bucket_url}/{filename}`: where a stored file can be fetched.
pub open spec fn file_url_text(bucket_url: Seq<char>, filename: Seq<char>) -> Seq<char> {
    bucket_url + "/"@ + filename
}

/// The reply to a storage request for `filename`: 201 with the file's URL
/// when it was stored, else 500 with what failed.
pub fn upload_reply(bucket_url: &str, filename: &str, stored: bool) -> (r: Reply)
    ensures
        stored ==> r@ == (Status::Created, file_url_text(bucket_url@, filename@)),
        !stored ==> r@ == (Status::InternalServerError,
            "Failed to upload file "@ + filename@ + " to s3"@),
{
    if stored {
        let mut url = String::from_str(bucket_url);
        url.append("/");
        url.append(filename);
        message_reply(Status::Created, url)
    } else {
        let mut msg = String::from_str("Failed to upload file ");
        msg.append(filename);
        msg.append(" to s3");
        message_reply(Status::InternalServerError, msg)
    }
}

} // verus!
