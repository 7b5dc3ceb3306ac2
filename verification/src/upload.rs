//! The decisions of a file upload.
//!
//! An upload arrives as a form of two parts: a file, already written to
//! transient storage, and a metadata record. Storing it takes four operations
//! on the file system, each of which may fail. The operations themselves are
//! the caller's; what is decided here is which operation comes next, and what
//! the client is told at the end.

use vstd::prelude::*;
use vstd::string::*;
use crate::decimal::{decimal, push_decimal};
use crate::reply::{ContentType, Reply, ReplyView};

verus! {

/// The most bytes that the file part of a form may hold.
pub const PART_LIMIT: u64 = 100_000_000;

/// The metadata part of a form.
#[derive(Debug)]
pub struct Metadata {
    pub name: String,
}

/// The file part of a form: the name that the client declared for it, if any,
/// and the number of bytes that were received.
#[derive(Debug)]
pub struct FilePart {
    pub file_name: Option<String>,
    pub size: u64,
}

/// An upload form.
#[derive(Debug)]
pub struct UploadForm {
    pub file: FilePart,
    pub json: Metadata,
}

/// A form as plain values.
pub struct UploadFormView {
    pub file_name: Option<Seq<char>>,
    pub size: u64,
    pub name: Seq<char>,
}

impl View for UploadForm {
    type V = UploadFormView;

    open spec fn view(&self) -> UploadFormView {
        UploadFormView {
            file_name: match self.file.file_name {
                Some(file_name) => Some(file_name@),
                None => None,
            },
            size: self.file.size,
            name: self.json.name@,
        }
    }
}

impl UploadFormView {
    /// The file part is within the limit.
    pub open spec fn wf(self) -> bool {
        self.size <= PART_LIMIT
    }
}

/// Why a form was refused.
#[derive(Clone, Copy, Debug, PartialEq, Eq, Structural)]
pub enum FormError {
    /// The file part holds more than the limit allows.
    PartTooLarge { limit: u64, size: u64 },
}

impl UploadForm {
    /// Puts a form together from its parts, unless the file part is over the limit.
    pub fn new(file_name: Option<String>, size: u64, name: String) -> (form: Result<
        UploadForm,
        FormError,
    >)
        ensures
            size <= PART_LIMIT ==> form is Ok && form->Ok_0@ == (UploadFormView {
                file_name: match file_name {
                    Some(file_name) => Some(file_name@),
                    None => None,
                },
                size,
                name: name@,
            }) && form->Ok_0@.wf(),
            size > PART_LIMIT ==> form == Err::<UploadForm, FormError>(
                FormError::PartTooLarge { limit: PART_LIMIT, size },
            ),
    {
        if size > PART_LIMIT {
            Err(FormError::PartTooLarge { limit: PART_LIMIT, size })
        } else {
            Ok(UploadForm { file: FilePart { file_name, size }, json: Metadata { name } })
        }
    }
}

/// Why an upload failed.
#[derive(Clone, Copy, Debug, PartialEq, Eq, Structural)]
pub enum FailureKind {
    /// The directory or the destination file could not be created.
    StorageUnavailable,
    /// The contents could not be read or written to the end.
    CopyFailed,
    /// The client declared no name for the file.
    MissingFilename,
}

/// How far an upload has come.
#[derive(Clone, Copy, Debug, PartialEq, Eq, Structural)]
pub enum Stage {
    Start,
    DirectoryEnsured,
    DestinationOpened,
    CopyInProgress,
    Completed,
    Failed(FailureKind),
}

/// How the operation that was asked for ended.
#[derive(Clone, Copy, Debug, PartialEq, Eq, Structural)]
pub enum Event {
    Done,
    Failed,
}

/// A stored upload: where the file went, the name from the metadata, and the
/// size of the file part.
#[derive(Debug)]
pub struct UploadOutcome {
    pub path: String,
    pub name: String,
    pub size: u64,
}

/// An outcome as plain values.
pub struct UploadOutcomeView {
    pub path: Seq<char>,
    pub name: Seq<char>,
    pub size: u64,
}

impl View for UploadOutcome {
    type V = UploadOutcomeView;

    open spec fn view(&self) -> UploadOutcomeView {
        UploadOutcomeView { path: self.path@, name: self.name@, size: self.size }
    }
}

/// What the caller does next.
#[derive(Debug)]
pub enum Action {
    /// Create the directory at `path`, and every missing directory above it.
    EnsureDirectory { path: String },
    /// Create the destination file at `path`.
    OpenDestination { path: String },
    /// Open the transient storage of the file part for reading.
    OpenSource,
    /// Copy from the transient storage to the destination until the source ends.
    CopyContents,
    /// Tell the client that the upload is stored.
    Finish(UploadOutcome),
    /// Tell the client that the upload failed.
    Reject(FailureKind),
}

/// An action as plain values.
pub enum ActionView {
    EnsureDirectory { path: Seq<char> },
    OpenDestination { path: Seq<char> },
    OpenSource,
    CopyContents,
    Finish(UploadOutcomeView),
    Reject(FailureKind),
}

impl View for Action {
    type V = ActionView;

    open spec fn view(&self) -> ActionView {
        match self {
            Action::EnsureDirectory { path } => ActionView::EnsureDirectory { path: path@ },
            Action::OpenDestination { path } => ActionView::OpenDestination { path: path@ },
            Action::OpenSource => ActionView::OpenSource,
            Action::CopyContents => ActionView::CopyContents,
            Action::Finish(outcome) => ActionView::Finish(outcome@),
            Action::Reject(kind) => ActionView::Reject(*kind),
        }
    }
}

/// The directory that uploads are stored in.
pub open spec fn upload_directory() -> Seq<char> {
    "uploads"@
}

/// Where a file with the given name is stored: in the upload directory, under
/// the name as the client wrote it.
pub open spec fn destination_path(file_name: Seq<char>) -> Seq<char> {
    "uploads/"@ + file_name
}

/// The stage after `event`, for a form that declares a file name or does not.
///
/// Each operation that ends well moves the upload one stage on. The file name
/// is first needed once the directory is there, so that is where a form without
/// one fails. `Completed` and `Failed` are left by no event.
pub open spec fn next_stage(stage: Stage, event: Event, named: bool) -> Stage {
    match stage {
        Stage::Start => match event {
            Event::Done => if named {
                Stage::DirectoryEnsured
            } else {
                Stage::Failed(FailureKind::MissingFilename)
            },
            Event::Failed => Stage::Failed(FailureKind::StorageUnavailable),
        },
        Stage::DirectoryEnsured => match event {
            Event::Done => Stage::DestinationOpened,
            Event::Failed => Stage::Failed(FailureKind::StorageUnavailable),
        },
        Stage::DestinationOpened => match event {
            Event::Done => Stage::CopyInProgress,
            Event::Failed => Stage::Failed(FailureKind::CopyFailed),
        },
        Stage::CopyInProgress => match event {
            Event::Done => Stage::Completed,
            Event::Failed => Stage::Failed(FailureKind::CopyFailed),
        },
        Stage::Completed => Stage::Completed,
        Stage::Failed(kind) => Stage::Failed(kind),
    }
}

/// Whether an upload at `stage` has made use of the file name.
pub open spec fn past_start(stage: Stage) -> bool {
    stage is DirectoryEnsured || stage is DestinationOpened || stage is CopyInProgress
        || stage is Completed
}

/// The outcome of storing `form`, which declares a file name.
pub open spec fn outcome_of(form: UploadFormView) -> UploadOutcomeView {
    UploadOutcomeView {
        path: destination_path(form.file_name->Some_0),
        name: form.name,
        size: form.size,
    }
}

/// What is to be done for `form` at `stage`.
pub open spec fn pending(stage: Stage, form: UploadFormView) -> ActionView {
    match stage {
        Stage::Start => ActionView::EnsureDirectory { path: upload_directory() },
        Stage::DirectoryEnsured => ActionView::OpenDestination {
            path: destination_path(form.file_name->Some_0),
        },
        Stage::DestinationOpened => ActionView::OpenSource,
        Stage::CopyInProgress => ActionView::CopyContents,
        Stage::Completed => ActionView::Finish(outcome_of(form)),
        Stage::Failed(kind) => ActionView::Reject(kind),
    }
}

/// An upload under way.
pub struct Ingest {
    form: UploadForm,
    stage: Stage,
}

/// An upload under way, as plain values.
pub struct IngestView {
    pub form: UploadFormView,
    pub stage: Stage,
}

impl IngestView {
    /// No upload gets past the start without a file name.
    pub open spec fn wf(self) -> bool {
        past_start(self.stage) ==> self.form.file_name is Some
    }
}

impl View for Ingest {
    type V = IngestView;

    closed spec fn view(&self) -> IngestView {
        IngestView { form: self.form@, stage: self.stage }
    }
}

impl Ingest {
    #[verifier::type_invariant]
    spec fn inv(&self) -> bool {
        self@.wf()
    }

    /// Takes up the upload of `form`, at the start.
    pub fn start(form: UploadForm) -> (ingest: Ingest)
        ensures
            ingest@ == (IngestView { form: form@, stage: Stage::Start }),
            ingest@.wf(),
    {
        Ingest { form, stage: Stage::Start }
    }

    /// The stage that the upload is at.
    pub fn stage(&self) -> (stage: Stage)
        ensures
            stage == self@.stage,
            self@.wf(),
    {
        proof {
            use_type_invariant(self);
        }
        self.stage
    }

    /// The form that is being uploaded.
    pub fn form(&self) -> (form: &UploadForm)
        ensures
            form@ == self@.form,
    {
        &self.form
    }

    /// What the caller is to do at this stage.
    pub fn action(&self) -> (action: Action)
        ensures
            action@ == pending(self@.stage, self@.form),
    {
        proof {
            use_type_invariant(self);
        }
        match self.stage {
            Stage::Start => Action::EnsureDirectory { path: String::from_str("uploads") },
            Stage::DirectoryEnsured => Action::OpenDestination { path: self.destination() },
            Stage::DestinationOpened => Action::OpenSource,
            Stage::CopyInProgress => Action::CopyContents,
            Stage::Completed => Action::Finish(
                UploadOutcome {
                    path: self.destination(),
                    name: self.form.json.name.clone(),
                    size: self.form.file.size,
                },
            ),
            Stage::Failed(kind) => Action::Reject(kind),
        }
    }

    /// Takes note of how the last action ended, and says what comes next.
    pub fn step(&mut self, event: Event) -> (action: Action)
        ensures
            final(self)@.form == old(self)@.form,
            final(self)@.stage == next_stage(
                old(self)@.stage,
                event,
                old(self)@.form.file_name is Some,
            ),
            final(self)@.wf(),
            action@ == pending(final(self)@.stage, final(self)@.form),
    {
        proof {
            use_type_invariant(&*self);
        }
        let named = self.form.file.file_name.is_some();
        self.stage = advance(self.stage, event, named);
        self.action()
    }

    fn destination(&self) -> (path: String)
        requires
            self.form.file.file_name is Some,
        ensures
            path@ == destination_path(self@.form.file_name->Some_0),
    {
        let mut path = String::from_str("uploads/");
        match &self.form.file.file_name {
            Some(file_name) => {
                path.append(file_name.as_str());
            },
            None => {},
        }
        path
    }
}

/// The stage after `event`.
pub fn advance(stage: Stage, event: Event, named: bool) -> (next: Stage)
    ensures
        next == next_stage(stage, event, named),
{
    match stage {
        Stage::Start => match event {
            Event::Done => if named {
                Stage::DirectoryEnsured
            } else {
                Stage::Failed(FailureKind::MissingFilename)
            },
            Event::Failed => Stage::Failed(FailureKind::StorageUnavailable),
        },
        Stage::DirectoryEnsured => match event {
            Event::Done => Stage::DestinationOpened,
            Event::Failed => Stage::Failed(FailureKind::StorageUnavailable),
        },
        Stage::DestinationOpened => match event {
            Event::Done => Stage::CopyInProgress,
            Event::Failed => Stage::Failed(FailureKind::CopyFailed),
        },
        Stage::CopyInProgress => match event {
            Event::Done => Stage::Completed,
            Event::Failed => Stage::Failed(FailureKind::CopyFailed),
        },
        Stage::Completed => Stage::Completed,
        Stage::Failed(kind) => Stage::Failed(kind),
    }
}

/// The text that tells the client of a stored upload.
pub open spec fn upload_message(name: Seq<char>, size: nat) -> Seq<char> {
    "Uploaded file "@ + name + ", with size: "@ + decimal(size)
}

/// The status that reports a failure of the given kind: the client's fault
/// where the file name is missing, the server's otherwise.
pub open spec fn failure_status(kind: FailureKind) -> u16 {
    match kind {
        FailureKind::StorageUnavailable => 500,
        FailureKind::CopyFailed => 500,
        FailureKind::MissingFilename => 400,
    }
}

impl UploadOutcome {
    /// The reply for a stored upload: success, with the message as plain text.
    pub fn reply(&self) -> (reply: Reply)
        ensures
            reply@ == (ReplyView {
                status: 200,
                content_type: Some(ContentType::PlainText),
                body: upload_message(self@.name, self@.size as nat),
            }),
    {
        let mut body = String::from_str("Uploaded file ");
        body.append(self.name.as_str());
        body.append(", with size: ");
        push_decimal(&mut body, self.size);
        Reply::with_body(200, ContentType::PlainText, body)
    }
}

impl FailureKind {
    /// The status that reports this failure.
    pub fn status_code(&self) -> (status: u16)
        ensures
            status == failure_status(*self),
    {
        match self {
            FailureKind::StorageUnavailable => 500,
            FailureKind::CopyFailed => 500,
            FailureKind::MissingFilename => 400,
        }
    }

    /// The reply for a failed upload: the status alone, with nothing said of the cause.
    pub fn reply(&self) -> (reply: Reply)
        ensures
            reply@ == (ReplyView {
                status: failure_status(*self),
                content_type: None,
                body: Seq::empty(),
            }),
    {
        Reply::bare(self.status_code())
    }
}

impl FormError {
    /// The status that reports a refused form: the payload is too large.
    pub fn status_code(&self) -> (status: u16)
        ensures
            status == 413,
    {
        413
    }
}

} // verus!
