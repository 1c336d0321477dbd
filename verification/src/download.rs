//! The download of one adventure as a machine of states. The machine decides;
//! its caller does the work. Each step hands the caller one `Action` (look at
//! the disk, ask the server, write a file) and takes back one `Event` that
//! says how the action went. Nothing is tried twice here: repeating a
//! request is the business of whoever talks to the server.

use crate::identifier::{
    identifier_check, identifier_error_message, is_identifier, IdentifierError, Resolution,
};
use crate::metadata::{adventure_name, dependent_ids, document_text, is_scenario, DocumentError};
use crate::paths::{
    adventure_directory, image_file, lookup_address, model_address, thumbnail_address,
    SHARD_LENGTH,
};
use crate::retry::FetchFailure;
use crate::text::contains;
use vstd::prelude::*;

verus! {

/// How a download ended, as its caller is told.
#[derive(Debug, PartialEq, Eq)]
pub struct AdventureGetResult {
    pub success: bool,
    /// The message for the user, after a success too.
    pub error: String,
    /// The adventure's directory after a success, empty after a failure.
    pub download_path: String,
}

/// An `AdventureGetResult` as plain values.
pub struct Outcome {
    pub success: bool,
    pub message: Seq<char>,
    pub directory: Seq<char>,
}

impl View for AdventureGetResult {
    type V = Outcome;

    open spec fn view(&self) -> Outcome {
        Outcome { success: self.success, message: self.error@, directory: self.download_path@ }
    }
}

/// The kinds of failure.
#[derive(Clone, Copy, Debug, PartialEq, Eq)]
pub enum FailureKind {
    /// The user's text gave no identifier.
    Resolution,
    /// The identifier is not twelve digits.
    Identifier(IdentifierError),
    /// An output path was given that is not on the disk.
    MissingOutputPath,
    /// The asset is no adventure.
    NotAnAdventure,
    /// A document from the server could not be read.
    Document(DocumentError),
    /// A dependent asset's identifier is too short to name its shard.
    DependentIdentifier,
    /// A request to the server was given up.
    Fetch(FetchFailure),
    /// A file could not be written.
    Write,
    /// An event came that answers no action of the state it came to.
    UnexpectedEvent,
}

/// How an action went.
#[derive(Debug, PartialEq, Eq)]
pub enum Event {
    /// Answers `CheckPath`.
    PathChecked { exists: bool },
    /// Answers `Fetch`: the server's answer, whatever its status.
    Fetched { body: Vec<u8> },
    /// Answers `Fetch`: the request was given up.
    FetchFailed { reason: FetchFailure },
    /// Answers `EnsureDirectory`, whether or not the directory could be made.
    DirectoryEnsured,
    /// Answers `WriteFile`: the file holds the contents.
    Written,
    /// Answers `WriteFile`: the file could not be written.
    WriteFailed,
}

/// An `Event` as plain values.
pub enum EventView {
    PathChecked(bool),
    Fetched(Seq<u8>),
    FetchFailed(FetchFailure),
    DirectoryEnsured,
    Written,
    WriteFailed,
}

impl View for Event {
    type V = EventView;

    open spec fn view(&self) -> EventView {
        match self {
            Event::PathChecked { exists } => EventView::PathChecked(*exists),
            Event::Fetched { body } => EventView::Fetched(body@),
            Event::FetchFailed { reason } => EventView::FetchFailed(*reason),
            Event::DirectoryEnsured => EventView::DirectoryEnsured,
            Event::Written => EventView::Written,
            Event::WriteFailed => EventView::WriteFailed,
        }
    }
}

/// What the caller is to do next.
#[derive(Debug, PartialEq, Eq)]
pub enum Action {
    /// Find out whether this directory is on the disk.
    CheckPath { path: String },
    /// Get what the server has at this address.
    Fetch { url: String },
    /// Make this directory and those above it, if they are not there.
    EnsureDirectory { path: String },
    /// Write these bytes to this file, in place of what it held.
    WriteFile { path: String, contents: Vec<u8> },
    /// Nothing more: the download has ended so.
    Finish { result: AdventureGetResult },
}

/// An `Action` as plain values.
pub enum ActionView {
    CheckPath(Seq<char>),
    Fetch(Seq<char>),
    EnsureDirectory(Seq<char>),
    WriteFile(Seq<char>, Seq<u8>),
    Finish(Outcome),
}

impl View for Action {
    type V = ActionView;

    open spec fn view(&self) -> ActionView {
        match self {
            Action::CheckPath { path } => ActionView::CheckPath(path@),
            Action::Fetch { url } => ActionView::Fetch(url@),
            Action::EnsureDirectory { path } => ActionView::EnsureDirectory(path@),
            Action::WriteFile { path, contents } => ActionView::WriteFile(path@, contents@),
            Action::Finish { result } => ActionView::Finish(result@),
        }
    }
}

/// Where a download stands. All stages but the last two await the answer to
/// the action that was handed out on entering them.
pub enum StageView {
    /// Is the output path on the disk?
    ValidateOutputPath { id: Seq<char>, path: Seq<char> },
    /// The metadata document is being fetched.
    FetchMetadata { id: Seq<char>, path: Seq<char> },
    /// The asset is an adventure; its name is being looked up.
    ResolveDisplayName { id: Seq<char>, path: Seq<char>, document: Seq<char> },
    /// The adventure has its name; its directory is being made.
    EnsureDirectory { id: Seq<char>, directory: Seq<char>, document: Seq<char> },
    /// The adventure's own image is being fetched.
    FetchPrimaryImage { id: Seq<char>, directory: Seq<char>, document: Seq<char> },
    /// The adventure's own image is being written.
    PersistPrimaryImage { id: Seq<char>, directory: Seq<char>, document: Seq<char> },
    /// The image of the dependent asset `index` is being fetched.
    FetchDependentAsset { directory: Seq<char>, dependents: Seq<Seq<char>>, index: int },
    /// The image of the dependent asset `index` is being written.
    PersistDependentAsset { directory: Seq<char>, dependents: Seq<Seq<char>>, index: int },
    /// All is on the disk.
    Done { directory: Seq<char> },
    /// The download has failed.
    Failed { kind: FailureKind, message: Seq<char> },
}

/// A download as plain values: its stage, and whether a dependent asset that
/// cannot be had ends the download (`strict`) or is passed over.
pub struct DownloadView {
    pub strict: bool,
    pub stage: StageView,
}

/// The message after a success.
pub open spec fn success_message() -> Seq<char> {
    "Successfully downloaded!"@
}

/// The message for an output path that is not on the disk.
pub open spec fn missing_path_message(path: Seq<char>) -> Seq<char> {
    "Error: File path "@ + path + " does not exist!"@
}

/// The message for an asset that is no adventure.
pub open spec fn not_adventure_message() -> Seq<char> {
    "ID provided is not the ID of an adventure"@
}

/// The message for a document that could not be read.
pub open spec fn document_error_message(e: DocumentError) -> Seq<char> {
    match e {
        DocumentError::NotUtf8 => "Error: The server's answer is not UTF-8 text"@,
        DocumentError::MissingResourceMarker =>
            "Error: The adventure's list of assets has no end"@,
        DocumentError::TruncatedAssetList => "Error: The adventure's list of assets is cut short"@,
    }
}

/// The message for a dependent asset whose identifier names no shard.
pub open spec fn dependent_message(id: Seq<char>) -> Seq<char> {
    "Error: Asset ID "@ + id + " is too short"@
}

/// The message for a request that was given up.
pub open spec fn fetch_failure_message(reason: FetchFailure) -> Seq<char> {
    match reason {
        FetchFailure::RetriesExhausted => "Error: The server could not be reached"@,
        FetchFailure::Cancelled => "Error: The download was cancelled"@,
    }
}

/// The message for a file that could not be written.
pub open spec fn write_failure_message(file: Seq<char>) -> Seq<char> {
    "Error: Could not write "@ + file
}

/// The message for an event that answers nothing.
pub open spec fn unexpected_event_message() -> Seq<char> {
    "Error: Unexpected event"@
}

/// What the caller is told after a failure.
pub open spec fn failure_outcome(message: Seq<char>) -> Outcome {
    Outcome { success: false, message, directory: Seq::empty() }
}

/// What the caller is told after a success.
pub open spec fn success_outcome(directory: Seq<char>) -> Outcome {
    Outcome { success: true, message: success_message(), directory }
}

/// The result that reports a failure in the given words.
pub fn adventure_dl_error(err: &str) -> (result: AdventureGetResult)
    ensures
        result@ == failure_outcome(err@),
{
    AdventureGetResult {
        success: false,
        error: String::from_str(err),
        download_path: String::new(),
    }
}

/// The result that reports a success, with the adventure's directory.
pub fn adventure_dl_success(directory: &str) -> (result: AdventureGetResult)
    ensures
        result@ == success_outcome(directory@),
{
    AdventureGetResult {
        success: true,
        error: String::from_str("Successfully downloaded!"),
        download_path: String::from_str(directory),
    }
}

/// The download fails.
pub open spec fn failure(strict: bool, kind: FailureKind, message: Seq<char>) -> (
    DownloadView,
    ActionView,
) {
    (
        DownloadView { strict, stage: StageView::Failed { kind, message } },
        ActionView::Finish(failure_outcome(message)),
    )
}

/// The download is complete.
pub open spec fn completion(strict: bool, directory: Seq<char>) -> (DownloadView, ActionView) {
    (
        DownloadView { strict, stage: StageView::Done { directory } },
        ActionView::Finish(success_outcome(directory)),
    )
}

/// Goes on with the dependent assets from number `from`: fetches the first
/// whose identifier names a shard. One that names none ends a strict
/// download and is passed over otherwise. With none left the download is
/// complete.
pub open spec fn next_dependent(
    strict: bool,
    directory: Seq<char>,
    dependents: Seq<Seq<char>>,
    from: int,
) -> (DownloadView, ActionView)
    decreases dependents.len() - from,
{
    if from < 0 || from >= dependents.len() {
        completion(strict, directory)
    } else if dependents[from].len() >= SHARD_LENGTH {
        (
            DownloadView {
                strict,
                stage: StageView::FetchDependentAsset { directory, dependents, index: from },
            },
            ActionView::Fetch(thumbnail_address(dependents[from])),
        )
    } else if strict {
        failure(strict, FailureKind::DependentIdentifier, dependent_message(dependents[from]))
    } else {
        next_dependent(strict, directory, dependents, from + 1)
    }
}

/// How a download begins: with what the user's text resolved to, and the
/// cleaned output path. The identifier is checked before anything is asked of
/// disk or server; an empty path means the current directory and is not
/// looked for.
pub open spec fn opening(package: Resolution, path: Seq<char>, strict: bool) -> (
    DownloadView,
    ActionView,
) {
    match package {
        Resolution::Invalid(reason) => failure(strict, FailureKind::Resolution, reason),
        Resolution::Valid(id) => match identifier_check(id) {
            Err(e) => failure(strict, FailureKind::Identifier(e), identifier_error_message(e, id)),
            Ok(_) => if path.len() > 0 {
                (
                    DownloadView { strict, stage: StageView::ValidateOutputPath { id, path } },
                    ActionView::CheckPath(path),
                )
            } else {
                (
                    DownloadView { strict, stage: StageView::FetchMetadata { id, path } },
                    ActionView::Fetch(model_address(id)),
                )
            },
        },
    }
}

/// The metadata document has come: it is read and classified, and only for an
/// adventure does the download go on.
pub open spec fn after_metadata(strict: bool, id: Seq<char>, path: Seq<char>, body: Seq<u8>) -> (
    DownloadView,
    ActionView,
) {
    match document_text(body) {
        None => failure(
            strict,
            FailureKind::Document(DocumentError::NotUtf8),
            document_error_message(DocumentError::NotUtf8),
        ),
        Some(document) => if is_scenario(document) {
            (
                DownloadView {
                    strict,
                    stage: StageView::ResolveDisplayName { id, path, document },
                },
                ActionView::Fetch(lookup_address(id)),
            )
        } else {
            failure(strict, FailureKind::NotAnAdventure, not_adventure_message())
        },
    }
}

/// The looked-up document has come: it names the adventure's directory.
pub open spec fn after_lookup(
    strict: bool,
    id: Seq<char>,
    path: Seq<char>,
    document: Seq<char>,
    body: Seq<u8>,
) -> (DownloadView, ActionView) {
    match document_text(body) {
        None => failure(
            strict,
            FailureKind::Document(DocumentError::NotUtf8),
            document_error_message(DocumentError::NotUtf8),
        ),
        Some(looked_up) => {
            let directory = adventure_directory(path, adventure_name(id, looked_up));
            (
                DownloadView {
                    strict,
                    stage: StageView::EnsureDirectory { id, directory, document },
                },
                ActionView::EnsureDirectory(directory),
            )
        },
    }
}

/// The adventure's own image is on the disk: its document says which assets
/// are to follow.
pub open spec fn after_primary_image(strict: bool, directory: Seq<char>, document: Seq<char>) -> (
    DownloadView,
    ActionView,
) {
    match dependent_ids(document) {
        Err(e) => failure(strict, FailureKind::Document(e), document_error_message(e)),
        Ok(dependents) => next_dependent(strict, directory, dependents, 0),
    }
}

/// A dependent asset could not be had: that ends a strict download, and any
/// other goes on with the next asset.
pub open spec fn after_dependent_failure(
    strict: bool,
    directory: Seq<char>,
    dependents: Seq<Seq<char>>,
    index: int,
    kind: FailureKind,
    message: Seq<char>,
) -> (DownloadView, ActionView) {
    if strict {
        failure(strict, kind, message)
    } else {
        next_dependent(strict, directory, dependents, index + 1)
    }
}

/// What a state makes of an event: the next state, and the action for the
/// caller. A state that has ended stays as it is and says again how it ended.
/// An event that does not answer the state's action fails the download.
pub open spec fn transition(state: DownloadView, event: EventView) -> (DownloadView, ActionView) {
    let strict = state.strict;
    let unexpected = failure(strict, FailureKind::UnexpectedEvent, unexpected_event_message());
    match state.stage {
        StageView::ValidateOutputPath { id, path } => match event {
            EventView::PathChecked(exists) => if exists {
                (
                    DownloadView { strict, stage: StageView::FetchMetadata { id, path } },
                    ActionView::Fetch(model_address(id)),
                )
            } else {
                failure(strict, FailureKind::MissingOutputPath, missing_path_message(path))
            },
            _ => unexpected,
        },
        StageView::FetchMetadata { id, path } => match event {
            EventView::Fetched(body) => after_metadata(strict, id, path, body),
            EventView::FetchFailed(reason) => failure(
                strict,
                FailureKind::Fetch(reason),
                fetch_failure_message(reason),
            ),
            _ => unexpected,
        },
        StageView::ResolveDisplayName { id, path, document } => match event {
            EventView::Fetched(body) => after_lookup(strict, id, path, document, body),
            EventView::FetchFailed(reason) => failure(
                strict,
                FailureKind::Fetch(reason),
                fetch_failure_message(reason),
            ),
            _ => unexpected,
        },
        StageView::EnsureDirectory { id, directory, document } => match event {
            EventView::DirectoryEnsured => (
                DownloadView {
                    strict,
                    stage: StageView::FetchPrimaryImage { id, directory, document },
                },
                ActionView::Fetch(thumbnail_address(id)),
            ),
            _ => unexpected,
        },
        StageView::FetchPrimaryImage { id, directory, document } => match event {
            EventView::Fetched(body) => (
                DownloadView {
                    strict,
                    stage: StageView::PersistPrimaryImage { id, directory, document },
                },
                ActionView::WriteFile(image_file(directory, id), body),
            ),
            EventView::FetchFailed(reason) => failure(
                strict,
                FailureKind::Fetch(reason),
                fetch_failure_message(reason),
            ),
            _ => unexpected,
        },
        StageView::PersistPrimaryImage { id, directory, document } => match event {
            EventView::Written => after_primary_image(strict, directory, document),
            EventView::WriteFailed => failure(
                strict,
                FailureKind::Write,
                write_failure_message(image_file(directory, id)),
            ),
            _ => unexpected,
        },
        StageView::FetchDependentAsset { directory, dependents, index } => match event {
            EventView::Fetched(body) => (
                DownloadView {
                    strict,
                    stage: StageView::PersistDependentAsset { directory, dependents, index },
                },
                ActionView::WriteFile(image_file(directory, dependents[index]), body),
            ),
            EventView::FetchFailed(reason) => after_dependent_failure(
                strict,
                directory,
                dependents,
                index,
                FailureKind::Fetch(reason),
                fetch_failure_message(reason),
            ),
            _ => unexpected,
        },
        StageView::PersistDependentAsset { directory, dependents, index } => match event {
            EventView::Written => next_dependent(strict, directory, dependents, index + 1),
            EventView::WriteFailed => after_dependent_failure(
                strict,
                directory,
                dependents,
                index,
                FailureKind::Write,
                write_failure_message(image_file(directory, dependents[index])),
            ),
            _ => unexpected,
        },
        StageView::Done { directory } => (state, ActionView::Finish(success_outcome(directory))),
        StageView::Failed { kind, message } => (
            state,
            ActionView::Finish(failure_outcome(message)),
        ),
    }
}

/// What holds of every state that a download can be in.
pub open spec fn well_formed(state: DownloadView) -> bool {
    match state.stage {
        StageView::ValidateOutputPath { id, path } => is_identifier(id) && path.len() > 0,
        StageView::FetchMetadata { id, path } => is_identifier(id),
        StageView::ResolveDisplayName { id, path, document } => is_identifier(id) && is_scenario(
            document,
        ),
        StageView::EnsureDirectory { id, directory, document } => is_identifier(id)
            && is_scenario(document),
        StageView::FetchPrimaryImage { id, directory, document } => is_identifier(id)
            && is_scenario(document),
        StageView::PersistPrimaryImage { id, directory, document } => is_identifier(id)
            && is_scenario(document),
        StageView::FetchDependentAsset { directory, dependents, index } => 0 <= index
            < dependents.len() && dependents[index].len() >= SHARD_LENGTH,
        StageView::PersistDependentAsset { directory, dependents, index } => 0 <= index
            < dependents.len() && dependents[index].len() >= SHARD_LENGTH,
        StageView::Done { directory } => true,
        StageView::Failed { kind, message } => true,
    }
}

/// Whether a download has ended.
pub open spec fn ended(state: DownloadView) -> bool {
    state.stage is Done || state.stage is Failed
}

/// How far a stage is from the end: no stage leads to one that ranks higher.
pub open spec fn rank(stage: StageView) -> nat {
    match stage {
        StageView::ValidateOutputPath { .. } => 7,
        StageView::FetchMetadata { .. } => 6,
        StageView::ResolveDisplayName { .. } => 5,
        StageView::EnsureDirectory { .. } => 4,
        StageView::FetchPrimaryImage { .. } => 3,
        StageView::PersistPrimaryImage { .. } => 2,
        StageView::FetchDependentAsset { .. } => 1,
        StageView::PersistDependentAsset { .. } => 1,
        StageView::Done { .. } => 0,
        StageView::Failed { .. } => 0,
    }
}

/// How many answers the dependent assets can still take: two for each asset
/// that has not been asked for, and one for an image that is being written.
pub open spec fn pending(stage: StageView) -> int {
    match stage {
        StageView::FetchDependentAsset { dependents, index, .. } => 2 * (dependents.len() - index),
        StageView::PersistDependentAsset { dependents, index, .. } => 2 * (dependents.len()
            - index) - 1,
        _ => 0,
    }
}

/// Going on with the dependent assets from `from` leads to a state that a
/// download can be in: to the end, or to an asset at or behind `from`.
pub proof fn lemma_next_dependent(
    strict: bool,
    directory: Seq<char>,
    dependents: Seq<Seq<char>>,
    from: int,
)
    requires
        0 <= from,
    ensures
        well_formed(next_dependent(strict, directory, dependents, from).0),
        next_dependent(strict, directory, dependents, from).0.strict == strict,
        ({
            let next = next_dependent(strict, directory, dependents, from);
            ||| next == completion(strict, directory)
            ||| next.0.stage matches StageView::Failed { kind, message } && strict && kind
                == FailureKind::DependentIdentifier && next.1 == ActionView::Finish(
                failure_outcome(message),
            )
            ||| next.0.stage matches StageView::FetchDependentAsset {
                directory: d,
                dependents: ds,
                index,
            } && d == directory && ds == dependents && from <= index < dependents.len() && next.1
                == ActionView::Fetch(thumbnail_address(dependents[index]))
        }),
    decreases dependents.len() - from,
{
    if from < dependents.len() && dependents[from].len() < SHARD_LENGTH && !strict {
        lemma_next_dependent(strict, directory, dependents, from + 1);
    }
}

/// A download begins in a state that a download can be in.
pub proof fn lemma_opening_well_formed(package: Resolution, path: Seq<char>, strict: bool)
    ensures
        well_formed(opening(package, path, strict).0),
        opening(package, path, strict).0.strict == strict,
{
}

/// Every step leads from a state that a download can be in to another such
/// state, and keeps the download strict or not as it was.
pub proof fn lemma_transition_well_formed(state: DownloadView, event: EventView)
    requires
        well_formed(state),
    ensures
        well_formed(transition(state, event).0),
        transition(state, event).0.strict == state.strict,
{
    match state.stage {
        StageView::PersistPrimaryImage { id, directory, document } => {
            if let Ok(dependents) = dependent_ids(document) {
                lemma_next_dependent(state.strict, directory, dependents, 0);
            }
        },
        StageView::FetchDependentAsset { directory, dependents, index } => {
            lemma_next_dependent(state.strict, directory, dependents, index + 1);
        },
        StageView::PersistDependentAsset { directory, dependents, index } => {
            lemma_next_dependent(state.strict, directory, dependents, index + 1);
        },
        _ => {},
    }
}

/// A download that has ended stays as it ended: whatever comes, the state is
/// the same and the caller is told the same outcome again.
pub proof fn lemma_ended_stays(state: DownloadView, event: EventView)
    requires
        ended(state),
    ensures
        transition(state, event).0 == state,
        state.stage matches StageView::Done { directory } ==> transition(state, event).1
            == ActionView::Finish(success_outcome(directory)),
        state.stage matches StageView::Failed { kind, message } ==> transition(state, event).1
            == ActionView::Finish(failure_outcome(message)),
{
}

/// A download that ends is reported as it ended: the state after a step is
/// `Done` exactly when the caller is told of a success, with the directory of
/// that state, and `Failed` exactly when the caller is told of a failure, with
/// the message of that state. While a download goes on the caller is given
/// work to do.
pub proof fn lemma_end_is_reported(state: DownloadView, event: EventView)
    requires
        well_formed(state),
    ensures
        ({
            let (next, action) = transition(state, event);
            &&& next.stage matches StageView::Done { directory } ==> action == ActionView::Finish(
                success_outcome(directory),
            )
            &&& next.stage matches StageView::Failed { kind, message } ==> action
                == ActionView::Finish(failure_outcome(message))
            &&& action is Finish ==> ended(next)
        }),
{
    match state.stage {
        StageView::PersistPrimaryImage { id, directory, document } => {
            if let Ok(dependents) = dependent_ids(document) {
                lemma_next_dependent(state.strict, directory, dependents, 0);
            }
        },
        StageView::FetchDependentAsset { directory, dependents, index } => {
            lemma_next_dependent(state.strict, directory, dependents, index + 1);
        },
        StageView::PersistDependentAsset { directory, dependents, index } => {
            lemma_next_dependent(state.strict, directory, dependents, index + 1);
        },
        _ => {},
    }
}

/// Nothing is written but an image that the server gave, byte for byte, and
/// only for an asset that was found to be an adventure: a step hands out
/// `WriteFile` only when the adventure's own image or that of a dependent
/// asset has just come, for the file of that asset and with what came.
pub proof fn lemma_written_as_fetched(state: DownloadView, event: EventView)
    requires
        well_formed(state),
    ensures
        transition(state, event).1 matches ActionView::WriteFile(file, contents) ==> event
            == EventView::Fetched(contents) && {
            ||| (state.stage matches StageView::FetchPrimaryImage { id, directory, document }
                && is_scenario(document) && file == image_file(directory, id))
            ||| (state.stage matches StageView::FetchDependentAsset {
                directory,
                dependents,
                index,
            } && file == image_file(directory, dependents[index]))
        },
{
    match state.stage {
        StageView::PersistPrimaryImage { id, directory, document } => {
            if let Ok(dependents) = dependent_ids(document) {
                lemma_next_dependent(state.strict, directory, dependents, 0);
            }
        },
        StageView::FetchDependentAsset { directory, dependents, index } => {
            lemma_next_dependent(state.strict, directory, dependents, index + 1);
        },
        StageView::PersistDependentAsset { directory, dependents, index } => {
            lemma_next_dependent(state.strict, directory, dependents, index + 1);
        },
        _ => {},
    }
}

/// The document of an asset that is no adventure ends the download at once,
/// and so does one that is not text: neither the adventure's image nor any
/// dependent asset is asked for.
pub proof fn lemma_only_adventures(strict: bool, id: Seq<char>, path: Seq<char>, body: Seq<u8>)
    ensures
        ({
            let state = DownloadView { strict, stage: StageView::FetchMetadata { id, path } };
            let (next, action) = transition(state, EventView::Fetched(body));
            match document_text(body) {
                Some(document) => if is_scenario(document) {
                    &&& next.stage == (StageView::ResolveDisplayName { id, path, document })
                    &&& action == ActionView::Fetch(lookup_address(id))
                } else {
                    &&& next.stage == (StageView::Failed {
                        kind: FailureKind::NotAnAdventure,
                        message: not_adventure_message(),
                    })
                    &&& action == ActionView::Finish(failure_outcome(not_adventure_message()))
                },
                None => {
                    &&& next.stage == (StageView::Failed {
                        kind: FailureKind::Document(DocumentError::NotUtf8),
                        message: document_error_message(DocumentError::NotUtf8),
                    })
                    &&& action == ActionView::Finish(
                        failure_outcome(document_error_message(DocumentError::NotUtf8)),
                    )
                },
            }
        }),
{
}

/// An adventure whose document lists no assets is stored as exactly one file:
/// once its document and its name have come, the directory is made, the image
/// is fetched and written to the directory under the adventure's identifier,
/// and with that the download is complete.
pub proof fn lemma_adventure_without_assets(
    strict: bool,
    id: Seq<char>,
    path: Seq<char>,
    metadata: Seq<u8>,
    looked_up: Seq<u8>,
    image: Seq<u8>,
)
    requires
        document_text(metadata) matches Some(document) && is_scenario(document) && !contains(
            document,
            "<assets><asset>"@,
        ),
        document_text(looked_up) is Some,
    ensures
        ({
            let name = adventure_name(id, document_text(looked_up).unwrap());
            let directory = adventure_directory(path, name);
            let start = DownloadView { strict, stage: StageView::FetchMetadata { id, path } };
            let (named, first) = transition(start, EventView::Fetched(metadata));
            let (housed, second) = transition(named, EventView::Fetched(looked_up));
            let (asked, third) = transition(housed, EventView::DirectoryEnsured);
            let (fetched, fourth) = transition(asked, EventView::Fetched(image));
            let (end, fifth) = transition(fetched, EventView::Written);
            &&& first == ActionView::Fetch(lookup_address(id))
            &&& second == ActionView::EnsureDirectory(directory)
            &&& third == ActionView::Fetch(thumbnail_address(id))
            &&& fourth == ActionView::WriteFile(image_file(directory, id), image)
            &&& fifth == ActionView::Finish(success_outcome(directory))
            &&& end.stage == (StageView::Done { directory })
        }),
{
}

/// No stage is gone through twice: every step from a state that has not ended
/// leads to a stage of lower rank, or, among the dependent assets, leaves
/// fewer answers to come.
pub proof fn lemma_no_stage_twice(state: DownloadView, event: EventView)
    requires
        well_formed(state),
        !ended(state),
    ensures
        ({
            let next = transition(state, event).0;
            ||| rank(next.stage) < rank(state.stage)
            ||| (rank(next.stage) == rank(state.stage) && 0 <= pending(next.stage) < pending(
                state.stage,
            ))
        }),
{
    match state.stage {
        StageView::PersistPrimaryImage { id, directory, document } => {
            if let Ok(dependents) = dependent_ids(document) {
                lemma_next_dependent(state.strict, directory, dependents, 0);
            }
        },
        StageView::FetchDependentAsset { directory, dependents, index } => {
            lemma_next_dependent(state.strict, directory, dependents, index + 1);
        },
        StageView::PersistDependentAsset { directory, dependents, index } => {
            lemma_next_dependent(state.strict, directory, dependents, index + 1);
        },
        _ => {},
    }
}

} // verus!
