//! The download machine in executable form. A `Download` can only be made by
//! beginning a download and by advancing one, so every `Download` is in a
//! state that a download can be in.

use crate::download::{
    adventure_dl_error, adventure_dl_success, completion, document_error_message, ended, failure,
    fetch_failure_message, next_dependent, opening, transition, unexpected_event_message,
    well_formed, Action, ActionView, DownloadView, Event, FailureKind, StageView,
};
use crate::identifier::{check_identifier, is_identifier, resolution, resolve, IDPackage, Input};
use crate::metadata::{
    classify, decode_document, get_adventure_creations, get_adventure_name, DocumentError,
};
use crate::paths::{
    clean_file_path, cleaned_path, directory_for, image_path, lookup_url, model_address,
    model_url, thumbnail_url,
};
use crate::retry::FetchFailure;
use crate::text::texts;
use vstd::prelude::*;

verus! {

/// Where a download stands, with what it holds at that stage.
enum Stage {
    ValidateOutputPath { id: String, path: String },
    FetchMetadata { id: String, path: String },
    ResolveDisplayName { id: String, path: String, document: String },
    EnsureDirectory { id: String, directory: String, document: String },
    FetchPrimaryImage { id: String, directory: String, document: String },
    PersistPrimaryImage { id: String, directory: String, document: String },
    FetchDependentAsset { directory: String, dependents: Vec<String>, index: usize },
    PersistDependentAsset { directory: String, dependents: Vec<String>, index: usize },
    Done { directory: String },
    Failed { kind: FailureKind, message: String },
}

impl Stage {
    /// The stage as plain values.
    spec fn model(&self) -> StageView {
        match self {
            Stage::ValidateOutputPath { id, path } => StageView::ValidateOutputPath {
                id: id@,
                path: path@,
            },
            Stage::FetchMetadata { id, path } => StageView::FetchMetadata { id: id@, path: path@ },
            Stage::ResolveDisplayName { id, path, document } => StageView::ResolveDisplayName {
                id: id@,
                path: path@,
                document: document@,
            },
            Stage::EnsureDirectory { id, directory, document } => StageView::EnsureDirectory {
                id: id@,
                directory: directory@,
                document: document@,
            },
            Stage::FetchPrimaryImage { id, directory, document } => StageView::FetchPrimaryImage {
                id: id@,
                directory: directory@,
                document: document@,
            },
            Stage::PersistPrimaryImage { id, directory, document } => {
                StageView::PersistPrimaryImage {
                    id: id@,
                    directory: directory@,
                    document: document@,
                }
            },
            Stage::FetchDependentAsset { directory, dependents, index } => {
                StageView::FetchDependentAsset {
                    directory: directory@,
                    dependents: texts(dependents@),
                    index: *index as int,
                }
            },
            Stage::PersistDependentAsset { directory, dependents, index } => {
                StageView::PersistDependentAsset {
                    directory: directory@,
                    dependents: texts(dependents@),
                    index: *index as int,
                }
            },
            Stage::Done { directory } => StageView::Done { directory: directory@ },
            Stage::Failed { kind, message } => StageView::Failed { kind: *kind, message: message@ },
        }
    }
}

/// The download that stands at `stage`, as plain values.
spec fn standing(strict: bool, stage: Stage) -> DownloadView {
    DownloadView { strict, stage: stage.model() }
}

/// A download under way, or ended.
pub struct Download {
    strict: bool,
    stage: Stage,
}

impl View for Download {
    type V = DownloadView;

    closed spec fn view(&self) -> DownloadView {
        standing(self.strict, self.stage)
    }
}


impl Download {
    /// Every `Download` is in a state that a download can be in.
    #[verifier::type_invariant]
    spec fn sound(&self) -> bool {
        well_formed(self@)
    }

    /// Ends the download in a failure of the given kind.
    fn failed(strict: bool, kind: FailureKind, message: String) -> (r: (Download, Action))
        ensures
            (r.0@, r.1@) == failure(strict, kind, message@),
    {
        let result = adventure_dl_error(message.as_str());
        (Download { strict, stage: Stage::Failed { kind, message } }, Action::Finish { result })
    }

    /// Ends the download in success.
    fn completed(strict: bool, directory: String) -> (r: (Download, Action))
        ensures
            (r.0@, r.1@) == completion(strict, directory@),
    {
        let result = adventure_dl_success(directory.as_str());
        (Download { strict, stage: Stage::Done { directory } }, Action::Finish { result })
    }

    /// Ends the download because an event came that answers nothing.
    fn unexpected(strict: bool) -> (r: (Download, Action))
        ensures
            (r.0@, r.1@) == failure(
                strict,
                FailureKind::UnexpectedEvent,
                unexpected_event_message(),
            ),
    {
        Download::failed(
            strict,
            FailureKind::UnexpectedEvent,
            String::from_str("Error: Unexpected event"),
        )
    }

    /// Ends the download because a request was given up.
    fn fetch_failed(strict: bool, reason: FetchFailure) -> (r: (Download, Action))
        ensures
            (r.0@, r.1@) == failure(
                strict,
                FailureKind::Fetch(reason),
                fetch_failure_message(reason),
            ),
    {
        let message = match reason {
            FetchFailure::RetriesExhausted => String::from_str(
                "Error: The server could not be reached",
            ),
            FetchFailure::Cancelled => String::from_str("Error: The download was cancelled"),
        };
        Download::failed(strict, FailureKind::Fetch(reason), message)
    }

    /// Ends the download because a document could not be read.
    fn document_failed(strict: bool, e: DocumentError) -> (r: (Download, Action))
        ensures
            (r.0@, r.1@) == failure(
                strict,
                FailureKind::Document(e),
                document_error_message(e),
            ),
    {
        let message = match e {
            DocumentError::NotUtf8 => String::from_str(
                "Error: The server's answer is not UTF-8 text",
            ),
            DocumentError::MissingResourceMarker => String::from_str(
                "Error: The adventure's list of assets has no end",
            ),
            DocumentError::TruncatedAssetList => String::from_str(
                "Error: The adventure's list of assets is cut short",
            ),
        };
        Download::failed(strict, FailureKind::Document(e), message)
    }

    /// Asks for the metadata document of `id`.
    fn fetch_metadata(strict: bool, id: String, path: String) -> (r: (Download, Action))
        requires
            is_identifier(id@),
        ensures
            r.0@ == standing(strict, Stage::FetchMetadata { id, path }),
            r.1@ == ActionView::Fetch(model_address(id@)),
    {
        match model_url(id.as_str()) {
            Some(url) => (
                Download { strict, stage: Stage::FetchMetadata { id, path } },
                Action::Fetch { url },
            ),
            None => {
                proof {
                    assert(false);
                }
                Download::unexpected(strict)
            },
        }
    }

    /// Goes on with the dependent assets from number `from`.
    fn proceed(strict: bool, directory: String, dependents: Vec<String>, from: usize) -> (r: (
        Download,
        Action,
    ))
        requires
            from <= dependents.len(),
        ensures
            (r.0@, r.1@) == next_dependent(strict, directory@, texts(dependents@), from as int),
    {
        let mut i: usize = from;
        while i < dependents.len()
            invariant
                from <= i <= dependents.len(),
                next_dependent(strict, directory@, texts(dependents@), i as int) == next_dependent(
                    strict,
                    directory@,
                    texts(dependents@),
                    from as int,
                ),
            decreases dependents.len() - i,
        {
            match thumbnail_url(dependents[i].as_str()) {
                Some(url) => {
                    return (
                        Download {
                            strict,
                            stage: Stage::FetchDependentAsset { directory, dependents, index: i },
                        },
                        Action::Fetch { url },
                    );
                },
                None => {
                    if strict {
                        let message = String::from_str("Error: Asset ID ").concat(
                            dependents[i].as_str(),
                        ).concat(" is too short");
                        return Download::failed(strict, FailureKind::DependentIdentifier, message);
                    }
                },
            }
            i += 1;
        }
        Download::completed(strict, directory)
    }

    /// Whether the download has ended.
    pub fn is_ended(&self) -> (r: bool)
        ensures
            r == ended(self@),
    {
        match &self.stage {
            Stage::Done { .. } => true,
            Stage::Failed { .. } => true,
            _ => false,
        }
    }

    /// The kind of failure in which the download has ended, if it has ended in
    /// one.
    pub fn failure_kind(&self) -> (r: Option<FailureKind>)
        ensures
            match r {
                Some(kind) => self@.stage matches StageView::Failed { kind: k, .. } && k == kind,
                None => !(self@.stage is Failed),
            },
    {
        match &self.stage {
            Stage::Failed { kind, .. } => Some(*kind),
            _ => None,
        }
    }

    /// Whether a dependent asset that cannot be had ends this download.
    pub fn is_strict(&self) -> (r: bool)
        ensures
            r == self@.strict,
    {
        self.strict
    }

    /// Begins a download with what the user's text resolved to and the
    /// cleaned output path, and says what is to be done first.
    pub fn begin(package: IDPackage, path: &str, strict: bool) -> (r: (Download, Action))
        ensures
            (r.0@, r.1@) == opening(package@, path@, strict),
            well_formed(r.0@),
    {
        let r = if !package.valid {
            Download::failed(strict, FailureKind::Resolution, package.error_message)
        } else {
            let id = package.id;
            match check_identifier(id.as_str()) {
                Err(e) => {
                    let message = e.message(id.as_str());
                    Download::failed(strict, FailureKind::Identifier(e), message)
                },
                Ok(_) => {
                    if path.unicode_len() > 0 {
                        (
                            Download {
                                strict,
                                stage: Stage::ValidateOutputPath {
                                    id,
                                    path: String::from_str(path),
                                },
                            },
                            Action::CheckPath { path: String::from_str(path) },
                        )
                    } else {
                        Download::fetch_metadata(strict, id, String::from_str(path))
                    }
                },
            }
        };
        proof {
            use_type_invariant(&r.0);
        }
        r
    }

    /// The step from `ValidateOutputPath`.
    fn after_path_check(strict: bool, id: String, path: String, event: Event) -> (r: (
        Download,
        Action,
    ))
        requires
            well_formed(standing(strict, Stage::ValidateOutputPath { id, path })),
        ensures
            (r.0@, r.1@) == transition(
                standing(strict, Stage::ValidateOutputPath { id, path }),
                event@,
            ),
    {
        match event {
            Event::PathChecked { exists } => {
                if exists {
                    Download::fetch_metadata(strict, id, path)
                } else {
                    let message = String::from_str("Error: File path ")
                        .concat(path.as_str())
                        .concat(" does not exist!");
                    Download::failed(strict, FailureKind::MissingOutputPath, message)
                }
            },
            _ => Download::unexpected(strict),
        }
    }

    /// The step from `FetchMetadata`.
    fn after_metadata_fetch(strict: bool, id: String, path: String, event: Event) -> (r: (
        Download,
        Action,
    ))
        requires
            well_formed(standing(strict, Stage::FetchMetadata { id, path })),
        ensures
            (r.0@, r.1@) == transition(standing(strict, Stage::FetchMetadata { id, path }), event@),
    {
        match event {
            Event::Fetched { body } => match decode_document(body.as_slice()) {
                Err(e) => Download::document_failed(strict, e),
                Ok(document) => {
                    if classify(document.as_str()) {
                        let url = lookup_url(id.as_str());
                        (
                            Download {
                                strict,
                                stage: Stage::ResolveDisplayName { id, path, document },
                            },
                            Action::Fetch { url },
                        )
                    } else {
                        Download::failed(
                            strict,
                            FailureKind::NotAnAdventure,
                            String::from_str("ID provided is not the ID of an adventure"),
                        )
                    }
                },
            },
            Event::FetchFailed { reason } => Download::fetch_failed(strict, reason),
            _ => Download::unexpected(strict),
        }
    }

    /// The step from `ResolveDisplayName`.
    fn after_name_lookup(
        strict: bool,
        id: String,
        path: String,
        document: String,
        event: Event,
    ) -> (r: (Download, Action))
        requires
            well_formed(standing(strict, Stage::ResolveDisplayName { id, path, document })),
        ensures
            (r.0@, r.1@) == transition(
                standing(strict, Stage::ResolveDisplayName { id, path, document }),
                event@,
            ),
    {
        match event {
            Event::Fetched { body } => match get_adventure_name(id.as_str(), body.as_slice()) {
                Err(e) => Download::document_failed(strict, e),
                Ok(name) => {
                    let directory = directory_for(path.as_str(), name.as_str());
                    let path = directory.clone();
                    (
                        Download {
                            strict,
                            stage: Stage::EnsureDirectory { id, directory, document },
                        },
                        Action::EnsureDirectory { path },
                    )
                },
            },
            Event::FetchFailed { reason } => Download::fetch_failed(strict, reason),
            _ => Download::unexpected(strict),
        }
    }

    /// The step from `EnsureDirectory`.
    fn after_directory(
        strict: bool,
        id: String,
        directory: String,
        document: String,
        event: Event,
    ) -> (r: (Download, Action))
        requires
            well_formed(standing(strict, Stage::EnsureDirectory { id, directory, document })),
        ensures
            (r.0@, r.1@) == transition(
                standing(strict, Stage::EnsureDirectory { id, directory, document }),
                event@,
            ),
    {
        match event {
            Event::DirectoryEnsured => match thumbnail_url(id.as_str()) {
                Some(url) => (
                    Download {
                        strict,
                        stage: Stage::FetchPrimaryImage { id, directory, document },
                    },
                    Action::Fetch { url },
                ),
                None => {
                    proof {
                        assert(false);
                    }
                    Download::unexpected(strict)
                },
            },
            _ => Download::unexpected(strict),
        }
    }

    /// The step from `FetchPrimaryImage`.
    fn after_image_fetch(
        strict: bool,
        id: String,
        directory: String,
        document: String,
        event: Event,
    ) -> (r: (Download, Action))
        requires
            well_formed(standing(strict, Stage::FetchPrimaryImage { id, directory, document })),
        ensures
            (r.0@, r.1@) == transition(
                standing(strict, Stage::FetchPrimaryImage { id, directory, document }),
                event@,
            ),
    {
        match event {
            Event::Fetched { body } => {
                let path = image_path(directory.as_str(), id.as_str());
                (
                    Download {
                        strict,
                        stage: Stage::PersistPrimaryImage { id, directory, document },
                    },
                    Action::WriteFile { path, contents: body },
                )
            },
            Event::FetchFailed { reason } => Download::fetch_failed(strict, reason),
            _ => Download::unexpected(strict),
        }
    }

    /// The step from `PersistPrimaryImage`.
    fn after_image_write(
        strict: bool,
        id: String,
        directory: String,
        document: String,
        event: Event,
    ) -> (r: (Download, Action))
        requires
            well_formed(standing(strict, Stage::PersistPrimaryImage { id, directory, document })),
        ensures
            (r.0@, r.1@) == transition(
                standing(strict, Stage::PersistPrimaryImage { id, directory, document }),
                event@,
            ),
    {
        match event {
            Event::Written => match get_adventure_creations(document.as_str()) {
                Err(e) => Download::document_failed(strict, e),
                Ok(dependents) => Download::proceed(strict, directory, dependents, 0),
            },
            Event::WriteFailed => {
                let file = image_path(directory.as_str(), id.as_str());
                let message = String::from_str("Error: Could not write ").concat(file.as_str());
                Download::failed(strict, FailureKind::Write, message)
            },
            _ => Download::unexpected(strict),
        }
    }

    /// The step from `FetchDependentAsset`.
    fn after_dependent_fetch(
        strict: bool,
        directory: String,
        dependents: Vec<String>,
        index: usize,
        event: Event,
    ) -> (r: (Download, Action))
        requires
            well_formed(
                standing(strict, Stage::FetchDependentAsset { directory, dependents, index }),
            ),
        ensures
            (r.0@, r.1@) == transition(
                standing(strict, Stage::FetchDependentAsset { directory, dependents, index }),
                event@,
            ),
    {
        assert(index < dependents.len());
        match event {
            Event::Fetched { body } => {
                let path = image_path(directory.as_str(), dependents[index].as_str());
                (
                    Download {
                        strict,
                        stage: Stage::PersistDependentAsset { directory, dependents, index },
                    },
                    Action::WriteFile { path, contents: body },
                )
            },
            Event::FetchFailed { reason } => {
                if strict {
                    Download::fetch_failed(strict, reason)
                } else {
                    Download::proceed(strict, directory, dependents, index + 1)
                }
            },
            _ => Download::unexpected(strict),
        }
    }

    /// The step from `PersistDependentAsset`.
    fn after_dependent_write(
        strict: bool,
        directory: String,
        dependents: Vec<String>,
        index: usize,
        event: Event,
    ) -> (r: (Download, Action))
        requires
            well_formed(
                standing(strict, Stage::PersistDependentAsset { directory, dependents, index }),
            ),
        ensures
            (r.0@, r.1@) == transition(
                standing(strict, Stage::PersistDependentAsset { directory, dependents, index }),
                event@,
            ),
    {
        assert(index < dependents.len());
        match event {
            Event::Written => Download::proceed(strict, directory, dependents, index + 1),
            Event::WriteFailed => {
                if strict {
                    let file = image_path(directory.as_str(), dependents[index].as_str());
                    let message = String::from_str("Error: Could not write ").concat(file.as_str());
                    Download::failed(strict, FailureKind::Write, message)
                } else {
                    Download::proceed(strict, directory, dependents, index + 1)
                }
            },
            _ => Download::unexpected(strict),
        }
    }

    /// Takes the answer to the last action and says what is to be done next.
    pub fn advance(self, event: Event) -> (r: (Download, Action))
        ensures
            (r.0@, r.1@) == transition(self@, event@),
            well_formed(r.0@),
    {
        proof {
            use_type_invariant(&self);
        }
        let strict = self.strict;
        let r = match self.stage {
            Stage::ValidateOutputPath { id, path } => Download::after_path_check(
                strict,
                id,
                path,
                event,
            ),
            Stage::FetchMetadata { id, path } => Download::after_metadata_fetch(
                strict,
                id,
                path,
                event,
            ),
            Stage::ResolveDisplayName { id, path, document } => Download::after_name_lookup(
                strict,
                id,
                path,
                document,
                event,
            ),
            Stage::EnsureDirectory { id, directory, document } => Download::after_directory(
                strict,
                id,
                directory,
                document,
                event,
            ),
            Stage::FetchPrimaryImage { id, directory, document } => Download::after_image_fetch(
                strict,
                id,
                directory,
                document,
                event,
            ),
            Stage::PersistPrimaryImage { id, directory, document } => Download::after_image_write(
                strict,
                id,
                directory,
                document,
                event,
            ),
            Stage::FetchDependentAsset { directory, dependents, index } => {
                Download::after_dependent_fetch(
                    strict,
                    directory,
                    dependents,
                    index,
                    event,
                )
            },
            Stage::PersistDependentAsset { directory, dependents, index } => {
                Download::after_dependent_write(
                    strict,
                    directory,
                    dependents,
                    index,
                    event,
                )
            },
            Stage::Done { directory } => {
                let result = adventure_dl_success(directory.as_str());
                (Download { strict, stage: Stage::Done { directory } }, Action::Finish { result })
            },
            Stage::Failed { kind, message } => {
                let result = adventure_dl_error(message.as_str());
                (
                    Download { strict, stage: Stage::Failed { kind, message } },
                    Action::Finish { result },
                )
            },
        };
        proof {
            use_type_invariant(&r.0);
        }
        r
    }
}

/// Begins the download that the user asked for: reads the text in the given
/// mode, cleans the output path, checks the identifier, and says what is to
/// be done first.
pub fn start_download(raw_input: &str, mode: Input, output_directory: &str, strict: bool) -> (r:
    (Download, Action))
    ensures
        (r.0@, r.1@) == opening(
            resolution(raw_input@, mode),
            cleaned_path(output_directory@),
            strict,
        ),
        well_formed(r.0@),
{
    let package = resolve(raw_input, mode);
    let path = clean_file_path(output_directory);
    Download::begin(package, path.as_str(), strict)
}

} // verus!
