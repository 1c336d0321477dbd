use adventure_dl::download::{
    adventure_dl_error, adventure_dl_success, Action, AdventureGetResult, Event, FailureKind,
};
use adventure_dl::identifier::{IDPackage, Input};
use adventure_dl::identifier::IdentifierError;
use adventure_dl::metadata::DocumentError;
use adventure_dl::orchestrator::{start_download, Download};
use adventure_dl::retry::FetchFailure;
use std::collections::HashMap;
use std::path::Path;

const ID: &str = "123456789012";
const MODEL: &str = "http://static.spore.com/static/model/123/456/789/123456789012.xml";
const LOOKUP: &str = "http://www.spore.com/rest/asset/123456789012";
const THUMB: &str = "http://static.spore.com/static/thumb/123/456/789/123456789012.png";

/// A server and a disk that exist only in memory.
struct World {
    pages: HashMap<String, Vec<u8>>,
    directories: Vec<String>,
    unwritable: Vec<String>,
    asked: Vec<String>,
    made: Vec<String>,
    written: Vec<(String, Vec<u8>)>,
}

impl World {
    fn new() -> World {
        World {
            pages: HashMap::new(),
            directories: Vec::new(),
            unwritable: Vec::new(),
            asked: Vec::new(),
            made: Vec::new(),
            written: Vec::new(),
        }
    }

    fn page(mut self, url: &str, body: &[u8]) -> World {
        self.pages.insert(url.to_string(), body.to_vec());
        self
    }

    fn directory(mut self, path: &str) -> World {
        self.directories.push(path.to_string());
        self
    }

    fn unwritable(mut self, path: &str) -> World {
        self.unwritable.push(path.to_string());
        self
    }

    fn perform(&mut self, action: Action) -> Result<Event, AdventureGetResult> {
        match action {
            Action::CheckPath { path } => {
                Ok(Event::PathChecked { exists: self.directories.contains(&path) })
            }
            Action::Fetch { url } => {
                self.asked.push(url.clone());
                match self.pages.get(&url) {
                    Some(body) => Ok(Event::Fetched { body: body.clone() }),
                    None => Ok(Event::FetchFailed { reason: FetchFailure::RetriesExhausted }),
                }
            }
            Action::EnsureDirectory { path } => {
                self.made.push(path);
                Ok(Event::DirectoryEnsured)
            }
            Action::WriteFile { path, contents } => {
                if self.unwritable.contains(&path) {
                    Ok(Event::WriteFailed)
                } else {
                    self.written.push((path, contents));
                    Ok(Event::Written)
                }
            }
            Action::Finish { result } => Err(result),
        }
    }

    fn run(&mut self, raw: &str, mode: Input, directory: &str, strict: bool) -> AdventureGetResult {
        let (mut download, mut action) = start_download(raw, mode, directory, strict);
        for _ in 0..1000 {
            match self.perform(action) {
                Ok(event) => {
                    assert!(!download.is_ended());
                    let (next, then) = download.advance(event);
                    download = next;
                    action = then;
                }
                Err(result) => {
                    assert!(download.is_ended());
                    assert_eq!(download.is_strict(), strict);
                    return result;
                }
            }
        }
        panic!("the download did not end");
    }
}

fn failure(message: &str) -> AdventureGetResult {
    AdventureGetResult { success: false, error: message.to_string(), download_path: String::new() }
}

fn success(directory: &str) -> AdventureGetResult {
    AdventureGetResult {
        success: true,
        error: "Successfully downloaded!".to_string(),
        download_path: directory.to_string(),
    }
}

fn thumb(id: &str) -> String {
    format!(
        "http://static.spore.com/static/thumb/{}/{}/{}/{}.png",
        &id[0..3],
        &id[3..6],
        &id[6..9],
        id
    )
}

fn adventure_with(dependents: &[&str]) -> Vec<u8> {
    let mut document = String::from("<sporemodel><assets>");
    for id in dependents {
        document.push_str("<asset>");
        document.push_str(id);
        document.push_str("</asset>");
    }
    document.push_str("</assets><cScenarioResource></cScenarioResource></sporemodel>");
    document.into_bytes()
}

#[test]
fn results_are_built_as_they_are_reported() {
    assert_eq!(adventure_dl_error("no"), failure("no"));
    assert_eq!(adventure_dl_error(""), failure(""));
    assert_eq!(adventure_dl_success("out//Foo//"), success("out//Foo//"));
}

#[test]
fn an_adventure_without_assets_gives_exactly_one_file() {
    let mut world = World::new()
        .directory("out//")
        .page(MODEL, b"<sporemodel><cScenarioResource/></sporemodel>")
        .page(LOOKUP, b"<asset><name>Foo</name></asset>")
        .page(THUMB, b"\x89PNG-primary");
    let result = world.run(ID, Input::ID, "out", true);
    assert_eq!(result, success("out//Foo//"));
    assert_eq!(world.written, vec![("out//Foo//123456789012.png".to_string(), b"\x89PNG-primary".to_vec())]);
    assert_eq!(Path::new(&world.written[0].0), Path::new("out/Foo/123456789012.png"));
    assert_eq!(world.made, vec!["out//Foo//".to_string()]);
    assert_eq!(world.asked, vec![MODEL.to_string(), LOOKUP.to_string(), THUMB.to_string()]);
}

#[test]
fn an_asset_that_is_no_adventure_writes_nothing() {
    let mut world = World::new()
        .page(MODEL, b"<sporemodel><creature/></sporemodel>")
        .page(LOOKUP, b"<asset><name>Foo</name></asset>")
        .page(THUMB, b"\x89PNG");
    let result = world.run(ID, Input::ID, "", true);
    assert_eq!(result, failure("ID provided is not the ID of an adventure"));
    assert!(result.error.contains("not the ID of an adventure"));
    assert!(world.written.is_empty());
    assert!(world.made.is_empty());
    assert_eq!(world.asked, vec![MODEL.to_string()]);
}

#[test]
fn an_identifier_with_letters_fails_before_anything_is_asked() {
    let mut world = World::new();
    let result = world.run("1234567890ab", Input::ID, "", true);
    assert_eq!(result, failure("Error: Given ID contains non-digit characters."));
    assert!(world.asked.is_empty());
    assert!(world.written.is_empty());
}

#[test]
fn a_short_identifier_fails_before_anything_is_asked() {
    let mut world = World::new();
    let result = world.run("12345", Input::ID, "", true);
    assert_eq!(
        result,
        failure("Error: Given ID 12345 is too short\nCreation ID's are 12 digits long")
    );
    assert!(world.asked.is_empty());
}

#[test]
fn a_long_identifier_fails_before_anything_is_asked() {
    let mut world = World::new();
    let result = world.run("1234567890123", Input::ID, "", true);
    assert_eq!(
        result,
        failure("Error: Given ID 1234567890123 is too long\nCreation ID's are 12 digits long")
    );
    assert!(world.asked.is_empty());
}

#[test]
fn a_bad_address_fails_with_the_resolvers_message() {
    let mut world = World::new();
    assert_eq!(
        world.run("https://example.com/", Input::URL, "", true),
        failure("Error: URL is not in a valid format")
    );
    assert_eq!(
        world.run("https://example.com/sast-12345678901x", Input::URL, "", true),
        failure("Error: URL contains an invalid ID: 12345678901x")
    );
    assert!(world.asked.is_empty());
}

#[test]
fn the_identifier_is_checked_before_the_path() {
    let mut world = World::new();
    let result = world.run("12345", Input::ID, "nowhere", true);
    assert!(result.error.contains("too short"));
}

#[test]
fn a_missing_output_path_fails_before_the_server_is_asked() {
    let mut world = World::new().page(MODEL, &adventure_with(&[]));
    let result = world.run(ID, Input::ID, "nowhere", true);
    assert_eq!(result, failure("Error: File path nowhere// does not exist!"));
    assert!(world.asked.is_empty());
    assert!(world.written.is_empty());
}

#[test]
fn an_empty_output_path_is_not_looked_for() {
    let (download, action) = start_download(ID, Input::ID, "", true);
    assert!(!download.is_ended());
    assert_eq!(action, Action::Fetch { url: MODEL.to_string() });
    let (_, action) = start_download(ID, Input::ID, "out/", true);
    assert_eq!(action, Action::CheckPath { path: "out/".to_string() });
}

#[test]
fn an_address_leads_to_the_same_download_as_its_identifier() {
    let mut world = World::new()
        .page(MODEL, &adventure_with(&[]))
        .page(LOOKUP, b"<name>Bar</name>")
        .page(THUMB, b"png");
    let result = world.run("https://example.com/sast-123456789012-x", Input::URL, "", true);
    assert_eq!(result, success("Bar//"));
    assert_eq!(world.written, vec![("Bar//123456789012.png".to_string(), b"png".to_vec())]);
}

#[test]
fn a_nameless_adventure_is_stored_under_its_identifier() {
    let mut world = World::new()
        .page(MODEL, &adventure_with(&[]))
        .page(LOOKUP, b"<asset/>")
        .page(THUMB, b"png");
    let result = world.run(ID, Input::ID, "", true);
    assert_eq!(result, success("Adventure-123456789012//"));
    assert_eq!(
        world.written,
        vec![("Adventure-123456789012//123456789012.png".to_string(), b"png".to_vec())]
    );
}

#[test]
fn dependent_assets_follow_in_document_order() {
    let mut world = World::new()
        .directory("out/")
        .page(MODEL, &adventure_with(&["222222222222", "111111111111"]))
        .page(LOOKUP, b"<name>Foo</name>")
        .page(THUMB, b"primary")
        .page(&thumb("111111111111"), b"one")
        .page(&thumb("222222222222"), b"two");
    let result = world.run(ID, Input::ID, "out/", true);
    assert_eq!(result, success("out/Foo//"));
    assert_eq!(
        world.written,
        vec![
            ("out/Foo//123456789012.png".to_string(), b"primary".to_vec()),
            ("out/Foo//222222222222.png".to_string(), b"two".to_vec()),
            ("out/Foo//111111111111.png".to_string(), b"one".to_vec()),
        ]
    );
    assert_eq!(
        world.asked,
        vec![
            MODEL.to_string(),
            LOOKUP.to_string(),
            THUMB.to_string(),
            thumb("222222222222"),
            thumb("111111111111"),
        ]
    );
    assert_eq!(world.made, vec!["out/Foo//".to_string()]);
}

#[test]
fn the_directory_is_made_before_the_image_is_asked_for() {
    let (download, _) = start_download(ID, Input::ID, "", true);
    let (download, _) = download.advance(Event::Fetched { body: adventure_with(&[]) });
    let (download, action) = download.advance(Event::Fetched { body: b"<name>Foo</name>".to_vec() });
    assert_eq!(action, Action::EnsureDirectory { path: "Foo//".to_string() });
    let (download, action) = download.advance(Event::DirectoryEnsured);
    assert_eq!(action, Action::Fetch { url: THUMB.to_string() });
    let (download, action) = download.advance(Event::Fetched { body: vec![0, 159, 146, 150] });
    assert_eq!(
        action,
        Action::WriteFile {
            path: "Foo//123456789012.png".to_string(),
            contents: vec![0, 159, 146, 150]
        }
    );
    let (download, action) = download.advance(Event::Written);
    assert_eq!(action, Action::Finish { result: success("Foo//") });
    assert!(download.is_ended());
}

#[test]
fn a_metadata_document_that_is_not_text_fails() {
    let mut world = World::new().page(MODEL, b"Scenario\xff");
    let result = world.run(ID, Input::ID, "", true);
    assert_eq!(result, failure("Error: The server's answer is not UTF-8 text"));
    assert_eq!(world.asked, vec![MODEL.to_string()]);
}

#[test]
fn a_name_document_that_is_not_text_fails() {
    let mut world =
        World::new().page(MODEL, &adventure_with(&[])).page(LOOKUP, b"<name>\xc3</name>");
    let result = world.run(ID, Input::ID, "", false);
    assert_eq!(result, failure("Error: The server's answer is not UTF-8 text"));
    assert!(world.written.is_empty());
    assert!(world.made.is_empty());
}

#[test]
fn a_list_of_assets_without_end_fails_after_the_adventures_image() {
    let mut world = World::new()
        .page(MODEL, b"Scenario<assets><asset>111111111111</asset></assets>")
        .page(LOOKUP, b"<name>Foo</name>")
        .page(THUMB, b"primary")
        .page(&thumb("111111111111"), b"one");
    let result = world.run(ID, Input::ID, "", false);
    assert_eq!(result, failure("Error: The adventure's list of assets has no end"));
    assert_eq!(world.written, vec![("Foo//123456789012.png".to_string(), b"primary".to_vec())]);
}

#[test]
fn a_list_of_assets_cut_short_fails() {
    let mut world = World::new()
        .page(MODEL, b"<assets><asset>1</assets><cScenarioResource>")
        .page(LOOKUP, b"<name>Foo</name>")
        .page(THUMB, b"primary");
    let result = world.run(ID, Input::ID, "", true);
    assert_eq!(result, failure("Error: The adventure's list of assets is cut short"));
}

#[test]
fn a_request_given_up_fails_the_download() {
    let mut world = World::new();
    assert_eq!(
        world.run(ID, Input::ID, "", false),
        failure("Error: The server could not be reached")
    );
    let mut world = World::new().page(MODEL, &adventure_with(&[]));
    assert_eq!(
        world.run(ID, Input::ID, "", false),
        failure("Error: The server could not be reached")
    );
    let mut world =
        World::new().page(MODEL, &adventure_with(&[])).page(LOOKUP, b"<name>Foo</name>");
    assert_eq!(
        world.run(ID, Input::ID, "", false),
        failure("Error: The server could not be reached")
    );
    assert_eq!(world.made, vec!["Foo//".to_string()]);
    assert!(world.written.is_empty());
}

#[test]
fn a_withdrawn_request_is_reported_as_such() {
    let (download, _) = start_download(ID, Input::ID, "", true);
    let (download, action) =
        download.advance(Event::FetchFailed { reason: FetchFailure::Cancelled });
    assert_eq!(action, Action::Finish { result: failure("Error: The download was cancelled") });
    assert!(download.is_ended());
}

#[test]
fn an_unwritable_image_fails_the_download() {
    let mut world = World::new()
        .page(MODEL, &adventure_with(&["111111111111"]))
        .page(LOOKUP, b"<name>Foo</name>")
        .page(THUMB, b"primary")
        .page(&thumb("111111111111"), b"one")
        .unwritable("Foo//123456789012.png");
    let result = world.run(ID, Input::ID, "", false);
    assert_eq!(result, failure("Error: Could not write Foo//123456789012.png"));
    assert!(world.written.is_empty());
    assert_eq!(world.asked.len(), 3);
}

#[test]
fn a_strict_download_ends_at_a_dependent_asset_that_cannot_be_fetched() {
    let mut world = World::new()
        .page(MODEL, &adventure_with(&["111111111111", "222222222222", "333333333333"]))
        .page(LOOKUP, b"<name>Foo</name>")
        .page(THUMB, b"primary")
        .page(&thumb("111111111111"), b"one")
        .page(&thumb("333333333333"), b"three");
    let result = world.run(ID, Input::ID, "", true);
    assert_eq!(result, failure("Error: The server could not be reached"));
    assert_eq!(
        world.written,
        vec![
            ("Foo//123456789012.png".to_string(), b"primary".to_vec()),
            ("Foo//111111111111.png".to_string(), b"one".to_vec()),
        ]
    );
}

#[test]
fn a_lenient_download_passes_over_a_dependent_asset_that_cannot_be_fetched() {
    let mut world = World::new()
        .page(MODEL, &adventure_with(&["111111111111", "222222222222", "333333333333"]))
        .page(LOOKUP, b"<name>Foo</name>")
        .page(THUMB, b"primary")
        .page(&thumb("111111111111"), b"one")
        .page(&thumb("333333333333"), b"three");
    let result = world.run(ID, Input::ID, "", false);
    assert_eq!(result, success("Foo//"));
    assert_eq!(
        world.written,
        vec![
            ("Foo//123456789012.png".to_string(), b"primary".to_vec()),
            ("Foo//111111111111.png".to_string(), b"one".to_vec()),
            ("Foo//333333333333.png".to_string(), b"three".to_vec()),
        ]
    );
    assert_eq!(world.asked.len(), 6);
}

#[test]
fn a_strict_download_ends_at_a_dependent_asset_that_cannot_be_written() {
    let mut world = World::new()
        .page(MODEL, &adventure_with(&["111111111111", "222222222222"]))
        .page(LOOKUP, b"<name>Foo</name>")
        .page(THUMB, b"primary")
        .page(&thumb("111111111111"), b"one")
        .page(&thumb("222222222222"), b"two")
        .unwritable("Foo//111111111111.png");
    let result = world.run(ID, Input::ID, "", true);
    assert_eq!(result, failure("Error: Could not write Foo//111111111111.png"));
    assert_eq!(world.written.len(), 1);
    assert_eq!(world.asked.len(), 4);
}

#[test]
fn a_lenient_download_passes_over_a_dependent_asset_that_cannot_be_written() {
    let mut world = World::new()
        .page(MODEL, &adventure_with(&["111111111111", "222222222222"]))
        .page(LOOKUP, b"<name>Foo</name>")
        .page(THUMB, b"primary")
        .page(&thumb("111111111111"), b"one")
        .page(&thumb("222222222222"), b"two")
        .unwritable("Foo//111111111111.png");
    let result = world.run(ID, Input::ID, "", false);
    assert_eq!(result, success("Foo//"));
    assert_eq!(
        world.written,
        vec![
            ("Foo//123456789012.png".to_string(), b"primary".to_vec()),
            ("Foo//222222222222.png".to_string(), b"two".to_vec()),
        ]
    );
}

#[test]
fn a_strict_download_ends_at_a_dependent_identifier_without_shard() {
    let mut world = World::new()
        .page(MODEL, &adventure_with(&["111111111111", "12345678", "333333333333"]))
        .page(LOOKUP, b"<name>Foo</name>")
        .page(THUMB, b"primary")
        .page(&thumb("111111111111"), b"one")
        .page(&thumb("333333333333"), b"three");
    let result = world.run(ID, Input::ID, "", true);
    assert_eq!(result, failure("Error: Asset ID 12345678 is too short"));
    assert_eq!(world.written.len(), 2);
}

#[test]
fn a_lenient_download_passes_over_dependent_identifiers_without_shard() {
    let mut world = World::new()
        .page(MODEL, &adventure_with(&["", "12345678", "333333333333", "x"]))
        .page(LOOKUP, b"<name>Foo</name>")
        .page(THUMB, b"primary")
        .page(&thumb("333333333333"), b"three");
    let result = world.run(ID, Input::ID, "", false);
    assert_eq!(result, success("Foo//"));
    assert_eq!(
        world.written,
        vec![
            ("Foo//123456789012.png".to_string(), b"primary".to_vec()),
            ("Foo//333333333333.png".to_string(), b"three".to_vec()),
        ]
    );
    assert_eq!(world.asked.last(), Some(&thumb("333333333333")));
}

#[test]
fn a_dependent_identifier_of_nine_characters_is_fetched() {
    let mut world = World::new()
        .page(MODEL, &adventure_with(&["abcdefghi"]))
        .page(LOOKUP, b"<name>Foo</name>")
        .page(THUMB, b"primary")
        .page("http://static.spore.com/static/thumb/abc/def/ghi/abcdefghi.png", b"nine");
    let result = world.run(ID, Input::ID, "", true);
    assert_eq!(result, success("Foo//"));
    assert_eq!(world.written[1], ("Foo//abcdefghi.png".to_string(), b"nine".to_vec()));
}

#[test]
fn an_event_that_answers_nothing_fails_the_download() {
    let (download, _) = start_download(ID, Input::ID, "", true);
    let (download, action) = download.advance(Event::Written);
    assert_eq!(action, Action::Finish { result: failure("Error: Unexpected event") });
    assert!(download.is_ended());

    let (download, _) = start_download(ID, Input::ID, "out", true);
    let (_, action) = download.advance(Event::Fetched { body: adventure_with(&[]) });
    assert_eq!(action, Action::Finish { result: failure("Error: Unexpected event") });

    let (download, _) = start_download(ID, Input::ID, "", true);
    let (download, _) = download.advance(Event::Fetched { body: adventure_with(&[]) });
    let (download, _) = download.advance(Event::Fetched { body: b"<name>Foo</name>".to_vec() });
    let (_, action) = download.advance(Event::WriteFailed);
    assert_eq!(action, Action::Finish { result: failure("Error: Unexpected event") });
}

#[test]
fn a_download_that_has_ended_stays_as_it_ended() {
    let (download, first) = start_download("12345", Input::ID, "", true);
    assert!(download.is_ended());
    let (download, second) = download.advance(Event::Fetched { body: adventure_with(&[]) });
    assert!(download.is_ended());
    assert_eq!(first, second);
    let (download, third) = download.advance(Event::PathChecked { exists: true });
    assert!(download.is_ended());
    assert_eq!(first, third);

    let (download, _) = start_download(ID, Input::ID, "", true);
    let (download, _) = download.advance(Event::Fetched { body: adventure_with(&[]) });
    let (download, _) = download.advance(Event::Fetched { body: b"<name>Foo</name>".to_vec() });
    let (download, _) = download.advance(Event::DirectoryEnsured);
    let (download, _) = download.advance(Event::Fetched { body: b"png".to_vec() });
    let (download, done) = download.advance(Event::Written);
    assert_eq!(done, Action::Finish { result: success("Foo//") });
    let (download, again) = download.advance(Event::Written);
    assert_eq!(again, done);
    assert!(download.is_ended());
}

#[test]
fn beginning_with_a_package_is_beginning_with_what_it_carries() {
    let package = IDPackage { valid: true, id: ID.to_string(), error_message: String::new() };
    let (download, action) = Download::begin(package, "out//", false);
    assert!(!download.is_ended());
    assert!(!download.is_strict());
    assert_eq!(action, Action::CheckPath { path: "out//".to_string() });

    let package =
        IDPackage { valid: false, id: String::new(), error_message: "Error: no".to_string() };
    let (download, action) = Download::begin(package, "out//", true);
    assert!(download.is_ended());
    assert_eq!(action, Action::Finish { result: failure("Error: no") });
}

#[test]
fn running_the_same_download_twice_gives_the_same_files() {
    let world = || {
        World::new()
            .page(MODEL, &adventure_with(&["111111111111"]))
            .page(LOOKUP, b"<name>Foo</name>")
            .page(THUMB, b"primary")
            .page(&thumb("111111111111"), b"one")
    };
    let mut first = world();
    let mut second = world();
    assert_eq!(first.run(ID, Input::ID, "", true), second.run(ID, Input::ID, "", true));
    assert_eq!(first.written, second.written);
}

#[test]
fn a_failure_is_of_one_kind() {
    let kind_of = |raw: &str, mode: Input, directory: &str| {
        let (download, _) = start_download(raw, mode, directory, true);
        download.failure_kind()
    };
    assert_eq!(kind_of(ID, Input::ID, ""), None);
    assert_eq!(kind_of("nothing", Input::URL, ""), Some(FailureKind::Resolution));
    assert_eq!(
        kind_of("1234567890ab", Input::ID, ""),
        Some(FailureKind::Identifier(IdentifierError::NonDigit))
    );
    assert_eq!(
        kind_of("12345", Input::ID, ""),
        Some(FailureKind::Identifier(IdentifierError::TooShort))
    );
    assert_eq!(
        kind_of("1234567890123", Input::ID, ""),
        Some(FailureKind::Identifier(IdentifierError::TooLong))
    );

    let (download, _) = start_download(ID, Input::ID, "out", true);
    let (download, _) = download.advance(Event::PathChecked { exists: false });
    assert_eq!(download.failure_kind(), Some(FailureKind::MissingOutputPath));

    let (download, _) = start_download(ID, Input::ID, "", true);
    let (download, _) = download.advance(Event::Fetched { body: b"<creature/>".to_vec() });
    assert_eq!(download.failure_kind(), Some(FailureKind::NotAnAdventure));

    let (download, _) = start_download(ID, Input::ID, "", true);
    let (download, _) = download.advance(Event::Fetched { body: vec![0xff] });
    assert_eq!(download.failure_kind(), Some(FailureKind::Document(DocumentError::NotUtf8)));

    let (download, _) = start_download(ID, Input::ID, "", true);
    let (download, _) =
        download.advance(Event::FetchFailed { reason: FetchFailure::RetriesExhausted });
    assert_eq!(download.failure_kind(), Some(FailureKind::Fetch(FetchFailure::RetriesExhausted)));

    let (download, _) = start_download(ID, Input::ID, "", true);
    let (download, _) = download.advance(Event::DirectoryEnsured);
    assert_eq!(download.failure_kind(), Some(FailureKind::UnexpectedEvent));

    let to_first_write = |document: &[u8]| {
        let (download, _) = start_download(ID, Input::ID, "", true);
        let (download, _) = download.advance(Event::Fetched { body: document.to_vec() });
        let (download, _) = download.advance(Event::Fetched { body: b"<name>Foo</name>".to_vec() });
        let (download, _) = download.advance(Event::DirectoryEnsured);
        let (download, _) = download.advance(Event::Fetched { body: b"png".to_vec() });
        download
    };
    let (download, _) = to_first_write(&adventure_with(&[])).advance(Event::WriteFailed);
    assert_eq!(download.failure_kind(), Some(FailureKind::Write));
    let (download, _) = to_first_write(&adventure_with(&["short"])).advance(Event::Written);
    assert_eq!(download.failure_kind(), Some(FailureKind::DependentIdentifier));
    let (download, _) =
        to_first_write(b"Scenario<assets><asset>111111111111").advance(Event::Written);
    assert_eq!(
        download.failure_kind(),
        Some(FailureKind::Document(DocumentError::MissingResourceMarker))
    );
    let (download, _) =
        to_first_write(b"<assets><asset><cScenarioResource>").advance(Event::Written);
    assert_eq!(
        download.failure_kind(),
        Some(FailureKind::Document(DocumentError::TruncatedAssetList))
    );
    let (download, _) = to_first_write(&adventure_with(&[])).advance(Event::Written);
    assert_eq!(download.failure_kind(), None);
    assert!(download.is_ended());
}
