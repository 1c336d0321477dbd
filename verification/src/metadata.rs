//! The metadata document of an asset: a fixed layout that is scanned for
//! markers, not parsed as a tree.

use crate::text::{
    chars_of, contains, find, first_occurrence, lemma_first_occurrence_is_leftmost, split,
    split_text, texts,
};
use vstd::prelude::*;
use vstd::string::StringSliceAdditionalSpecFns;
use vstd::utf8::{decode_utf8, encode_utf8_decode_utf8, valid_utf8};

verus! {

/// How many characters `<name>` has.
pub const NAME_OPEN_LENGTH: usize = 6;

/// How many characters `<assets><asset>` has.
pub const ASSETS_OPEN_LENGTH: usize = 15;

/// How many characters `</asset></assets>` has: the list of assets ends that
/// far before `<cScenarioResource>`.
pub const ASSETS_CLOSE_LENGTH: usize = 17;

/// Why a document could not be read.
#[derive(Clone, Copy, Debug, PartialEq, Eq)]
pub enum DocumentError {
    /// The bytes are not UTF-8.
    NotUtf8,
    /// A list of assets begins, but `<cScenarioResource>` never comes.
    MissingResourceMarker,
    /// `<cScenarioResource>` comes too early to leave room for the list's end.
    TruncatedAssetList,
}

/// The text that the bytes of a document stand for, if they are UTF-8.
pub open spec fn document_text(bytes: Seq<u8>) -> Option<Seq<char>> {
    if valid_utf8(bytes) {
        Some(decode_utf8(bytes))
    } else {
        None
    }
}

/// The word that marks the document of an adventure.
pub open spec fn scenario_marker() -> Seq<char> {
    "Scenario"@
}

/// Whether a document is that of an adventure: the word `Scenario` stands
/// somewhere in it, in exactly this spelling.
pub open spec fn is_scenario(document: Seq<char>) -> bool {
    contains(document, scenario_marker())
}

/// The name between the leftmost `<name>` and the leftmost `</name>`, where
/// both are there and the first ends before the second begins.
pub open spec fn display_name(document: Seq<char>) -> Option<Seq<char>> {
    match (first_occurrence(document, "<name>"@), first_occurrence(document, "</name>"@)) {
        (Some(start), Some(end)) => if start + NAME_OPEN_LENGTH <= end {
            Some(document.subrange(start + NAME_OPEN_LENGTH, end))
        } else {
            None
        },
        _ => None,
    }
}

/// The name made up for an asset whose document gives none.
pub open spec fn fallback_name(id: Seq<char>) -> Seq<char> {
    "Adventure-"@ + id
}

/// The name under which an adventure is stored.
pub open spec fn adventure_name(id: Seq<char>, document: Seq<char>) -> Seq<char> {
    match display_name(document) {
        Some(name) => name,
        None => fallback_name(id),
    }
}

/// The identifiers of the assets that an adventure depends on, in the order of
/// the document. A document without `<assets><asset>` has none. Otherwise the
/// list runs from behind that marker to seventeen characters before the
/// leftmost `<cScenarioResource>`, and `</asset><asset>` parts its entries.
pub open spec fn dependent_ids(document: Seq<char>) -> Result<Seq<Seq<char>>, DocumentError> {
    match first_occurrence(document, "<assets><asset>"@) {
        None => Ok(Seq::empty()),
        Some(open) => match first_occurrence(document, "<cScenarioResource>"@) {
            None => Err(DocumentError::MissingResourceMarker),
            Some(resource) => if open + ASSETS_OPEN_LENGTH + ASSETS_CLOSE_LENGTH <= resource {
                Ok(
                    split(
                        document.subrange(
                            open + ASSETS_OPEN_LENGTH,
                            resource - ASSETS_CLOSE_LENGTH,
                        ),
                        "</asset><asset>"@,
                    ),
                )
            } else {
                Err(DocumentError::TruncatedAssetList)
            },
        },
    }
}

/// `<name>` that begins before `</name>` also ends before it: the two cannot
/// overlap, so "the first precedes the second" needs no more than `<`.
pub proof fn lemma_name_tags_apart(document: Seq<char>)
    ensures
        first_occurrence(document, "<name>"@) matches Some(start) ==> (first_occurrence(
            document,
            "</name>"@,
        ) matches Some(end) ==> (start < end <==> start + NAME_OPEN_LENGTH <= end)),
{
    reveal_strlit("<name>");
    reveal_strlit("</name>");
    lemma_first_occurrence_is_leftmost(document, "<name>"@);
    lemma_first_occurrence_is_leftmost(document, "</name>"@);
    if let Some(start) = first_occurrence(document, "<name>"@) {
        if let Some(end) = first_occurrence(document, "</name>"@) {
            if start < end && end < start + NAME_OPEN_LENGTH {
                let open = document.subrange(start, start + 6);
                let close = document.subrange(end, end + 7);
                assert(close[0] == document[end]);
                assert(open[end - start] == document[end]);
            }
        }
    }
}

/// A document without the marker `<assets><asset>` has no dependent assets,
/// which is no error.
pub proof fn lemma_no_assets(document: Seq<char>)
    requires
        !contains(document, "<assets><asset>"@),
    ensures
        dependent_ids(document) == Ok::<Seq<Seq<char>>, DocumentError>(Seq::empty()),
{
}

/// Wraps `core::str::from_utf8`, which hands the bytes back as a string slice
/// exactly when they are well-formed UTF-8; the slice then consists of these
/// very bytes.
#[verifier::external_body]
fn utf8_text(bytes: &[u8]) -> (r: Option<&str>)
    ensures
        r is Some <==> valid_utf8(bytes@),
        r matches Some(s) ==> s.spec_bytes() == bytes@,
{
    core::str::from_utf8(bytes).ok()
}

/// Reads the bytes of a document as UTF-8 text.
pub fn decode_document(bytes: &[u8]) -> (r: Result<String, DocumentError>)
    ensures
        match r {
            Ok(text) => document_text(bytes@) == Some(text@),
            Err(e) => e == DocumentError::NotUtf8 && document_text(bytes@) is None,
        },
{
    match utf8_text(bytes) {
        Some(s) => {
            proof {
                encode_utf8_decode_utf8(s@);
            }
            Ok(String::from_str(s))
        },
        None => Err(DocumentError::NotUtf8),
    }
}

/// Tells the document of an adventure from that of any other asset.
pub fn classify(document: &str) -> (r: bool)
    ensures
        r == is_scenario(document@),
{
    let text = chars_of(document);
    let marker = chars_of("Scenario");
    proof {
        lemma_first_occurrence_is_leftmost(document@, scenario_marker());
    }
    find(text.as_slice(), marker.as_slice()).is_some()
}

/// Takes the display name out of a document, if it gives one.
pub fn extract_name(document: &str) -> (r: Option<String>)
    ensures
        match r {
            Some(name) => display_name(document@) == Some(name@),
            None => display_name(document@) is None,
        },
{
    let text = chars_of(document);
    let open = chars_of("<name>");
    let close = chars_of("</name>");
    proof {
        reveal_strlit("<name>");
        reveal_strlit("</name>");
        lemma_first_occurrence_is_leftmost(document@, "<name>"@);
        lemma_first_occurrence_is_leftmost(document@, "</name>"@);
    }
    match find(text.as_slice(), open.as_slice()) {
        Some(start) => match find(text.as_slice(), close.as_slice()) {
            Some(end) => {
                if end >= NAME_OPEN_LENGTH && start <= end - NAME_OPEN_LENGTH {
                    Some(String::from_str(document.substring_char(start + NAME_OPEN_LENGTH, end)))
                } else {
                    None
                }
            },
            None => None,
        },
        None => None,
    }
}

/// The name under which the adventure `id` is stored, from the bytes of the
/// document that was looked up for it: the name that the document gives, or
/// `Adventure-` and the identifier where it gives none.
pub fn get_adventure_name(id: &str, data: &[u8]) -> (r: Result<String, DocumentError>)
    ensures
        match r {
            Ok(name) => document_text(data@) matches Some(text) && name@ == adventure_name(
                id@,
                text,
            ),
            Err(e) => e == DocumentError::NotUtf8 && document_text(data@) is None,
        },
{
    match decode_document(data) {
        Ok(text) => match extract_name(text.as_str()) {
            Some(name) => Ok(name),
            None => Ok(String::from_str("Adventure-").concat(id)),
        },
        Err(e) => Err(e),
    }
}

/// The assets that an adventure needs besides its own image, as its document
/// lists them.
pub fn get_adventure_creations(xml_data: &str) -> (r: Result<Vec<String>, DocumentError>)
    ensures
        match r {
            Ok(ids) => dependent_ids(xml_data@) == Ok::<Seq<Seq<char>>, DocumentError>(
                texts(ids@),
            ),
            Err(e) => dependent_ids(xml_data@) == Err::<Seq<Seq<char>>, DocumentError>(e),
        },
        !contains(xml_data@, "<assets><asset>"@) ==> (r matches Ok(ids) && ids@.len() == 0),
{
    let text = chars_of(xml_data);
    let open = chars_of("<assets><asset>");
    let resource = chars_of("<cScenarioResource>");
    proof {
        reveal_strlit("<assets><asset>");
        reveal_strlit("<cScenarioResource>");
        lemma_first_occurrence_is_leftmost(xml_data@, "<assets><asset>"@);
        lemma_first_occurrence_is_leftmost(xml_data@, "<cScenarioResource>"@);
    }
    match find(text.as_slice(), open.as_slice()) {
        None => {
            let ids: Vec<String> = Vec::new();
            assert(texts(ids@) =~= Seq::<Seq<char>>::empty());
            Ok(ids)
        },
        Some(pos) => match find(text.as_slice(), resource.as_slice()) {
            None => Err(DocumentError::MissingResourceMarker),
            Some(end) => {
                if end < ASSETS_OPEN_LENGTH + ASSETS_CLOSE_LENGTH || pos > end - (ASSETS_OPEN_LENGTH
                    + ASSETS_CLOSE_LENGTH) {
                    return Err(DocumentError::TruncatedAssetList);
                }
                let list = xml_data.substring_char(
                    pos + ASSETS_OPEN_LENGTH,
                    end - ASSETS_CLOSE_LENGTH,
                );
                Ok(split_text(list, "</asset><asset>"))
            },
        },
    }
}

} // verus!
