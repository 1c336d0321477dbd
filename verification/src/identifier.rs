//! Asset identifiers: twelve decimal digits, given directly or taken out of a
//! web address.

use crate::text::{
    all_digits, chars_of, contains, find, first_occurrence, is_all_digits, is_first_occurrence,
    lemma_first_occurrence, lemma_first_occurrence_is_leftmost, occurs_at,
};
use vstd::prelude::*;

verus! {

/// How many characters an identifier has.
pub const IDENTIFIER_LENGTH: usize = 12;

/// How many characters the marker `sast-` has.
pub const MARKER_LENGTH: usize = 5;

/// How the text that the user typed is to be read.
#[derive(Clone, Copy, Debug, PartialEq, Eq)]
pub enum Input {
    /// The text is the identifier itself.
    ID,
    /// The text is a web address that holds the identifier.
    URL,
}

/// What reading the user's text gave: an identifier to go on with, or the
/// reason why there is none.
#[derive(Debug, PartialEq, Eq)]
pub struct IDPackage {
    pub valid: bool,
    pub id: String,
    pub error_message: String,
}

/// An `IDPackage` as a value of two cases.
pub enum Resolution {
    Valid(Seq<char>),
    Invalid(Seq<char>),
}

impl View for IDPackage {
    type V = Resolution;

    open spec fn view(&self) -> Resolution {
        if self.valid {
            Resolution::Valid(self.id@)
        } else {
            Resolution::Invalid(self.error_message@)
        }
    }
}

impl IDPackage {
    /// The field that the case does not use is empty.
    pub open spec fn well_formed(&self) -> bool {
        if self.valid {
            self.error_message@ == Seq::<char>::empty()
        } else {
            self.id@ == Seq::<char>::empty()
        }
    }

    /// A package that carries `id` on, unexamined.
    pub fn accepted(id: &str) -> (package: IDPackage)
        ensures
            package@ == Resolution::Valid(id@),
            package.well_formed(),
    {
        IDPackage { valid: true, id: String::from_str(id), error_message: String::new() }
    }

    /// A package that carries the reason for a refusal.
    pub fn refused(reason: String) -> (package: IDPackage)
        ensures
            package@ == Resolution::Invalid(reason@),
            package.well_formed(),
    {
        IDPackage { valid: false, id: String::new(), error_message: reason }
    }
}

/// Why a text is no identifier.
#[derive(Clone, Copy, Debug, PartialEq, Eq)]
pub enum IdentifierError {
    /// Some character is no decimal digit.
    NonDigit,
    /// Digits only, but fewer than twelve.
    TooShort,
    /// Digits only, but more than twelve.
    TooLong,
}

/// The marker that precedes the identifier in a web address.
pub open spec fn url_marker() -> Seq<char> {
    "sast-"@
}

/// What is reported of an address without the marker, or with fewer than
/// twelve characters behind it.
pub open spec fn url_format_message() -> Seq<char> {
    "Error: URL is not in a valid format"@
}

/// What is reported of an address whose candidate is not made of digits.
pub open spec fn url_invalid_id_message(candidate: Seq<char>) -> Seq<char> {
    "Error: URL contains an invalid ID: "@ + candidate
}

/// An identifier: exactly twelve ASCII decimal digits.
pub open spec fn is_identifier(s: Seq<char>) -> bool {
    s.len() == IDENTIFIER_LENGTH && all_digits(s)
}

/// The twelve characters behind the leftmost marker of an address. There are
/// none where the marker is missing or fewer than twelve characters follow it.
pub open spec fn url_candidate(url: Seq<char>) -> Option<Seq<char>> {
    match first_occurrence(url, url_marker()) {
        Some(i) => if i + MARKER_LENGTH + IDENTIFIER_LENGTH <= url.len() {
            Some(url.subrange(i + MARKER_LENGTH, i + MARKER_LENGTH + IDENTIFIER_LENGTH))
        } else {
            None
        },
        None => None,
    }
}

/// What an address resolves to.
pub open spec fn url_resolution(url: Seq<char>) -> Resolution {
    match url_candidate(url) {
        Some(candidate) => if all_digits(candidate) {
            Resolution::Valid(candidate)
        } else {
            Resolution::Invalid(url_invalid_id_message(candidate))
        },
        None => Resolution::Invalid(url_format_message()),
    }
}

/// What the user's text resolves to in either mode: an identifier typed
/// directly is carried on as it is.
pub open spec fn resolution(raw: Seq<char>, mode: Input) -> Resolution {
    match mode {
        Input::ID => Resolution::Valid(raw),
        Input::URL => url_resolution(raw),
    }
}

/// The verdict on a candidate: the characters are looked at before the length.
pub open spec fn identifier_check(s: Seq<char>) -> Result<(), IdentifierError> {
    if !all_digits(s) {
        Err(IdentifierError::NonDigit)
    } else if s.len() < IDENTIFIER_LENGTH {
        Err(IdentifierError::TooShort)
    } else if s.len() > IDENTIFIER_LENGTH {
        Err(IdentifierError::TooLong)
    } else {
        Ok(())
    }
}

/// What is reported of a candidate that failed the check.
pub open spec fn identifier_error_message(e: IdentifierError, id: Seq<char>) -> Seq<char> {
    match e {
        IdentifierError::NonDigit => "Error: Given ID contains non-digit characters."@,
        IdentifierError::TooShort => "Error: Given ID "@ + id
            + " is too short\nCreation ID's are 12 digits long"@,
        IdentifierError::TooLong => "Error: Given ID "@ + id
            + " is too long\nCreation ID's are 12 digits long"@,
    }
}

/// Exactly the texts of twelve decimal digits pass the check. Any other fails
/// for its characters if one of them is no digit, and for its length
/// otherwise.
pub proof fn lemma_identifier_check(s: Seq<char>)
    ensures
        identifier_check(s) is Ok <==> is_identifier(s),
        identifier_check(s) == Err::<(), IdentifierError>(IdentifierError::NonDigit)
            <==> !all_digits(s),
        identifier_check(s) == Err::<(), IdentifierError>(IdentifierError::TooShort)
            <==> all_digits(s) && s.len() < IDENTIFIER_LENGTH,
        identifier_check(s) == Err::<(), IdentifierError>(IdentifierError::TooLong) <==> all_digits(
            s,
        ) && s.len() > IDENTIFIER_LENGTH,
{
}

/// Where the marker stands first at `i` and twelve characters follow it, the
/// candidate is exactly those twelve; an address without the marker has no
/// candidate and resolves to the format error.
pub proof fn lemma_url_extraction(url: Seq<char>, i: int)
    ensures
        is_first_occurrence(url, url_marker(), i) && i + MARKER_LENGTH + IDENTIFIER_LENGTH
            <= url.len() ==> {
            &&& url_candidate(url) matches Some(candidate)
            &&& candidate == url.subrange(i + MARKER_LENGTH, i + MARKER_LENGTH + IDENTIFIER_LENGTH)
            &&& candidate.len() == IDENTIFIER_LENGTH
        },
        !contains(url, url_marker()) ==> url_candidate(url) is None && url_resolution(url)
            == Resolution::Invalid(url_format_message()),
{
    if is_first_occurrence(url, url_marker(), i) {
        lemma_first_occurrence(url, url_marker(), i);
    }
}

/// An address made of some text without the marker, the marker, twelve
/// characters and anything behind them has exactly those twelve as its
/// candidate. (The text in front may end in the first characters of the
/// marker, as long as the marker does not stand complete before its place.)
pub proof fn lemma_url_with_marker(before: Seq<char>, candidate: Seq<char>, after: Seq<char>)
    requires
        candidate.len() == IDENTIFIER_LENGTH,
        !contains(before + url_marker().take(MARKER_LENGTH - 1), url_marker()),
    ensures
        url_candidate(before + url_marker() + candidate + after) == Some(candidate),
        url_resolution(before + url_marker() + candidate + after) == if all_digits(candidate) {
            Resolution::Valid(candidate)
        } else {
            Resolution::Invalid(url_invalid_id_message(candidate))
        },
{
    reveal_strlit("sast-");
    let marker = url_marker();
    let url = before + marker + candidate + after;
    let front = before + marker.take(MARKER_LENGTH - 1);
    let at = before.len() as int;
    assert(url.subrange(at, at + marker.len()) =~= marker);
    assert forall|j: int| 0 <= j < at implies !occurs_at(url, marker, j) by {
        if occurs_at(url, marker, j) {
            assert(front.subrange(j, j + marker.len()) =~= url.subrange(j, j + marker.len()));
            assert(occurs_at(front, marker, j));
        }
    }
    lemma_first_occurrence(url, marker, at);
    assert(url.subrange(at + MARKER_LENGTH, at + MARKER_LENGTH + IDENTIFIER_LENGTH) =~= candidate);
}

/// An address resolves to an identifier only if that identifier is well
/// formed: what comes out of an address never fails the later check.
pub proof fn lemma_url_identifier_is_checked(url: Seq<char>)
    ensures
        url_resolution(url) matches Resolution::Valid(id) ==> is_identifier(id)
            && identifier_check(id) is Ok,
{
    lemma_first_occurrence_is_leftmost(url, url_marker());
}

/// Takes the identifier out of a web address: the twelve characters behind the
/// leftmost `sast-`, if they are digits.
pub fn pull_id_from_url(url: &str) -> (package: IDPackage)
    ensures
        package@ == url_resolution(url@),
        package.well_formed(),
        package.valid ==> is_identifier(package.id@),
        !contains(url@, url_marker()) ==> package@ == Resolution::Invalid(url_format_message()),
{
    let text = chars_of(url);
    let marker = chars_of("sast-");
    proof {
        reveal_strlit("sast-");
        lemma_first_occurrence_is_leftmost(url@, url_marker());
    }
    match find(text.as_slice(), marker.as_slice()) {
        Some(start) => {
            if text.len() - start < MARKER_LENGTH + IDENTIFIER_LENGTH {
                return IDPackage::refused(String::from_str("Error: URL is not in a valid format"));
            }
            let id = url.substring_char(
                start + MARKER_LENGTH,
                start + MARKER_LENGTH + IDENTIFIER_LENGTH,
            );
            if !is_all_digits(id) {
                return IDPackage::refused(
                    String::from_str("Error: URL contains an invalid ID: ").concat(id),
                );
            }
            IDPackage::accepted(id)
        },
        None => IDPackage::refused(String::from_str("Error: URL is not in a valid format")),
    }
}

/// Reads the user's text in the given mode.
pub fn resolve(raw: &str, mode: Input) -> (package: IDPackage)
    ensures
        package@ == resolution(raw@, mode),
        package.well_formed(),
{
    match mode {
        Input::ID => IDPackage::accepted(raw),
        Input::URL => pull_id_from_url(raw),
    }
}

/// Checks a candidate: digits only, then the length. It passes exactly when it
/// is an identifier.
pub fn check_identifier(id: &str) -> (r: Result<(), IdentifierError>)
    ensures
        r == identifier_check(id@),
        r is Ok <==> is_identifier(id@),
{
    if !is_all_digits(id) {
        return Err(IdentifierError::NonDigit);
    }
    let n: usize = id.unicode_len();
    if n < IDENTIFIER_LENGTH {
        Err(IdentifierError::TooShort)
    } else if n > IDENTIFIER_LENGTH {
        Err(IdentifierError::TooLong)
    } else {
        Ok(())
    }
}

impl IdentifierError {
    /// The words in which the failure of `id` is reported.
    pub fn message(&self, id: &str) -> (m: String)
        ensures
            m@ == identifier_error_message(*self, id@),
    {
        match self {
            IdentifierError::NonDigit => String::from_str(
                "Error: Given ID contains non-digit characters.",
            ),
            IdentifierError::TooShort => String::from_str("Error: Given ID ").concat(id).concat(
                " is too short\nCreation ID's are 12 digits long",
            ),
            IdentifierError::TooLong => String::from_str("Error: Given ID ").concat(id).concat(
                " is too long\nCreation ID's are 12 digits long",
            ),
        }
    }
}

} // verus!
