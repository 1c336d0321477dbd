//! Where things are: the addresses of an asset on the server, which shard it
//! by the first nine characters of its identifier, and the places on disk
//! where its images are put: the file of an asset lies in the directory of its
//! adventure, and that directory in the output path. Names are joined by `//`:
//! a doubled separator inside a path counts as one.

use crate::text::chars_of;
use vstd::prelude::*;

verus! {

/// How many leading characters of an identifier name its shard: three
/// segments of three.
pub const SHARD_LENGTH: usize = 9;

/// Whether a path ends in a separator, forward or backward.
pub open spec fn ends_with_separator(path: Seq<char>) -> bool {
    path.len() > 0 && (path.last() == '/' || path.last() == '\\')
}

/// A path made ready to have a name appended: the empty path and one that ends
/// in a separator stay as they are, any other gets `//` at its end.
pub open spec fn cleaned_path(path: Seq<char>) -> Seq<char> {
    if path.len() == 0 || ends_with_separator(path) {
        path
    } else {
        path + "//"@
    }
}

/// The place of an asset below a root of the server: `seg1/seg2/seg3/id`,
/// the segments being characters 0 to 2, 3 to 5 and 6 to 8 of the
/// identifier.
pub open spec fn sharded(id: Seq<char>) -> Seq<char> {
    id.subrange(0, 3) + "/"@ + id.subrange(3, 6) + "/"@ + id.subrange(6, 9) + "/"@ + id
}

/// The address of an asset's image.
pub open spec fn thumbnail_address(id: Seq<char>) -> Seq<char> {
    "http://static.spore.com/static/thumb/"@ + sharded(id) + ".png"@
}

/// The address of an asset's metadata document.
pub open spec fn model_address(id: Seq<char>) -> Seq<char> {
    "http://static.spore.com/static/model/"@ + sharded(id) + ".xml"@
}

/// The address at which an asset is looked up by its identifier; the document
/// there gives its name.
pub open spec fn lookup_address(id: Seq<char>) -> Seq<char> {
    "http://www.spore.com/rest/asset/"@ + id
}

/// The directory of an adventure: its name below the cleaned output path.
pub open spec fn adventure_directory(path: Seq<char>, name: Seq<char>) -> Seq<char> {
    path + name + "//"@
}

/// The file that holds the image of an asset, inside an adventure's directory.
pub open spec fn image_file(directory: Seq<char>, id: Seq<char>) -> Seq<char> {
    directory + id + ".png"@
}

/// Cleaning a path leaves it empty or ending in a separator, and cleaning it
/// again changes nothing.
pub proof fn lemma_cleaned_path(path: Seq<char>)
    ensures
        cleaned_path(path).len() == 0 <==> path.len() == 0,
        path.len() > 0 ==> ends_with_separator(cleaned_path(path)),
        cleaned_path(cleaned_path(path)) == cleaned_path(path),
{
    reveal_strlit("//");
}

/// Makes a path ready to have a name appended to it.
pub fn clean_file_path(input_path: &str) -> (cleaned: String)
    ensures
        cleaned@ == cleaned_path(input_path@),
{
    let text = chars_of(input_path);
    if text.len() == 0 {
        return String::from_str(input_path);
    }
    let last: char = text[text.len() - 1];
    if last == '/' || last == '\\' {
        return String::from_str(input_path);
    }
    String::from_str(input_path).concat("//")
}

/// The sharded place of an asset, for an identifier of at least nine
/// characters.
fn sharded_place(id: &str) -> (place: String)
    requires
        id@.len() >= SHARD_LENGTH,
    ensures
        place@ == sharded(id@),
{
    String::from_str(id.substring_char(0, 3)).concat("/").concat(id.substring_char(3, 6)).concat(
        "/",
    ).concat(id.substring_char(6, 9)).concat("/").concat(id)
}

/// The address of an asset's image. An identifier of fewer than nine
/// characters names no shard and has no address.
pub fn thumbnail_url(id: &str) -> (r: Option<String>)
    ensures
        match r {
            Some(url) => id@.len() >= SHARD_LENGTH && url@ == thumbnail_address(id@),
            None => id@.len() < SHARD_LENGTH,
        },
{
    if id.unicode_len() < SHARD_LENGTH {
        return None;
    }
    let place = sharded_place(id);
    Some(
        String::from_str("http://static.spore.com/static/thumb/").concat(place.as_str()).concat(
            ".png",
        ),
    )
}

/// The address of an asset's metadata document. An identifier of fewer than
/// nine characters names no shard and has no address.
pub fn model_url(id: &str) -> (r: Option<String>)
    ensures
        match r {
            Some(url) => id@.len() >= SHARD_LENGTH && url@ == model_address(id@),
            None => id@.len() < SHARD_LENGTH,
        },
{
    if id.unicode_len() < SHARD_LENGTH {
        return None;
    }
    let place = sharded_place(id);
    Some(
        String::from_str("http://static.spore.com/static/model/").concat(place.as_str()).concat(
            ".xml",
        ),
    )
}

/// The address at which an asset is looked up by its identifier.
pub fn lookup_url(id: &str) -> (url: String)
    ensures
        url@ == lookup_address(id@),
{
    String::from_str("http://www.spore.com/rest/asset/").concat(id)
}

/// The directory of the adventure `name` below the cleaned output path.
pub fn directory_for(path: &str, name: &str) -> (directory: String)
    ensures
        directory@ == adventure_directory(path@, name@),
{
    String::from_str(path).concat(name).concat("//")
}

/// The file for the image of the asset `id` inside `directory`.
pub fn image_path(directory: &str, id: &str) -> (file: String)
    ensures
        file@ == image_file(directory@, id@),
{
    String::from_str(directory).concat(id).concat(".png")
}

} // verus!
