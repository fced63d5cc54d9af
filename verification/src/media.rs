//! Content headers derived from a file name.

use vstd::prelude::*;
use vstd::string::*;
use crate::model::{text_view, BlobHead, BlobHeadView};

verus! {

/// The media type that `mime_guess` lists first for the extension of a file
/// name, if it knows the extension.
pub uninterp spec fn guessed_media_type(file_name: Seq<char>) -> Option<Seq<char>>;

/// The content type of a file name: the guessed media type, or the generic
/// binary type when the extension is missing or unknown.
pub open spec fn content_type_of(file_name: Seq<char>) -> Seq<char> {
    match guessed_media_type(file_name) {
        Some(media_type) => media_type,
        None => "application/octet-stream"@,
    }
}

/// The content disposition of a file name: inline display under that name.
pub open spec fn disposition_of(file_name: Seq<char>) -> Seq<char> {
    "inline; filename=\""@ + file_name + "\""@
}

/// The headers a blob is stored with.
pub open spec fn head_of(file_name: Seq<char>) -> BlobHeadView {
    BlobHeadView {
        content_type: Some(content_type_of(file_name)),
        content_disposition: Some(disposition_of(file_name)),
    }
}

/// `mime_guess::from_path` followed by `MimeGuess::first`, the media type
/// written out as text. The lookup reads only the name, never the disk; its
/// table is part of the crate, so the result is named rather than described.
#[verifier::external_body]
fn guess_media_type(file_name: &str) -> (guess: Option<String>)
    ensures
        text_view(guess) == guessed_media_type(file_name@),
{
    mime_guess::from_path(file_name).first().map(|media_type| media_type.to_string())
}

/// The content type for a guess that has already been made.
pub fn content_type_from_guess(guess: Option<String>) -> (content_type: String)
    ensures
        content_type@ == match text_view(guess) {
            Some(media_type) => media_type,
            None => "application/octet-stream"@,
        },
{
    match guess {
        Some(media_type) => media_type,
        None => String::from_str("application/octet-stream"),
    }
}

/// The content type to store a file under.
pub fn content_type_for(file_name: &str) -> (content_type: String)
    ensures
        content_type@ == content_type_of(file_name@),
{
    content_type_from_guess(guess_media_type(file_name))
}

/// The content disposition to store a file under.
pub fn inline_disposition(file_name: &str) -> (disposition: String)
    ensures
        disposition@ == disposition_of(file_name@),
{
    let mut disposition = String::from_str("inline; filename=\"");
    disposition.append(file_name);
    disposition.append("\"");
    disposition
}

/// The headers to store a file under.
pub fn head_for(file_name: &str) -> (head: BlobHead)
    ensures
        head@ == head_of(file_name@),
{
    BlobHead {
        content_type: Some(content_type_for(file_name)),
        content_disposition: Some(inline_disposition(file_name)),
    }
}

} // verus!
