//! The record of a completed upload, as it is handed to the document index.

use vstd::prelude::*;
use crate::file_id::{FileId, id_text};

verus! {

/// A tag: a name and a value that came with the upload as a form field.
/// Names need not differ from each other.
#[derive(Debug, PartialEq, Eq)]
pub struct IndexedTag {
    pub name: String,
    pub value: String,
}

/// What a tag says.
pub struct TagView {
    pub name: Seq<char>,
    pub value: Seq<char>,
}

impl View for IndexedTag {
    type V = TagView;

    open spec fn view(&self) -> TagView {
        TagView { name: self.name@, value: self.value@ }
    }
}

/// The record of an upload.
#[derive(Debug, PartialEq, Eq)]
pub struct IndexedFile {
    /// The slot identifier as text: the key of the document.
    pub uuid: String,
    /// The display name: the client's file name, made safe.
    pub name: String,
    /// The number of bytes stored.
    pub size: u64,
    /// The media type that the display name suggests, if any.
    pub mime: Option<String>,
    /// The digest of the stored bytes.
    pub hash: String,
    /// When the digest was complete, in milliseconds since the Unix epoch.
    pub indexed_at: u64,
    /// The tags, in the order of their arrival.
    pub tags: Vec<IndexedTag>,
}

/// What a record says.
pub struct RecordView {
    pub uuid: Seq<char>,
    pub name: Seq<char>,
    pub size: u64,
    pub mime: Option<Seq<char>>,
    pub hash: Seq<char>,
    pub indexed_at: u64,
    pub tags: Seq<TagView>,
}

/// What each of some tags says, in their order.
pub open spec fn tag_views(tags: Seq<IndexedTag>) -> Seq<TagView> {
    tags.map_values(|tag: IndexedTag| tag@)
}

/// What an optional text says.
pub open spec fn text_view(text: Option<String>) -> Option<Seq<char>> {
    match text {
        Some(text) => Some(text@),
        None => None,
    }
}

impl View for IndexedFile {
    type V = RecordView;

    open spec fn view(&self) -> RecordView {
        RecordView {
            uuid: self.uuid@,
            name: self.name@,
            size: self.size,
            mime: text_view(self.mime),
            hash: self.hash@,
            indexed_at: self.indexed_at,
            tags: tag_views(self.tags@),
        }
    }
}

/// Whether a name is free of the characters that part the components of a
/// path on some system.
pub open spec fn free_of_separators(name: Seq<char>) -> bool {
    forall|i: int| 0 <= i < name.len() ==> name[i] != '/' && name[i] != '\\' && name[i] != ':'
}

/// The safe form of a file name, under the rules for Windows names or
/// without them. It stands for what `sanitize_filename` makes of the name
/// with its default settings for cutting and replacing.
pub uninterp spec fn sanitized_name(name: Seq<char>, windows: bool) -> Seq<char>;

/// The media type that the extension of a name suggests, if any. It stands
/// for the first guess of `mime_guess`.
pub uninterp spec fn guessed_mime(name: Seq<char>) -> Option<Seq<char>>;

/// Trusted: calls `sanitize_filename::sanitize_with_options` with `windows`
/// as given and the crate's defaults otherwise: it cuts long names and
/// replaces by nothing. Its first step deletes every `/`, `\` and `:`, and
/// no later step adds a character.
#[verifier::external_body]
fn sanitize_name(name: &str, windows: bool) -> (clean: String)
    ensures
        clean@ == sanitized_name(name@, windows),
        free_of_separators(clean@),
{
    let options = sanitize_filename::Options { windows, ..Default::default() };
    sanitize_filename::sanitize_with_options(name, options)
}

/// Trusted: calls `mime_guess::from_path` and takes the first guess as
/// text. The guess is looked up under the extension of the name as
/// `Path::extension` reads it, which for a name free of separators is the
/// same on every system.
#[verifier::external_body]
fn guess_mime(name: &str) -> (mime: Option<String>)
    requires
        free_of_separators(name@),
    ensures
        text_view(mime) == guessed_mime(name@),
{
    mime_guess::from_path(name).first().map(|mime| mime.to_string())
}

/// The record of a stored file before its tags are known.
pub open spec fn file_record(
    id: u128,
    filename: Seq<char>,
    size: u64,
    hash: Seq<char>,
    indexed_at: u64,
    windows_names: bool,
) -> RecordView {
    RecordView {
        uuid: id_text(id),
        name: sanitized_name(filename, windows_names),
        size,
        mime: guessed_mime(sanitized_name(filename, windows_names)),
        hash,
        indexed_at,
        tags: Seq::empty(),
    }
}

/// Writes the record of a stored file: the display name is the safe form
/// of `filename`, which holds no path separator, and the media type is
/// guessed from the display name. The record has no tags yet.
pub fn describe_file(
    id: FileId,
    filename: &str,
    size: u64,
    hash: String,
    indexed_at: u64,
    windows_names: bool,
) -> (record: IndexedFile)
    ensures
        record@ == file_record(id.value, filename@, size, hash@, indexed_at, windows_names),
        free_of_separators(record.name@),
{
    let name = sanitize_name(filename, windows_names);
    let mime = guess_mime(name.as_str());
    let record = IndexedFile {
        uuid: id.to_text(),
        name,
        size,
        mime,
        hash,
        indexed_at,
        tags: Vec::new(),
    };
    assert(record@.tags =~= Seq::empty());
    record
}

impl IndexedFile {
    /// The record with `tags` in place of its own.
    pub fn with_tags(self, tags: Vec<IndexedTag>) -> (record: IndexedFile)
        ensures
            record@ == (RecordView { tags: tag_views(tags@), ..self@ }),
    {
        IndexedFile {
            uuid: self.uuid,
            name: self.name,
            size: self.size,
            mime: self.mime,
            hash: self.hash,
            indexed_at: self.indexed_at,
            tags,
        }
    }
}

} // verus!
