//! What the catalogue records of a file: where it lies under the library
//! root, its name and extension, when it was last modified, and a checksum
//! of its content that is computed on first demand and kept.

use crate::paths::{
    extension_of, file_name_of, parent_of, path_extension, path_file_name, path_parent, path_text,
    path_under, strip_prefix_of, text_of,
};
use crate::text::{decimal, decimal_u64, hex8, hex8_u32};
use std::path::PathBuf;
use vstd::prelude::*;
use vstd::string::StringExecFns;

verus! {

/// The text with every backslash turned into a forward slash.
pub open spec fn unix_separators(text: Seq<char>) -> Seq<char> {
    Seq::new(
        text.len(),
        |i: int|
            if text[i] == '\\' {
                '/'
            } else {
                text[i]
            },
    )
}

/// Forward slashes only: the text keeps its length, holds no backslash any
/// more, and is left as it is by a second pass.
pub proof fn unix_separators_are_unix(text: Seq<char>)
    ensures
        unix_separators(text).len() == text.len(),
        forall|i: int| 0 <= i < text.len() ==> #[trigger] unix_separators(text)[i] != '\\',
        unix_separators(unix_separators(text)) == unix_separators(text),
{
}

/// The text with forward slashes for separators.
pub fn with_unix_separators(text: &str) -> (unix: String)
    ensures
        unix@ == unix_separators(text@),
{
    let mut unix = String::new();
    let len = text.unicode_len();
    let mut i: usize = 0;
    while i < len
        invariant
            len == text@.len(),
            i <= len,
            unix@.len() == i,
            forall|j: int| 0 <= j < i ==> unix@[j] == unix_separators(text@)[j],
        decreases len - i,
    {
        let ch = text.get_char(i);
        if ch == '\\' {
            unix.push('/');
        } else {
            unix.push(ch);
        }
        i += 1;
    }
    unix
}

/// The path as text with forward slashes for separators, whatever the host
/// uses; nothing if the path is not valid Unicode.
pub fn to_unix_path_string(path_buf: PathBuf) -> (unix: Option<String>)
    ensures
        unix.is_some() == path_text(path_buf).is_some(),
        unix matches Some(u) ==> u@ == unix_separators(path_text(path_buf)->0),
{
    match text_of(&path_buf) {
        Some(text) => Some(with_unix_separators(text.as_str())),
        None => None,
    }
}

/// The description of one file of the library.
#[derive(Debug)]
pub struct FileDescription {
    pub root_path: PathBuf,
    pub rel_path: PathBuf,
    pub full_path: PathBuf,
    pub file_name: String,
    pub directory: String,
    pub extension: String,
    pub file_hash: Option<String>,
    pub last_modified: String,
}

/// A description with its texts as sequences of characters.
pub struct FileDescriptionView {
    pub root_path: PathBuf,
    pub rel_path: PathBuf,
    pub full_path: PathBuf,
    pub file_name: Seq<char>,
    pub directory: Seq<char>,
    pub extension: Seq<char>,
    pub file_hash: Option<Seq<char>>,
    pub last_modified: Seq<char>,
}

impl View for FileDescription {
    type V = FileDescriptionView;

    open spec fn view(&self) -> FileDescriptionView {
        FileDescriptionView {
            root_path: self.root_path,
            rel_path: self.rel_path,
            full_path: self.full_path,
            file_name: self.file_name@,
            directory: self.directory@,
            extension: self.extension@,
            file_hash: match self.file_hash {
                Some(hash) => Some(hash@),
                None => None,
            },
            last_modified: self.last_modified@,
        }
    }
}

/// Why a file cannot be described.
#[derive(Debug, Clone, Copy, PartialEq, Eq, Structural)]
pub enum DescribeError {
    /// The path has no last component, or one that is not valid Unicode.
    NoFileName,
    /// The path does not lie under the library root.
    NotInLibrary,
}

/// The text, or the empty text where there is none.
pub open spec fn text_or_empty(text: Option<Seq<char>>) -> Seq<char> {
    match text {
        Some(t) => t,
        None => Seq::empty(),
    }
}

/// What `describe_file` makes of the parts of a path.
pub open spec fn description_of(
    file_path: PathBuf,
    lib_path: PathBuf,
    last_modified: u64,
) -> Result<FileDescriptionView, DescribeError> {
    match path_file_name(file_path) {
        None => Err(DescribeError::NoFileName),
        Some(file_name) => match path_under(file_path, lib_path) {
            None => Err(DescribeError::NotInLibrary),
            Some(rel_path) => Ok(
                FileDescriptionView {
                    root_path: lib_path,
                    rel_path,
                    full_path: file_path,
                    file_name,
                    directory: unix_separators(text_or_empty(path_parent(rel_path))),
                    extension: text_or_empty(path_extension(file_path)),
                    file_hash: None,
                    last_modified: decimal(last_modified as int),
                },
            ),
        },
    }
}

/// The text inside, or an empty one.
fn or_empty(text: Option<String>) -> (out: String)
    ensures
        out@ == text_or_empty(
            match text {
                Some(t) => Some(t@),
                None => None,
            },
        ),
{
    match text {
        Some(t) => t,
        None => String::new(),
    }
}

/// Describes the file at `file_path` of the library rooted at `lib_path`,
/// last modified `last_modified` seconds after the Unix epoch.
///
/// The file needs a name, and has to lie under the root. Its directory is
/// the parent of its path relative to the root, with forward slashes; its
/// extension is empty where it has none. The checksum is left for later.
pub fn describe_file(file_path: &PathBuf, lib_path: &PathBuf, last_modified: u64) -> (description:
    Result<FileDescription, DescribeError>)
    ensures
        match description_of(*file_path, *lib_path, last_modified) {
            Ok(view) => description matches Ok(d) && d@ == view,
            Err(e) => description matches Err(f) && f == e,
        },
{
    let file_name = match file_name_of(file_path) {
        Some(name) => name,
        None => {
            return Err(DescribeError::NoFileName);
        },
    };
    let rel_path = match strip_prefix_of(file_path, lib_path) {
        Ok(rest) => rest,
        Err(_) => {
            return Err(DescribeError::NotInLibrary);
        },
    };
    let parent = or_empty(parent_of(&rel_path));
    let directory = with_unix_separators(parent.as_str());
    let extension = or_empty(extension_of(file_path));
    Ok(
        FileDescription {
            root_path: lib_path.clone(),
            rel_path,
            full_path: file_path.clone(),
            file_name,
            directory,
            extension,
            file_hash: None,
            last_modified: decimal_u64(last_modified),
        },
    )
}

impl FileDescriptionView {
    /// What asking for the checksum leaves and returns, where `read` is
    /// what reading the file would yield (nothing if reading fails): a
    /// checksum that is known is returned, whatever `read` is; one that is
    /// not known is read, written as eight hexadecimal digits and kept.
    pub open spec fn crc_asked(self, read: Option<u32>) -> (FileDescriptionView, Option<Seq<char>>) {
        match self.file_hash {
            Some(known) => (self, Some(known)),
            None => match read {
                Some(crc) => (
                    FileDescriptionView { file_hash: Some(hex8(crc)), ..self },
                    Some(hex8(crc)),
                ),
                None => (self, None),
            },
        }
    }
}

/// The checksum is computed once: after it has been read, asking again
/// returns the same text and changes nothing, whatever reading the file
/// would yield by then.
pub proof fn crc_is_kept(d: FileDescriptionView, first: u32, later: Option<u32>)
    requires
        d.file_hash is None,
    ensures
        d.crc_asked(Some(first)).1 == Some(hex8(first)),
        d.crc_asked(Some(first)).0.crc_asked(later) == d.crc_asked(Some(first)),
{
}

/// What a reading of the file yields, without the error.
pub open spec fn crc_read<E>(read: Result<u32, E>) -> Option<u32> {
    match read {
        Ok(crc) => Some(crc),
        Err(_) => None,
    }
}

impl FileDescription {
    /// The checksum of the file's content as eight hexadecimal digits.
    ///
    /// A checksum that is known is returned as it is, and `read_crc` is
    /// not consulted. Otherwise `read_crc` is called once to read the file;
    /// the checksum it yields is kept for the calls to come, and an error it
    /// meets is handed on, with nothing kept.
    pub fn get_crc<E, F: FnOnce() -> Result<u32, E>>(&mut self, read_crc: F) -> (hash: Result<
        String,
        E,
    >)
        requires
            old(self).file_hash is None ==> read_crc.requires(()),
        ensures
            old(self)@.file_hash matches Some(known) ==> final(self)@ == old(self)@ && (
            hash matches Ok(h) && h@ == known),
            old(self)@.file_hash is None ==> exists|read: Result<u32, E>|
                #[trigger] read_crc.ensures((), read) && final(self)@ == old(self)@.crc_asked(
                    crc_read(read),
                ).0 && match read {
                    Ok(crc) => hash matches Ok(h) && Some(h@) == old(self)@.crc_asked(
                        Some(crc),
                    ).1,
                    Err(e) => hash matches Err(f) && f == e,
                },
    {
        match &self.file_hash {
            Some(known) => Ok(known.clone()),
            None => {
                let read = read_crc();
                let ghost yielded = read;
                let hash = match read {
                    Ok(crc) => {
                        let text = hex8_u32(crc);
                        self.file_hash = Some(text.clone());
                        Ok(text)
                    },
                    Err(e) => Err(e),
                };
                proof {
                    assert(read_crc.ensures((), yielded));
                    assert(self@ == old(self)@.crc_asked(crc_read(yielded)).0);
                }
                hash
            },
        }
    }

    /// The description in one line: name, directory, extension and time of
    /// last modification.
    pub open spec fn summary_spec(self) -> Seq<char> {
        "FileDescription { file_name: "@ + self.file_name@ + ", directory: "@ + self.directory@
            + ", extension: "@ + self.extension@ + ", last_modified: "@ + self.last_modified@
            + " }"@
    }

    /// The description in one line: name, directory, extension and time of
    /// last modification.
    pub fn summary(&self) -> (line: String)
        ensures
            line@ == self.summary_spec(),
    {
        let mut line = String::from_str("FileDescription { file_name: ");
        line.append(self.file_name.as_str());
        line.append(", directory: ");
        line.append(self.directory.as_str());
        line.append(", extension: ");
        line.append(self.extension.as_str());
        line.append(", last_modified: ");
        line.append(self.last_modified.as_str());
        line.append(" }");
        line
    }
}

} // verus!
