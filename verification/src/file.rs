//! Opening a CAD file: a path is classified as a part or an assembly by its
//! extension.
use vstd::prelude::*;
use crate::text::str_eq;

verus! {

/// Extension of part files.
pub const PART_FILE_EXT: &'static str = "cpt";

/// Extension of assembly files.
pub const ASSEMBLY_FILE_EXT: &'static str = "cas";

/// What a CAD file holds.
#[derive(Clone, Copy, Debug, PartialEq, Eq, Structural)]
pub enum FileType {
    Part,
    Assembly,
}

/// Why a path cannot be opened as a CAD file.
#[derive(Debug)]
pub enum CaditError {
    /// The file name has no extension.
    MissingFileExtension,
    /// The extension (lower-cased) is not one of a CAD file.
    InvalidFileExtension(String),
    /// The extension is not valid text.
    UnreadableFileExtension(String),
    /// The path names a directory (it has no final file name).
    AttemptToOpenDirectoryAsFile(String),
}

/// The final component of a path, as `std::path::Path::file_name` gives it.
pub uninterp spec fn spec_path_file_name(path: Seq<char>) -> Option<Seq<char>>;

/// Position of the last '.' in `name`, or -1 when it has none.
pub open spec fn last_dot(name: Seq<char>) -> int
    decreases name.len(),
{
    if name.len() == 0 {
        -1
    } else if name.last() == '.' {
        name.len() - 1
    } else {
        last_dot(name.drop_last())
    }
}

/// The extension of a file name: the text after its last '.', unless the
/// name has no '.' or its only '.' is its first character.
pub open spec fn spec_extension_of_name(name: Seq<char>) -> Option<Seq<char>> {
    let k = last_dot(name);
    if k <= 0 {
        None
    } else {
        Some(name.subrange(k + 1, name.len() as int))
    }
}

/// A character with ASCII 'A'..='Z' mapped to 'a'..='z'.
pub open spec fn ascii_lower_char(c: char) -> char {
    if ('A' as u32) <= (c as u32) <= ('Z' as u32) {
        ((c as u32) + 32) as char
    } else {
        c
    }
}

/// A text with its ASCII upper-case letters made lower-case.
pub open spec fn ascii_lower(s: Seq<char>) -> Seq<char> {
    s.map_values(|c: char| ascii_lower_char(c))
}

/// The file type a lower-cased extension stands for.
pub open spec fn spec_file_type(lower_ext: Seq<char>) -> Option<FileType> {
    if lower_ext == PART_FILE_EXT@ {
        Some(FileType::Part)
    } else if lower_ext == ASSEMBLY_FILE_EXT@ {
        Some(FileType::Assembly)
    } else {
        None
    }
}

/// `std::path::Path::file_name` on a path given as text: the final
/// component, or `None` when the path ends in `..` or has no component.
/// Claimed: the result is `spec_path_file_name` of the path.
#[verifier::external_body]
fn path_file_name(path: &str) -> (r: Option<String>)
    ensures
        match r {
            Some(n) => spec_path_file_name(path@) == Some(n@),
            None => spec_path_file_name(path@) is None,
        },
{
    match std::path::Path::new(path).file_name() {
        Some(name) => Some(name.to_string_lossy().into_owned()),
        None => None,
    }
}

/// `std::path::Path::extension` on a path given as text. Claimed, as its
/// documentation states: `None` when there is no file name, else the
/// extension of the file name (see `spec_extension_of_name`).
#[verifier::external_body]
fn path_extension(path: &str) -> (r: Option<String>)
    ensures
        match spec_path_file_name(path@) {
            None => r is None,
            Some(name) => match spec_extension_of_name(name) {
                None => r is None,
                Some(ext) => r matches Some(e) && e@ == ext,
            },
        },
{
    match std::path::Path::new(path).extension() {
        Some(ext) => Some(ext.to_string_lossy().into_owned()),
        None => None,
    }
}

/// `str::to_ascii_lowercase`. Claimed, as its documentation states: a copy
/// with 'A'..='Z' mapped to 'a'..='z' and every other character unchanged.
#[verifier::external_body]
fn to_ascii_lowercase(s: &str) -> (r: String)
    ensures
        r@ == ascii_lower(s@),
{
    s.to_ascii_lowercase()
}

/// The file type of an extension, compared without regard to ASCII case;
/// an unknown extension is an error that carries its lower-cased form.
pub fn file_type_from_extension(ext: &str) -> (r: Result<FileType, CaditError>)
    ensures
        match spec_file_type(ascii_lower(ext@)) {
            Some(t) => r matches Ok(rt) && rt == t,
            None => r matches Err(CaditError::InvalidFileExtension(e)) && e@ == ascii_lower(ext@),
        },
{
    let lower = to_ascii_lowercase(ext);
    if str_eq(lower.as_str(), PART_FILE_EXT) {
        Ok(FileType::Part)
    } else if str_eq(lower.as_str(), ASSEMBLY_FILE_EXT) {
        Ok(FileType::Assembly)
    } else {
        Err(CaditError::InvalidFileExtension(lower))
    }
}

/// A CAD file attached to an editor.
#[derive(Debug)]
pub struct CaditFile {
    pub file_path: String,
    pub file_name: String,
    pub file_type: FileType,
}

impl CaditFile {
    /// The file name of a path; a path without one names a directory.
    pub fn file_name_from_path(file_path: &str) -> (r: Result<String, CaditError>)
        ensures
            match spec_path_file_name(file_path@) {
                Some(name) => r matches Ok(n) && n@ == name,
                None => r matches Err(CaditError::AttemptToOpenDirectoryAsFile(p)) && p@
                    == file_path@,
            },
    {
        match path_file_name(file_path) {
            Some(name) => Ok(name),
            None => Err(CaditError::AttemptToOpenDirectoryAsFile(file_path.to_owned())),
        }
    }

    /// Whether `attach` accepts a path.
    pub open spec fn attach_succeeds(path: Seq<char>) -> bool {
        match spec_path_file_name(path) {
            None => false,
            Some(name) => match spec_extension_of_name(name) {
                None => false,
                Some(ext) => spec_file_type(ascii_lower(ext)) is Some,
            },
        }
    }

    /// What `attach` gives for a path: the file, or the error that the first
    /// failing check gives.
    pub open spec fn attach_outcome(file_path: Seq<char>, r: Result<Self, CaditError>) -> bool {
        match spec_path_file_name(file_path) {
            None => r matches Err(CaditError::AttemptToOpenDirectoryAsFile(p)) && p@ == file_path,
            Some(name) => match spec_extension_of_name(name) {
                None => r matches Err(CaditError::MissingFileExtension),
                Some(ext) => match spec_file_type(ascii_lower(ext)) {
                    Some(t) => r matches Ok(f) && f.file_path@ == file_path && f.file_name@ == name
                        && f.file_type == t,
                    None => r matches Err(CaditError::InvalidFileExtension(e)) && e@ == ascii_lower(
                        ext,
                    ),
                },
            },
        }
    }

    /// What opening a file decides from the parts of its path: its final
    /// component (`None` for a directory) and its extension (`None` when it
    /// has none, `Err` with a lossy rendering when it is not valid text).
    /// The checks come in this order: a file name, an extension, readable
    /// text, then a known extension in any ASCII case.
    pub fn attach_parts(
        file_path: String,
        file_name: Option<String>,
        extension: Option<Result<String, String>>,
    ) -> (r: Result<Self, CaditError>)
        ensures
            match file_name {
                None => r matches Err(CaditError::AttemptToOpenDirectoryAsFile(p)) && p@
                    == file_path@,
                Some(name) => match extension {
                    None => r matches Err(CaditError::MissingFileExtension),
                    Some(Err(raw)) => r matches Err(CaditError::UnreadableFileExtension(e)) && e@
                        == raw@,
                    Some(Ok(ext)) => match spec_file_type(ascii_lower(ext@)) {
                        Some(t) => r matches Ok(f) && f.file_path@ == file_path@ && f.file_name@
                            == name@ && f.file_type == t,
                        None => r matches Err(CaditError::InvalidFileExtension(e)) && e@
                            == ascii_lower(ext@),
                    },
                },
            },
    {
        let file_name = match file_name {
            Some(name) => name,
            None => return Err(CaditError::AttemptToOpenDirectoryAsFile(file_path)),
        };
        let file_type = match extension {
            Some(Ok(ext)) => match file_type_from_extension(ext.as_str()) {
                Ok(t) => t,
                Err(e) => return Err(e),
            },
            Some(Err(raw)) => return Err(CaditError::UnreadableFileExtension(raw)),
            None => return Err(CaditError::MissingFileExtension),
        };
        Ok(CaditFile { file_path, file_name, file_type })
    }

    /// Opens a path: it must have a file name, and an extension that names a
    /// part or an assembly (in any ASCII case).
    pub fn attach(file_path: &str) -> (r: Result<Self, CaditError>)
        ensures
            Self::attach_outcome(file_path@, r),
    {
        let file_name = path_file_name(file_path);
        let extension = match path_extension(file_path) {
            Some(ext) => Some(Ok(ext)),
            None => None,
        };
        Self::attach_parts(file_path.to_owned(), file_name, extension)
    }

    /// Opens a path as a part file, whatever its extension.
    pub fn from_part_file(file_path: &str) -> (r: Result<Self, CaditError>)
        ensures
            match spec_path_file_name(file_path@) {
                Some(name) => r matches Ok(f) && f.file_path@ == file_path@ && f.file_name@ == name
                    && f.file_type == FileType::Part,
                None => r matches Err(CaditError::AttemptToOpenDirectoryAsFile(p)) && p@
                    == file_path@,
            },
    {
        let file_name = match Self::file_name_from_path(file_path) {
            Ok(name) => name,
            Err(e) => return Err(e),
        };
        Ok(CaditFile { file_path: file_path.to_owned(), file_name, file_type: FileType::Part })
    }

    /// Opens a path as an assembly file, whatever its extension.
    pub fn from_assembly_file(file_path: &str) -> (r: Result<Self, CaditError>)
        ensures
            match spec_path_file_name(file_path@) {
                Some(name) => r matches Ok(f) && f.file_path@ == file_path@ && f.file_name@ == name
                    && f.file_type == FileType::Assembly,
                None => r matches Err(CaditError::AttemptToOpenDirectoryAsFile(p)) && p@
                    == file_path@,
            },
    {
        let file_name = match Self::file_name_from_path(file_path) {
            Ok(name) => name,
            Err(e) => return Err(e),
        };
        Ok(CaditFile { file_path: file_path.to_owned(), file_name, file_type: FileType::Assembly })
    }

    pub fn file_type(&self) -> (r: &FileType)
        ensures
            *r == self.file_type,
    {
        &self.file_type
    }

    pub fn file_name(&self) -> (r: &str)
        ensures
            r@ == self.file_name@,
    {
        self.file_name.as_str()
    }

    pub fn file_path(&self) -> (r: &str)
        ensures
            r@ == self.file_path@,
    {
        self.file_path.as_str()
    }

    pub fn is_part(&self) -> (r: bool)
        ensures
            r == (self.file_type == FileType::Part),
    {
        self.file_type == FileType::Part
    }

    pub fn is_assembly(&self) -> (r: bool)
        ensures
            r == (self.file_type == FileType::Assembly),
    {
        self.file_type == FileType::Assembly
    }
}

/// Extensions are compared without regard to ASCII case: lower-casing an
/// already lower-cased extension changes nothing, so an extension and its
/// lower-cased form classify alike.
pub proof fn law_extension_case_insensitive(ext: Seq<char>)
    ensures
        ascii_lower(ascii_lower(ext)) == ascii_lower(ext),
        spec_file_type(ascii_lower(ascii_lower(ext))) == spec_file_type(ascii_lower(ext)),
{
    assert(ascii_lower(ascii_lower(ext)) =~= ascii_lower(ext));
}

} // verus!
