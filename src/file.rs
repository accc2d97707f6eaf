//! Classification of a downloaded file by the extension of its name.

use vstd::prelude::*;

use crate::text::{find_last, last_index_of, lemma_last_index_of_bounds};

verus! {

#[derive(Debug, Clone, Copy, PartialEq, Eq, Structural)]
pub enum Compression {
    Gz,
    Xz,
    Bz2,
}

#[derive(Debug, Clone, Copy, PartialEq, Eq, Structural)]
pub enum FileType {
    Debian,
    TarArchive(Compression),
    ZipArchive,
    CompressedFile(Compression),
}

/// A file before classification: where it is, the name it was declared with,
/// and the extension of that name.
#[derive(Debug)]
pub struct FileInfo {
    pub path: String,
    pub name: String,
    pub extension: Option<String>,
}

/// A file whose kind is known.
#[derive(Debug)]
pub struct SupportedFileInfo {
    pub path: String,
    pub file_type: FileType,
}

#[derive(Debug)]
pub enum InstallError {
    NotSupported(String),
}

/// Whether a path ends in a separator or in a `.` component after one: an
/// ending that does not change which file the path names.
pub open spec fn has_empty_ending(name: Seq<char>) -> bool {
    (name.len() > 0 && name.last() == '/') || (name.len() >= 2 && name.last() == '.'
        && name[name.len() - 2] == '/')
}

/// `name` without the separators and `.` components at its end.
pub open spec fn trimmed(name: Seq<char>) -> Seq<char>
    decreases name.len(),
{
    if has_empty_ending(name) {
        trimmed(name.drop_last())
    } else {
        name
    }
}

/// The last component of `name`: what follows the last `/` once the ending
/// separators and `.` components are dropped.
pub open spec fn base_name(name: Seq<char>) -> Seq<char> {
    let t = trimmed(name);
    t.subrange(last_index_of(t, '/') + 1, t.len() as int)
}

/// The extension of a declared name: what follows the last `.` of its last
/// component, provided that dot does not open the component; none for a
/// component `..`, and none otherwise.
pub open spec fn extension_of(name: Seq<char>) -> Option<Seq<char>> {
    let base = base_name(name);
    let k = last_index_of(base, '.');
    if base == ".."@ {
        None
    } else if k > 0 {
        Some(base.subrange(k + 1, base.len() as int))
    } else {
        None
    }
}

/// The kind of file that an extension stands for, if it is supported.
pub open spec fn file_type_of(ext: Seq<char>) -> Option<FileType> {
    if ext == "deb"@ {
        Some(FileType::Debian)
    } else if ext == "gz"@ || ext == "tgz"@ {
        Some(FileType::TarArchive(Compression::Gz))
    } else if ext == "bz2"@ || ext == "tbz"@ {
        Some(FileType::TarArchive(Compression::Bz2))
    } else if ext == "xz"@ || ext == "txz"@ {
        Some(FileType::TarArchive(Compression::Xz))
    } else if ext == "zip"@ {
        Some(FileType::ZipArchive)
    } else {
        None
    }
}

/// What classifying a file with the given extension yields.
pub open spec fn classification_of(ext: Option<Seq<char>>) -> Option<FileType> {
    match ext {
        Some(e) => file_type_of(e),
        None => None,
    }
}

/// The supported extensions are exactly the eight of the table, and each of
/// them always stands for one kind; every other extension stands for none.
pub proof fn lemma_supported_extensions(ext: Seq<char>)
    ensures
        file_type_of(ext) is Some <==> (ext == "deb"@ || ext == "gz"@
            || ext == "tgz"@ || ext == "bz2"@ || ext == "tbz"@ || ext == "xz"@ || ext == "txz"@ || ext == "zip"@),
        !(file_type_of(ext) matches Some(FileType::CompressedFile(_))),
{
}

impl Compression {
    /// The short name of the compression algorithm.
    pub fn as_str(&self) -> (r: &'static str)
        ensures
            r@ == match self {
                Compression::Gz => "gz"@,
                Compression::Xz => "xz"@,
                Compression::Bz2 => "bz2"@,
            },
    {
        match self {
            Compression::Gz => {
                proof {
                    reveal_strlit("gz");
                }
                "gz"
            },
            Compression::Xz => {
                proof {
                    reveal_strlit("xz");
                }
                "xz"
            },
            Compression::Bz2 => {
                proof {
                    reveal_strlit("bz2");
                }
                "bz2"
            },
        }
    }
}

fn equals_literal(s: &str, lit: &str) -> (r: bool)
    ensures
        r == (s@ == lit@),
{
    let n = s.unicode_len();
    let m = lit.unicode_len();
    if n != m {
        return false;
    }
    let mut i: usize = 0;
    while i < n
        invariant
            i <= n,
            n == s@.len(),
            m == lit@.len(),
            n == m,
            forall|j: int| 0 <= j < i ==> s@[j] == lit@[j],
        decreases n - i,
    {
        if s.get_char(i) != lit.get_char(i) {
            return false;
        }
        i = i + 1;
    }
    assert(s@ =~= lit@);
    true
}

/// Maps an extension to the kind of file it stands for.
pub fn file_type_for(extension: &str) -> (r: Option<FileType>)
    ensures
        r == file_type_of(extension@),
{
    proof {
        reveal_strlit("deb");
        reveal_strlit("gz");
        reveal_strlit("tgz");
        reveal_strlit("bz2");
        reveal_strlit("tbz");
        reveal_strlit("xz");
        reveal_strlit("txz");
        reveal_strlit("zip");
    }
    if equals_literal(extension, "deb") {
        return Some(FileType::Debian);
    }
    if equals_literal(extension, "gz") || equals_literal(extension, "tgz") {
        return Some(FileType::TarArchive(Compression::Gz));
    }
    if equals_literal(extension, "bz2") || equals_literal(extension, "tbz") {
        return Some(FileType::TarArchive(Compression::Bz2));
    }
    if equals_literal(extension, "xz") || equals_literal(extension, "txz") {
        return Some(FileType::TarArchive(Compression::Xz));
    }
    if equals_literal(extension, "zip") {
        return Some(FileType::ZipArchive);
    }
    None
}

/// Extracts the extension of a declared name.
pub fn extension_from_name(name: &str) -> (r: Option<String>)
    ensures
        match r {
            Some(e) => extension_of(name@) == Some(e@),
            None => extension_of(name@) is None,
        },
{
    let n = name.unicode_len();
    let mut end: usize = n;
    assert(name@.subrange(0, n as int) =~= name@);
    while end > 0 && (name.get_char(end - 1) == '/' || (end >= 2 && name.get_char(end - 1) == '.'
        && name.get_char(end - 2) == '/'))
        invariant
            end <= n,
            n == name@.len(),
            trimmed(name@) == trimmed(name@.subrange(0, end as int)),
        decreases end,
    {
        assert(name@.subrange(0, end as int).drop_last() =~= name@.subrange(0, end - 1));
        end = end - 1;
    }
    let whole = name.substring_char(0, end);
    assert(whole@ =~= name@.subrange(0, end as int));
    assert(trimmed(whole@) == whole@);
    proof {
        lemma_last_index_of_bounds(whole@, '/');
    }
    let start: usize = match find_last(whole, '/') {
        Some(i) => i + 1,
        None => 0,
    };
    let base = whole.substring_char(start, end);
    assert(base@ =~= base_name(name@));
    proof {
        reveal_strlit("..");
    }
    if equals_literal(base, "..") {
        return None;
    }
    match find_last(base, '.') {
        Some(k) => {
            proof {
                lemma_last_index_of_bounds(base@, '.');
            }
            if k > 0 {
                let m = base.unicode_len();
                let e = base.substring_char(k + 1, m);
                Some(String::from_str(e))
            } else {
                None
            }
        },
        None => None,
    }
}

impl FileInfo {
    /// Describes the file at `path` that was declared under `name`.
    pub fn new(name: &str, path: &str) -> (r: FileInfo)
        ensures
            r.name@ == name@,
            r.path@ == path@,
            r.extension_view() == extension_of(name@),
    {
        FileInfo {
            path: String::from_str(path),
            name: String::from_str(name),
            extension: extension_from_name(name),
        }
    }

    pub open spec fn extension_view(&self) -> Option<Seq<char>> {
        match self.extension {
            Some(e) => Some(e@),
            None => None,
        }
    }
}

/// Tells the kind of a file from its extension, or rejects it as unsupported.
pub fn validate_file(file: FileInfo) -> (r: Result<SupportedFileInfo, InstallError>)
    ensures
        match classification_of(file.extension_view()) {
            Some(t) => r matches Ok(s) && s.file_type == t && s.path@ == file.path@,
            None => r matches Err(InstallError::NotSupported(n)) && n@ == file.name@,
        },
{
    let file_type = match &file.extension {
        Some(e) => file_type_for(e.as_str()),
        None => None,
    };
    match file_type {
        Some(t) => Ok(SupportedFileInfo { path: file.path, file_type: t }),
        None => Err(InstallError::NotSupported(file.name)),
    }
}

} // verus!
