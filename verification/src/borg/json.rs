//! Values that borg reports in its JSON output.

use vstd::prelude::*;

verus! {

/// The path type of std, carried through unchanged.
#[verifier::external_type_specification]
#[verifier::external_body]
pub struct ExPathBuf(std::path::PathBuf);

/// A date and time without time zone, as borg reports it.
#[verifier::external_type_specification]
#[verifier::external_body]
pub struct ExNaiveDateTime(chrono::NaiveDateTime);

/// The identifier of a borg repository.
#[derive(Debug, Hash, PartialEq, Eq, PartialOrd, Ord)]
pub struct RepoId(String);

impl View for RepoId {
    type V = Seq<char>;

    closed spec fn view(&self) -> Seq<char> {
        self.0@
    }
}

impl RepoId {
    pub fn new(id: String) -> (r: Self)
        ensures
            r@ == id@,
    {
        Self(id)
    }

    pub fn as_str(&self) -> (s: &str)
        ensures
            s@ == self@,
    {
        self.0.as_str()
    }

    /// Whether both identifiers are the same text.
    pub fn same_as(&self, other: &Self) -> (b: bool)
        ensures
            b == (self@ == other@),
    {
        self.0 == other.0
    }
}

impl Clone for RepoId {
    fn clone(&self) -> (r: Self)
        ensures
            r == *self,
    {
        Self(self.0.clone())
    }
}

/// The identifier of an archive in a borg repository.
#[derive(Debug, Hash, PartialEq, Eq, PartialOrd, Ord)]
pub struct ArchiveId(String);

impl View for ArchiveId {
    type V = Seq<char>;

    closed spec fn view(&self) -> Seq<char> {
        self.0@
    }
}

impl ArchiveId {
    pub fn new(id: String) -> (r: Self)
        ensures
            r@ == id@,
    {
        Self(id)
    }

    pub fn as_str(&self) -> (s: &str)
        ensures
            s@ == self@,
    {
        self.0.as_str()
    }

    /// Whether both identifiers are the same text.
    pub fn same_as(&self, other: &Self) -> (b: bool)
        ensures
            b == (self@ == other@),
    {
        self.0 == other.0
    }
}

impl Clone for ArchiveId {
    fn clone(&self) -> (r: Self)
        ensures
            r == *self,
    {
        Self(self.0.clone())
    }
}

/// The name of an archive in a borg repository.
#[derive(Debug, Hash, PartialEq, Eq, PartialOrd, Ord)]
pub struct ArchiveName(String);

impl View for ArchiveName {
    type V = Seq<char>;

    closed spec fn view(&self) -> Seq<char> {
        self.0@
    }
}

impl ArchiveName {
    pub fn new(id: String) -> (r: Self)
        ensures
            r@ == id@,
    {
        Self(id)
    }

    pub fn as_str(&self) -> (s: &str)
        ensures
            s@ == self@,
    {
        self.0.as_str()
    }

    /// Whether both identifiers are the same text.
    pub fn same_as(&self, other: &Self) -> (b: bool)
        ensures
            b == (self@ == other@),
    {
        self.0 == other.0
    }
}

impl Clone for ArchiveName {
    fn clone(&self) -> (r: Self)
        ensures
            r == *self,
    {
        Self(self.0.clone())
    }
}

/// Sizes of a newly created archive, in bytes, and its number of files.
#[derive(Clone, Copy, Debug, PartialEq, Eq)]
pub struct NewArchiveSize {
    pub compressed_size: u64,
    pub deduplicated_size: u64,
    pub nfiles: u64,
    pub original_size: u64,
}

/// How a repository is encrypted.
#[derive(Debug)]
pub struct Encryption {
    pub mode: String,
    pub keyfile: Option<std::path::PathBuf>,
}

/// An archive of a repository, as `borg list` reports it.
#[derive(Debug)]
pub struct Archive {
    pub id: ArchiveId,
    pub name: ArchiveName,
    pub comment: String,
    pub username: String,
    pub hostname: String,
    pub start: chrono::NaiveDateTime,
    pub end: chrono::NaiveDateTime,
}

/// A repository, as `borg list` reports it.
#[derive(Debug)]
pub struct Repository {
    pub id: RepoId,
    pub last_modified: chrono::NaiveDateTime,
    pub location: std::path::PathBuf,
}

/// The output of `borg list`.
#[derive(Debug)]
pub struct List {
    pub archives: Vec<Archive>,
    pub encryption: Encryption,
    pub repository: Repository,
}

} // verus!
