//! The decisions of the dialog that adds a backup configuration: which row
//! the user picked, whether the entries allow creating a repository, and
//! whether a directory is a borg repository.

use vstd::prelude::*;

use crate::text::{chars_of, contains, contains_seq};

verus! {

/// Whether the content of a `config` file declares a borg repository: it
/// contains `[repository]`.
pub fn config_declares_repository(content: &str) -> (b: bool)
    ensures
        b == contains_seq(content@, "[repository]"@),
{
    contains(&chars_of(content), &chars_of("[repository]"))
}

/// Whether `text` is the same text as the literal `literal`.
fn same_text(text: &str, literal: &str) -> (b: bool)
    ensures
        b == (text@ == literal@),
{
    text.to_owned() == literal.to_owned()
}

/// A row of the list of existing repositories.
#[derive(Debug, Clone, PartialEq, Eq)]
pub enum AddRepoRow {
    /// Choose a local folder.
    AddLocal,
    /// Enter the URL of a remote repository.
    AddRemote,
    /// A repository found on a mounted drive, given by its URI.
    Existing(String),
}

/// The row that the row name `name` stands for in the list of existing
/// repositories.
pub fn add_repo_row(name: &str) -> (r: AddRepoRow)
    ensures
        name@ == "-add-local"@ ==> r == AddRepoRow::AddLocal,
        name@ != "-add-local"@ && name@ == "-add-remote"@ ==> r == AddRepoRow::AddRemote,
        name@ != "-add-local"@ && name@ != "-add-remote"@ ==> (r matches AddRepoRow::Existing(
            uri,
        ) && uri@ == name@),
{
    if same_text(name, "-add-local") {
        AddRepoRow::AddLocal
    } else if same_text(name, "-add-remote") {
        AddRepoRow::AddRemote
    } else {
        AddRepoRow::Existing(name.to_owned())
    }
}

/// A row of the list of places to create a repository at.
#[derive(Debug, Clone, PartialEq, Eq)]
pub enum InitRepoRow {
    /// Enter the URL of a remote location.
    Remote,
    /// Choose a local folder.
    ChooseLocal,
    /// A mounted drive, given by the URI of its root.
    Mounted(String),
}

/// The row that the row name `name` stands for in the list of places to
/// create a repository at.
pub fn init_repo_row(name: &str) -> (r: InitRepoRow)
    ensures
        name@ == "-init-remote"@ ==> r == InitRepoRow::Remote,
        name@ != "-init-remote"@ && name@ == "-init-local"@ ==> r == InitRepoRow::ChooseLocal,
        name@ != "-init-remote"@ && name@ != "-init-local"@ ==> (r matches InitRepoRow::Mounted(
            uri,
        ) && uri@ == name@),
{
    if same_text(name, "-init-remote") {
        InitRepoRow::Remote
    } else if same_text(name, "-init-local") {
        InitRepoRow::ChooseLocal
    } else {
        InitRepoRow::Mounted(name.to_owned())
    }
}

pub open spec fn or_empty(s: Option<String>) -> Seq<char> {
    match s {
        Some(t) => t@,
        None => Seq::empty(),
    }
}

/// The directory name proposed for a new repository:
/// `backup-<host name>-<user name>`, with an unknown name left empty.
pub fn default_init_dir(host_name: Option<String>, user_name: Option<String>) -> (r: String)
    ensures
        r@ == "backup-"@ + or_empty(host_name) + "-"@ + or_empty(user_name),
{
    let mut dir = String::from_str("backup-");
    match &host_name {
        Some(h) => dir.append(h.as_str()),
        None => {},
    }
    dir.append("-");
    match &user_name {
        Some(u) => dir.append(u.as_str()),
        None => {},
    }
    assert(dir@ =~= "backup-"@ + or_empty(host_name) + "-"@ + or_empty(user_name));
    dir
}

/// Where a new repository goes, as entered.
pub enum InitLocation {
    /// A local folder; whether one was chosen.
    Local { folder_chosen: bool },
    /// A remote location, by its URL.
    Remote { url: String },
}

/// Why the entries do not allow creating a repository.
#[derive(Debug, Clone, Copy, PartialEq, Eq)]
pub enum InitError {
    PasswordsDiffer,
    NoLocalLocation,
    NoRemoteLocation,
}

impl InitError {
    /// The message to show, before translation.
    pub fn message(&self) -> (m: String)
        ensures
            m@ == match self {
                InitError::PasswordsDiffer => "Entered passwords do not match. Please try again."@,
                InitError::NoLocalLocation => "You have to select a repository location."@,
                InitError::NoRemoteLocation => "You have to enter a repository location."@,
            },
    {
        match self {
            InitError::PasswordsDiffer => String::from_str(
                "Entered passwords do not match. Please try again.",
            ),
            InitError::NoLocalLocation => String::from_str(
                "You have to select a repository location.",
            ),
            InitError::NoRemoteLocation => String::from_str(
                "You have to enter a repository location.",
            ),
        }
    }
}

/// Whether the entries allow creating a repository: an encrypted one needs
/// the password entered twice alike, a local one a chosen folder, a remote
/// one a URL.
pub fn check_init_entries(
    encrypted: bool,
    password: &str,
    password_confirm: &str,
    location: &InitLocation,
) -> (r: Result<(), InitError>)
    ensures
        r == if encrypted && password@ != password_confirm@ {
            Err(InitError::PasswordsDiffer)
        } else {
            match location {
                InitLocation::Local { folder_chosen } => if *folder_chosen {
                    Ok(())
                } else {
                    Err(InitError::NoLocalLocation)
                },
                InitLocation::Remote { url } => if url@.len() == 0 {
                    Err(InitError::NoRemoteLocation)
                } else {
                    Ok(())
                },
            }
        },
{
    if encrypted && !(password.to_owned() == password_confirm.to_owned()) {
        return Err(InitError::PasswordsDiffer);
    }
    match location {
        InitLocation::Local { folder_chosen } => if *folder_chosen {
            Ok(())
        } else {
            Err(InitError::NoLocalLocation)
        },
        InitLocation::Remote { url } => if url.as_str().is_empty() {
            Err(InitError::NoRemoteLocation)
        } else {
            Ok(())
        },
    }
}

/// Whether a repository whose password was asked for is encrypted: it is
/// where a non-empty password was given.
pub fn is_encrypted(password: Option<&[u8]>) -> (b: bool)
    ensures
        b == match password {
            Some(p) => p@.len() > 0,
            None => false,
        },
{
    match password {
        Some(p) => p.len() > 0,
        None => false,
    }
}

/// The title of a repository found on a mounted drive: the mount's name,
/// followed by ` / ` and the repository's path within the mount where that
/// path is not empty.
pub fn repo_title(mount_name: String, path_in_mount: Option<&str>) -> (r: String)
    ensures
        r@ == match path_in_mount {
            Some(p) => if p@.len() > 0 {
                mount_name@ + " / "@ + p@
            } else {
                mount_name@
            },
            None => mount_name@,
        },
{
    match path_in_mount {
        Some(p) => if !p.is_empty() {
            mount_name.concat(" / ").concat(p)
        } else {
            mount_name
        },
        None => mount_name,
    }
}

} // verus!
