//! Choices and locations of the repository setup dialog.

use vstd::prelude::*;

use crate::text::{chars_of, contains, contains_at, contains_seq};

verus! {

/// Whether the dialog creates a repository or adds an existing one.
#[derive(Debug, Copy, Clone, PartialEq, Eq)]
pub enum SetupAction {
    Init,
    AddExisting,
}

impl Default for SetupAction {
    fn default() -> (r: Self)
        ensures
            r == SetupAction::Init,
    {
        SetupAction::Init
    }
}

/// Whether the repository is on this machine or a remote one.
#[derive(Debug, Copy, Clone, PartialEq, Eq)]
pub enum SetupLocationKind {
    Local,
    Remote,
}

impl Default for SetupLocationKind {
    fn default() -> (r: Self)
        ensures
            r == SetupLocationKind::Local,
    {
        SetupLocationKind::Local
    }
}

/// Where a repository is: a local (or mounted) location, given by its URI,
/// or a remote one reached over ssh, given by its URL.
#[derive(Debug, Clone)]
pub enum SetupRepoLocation {
    Local(String),
    Remote(String),
}

/// Why a location could not be taken.
#[derive(Debug, Clone, PartialEq, Eq)]
pub enum LocationError {
    /// Neither a URL nor borg's `host:path` syntax.
    IncompleteSyntax,
    /// The URL has no path.
    MissingPath,
    /// The URL could not be parsed; the parser's message.
    Invalid(String),
}

impl LocationError {
    /// The message to show, before translation.
    pub fn message(&self) -> (m: String)
        ensures
            m@ == match self {
                LocationError::IncompleteSyntax => "Incomplete URL or borg syntax"@,
                LocationError::MissingPath => "The remote location must have a specified path."@,
                LocationError::Invalid(e) => "Invalid remote location: “"@ + e@ + "”"@,
            },
    {
        match self {
            LocationError::IncompleteSyntax => String::from_str("Incomplete URL or borg syntax"),
            LocationError::MissingPath => String::from_str(
                "The remote location must have a specified path.",
            ),
            LocationError::Invalid(e) => String::from_str("Invalid remote location: “").concat(
                e.as_str(),
            ).concat("”"),
        }
    }
}

/// The parts of a parsed URI that decide what kind of location it is.
pub struct UriParts {
    pub scheme: String,
    pub path: String,
}

/// The URL that an entered location stands for: a URL as it is, and borg's
/// `host:path` syntax as an `ssh://` URL, with a path relative to the
/// login directory for a relative path; `None` where there is neither.
pub open spec fn borg_url(input: Seq<char>) -> Option<Seq<char>> {
    if contains_seq(input, "://"@) {
        Some(input)
    } else {
        match input.index_of_first(':') {
            None => None,
            Some(k) => {
                let target = input.take(k);
                let path = input.skip(k + 1);
                let url_path = if path.len() > 0 && path[0] == '~' {
                    "/"@ + path
                } else if !(path.len() > 0 && path[0] == '/') {
                    "/./"@ + path
                } else {
                    path
                };
                Some("ssh://"@ + target + url_path)
            },
        }
    }
}

/// The index of the first `:` in `v`.
fn first_colon(v: &Vec<char>) -> (r: Option<usize>)
    ensures
        match v@.index_of_first(':') {
            Some(k) => r == Some(k as usize) && 0 <= k < v@.len(),
            None => r is None,
        },
{
    let mut i: usize = 0;
    while i < v.len()
        invariant
            i <= v@.len(),
            forall|j: int| 0 <= j < i ==> v@[j] != ':',
        decreases v.len() - i,
    {
        if v[i] == ':' {
            proof {
                v@.index_of_first_ensures(':');
            }
            assert(v@.contains(':'));
            return Some(i);
        }
        i = i + 1;
    }
    proof {
        v@.index_of_first_ensures(':');
    }
    assert(!v@.contains(':'));
    None
}

impl SetupRepoLocation {
    /// Takes borg URIs and canonicalizes them to the `ssh://` syntax.
    /// All other URIs are taken verbatim.
    pub fn borg_url(input: String) -> (r: Result<String, LocationError>)
        ensures
            match borg_url(input@) {
                Some(url) => r matches Ok(u) && u@ == url,
                None => r == Err::<String, LocationError>(LocationError::IncompleteSyntax),
            },
    {
        let v = chars_of(input.as_str());
        let n = v.len();
        if contains(&v, &chars_of("://")) {
            return Ok(input);
        }
        match first_colon(&v) {
            None => Err(LocationError::IncompleteSyntax),
            Some(k) => {
                let s = input.as_str();
                proof {
                    v@.index_of_first_ensures(':');
                }
                assert(s@ == v@);
                let target = s.substring_char(0, k);
                let path = s.substring_char(k + 1, n);
                assert(target@ =~= input@.take(k as int));
                assert(path@ =~= input@.skip(k + 1));
                let mut url = String::from_str("ssh://");
                url.append(target);
                if k + 1 < n && v[k + 1] == '~' {
                    url.append("/");
                } else if !(k + 1 < n && v[k + 1] == '/') {
                    url.append("/./");
                }
                url.append(path);
                Ok(url)
            },
        }
    }

    /// The location that a parsed URL stands for, given the URL and what its
    /// parsing gave: the scheme and path, or the parser's message.
    pub fn from_parsed_uri(url: String, parsed: Result<UriParts, String>) -> (r: Result<
        SetupRepoLocation,
        LocationError,
    >)
        ensures
            match parsed {
                Err(m) => r == Err::<SetupRepoLocation, LocationError>(LocationError::Invalid(m)),
                Ok(p) => if p.path@.len() == 0 {
                    r == Err::<SetupRepoLocation, LocationError>(LocationError::MissingPath)
                } else if p.scheme@ == "ssh"@ {
                    r == Ok::<SetupRepoLocation, LocationError>(SetupRepoLocation::Remote(url))
                } else {
                    r == Ok::<SetupRepoLocation, LocationError>(SetupRepoLocation::Local(url))
                },
            },
    {
        match parsed {
            Err(m) => Err(LocationError::Invalid(m)),
            Ok(p) => {
                if p.path.as_str().is_empty() {
                    Err(LocationError::MissingPath)
                } else if p.scheme == String::from_str("ssh") {
                    Ok(SetupRepoLocation::Remote(url))
                } else {
                    Ok(SetupRepoLocation::Local(url))
                }
            },
        }
    }

    /// The location as text: the URI of a local location, the URL of a
    /// remote one.
    pub fn to_string(&self) -> (s: String)
        ensures
            s@ == match self {
                SetupRepoLocation::Local(uri) => uri@,
                SetupRepoLocation::Remote(uri) => uri@,
            },
    {
        match self {
            SetupRepoLocation::Local(uri) => uri.clone(),
            SetupRepoLocation::Remote(uri) => uri.clone(),
        }
    }
}

/// The URL that a location stands for holds `://`, so taking it as an
/// entered location again gives it back unchanged.
pub proof fn lemma_borg_url_idempotent(input: Seq<char>)
    requires
        borg_url(input) is Some,
    ensures
        contains_seq(borg_url(input)->0, "://"@),
        borg_url(borg_url(input)->0) == borg_url(input),
{
    reveal_strlit("://");
    reveal_strlit("ssh://");
    let u = borg_url(input)->0;
    if !contains_seq(input, "://"@) {
        assert(u.subrange(3, 6) =~= "://"@);
        assert(contains_at(u, "://"@, 3));
    }
}

/// Extra command line arguments for borg.
#[derive(Debug, Clone)]
pub struct SetupCommandLineArgs(Vec<String>);

impl SetupCommandLineArgs {
    pub closed spec fn args(self) -> Seq<String> {
        self.0@
    }

    /// No extra arguments.
    pub fn none() -> (r: Self)
        ensures
            r.args().len() == 0,
    {
        Self(Vec::new())
    }

    pub fn new(args: Vec<String>) -> (r: Self)
        ensures
            r.args() == args@,
    {
        Self(args)
    }

    pub fn into_inner(self) -> (r: Vec<String>)
        ensures
            r@ == self.args(),
    {
        self.0
    }
}

impl Default for SetupCommandLineArgs {
    fn default() -> (r: Self)
        ensures
            r.args().len() == 0,
    {
        Self(Vec::new())
    }
}

/// The URL that an entered location stands for: a URL, holding `://`, is
/// taken as it is; without `://` and without a colon there is none; and
/// borg's `host:path` syntax, split at the first colon, becomes `ssh://`,
/// the host and the path, with `/` put before a path that starts with `~`,
/// `/./` before a relative one, and nothing before an absolute one, so that
/// the URL's path always starts with `/`.
pub proof fn lemma_borg_url_forms(input: Seq<char>, k: int)
    ensures
        contains_seq(input, "://"@) ==> borg_url(input) == Some(input),
        (!contains_seq(input, "://"@) && !input.contains(':')) ==> (borg_url(input) is None),
        (!contains_seq(input, "://"@) && 0 <= k < input.len() && input[k] == ':' && !input.take(
            k,
        ).contains(':')) ==> ({
            let host = input.take(k);
            let path = input.skip(k + 1);
            &&& borg_url(input) matches Some(u)
            &&& (path.len() > 0 && path[0] == '/') ==> u == "ssh://"@ + host + path
            &&& (path.len() > 0 && path[0] == '~') ==> u == "ssh://"@ + host + "/"@ + path
            &&& !(path.len() > 0 && (path[0] == '/' || path[0] == '~')) ==> u == "ssh://"@ + host
                + "/./"@ + path
            &&& u.len() > 6 + k && u[6 + k] == '/'
        }),
{
    reveal_strlit("ssh://");
    reveal_strlit("/");
    reveal_strlit("/./");
    input.index_of_first_ensures(':');
    if !contains_seq(input, "://"@) && 0 <= k < input.len() && input[k] == ':' && !input.take(
        k,
    ).contains(':') {
        assert(input.contains(':'));
        let i = input.index_of_first(':')->0;
        if i < k {
            assert(input.take(k)[i] == ':');
        }
        assert(i == k);
        let host = input.take(k);
        let path = input.skip(k + 1);
        let u = borg_url(input)->0;
        if path.len() > 0 && path[0] == '~' {
            assert(u == "ssh://"@ + host + ("/"@ + path));
            assert(("ssh://"@ + host + ("/"@ + path)) =~= "ssh://"@ + host + "/"@ + path);
            assert(u[6 + k] == '/');
        } else if !(path.len() > 0 && path[0] == '/') {
            assert(u == "ssh://"@ + host + ("/./"@ + path));
            assert(("ssh://"@ + host + ("/./"@ + path)) =~= "ssh://"@ + host + "/./"@ + path);
            assert(u[6 + k] == '/');
        } else {
            assert(u[6 + k] == path[0]);
        }
    }
}

} // verus!
