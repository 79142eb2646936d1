//! Disk space information

use vstd::prelude::*;

use crate::text::{
    chars_of, first_words, split_on, strip_cr, text_lines, words,
};

verus! {

/// The integer parsing error of std, carried through unchanged.
#[verifier::external_type_specification]
#[verifier::external_body]
pub struct ExParseIntError(std::num::ParseIntError);

/// Space on a repository's file system, in bytes.
#[derive(Clone, Copy, Debug, PartialEq, Eq)]
pub struct Space {
    pub size: u64,
    pub used: u64,
    pub avail: u64,
}

/// The url crate's parsing error, carried through unchanged.
#[verifier::external_type_specification]
#[verifier::external_body]
pub struct ExUrlParseError(url::ParseError);

/// What went wrong while finding out the space of a repository.
#[derive(Debug)]
pub enum Error {
    Url(url::ParseError),
    ParseInt(std::num::ParseIntError),
    Other(String),
}

pub open spec fn is_ascii_digit(c: char) -> bool {
    '0' <= c <= '9'
}

/// The number that a sequence of decimal digits writes.
pub open spec fn digits_value(s: Seq<char>) -> int
    decreases s.len(),
{
    if s.len() == 0 {
        0
    } else {
        digits_value(s.drop_last()) * 10 + (s.last() as int - '0' as int)
    }
}

/// What `u64::from_str` accepts: an optional `+` followed by one or more
/// decimal digits, whose value fits in a `u64`.
pub open spec fn parsed_u64(s: Seq<char>) -> Option<u64> {
    let digits = if s.len() > 0 && s[0] == '+' {
        s.drop_first()
    } else {
        s
    };
    if digits.len() > 0 && (forall|i: int| 0 <= i < digits.len() ==> is_ascii_digit(digits[i]))
        && digits_value(digits) <= u64::MAX {
        Some(digits_value(digits) as u64)
    } else {
        None
    }
}

/// Calls `str::parse::<u64>`. Its documentation says that it accepts an
/// optional `+` sign followed by decimal digits, and fails on anything else
/// and on a value that does not fit: which error kind comes back is not
/// stated here.
#[verifier::external_body]
fn parse_u64(text: &str) -> (r: Result<u64, std::num::ParseIntError>)
    ensures
        match r {
            Ok(n) => parsed_u64(text@) == Some(n),
            Err(_) => parsed_u64(text@) is None,
        },
{
    text.parse::<u64>()
}

/// What the output of `df`, run in an sftp session, reports: the size, used
/// and available space in the first three columns of the third line.
pub enum DfReport {
    Space(Space),
    LineMissing,
    ColumnMissing { column: int },
    NotANumber { column: int },
}

pub open spec fn df_report(out: Seq<char>) -> DfReport {
    let lines = text_lines(out);
    if lines.len() < 3 {
        DfReport::LineMissing
    } else {
        let w = words(lines[2]);
        if w.len() < 1 {
            DfReport::ColumnMissing { column: 0 }
        } else if parsed_u64(w[0]) is None {
            DfReport::NotANumber { column: 0 }
        } else if w.len() < 2 {
            DfReport::ColumnMissing { column: 1 }
        } else if parsed_u64(w[1]) is None {
            DfReport::NotANumber { column: 1 }
        } else if w.len() < 3 {
            DfReport::ColumnMissing { column: 2 }
        } else if parsed_u64(w[2]) is None {
            DfReport::NotANumber { column: 2 }
        } else {
            DfReport::Space(
                Space {
                    size: parsed_u64(w[0]).unwrap(),
                    used: parsed_u64(w[1]).unwrap(),
                    avail: parsed_u64(w[2]).unwrap(),
                },
            )
        }
    }
}

pub open spec fn column_missing_message(column: int) -> Seq<char> {
    if column == 0 {
        "First column missing."@
    } else if column == 1 {
        "Second column missing."@
    } else {
        "Third column missing."@
    }
}

/// The bounds, in `v`, of line `index` of `v` (counted from 0), if `v` has
/// such a line.
pub fn line_bounds(v: &Vec<char>, index: usize) -> (r: Option<(usize, usize)>)
    ensures
        r is Some <==> text_lines(v@).len() > index,
        r matches Some(b) ==> b.0 <= b.1 <= v@.len() && text_lines(v@)[index as int]
            == v@.subrange(b.0 as int, b.1 as int),
{
    let mut i: usize = 0;
    let mut newlines: usize = 0;
    let mut cur_start: usize = 0;
    let mut piece: (usize, usize) = (0, 0);
    proof {
        assert(v@.take(0) =~= Seq::<char>::empty());
    }
    while i < v.len()
        invariant
            i <= v@.len(),
            newlines <= i,
            cur_start <= i,
            split_on(v@.take(i as int), '\n').len() == newlines + 1,
            split_on(v@.take(i as int), '\n').last() == v@.subrange(cur_start as int, i as int),
            newlines > index ==> piece.0 <= piece.1 < i && split_on(v@.take(i as int), '\n')[index as int]
                == v@.subrange(piece.0 as int, piece.1 as int),
        decreases v@.len() - i,
    {
        let ghost p = split_on(v@.take(i as int), '\n');
        assert(v@.take(i + 1).drop_last() =~= v@.take(i as int));
        assert(v@.take(i + 1).last() == v@[i as int]);
        if v[i] == '\n' {
            assert(split_on(v@.take(i + 1), '\n') == p.push(Seq::empty()));
            if newlines == index {
                piece = (cur_start, i);
            }
            newlines = newlines + 1;
            cur_start = i + 1;
            assert(v@.subrange(cur_start as int, i + 1) =~= Seq::<char>::empty());
        } else {
            assert(split_on(v@.take(i + 1), '\n') == p.update(
                p.len() - 1,
                p.last().push(v@[i as int]),
            ));
            assert(v@.subrange(cur_start as int, i + 1) =~= v@.subrange(
                cur_start as int,
                i as int,
            ).push(v@[i as int]));
        }
        i = i + 1;
    }
    assert(v@.take(v@.len() as int) =~= v@);
    let ghost p = split_on(v@, '\n');
    if newlines > index {
        let (a, b) = piece;
        assert(text_lines(v@)[index as int] == strip_cr(p[index as int]));
        if a < b && v[b - 1] == '\r' {
            assert(v@.subrange(a as int, b - 1) =~= v@.subrange(a as int, b as int).drop_last());
            Some((a, b - 1))
        } else {
            Some((a, b))
        }
    } else if newlines == index && cur_start < v.len() {
        assert(text_lines(v@).len() == index + 1);
        Some((cur_start, v.len()))
    } else {
        None
    }
}

/// Reads the output of `df`, run in an sftp session: the size, used and
/// available space are the first three columns of its third line.
pub fn parse_df_output(out: &str) -> (r: Result<Space, Error>)
    ensures
        match df_report(out@) {
            DfReport::Space(space) => r matches Ok(s) && s == space,
            DfReport::LineMissing => r matches Err(Error::Other(m)) && m@
                == "Third line missing in output."@,
            DfReport::ColumnMissing { column } => r matches Err(Error::Other(m)) && m@
                == column_missing_message(column),
            DfReport::NotANumber { .. } => r matches Err(Error::ParseInt(_)),
        },
{
    let v = chars_of(out);
    let (from, to) = match line_bounds(&v, 2) {
        Some(b) => b,
        None => {
            return Err(Error::Other(String::from_str("Third line missing in output.")));
        },
    };
    let columns = first_words(&v, from, to, 3);
    if columns.len() < 1 {
        return Err(Error::Other(String::from_str("First column missing.")));
    }
    let size = match parse_u64(out.substring_char(columns[0].0, columns[0].1)) {
        Ok(n) => n,
        Err(e) => {
            return Err(Error::ParseInt(e));
        },
    };
    if columns.len() < 2 {
        return Err(Error::Other(String::from_str("Second column missing.")));
    }
    let used = match parse_u64(out.substring_char(columns[1].0, columns[1].1)) {
        Ok(n) => n,
        Err(e) => {
            return Err(Error::ParseInt(e));
        },
    };
    if columns.len() < 3 {
        return Err(Error::Other(String::from_str("Third column missing.")));
    }
    let avail = match parse_u64(out.substring_char(columns[2].0, columns[2].1)) {
        Ok(n) => n,
        Err(e) => {
            return Err(Error::ParseInt(e));
        },
    };
    Ok(Space { size, used, avail })
}

/// The text of the URL that `url::Url::parse` makes of `input`, if it
/// accepts it.
pub uninterp spec fn url_parsed(input: Seq<char>) -> Option<Seq<char>>;

/// The text of the URL that `url::Url::set_scheme` leaves, called with
/// `scheme` on the URL whose text is `url`.
pub uninterp spec fn url_scheme_set(url: Seq<char>, scheme: Seq<char>) -> Seq<char>;

/// The text of the URL that `url::Url::set_path` leaves, called with `path`
/// on the URL whose text is `url`.
pub uninterp spec fn url_path_set(url: Seq<char>, path: Seq<char>) -> Seq<char>;

/// Calls `url::Url::parse` and keeps the parsed URL as its text. The
/// contract names that text. It adds what the url crate checks of every URL
/// it makes (`Url::check_invariants`): the text parses back to itself.
#[verifier::external_body]
fn url_parse(input: &str) -> (r: Result<String, url::ParseError>)
    ensures
        match url_parsed(input@) {
            Some(text) => r matches Ok(s) && s@ == text,
            None => r is Err,
        },
        r matches Ok(s) ==> url_parsed(s@) == Some(s@),
{
    url::Url::parse(input).map(String::from)
}

/// Calls `url::Url::set_scheme` on the URL whose text is `url`, ignoring
/// whether the scheme could be set, as the caller does. The contract names
/// the text of the changed URL, which again parses back to itself; whether
/// the scheme changed is not stated.
#[verifier::external_body]
fn url_set_scheme(url: String, scheme: &str) -> (r: String)
    requires
        url_parsed(url@) == Some(url@),
    ensures
        r@ == url_scheme_set(url@, scheme@),
        url_parsed(r@) == Some(r@),
{
    let mut parsed = url::Url::parse(&url).unwrap();
    let _ignore = parsed.set_scheme(scheme);
    String::from(parsed)
}

/// Calls `url::Url::set_path` on the URL whose text is `url`. The contract
/// names the text of the changed URL, which again parses back to itself.
#[verifier::external_body]
fn url_set_path(url: String, path: &str) -> (r: String)
    requires
        url_parsed(url@) == Some(url@),
    ensures
        r@ == url_path_set(url@, path@),
        url_parsed(r@) == Some(r@),
{
    let mut parsed = url::Url::parse(&url).unwrap();
    parsed.set_path(path);
    String::from(parsed)
}

/// The location that sftp connects to for a remote repository: its URL
/// with the `sftp` scheme (where the URL allows it to change) and no path.
pub open spec fn sftp_location_text(server: Seq<char>) -> Option<Seq<char>> {
    match url_parsed(server) {
        Some(url) => Some(url_path_set(url_scheme_set(url, "sftp"@), ""@)),
        None => None,
    }
}

/// The location that sftp connects to for a remote repository: its URL
/// with the `sftp` scheme (where the URL allows it to change) and no path.
pub fn sftp_location(server: &str) -> (r: Result<String, Error>)
    ensures
        match sftp_location_text(server@) {
            Some(text) => r matches Ok(s) && s@ == text,
            None => r matches Err(e) && e is Url,
        },
{
    let url = match url_parse(server) {
        Ok(u) => u,
        Err(e) => {
            return Err(Error::Url(e));
        },
    };
    let url = url_set_scheme(url, "sftp");
    Ok(url_set_path(url, ""))
}

pub open spec fn spec_needs_lookup(is_local: bool, cached: Option<Space>) -> bool {
    is_local || cached is None
}

pub open spec fn spec_cached_or_lookup(
    is_local: bool,
    cached: Option<Space>,
    looked_up: Option<Space>,
) -> Option<Space> {
    if is_local {
        if looked_up is Some {
            looked_up
        } else {
            cached
        }
    } else {
        if cached is Some {
            cached
        } else {
            looked_up
        }
    }
}

/// Whether the space of a repository must be looked up: always for a local
/// repository, and for a remote one only where nothing is cached.
pub fn needs_lookup(is_local: bool, cached: &Option<Space>) -> (b: bool)
    ensures
        b == spec_needs_lookup(is_local, *cached),
{
    is_local || cached.is_none()
}

/// The space to show for a repository, given what is cached and what a
/// lookup found (`None` where none was made or it failed): a local
/// repository prefers the lookup, a remote one what is cached.
pub fn cached_or_lookup(is_local: bool, cached: Option<Space>, looked_up: Option<Space>) -> (r:
    Option<Space>)
    ensures
        r == spec_cached_or_lookup(is_local, cached, looked_up),
{
    if is_local {
        if looked_up.is_some() {
            looked_up
        } else {
            cached
        }
    } else {
        if cached.is_some() {
            cached
        } else {
            looked_up
        }
    }
}

/// A remote repository with cached space is not looked up, and shows what
/// is cached; a local one is always looked up, and shows the lookup where it
/// succeeded; a repository shows nothing only where neither the cache nor a
/// lookup gave a space.
pub proof fn lemma_space_sources(is_local: bool, cached: Option<Space>, looked_up: Option<Space>)
    ensures
        !is_local && cached is Some ==> !spec_needs_lookup(is_local, cached)
            && spec_cached_or_lookup(is_local, cached, looked_up) == cached,
        is_local ==> spec_needs_lookup(is_local, cached),
        is_local && looked_up is Some ==> spec_cached_or_lookup(is_local, cached, looked_up)
            == looked_up,
        spec_cached_or_lookup(is_local, cached, looked_up) is None <==> (cached is None
            && looked_up is None),
{
}

/// What the report of `df` output says of that output: a missing line
/// exactly where it has fewer than three lines; the space exactly where the
/// first three words of its third line are numbers, which are the size, used
/// and available space in that order; otherwise the first of those three
/// columns that is missing, where the columns before it are numbers, or the
/// first that is not a number.
pub proof fn lemma_df_report_reads_third_line(out: Seq<char>)
    ensures
        ({
            let lines = text_lines(out);
            let w = words(lines[2]);
            let r = df_report(out);
            &&& (r is LineMissing) <==> lines.len() < 3
            &&& (lines.len() >= 3 && w.len() >= 3 && parsed_u64(w[0]) is Some && parsed_u64(w[1]) is Some
                && parsed_u64(w[2]) is Some) <==> (r is Space)
            &&& r matches DfReport::Space(sp) ==> (parsed_u64(w[0]) == Some(sp.size)
                && parsed_u64(w[1]) == Some(sp.used) && parsed_u64(w[2]) == Some(sp.avail))
            &&& r matches DfReport::ColumnMissing { column } ==> (lines.len() >= 3 && 0 <= column < 3
                && w.len() == column && forall|j: int| 0 <= j < column ==> parsed_u64(#[trigger] w[j]) is Some)
            &&& r matches DfReport::NotANumber { column } ==> (lines.len() >= 3 && 0 <= column < 3
                && column < w.len() && parsed_u64(w[column]) is None && forall|j: int|
                0 <= j < column ==> parsed_u64(#[trigger] w[j]) is Some)
        }),
{
}

} // verus!
