//! Small text utilities over the characters of a string.

use vstd::prelude::*;

verus! {

broadcast use vstd::string::group_string_axioms;

/// The characters of `s`, in order.
pub fn chars_of(s: &str) -> (v: Vec<char>)
    ensures
        v@ == s@,
{
    let mut v: Vec<char> = Vec::new();
    for c in it: s.chars()
        invariant
            v@ == it.seq().take(it.index()),
    {
        v.push(c);
    }
    assert(v@ =~= s@);
    v
}

/// Unicode's `White_Space` property, which `char::is_whitespace` tests.
pub open spec fn is_white_space(c: char) -> bool {
    let n = c as u32;
    ||| 0x9 <= n <= 0xd
    ||| n == 0x20
    ||| n == 0x85
    ||| n == 0xa0
    ||| n == 0x1680
    ||| 0x2000 <= n <= 0x200a
    ||| n == 0x2028
    ||| n == 0x2029
    ||| n == 0x202f
    ||| n == 0x205f
    ||| n == 0x3000
}

/// Whether `c` is white space.
pub fn white_space(c: char) -> (b: bool)
    ensures
        b == is_white_space(c),
{
    let n = c as u32;
    (0x9 <= n && n <= 0xd) || n == 0x20 || n == 0x85 || n == 0xa0 || n == 0x1680 || (0x2000 <= n
        && n <= 0x200a) || n == 0x2028 || n == 0x2029 || n == 0x202f || n == 0x205f || n == 0x3000
}

/// The pieces of `s` between occurrences of `sep`, as `str::split` gives
/// them: always at least one, possibly empty.
pub open spec fn split_on(s: Seq<char>, sep: char) -> Seq<Seq<char>>
    decreases s.len(),
{
    if s.len() == 0 {
        seq![Seq::<char>::empty()]
    } else {
        let p = split_on(s.drop_last(), sep);
        if s.last() == sep {
            p.push(Seq::empty())
        } else {
            p.update(p.len() - 1, p.last().push(s.last()))
        }
    }
}

/// A line without the carriage return that ends it, if any.
pub open spec fn strip_cr(line: Seq<char>) -> Seq<char> {
    if line.len() > 0 && line.last() == '\r' {
        line.drop_last()
    } else {
        line
    }
}

/// The lines of `s`, as `str::lines` gives them: split at line feeds, the
/// carriage return before a line feed dropped, and no empty last line after
/// a final line feed.
pub open spec fn text_lines(s: Seq<char>) -> Seq<Seq<char>> {
    let p = split_on(s, '\n');
    let ended = p.drop_last().map_values(|l: Seq<char>| strip_cr(l));
    if p.last().len() == 0 {
        ended
    } else {
        ended.push(p.last())
    }
}

/// The maximal runs of characters that are not white space, as
/// `str::split_whitespace` gives them.
pub open spec fn words(s: Seq<char>) -> Seq<Seq<char>>
    decreases s.len(),
{
    if s.len() == 0 {
        seq![]
    } else {
        let w = words(s.drop_last());
        let c = s.last();
        if is_white_space(c) {
            w
        } else if s.len() >= 2 && !is_white_space(s[s.len() - 2]) {
            w.update(w.len() - 1, w.last().push(c))
        } else {
            w.push(seq![c])
        }
    }
}

pub proof fn lemma_words_nonempty(s: Seq<char>)
    requires
        s.len() > 0,
        !is_white_space(s.last()),
    ensures
        words(s).len() >= 1,
    decreases s.len(),
{
    if s.len() >= 2 && !is_white_space(s[s.len() - 2]) {
        assert(s.drop_last().last() == s[s.len() - 2]);
        lemma_words_nonempty(s.drop_last());
    }
}

/// The bounds, in `v`, of the first `max` words of `v[from..to]`.
pub fn first_words(v: &Vec<char>, from: usize, to: usize, max: usize) -> (r: Vec<(usize, usize)>)
    requires
        from <= to <= v@.len(),
    ensures
        r@.len() == if words(v@.subrange(from as int, to as int)).len() < max {
            words(v@.subrange(from as int, to as int)).len()
        } else {
            max as nat
        },
        forall|j: int|
            0 <= j < r@.len() ==> {
                &&& from <= (#[trigger] r@[j]).0 <= r@[j].1 <= to
                &&& v@.subrange(r@[j].0 as int, r@[j].1 as int) == words(
                    v@.subrange(from as int, to as int),
                )[j]
            },
{
    let mut r: Vec<(usize, usize)> = Vec::new();
    let mut count: usize = 0;
    let mut k: usize = from;
    while k < to
        invariant
            from <= k <= to <= v@.len(),
            count == words(v@.subrange(from as int, k as int)).len(),
            count <= k - from,
            r@.len() == if count < max {
                count
            } else {
                max
            },
            forall|j: int|
                0 <= j < r@.len() ==> {
                    &&& from <= (#[trigger] r@[j]).0 <= r@[j].1 <= k
                    &&& v@.subrange(r@[j].0 as int, r@[j].1 as int) == words(
                        v@.subrange(from as int, k as int),
                    )[j]
                },
            count > 0 && count <= max && k > from && !is_white_space(v@[k - 1]) ==> r@[count
                - 1].1 == k,
        decreases to - k,
    {
        let ghost t = v@.subrange(from as int, k as int);
        let ghost t1 = v@.subrange(from as int, k + 1);
        assert(t1.drop_last() =~= t);
        assert(t1.last() == v@[k as int]);
        let c = v[k];
        let ghost w = words(t);
        if white_space(c) {
        } else if k > from && !white_space(v[k - 1]) {
            assert(t1[t1.len() - 2] == v@[k - 1]);
            assert(t.last() == v@[k - 1]);
            proof {
                lemma_words_nonempty(t);
            }
            assert(words(t1) == w.update(w.len() - 1, w.last().push(c)));
            if count <= max {
                let last = r[count - 1];
                assert(v@.subrange(last.0 as int, k + 1) =~= v@.subrange(
                    last.0 as int,
                    k as int,
                ).push(c));
                r.set(count - 1, (last.0, k + 1));
            }
        } else {
            assert(t1.len() >= 2 ==> t1[t1.len() - 2] == v@[k - 1]);
            assert(words(t1) == w.push(seq![c]));
            if count < max {
                assert(v@.subrange(k as int, k + 1) =~= seq![c]);
                r.push((k, k + 1));
            }
            count = count + 1;
        }
        k = k + 1;
    }
    r
}

pub open spec fn contains_at(s: Seq<char>, pattern: Seq<char>, i: int) -> bool {
    0 <= i && i + pattern.len() <= s.len() && s.subrange(i, i + pattern.len()) == pattern
}

/// `pattern` occurs in `s`.
pub open spec fn contains_seq(s: Seq<char>, pattern: Seq<char>) -> bool {
    exists|i: int| contains_at(s, pattern, i)
}

/// Whether `pattern` occurs in `s`.
pub fn contains(s: &Vec<char>, pattern: &Vec<char>) -> (b: bool)
    ensures
        b == contains_seq(s@, pattern@),
{
    let n = s.len();
    let mut i: usize = 0;
    while pattern.len() <= n - i
        invariant
            n == s@.len(),
            i <= s@.len(),
            forall|j: int| 0 <= j < i ==> !contains_at(s@, pattern@, j),
        decreases n - i,
    {
        let mut k: usize = 0;
        let mut same = true;
        while k < pattern.len()
            invariant
                n == s@.len(),
                i <= s@.len(),
                pattern@.len() <= s@.len() - i,
                k <= pattern@.len(),
                same == forall|m: int| 0 <= m < k ==> s@[i + m] == pattern@[m],
            decreases pattern.len() - k,
        {
            if s[i + k] != pattern[k] {
                same = false;
            }
            k = k + 1;
        }
        if same {
            assert(s@.subrange(i as int, i + pattern@.len()) =~= pattern@);
            assert(contains_at(s@, pattern@, i as int));
            return true;
        }
        assert(!(s@.subrange(i as int, i + pattern@.len()) =~= pattern@)) by {
            let m = choose|m: int| 0 <= m < pattern@.len() && s@[i + m] != pattern@[m];
            assert(s@.subrange(i as int, i + pattern@.len())[m] != pattern@[m]);
        }
        i = i + 1;
    }
    assert forall|j: int| !contains_at(s@, pattern@, j) by {}
    false
}

/// Each word is a non-empty run of characters none of which is white space.
pub proof fn lemma_words_are_runs(s: Seq<char>)
    ensures
        forall|i: int|
            0 <= i < words(s).len() ==> (#[trigger] words(s)[i]).len() > 0 && forall|j: int|
                0 <= j < words(s)[i].len() ==> !is_white_space(#[trigger] words(s)[i][j]),
    decreases s.len(),
{
    if s.len() > 0 {
        let t = s.drop_last();
        lemma_words_are_runs(t);
        let w = words(t);
        let c = s.last();
        if is_white_space(c) {
        } else if s.len() >= 2 && !is_white_space(s[s.len() - 2]) {
            assert(t.last() == s[s.len() - 2]);
            lemma_words_nonempty(t);
            let last = w.last().push(c);
            assert forall|i: int| 0 <= i < words(s).len() implies (#[trigger] words(s)[i]).len()
                > 0 && forall|j: int|
                0 <= j < words(s)[i].len() ==> !is_white_space(#[trigger] words(s)[i][j]) by {
                if i == w.len() - 1 {
                    assert(words(s)[i] == last);
                    assert forall|j: int| 0 <= j < last.len() implies !is_white_space(
                        #[trigger] last[j],
                    ) by {
                        if j < last.len() - 1 {
                            assert(last[j] == w[w.len() - 1][j]);
                        }
                    }
                } else {
                    assert(words(s)[i] == w[i]);
                }
            }
        } else {
            assert forall|i: int| 0 <= i < words(s).len() implies (#[trigger] words(s)[i]).len()
                > 0 && forall|j: int|
                0 <= j < words(s)[i].len() ==> !is_white_space(#[trigger] words(s)[i][j]) by {
                if i == w.len() {
                    assert(words(s)[i] == seq![c]);
                } else {
                    assert(words(s)[i] == w[i]);
                }
            }
        }
    }
}

/// Splitting gives at least one piece, and no piece holds the separator.
pub proof fn lemma_split_pieces_lack_separator(s: Seq<char>, sep: char)
    ensures
        split_on(s, sep).len() >= 1,
        forall|i: int, j: int|
            0 <= i < split_on(s, sep).len() && 0 <= j < split_on(s, sep)[i].len() ==> #[trigger] split_on(
                s,
                sep,
            )[i][j] != sep,
    decreases s.len(),
{
    if s.len() > 0 {
        let t = s.drop_last();
        lemma_split_pieces_lack_separator(t, sep);
        let p = split_on(t, sep);
        let c = s.last();
        if c == sep {
            assert forall|i: int, j: int|
                0 <= i < split_on(s, sep).len() && 0 <= j < split_on(s, sep)[i].len() implies #[trigger] split_on(
                s,
                sep,
            )[i][j] != sep by {
                if i < p.len() {
                    assert(split_on(s, sep)[i] == p[i]);
                }
            }
        } else {
            let last = p.last().push(c);
            assert forall|i: int, j: int|
                0 <= i < split_on(s, sep).len() && 0 <= j < split_on(s, sep)[i].len() implies #[trigger] split_on(
                s,
                sep,
            )[i][j] != sep by {
                if i == p.len() - 1 {
                    assert(split_on(s, sep)[i] == last);
                    if j < last.len() - 1 {
                        assert(last[j] == p[p.len() - 1][j]);
                    }
                } else {
                    assert(split_on(s, sep)[i] == p[i]);
                }
            }
        }
    }
}

} // verus!
