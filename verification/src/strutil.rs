//! Small verified string helpers shared by the catalog, the cache manager and
//! the capability advisor: equality, substring search, prefix/suffix tests and
//! decimal rendering of integers.

use vstd::prelude::*;

verus! {

/// Relies on `String::push`: appends exactly one character to the string.
#[verifier::external_body]
pub(crate) fn push_char(s: &mut String, c: char)
    ensures
        final(s)@ == old(s)@.push(c),
{
    s.push(c);
}

/// The decimal digit character for `d` (`0 <= d <= 9`).
pub open spec fn digit_char(d: int) -> char
    recommends
        0 <= d <= 9,
{
    if d == 0 {
        '0'
    } else if d == 1 {
        '1'
    } else if d == 2 {
        '2'
    } else if d == 3 {
        '3'
    } else if d == 4 {
        '4'
    } else if d == 5 {
        '5'
    } else if d == 6 {
        '6'
    } else if d == 7 {
        '7'
    } else if d == 8 {
        '8'
    } else {
        '9'
    }
}

/// Decimal rendering of a natural number, most significant digit first,
/// without leading zeros (except for the number zero itself).
pub open spec fn spec_dec_digits(n: nat) -> Seq<char>
    decreases n,
{
    if n < 10 {
        seq![digit_char(n as int)]
    } else {
        spec_dec_digits(n / 10).push(digit_char((n % 10) as int))
    }
}

pub(crate) fn digit_to_char(d: u64) -> (c: char)
    requires
        d <= 9,
    ensures
        c == digit_char(d as int),
{
    if d == 0 {
        '0'
    } else if d == 1 {
        '1'
    } else if d == 2 {
        '2'
    } else if d == 3 {
        '3'
    } else if d == 4 {
        '4'
    } else if d == 5 {
        '5'
    } else if d == 6 {
        '6'
    } else if d == 7 {
        '7'
    } else if d == 8 {
        '8'
    } else {
        '9'
    }
}

/// Renders `n` in decimal, without leading zeros.
pub fn u64_to_string(n: u64) -> (r: String)
    ensures
        r@ == spec_dec_digits(n as nat),
    decreases n,
{
    if n < 10 {
        let mut s = String::new();
        push_char(&mut s, digit_to_char(n));
        assert(s@ =~= spec_dec_digits(n as nat));
        s
    } else {
        let mut s = u64_to_string(n / 10);
        push_char(&mut s, digit_to_char(n % 10));
        s
    }
}

/// Character-wise equality of two string slices.
pub fn str_eq(a: &str, b: &str) -> (r: bool)
    ensures
        r == (a@ == b@),
{
    let alen = a.unicode_len();
    let blen = b.unicode_len();
    if alen != blen {
        return false;
    }
    for i in 0..alen
        invariant
            alen == a@.len(),
            alen == b@.len(),
            forall|j: int| 0 <= j < i ==> a@[j] == b@[j],
    {
        if a.get_char(i) != b.get_char(i) {
            return false;
        }
    }
    proof {
        assert(a@ =~= b@);
    }
    true
}

/// Whether `sub` occurs at position `i` of `s`.
pub open spec fn spec_matches_at(s: Seq<char>, sub: Seq<char>, i: int) -> bool {
    0 <= i && i + sub.len() <= s.len() && s.subrange(i, i + sub.len()) == sub
}

/// Whether `sub` occurs anywhere in `s` (the empty sequence occurs everywhere).
pub open spec fn spec_contains_sub(s: Seq<char>, sub: Seq<char>) -> bool {
    exists|i: int| spec_matches_at(s, sub, i)
}

/// Whether `s` starts with `p`.
pub open spec fn spec_starts_with(s: Seq<char>, p: Seq<char>) -> bool {
    spec_matches_at(s, p, 0)
}

/// Whether `s` ends with `p`.
pub open spec fn spec_ends_with(s: Seq<char>, p: Seq<char>) -> bool {
    p.len() <= s.len() && spec_matches_at(s, p, s.len() - p.len())
}

fn match_at(s: &str, sub: &str, i: usize, n: usize, m: usize) -> (r: bool)
    requires
        n == s@.len(),
        m == sub@.len(),
        i + m <= n,
    ensures
        r == spec_matches_at(s@, sub@, i as int),
{
    for j in 0..m
        invariant
            n == s@.len(),
            m == sub@.len(),
            i + m <= n,
            forall|k: int| 0 <= k < j ==> s@[i + k] == sub@[k],
    {
        if s.get_char(i + j) != sub.get_char(j) {
            assert(s@.subrange(i as int, i + m) != sub@) by {
                assert(s@.subrange(i as int, i + m)[j as int] == s@[i + j]);
            }
            return false;
        }
    }
    proof {
        assert(s@.subrange(i as int, i + m) =~= sub@);
    }
    true
}

/// Substring search, equivalent to `str::contains`.
pub fn str_contains(s: &str, sub: &str) -> (r: bool)
    ensures
        r == spec_contains_sub(s@, sub@),
{
    let n = s.unicode_len();
    let m = sub.unicode_len();
    if m > n {
        assert(forall|i: int| !spec_matches_at(s@, sub@, i));
        return false;
    }
    if m == 0 {
        assert(s@.subrange(0, 0) =~= sub@);
        assert(spec_matches_at(s@, sub@, 0));
        return true;
    }
    let mut i: usize = 0;
    while i <= n - m
        invariant
            1 <= m <= n,
            n == s@.len(),
            m == sub@.len(),
            i <= n - m + 1,
            forall|k: int| 0 <= k < i ==> !spec_matches_at(s@, sub@, k),
        decreases n - m - i + 1,
    {
        if match_at(s, sub, i, n, m) {
            assert(spec_matches_at(s@, sub@, i as int));
            return true;
        }
        i = i + 1;
    }
    assert(forall|k: int| !spec_matches_at(s@, sub@, k));
    false
}

/// Prefix test, equivalent to `str::starts_with`.
pub fn str_starts_with(s: &str, p: &str) -> (r: bool)
    ensures
        r == spec_starts_with(s@, p@),
{
    let n = s.unicode_len();
    let m = p.unicode_len();
    if m > n {
        return false;
    }
    match_at(s, p, 0, n, m)
}

/// The parts joined with `sep` between consecutive parts.
pub open spec fn spec_join(parts: Seq<Seq<char>>, sep: Seq<char>) -> Seq<char>
    decreases parts.len(),
{
    if parts.len() == 0 {
        Seq::empty()
    } else if parts.len() == 1 {
        parts[0]
    } else {
        parts[0] + sep + spec_join(parts.drop_first(), sep)
    }
}

/// Joining one more part appends a separator (unless nothing was joined yet)
/// and the part.
pub proof fn lemma_join_push(parts: Seq<Seq<char>>, sep: Seq<char>, x: Seq<char>)
    ensures
        spec_join(parts.push(x), sep) == (if parts.len() == 0 {
            x
        } else {
            spec_join(parts, sep) + sep + x
        }),
    decreases parts.len(),
{
    if parts.len() == 0 {
        assert(parts.push(x) =~= seq![x]);
        assert(spec_join(seq![x], sep) == seq![x][0]);
        assert(seq![x][0] == x);
    } else if parts.len() == 1 {
        assert(parts.push(x).drop_first() =~= seq![x]);
        assert(spec_join(seq![x], sep) == seq![x][0]);
        assert(parts.push(x)[0] == parts[0]);
        assert(spec_join(parts.push(x), sep) == parts[0] + sep + spec_join(seq![x], sep));
        assert(spec_join(parts, sep) == parts[0]);
    } else {
        assert(parts.push(x).drop_first() =~= parts.drop_first().push(x));
        lemma_join_push(parts.drop_first(), sep, x);
        assert(parts[0] + sep + (spec_join(parts.drop_first(), sep) + sep + x) =~= (parts[0] + sep
            + spec_join(parts.drop_first(), sep)) + sep + x);
    }
}

/// Joins owned strings with a separator.
pub fn join_strings(parts: &Vec<String>, sep: &str) -> (r: String)
    ensures
        r@ == spec_join(parts.deep_view(), sep@),
{
    let mut out = String::new();
    let n = parts.len();
    assert(parts.deep_view().take(0) =~= Seq::<Seq<char>>::empty());
    for i in 0..n
        invariant
            n == parts.len(),
            out@ == spec_join(parts.deep_view().take(i as int), sep@),
    {
        if i > 0 {
            out.append(sep);
        }
        out.append(parts[i].as_str());
        proof {
            let dv = parts.deep_view();
            assert(dv.take(i + 1) =~= dv.take(i as int).push(dv[i as int]));
            lemma_join_push(dv.take(i as int), sep@, dv[i as int]);
            assert(dv[i as int] == parts@[i as int]@);
        }
    }
    proof {
        assert(parts.deep_view().take(n as int) =~= parts.deep_view());
    }
    out
}

/// Joins string slices with a separator.
pub fn join_strs(parts: &Vec<&str>, sep: &str) -> (r: String)
    ensures
        r@ == spec_join(parts.deep_view(), sep@),
{
    let mut out = String::new();
    let n = parts.len();
    assert(parts.deep_view().take(0) =~= Seq::<Seq<char>>::empty());
    for i in 0..n
        invariant
            n == parts.len(),
            out@ == spec_join(parts.deep_view().take(i as int), sep@),
    {
        if i > 0 {
            out.append(sep);
        }
        out.append(parts[i]);
        proof {
            let dv = parts.deep_view();
            assert(dv.take(i + 1) =~= dv.take(i as int).push(dv[i as int]));
            lemma_join_push(dv.take(i as int), sep@, dv[i as int]);
            assert(dv[i as int] == parts@[i as int]@);
        }
    }
    proof {
        assert(parts.deep_view().take(n as int) =~= parts.deep_view());
    }
    out
}

/// Suffix test, equivalent to `str::ends_with`.
pub fn str_ends_with(s: &str, p: &str) -> (r: bool)
    ensures
        r == spec_ends_with(s@, p@),
{
    let n = s.unicode_len();
    let m = p.unicode_len();
    if m > n {
        return false;
    }
    match_at(s, p, n - m, n, m)
}

/// ASCII whitespace, as it separates the fields of the lines the library
/// parses.
pub open spec fn spec_is_ws(c: char) -> bool {
    c == ' ' || c == '\t' || c == '\n' || c == '\r'
}

/// Whitespace test matching [`spec_is_ws`].
pub fn char_is_ws(c: char) -> (r: bool)
    ensures
        r == spec_is_ws(c),
{
    c == ' ' || c == '\t' || c == '\n' || c == '\r'
}

/// Length of the leading run of non-whitespace characters.
pub open spec fn spec_leading_token_len(s: Seq<char>) -> nat
    decreases s.len(),
{
    if s.len() == 0 || spec_is_ws(s[0]) {
        0
    } else {
        1 + spec_leading_token_len(s.drop_first())
    }
}

/// The leading token never reaches past the end.
pub proof fn lemma_leading_token_len_le(s: Seq<char>)
    ensures
        spec_leading_token_len(s) <= s.len(),
    decreases s.len(),
{
    if s.len() == 0 || spec_is_ws(s[0]) {
    } else {
        lemma_leading_token_len_le(s.drop_first());
    }
}

/// The leading token length is exactly the position of the first whitespace
/// character (or the whole length if there is none).
pub proof fn lemma_leading_token_len_is(s: Seq<char>, t: int)
    requires
        0 <= t <= s.len(),
        forall|j: int| 0 <= j < t ==> !spec_is_ws(#[trigger] s[j]),
        t == s.len() || spec_is_ws(s[t]),
    ensures
        spec_leading_token_len(s) == t,
    decreases t,
{
    if t == 0 {
    } else {
        assert(!spec_is_ws(s[0]));
        lemma_leading_token_len_is(s.drop_first(), t - 1);
    }
}

/// The whitespace-separated tokens of `s`, in order, equivalent to
/// `str::split_whitespace` over ASCII whitespace.
pub open spec fn spec_split_ws(s: Seq<char>) -> Seq<Seq<char>>
    decreases s.len(),
    via spec_split_ws_decreases
{
    if s.len() == 0 {
        Seq::empty()
    } else if spec_is_ws(s[0]) {
        spec_split_ws(s.drop_first())
    } else {
        let t = spec_leading_token_len(s) as int;
        seq![s.take(t)] + spec_split_ws(s.skip(t))
    }
}

#[via_fn]
proof fn spec_split_ws_decreases(s: Seq<char>) {
    if s.len() > 0 && !spec_is_ws(s[0]) {
        lemma_leading_token_len_le(s);
    }
}

/// Splits `s` into its whitespace-separated tokens.
pub fn split_whitespace_vec(s: &str) -> (r: Vec<String>)
    ensures
        r.deep_view() == spec_split_ws(s@),
{
    let n = s.unicode_len();
    let mut out: Vec<String> = Vec::new();
    let mut i: usize = 0;
    assert(out.deep_view() =~= Seq::<Seq<char>>::empty());
    proof {
        assert(s@.skip(0) =~= s@);
        assert(Seq::<Seq<char>>::empty() + spec_split_ws(s@) =~= spec_split_ws(s@));
    }
    while i < n
        invariant
            n == s@.len(),
            i <= n,
            spec_split_ws(s@) == out.deep_view() + spec_split_ws(s@.skip(i as int)),
        decreases n - i,
    {
        let c = s.get_char(i);
        if char_is_ws(c) {
            proof {
                assert(s@.skip(i as int).drop_first() =~= s@.skip(i + 1));
            }
            i = i + 1;
        } else {
            let mut j = i + 1;
            while j < n && !char_is_ws(s.get_char(j))
                invariant
                    n == s@.len(),
                    i < j <= n,
                    forall|k: int| i <= k < j ==> !spec_is_ws(#[trigger] s@[k]),
                decreases n - j,
            {
                j = j + 1;
            }
            let tok = s.substring_char(i, j);
            let ghost old_out = out.deep_view();
            out.push(tok.to_owned());
            proof {
                let rest = s@.skip(i as int);
                assert forall|k: int| 0 <= k < j - i implies !spec_is_ws(#[trigger] rest[k]) by {
                    assert(rest[k] == s@[i + k]);
                }
                if j < n {
                    assert(spec_is_ws(rest[j - i]));
                }
                lemma_leading_token_len_is(rest, j - i);
                assert(rest.take(j - i) =~= s@.subrange(i as int, j as int));
                assert(rest.skip(j - i) =~= s@.skip(j as int));
                assert(spec_split_ws(rest) == seq![rest.take(j - i)] + spec_split_ws(
                    rest.skip(j - i),
                ));
                assert(out.deep_view() =~= old_out.push(tok@));
                assert(out.deep_view() + spec_split_ws(s@.skip(j as int)) =~= old_out + (seq![
                    rest.take(j - i),
                ] + spec_split_ws(rest.skip(j - i))));
            }
            i = j;
        }
    }
    proof {
        assert(s@.skip(n as int) =~= Seq::<char>::empty());
        assert(out.deep_view() + spec_split_ws(Seq::<char>::empty()) =~= out.deep_view());
    }
    out
}

/// Length of the leading run of characters before a line feed.
pub open spec fn spec_leading_line_len(s: Seq<char>) -> nat
    decreases s.len(),
{
    if s.len() == 0 || s[0] == '\n' {
        0
    } else {
        1 + spec_leading_line_len(s.drop_first())
    }
}

/// The leading line never reaches past the end.
pub proof fn lemma_leading_line_len_le(s: Seq<char>)
    ensures
        spec_leading_line_len(s) <= s.len(),
    decreases s.len(),
{
    if s.len() == 0 || s[0] == '\n' {
    } else {
        lemma_leading_line_len_le(s.drop_first());
    }
}

/// The leading line length is exactly the position of the first line feed
/// (or the whole length if there is none).
pub proof fn lemma_leading_line_len_is(s: Seq<char>, t: int)
    requires
        0 <= t <= s.len(),
        forall|j: int| 0 <= j < t ==> #[trigger] s[j] != '\n',
        t == s.len() || s[t] == '\n',
    ensures
        spec_leading_line_len(s) == t,
    decreases t,
{
    if t == 0 {
    } else {
        assert(s[0] != '\n');
        lemma_leading_line_len_is(s.drop_first(), t - 1);
    }
}

/// A line with a trailing carriage return loses it.
pub open spec fn spec_strip_cr(t: Seq<char>) -> Seq<char> {
    if t.len() > 0 && t.last() == '\r' {
        t.drop_last()
    } else {
        t
    }
}

/// The lines of `s`, equivalent to `str::lines`: split at line feeds, each
/// line stripped of a trailing carriage return, with no empty line after a
/// final line feed.
pub open spec fn spec_lines(s: Seq<char>) -> Seq<Seq<char>>
    decreases s.len(),
    via spec_lines_decreases
{
    if s.len() == 0 {
        Seq::empty()
    } else {
        let k = spec_leading_line_len(s) as int;
        if k == s.len() {
            seq![spec_strip_cr(s)]
        } else {
            seq![spec_strip_cr(s.take(k))] + spec_lines(s.skip(k + 1))
        }
    }
}

#[via_fn]
proof fn spec_lines_decreases(s: Seq<char>) {
    if s.len() > 0 {
        lemma_leading_line_len_le(s);
    }
}

/// Splits `s` into its lines.
pub fn split_lines_vec(s: &str) -> (r: Vec<String>)
    ensures
        r.deep_view() == spec_lines(s@),
{
    let n = s.unicode_len();
    let mut out: Vec<String> = Vec::new();
    let mut i: usize = 0;
    assert(out.deep_view() =~= Seq::<Seq<char>>::empty());
    proof {
        assert(s@.skip(0) =~= s@);
        assert(Seq::<Seq<char>>::empty() + spec_lines(s@) =~= spec_lines(s@));
    }
    while i < n
        invariant
            n == s@.len(),
            i <= n,
            spec_lines(s@) == out.deep_view() + spec_lines(s@.skip(i as int)),
        decreases n - i,
    {
        let mut j = i;
        while j < n && s.get_char(j) != '\n'
            invariant
                n == s@.len(),
                i <= j <= n,
                forall|k: int| i <= k < j ==> #[trigger] s@[k] != '\n',
            decreases n - j,
        {
            j = j + 1;
        }
        let line_end = if j > i && s.get_char(j - 1) == '\r' {
            j - 1
        } else {
            j
        };
        let line = s.substring_char(i, line_end);
        let ghost old_out = out.deep_view();
        out.push(line.to_owned());
        proof {
            let rest = s@.skip(i as int);
            assert forall|k: int| 0 <= k < j - i implies #[trigger] rest[k] != '\n' by {
                assert(rest[k] == s@[i + k]);
            }
            if j < n {
                assert(rest[j - i] == '\n');
            }
            lemma_leading_line_len_is(rest, j - i);
            assert(rest.take(j - i) =~= s@.subrange(i as int, j as int));
            assert(spec_strip_cr(rest.take(j - i)) =~= s@.subrange(i as int, line_end as int));
            assert(line@ == spec_strip_cr(rest.take(j - i)));
            assert(out.deep_view() =~= old_out.push(line@));
            if j < n {
                assert(rest.skip(j - i + 1) =~= s@.skip(j + 1));
                assert(spec_lines(rest) == seq![spec_strip_cr(rest.take(j - i))] + spec_lines(
                    rest.skip(j - i + 1),
                ));
                assert(out.deep_view() + spec_lines(s@.skip(j + 1)) =~= old_out + (seq![
                    spec_strip_cr(rest.take(j - i)),
                ] + spec_lines(rest.skip(j - i + 1))));
            } else {
                assert(rest.take(j - i) =~= rest);
                assert(spec_lines(rest) == seq![spec_strip_cr(rest)]);
                assert(s@.skip(n as int) =~= Seq::<char>::empty());
                assert(out.deep_view() + spec_lines(Seq::<char>::empty()) =~= old_out + seq![
                    spec_strip_cr(rest),
                ]);
            }
        }
        if j < n {
            i = j + 1;
        } else {
            i = n;
        }
    }
    proof {
        assert(s@.skip(n as int) =~= Seq::<char>::empty());
        assert(out.deep_view() + spec_lines(Seq::<char>::empty()) =~= out.deep_view());
    }
    out
}

} // verus!
