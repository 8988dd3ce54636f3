//! Small verified helpers on strings and characters that the rest of the
//! library builds on: equality of string slices, classification of
//! characters, whitespace trimming, and decimal rendering of integers.

use vstd::prelude::*;
use vstd::string::*;

verus! {

/// Whether a character has the Unicode `White_Space` property.
pub uninterp spec fn unicode_whitespace(c: char) -> bool;

/// Whether a character is alphabetic in the Unicode sense.
pub uninterp spec fn unicode_alphabetic(c: char) -> bool;

/// Relies on char::is_whitespace: true iff the character has the Unicode
/// `White_Space` property, a function of the character alone.
#[verifier::external_body]
pub fn char_is_whitespace(c: char) -> (r: bool)
    ensures
        r == unicode_whitespace(c),
{
    c.is_whitespace()
}

/// Relies on char::is_alphabetic: true iff the character is alphabetic
/// under Unicode, a function of the character alone.
#[verifier::external_body]
pub fn char_is_alphabetic(c: char) -> (r: bool)
    ensures
        r == unicode_alphabetic(c),
{
    c.is_alphabetic()
}

/// Equality of two string slices, by characters.
pub fn str_eq(a: &str, b: &str) -> (r: bool)
    ensures
        r == (a@ == b@),
{
    let an = a.unicode_len();
    let bn = b.unicode_len();
    if an != bn {
        return false;
    }
    let mut i: usize = 0;
    while i < an
        invariant
            a@.len() == an,
            b@.len() == bn,
            an == bn,
            i <= an,
            forall|j: int| 0 <= j < i ==> a@[j] == b@[j],
        decreases an - i,
    {
        if a.get_char(i) != b.get_char(i) {
            return false;
        }
        i += 1;
    }
    proof {
        assert(a@ =~= b@);
    }
    true
}

/// The string with its leading whitespace removed.
pub open spec fn drop_leading_ws(s: Seq<char>) -> Seq<char>
    decreases s.len(),
{
    if s.len() > 0 && unicode_whitespace(s[0]) {
        drop_leading_ws(s.drop_first())
    } else {
        s
    }
}

/// The string with its trailing whitespace removed.
pub open spec fn drop_trailing_ws(s: Seq<char>) -> Seq<char>
    decreases s.len(),
{
    if s.len() > 0 && unicode_whitespace(s.last()) {
        drop_trailing_ws(s.drop_last())
    } else {
        s
    }
}

/// What `trim` returns: the string with leading and trailing whitespace
/// removed.
pub open spec fn trim_spec(s: Seq<char>) -> Seq<char> {
    drop_trailing_ws(drop_leading_ws(s))
}

proof fn lemma_drop_leading_ws_subrange(s: Seq<char>, k: int)
    requires
        0 <= k <= s.len(),
        forall|j: int| 0 <= j < k ==> unicode_whitespace(s[j]),
        k < s.len() ==> !unicode_whitespace(s[k]),
    ensures
        drop_leading_ws(s) == s.subrange(k, s.len() as int),
    decreases k,
{
    if k == 0 {
        assert(s.subrange(0, s.len() as int) =~= s);
    } else {
        assert(unicode_whitespace(s[0]));
        lemma_drop_leading_ws_subrange(s.drop_first(), k - 1);
        assert(s.drop_first().subrange(k - 1, s.drop_first().len() as int) =~= s.subrange(
            k,
            s.len() as int,
        ));
    }
}

proof fn lemma_drop_trailing_ws_subrange(s: Seq<char>, k: int)
    requires
        0 <= k <= s.len(),
        forall|j: int| k <= j < s.len() ==> unicode_whitespace(s[j]),
        k > 0 ==> !unicode_whitespace(s[k - 1]),
    ensures
        drop_trailing_ws(s) == s.subrange(0, k),
    decreases s.len() - k,
{
    if k == s.len() {
        assert(s.subrange(0, k) =~= s);
    } else {
        assert(unicode_whitespace(s.last()));
        lemma_drop_trailing_ws_subrange(s.drop_last(), k);
        assert(s.drop_last().subrange(0, k) =~= s.subrange(0, k));
    }
}

/// Leading and trailing whitespace removed, as `str::trim` does.
pub fn trim(s: &str) -> (r: &str)
    ensures
        r@ == trim_spec(s@),
{
    let n = s.unicode_len();
    let mut start: usize = 0;
    while start < n && char_is_whitespace(s.get_char(start))
        invariant
            n == s@.len(),
            start <= n,
            forall|j: int| 0 <= j < start ==> unicode_whitespace(s@[j]),
        decreases n - start,
    {
        start += 1;
    }
    proof {
        lemma_drop_leading_ws_subrange(s@, start as int);
    }
    let mut end: usize = n;
    while end > start && char_is_whitespace(s.get_char(end - 1))
        invariant
            n == s@.len(),
            start <= end <= n,
            start < s@.len() ==> !unicode_whitespace(s@[start as int]),
            forall|j: int| end <= j < n ==> unicode_whitespace(s@[j]),
        decreases end,
    {
        end -= 1;
    }
    let r = s.substring_char(start, end);
    proof {
        let lead = s@.subrange(start as int, s@.len() as int);
        lemma_drop_trailing_ws_subrange(lead, end - start);
        assert(lead.subrange(0, end - start) =~= s@.subrange(start as int, end as int));
    }
    r
}

/// The views of a sequence of strings.
pub open spec fn string_views(ss: Seq<String>) -> Seq<Seq<char>> {
    ss.map_values(|x: String| x@)
}

/// Relies on String::push: appends one character to the string.
#[verifier::external_body]
pub fn string_push(s: &mut String, c: char)
    ensures
        final(s)@ == old(s)@.push(c),
{
    s.push(c);
}

/// The character of one decimal digit.
pub open spec fn dec_digit(d: int) -> char {
    if d == 0 {
        '0'
    } else if d == 1 {
        '1'
    } else if d == 2 {
        '2'
    } else if d == 3 {
        '3'
    } else if d == 4 {
        '4'
    } else if d == 5 {
        '5'
    } else if d == 6 {
        '6'
    } else if d == 7 {
        '7'
    } else if d == 8 {
        '8'
    } else {
        '9'
    }
}

/// The decimal rendering of a nonnegative integer, most significant digit
/// first, with no leading zeros (zero itself is "0").
pub open spec fn dec_spec(n: int) -> Seq<char>
    decreases n,
{
    if n < 10 {
        seq![dec_digit(n)]
    } else {
        dec_spec(n / 10) + seq![dec_digit(n % 10)]
    }
}

fn digit_str(d: usize) -> (r: &'static str)
    requires
        d < 10,
    ensures
        r@ == seq![dec_digit(d as int)],
{
    let r: &'static str = match d {
        0 => "0",
        1 => "1",
        2 => "2",
        3 => "3",
        4 => "4",
        5 => "5",
        6 => "6",
        7 => "7",
        8 => "8",
        _ => "9",
    };
    proof {
        reveal_strlit("0");
        reveal_strlit("1");
        reveal_strlit("2");
        reveal_strlit("3");
        reveal_strlit("4");
        reveal_strlit("5");
        reveal_strlit("6");
        reveal_strlit("7");
        reveal_strlit("8");
        reveal_strlit("9");
        assert(r@ =~= seq![dec_digit(d as int)]);
    }
    r
}

/// The decimal rendering of `n`, as the standard formatter prints it.
pub fn usize_to_string(n: usize) -> (r: String)
    ensures
        r@ == dec_spec(n as int),
    decreases n,
{
    if n < 10 {
        String::from_str(digit_str(n))
    } else {
        let mut s = usize_to_string(n / 10);
        s.append(digit_str(n % 10));
        s
    }
}

/// The first `n` items joined by a separator, in order.
pub open spec fn join_prefix(items: Seq<Seq<char>>, sep: Seq<char>, n: int) -> Seq<char>
    decreases n,
{
    if n <= 0 {
        Seq::empty()
    } else if n == 1 {
        items[0]
    } else {
        join_prefix(items, sep, n - 1) + sep + items[n - 1]
    }
}

/// All the items joined by a separator, in order.
pub open spec fn join_spec(items: Seq<Seq<char>>, sep: Seq<char>) -> Seq<char> {
    join_prefix(items, sep, items.len() as int)
}

/// The strings joined by a separator, as `join` on a slice of strings.
pub fn join(items: &Vec<String>, sep: &str) -> (r: String)
    ensures
        r@ == join_spec(string_views(items@), sep@),
{
    let mut acc = String::new();
    let mut i: usize = 0;
    while i < items.len()
        invariant
            i <= items@.len(),
            acc@ == join_prefix(string_views(items@), sep@, i as int),
        decreases items@.len() - i,
    {
        if i > 0 {
            acc.append(sep);
        }
        acc.append(items[i].as_str());
        i += 1;
    }
    acc
}

/// A line with one terminating carriage return removed: what a line
/// terminated by a carriage return and line feed keeps once split.
pub open spec fn strip_cr(line: Seq<char>) -> Seq<char> {
    if line.len() > 0 && line.last() == '\r' {
        line.drop_last()
    } else {
        line
    }
}

/// The lines still to come when `cur` is the partial line read so far and
/// `rest` is the unread input. A line feed ends a line (a preceding
/// carriage return is dropped with it); a final line needs no terminator,
/// but an empty final line does not count.
pub open spec fn lines_from(cur: Seq<char>, rest: Seq<char>) -> Seq<Seq<char>>
    decreases rest.len(),
{
    if rest.len() == 0 {
        if cur.len() > 0 {
            seq![cur]
        } else {
            Seq::empty()
        }
    } else if rest[0] == '\n' {
        seq![strip_cr(cur)] + lines_from(Seq::empty(), rest.drop_first())
    } else {
        lines_from(cur.push(rest[0]), rest.drop_first())
    }
}

/// The lines of a string, as `str::lines` splits them.
pub open spec fn lines_of(s: Seq<char>) -> Seq<Seq<char>> {
    lines_from(Seq::empty(), s)
}

fn strip_cr_string(line: String) -> (r: String)
    ensures
        r@ == strip_cr(line@),
{
    let n = line.as_str().unicode_len();
    if n > 0 && line.as_str().get_char(n - 1) == '\r' {
        let r = line.as_str().substring_char(0, n - 1);
        proof {
            assert(line@.subrange(0, n - 1) =~= line@.drop_last());
        }
        String::from_str(r)
    } else {
        line
    }
}

/// The lines of a string, as `str::lines` splits them.
pub fn split_lines(s: &str) -> (r: Vec<String>)
    ensures
        string_views(r@) == lines_of(s@),
{
    let n = s.unicode_len();
    let mut out: Vec<String> = Vec::new();
    let mut cur = String::new();
    let mut i: usize = 0;
    proof {
        assert(s@.skip(0) =~= s@);
        assert(string_views(out@) =~= Seq::<Seq<char>>::empty());
    }
    while i < n
        invariant
            n == s@.len(),
            i <= n,
            lines_of(s@) == string_views(out@) + lines_from(cur@, s@.skip(i as int)),
        decreases n - i,
    {
        let ghost prev_out = out@;
        let ghost prev_cur = cur@;
        let c = s.get_char(i);
        if c == '\n' {
            let stripped = strip_cr_string(cur);
            out.push(stripped);
            cur = String::new();
            proof {
                assert(string_views(out@) =~= string_views(prev_out)
                    + seq![strip_cr(prev_cur)]);
            }
        } else {
            string_push(&mut cur, c);
        }
        i += 1;
        proof {
            assert(s@.skip(i - 1).drop_first() =~= s@.skip(i as int));
            assert(s@.skip(i - 1)[0] == s@[i - 1]);
            if s@[i - 1] == '\n' {
                assert(string_views(prev_out) + (seq![strip_cr(prev_cur)]
                    + lines_from(Seq::empty(), s@.skip(i as int))) =~= string_views(out@)
                    + lines_from(cur@, s@.skip(i as int)));
            }
        }
    }
    proof {
        assert(s@.skip(n as int) =~= Seq::<char>::empty());
    }
    if !cur.as_str().is_empty() {
        let ghost prev_out = out@;
        let ghost prev_cur = cur@;
        out.push(cur);
        proof {
            assert(string_views(out@) =~= string_views(prev_out)
                + seq![prev_cur]);
        }
    }
    out
}

/// The words still to come when `cur` is the partial word read so far and
/// `rest` is the unread input: maximal runs of non-whitespace characters.
pub open spec fn words_from(cur: Seq<char>, rest: Seq<char>) -> Seq<Seq<char>>
    decreases rest.len(),
{
    if rest.len() == 0 {
        if cur.len() > 0 {
            seq![cur]
        } else {
            Seq::empty()
        }
    } else if unicode_whitespace(rest[0]) {
        if cur.len() > 0 {
            seq![cur] + words_from(Seq::empty(), rest.drop_first())
        } else {
            words_from(Seq::empty(), rest.drop_first())
        }
    } else {
        words_from(cur.push(rest[0]), rest.drop_first())
    }
}

/// The whitespace-separated words of a string, as `str::split_whitespace`
/// yields them.
pub open spec fn words_of(s: Seq<char>) -> Seq<Seq<char>> {
    words_from(Seq::empty(), s)
}

/// The whitespace-separated words of a string.
pub fn split_words(s: &str) -> (r: Vec<String>)
    ensures
        string_views(r@) == words_of(s@),
{
    let n = s.unicode_len();
    let mut out: Vec<String> = Vec::new();
    let mut cur = String::new();
    let mut i: usize = 0;
    proof {
        assert(s@.skip(0) =~= s@);
        assert(string_views(out@) =~= Seq::<Seq<char>>::empty());
    }
    while i < n
        invariant
            n == s@.len(),
            i <= n,
            words_of(s@) == string_views(out@) + words_from(cur@, s@.skip(i as int)),
        decreases n - i,
    {
        let ghost prev_out = out@;
        let ghost prev_cur = cur@;
        let c = s.get_char(i);
        if char_is_whitespace(c) {
            if !cur.as_str().is_empty() {
                out.push(cur);
                cur = String::new();
                proof {
                    assert(string_views(out@) =~= string_views(prev_out) + seq![prev_cur]);
                }
            }
        } else {
            string_push(&mut cur, c);
        }
        i += 1;
        proof {
            assert(s@.skip(i - 1).drop_first() =~= s@.skip(i as int));
            assert(s@.skip(i - 1)[0] == s@[i - 1]);
            if unicode_whitespace(s@[i - 1]) {
                if prev_cur.len() > 0 {
                    assert(words_from(prev_cur, s@.skip(i - 1)) == seq![prev_cur] + words_from(
                        Seq::empty(),
                        s@.skip(i as int),
                    ));
                    assert(string_views(prev_out) + (seq![prev_cur] + words_from(
                        Seq::empty(),
                        s@.skip(i as int),
                    )) =~= string_views(out@) + words_from(cur@, s@.skip(i as int)));
                } else {
                    assert(prev_cur =~= Seq::<char>::empty());
                    assert(words_from(prev_cur, s@.skip(i - 1)) == words_from(
                        Seq::empty(),
                        s@.skip(i as int),
                    ));
                }
            } else {
                assert(words_from(prev_cur, s@.skip(i - 1)) == words_from(
                    prev_cur.push(s@[i - 1]),
                    s@.skip(i as int),
                ));
            }
        }
    }
    proof {
        assert(s@.skip(n as int) =~= Seq::<char>::empty());
    }
    if !cur.as_str().is_empty() {
        let ghost prev_out = out@;
        let ghost prev_cur = cur@;
        out.push(cur);
        proof {
            assert(string_views(out@) =~= string_views(prev_out)
                + seq![prev_cur]);
        }
    }
    out
}

/// The sequences with the empty ones dropped, in order.
pub open spec fn drop_empty_spec(ws: Seq<Seq<char>>) -> Seq<Seq<char>>
    decreases ws.len(),
{
    if ws.len() == 0 {
        Seq::empty()
    } else if ws[0].len() > 0 {
        seq![ws[0]] + drop_empty_spec(ws.drop_first())
    } else {
        drop_empty_spec(ws.drop_first())
    }
}

/// The alphabetic characters of a string, in order: the cleaning the
/// spell check applies to each word before a dictionary lookup.
pub open spec fn alpha_only(s: Seq<char>) -> Seq<char>
    decreases s.len(),
{
    if s.len() == 0 {
        Seq::empty()
    } else if unicode_alphabetic(s[0]) {
        seq![s[0]] + alpha_only(s.drop_first())
    } else {
        alpha_only(s.drop_first())
    }
}

/// The alphabetic characters of a word, in order.
pub fn clean_word(w: &str) -> (r: String)
    ensures
        r@ == alpha_only(w@),
{
    let n = w.unicode_len();
    let mut cur = String::new();
    let mut i: usize = 0;
    proof {
        assert(w@.skip(0) =~= w@);
    }
    while i < n
        invariant
            n == w@.len(),
            i <= n,
            alpha_only(w@) == cur@ + alpha_only(w@.skip(i as int)),
        decreases n - i,
    {
        let ghost prev_cur = cur@;
        let c = w.get_char(i);
        if char_is_alphabetic(c) {
            string_push(&mut cur, c);
            proof {
                assert(prev_cur + seq![c] =~= cur@);
            }
        }
        i += 1;
        proof {
            assert(w@.skip(i - 1).drop_first() =~= w@.skip(i as int));
            assert(w@.skip(i - 1)[0] == w@[i - 1]);
            if unicode_alphabetic(w@[i - 1]) {
                assert(prev_cur + (seq![w@[i - 1]] + alpha_only(w@.skip(i as int))) =~= (prev_cur
                    + seq![w@[i - 1]]) + alpha_only(w@.skip(i as int)));
            }
        }
    }
    proof {
        assert(w@.skip(n as int) =~= Seq::<char>::empty());
        assert(cur@ + Seq::<char>::empty() =~= cur@);
    }
    cur
}

} // verus!
