//! Character-level text operations with their specifications: suffix tests,
//! the `guid:` field of an asset line, splitting into lines the way `str::lines` does, and
//! decimal rendering of counts.
use vstd::prelude::*;

verus! {

/// `suffix` is a suffix of `s`.
pub open spec fn has_suffix(s: Seq<char>, suffix: Seq<char>) -> bool {
    suffix.len() <= s.len() && s.subrange(s.len() - suffix.len(), s.len() as int) == suffix
}

/// `needle` occurs in `hay` as a contiguous run, starting at `start`.
pub open spec fn occurs_at(hay: Seq<char>, needle: Seq<char>, start: int) -> bool {
    0 <= start && start + needle.len() <= hay.len() && hay.subrange(start, start + needle.len())
        == needle
}

/// Index of the first line feed in `s`, or `s.len()` when there is none.
pub open spec fn newline_index(s: Seq<char>) -> nat
    decreases s.len(),
{
    if s.len() == 0 {
        0
    } else if s[0] == '\n' {
        0
    } else {
        1 + newline_index(s.drop_first())
    }
}

/// A line that was ended by a line feed loses one carriage return before it.
pub open spec fn strip_carriage_return(line: Seq<char>) -> Seq<char> {
    if line.len() > 0 && line.last() == '\r' {
        line.drop_last()
    } else {
        line
    }
}

/// The lines of a text as `str::lines` yields them: the text is cut after each
/// line feed, the line feed is dropped together with a carriage return right
/// before it, and a last line feed does not start an empty line.
pub open spec fn text_lines(s: Seq<char>) -> Seq<Seq<char>>
    decreases s.len(),
{
    if s.len() == 0 {
        Seq::empty()
    } else {
        let end = newline_index(s);
        if end >= s.len() {
            seq![s]
        } else {
            seq![strip_carriage_return(s.take(end as int))] + text_lines(s.skip(end + 1int))
        }
    }
}

/// The decimal digit for a value below ten.
pub open spec fn digit_char(d: nat) -> char {
    seq!['0', '1', '2', '3', '4', '5', '6', '7', '8', '9'][d as int]
}

/// The decimal representation of a natural number, without leading zeros.
pub open spec fn decimal(n: nat) -> Seq<char>
    decreases n,
{
    if n < 10 {
        seq![digit_char(n)]
    } else {
        decimal(n / 10).push(digit_char(n % 10))
    }
}

pub open spec fn string_views(v: Seq<String>) -> Seq<Seq<char>> {
    v.map_values(|s: String| s@)
}

/// Appends one character to a `String` (std's `String::push`).
#[verifier::external_body]
fn string_push(s: &mut String, c: char)
    ensures
        final(s)@ == old(s)@.push(c),
{
    s.push(c);
}

/// The characters of a string slice.
pub fn chars_of(s: &str) -> (chars: Vec<char>)
    ensures
        chars@ == s@,
{
    let mut out: Vec<char> = Vec::new();
    for c in it: s.chars()
        invariant
            it.seq() == s@,
            out@ == it.seq().take(it.index() as int),
    {
        out.push(c);
    }
    out
}

/// A `String` holding `chars[from..to]`.
pub fn string_from_chars(chars: &Vec<char>, from: usize, to: usize) -> (s: String)
    requires
        from <= to <= chars.len(),
    ensures
        s@ == chars@.subrange(from as int, to as int),
{
    let mut s = String::new();
    let mut i = from;
    while i < to
        invariant
            from <= i <= to <= chars.len(),
            s@ == chars@.subrange(from as int, i as int),
        decreases to - i,
    {
        string_push(&mut s, chars[i]);
        assert(chars@.subrange(from as int, i + 1) == chars@.subrange(from as int, i as int).push(
            chars@[i as int],
        ));
        i = i + 1;
    }
    s
}

/// Whether two character sequences are equal.
pub fn chars_equal(a: &Vec<char>, b: &Vec<char>) -> (eq: bool)
    ensures
        eq == (a@ == b@),
{
    if a.len() != b.len() {
        return false;
    }
    let mut i: usize = 0;
    while i < a.len()
        invariant
            a.len() == b.len(),
            i <= a.len(),
            forall|j: int| 0 <= j < i ==> a@[j] == b@[j],
        decreases a.len() - i,
    {
        if a[i] != b[i] {
            return false;
        }
        i = i + 1;
    }
    assert(a@ =~= b@);
    true
}

/// Whether two string slices hold the same characters.
pub fn str_equal(a: &str, b: &str) -> (eq: bool)
    ensures
        eq == (a@ == b@),
{
    chars_equal(&chars_of(a), &chars_of(b))
}

/// Whether `needle` occurs in `hay` starting at `start`.
pub(crate) fn occurs_at_exec(hay: &Vec<char>, needle: &Vec<char>, start: usize) -> (found: bool)
    requires
        start + needle.len() <= hay.len(),
    ensures
        found == occurs_at(hay@, needle@, start as int),
{
    let mut j: usize = 0;
    while j < needle.len()
        invariant
            start + needle.len() <= hay.len(),
            j <= needle.len(),
            forall|k: int| 0 <= k < j ==> hay@[start + k] == needle@[k],
        decreases needle.len() - j,
    {
        if hay[start + j] != needle[j] {
            assert(hay@.subrange(start as int, start + needle.len())[j as int] != needle@[j as int]);
            return false;
        }
        j = j + 1;
    }
    assert(hay@.subrange(start as int, start + needle.len()) =~= needle@);
    true
}

/// Whether `suffix` ends `s`, as `str::ends_with` with a string pattern.
pub fn ends_with_chars(s: &Vec<char>, suffix: &Vec<char>) -> (ends: bool)
    ensures
        ends == has_suffix(s@, suffix@),
{
    if suffix.len() > s.len() {
        return false;
    }
    let start = s.len() - suffix.len();
    let r = occurs_at_exec(s, suffix, start);
    assert(start + suffix.len() == s.len());
    r
}

/// Whether the string slice `s` ends with `suffix`.
pub fn str_ends_with(s: &str, suffix: &str) -> (ends: bool)
    ensures
        ends == has_suffix(s@, suffix@),
{
    ends_with_chars(&chars_of(s), &chars_of(suffix))
}

proof fn lemma_newline_index_found(s: Seq<char>, k: int)
    requires
        0 <= k < s.len(),
        s[k] == '\n',
        forall|j: int| 0 <= j < k ==> s[j] != '\n',
    ensures
        newline_index(s) == k,
    decreases k,
{
    if k > 0 {
        let t = s.drop_first();
        assert forall|j: int| 0 <= j < k - 1 implies t[j] != '\n' by {
            assert(t[j] == s[j + 1]);
        }
        lemma_newline_index_found(t, k - 1);
    }
}

proof fn lemma_newline_index_absent(s: Seq<char>)
    requires
        forall|j: int| 0 <= j < s.len() ==> s[j] != '\n',
    ensures
        newline_index(s) == s.len(),
    decreases s.len(),
{
    if s.len() > 0 {
        let t = s.drop_first();
        assert forall|j: int| 0 <= j < t.len() implies t[j] != '\n' by {
            assert(t[j] == s[j + 1]);
        }
        lemma_newline_index_absent(t);
    }
}

proof fn lemma_before_newline_index(s: Seq<char>, j: int)
    requires
        0 <= j < newline_index(s),
    ensures
        j < s.len(),
        s[j] != '\n',
    decreases s.len(),
{
    if j > 0 {
        lemma_before_newline_index(s.drop_first(), j - 1);
    }
}

proof fn lemma_newline_index_bound(s: Seq<char>)
    ensures
        newline_index(s) <= s.len(),
        newline_index(s) < s.len() ==> s[newline_index(s) as int] == '\n',
    decreases s.len(),
{
    if s.len() > 0 && s[0] != '\n' {
        lemma_newline_index_bound(s.drop_first());
    }
}

/// No line holds a line feed: the line terminators are not part of the
/// lines.
pub proof fn lemma_lines_have_no_line_feed(s: Seq<char>, i: int, j: int)
    requires
        0 <= i < text_lines(s).len(),
        0 <= j < text_lines(s)[i].len(),
    ensures
        text_lines(s)[i][j] != '\n',
    decreases s.len(),
{
    let end = newline_index(s);
    lemma_newline_index_bound(s);
    if end >= s.len() {
        lemma_before_newline_index(s, j);
    } else {
        let first = strip_carriage_return(s.take(end as int));
        if i == 0 {
            assert(text_lines(s)[0] == first);
            assert(first[j] == s[j]);
            lemma_before_newline_index(s, j);
        } else {
            assert(text_lines(s)[i] == text_lines(s.skip(end + 1int))[i - 1]);
            lemma_lines_have_no_line_feed(s.skip(end + 1int), i - 1, j);
        }
    }
}

/// A white-space character that may stand between `guid:` and its value:
/// one with the Unicode property `White_Space`, the class that `\s` of the
/// script pattern matches.
pub open spec fn is_blank(c: char) -> bool {
    let n = c as u32;
    ||| 0x09 <= n <= 0x0d
    ||| n == 0x20 || n == 0x85 || n == 0xa0 || n == 0x1680
    ||| 0x2000 <= n <= 0x200a
    ||| n == 0x2028 || n == 0x2029 || n == 0x202f || n == 0x205f || n == 0x3000
}

/// The first position at or after `j` that holds no white space.
pub open spec fn skip_blanks(s: Seq<char>, j: int) -> int
    decreases s.len() - j,
{
    if 0 <= j < s.len() && is_blank(s[j]) {
        skip_blanks(s, j + 1)
    } else {
        j
    }
}

/// The text `guid:`.
pub open spec fn guid_key() -> Seq<char> {
    seq!['g', 'u', 'i', 'd', ':']
}

/// At `start` the line holds `guid:`, then white space, then exactly `guid`
/// followed by a comma.
pub open spec fn guid_field_at(line: Seq<char>, start: int, guid: Seq<char>) -> bool {
    occurs_at(line, guid_key(), start) && {
        let j = skip_blanks(line, start + 5);
        &&& occurs_at(line, guid, j)
        &&& j + guid.len() < line.len()
        &&& line[j + guid.len()] == ','
    }
}

/// The line has a `guid:` field whose value is exactly `guid` (which must
/// not be empty).
pub open spec fn has_guid_field(line: Seq<char>, guid: Seq<char>) -> bool {
    guid.len() > 0 && exists|start: int| guid_field_at(line, start, guid)
}

fn is_blank_exec(c: char) -> (blank: bool)
    ensures
        blank == is_blank(c),
{
    let n = c as u32;
    (0x09 <= n && n <= 0x0d) || n == 0x20 || n == 0x85 || n == 0xa0 || n == 0x1680 || (0x2000
        <= n && n <= 0x200a) || n == 0x2028 || n == 0x2029 || n == 0x202f || n == 0x205f || n
        == 0x3000
}

/// The first position at or after `j` that holds no white space.
fn skip_blanks_exec(s: &Vec<char>, j: usize) -> (k: usize)
    requires
        j <= s.len(),
    ensures
        k == skip_blanks(s@, j as int),
        j <= k <= s.len(),
{
    let mut k = j;
    while k < s.len() && is_blank_exec(s[k])
        invariant
            j <= k <= s.len(),
            skip_blanks(s@, k as int) == skip_blanks(s@, j as int),
        decreases s.len() - k,
    {
        k = k + 1;
    }
    k
}

/// Whether the line has a `guid:` field whose value is exactly `guid`.
pub fn has_guid_field_exec(line: &Vec<char>, guid: &Vec<char>) -> (found: bool)
    ensures
        found == has_guid_field(line@, guid@),
{
    if guid.len() == 0 {
        return false;
    }
    if line.len() < 5 {
        assert forall|start: int| !guid_field_at(line@, start, guid@) by {
            assert(guid_key().len() == 5);
        }
        return false;
    }
    let key: Vec<char> = vec!['g', 'u', 'i', 'd', ':'];
    assert(key@ =~= guid_key());
    let last = line.len() - 5;
    let mut start: usize = 0;
    while start <= last
        invariant
            last == line.len() - 5,
            line.len() >= 5,
            guid.len() > 0,
            key@ == guid_key(),
            start <= last + 1,
            forall|k: int| 0 <= k < start ==> !guid_field_at(line@, k, guid@),
        decreases last + 1 - start,
    {
        if occurs_at_exec(line, &key, start) {
            let j = skip_blanks_exec(line, start + 5);
            if guid.len() < line.len() - j && occurs_at_exec(line, guid, j) && line[j + guid.len()] == ',' {
                assert(guid_field_at(line@, start as int, guid@));
                return true;
            }
        }
        if start == last {
            assert forall|k: int| !guid_field_at(line@, k, guid@) by {
                if 0 <= k < start {
                } else if k < 0 {
                } else if k > start {
                    assert(!occurs_at(line@, guid_key(), k));
                }
            }
            return false;
        }
        start = start + 1;
    }
    false
}

/// The lines of `s`, as `str::lines` yields them.
pub fn lines_of(s: &str) -> (lines: Vec<String>)
    ensures
        string_views(lines@) == text_lines(s@),
{
    let chars = chars_of(s);
    let n = chars.len();
    let mut out: Vec<String> = Vec::new();
    let mut start: usize = 0;
    let mut i: usize = 0;
    assert(chars@.skip(0) =~= chars@);
    assert(string_views(out@) =~= Seq::<Seq<char>>::empty());
    while i < n
        invariant
            n == chars.len(),
            chars@ == s@,
            start <= i <= n,
            forall|j: int| start <= j < i ==> chars@[j] != '\n',
            string_views(out@) + text_lines(chars@.skip(start as int)) == text_lines(chars@),
        decreases n - i,
    {
        if chars[i] == '\n' {
            let ghost rest = chars@.skip(start as int);
            proof {
                lemma_newline_index_found(rest, i - start);
                assert(rest.take(i - start) =~= chars@.subrange(start as int, i as int));
                assert(rest.skip(i - start + 1) =~= chars@.skip(i + 1));
            }
            let end = if i > start && chars[i - 1] == '\r' {
                i - 1
            } else {
                i
            };
            let line = string_from_chars(&chars, start, end);
            proof {
                let piece = chars@.subrange(start as int, i as int);
                if i > start && chars@[i - 1] == '\r' {
                    assert(piece.drop_last() =~= chars@.subrange(start as int, end as int));
                } else {
                    assert(piece =~= chars@.subrange(start as int, end as int));
                }
                assert(line@ == strip_carriage_return(piece));
                assert(text_lines(rest) == seq![line@] + text_lines(chars@.skip(i + 1)));
            }
            let ghost before = string_views(out@);
            out.push(line);
            proof {
                assert(string_views(out@) =~= before.push(line@));
                assert(before + (seq![line@] + text_lines(chars@.skip(i + 1))) =~= before.push(
                    line@,
                ) + text_lines(chars@.skip(i + 1)));
            }
            start = i + 1;
        }
        i = i + 1;
    }
    if start < n {
        let ghost rest = chars@.skip(start as int);
        proof {
            assert forall|j: int| 0 <= j < rest.len() implies rest[j] != '\n' by {
                assert(rest[j] == chars@[start + j]);
            }
            lemma_newline_index_absent(rest);
            assert(rest =~= chars@.subrange(start as int, n as int));
        }
        let line = string_from_chars(&chars, start, n);
        let ghost before = string_views(out@);
        out.push(line);
        proof {
            assert(string_views(out@) =~= before.push(line@));
            assert(text_lines(rest) == seq![rest]);
            assert(before + seq![rest] =~= before.push(line@));
        }
    } else {
        proof {
            assert(chars@.skip(start as int).len() == 0);
            assert(string_views(out@) + Seq::<Seq<char>>::empty() =~= string_views(out@));
        }
    }
    out
}

/// The decimal digit for `d`.
fn digit(d: usize) -> (c: char)
    requires
        d < 10,
    ensures
        c == digit_char(d as nat),
{
    let digits = ['0', '1', '2', '3', '4', '5', '6', '7', '8', '9'];
    proof {
        assert(digits@ == seq!['0', '1', '2', '3', '4', '5', '6', '7', '8', '9']);
    }
    digits[d]
}

/// Appends the decimal representation of `n` to `s`.
pub fn push_decimal(s: &mut String, n: usize)
    ensures
        final(s)@ == old(s)@ + decimal(n as nat),
    decreases n,
{
    if n >= 10 {
        push_decimal(s, n / 10);
    }
    let c = digit(n % 10);
    string_push(s, c);
    proof {
        if n >= 10 {
            assert(old(s)@ + decimal((n / 10) as nat) + seq![c] =~= old(s)@ + decimal(n as nat));
        } else {
            assert(old(s)@ + seq![c] =~= old(s)@ + decimal(n as nat));
        }
    }
}

} // verus!
