//! Text helpers shared by the rest of the library: decimal rendering, joining
//! and comparing strings, each with its mathematical counterpart.

use vstd::prelude::*;
use vstd::string::*;

verus! {

/// The character that stands for one decimal digit.
pub open spec fn digit_char(d: nat) -> char {
    if d == 0 {
        '0'
    } else if d == 1 {
        '1'
    } else if d == 2 {
        '2'
    } else if d == 3 {
        '3'
    } else if d == 4 {
        '4'
    } else if d == 5 {
        '5'
    } else if d == 6 {
        '6'
    } else if d == 7 {
        '7'
    } else if d == 8 {
        '8'
    } else {
        '9'
    }
}

/// The digit that a character stands for; characters that are no digit count as nine.
pub open spec fn digit_value(c: char) -> nat {
    if c == '0' {
        0
    } else if c == '1' {
        1
    } else if c == '2' {
        2
    } else if c == '3' {
        3
    } else if c == '4' {
        4
    } else if c == '5' {
        5
    } else if c == '6' {
        6
    } else if c == '7' {
        7
    } else if c == '8' {
        8
    } else {
        9
    }
}

/// The decimal notation of a natural number, most significant digit first,
/// without leading zeros.
pub open spec fn decimal_text(n: nat) -> Seq<char>
    decreases n,
{
    if n < 10 {
        seq![digit_char(n)]
    } else {
        decimal_text(n / 10).push(digit_char(n % 10))
    }
}

/// The number that a sequence of digits denotes.
pub open spec fn decimal_value(s: Seq<char>) -> nat
    decreases s.len(),
{
    if s.len() == 0 {
        0
    } else {
        decimal_value(s.drop_last()) * 10 + digit_value(s.last())
    }
}

/// Reading back the decimal notation of a number gives the number.
pub proof fn lemma_decimal_round_trip(n: nat)
    ensures
        decimal_value(decimal_text(n)) == n,
        decimal_text(n).len() >= 1,
    decreases n,
{
    if n < 10 {
        let s = decimal_text(n);
        assert(s.len() == 1);
        assert(s.drop_last().len() == 0);
        assert(decimal_value(s.drop_last()) == 0);
        assert(s.last() == digit_char(n));
    } else {
        lemma_decimal_round_trip(n / 10);
        let s = decimal_text(n);
        assert(s.drop_last() =~= decimal_text(n / 10));
        assert(s.last() == digit_char(n % 10));
    }
}

/// Two numbers with the same decimal notation are the same number.
pub proof fn lemma_decimal_text_injective(a: nat, b: nat)
    requires
        decimal_text(a) == decimal_text(b),
    ensures
        a == b,
{
    lemma_decimal_round_trip(a);
    lemma_decimal_round_trip(b);
}

/// The parts of `parts` in order, with `sep` between each two neighbours.
pub open spec fn join_text(parts: Seq<Seq<char>>, sep: Seq<char>) -> Seq<char>
    decreases parts.len(),
{
    if parts.len() == 0 {
        Seq::empty()
    } else if parts.len() == 1 {
        parts[0]
    } else {
        join_text(parts.drop_last(), sep) + sep + parts.last()
    }
}

/// The name of a decimal digit.
pub(crate) fn digit_str(d: u8) -> (s: &'static str)
    requires
        d < 10,
    ensures
        s@ == seq![digit_char(d as nat)],
{
    proof {
        reveal_strlit("0");
        reveal_strlit("1");
        reveal_strlit("2");
        reveal_strlit("3");
        reveal_strlit("4");
        reveal_strlit("5");
        reveal_strlit("6");
        reveal_strlit("7");
        reveal_strlit("8");
        reveal_strlit("9");
    }
    let s = if d == 0 {
        "0"
    } else if d == 1 {
        "1"
    } else if d == 2 {
        "2"
    } else if d == 3 {
        "3"
    } else if d == 4 {
        "4"
    } else if d == 5 {
        "5"
    } else if d == 6 {
        "6"
    } else if d == 7 {
        "7"
    } else if d == 8 {
        "8"
    } else {
        "9"
    };
    assert(s@ =~= seq![digit_char(d as nat)]);
    s
}

/// Appends the decimal notation of `n` to `out`.
pub fn push_decimal(out: &mut String, n: u64)
    ensures
        final(out)@ == old(out)@ + decimal_text(n as nat),
    decreases n,
{
    if n >= 10 {
        push_decimal(out, n / 10);
    }
    let d = digit_str((n % 10) as u8);
    out.append(d);
    proof {
        if n >= 10 {
            assert(final(out)@ =~= old(out)@ + decimal_text(n as nat));
        } else {
            assert(final(out)@ =~= old(out)@ + decimal_text(n as nat));
        }
    }
}

/// The decimal notation of `n` as a string.
pub fn decimal_string(n: u64) -> (s: String)
    ensures
        s@ == decimal_text(n as nat),
{
    let mut out = String::new();
    push_decimal(&mut out, n);
    assert(out@ =~= decimal_text(n as nat));
    out
}

/// `a` followed by `b`.
pub fn concat(a: &str, b: &str) -> (r: String)
    ensures
        r@ == a@ + b@,
{
    let mut out = String::from_str(a);
    out.append(b);
    out
}

/// `a`, `b` and `c` one after the other.
pub fn concat3(a: &str, b: &str, c: &str) -> (r: String)
    ensures
        r@ == a@ + b@ + c@,
{
    let mut out = String::from_str(a);
    out.append(b);
    out.append(c);
    out
}

/// The texts of `parts` as a list of strings.
pub fn strings(parts: &[&str]) -> (list: Vec<String>)
    ensures
        list.deep_view() == parts.deep_view(),
{
    let mut list: Vec<String> = Vec::new();
    let mut i: usize = 0;
    while i < parts.len()
        invariant
            i <= parts.len(),
            list.len() == i,
            forall|j: int| 0 <= j < i ==> list[j]@ == parts[j]@,
        decreases parts.len() - i,
    {
        list.push(String::from_str(parts[i]));
        i = i + 1;
    }
    assert(list.deep_view() =~= parts.deep_view());
    list
}

/// Appends `item` to `list`.
pub fn push_string(list: &mut Vec<String>, item: String)
    ensures
        final(list).deep_view() == old(list).deep_view() + seq![item@],
{
    list.push(item);
    assert(list.deep_view() =~= old(list).deep_view() + seq![item@]);
}

/// A copy of a list of strings.
pub fn copy_strings(list: &Vec<String>) -> (copy: Vec<String>)
    ensures
        copy.deep_view() == list.deep_view(),
        copy.len() == list.len(),
        forall|j: int| 0 <= j < list.len() ==> copy[j]@ == list[j]@,
{
    let mut copy: Vec<String> = Vec::new();
    let mut i: usize = 0;
    while i < list.len()
        invariant
            i <= list.len(),
            copy.len() == i,
            forall|j: int| 0 <= j < i ==> copy[j]@ == list[j]@,
        decreases list.len() - i,
    {
        copy.push(list[i].clone());
        i = i + 1;
    }
    assert(copy.deep_view() =~= list.deep_view());
    copy
}

/// A copy of an optional string.
pub fn copy_option(text: &Option<String>) -> (copy: Option<String>)
    ensures
        copy.deep_view() == text.deep_view(),
{
    match text {
        Some(t) => Some(t.clone()),
        None => None,
    }
}

/// Whether two string slices hold the same characters.
pub fn same_text(a: &str, b: &str) -> (r: bool)
    ensures
        r == (a@ == b@),
{
    let x = a.to_owned();
    let y = b.to_owned();
    x.eq(&y)
}

/// The strings of `parts` in order, with `sep` between each two neighbours.
pub fn join(parts: &Vec<String>, sep: &str) -> (r: String)
    ensures
        r@ == join_text(parts.deep_view(), sep@),
{
    let mut out = String::new();
    let mut i: usize = 0;
    while i < parts.len()
        invariant
            i <= parts.len(),
            out@ == join_text(parts.deep_view().take(i as int), sep@),
        decreases parts.len() - i,
    {
        let ghost before = parts.deep_view().take(i as int);
        let ghost after = parts.deep_view().take(i + 1);
        proof {
            assert(after.drop_last() =~= before);
            assert(after.last() == parts@[i as int]@);
        }
        if i > 0 {
            out.append(sep);
        }
        out.append(parts[i].as_str());
        proof {
            if i == 0 {
                assert(before.len() == 0);
                assert(out@ =~= parts@[0]@);
                assert(after[0] == parts@[0]@);
            }
        }
        i = i + 1;
    }
    assert(parts.deep_view().take(parts.len() as int) =~= parts.deep_view());
    out
}

/// The lower-case form of a text, as the standard library computes it.
pub uninterp spec fn lowercase_text(s: Seq<char>) -> Seq<char>;

/// `str::to_lowercase` of the standard library. Its result is a function
/// of the text alone; the contract gives it a name and says no more.
#[verifier::external_body]
pub(crate) fn to_lowercase(s: &str) -> (lower: String)
    ensures
        lower@ == lowercase_text(s@),
{
    s.to_lowercase()
}

/// The characters of a text, one by one.
pub fn chars_of(s: &str) -> (list: Vec<char>)
    ensures
        list@ == s@,
{
    let mut list: Vec<char> = Vec::new();
    for c in it: s.chars()
        invariant
            list@ == it.seq().take(it.index() as int),
            it.seq() == s@,
    {
        list.push(c);
        assert(list@ =~= it.seq().take(it.index() + 1));
    }
    assert(list@ =~= s@);
    list
}

/// Whether `part` stands in `s` at the position `at`.
pub open spec fn occurs_at(s: Seq<char>, part: Seq<char>, at: int) -> bool {
    0 <= at && at + part.len() <= s.len() && s.subrange(at, at + part.len()) == part
}

/// Whether `part` occurs in `s` as a run of neighbouring characters.
pub open spec fn contains_text(s: Seq<char>, part: Seq<char>) -> bool {
    exists|at: int| occurs_at(s, part, at)
}

fn matches_at(text: &Vec<char>, part: &Vec<char>, at: usize) -> (found: bool)
    requires
        at + part.len() <= text.len(),
    ensures
        found == occurs_at(text@, part@, at as int),
{
    let mut j: usize = 0;
    while j < part.len()
        invariant
            j <= part.len(),
            at + part.len() <= text.len(),
            forall|k: int| 0 <= k < j ==> text[at + k] == part[k],
        decreases part.len() - j,
    {
        if text[at + j] != part[j] {
            proof {
                let cut = text@.subrange(at as int, at + part.len());
                assert(cut[j as int] == text[at + j]);
            }
            return false;
        }
        j = j + 1;
    }
    assert(text@.subrange(at as int, at + part.len()) =~= part@);
    true
}

/// Whether `part` occurs in `s`.
pub fn contains(s: &str, part: &str) -> (found: bool)
    ensures
        found == contains_text(s@, part@),
{
    let text = chars_of(s);
    let wanted = chars_of(part);
    if wanted.len() > text.len() {
        assert forall|k: int| !occurs_at(s@, part@, k) by {}
        return false;
    }
    let last: usize = text.len() - wanted.len();
    let mut at: usize = 0;
    while at < last
        invariant
            last == text.len() - wanted.len(),
            wanted.len() <= text.len(),
            text@ == s@,
            wanted@ == part@,
            at <= last,
            forall|k: int| 0 <= k < at ==> !occurs_at(s@, part@, k),
        decreases last - at,
    {
        if matches_at(&text, &wanted, at) {
            assert(occurs_at(s@, part@, at as int));
            return true;
        }
        at = at + 1;
    }
    if matches_at(&text, &wanted, last) {
        assert(occurs_at(s@, part@, last as int));
        return true;
    }
    assert forall|k: int| !occurs_at(s@, part@, k) by {}
    false
}

/// Where the line that begins at `from` ends: at the next line feed, or
/// at the end of the text.
pub open spec fn line_end(s: Seq<char>, from: int) -> int
    decreases s.len() - from,
{
    if from < 0 || from >= s.len() {
        s.len() as int
    } else if s[from] == '\n' {
        from
    } else {
        line_end(s, from + 1)
    }
}

/// A line ends at or after its beginning, and within the text.
pub proof fn lemma_line_end_bounds(s: Seq<char>, from: int)
    requires
        0 <= from <= s.len(),
    ensures
        from <= line_end(s, from) <= s.len(),
    decreases s.len() - from,
{
    if from < s.len() && s[from] != '\n' {
        lemma_line_end_bounds(s, from + 1);
    }
}

/// A line without the carriage return at its end, if it has one.
pub open spec fn without_cr(line: Seq<char>) -> Seq<char> {
    if line.len() > 0 && line.last() == '\r' {
        line.drop_last()
    } else {
        line
    }
}

/// The lines of a text. A line ends with a line feed, or with a carriage
/// return and a line feed, neither of which belongs to the line; the last
/// line may do without, and is then taken as it stands. A text that ends
/// with the end of a line has no further, empty line after it.
pub open spec fn text_lines(s: Seq<char>) -> Seq<Seq<char>>
    decreases s.len(),
{
    if s.len() == 0 {
        Seq::empty()
    } else {
        let end = line_end(s, 0);
        proof {
            lemma_line_end_bounds(s, 0);
        }
        if end >= s.len() {
            seq![s]
        } else {
            seq![without_cr(s.subrange(0, end))] + text_lines(s.subrange(end + 1, s.len() as int))
        }
    }
}

proof fn lemma_line_end(s: Seq<char>, from: int, end: int)
    requires
        0 <= from <= end <= s.len(),
        forall|k: int| from <= k < end ==> s[k] != '\n',
        end < s.len() ==> s[end] == '\n',
    ensures
        line_end(s, from) == end,
    decreases end - from,
{
    if from < end {
        lemma_line_end(s, from + 1, end);
    }
}

/// The lines of `text`, as `text_lines` tells them.
pub fn split_lines(text: &str) -> (lines: Vec<String>)
    ensures
        lines.deep_view() == text_lines(text@),
{
    let chars = chars_of(text);
    let mut lines: Vec<String> = Vec::new();
    let mut start: usize = 0;
    let mut at: usize = 0;
    assert(text@.subrange(0, text@.len() as int) =~= text@);
    assert(lines.deep_view() + text_lines(text@) =~= text_lines(text@));
    while at < chars.len()
        invariant
            chars@ == text@,
            start <= at <= chars.len(),
            forall|k: int| start <= k < at ==> chars[k] != '\n',
            lines.deep_view() + text_lines(text@.subrange(start as int, text@.len() as int))
                == text_lines(text@),
        decreases chars.len() - at,
    {
        if chars[at] == '\n' {
            let ghost rest = text@.subrange(start as int, text@.len() as int);
            let ghost before = lines.deep_view();
            let stop: usize = if at > start && chars[at - 1] == '\r' {
                at - 1
            } else {
                at
            };
            let line = text.substring_char(start, stop);
            proof {
                assert forall|k: int| 0 <= k < at - start implies rest[k] != '\n' by {
                    assert(rest[k] == chars[start + k]);
                }
                assert(rest[at - start] == chars[at as int]);
                lemma_line_end(rest, 0, at - start);
                assert(rest.subrange(0, at - start) =~= text@.subrange(start as int, at as int));
                assert(without_cr(text@.subrange(start as int, at as int)) =~= line@) by {
                    let full = text@.subrange(start as int, at as int);
                    if at > start {
                        assert(full.last() == chars[at - 1]);
                    }
                }
                assert(rest.subrange(at - start + 1, rest.len() as int) =~= text@.subrange(
                    at + 1,
                    text@.len() as int,
                ));
            }
            lines.push(line.to_owned());
            proof {
                assert(lines.deep_view() =~= before + seq![line@]);
                assert(lines.deep_view() + text_lines(
                    text@.subrange(at + 1, text@.len() as int),
                ) =~= before + text_lines(rest));
            }
            start = at + 1;
        }
        at = at + 1;
    }
    if start < chars.len() {
        let ghost rest = text@.subrange(start as int, text@.len() as int);
        let ghost before = lines.deep_view();
        let line = text.substring_char(start, chars.len());
        proof {
            assert forall|k: int| 0 <= k < rest.len() implies rest[k] != '\n' by {
                assert(rest[k] == chars[start + k]);
            }
            lemma_line_end(rest, 0, rest.len() as int);
            assert(line@ =~= rest);
        }
        lines.push(line.to_owned());
        assert(lines.deep_view() =~= before + text_lines(rest));
    } else {
        assert(text@.subrange(start as int, text@.len() as int).len() == 0);
        assert(lines.deep_view() =~= lines.deep_view() + Seq::<Seq<char>>::empty());
    }
    lines
}

} // verus!
