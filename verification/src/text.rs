//! Text as a sequence of characters: lines, trimming, and search for a
//! fixed pattern.

use vstd::prelude::*;
use vstd::string::StringExecFns;

verus! {

/// The characters of `s`, in order.
pub fn chars_of(s: &str) -> (v: Vec<char>)
    ensures
        v@ == s@,
{
    let mut v: Vec<char> = Vec::new();
    for c in it: s.chars()
        invariant
            it.seq() == s@,
            v@ == it.seq().take(it.index() as int),
    {
        v.push(c);
    }
    v
}

/// `c` is white space: one of the code points with the Unicode property
/// `White_Space`.
pub open spec fn is_space(c: char) -> bool {
    let n = c as u32;
    ||| 0x09 <= n <= 0x0D
    ||| n == 0x20
    ||| n == 0x85
    ||| n == 0xA0
    ||| n == 0x1680
    ||| 0x2000 <= n <= 0x200A
    ||| n == 0x2028
    ||| n == 0x2029
    ||| n == 0x202F
    ||| n == 0x205F
    ||| n == 0x3000
}

/// Whether `c` is white space.
pub fn is_whitespace(c: char) -> (r: bool)
    ensures
        r == is_space(c),
{
    let n: u32 = c as u32;
    (0x09 <= n && n <= 0x0D) || n == 0x20 || n == 0x85 || n == 0xA0 || n == 0x1680 || (0x2000 <= n
        && n <= 0x200A) || n == 0x2028 || n == 0x2029 || n == 0x202F || n == 0x205F || n == 0x3000
}

/// The index of the first line feed in `s` at or after `from`, or the
/// length of `s` if there is none.
pub open spec fn line_end(s: Seq<char>, from: int) -> int
    decreases s.len() - from,
{
    if from >= s.len() {
        s.len() as int
    } else if s[from] == '\n' {
        from
    } else {
        line_end(s, from + 1)
    }
}

/// The lines of `s` that begin at or after `from`. A line ends at a line
/// feed or at the end of the text; the line feed is no part of it, and a
/// text that ends in a line feed has no empty line after it.
pub open spec fn lines_from(s: Seq<char>, from: int) -> Seq<Seq<char>>
    decreases s.len() - from + 1,
    when from >= 0
    via lines_from_decreases
{
    if from >= s.len() {
        Seq::empty()
    } else {
        let end = line_end(s, from);
        seq![s.subrange(from, end)] + lines_from(s, end + 1)
    }
}

#[via_fn]
proof fn lines_from_decreases(s: Seq<char>, from: int) {
    if 0 <= from < s.len() {
        lemma_line_end_bounds(s, from);
    }
}

/// The lines of `s`.
pub open spec fn lines_of(s: Seq<char>) -> Seq<Seq<char>> {
    lines_from(s, 0)
}

/// The place of a line's end lies between its start and the end of the text.
pub proof fn lemma_line_end_bounds(s: Seq<char>, from: int)
    requires
        0 <= from <= s.len(),
    ensures
        from <= line_end(s, from) <= s.len(),
        line_end(s, from) < s.len() ==> s[line_end(s, from)] == '\n',
        forall|i: int| from <= i < line_end(s, from) ==> s[i] != '\n',
    decreases s.len() - from,
{
    if from < s.len() && s[from] != '\n' {
        lemma_line_end_bounds(s, from + 1);
    }
}

/// The views of the lines held in `lines`.
pub open spec fn views(lines: Seq<Vec<char>>) -> Seq<Seq<char>> {
    lines.map_values(|line: Vec<char>| line@)
}

/// Splits a text into its lines.
pub fn split_lines(s: &Vec<char>) -> (lines: Vec<Vec<char>>)
    ensures
        views(lines@) == lines_of(s@),
{
    let mut lines: Vec<Vec<char>> = Vec::new();
    let mut pos: usize = 0;
    assert(views(lines@) =~= Seq::<Seq<char>>::empty());
    while pos < s.len()
        invariant
            pos <= s.len(),
            views(lines@) + lines_from(s@, pos as int) == lines_of(s@),
        decreases s.len() - pos,
    {
        let mut line: Vec<char> = Vec::new();
        let mut end: usize = pos;
        while end < s.len() && s[end] != '\n'
            invariant
                pos <= end <= s.len(),
                line@ == s@.subrange(pos as int, end as int),
                line_end(s@, pos as int) == line_end(s@, end as int),
            decreases s.len() - end,
        {
            line.push(s[end]);
            end = end + 1;
            assert(line@ =~= s@.subrange(pos as int, end as int));
        }
        proof {
            let ghost before = views(lines@);
            assert(line_end(s@, pos as int) == end);
            assert(views(lines@.push(line)) =~= before + seq![line@]);
            assert(before + (seq![line@] + lines_from(s@, end + 1)) =~= (before + seq![line@])
                + lines_from(s@, end + 1));
        }
        lines.push(line);
        if end < s.len() {
            pos = end + 1;
        } else {
            pos = end;
            assert(lines_from(s@, end + 1) =~= lines_from(s@, end as int));
        }
    }
    assert(views(lines@) + lines_from(s@, pos as int) =~= views(lines@));
    lines
}

/// The index of the first character of `s` at or after `from` that is no
/// white space, or the length of `s` if there is none.
pub open spec fn skip_spaces(s: Seq<char>, from: int) -> int
    decreases s.len() - from,
{
    if from >= s.len() {
        s.len() as int
    } else if is_space(s[from]) {
        skip_spaces(s, from + 1)
    } else {
        from
    }
}

/// The end of the part of `s[..to]` that is left when white space is taken
/// off its end.
pub open spec fn drop_spaces(s: Seq<char>, to: int) -> int
    decreases to,
{
    if to <= 0 {
        0
    } else if is_space(s[to - 1]) {
        drop_spaces(s, to - 1)
    } else {
        to
    }
}

/// `s` without the white space at its start and at its end.
pub open spec fn trimmed(s: Seq<char>) -> Seq<char> {
    let start = skip_spaces(s, 0);
    let end = drop_spaces(s, s.len() as int);
    if start >= end {
        Seq::empty()
    } else {
        s.subrange(start, end)
    }
}

/// Takes the white space off both ends of `s`.
pub fn trim(s: &Vec<char>) -> (t: Vec<char>)
    ensures
        t@ == trimmed(s@),
{
    let mut start: usize = 0;
    while start < s.len() && is_whitespace(s[start])
        invariant
            start <= s.len(),
            skip_spaces(s@, 0) == skip_spaces(s@, start as int),
        decreases s.len() - start,
    {
        start = start + 1;
    }
    let mut end: usize = s.len();
    while end > 0 && is_whitespace(s[end - 1])
        invariant
            end <= s.len(),
            drop_spaces(s@, s@.len() as int) == drop_spaces(s@, end as int),
        decreases end,
    {
        end = end - 1;
    }
    let mut t: Vec<char> = Vec::new();
    if start >= end {
        return t;
    }
    let mut i: usize = start;
    while i < end
        invariant
            start <= i <= end <= s.len(),
            t@ == s@.subrange(start as int, i as int),
        decreases end - i,
    {
        t.push(s[i]);
        i = i + 1;
        assert(t@ =~= s@.subrange(start as int, i as int));
    }
    t
}

/// `pat` stands in `s` at index `at`.
pub open spec fn occurs_at(s: Seq<char>, pat: Seq<char>, at: int) -> bool {
    0 <= at && at + pat.len() <= s.len() && s.subrange(at, at + pat.len()) == pat
}

/// `s` begins with `pat`.
pub open spec fn has_prefix(s: Seq<char>, pat: Seq<char>) -> bool {
    occurs_at(s, pat, 0)
}

/// `pat` stands somewhere in `s`.
pub open spec fn has_infix(s: Seq<char>, pat: Seq<char>) -> bool {
    exists|at: int| occurs_at(s, pat, at)
}

/// Whether `pat` stands in `s` at index `at`.
pub fn matches_at(s: &Vec<char>, pat: &Vec<char>, at: usize) -> (r: bool)
    ensures
        r == occurs_at(s@, pat@, at as int),
{
    if pat.len() > s.len() || at > s.len() - pat.len() {
        return false;
    }
    let mut j: usize = 0;
    while j < pat.len()
        invariant
            j <= pat.len(),
            at + pat.len() <= s.len(),
            forall|k: int| 0 <= k < j ==> s[at + k] == pat[k],
        decreases pat.len() - j,
    {
        if s[at + j] != pat[j] {
            assert(s@.subrange(at as int, at + pat.len())[j as int] != pat@[j as int]);
            return false;
        }
        j = j + 1;
    }
    assert(s@.subrange(at as int, at + pat.len()) =~= pat@);
    true
}

/// Whether `s` begins with `pat`.
pub fn starts_with(s: &Vec<char>, pat: &Vec<char>) -> (r: bool)
    ensures
        r == has_prefix(s@, pat@),
{
    matches_at(s, pat, 0)
}

/// Whether `pat` stands somewhere in `s`.
pub fn contains(s: &Vec<char>, pat: &Vec<char>) -> (r: bool)
    ensures
        r == has_infix(s@, pat@),
{
    if pat.len() > s.len() {
        assert(forall|at: int| !occurs_at(s@, pat@, at));
        return false;
    }
    let last: usize = s.len() - pat.len();
    let mut at: usize = 0;
    loop
        invariant
            at <= last,
            last == s.len() - pat.len(),
            forall|k: int| 0 <= k < at ==> !occurs_at(s@, pat@, k),
        decreases last - at,
    {
        if matches_at(s, pat, at) {
            return true;
        }
        if at == last {
            assert(forall|k: int| !occurs_at(s@, pat@, k));
            return false;
        }
        at = at + 1;
    }
}


/// The decimal digit `d` as text.
pub open spec fn digit_text(d: nat) -> Seq<char> {
    if d == 0 {
        "0"@
    } else if d == 1 {
        "1"@
    } else if d == 2 {
        "2"@
    } else if d == 3 {
        "3"@
    } else if d == 4 {
        "4"@
    } else if d == 5 {
        "5"@
    } else if d == 6 {
        "6"@
    } else if d == 7 {
        "7"@
    } else if d == 8 {
        "8"@
    } else {
        "9"@
    }
}

/// The decimal numeral of `n`, without leading zeros.
pub open spec fn numeral(n: nat) -> Seq<char>
    decreases n,
{
    if n < 10 {
        digit_text(n)
    } else {
        numeral(n / 10) + digit_text(n % 10)
    }
}

/// The last `width` digits of `n`, with zeros in front where `n` has
/// fewer.
pub open spec fn padded_numeral(n: nat, width: nat) -> Seq<char>
    decreases width,
{
    if width == 0 {
        Seq::empty()
    } else {
        padded_numeral(n / 10, (width - 1) as nat) + digit_text(n % 10)
    }
}

/// The decimal digit `d` as text.
pub fn digit(d: u8) -> (s: &'static str)
    requires
        d < 10,
    ensures
        s@ == digit_text(d as nat),
{
    if d == 0 {
        "0"
    } else if d == 1 {
        "1"
    } else if d == 2 {
        "2"
    } else if d == 3 {
        "3"
    } else if d == 4 {
        "4"
    } else if d == 5 {
        "5"
    } else if d == 6 {
        "6"
    } else if d == 7 {
        "7"
    } else if d == 8 {
        "8"
    } else {
        "9"
    }
}

/// The decimal numeral of `n`, without leading zeros.
pub fn number_text(n: u128) -> (s: String)
    ensures
        s@ == numeral(n as nat),
    decreases n,
{
    if n < 10 {
        String::from_str(digit(n as u8))
    } else {
        number_text(n / 10).concat(digit((n % 10) as u8))
    }
}

/// The last `width` digits of `n`, with zeros in front where `n` has
/// fewer.
pub fn padded_text(n: u128, width: u8) -> (s: String)
    ensures
        s@ == padded_numeral(n as nat, width as nat),
    decreases width,
{
    if width == 0 {
        String::new()
    } else {
        padded_text(n / 10, width - 1).concat(digit((n % 10) as u8))
    }
}


/// `c` is a decimal digit.
pub open spec fn is_digit(c: char) -> bool {
    0x30 <= c as u32 <= 0x39
}

/// The value of the decimal digit `c`.
pub open spec fn digit_value(c: char) -> nat {
    (c as u32 - 0x30) as nat
}

/// Every character of `s` is a decimal digit.
pub open spec fn all_digits(s: Seq<char>) -> bool {
    forall|i: int| 0 <= i < s.len() ==> is_digit(#[trigger] s[i])
}

/// The number that the digits `s` spell; zero for no digit.
pub open spec fn numeral_value(s: Seq<char>) -> nat
    decreases s.len(),
{
    if s.len() == 0 {
        0
    } else {
        numeral_value(s.drop_last()) * 10 + digit_value(s.last())
    }
}

/// Ten to the power `n`.
pub open spec fn ten_to(n: nat) -> nat
    decreases n,
{
    if n == 0 {
        1
    } else {
        10 * ten_to((n - 1) as nat)
    }
}

/// The text of a digit is that digit alone.
pub proof fn lemma_digit_text(d: nat)
    requires
        d < 10,
    ensures
        digit_text(d).len() == 1,
        is_digit(digit_text(d)[0]),
        digit_value(digit_text(d)[0]) == d,
{
    reveal_strlit("0");
    reveal_strlit("1");
    reveal_strlit("2");
    reveal_strlit("3");
    reveal_strlit("4");
    reveal_strlit("5");
    reveal_strlit("6");
    reveal_strlit("7");
    reveal_strlit("8");
    reveal_strlit("9");
}

/// A digit put behind digits: the value is ten times theirs, and the
/// digit's.
pub proof fn lemma_digit_appended(s: Seq<char>, d: nat)
    requires
        d < 10,
        all_digits(s),
    ensures
        all_digits(s + digit_text(d)),
        (s + digit_text(d)).len() == s.len() + 1,
        numeral_value(s + digit_text(d)) == numeral_value(s) * 10 + d,
{
    lemma_digit_text(d);
    let t = s + digit_text(d);
    assert(t.drop_last() =~= s);
    assert(t.last() == digit_text(d)[0]);
    assert forall|i: int| 0 <= i < t.len() implies is_digit(#[trigger] t[i]) by {
        if i < s.len() {
            assert(t[i] == s[i]);
        }
    }
}

/// A numeral is made of digits, and spells its number.
pub proof fn lemma_numeral(n: nat)
    ensures
        numeral(n).len() >= 1,
        all_digits(numeral(n)),
        numeral_value(numeral(n)) == n,
    decreases n,
{
    if n < 10 {
        lemma_digit_appended(Seq::empty(), n);
        assert(Seq::<char>::empty() + digit_text(n) =~= digit_text(n));
        assert(numeral_value(Seq::<char>::empty()) == 0);
    } else {
        lemma_numeral(n / 10);
        lemma_digit_appended(numeral(n / 10), n % 10);
    }
}

/// A padded numeral has the width asked for, is made of digits, and spells
/// its number where the number fits the width.
pub proof fn lemma_padded_numeral(n: nat, width: nat)
    requires
        n < ten_to(width),
    ensures
        padded_numeral(n, width).len() == width,
        all_digits(padded_numeral(n, width)),
        numeral_value(padded_numeral(n, width)) == n,
    decreases width,
{
    if width == 0 {
    } else {
        lemma_padded_numeral(n / 10, (width - 1) as nat);
        lemma_digit_appended(padded_numeral(n / 10, (width - 1) as nat), n % 10);
    }
}

/// The digits at the front of a numeral spell no more than the whole.
pub proof fn lemma_numeral_value_grows(s: Seq<char>, k: int)
    requires
        0 <= k <= s.len(),
    ensures
        numeral_value(s.take(k)) <= numeral_value(s),
    decreases s.len() - k,
{
    if k == s.len() {
        assert(s.take(k) =~= s);
    } else {
        lemma_numeral_value_grows(s, k + 1);
        assert(s.take(k + 1).drop_last() =~= s.take(k));
    }
}

/// The number that the digits `s[from..to]` spell: `None` where one of the
/// characters is no digit, or the number is beyond the largest `u128`.
pub fn parse_numeral(s: &Vec<char>, from: usize, to: usize) -> (r: Option<u128>)
    requires
        from <= to <= s.len(),
    ensures
        r is Some <==> all_digits(s@.subrange(from as int, to as int)) && numeral_value(
            s@.subrange(from as int, to as int),
        ) <= u128::MAX,
        r is Some ==> r.unwrap() == numeral_value(s@.subrange(from as int, to as int)),
{
    let ghost part = s@.subrange(from as int, to as int);
    let mut value: u128 = 0;
    let mut i: usize = from;
    assert(part.take(0) =~= Seq::<char>::empty());
    while i < to
        invariant
            from <= i <= to <= s.len(),
            part == s@.subrange(from as int, to as int),
            all_digits(part.take(i - from)),
            value == numeral_value(part.take(i - from)),
        decreases to - i,
    {
        let c: u32 = s[i] as u32;
        if c < 0x30 || c > 0x39 {
            assert(!is_digit(part[i - from]));
            return None;
        }
        let d: u128 = (c - 0x30) as u128;
        proof {
            let next = part.take(i - from + 1);
            assert(next.drop_last() =~= part.take(i - from));
            assert(next.last() == s@[i as int]);
            assert forall|j: int| 0 <= j < next.len() implies is_digit(#[trigger] next[j]) by {
                if j < i - from {
                    assert(next[j] == part.take(i - from)[j]);
                }
            }
            lemma_numeral_value_grows(part, i - from + 1);
        }
        if value > (u128::MAX - d) / 10 {
            return None;
        }
        value = value * 10 + d;
        i = i + 1;
    }
    assert(part.take(to - from) =~= part);
    Some(value)
}


/// Whether two texts hold the same characters.
pub fn same_text(a: &str, b: &str) -> (r: bool)
    ensures
        r == (a@ == b@),
{
    let left: String = a.to_owned();
    let right: String = b.to_owned();
    left == right
}

} // verus!
