//! Character-level helpers shared by the note parser and prompt assembly.

use vstd::prelude::*;

verus! {

/// Relies on `str::chars`: it yields the string's characters in order.
#[verifier::external_body]
pub(crate) fn chars_of(s: &str) -> (r: Vec<char>)
    ensures
        r@ == s@,
{
    s.chars().collect()
}

/// Unicode's White_Space property, which `char::is_whitespace` tests.
pub open spec fn is_ws(c: char) -> bool {
    let u = c as u32;
    (0x09 <= u <= 0x0d) || u == 0x20 || u == 0x85 || u == 0xa0 || u == 0x1680 || (0x2000 <= u
        <= 0x200a) || u == 0x2028 || u == 0x2029 || u == 0x202f || u == 0x205f || u == 0x3000
}

pub fn is_whitespace(c: char) -> (r: bool)
    ensures
        r == is_ws(c),
{
    let u = c as u32;
    (0x09 <= u && u <= 0x0d) || u == 0x20 || u == 0x85 || u == 0xa0 || u == 0x1680 || (0x2000
        <= u && u <= 0x200a) || u == 0x2028 || u == 0x2029 || u == 0x202f || u == 0x205f || u
        == 0x3000
}

/// `s` without its leading whitespace.
pub open spec fn trim_start_spec(s: Seq<char>) -> Seq<char>
    decreases s.len(),
{
    if s.len() > 0 && is_ws(s[0]) {
        trim_start_spec(s.drop_first())
    } else {
        s
    }
}

/// `s` without its trailing whitespace.
pub open spec fn trim_end_spec(s: Seq<char>) -> Seq<char>
    decreases s.len(),
{
    if s.len() > 0 && is_ws(s.last()) {
        trim_end_spec(s.drop_last())
    } else {
        s
    }
}

/// `s` without whitespace at either end.
pub open spec fn trim_spec(s: Seq<char>) -> Seq<char> {
    trim_end_spec(trim_start_spec(s))
}

/// Index of the first non-whitespace character of `s[from..to]`, or `to`.
pub fn skip_ws(s: &Vec<char>, from: usize, to: usize) -> (r: usize)
    requires
        from <= to <= s@.len(),
    ensures
        from <= r <= to,
        trim_start_spec(s@.subrange(from as int, to as int)) == s@.subrange(r as int, to as int),
{
    let mut i = from;
    while i < to && is_whitespace(s[i])
        invariant
            from <= i <= to <= s@.len(),
            trim_start_spec(s@.subrange(from as int, to as int)) == trim_start_spec(
                s@.subrange(i as int, to as int),
            ),
        decreases to - i,
    {
        proof {
            assert(s@.subrange(i as int, to as int).drop_first() =~= s@.subrange(
                i + 1,
                to as int,
            ));
        }
        i = i + 1;
    }
    proof {
        let t = s@.subrange(i as int, to as int);
        if t.len() > 0 {
            assert(t[0] == s@[i as int]);
        }
    }
    i
}

/// End of `s[from..to]` once trailing whitespace is dropped.
pub fn trim_end_at(s: &Vec<char>, from: usize, to: usize) -> (r: usize)
    requires
        from <= to <= s@.len(),
    ensures
        from <= r <= to,
        trim_end_spec(s@.subrange(from as int, to as int)) == s@.subrange(from as int, r as int),
{
    let mut j = to;
    while j > from && is_whitespace(s[j - 1])
        invariant
            from <= j <= to <= s@.len(),
            trim_end_spec(s@.subrange(from as int, to as int)) == trim_end_spec(
                s@.subrange(from as int, j as int),
            ),
        decreases j - from,
    {
        proof {
            assert(s@.subrange(from as int, j as int).drop_last() =~= s@.subrange(
                from as int,
                j - 1,
            ));
        }
        j = j - 1;
    }
    proof {
        let t = s@.subrange(from as int, j as int);
        if t.len() > 0 {
            assert(t.last() == s@[j - 1]);
        }
    }
    j
}

/// Ranges of the lines finished within the first `k` characters, and where
/// the open line starts. A line ends at `\n`; a `\r` right before it is not
/// part of the line.
pub open spec fn lines_fold(s: Seq<char>, k: nat) -> (Seq<(usize, usize)>, usize)
    decreases k,
{
    if k == 0 || k > s.len() {
        (seq![], 0)
    } else {
        let prev = lines_fold(s, (k - 1) as nat);
        if s[k - 1] == '\n' {
            let e = if k - 1 > prev.1 && s[k - 2] == '\r' {
                (k - 2) as usize
            } else {
                (k - 1) as usize
            };
            (prev.0.push((prev.1, e)), k as usize)
        } else {
            prev
        }
    }
}

/// The ranges of the lines of `s`, as `str::lines` yields them: a final
/// line ending adds no empty line, and an empty string has no lines.
pub open spec fn line_ranges(s: Seq<char>) -> Seq<(usize, usize)> {
    let st = lines_fold(s, s.len());
    if st.1 < s.len() {
        st.0.push((st.1, s.len() as usize))
    } else {
        st.0
    }
}

/// The line ranges of `s`.
pub fn lines(s: &Vec<char>) -> (r: Vec<(usize, usize)>)
    ensures
        r@ == line_ranges(s@),
        forall|j: int| 0 <= j < r@.len() ==> #[trigger] r@[j].0 <= r@[j].1 <= s@.len(),
        forall|j: int| 0 < j < r@.len() ==> r@[j - 1].1 < #[trigger] r@[j].0,
{
    let mut out: Vec<(usize, usize)> = Vec::new();
    let mut start: usize = 0;
    let mut i: usize = 0;
    while i < s.len()
        invariant
            i <= s@.len(),
            lines_fold(s@, i as nat) == (out@, start),
            start <= i,
            forall|j: int| 0 <= j < out@.len() ==> #[trigger] out@[j].0 <= out@[j].1 <= start,
            forall|j: int| 0 < j < out@.len() ==> out@[j - 1].1 < #[trigger] out@[j].0,
            out@.len() > 0 ==> out@.last().1 < start,
        decreases s@.len() - i,
    {
        if s[i] == '\n' {
            let e = if i > start && s[i - 1] == '\r' {
                i - 1
            } else {
                i
            };
            let ghost done = out@;
            out.push((start, e));
            assert forall|j: int| 0 <= j < out@.len() implies #[trigger] out@[j].0 <= out@[j].1
                <= i + 1 by {
                if j < done.len() {
                    assert(out@[j] == done[j]);
                    assert(done[j].0 <= done[j].1 <= start);
                }
            }
            assert forall|j: int| 0 < j < out@.len() implies out@[j - 1].1 < #[trigger] out@[j].0 by {
                if j < done.len() {
                    assert(out@[j] == done[j]);
                    assert(out@[j - 1] == done[j - 1]);
                } else {
                    assert(out@[j - 1] == done.last());
                }
            }
            start = i + 1;
        }
        i = i + 1;
    }
    let ghost done = out@;
    if start < s.len() {
        out.push((start, s.len()));
    }
    assert forall|j: int| 0 <= j < out@.len() implies #[trigger] out@[j].0 <= out@[j].1
        <= s@.len() by {
        if j < done.len() {
            assert(out@[j] == done[j]);
            assert(done[j].0 <= done[j].1 <= start);
        }
    }
    assert forall|j: int| 0 < j < out@.len() implies out@[j - 1].1 < #[trigger] out@[j].0 by {
        if j < done.len() {
            assert(out@[j] == done[j]);
            assert(out@[j - 1] == done[j - 1]);
        } else {
            assert(out@[j - 1] == done.last());
        }
    }
    out
}

/// Bytes that `c` takes in UTF-8.
pub open spec fn utf8_width(c: char) -> nat {
    let u = c as u32;
    if u < 0x80 {
        1
    } else if u < 0x800 {
        2
    } else if u < 0x10000 {
        3
    } else {
        4
    }
}

/// Bytes that `s` takes in UTF-8.
pub open spec fn utf8_len(s: Seq<char>) -> nat
    decreases s.len(),
{
    if s.len() == 0 {
        0
    } else {
        utf8_len(s.drop_last()) + utf8_width(s.last())
    }
}

pub fn utf8_width_of(c: char) -> (r: usize)
    ensures
        r == utf8_width(c),
        1 <= r <= 4,
{
    let u = c as u32;
    if u < 0x80 {
        1
    } else if u < 0x800 {
        2
    } else if u < 0x10000 {
        3
    } else {
        4
    }
}

/// Bytes of `s[from..to]` in UTF-8.
pub fn utf8_len_of(s: &Vec<char>, from: usize, to: usize) -> (r: usize)
    requires
        from <= to <= s@.len(),
        4 * s@.len() <= usize::MAX,
    ensures
        r == utf8_len(s@.subrange(from as int, to as int)),
        r <= 4 * (to - from),
{
    let mut n: usize = 0;
    let mut i = from;
    while i < to
        invariant
            from <= i <= to <= s@.len(),
            4 * s@.len() <= usize::MAX,
            n == utf8_len(s@.subrange(from as int, i as int)),
            n <= 4 * (i - from),
        decreases to - i,
    {
        proof {
            let t = s@.subrange(from as int, i + 1);
            assert(t.drop_last() =~= s@.subrange(from as int, i as int));
            assert(t.last() == s@[i as int]);
        }
        n = n + utf8_width_of(s[i]);
        i = i + 1;
    }
    n
}

/// The characters of `s[from..to]` as a string.
pub fn substring(s: &Vec<char>, from: usize, to: usize) -> (r: String)
    requires
        from <= to <= s@.len(),
    ensures
        r@ == s@.subrange(from as int, to as int),
{
    let mut r = String::new();
    let mut i = from;
    while i < to
        invariant
            from <= i <= to <= s@.len(),
            r@ == s@.subrange(from as int, i as int),
        decreases to - i,
    {
        push_char(&mut r, s[i]);
        assert(r@ =~= s@.subrange(from as int, i + 1));
        i = i + 1;
    }
    r
}

/// Relies on `String::push`: the character is appended.
#[verifier::external_body]
pub(crate) fn push_char(s: &mut String, c: char)
    ensures
        final(s)@ == old(s)@.push(c),
{
    s.push(c)
}

/// Decimal digits of `n`, most significant first.
pub open spec fn decimal(n: nat) -> Seq<char>
    decreases n,
{
    if n < 10 {
        seq![digit(n)]
    } else {
        decimal(n / 10).push(digit(n % 10))
    }
}

pub open spec fn digit(d: nat) -> char {
    if d == 0 { '0' } else if d == 1 { '1' } else if d == 2 { '2' } else if d == 3 { '3' }
    else if d == 4 { '4' } else if d == 5 { '5' } else if d == 6 { '6' } else if d == 7 { '7' }
    else if d == 8 { '8' } else { '9' }
}

fn digit_char(d: usize) -> (c: char)
    requires
        d < 10,
    ensures
        c == digit(d as nat),
{
    if d == 0 { '0' } else if d == 1 { '1' } else if d == 2 { '2' } else if d == 3 { '3' }
    else if d == 4 { '4' } else if d == 5 { '5' } else if d == 6 { '6' } else if d == 7 { '7' }
    else if d == 8 { '8' } else { '9' }
}

/// `n` in decimal.
pub fn to_decimal(n: usize) -> (r: String)
    ensures
        r@ == decimal(n as nat),
    decreases n,
{
    if n < 10 {
        let mut r = String::new();
        push_char(&mut r, digit_char(n));
        assert(r@ =~= decimal(n as nat));
        r
    } else {
        let mut r = to_decimal(n / 10);
        push_char(&mut r, digit_char(n % 10));
        r
    }
}

/// `s` right-aligned in a field of `width` characters, padded with spaces.
pub open spec fn pad_left(s: Seq<char>, width: nat) -> Seq<char> {
    if s.len() >= width {
        s
    } else {
        spaces((width - s.len()) as nat) + s
    }
}

/// `n` spaces.
pub open spec fn spaces(n: nat) -> Seq<char> {
    Seq::new(n, |i: int| ' ')
}

/// `n` in decimal, right-aligned in a field of `width` characters.
pub fn decimal_padded(n: usize, width: usize) -> (r: String)
    ensures
        r@ == pad_left(decimal(n as nat), width as nat),
{
    let digits = to_decimal(n);
    let len = digits.as_str().unicode_len();
    let mut r = String::new();
    let mut k: usize = len;
    while k < width
        invariant
            len == digits@.len(),
            len <= k,
            k <= width || len > width,
            len >= width ==> k == len,
            r@ == spaces((k - len) as nat),
        decreases width - k,
    {
        push_char(&mut r, ' ');
        assert(r@ =~= spaces((k + 1 - len) as nat));
        k = k + 1;
    }
    let ghost before = r@;
    r.append(digits.as_str());
    proof {
        if len >= width {
            assert(before =~= seq![]);
        }
        assert(r@ =~= pad_left(decimal(n as nat), width as nat));
    }
    r
}

} // verus!
