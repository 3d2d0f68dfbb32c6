use vstd::prelude::*;
use crate::note_map::types::{NoteLink, NoteMeta, NoteTag};
use crate::text::{
    chars_of, lines, line_ranges, skip_ws, substring, trim_end_at, trim_spec, trim_start_spec,
    utf8_len, utf8_len_of, utf8_width, utf8_width_of,
};

verus! {

pub open spec fn is_ascii_alpha(c: char) -> bool {
    let u = c as u32;
    (0x41 <= u <= 0x5a) || (0x61 <= u <= 0x7a)
}

/// A CJK unified ideograph (U+4E00 to U+9FFF): each counts as a word.
pub open spec fn is_cjk(c: char) -> bool {
    let u = c as u32;
    0x4e00 <= u <= 0x9fff
}

/// Words counted in the first `k` characters, and whether a run of ASCII
/// letters is still open.
pub open spec fn words_fold(s: Seq<char>, k: nat) -> (nat, bool)
    decreases k,
{
    if k == 0 || k > s.len() {
        (0, false)
    } else {
        let prev = words_fold(s, (k - 1) as nat);
        let c = s[k - 1];
        if is_ascii_alpha(c) {
            (prev.0, true)
        } else {
            (prev.0 + (if prev.1 {
                1nat
            } else {
                0nat
            }) + (if is_cjk(c) {
                1nat
            } else {
                0nat
            }), false)
        }
    }
}

/// Words of `s`: each run of ASCII letters is one, and so is each CJK ideograph.
pub open spec fn word_count_spec(s: Seq<char>) -> nat {
    let st = words_fold(s, s.len());
    st.0 + if st.1 {
        1nat
    } else {
        0nat
    }
}

proof fn lemma_words_fold_bound(s: Seq<char>, k: nat)
    ensures
        words_fold(s, k).0 + (if words_fold(s, k).1 {
            1nat
        } else {
            0nat
        }) <= k,
    decreases k,
{
    if k > 0 && k <= s.len() {
        lemma_words_fold_bound(s, (k - 1) as nat);
    }
}

fn is_ascii_letter(c: char) -> (r: bool)
    ensures
        r == is_ascii_alpha(c),
{
    let u = c as u32;
    (0x41 <= u && u <= 0x5a) || (0x61 <= u && u <= 0x7a)
}

fn is_cjk_char(c: char) -> (r: bool)
    ensures
        r == is_cjk(c),
{
    let u = c as u32;
    0x4e00 <= u && u <= 0x9fff
}

/// Words of `s[from..to]`.
pub(crate) fn count_words_in(s: &Vec<char>, from: usize, to: usize) -> (r: usize)
    requires
        from <= to <= s@.len(),
    ensures
        r == word_count_spec(s@.subrange(from as int, to as int)),
{
    let ghost t = s@.subrange(from as int, to as int);
    let mut count: usize = 0;
    let mut in_word = false;
    let mut i = from;
    while i < to
        invariant
            from <= i <= to <= s@.len(),
            t == s@.subrange(from as int, to as int),
            words_fold(t, (i - from) as nat) == (count as nat, in_word),
        decreases to - i,
    {
        proof {
            lemma_words_fold_bound(t, (i - from) as nat);
            assert(t[i - from] == s@[i as int]);
        }
        let c = s[i];
        if is_ascii_letter(c) {
            in_word = true;
        } else {
            if in_word {
                count = count + 1;
                in_word = false;
            }
            if is_cjk_char(c) {
                count = count + 1;
            }
        }
        i = i + 1;
    }
    proof {
        lemma_words_fold_bound(t, (to - from) as nat);
    }
    if in_word {
        count = count + 1;
    }
    count
}

/// Counts words: runs of ASCII letters, plus each CJK ideograph.
pub fn count_words(text: &str) -> (r: usize)
    ensures
        r == word_count_spec(text@),
{
    let s = chars_of(text);
    assert(s@.subrange(0, s@.len() as int) =~= s@);
    count_words_in(&s, 0, s.len())
}

/// Length of the run of `#` that starts `s`.
pub open spec fn hash_run(s: Seq<char>) -> nat
    decreases s.len(),
{
    if s.len() > 0 && s[0] == '#' {
        1 + hash_run(s.drop_first())
    } else {
        0
    }
}

/// A markdown heading line: after leading whitespace, one to six `#`, then a
/// space or tab, then text that is not blank. Gives the level and the text
/// without surrounding whitespace.
pub open spec fn heading_spec(line: Seq<char>) -> Option<(u8, Seq<char>)> {
    let t = trim_start_spec(line);
    let n = hash_run(t);
    if n == 0 || n > 6 {
        None
    } else {
        let rest = t.subrange(n as int, t.len() as int);
        if rest.len() == 0 || (rest[0] != ' ' && rest[0] != '\t') {
            None
        } else {
            let text = trim_spec(rest);
            if text.len() == 0 {
                None
            } else {
                Some((n as u8, text))
            }
        }
    }
}

/// The heading on `s[from..to]`, if that line is one.
pub(crate) fn heading_in(s: &Vec<char>, from: usize, to: usize) -> (r: Option<(u8, String)>)
    requires
        from <= to <= s@.len(),
    ensures
        match heading_spec(s@.subrange(from as int, to as int)) {
            None => r is None,
            Some((lv, text)) => r matches Some((l, t)) && l == lv && t@ == text,
        },
{
    let ghost line = s@.subrange(from as int, to as int);
    let i = skip_ws(s, from, to);
    let ghost t = s@.subrange(i as int, to as int);
    assert(trim_start_spec(line) == t);
    let mut j = i;
    while j < to && s[j] == '#'
        invariant
            i <= j <= to <= s@.len(),
            t == s@.subrange(i as int, to as int),
            hash_run(t) == (j - i) + hash_run(s@.subrange(j as int, to as int)),
        decreases to - j,
    {
        proof {
            assert(s@.subrange(j as int, to as int).drop_first() =~= s@.subrange(
                j + 1,
                to as int,
            ));
        }
        j = j + 1;
    }
    proof {
        let u = s@.subrange(j as int, to as int);
        if u.len() > 0 {
            assert(u[0] == s@[j as int]);
        }
    }
    let n = j - i;
    if n == 0 || n > 6 {
        return None;
    }
    let ghost rest = t.subrange(n as int, t.len() as int);
    assert(rest =~= s@.subrange(j as int, to as int));
    if j == to || (s[j] != ' ' && s[j] != '\t') {
        return None;
    }
    let a = skip_ws(s, j, to);
    assert(trim_start_spec(rest) == s@.subrange(a as int, to as int));
    let b = trim_end_at(s, a, to);
    if a == b {
        return None;
    }
    let text = substring(s, a, b);
    Some((n as u8, text))
}

/// Parses one line as a markdown heading: its level and its text.
pub fn parse_heading_line(line: &str) -> (r: Option<(u8, String)>)
    ensures
        match heading_spec(line@) {
            None => r is None,
            Some((lv, text)) => r matches Some((l, t)) && l == lv && t@ == text,
        },
{
    let s = chars_of(line);
    assert(s@.subrange(0, s@.len() as int) =~= s@);
    heading_in(&s, 0, s.len())
}


/// Length of the run from `i` of characters other than `]`, and other than
/// `|` when `stop_at_bar` holds.
pub open spec fn run_len(s: Seq<char>, i: int, stop_at_bar: bool) -> nat
    decreases s.len() - i,
{
    if 0 <= i < s.len() && s[i] != ']' && !(stop_at_bar && s[i] == '|') {
        1 + run_len(s, i + 1, stop_at_bar)
    } else {
        0
    }
}

/// A wiki link `[[target]]` or `[[target|alias]]` starting at `i`: the range
/// of its target and where the link ends. The target holds no `]` or `|`, the
/// alias no `]`, and neither is empty.
pub open spec fn link_at(s: Seq<char>, i: int) -> Option<(int, int, int)> {
    if 0 <= i && i + 1 < s.len() && s[i] == '[' && s[i + 1] == '[' {
        let a = i + 2;
        let p = a + run_len(s, a, true);
        if p == a {
            None
        } else {
            let q = if p < s.len() && s[p] == '|' && run_len(s, p + 1, false) > 0 {
                p + 1 + run_len(s, p + 1, false)
            } else {
                p
            };
            if q < s.len() && s.len() - q > 1 && s[q] == ']' && s[q + 1] == ']' {
                Some((a, p, q + 2))
            } else {
                None
            }
        }
    } else {
        None
    }
}

/// Link targets of a line from position `i` on, scanning left to right
/// without overlap; a target that is blank once trimmed is skipped.
pub open spec fn line_links(s: Seq<char>, i: int) -> Seq<Seq<char>>
    decreases s.len() - i,
{
    if i < 0 || i >= s.len() {
        seq![]
    } else {
        match link_at(s, i) {
            Some((a, b, e)) => {
                let t = trim_spec(s.subrange(a, b));
                (if t.len() > 0 {
                    seq![t]
                } else {
                    seq![]
                }) + if e > i {
                    line_links(s, e)
                } else {
                    seq![]
                }
            },
            None => line_links(s, i + 1),
        }
    }
}

fn run_end(s: &Vec<char>, i: usize, stop_at_bar: bool) -> (r: usize)
    requires
        i <= s@.len(),
    ensures
        r == i + run_len(s@, i as int, stop_at_bar),
        r <= s@.len(),
{
    let mut j = i;
    while j < s.len() && s[j] != ']' && !(stop_at_bar && s[j] == '|')
        invariant
            i <= j <= s@.len(),
            run_len(s@, i as int, stop_at_bar) == (j - i) + run_len(s@, j as int, stop_at_bar),
        decreases s@.len() - j,
    {
        j = j + 1;
    }
    j
}

pub(crate) fn link_at_exec(s: &Vec<char>, i: usize) -> (r: Option<(usize, usize, usize)>)
    requires
        i < s@.len(),
    ensures
        match link_at(s@, i as int) {
            None => r is None,
            Some((a, b, e)) => r matches Some((x, y, z)) && x == a && y == b && z == e,
        },
        r matches Some((x, y, z)) ==> x <= y && y < z <= s@.len() && z > i,
{
    if s.len() - i > 1 && s[i] == '[' && s[i + 1] == '[' {
        let a = i + 2;
        let p = run_end(s, a, true);
        if p == a {
            return None;
        }
        let mut q = p;
        if p < s.len() && s[p] == '|' {
            let r2 = run_end(s, p + 1, false);
            if r2 > p + 1 {
                q = r2;
            }
        }
        if q < s.len() && s.len() - q > 1 && s[q] == ']' && s[q + 1] == ']' {
            Some((a, p, q + 2))
        } else {
            None
        }
    } else {
        None
    }
}

/// The characters of `s[from..to]`.
fn slice_chars(s: &Vec<char>, from: usize, to: usize) -> (r: Vec<char>)
    requires
        from <= to <= s@.len(),
    ensures
        r@ == s@.subrange(from as int, to as int),
{
    let mut r: Vec<char> = Vec::new();
    let mut i = from;
    while i < to
        invariant
            from <= i <= to <= s@.len(),
            r@ == s@.subrange(from as int, i as int),
        decreases to - i,
    {
        r.push(s[i]);
        assert(r@ =~= s@.subrange(from as int, i + 1));
        i = i + 1;
    }
    r
}

/// Appends the links of one line, numbered `line_no`.
fn push_line_links(lc: &Vec<char>, path: &String, line_no: usize, out: &mut Vec<NoteLink>)
    ensures
        final(out)@.len() == old(out)@.len() + line_links(lc@, 0).len(),
        forall|j: int| 0 <= j < old(out)@.len() ==> #[trigger] final(out)@[j] == old(out)@[j],
        forall|j: int|
            0 <= j < line_links(lc@, 0).len() ==> {
                let l = #[trigger] final(out)@[old(out)@.len() + j];
                l.to_note@ == line_links(lc@, 0)[j] && l.line == line_no && l.from_path@ == path@
            },
{
    let ghost start_len = out@.len();
    let ghost mut acc: Seq<Seq<char>> = seq![];
    let mut i: usize = 0;
    while i < lc.len()
        invariant
            i <= lc@.len(),
            acc + line_links(lc@, i as int) == line_links(lc@, 0),
            out@.len() == start_len + acc.len(),
            start_len == old(out)@.len(),
            forall|j: int| 0 <= j < start_len ==> #[trigger] out@[j] == old(out)@[j],
            forall|j: int|
                0 <= j < acc.len() ==> {
                    let l = #[trigger] out@[start_len + j];
                    l.to_note@ == acc[j] && l.line == line_no && l.from_path@ == path@
                },
        decreases lc@.len() - i,
    {
        match link_at_exec(lc, i) {
            Some((a, b, e)) => {
                let x = skip_ws(lc, a, b);
                let y = trim_end_at(lc, x, b);
                proof {
                    assert(trim_start_spec(lc@.subrange(a as int, b as int)) == lc@.subrange(
                        x as int,
                        b as int,
                    ));
                }
                if x < y {
                    let t = substring(lc, x, y);
                    out.push(NoteLink { from_path: path.clone(), to_note: t, line: line_no });
                    proof {
                        let tt = trim_spec(lc@.subrange(a as int, b as int));
                        assert(acc.push(tt) + line_links(lc@, e as int) =~= acc + line_links(
                            lc@,
                            i as int,
                        ));
                        acc = acc.push(tt);
                    }
                } else {
                    proof {
                        assert(acc + line_links(lc@, e as int) =~= acc + line_links(
                            lc@,
                            i as int,
                        ));
                    }
                }
                i = e;
            },
            None => {
                i = i + 1;
            },
        }
    }
    assert(acc =~= line_links(lc@, 0));
}


/// Byte offset given to line `k` (from 0): every earlier line counts its
/// bytes plus one for its line ending.
pub open spec fn line_offset(s: Seq<char>, k: nat) -> nat
    decreases k,
{
    if k == 0 || k > line_ranges(s).len() {
        0
    } else {
        let r = line_ranges(s)[k - 1];
        line_offset(s, (k - 1) as nat) + utf8_len(s.subrange(r.0 as int, r.1 as int)) + 1
    }
}

/// Headings among the first `k` lines: line number (from 1), level, text,
/// and the line's byte offset.
pub open spec fn heading_entries(s: Seq<char>, k: nat) -> Seq<(nat, u8, Seq<char>, nat)>
    decreases k,
{
    if k == 0 || k > line_ranges(s).len() {
        seq![]
    } else {
        let prev = heading_entries(s, (k - 1) as nat);
        let r = line_ranges(s)[k - 1];
        match heading_spec(s.subrange(r.0 as int, r.1 as int)) {
            Some((lv, t)) => prev.push((k, lv, t, line_offset(s, (k - 1) as nat))),
            None => prev,
        }
    }
}

/// All headings of `s`.
pub open spec fn headings_of(s: Seq<char>) -> Seq<(nat, u8, Seq<char>, nat)> {
    heading_entries(s, line_ranges(s).len())
}

/// Where the section of heading `i` ends: at the first later heading (from
/// `j` on) of the same or a higher level, else at `total`. Entries are
/// (level, offset).
pub open spec fn section_end(e: Seq<(u8, nat)>, i: int, j: int, total: nat) -> nat
    decreases e.len() - j,
{
    if j < 0 || j >= e.len() {
        total
    } else if e[j].0 <= e[i].0 {
        e[j].1
    } else {
        section_end(e, i, j + 1, total)
    }
}

/// Index of the first character of `s` at or after byte `off`, scanning from
/// character `i` at byte `p`; the length when there is none.
pub open spec fn index_scan(s: Seq<char>, off: nat, i: nat, p: nat) -> nat
    decreases s.len() - i,
{
    if i >= s.len() {
        s.len()
    } else if p >= off {
        i
    } else {
        index_scan(s, off, i + 1, p + utf8_width(s[i as int]))
    }
}

/// Index of the first character of `s` that starts at or after byte `off`.
pub open spec fn index_at(s: Seq<char>, off: nat) -> nat {
    index_scan(s, off, 0, 0)
}

/// Words of the characters whose bytes start in `[start, end)`.
pub open spec fn section_words(s: Seq<char>, start: nat, end: nat) -> nat {
    if end > start && index_at(s, start) < index_at(s, end) {
        word_count_spec(s.subrange(index_at(s, start) as int, index_at(s, end) as int))
    } else {
        0
    }
}

/// Levels and offsets of heading entries.
pub open spec fn levels(e: Seq<(nat, u8, Seq<char>, nat)>) -> Seq<(u8, nat)> {
    Seq::new(e.len(), |i: int| (e[i].1, e[i].3))
}

/// The tags of note `path` with content `s`.
pub open spec fn tags_spec(tags: Seq<NoteTag>, s: Seq<char>, path: Seq<char>) -> bool {
    let e = headings_of(s);
    &&& tags.len() == e.len()
    &&& forall|i: int|
        0 <= i < e.len() ==> {
            let t = #[trigger] tags[i];
            &&& t.path@ == path
            &&& t.heading@ == e[i].2
            &&& t.level == e[i].1
            &&& t.line == e[i].0
            &&& t.start_offset == e[i].3
            &&& t.end_offset == section_end(levels(e), i, i + 1, utf8_len(s))
            &&& t.word_count == section_words(s, e[i].3, t.end_offset as nat)
        }
}

/// End of the section of heading `current_idx`: the offset of the next
/// heading of the same or a higher level, else `total_len`.
fn find_section_end(positions: &Vec<(usize, u8, String, usize)>, current_idx: usize, total_len: usize) -> (r: usize)
    requires
        current_idx < positions@.len(),
    ensures
        r == section_end(
            Seq::new(positions@.len(), |i: int| (positions@[i].1, positions@[i].3 as nat)),
            current_idx as int,
            current_idx + 1,
            total_len as nat,
        ),
{
    let ghost e = Seq::new(positions@.len(), |i: int| (positions@[i].1, positions@[i].3 as nat));
    let current_level = positions[current_idx].1;
    let n = positions.len();
    assert(current_idx < n);
    let mut i = current_idx + 1;
    while i < positions.len()
        invariant
            current_idx < i <= positions@.len(),
            current_level == e[current_idx as int].0,
            e == Seq::new(positions@.len(), |i: int| (positions@[i].1, positions@[i].3 as nat)),
            section_end(e, current_idx as int, current_idx + 1, total_len as nat) == section_end(
                e,
                current_idx as int,
                i as int,
                total_len as nat,
            ),
        decreases positions@.len() - i,
    {
        if positions[i].1 <= current_level {
            return positions[i].3;
        }
        i = i + 1;
    }
    total_len
}

/// Index of the first character at or after byte `off`.
fn index_at_exec(s: &Vec<char>, off: usize) -> (r: usize)
    requires
        4 * s@.len() <= usize::MAX,
    ensures
        r == index_at(s@, off as nat),
        r <= s@.len(),
{
    let mut i: usize = 0;
    let mut p: usize = 0;
    while i < s.len() && p < off
        invariant
            i <= s@.len(),
            4 * s@.len() <= usize::MAX,
            p <= 4 * i,
            index_at(s@, off as nat) == index_scan(s@, off as nat, i as nat, p as nat),
        decreases s@.len() - i,
    {
        p = p + utf8_width_of(s[i]);
        i = i + 1;
    }
    i
}

/// Headings of a note, each with the extent and word count of its section.
fn extract_headings(s: &Vec<char>, file_path: &str) -> (tags: Vec<NoteTag>)
    requires
        5 * s@.len() + 5 <= usize::MAX,
    ensures
        tags_spec(tags@, s@, file_path@),
{
    let ranges = lines(s);
    let ghost e_all = headings_of(s@);
    let mut positions: Vec<(usize, u8, String, usize)> = Vec::new();
    let mut offset: usize = 0;
    let mut k: usize = 0;
    while k < ranges.len()
        invariant
            k <= ranges@.len(),
            ranges@ == line_ranges(s@),
            5 * s@.len() + 5 <= usize::MAX,
            forall|j: int| 0 <= j < ranges@.len() ==> #[trigger] ranges@[j].0 <= ranges@[j].1 <= s@.len(),
            forall|j: int| 0 < j < ranges@.len() ==> ranges@[j - 1].1 < #[trigger] ranges@[j].0,
            offset == line_offset(s@, k as nat),
            k < ranges@.len() ==> offset <= 5 * ranges@[k as int].0,
            k == ranges@.len() && k > 0 ==> offset <= 5 * ranges@[k - 1].1 + 1,
            positions@.len() == heading_entries(s@, k as nat).len(),
            forall|j: int|
                0 <= j < positions@.len() ==> {
                    let p = #[trigger] positions@[j];
                    let e = heading_entries(s@, k as nat)[j];
                    p.0 == e.0 && p.1 == e.1 && p.2@ == e.2 && p.3 == e.3
                },
        decreases ranges@.len() - k,
    {
        let (from, to) = ranges[k];
        let ghost before = positions@;
        match heading_in(s, from, to) {
            Some((level, text)) => {
                positions.push((k + 1, level, text, offset));
            },
            None => {},
        }
        proof {
            let ep = heading_entries(s@, k as nat);
            let en = heading_entries(s@, (k + 1) as nat);
            assert forall|j: int| 0 <= j < positions@.len() implies {
                let p = #[trigger] positions@[j];
                let e = en[j];
                p.0 == e.0 && p.1 == e.1 && p.2@ == e.2 && p.3 == e.3
            } by {
                if j < before.len() {
                    assert(positions@[j] == before[j]);
                    assert(en[j] == ep[j]);
                }
            }
        }
        let width = utf8_len_of(s, from, to);
        proof {
            if k + 1 < ranges@.len() {
                assert(ranges@[k as int].1 < ranges@[k + 1].0);
            }
        }
        offset = offset + width + 1;
        k = k + 1;
    }
    let total = utf8_len_of(s, 0, s.len());
    assert(s@.subrange(0, s@.len() as int) =~= s@);
    let ghost lv = Seq::new(positions@.len(), |i: int| (positions@[i].1, positions@[i].3 as nat));
    assert(lv =~= levels(e_all));
    let mut tags: Vec<NoteTag> = Vec::new();
    let mut i: usize = 0;
    while i < positions.len()
        invariant
            i <= positions@.len(),
            positions@.len() == e_all.len(),
            e_all == headings_of(s@),
            lv == levels(e_all),
            lv == Seq::new(positions@.len(), |i: int| (positions@[i].1, positions@[i].3 as nat)),
            total == utf8_len(s@),
            5 * s@.len() + 5 <= usize::MAX,
            forall|j: int|
                0 <= j < positions@.len() ==> {
                    let p = #[trigger] positions@[j];
                    let e = e_all[j];
                    p.0 == e.0 && p.1 == e.1 && p.2@ == e.2 && p.3 == e.3
                },
            tags@.len() == i,
            forall|j: int|
                0 <= j < i ==> {
                    let t = #[trigger] tags@[j];
                    &&& t.path@ == file_path@
                    &&& t.heading@ == e_all[j].2
                    &&& t.level == e_all[j].1
                    &&& t.line == e_all[j].0
                    &&& t.start_offset == e_all[j].3
                    &&& t.end_offset == section_end(lv, j, j + 1, utf8_len(s@))
                    &&& t.word_count == section_words(s@, e_all[j].3, t.end_offset as nat)
                },
        decreases positions@.len() - i,
    {
        let start = positions[i].3;
        let end = find_section_end(&positions, i, total);
        let word_count = if end > start {
            let a = index_at_exec(s, start);
            let b = index_at_exec(s, end);
            if a < b {
                count_words_in(s, a, b)
            } else {
                0
            }
        } else {
            0
        };
        let tag = NoteTag {
            path: String::from_str(file_path),
            heading: positions[i].2.clone(),
            level: positions[i].1,
            line: positions[i].0,
            start_offset: start,
            end_offset: end,
            word_count,
        };
        tags.push(tag);
        i = i + 1;
    }
    tags
}


/// Links among the first `k` lines: line number (from 1) and target.
pub open spec fn links_fold(s: Seq<char>, k: nat) -> Seq<(nat, Seq<char>)>
    decreases k,
{
    if k == 0 || k > line_ranges(s).len() {
        seq![]
    } else {
        let r = line_ranges(s)[k - 1];
        let ls = line_links(s.subrange(r.0 as int, r.1 as int), 0);
        links_fold(s, (k - 1) as nat) + Seq::new(ls.len(), |j: int| (k, ls[j]))
    }
}

/// All wiki links of `s`, line by line.
pub open spec fn links_of(s: Seq<char>) -> Seq<(nat, Seq<char>)> {
    links_fold(s, line_ranges(s).len())
}

/// The links of note `path` with content `s`.
pub open spec fn links_spec(links: Seq<NoteLink>, s: Seq<char>, path: Seq<char>) -> bool {
    let e = links_of(s);
    &&& links.len() == e.len()
    &&& forall|i: int|
        0 <= i < e.len() ==> {
            let l = #[trigger] links[i];
            l.from_path@ == path && l.line == e[i].0 && l.to_note@ == e[i].1
        }
}

fn wikilinks_in(s: &Vec<char>, file_path: &str) -> (links: Vec<NoteLink>)
    ensures
        links_spec(links@, s@, file_path@),
{
    let ranges = lines(s);
    let path = String::from_str(file_path);
    let mut out: Vec<NoteLink> = Vec::new();
    let mut k: usize = 0;
    while k < ranges.len()
        invariant
            k <= ranges@.len(),
            ranges@ == line_ranges(s@),
            path@ == file_path@,
            forall|j: int| 0 <= j < ranges@.len() ==> #[trigger] ranges@[j].0 <= ranges@[j].1 <= s@.len(),
            out@.len() == links_fold(s@, k as nat).len(),
            forall|i: int|
                0 <= i < out@.len() ==> {
                    let l = #[trigger] out@[i];
                    let e = links_fold(s@, k as nat)[i];
                    l.from_path@ == file_path@ && l.line == e.0 && l.to_note@ == e.1
                },
        decreases ranges@.len() - k,
    {
        let (from, to) = ranges[k];
        let lc = slice_chars(s, from, to);
        let ghost before = out@;
        push_line_links(&lc, &path, k + 1, &mut out);
        proof {
            let prev = links_fold(s@, k as nat);
            let next = links_fold(s@, (k + 1) as nat);
            let ls = line_links(lc@, 0);
            assert(next == prev + Seq::new(ls.len(), |j: int| ((k + 1) as nat, ls[j])));
            assert forall|i: int| 0 <= i < out@.len() implies {
                let l = #[trigger] out@[i];
                let e = next[i];
                l.from_path@ == file_path@ && l.line == e.0 && l.to_note@ == e.1
            } by {
                if i < before.len() {
                    assert(out@[i] == before[i]);
                    assert(next[i] == prev[i]);
                } else {
                    let j = i - before.len();
                    assert(out@[before.len() + j] == out@[i]);
                }
            }
        }
        k = k + 1;
    }
    out
}

/// Wiki links of a note, line by line, left to right.
pub fn extract_wikilinks(content: &str, file_path: &str) -> (links: Vec<NoteLink>)
    ensures
        links_spec(links@, content@, file_path@),
{
    let s = chars_of(content);
    wikilinks_in(&s, file_path)
}

/// Headings and wiki links of a markdown note.
pub fn parse_markdown(content: &str, file_path: &str) -> (r: (Vec<NoteTag>, Vec<NoteLink>))
    requires
        5 * content@.len() + 5 <= usize::MAX,
    ensures
        tags_spec(r.0@, content@, file_path@),
        links_spec(r.1@, content@, file_path@),
{
    let s = chars_of(content);
    let tags = extract_headings(&s, file_path);
    let links = wikilinks_in(&s, file_path);
    (tags, links)
}

/// What `Path::file_stem` gives for a path: its final component without
/// the extension, when it has a final component.
pub uninterp spec fn file_stem_of(path: Seq<char>) -> Option<Seq<char>>;

/// Relies on `std::path::Path::file_stem`. The path is valid UTF-8, so the
/// stem is too and `to_str` keeps all of it.
#[verifier::external_body]
pub(crate) fn file_stem(path: &str) -> (r: Option<String>)
    ensures
        match r {
            Some(x) => file_stem_of(path@) == Some(x@),
            None => file_stem_of(path@) is None,
        },
{
    std::path::Path::new(path).file_stem().and_then(|s| s.to_str()).map(|s| s.to_string())
}

/// A note's title from its path: the file name without extension, else "Untitled".
pub open spec fn title_from_path(path: Seq<char>) -> Seq<char> {
    match file_stem_of(path) {
        Some(x) => x,
        None => "Untitled"@,
    }
}

/// The file name of `path` without its extension, or "Untitled".
pub fn extract_title_from_path(path: &str) -> (r: String)
    ensures
        r@ == title_from_path(path@),
{
    match file_stem(path) {
        Some(x) => x,
        None => String::from_str("Untitled"),
    }
}

/// The text of the first level-one heading from line `k` (from 0) on.
pub open spec fn first_title(s: Seq<char>, k: int) -> Option<Seq<char>>
    decreases line_ranges(s).len() - k,
{
    if k < 0 || k >= line_ranges(s).len() {
        None
    } else {
        let r = line_ranges(s)[k];
        match heading_spec(s.subrange(r.0 as int, r.1 as int)) {
            Some((lv, t)) => if lv == 1 {
                Some(t)
            } else {
                first_title(s, k + 1)
            },
            None => first_title(s, k + 1),
        }
    }
}

/// A note's title: its first level-one heading, else its file name.
pub open spec fn title_spec(s: Seq<char>, path: Seq<char>) -> Seq<char> {
    match first_title(s, 0) {
        Some(t) => t,
        None => title_from_path(path),
    }
}

/// The first `# ` heading of the note, else the file name without extension.
pub fn extract_title(content: &str, file_path: &str) -> (r: String)
    ensures
        r@ == title_spec(content@, file_path@),
{
    let s = chars_of(content);
    let ranges = lines(&s);
    let mut k: usize = 0;
    while k < ranges.len()
        invariant
            k <= ranges@.len(),
            ranges@ == line_ranges(s@),
            s@ == content@,
            forall|j: int| 0 <= j < ranges@.len() ==> #[trigger] ranges@[j].0 <= ranges@[j].1 <= s@.len(),
            first_title(s@, 0) == first_title(s@, k as int),
        decreases ranges@.len() - k,
    {
        let (from, to) = ranges[k];
        match heading_in(&s, from, to) {
            Some((level, text)) => {
                if level == 1 {
                    return text;
                }
            },
            None => {},
        }
        k = k + 1;
    }
    extract_title_from_path(file_path)
}

/// Everything the note map records of one note; incoming links are counted later.
pub fn build_note_meta(content: &str, path: &str, mtime: u64) -> (r: NoteMeta)
    requires
        5 * content@.len() + 5 <= usize::MAX,
    ensures
        r.path@ == path@,
        r.title@ == title_spec(content@, path@),
        tags_spec(r.tags@, content@, path@),
        links_spec(r.outlinks@, content@, path@),
        r.inlink_count == 0,
        r.word_count == word_count_spec(content@),
        r.mtime == mtime,
{
    let (tags, outlinks) = parse_markdown(content, path);
    let title = extract_title(content, path);
    let word_count = count_words(content);
    NoteMeta {
        path: String::from_str(path),
        title,
        tags,
        outlinks,
        inlink_count: 0,
        word_count,
        mtime,
    }
}

} // verus!
