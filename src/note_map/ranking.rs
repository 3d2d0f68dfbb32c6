use vstd::prelude::*;
use crate::note_map::parser::{file_stem, file_stem_of, link_at, link_at_exec};
use crate::note_map::types::{NoteLink, NoteMeta};
use crate::text::{chars_of, skip_ws, substring, trim_end_at, trim_spec, trim_start_spec};

verus! {

/// Link targets of `s` from position `i` on, trimmed, blank ones included.
pub open spec fn mention_links(s: Seq<char>, i: int) -> Seq<Seq<char>>
    decreases s.len() - i,
{
    if i < 0 || i >= s.len() {
        seq![]
    } else {
        match link_at(s, i) {
            Some((a, b, e)) => seq![trim_spec(s.subrange(a, b))] + if e > i {
                mention_links(s, e)
            } else {
                seq![]
            },
            None => mention_links(s, i + 1),
        }
    }
}

/// A character that may appear in a note name written as `name.md`: an
/// ASCII letter or digit, `_`, `-`, or a CJK ideograph.
pub open spec fn is_name_char(c: char) -> bool {
    let u = c as u32;
    (0x30 <= u <= 0x39) || (0x41 <= u <= 0x5a) || (0x61 <= u <= 0x7a) || u == 0x5f || u == 0x2d
        || (0x4e00 <= u <= 0x9fff)
}

/// Length of the run of name characters from `i`.
pub open spec fn name_run(s: Seq<char>, i: int) -> nat
    decreases s.len() - i,
{
    if 0 <= i < s.len() && is_name_char(s[i]) {
        1 + name_run(s, i + 1)
    } else {
        0
    }
}

/// Where the name of a `name.md` mention that starts at `i` ends.
pub open spec fn md_at(s: Seq<char>, i: int) -> Option<int> {
    let p = i + name_run(s, i);
    if p > i && p + 3 <= s.len() && s[p] == '.' && s[p + 1] == 'm' && s[p + 2] == 'd' {
        Some(p)
    } else {
        None
    }
}

/// Names of the `name.md` mentions of `s` from position `i` on, scanning
/// left to right without overlap.
pub open spec fn md_names(s: Seq<char>, i: int) -> Seq<Seq<char>>
    decreases s.len() - i,
{
    if i < 0 || i >= s.len() {
        seq![]
    } else {
        match md_at(s, i) {
            Some(p) => seq![s.subrange(i, p)] + md_names(s, p + 3),
            None => md_names(s, i + 1),
        }
    }
}

/// The notes a message mentions: wiki link targets, then `name.md` names.
pub open spec fn mentions_spec(s: Seq<char>) -> Seq<Seq<char>> {
    mention_links(s, 0) + md_names(s, 0)
}

fn is_name_char_exec(c: char) -> (r: bool)
    ensures
        r == is_name_char(c),
{
    let u = c as u32;
    (0x30 <= u && u <= 0x39) || (0x41 <= u && u <= 0x5a) || (0x61 <= u && u <= 0x7a) || u == 0x5f
        || u == 0x2d || (0x4e00 <= u && u <= 0x9fff)
}

fn md_at_exec(s: &Vec<char>, i: usize) -> (r: Option<usize>)
    requires
        i < s@.len(),
    ensures
        match md_at(s@, i as int) {
            Some(p) => r == Some(p as usize),
            None => r is None,
        },
        r matches Some(p) ==> i < p && p + 3 <= s@.len(),
{
    let mut p = i;
    while p < s.len() && is_name_char_exec(s[p])
        invariant
            i <= p <= s@.len(),
            name_run(s@, i as int) == (p - i) + name_run(s@, p as int),
        decreases s@.len() - p,
    {
        p = p + 1;
    }
    if p > i && s.len() - p >= 3 && s[p] == '.' && s[p + 1] == 'm' && s[p + 2] == 'd' {
        Some(p)
    } else {
        None
    }
}

/// Strings and their characters.
pub open spec fn views(v: Seq<String>) -> Seq<Seq<char>> {
    Seq::new(v.len(), |i: int| v[i]@)
}

/// Note names that a user's message mentions: the targets of its wiki links
/// (trimmed), then the names of the `name.md` files it writes out.
pub fn extract_mentioned_notes(message: &str) -> (r: Vec<String>)
    ensures
        views(r@) == mentions_spec(message@),
{
    let s = chars_of(message);
    let mut out: Vec<String> = Vec::new();
    let mut i: usize = 0;
    while i < s.len()
        invariant
            i <= s@.len(),
            s@ == message@,
            views(out@) + mention_links(s@, i as int) == mention_links(s@, 0),
        decreases s@.len() - i,
    {
        match link_at_exec(&s, i) {
            Some((a, b, e)) => {
                let x = skip_ws(&s, a, b);
                let y = trim_end_at(&s, x, b);
                let t = substring(&s, x, y);
                proof {
                    assert(trim_start_spec(s@.subrange(a as int, b as int)) == s@.subrange(
                        x as int,
                        b as int,
                    ));
                }
                let ghost before = views(out@);
                out.push(t);
                assert(views(out@) =~= before.push(trim_spec(s@.subrange(a as int, b as int))));
                assert(views(out@) + mention_links(s@, e as int) =~= before + mention_links(
                    s@,
                    i as int,
                ));
                i = e;
            },
            None => {
                i = i + 1;
            },
        }
    }
    assert(views(out@) =~= mention_links(s@, 0));
    let ghost links = views(out@);
    let mut j: usize = 0;
    while j < s.len()
        invariant
            j <= s@.len(),
            views(out@) + md_names(s@, j as int) == links + md_names(s@, 0),
        decreases s@.len() - j,
    {
        match md_at_exec(&s, j) {
            Some(p) => {
                let name = substring(&s, j, p);
                let ghost before = views(out@);
                out.push(name);
                assert(views(out@) =~= before.push(s@.subrange(j as int, p as int)));
                assert(views(out@) + md_names(s@, p + 3) =~= before + md_names(s@, j as int));
                j = p + 3;
            },
            None => {
                j = j + 1;
            },
        }
    }
    assert(views(out@) =~= mentions_spec(message@));
    out
}


/// What `str::to_lowercase` gives for a string.
pub uninterp spec fn lower_of(s: Seq<char>) -> Seq<char>;

/// Relies on `str::to_lowercase`: the result depends on the characters alone.
#[verifier::external_body]
fn lowercase(s: &str) -> (r: String)
    ensures
        r@ == lower_of(s@),
{
    s.to_lowercase()
}

/// The name that links use for a note: its file name without extension,
/// lowercased (empty when the path has none).
pub open spec fn note_key(path: Seq<char>) -> Seq<char> {
    lower_of(
        match file_stem_of(path) {
            Some(x) => x,
            None => seq![],
        },
    )
}

/// The path of the last note whose key is `name`.
pub open spec fn resolve_last(notes: Seq<NoteMeta>, name: Seq<char>) -> Option<Seq<char>>
    decreases notes.len(),
{
    if notes.len() == 0 {
        None
    } else if note_key(notes.last().path@) == name {
        Some(notes.last().path@)
    } else {
        resolve_last(notes.drop_last(), name)
    }
}

/// Paths that the links resolve to, in order; unresolved links are skipped.
/// A link matches a note's key case-insensitively.
pub open spec fn link_targets(links: Seq<NoteLink>, notes: Seq<NoteMeta>) -> Seq<Seq<char>>
    decreases links.len(),
{
    if links.len() == 0 {
        seq![]
    } else {
        link_targets(links.drop_last(), notes) + match resolve_last(
            notes,
            lower_of(links.last().to_note@),
        ) {
            Some(p) => seq![p],
            None => seq![],
        }
    }
}

/// Targets of the outgoing links of every note of `from`, note by note.
pub open spec fn all_targets(from: Seq<NoteMeta>, notes: Seq<NoteMeta>) -> Seq<Seq<char>>
    decreases from.len(),
{
    if from.len() == 0 {
        seq![]
    } else {
        all_targets(from.drop_last(), notes) + link_targets(from.last().outlinks@, notes)
    }
}

/// How often `p` occurs in `ts`.
pub open spec fn count_of(ts: Seq<Seq<char>>, p: Seq<char>) -> nat
    decreases ts.len(),
{
    if ts.len() == 0 {
        0
    } else {
        count_of(ts.drop_last(), p) + if ts.last() == p {
            1nat
        } else {
            0nat
        }
    }
}

/// Incoming links of the note at `path` among `notes`.
pub open spec fn inlinks(notes: Seq<NoteMeta>, path: Seq<char>) -> nat {
    count_of(all_targets(notes, notes), path)
}

/// Index of the last note whose key (from `keys`) is `name`.
fn resolve_index(keys: &Vec<String>, name: &String, Ghost(notes): Ghost<Seq<NoteMeta>>) -> (r: Option<usize>)
    requires
        keys@.len() == notes.len(),
        forall|i: int| 0 <= i < keys@.len() ==> (#[trigger] keys@[i])@ == note_key(notes[i].path@),
    ensures
        match resolve_last(notes, name@) {
            Some(p) => r matches Some(k) && k < notes.len() && notes[k as int].path@ == p,
            None => r is None,
        },
{
    let mut k = keys.len();
    assert(notes.take(k as int) =~= notes);
    while k > 0
        invariant
            k <= keys@.len(),
            keys@.len() == notes.len(),
            forall|i: int| 0 <= i < keys@.len() ==> (#[trigger] keys@[i])@ == note_key(notes[i].path@),
            resolve_last(notes, name@) == resolve_last(notes.take(k as int), name@),
        decreases k,
    {
        proof {
            assert(notes.take(k as int).drop_last() =~= notes.take(k - 1));
            assert(notes.take(k as int).last() == notes[k - 1]);
        }
        if keys[k - 1] == *name {
            return Some(k - 1);
        }
        k = k - 1;
    }
    None
}

/// Views of the strings of `v`.
pub open spec fn string_views(v: Seq<String>) -> Seq<Seq<char>> {
    Seq::new(v.len(), |i: int| v[i]@)
}

fn count_in(ts: &Vec<String>, p: &String) -> (r: usize)
    ensures
        r == count_of(string_views(ts@), p@),
{
    let mut c: usize = 0;
    let mut i: usize = 0;
    while i < ts.len()
        invariant
            i <= ts@.len(),
            c == count_of(string_views(ts@).take(i as int), p@),
            c <= i,
        decreases ts@.len() - i,
    {
        proof {
            assert(string_views(ts@).take(i + 1).drop_last() =~= string_views(ts@).take(i as int));
        }
        if ts[i] == *p {
            c = c + 1;
        }
        i = i + 1;
    }
    assert(string_views(ts@).take(ts@.len() as int) =~= string_views(ts@));
    c
}

/// Sets each note's count of incoming links: links from any note (itself
/// included) whose target, lowercased, is the note's key; when several
/// notes share a key, the last of them receives the link.
pub fn update_inlink_counts(notes: &mut Vec<NoteMeta>)
    ensures
        final(notes)@.len() == old(notes)@.len(),
        forall|i: int|
            0 <= i < old(notes)@.len() ==> {
                let n = #[trigger] final(notes)@[i];
                let o = old(notes)@[i];
                &&& n.inlink_count == inlinks(old(notes)@, o.path@)
                &&& n.path == o.path
                &&& n.title == o.title
                &&& n.tags == o.tags
                &&& n.outlinks == o.outlinks
                &&& n.word_count == o.word_count
                &&& n.mtime == o.mtime
            },
{
    let ghost orig = notes@;
    let mut keys: Vec<String> = Vec::new();
    let mut i: usize = 0;
    while i < notes.len()
        invariant
            i <= notes@.len(),
            notes@ == orig,
            keys@.len() == i,
            forall|j: int| 0 <= j < i ==> (#[trigger] keys@[j])@ == note_key(orig[j].path@),
        decreases notes@.len() - i,
    {
        let stem = match file_stem(notes[i].path.as_str()) {
            Some(x) => x,
            None => String::new(),
        };
        keys.push(lowercase(stem.as_str()));
        i = i + 1;
    }
    let mut targets: Vec<String> = Vec::new();
    let mut j: usize = 0;
    while j < notes.len()
        invariant
            j <= notes@.len(),
            notes@ == orig,
            keys@.len() == orig.len(),
            forall|q: int| 0 <= q < keys@.len() ==> (#[trigger] keys@[q])@ == note_key(orig[q].path@),
            string_views(targets@) == all_targets(orig.take(j as int), orig),
        decreases notes@.len() - j,
    {
        let links = &notes[j].outlinks;
        let ghost base = string_views(targets@);
        let mut m: usize = 0;
        while m < links.len()
            invariant
                m <= links@.len(),
                j < orig.len(),
                links == &orig[j as int].outlinks,
                notes@ == orig,
                keys@.len() == orig.len(),
                forall|q: int| 0 <= q < keys@.len() ==> (#[trigger] keys@[q])@ == note_key(orig[q].path@),
                string_views(targets@) == base + link_targets(links@.take(m as int), orig),
            decreases links@.len() - m,
        {
            proof {
                assert(links@.take(m + 1).drop_last() =~= links@.take(m as int));
                assert(links@.take(m + 1).last() == links@[m as int]);
            }
            let t = lowercase(links[m].to_note.as_str());
            match resolve_index(&keys, &t, Ghost(orig)) {
                Some(k) => {
                    let p = notes[k].path.clone();
                    let ghost before = string_views(targets@);
                    targets.push(p);
                    assert(string_views(targets@) =~= before.push(orig[k as int].path@));
                },
                None => {},
            }
            proof {
                assert(string_views(targets@) =~= base + link_targets(links@.take(m + 1), orig));
            }
            m = m + 1;
        }
        proof {
            assert(links@.take(links@.len() as int) =~= links@);
            assert(orig.take(j + 1).drop_last() =~= orig.take(j as int));
            assert(orig.take(j + 1).last() == orig[j as int]);
        }
        j = j + 1;
    }
    assert(orig.take(orig.len() as int) =~= orig);
    let mut taken: Vec<NoteMeta> = Vec::new();
    std::mem::swap(notes, &mut taken);
    while taken.len() > 0
        invariant
            notes@.len() + taken@.len() == orig.len(),
            taken@ == orig.subrange(notes@.len() as int, orig.len() as int),
            string_views(targets@) == all_targets(orig, orig),
            forall|i: int|
                0 <= i < notes@.len() ==> {
                    let n = #[trigger] notes@[i];
                    let o = orig[i];
                    &&& n.inlink_count == inlinks(orig, o.path@)
                    &&& n.path == o.path
                    &&& n.title == o.title
                    &&& n.tags == o.tags
                    &&& n.outlinks == o.outlinks
                    &&& n.word_count == o.word_count
                    &&& n.mtime == o.mtime
                },
        decreases taken@.len(),
    {
        let ghost k = notes@.len();
        let mut n = taken.remove(0);
        assert(n == orig[k as int]);
        n.inlink_count = count_in(&targets, &n.path);
        notes.push(n);
        assert(taken@ =~= orig.subrange(notes@.len() as int, orig.len() as int));
    }
}


} // verus!
