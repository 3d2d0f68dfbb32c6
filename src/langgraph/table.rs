use vstd::prelude::*;

verus! {

/// The value of the first entry whose key is `k`.
pub open spec fn assoc<V>(s: Seq<(String, V)>, k: Seq<char>) -> Option<V>
    decreases s.len(),
{
    if s.len() == 0 {
        None
    } else if s[0].0@ == k {
        Some(s[0].1)
    } else {
        assoc(s.drop_first(), k)
    }
}

/// Whether `k` occurs in a list of names.
pub open spec fn has_name(s: Seq<String>, k: Seq<char>) -> bool {
    exists|i: int| 0 <= i < s.len() && #[trigger] s[i]@ == k
}

proof fn lemma_assoc_skip<V>(s: Seq<(String, V)>, i: int, k: Seq<char>)
    requires
        0 <= i < s.len(),
        s[i].0@ != k,
    ensures
        assoc(s.subrange(i, s.len() as int), k) == assoc(s.subrange(i + 1, s.len() as int), k),
{
    let t = s.subrange(i, s.len() as int);
    assert(t.drop_first() =~= s.subrange(i + 1, s.len() as int));
}

/// Position of the first entry whose key is `k`.
pub fn find_key<V>(v: &Vec<(String, V)>, k: &String) -> (r: Option<usize>)
    ensures
        match r {
            Some(i) => i < v@.len() && v@[i as int].0@ == k@ && assoc(v@, k@) == Some(
                v@[i as int].1,
            ),
            None => assoc(v@, k@) is None,
        },
{
    let mut i: usize = 0;
    assert(v@.subrange(0, v@.len() as int) =~= v@);
    while i < v.len()
        invariant
            i <= v@.len(),
            assoc(v@, k@) == assoc(v@.subrange(i as int, v@.len() as int), k@),
        decreases v@.len() - i,
    {
        if v[i].0 == *k {
            proof {
                let t = v@.subrange(i as int, v@.len() as int);
                assert(t[0] == v@[i as int]);
            }
            return Some(i);
        }
        proof {
            lemma_assoc_skip(v@, i as int, k@);
        }
        i = i + 1;
    }
    assert(v@.subrange(i as int, v@.len() as int).len() == 0);
    None
}

/// Whether `k` occurs in `v`.
pub fn contains_name(v: &Vec<String>, k: &String) -> (r: bool)
    ensures
        r == has_name(v@, k@),
{
    let mut i: usize = 0;
    while i < v.len()
        invariant
            i <= v@.len(),
            forall|j: int| 0 <= j < i ==> v@[j]@ != k@,
        decreases v@.len() - i,
    {
        if v[i] == *k {
            return true;
        }
        i = i + 1;
    }
    false
}

} // verus!
