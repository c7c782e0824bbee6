//! The selection: paths marked for a move, kept as a sequence without
//! repeats, whatever directory is on screen.

use vstd::prelude::*;

verus! {

/// The characters of each string.
pub open spec fn views(v: Seq<String>) -> Seq<Seq<char>> {
    v.map_values(|s: String| s@)
}

/// `s` without any element equal to `e`, the rest in their order.
pub open spec fn remove_all(s: Seq<Seq<char>>, e: Seq<char>) -> Seq<Seq<char>>
    decreases s.len(),
{
    if s.len() == 0 {
        s
    } else {
        let rest = remove_all(s.drop_last(), e);
        if s.last() == e {
            rest
        } else {
            rest.push(s.last())
        }
    }
}

/// The selection after toggling `e`: removed where it is present, else
/// appended at the end.
pub open spec fn toggled(sel: Seq<Seq<char>>, e: Seq<char>) -> Seq<Seq<char>> {
    if sel.contains(e) {
        remove_all(sel, e)
    } else {
        sel.push(e)
    }
}

/// What a pushed sequence contains.
proof fn lemma_push_contains(s: Seq<Seq<char>>, y: Seq<char>)
    ensures
        forall|x: Seq<char>| #[trigger] s.push(y).contains(x) <==> (s.contains(x) || x == y),
        s.no_duplicates() && !s.contains(y) ==> s.push(y).no_duplicates(),
{
    let t = s.push(y);
    assert forall|x: Seq<char>| #[trigger] t.contains(x) <==> (s.contains(x) || x == y) by {
        if t.contains(x) && x != y {
            let k = choose|k: int| 0 <= k < t.len() && t[k] == x;
            assert(s[k] == x);
        }
        if s.contains(x) {
            let k = choose|k: int| 0 <= k < s.len() && s[k] == x;
            assert(t[k] == x);
        }
        if x == y {
            assert(t[s.len() as int] == y);
        }
    }
    if s.no_duplicates() && !s.contains(y) {
        assert forall|i: int, j: int| 0 <= i < t.len() && 0 <= j < t.len() && i != j implies t[i]
            != t[j] by {
            if i < s.len() && j < s.len() {
                assert(t[i] == s[i] && t[j] == s[j]);
            } else if i < s.len() {
                assert(t[i] == s[i]);
            } else if j < s.len() {
                assert(t[j] == s[j]);
            }
        }
    }
}

/// What `remove_all` keeps: every element but `e`, no repeat added, and
/// nothing changed where `e` is absent.
pub proof fn lemma_remove_all(s: Seq<Seq<char>>, e: Seq<char>)
    ensures
        forall|x: Seq<char>| #[trigger]
            remove_all(s, e).contains(x) <==> (s.contains(x) && x != e),
        s.no_duplicates() ==> remove_all(s, e).no_duplicates(),
        !s.contains(e) ==> remove_all(s, e) == s,
    decreases s.len(),
{
    if s.len() > 0 {
        let init = s.drop_last();
        let rest = remove_all(init, e);
        lemma_remove_all(init, e);
        assert(s == init.push(s.last()));
        lemma_push_contains(init, s.last());
        lemma_push_contains(rest, s.last());
        if s.no_duplicates() {
            assert(init.no_duplicates()) by {
                assert forall|i: int, j: int|
                    0 <= i < init.len() && 0 <= j < init.len() && i != j implies init[i]
                    != init[j] by {
                    assert(s[i] == init[i] && s[j] == init[j]);
                }
            }
            assert(!init.contains(s.last())) by {
                if init.contains(s.last()) {
                    let k = choose|k: int| 0 <= k < init.len() && init[k] == s.last();
                    assert(s[k] == s[s.len() - 1]);
                }
            }
        }
    }
}

/// Toggling keeps the selection free of repeats.
pub proof fn lemma_toggled_no_duplicates(sel: Seq<Seq<char>>, e: Seq<char>)
    requires
        sel.no_duplicates(),
    ensures
        toggled(sel, e).no_duplicates(),
        forall|x: Seq<char>| #[trigger]
            toggled(sel, e).contains(x) <==> (if x == e {
                !sel.contains(e)
            } else {
                sel.contains(x)
            }),
{
    lemma_remove_all(sel, e);
    lemma_push_contains(sel, e);
}

/// Toggling the same path twice leaves the same paths selected, and, where
/// the path was not selected, the very same sequence.
pub proof fn law_toggle_twice(sel: Seq<Seq<char>>, e: Seq<char>)
    requires
        sel.no_duplicates(),
    ensures
        toggled(toggled(sel, e), e).to_set() == sel.to_set(),
        toggled(toggled(sel, e), e).no_duplicates(),
        !sel.contains(e) ==> toggled(toggled(sel, e), e) == sel,
{
    lemma_toggled_no_duplicates(sel, e);
    lemma_toggled_no_duplicates(toggled(sel, e), e);
    let twice = toggled(toggled(sel, e), e);
    assert(twice.to_set() =~= sel.to_set());
    if !sel.contains(e) {
        let once = sel.push(e);
        assert(once.contains(e)) by {
            assert(once[sel.len() as int] == e);
        }
        assert(once.drop_last() == sel);
        assert(remove_all(once, e) == remove_all(sel, e));
        lemma_remove_all(sel, e);
    }
}

/// Whether `v` holds a string equal to `e`.
pub fn holds(v: &Vec<String>, e: &String) -> (r: bool)
    ensures
        r == views(v@).contains(e@),
{
    let mut k: usize = 0;
    while k < v.len()
        invariant
            k <= v.len(),
            forall|j: int| 0 <= j < k ==> v@[j]@ != e@,
        decreases v.len() - k,
    {
        if v[k] == *e {
            assert(views(v@)[k as int] == e@);
            return true;
        }
        k = k + 1;
    }
    assert(!views(v@).contains(e@)) by {
        if views(v@).contains(e@) {
            let j = choose|j: int| 0 <= j < views(v@).len() && views(v@)[j] == e@;
            assert(v@[j]@ == e@);
        }
    }
    false
}

/// A copy of `v` without the strings equal to `e`.
pub fn without(v: &Vec<String>, e: &String) -> (r: Vec<String>)
    ensures
        views(r@) == remove_all(views(v@), e@),
{
    let mut out: Vec<String> = Vec::new();
    let mut k: usize = 0;
    while k < v.len()
        invariant
            k <= v.len(),
            views(out@) == remove_all(views(v@.subrange(0, k as int)), e@),
        decreases v.len() - k,
    {
        let ghost before = out@;
        let ghost pre = v@.subrange(0, k as int);
        let ghost next = v@.subrange(0, k + 1);
        assert(views(next).drop_last() =~= views(pre));
        assert(views(next).last() == v@[k as int]@);
        if v[k] != *e {
            out.push(v[k].clone());
            assert(views(out@) =~= views(before).push(v@[k as int]@));
        }
        k = k + 1;
    }
    assert(v@.subrange(0, v.len() as int) =~= v@);
    out
}

} // verus!
