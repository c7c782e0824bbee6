//! The cursor: an index into the listing that wraps at both ends.

use vstd::prelude::*;

verus! {

/// The index below `i` in a listing of `len` entries, back to the top past
/// the last one.
pub open spec fn down_index(i: nat, len: nat) -> nat {
    if i + 1 >= len {
        0
    } else {
        i + 1
    }
}

/// The index above `i` in a listing of `len` entries, round to the last one
/// from the top.
pub open spec fn up_index(i: nat, len: nat) -> nat {
    if i == 0 {
        (len - 1) as nat
    } else {
        (i - 1) as nat
    }
}

/// The cursor after one move down in a listing of `len` entries: unchanged
/// on an empty listing, the top where it was unset.
pub open spec fn cursor_down(c: Option<usize>, len: nat) -> Option<usize> {
    if len == 0 {
        c
    } else {
        match c {
            None => Some(0),
            Some(i) => Some(down_index(i as nat, len) as usize),
        }
    }
}

/// The cursor after one move up in a listing of `len` entries: unchanged on
/// an empty listing, the top where it was unset.
pub open spec fn cursor_up(c: Option<usize>, len: nat) -> Option<usize> {
    if len == 0 {
        c
    } else {
        match c {
            None => Some(0),
            Some(i) => Some(up_index(i as nat, len) as usize),
        }
    }
}

/// The cursor kept inside a listing of `len` entries: unset on an empty
/// listing, the last entry where it stood past the end.
pub open spec fn clamped(c: Option<usize>, len: nat) -> Option<usize> {
    match c {
        None => None,
        Some(i) => if len == 0 {
            None
        } else if i >= len {
            Some((len - 1) as usize)
        } else {
            Some(i)
        },
    }
}

/// The cursor after `k` moves down from `c`.
pub open spec fn downs(c: Option<usize>, len: nat, k: nat) -> Option<usize>
    decreases k,
{
    if k == 0 {
        c
    } else {
        cursor_down(downs(c, len, (k - 1) as nat), len)
    }
}

/// The cursor after `k` moves up from `c`.
pub open spec fn ups(c: Option<usize>, len: nat, k: nat) -> Option<usize>
    decreases k,
{
    if k == 0 {
        c
    } else {
        cursor_up(ups(c, len, (k - 1) as nat), len)
    }
}

proof fn lemma_downs(i: usize, len: nat, k: nat)
    requires
        i < len <= usize::MAX,
        k <= len,
    ensures
        downs(Some(i), len, k) == Some(
            (if i + k < len {
                i + k
            } else {
                i + k - len
            }) as usize,
        ),
    decreases k,
{
    if k > 0 {
        lemma_downs(i, len, (k - 1) as nat);
    }
}

proof fn lemma_ups(i: usize, len: nat, k: nat)
    requires
        i < len <= usize::MAX,
        k <= len,
    ensures
        ups(Some(i), len, k) == Some(
            (if k <= i {
                i - k
            } else {
                i + len - k
            }) as usize,
        ),
    decreases k,
{
    if k > 0 {
        lemma_ups(i, len, (k - 1) as nat);
    }
}

/// On a listing that is not empty, moving the cursor down as many times as
/// there are entries brings it back to where it started; so does moving it
/// up as many times.
pub proof fn law_cursor_wraps(i: usize, len: nat)
    requires
        i < len <= usize::MAX,
    ensures
        downs(Some(i), len, len) == Some(i),
        ups(Some(i), len, len) == Some(i),
{
    lemma_downs(i, len, len);
    lemma_ups(i, len, len);
}

} // verus!
