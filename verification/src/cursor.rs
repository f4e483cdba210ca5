//! A single column's selection cursor: either nothing is selected, or an
//! index into that column's currently filtered task list is held. Movement
//! wraps around the list, an empty list clears the selection, and a stale
//! index is clamped when it is resolved, never trusted.

use vstd::arithmetic::div_mod::{
    lemma_add_mod_noop_right, lemma_mod_bound, lemma_mod_multiples_vanish, lemma_mod_self_0,
    lemma_small_mod,
};
use vstd::prelude::*;

verus! {

/// Selection state of one column.
#[derive(Clone, Copy, PartialEq, Eq, Structural, Debug)]
pub enum Cursor {
    Unselected,
    SelectedAt(usize),
}

/// Where one forward step from `c` lands when the column currently holds
/// `count` entries: the successor index modulo `count`, wrapping to the top;
/// an empty column clears the selection and an empty selection stays empty.
pub open spec fn advance_spec(c: Cursor, count: int) -> Cursor {
    match c {
        Cursor::Unselected => Cursor::Unselected,
        Cursor::SelectedAt(i) => if count <= 0 {
            Cursor::Unselected
        } else {
            Cursor::SelectedAt(((i + 1) % count) as usize)
        },
    }
}

/// Where one backward step from `c` lands: the predecessor index modulo
/// `count`, wrapping to the bottom; empty column and empty selection as in
/// `advance_spec`.
pub open spec fn retreat_spec(c: Cursor, count: int) -> Cursor {
    match c {
        Cursor::Unselected => Cursor::Unselected,
        Cursor::SelectedAt(i) => if count <= 0 {
            Cursor::Unselected
        } else {
            Cursor::SelectedAt(((i - 1) % count) as usize)
        },
    }
}

/// The index a cursor actually denotes against a list of length `len`:
/// nothing when unselected or the list is empty, the held index when it is
/// still in range, and the last entry when the list has shrunk below it.
pub open spec fn resolve_spec(c: Cursor, len: int) -> Option<int> {
    match c {
        Cursor::Unselected => Option::None,
        Cursor::SelectedAt(i) => if len <= 0 {
            Option::None
        } else if i < len {
            Option::Some(i as int)
        } else {
            Option::Some(len - 1)
        },
    }
}

/// `resolve_spec` carried back into the machine index type the executable
/// code hands out.
pub open spec fn resolve_index(c: Cursor, len: int) -> Option<usize> {
    match resolve_spec(c, len) {
        Option::Some(i) => Option::Some(i as usize),
        Option::None => Option::None,
    }
}

impl Cursor {
    /// Move the selection one entry down the column, wrapping to the top.
    pub fn advance(&mut self, count: usize)
        ensures
            *final(self) == advance_spec(*old(self), count as int),
    {
        match *self {
            Cursor::Unselected => {},
            Cursor::SelectedAt(i) => {
                if count == 0 {
                    *self = Cursor::Unselected;
                } else {
                    let base: usize = i % count;
                    proof {
                        lemma_add_mod_noop_right(1, i as int, count as int);
                        if base + 1 == count {
                            lemma_mod_self_0(count as int);
                        } else {
                            lemma_small_mod((base + 1) as nat, count as nat);
                        }
                    }
                    if base + 1 == count {
                        *self = Cursor::SelectedAt(0);
                    } else {
                        *self = Cursor::SelectedAt(base + 1);
                    }
                }
            },
        }
    }

    /// Move the selection one entry up the column, wrapping to the bottom.
    pub fn retreat(&mut self, count: usize)
        ensures
            *final(self) == retreat_spec(*old(self), count as int),
    {
        match *self {
            Cursor::Unselected => {},
            Cursor::SelectedAt(i) => {
                if count == 0 {
                    *self = Cursor::Unselected;
                } else {
                    let base: usize = i % count;
                    proof {
                        lemma_add_mod_noop_right(-1, i as int, count as int);
                        if base == 0 {
                            lemma_mod_multiples_vanish(1, -1, count as int);
                            lemma_small_mod((count - 1) as nat, count as nat);
                        } else {
                            lemma_small_mod((base - 1) as nat, count as nat);
                        }
                    }
                    if base == 0 {
                        *self = Cursor::SelectedAt(count - 1);
                    } else {
                        *self = Cursor::SelectedAt(base - 1);
                    }
                }
            },
        }
    }

    /// Resolve this cursor against a list of length `len`, clamping a stale
    /// index to the last entry instead of failing.
    pub fn resolve(&self, len: usize) -> (res: Option<usize>)
        ensures
            res == resolve_index(*self, len as int),
            res is Some ==> len > 0 && res->0 < len,
    {
        match *self {
            Cursor::Unselected => Option::None,
            Cursor::SelectedAt(i) => {
                if len == 0 {
                    Option::None
                } else if i < len {
                    Option::Some(i)
                } else {
                    Option::Some(len - 1)
                }
            },
        }
    }
}

/// `c` after `n` forward steps, each against a column of `count` entries.
pub open spec fn advance_n(c: Cursor, count: int, n: nat) -> Cursor
    decreases n,
{
    if n == 0 {
        c
    } else {
        advance_spec(advance_n(c, count, (n - 1) as nat), count)
    }
}

/// `c` after `n` backward steps, each against a column of `count` entries.
pub open spec fn retreat_n(c: Cursor, count: int, n: nat) -> Cursor
    decreases n,
{
    if n == 0 {
        c
    } else {
        retreat_spec(retreat_n(c, count, (n - 1) as nat), count)
    }
}

/// After `n` forward steps from index `i` in a non-empty column, the cursor
/// sits at `(i + n) mod count`.
proof fn lemma_advance_n_index(i: usize, count: usize, n: nat)
    requires
        0 < count,
        i < count,
    ensures
        advance_n(Cursor::SelectedAt(i), count as int, n) == Cursor::SelectedAt(
            (((i + n) % (count as int)) as usize),
        ),
    decreases n,
{
    let c: int = count as int;
    if n == 0 {
        lemma_small_mod(i as nat, count as nat);
    } else {
        lemma_advance_n_index(i, count, (n - 1) as nat);
        let prev: int = (i + n - 1) % c;
        lemma_mod_bound(i + n - 1, c);
        lemma_add_mod_noop_right(1, i + n - 1, c);
        assert((prev + 1) % c == (i + n) % c);
        lemma_mod_bound(i + n, c);
    }
}

/// After `n` backward steps from index `i` in a non-empty column, the cursor
/// sits at `(i - n) mod count`.
proof fn lemma_retreat_n_index(i: usize, count: usize, n: nat)
    requires
        0 < count,
        i < count,
    ensures
        retreat_n(Cursor::SelectedAt(i), count as int, n) == Cursor::SelectedAt(
            (((i - n) % (count as int)) as usize),
        ),
    decreases n,
{
    let c: int = count as int;
    if n == 0 {
        lemma_small_mod(i as nat, count as nat);
    } else {
        lemma_retreat_n_index(i, count, (n - 1) as nat);
        let prev: int = (i - (n - 1)) % c;
        lemma_mod_bound(i - (n - 1), c);
        lemma_add_mod_noop_right(-1, i - (n - 1), c);
        assert((prev - 1) % c == (i - n) % c);
        lemma_mod_bound(i - n, c);
    }
}

/// Cycle law: in a column of `count` entries, `count` forward steps return a
/// selected cursor to the index it started at.
pub proof fn lemma_advance_cycle(i: usize, count: usize)
    requires
        0 < count,
        i < count,
    ensures
        advance_n(Cursor::SelectedAt(i), count as int, count as nat) == Cursor::SelectedAt(i),
{
    lemma_advance_n_index(i, count, count as nat);
    lemma_mod_multiples_vanish(1, i as int, count as int);
    lemma_small_mod(i as nat, count as nat);
}

/// Cycle law: in a column of `count` entries, `count` backward steps return a
/// selected cursor to the index it started at.
pub proof fn lemma_retreat_cycle(i: usize, count: usize)
    requires
        0 < count,
        i < count,
    ensures
        retreat_n(Cursor::SelectedAt(i), count as int, count as nat) == Cursor::SelectedAt(i),
{
    lemma_retreat_n_index(i, count, count as nat);
    lemma_mod_multiples_vanish(-1, i as int, count as int);
    lemma_small_mod(i as nat, count as nat);
}

/// Empty-column law: a movement step against an empty column always leaves
/// the cursor unselected, whatever it held before; it never yields an index.
pub proof fn lemma_empty_movement_unselected(c: Cursor)
    ensures
        advance_spec(c, 0) == Cursor::Unselected,
        retreat_spec(c, 0) == Cursor::Unselected,
{
}

/// In-range law: a movement step against a non-empty column never yields an
/// out-of-range index, even from a stale one.
pub proof fn lemma_movement_in_range(c: Cursor, count: int)
    requires
        0 < count,
        c is SelectedAt,
    ensures
        advance_spec(c, count) is SelectedAt && advance_spec(c, count)->0 < count,
        retreat_spec(c, count) is SelectedAt && retreat_spec(c, count)->0 < count,
{
}

/// Clamp law: if a cursor holds index `i` but the list it is resolved
/// against now has only `new_len <= i` entries, resolution yields the last
/// entry of the shrunken list, or nothing when it is empty — never a
/// dangling index.
pub proof fn lemma_resolve_clamp(i: usize, new_len: int)
    requires
        0 <= new_len <= i,
    ensures
        resolve_spec(Cursor::SelectedAt(i), new_len) == (if new_len == 0 {
            Option::<int>::None
        } else {
            Option::Some(new_len - 1)
        }),
{
}

} // verus!
