//! Pure navigation arithmetic: circular advancement of a selection index
//! inside a bounded list, and forward/backward page-number stepping.

use vstd::arithmetic::div_mod::{
    lemma_add_mod_noop_right, lemma_mod_add_multiples_vanish, lemma_mod_bound, lemma_small_mod,
};
use vstd::prelude::*;

verus! {

/// Direction in which a selection, page, or the focus moves.
#[derive(Clone, Copy, Debug, PartialEq, Eq, Structural)]
pub enum HeadTo {
    /// Stay where we are (used to re-request the current position / first page).
    Initial,
    Next,
    Prev,
}

/// What `advance_index` computes: circular movement inside `[0, limit)`.
/// An empty list (`limit == 0`) always yields index `0`.
pub open spec fn advance_index_spec(current: int, limit: int, direction: HeadTo) -> int {
    if limit == 0 {
        0
    } else {
        match direction {
            HeadTo::Next => (current + 1) % limit,
            HeadTo::Prev => if current == 0 {
                limit - 1
            } else {
                (current - 1) % limit
            },
            HeadTo::Initial => current,
        }
    }
}

/// Index of the element reached from `current` by moving one step in
/// `direction` through a list of `limit` elements, wrapping around at
/// both ends. Total: an empty list yields `0`.
pub fn advance_index(current: usize, limit: usize, direction: HeadTo) -> (r: usize)
    requires
        current < usize::MAX,
    ensures
        r == advance_index_spec(current as int, limit as int, direction),
        limit > 0 && !(direction is Initial) ==> r < limit,
        limit > 0 && current < limit ==> r < limit,
        limit == 0 ==> r == 0,
{
    if limit == 0 {
        return 0;
    }
    match direction {
        HeadTo::Next => (current + 1) % limit,
        HeadTo::Prev => {
            if current == 0 {
                limit - 1
            } else {
                (current - 1) % limit
            }
        },
        HeadTo::Initial => current,
    }
}

/// What `get_page` computes: the page to request given the page requested
/// so far (`None` when no page was requested yet) and a direction.
pub open spec fn get_page_spec(current: Option<usize>, direction: HeadTo) -> int {
    match current {
        Option::None => 0,
        Option::Some(prev) => match direction {
            HeadTo::Initial => 0,
            HeadTo::Next => prev + 1,
            HeadTo::Prev => if prev == 0 {
                0
            } else {
                prev - 1
            },
        },
    }
}

/// Page number to request next. `None` means no page was requested yet and
/// yields `0`; otherwise `Next` increments, `Prev` decrements saturating at
/// `0`, and `Initial` restarts from page `0`.
pub fn get_page(current: &Option<usize>, direction: HeadTo) -> (page: usize)
    requires
        (*current matches Some(p) ==> (direction is Next ==> p < usize::MAX)),
    ensures
        page == get_page_spec(*current, direction),
        current is None ==> page == 0,
        (*current matches Some(p) ==> (direction is Next ==> page == p + 1)),
{
    match current {
        Option::None => 0,
        Option::Some(prev) => match direction {
            HeadTo::Initial => 0,
            HeadTo::Next => *prev + 1,
            HeadTo::Prev => {
                if *prev == 0 {
                    0
                } else {
                    *prev - 1
                }
            },
        },
    }
}

/// The index reached after `k` single steps in `direction`.
pub open spec fn advance_index_many(start: int, limit: int, direction: HeadTo, k: nat) -> int
    decreases k,
{
    if k == 0 {
        start
    } else {
        advance_index_spec(
            advance_index_many(start, limit, direction, (k - 1) as nat),
            limit,
            direction,
        )
    }
}

/// Law: one step forward followed by one step back returns to the start,
/// for every in-range index of a non-empty list.
pub proof fn lemma_advance_index_roundtrip(i: int, limit: int)
    requires
        0 <= i < limit,
    ensures
        advance_index_spec(advance_index_spec(i, limit, HeadTo::Next), limit, HeadTo::Prev) == i,
{
    if i + 1 < limit {
        lemma_small_mod((i + 1) as nat, limit as nat);
        lemma_small_mod(i as nat, limit as nat);
    } else {
        lemma_mod_add_multiples_vanish(0, limit);
        lemma_small_mod(0nat, limit as nat);
    }
}

/// After `k` forward steps the index is `(start + k) % limit`.
proof fn lemma_advance_next_many_is_mod(start: int, limit: int, k: nat)
    requires
        0 <= start < limit,
    ensures
        advance_index_many(start, limit, HeadTo::Next, k) == (start + k) % limit,
    decreases k,
{
    if k == 0 {
        lemma_small_mod(start as nat, limit as nat);
    } else {
        lemma_advance_next_many_is_mod(start, limit, (k - 1) as nat);
        lemma_add_mod_noop_right(1, start + k - 1, limit);
        assert(advance_index_many(start, limit, HeadTo::Next, k) == (1 + (start + k - 1) % limit)
            % limit);
    }
}

/// Law: applying `Next` exactly `limit` times from any in-range start
/// returns to the start.
pub proof fn lemma_advance_index_cycle(start: int, limit: int)
    requires
        0 <= start < limit,
    ensures
        advance_index_many(start, limit, HeadTo::Next, limit as nat) == start,
{
    lemma_advance_next_many_is_mod(start, limit, limit as nat);
    lemma_mod_add_multiples_vanish(start, limit);
    lemma_small_mod(start as nat, limit as nat);
}

/// Law: every single step lands inside `[0, limit)` when the list is
/// non-empty and the motion is `Next` or `Prev`.
pub proof fn lemma_advance_index_in_range(current: int, limit: int, direction: HeadTo)
    requires
        0 < limit,
        0 <= current,
        !(direction is Initial),
    ensures
        0 <= advance_index_spec(current, limit, direction) < limit,
{
    match direction {
        HeadTo::Next => {
            lemma_mod_bound(current + 1, limit);
        },
        HeadTo::Prev => {
            if current != 0 {
                lemma_mod_bound(current - 1, limit);
            }
        },
        HeadTo::Initial => {},
    }
}

} // verus!
