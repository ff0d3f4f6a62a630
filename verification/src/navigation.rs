//! Moving through the deck: the position wraps round at both ends, and a
//! deck that shrinks pulls the position back to its last slide.

use vstd::arithmetic::div_mod::{lemma_mod_self_0, lemma_small_mod};
use vstd::prelude::*;

verus! {

/// The position after `Next`.
pub open spec fn next_index(index: nat, count: nat) -> nat {
    (index + 1) % count
}

/// The position after `Previous`.
pub open spec fn previous_index(index: nat, count: nat) -> nat {
    if index == 0 {
        (count - 1) as nat
    } else {
        (index - 1) as nat
    }
}

/// The position after a reload that left `count` slides.
pub open spec fn clamped_index(index: nat, count: nat) -> nat {
    if index < count {
        index
    } else {
        (count - 1) as nat
    }
}

/// The position after `steps` times `Next`.
pub open spec fn advanced(index: nat, count: nat, steps: nat) -> nat
    decreases steps,
{
    if steps == 0 {
        index
    } else {
        next_index(advanced(index, count, (steps - 1) as nat), count)
    }
}

/// `Next` goes one slide on and from the last slide to the first.
pub proof fn lemma_next_index(index: nat, count: nat)
    requires
        index < count,
    ensures
        next_index(index, count) == if index + 1 == count {
            0
        } else {
            index + 1
        },
        next_index(index, count) < count,
{
    if index + 1 == count {
        lemma_mod_self_0(count as int);
    } else {
        lemma_small_mod(index + 1, count);
    }
}

/// `steps` times `Next`, for no more steps than there are slides, goes
/// `steps` slides on and starts again at the first slide after the last.
pub proof fn lemma_advanced(index: nat, count: nat, steps: nat)
    requires
        index < count,
        steps <= count,
    ensures
        advanced(index, count, steps) == if index + steps < count {
            index + steps
        } else {
            (index + steps - count) as nat
        },
    decreases steps,
{
    if steps > 0 {
        lemma_advanced(index, count, (steps - 1) as nat);
        lemma_next_index(advanced(index, count, (steps - 1) as nat), count);
    }
}

/// As many times `Next` as the deck has slides leads back to where it began.
pub proof fn lemma_next_cycle(index: nat, count: nat)
    requires
        count > 0,
        index < count,
    ensures
        advanced(index, count, count) == index,
{
    lemma_advanced(index, count, count);
}

/// `Previous` after `Next` leads back, and so does `Next` after `Previous`.
pub proof fn lemma_next_previous_inverse(index: nat, count: nat)
    requires
        count > 0,
        index < count,
    ensures
        previous_index(next_index(index, count), count) == index,
        next_index(previous_index(index, count), count) == index,
{
    lemma_next_index(index, count);
    lemma_next_index(previous_index(index, count), count);
}

/// After a reload the position is on a slide of the new deck: it stays where
/// it was if that slide is still there, and is the last slide otherwise.
pub proof fn lemma_clamped_index(index: nat, count: nat)
    requires
        count > 0,
    ensures
        clamped_index(index, count) < count,
        index < count ==> clamped_index(index, count) == index,
        index >= count ==> clamped_index(index, count) == count - 1,
{
}

/// The position after `Next`, in a deck of `count` slides.
pub fn next(index: usize, count: usize) -> (r: usize)
    requires
        index < count,
    ensures
        r == next_index(index as nat, count as nat),
        r < count,
{
    proof {
        lemma_next_index(index as nat, count as nat);
    }
    if index + 1 == count {
        0
    } else {
        index + 1
    }
}

/// The position after `Previous`, in a deck of `count` slides.
pub fn previous(index: usize, count: usize) -> (r: usize)
    requires
        index < count,
    ensures
        r == previous_index(index as nat, count as nat),
        r < count,
{
    if index == 0 {
        count - 1
    } else {
        index - 1
    }
}

/// The position after a reload that left `count` slides.
pub fn clamp(index: usize, count: usize) -> (r: usize)
    requires
        count > 0,
    ensures
        r == clamped_index(index as nat, count as nat),
        r < count,
{
    if index < count {
        index
    } else {
        count - 1
    }
}

} // verus!
