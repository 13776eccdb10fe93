//! Wraparound-safe arithmetic and ordering over 32-bit TCP sequence numbers.
//!
//! Sequence numbers live on a circular number line modulo 2^32; every
//! comparison the protocol engine makes reduces to the strict betweenness
//! predicate `is_between_wrapped`.

use vstd::arithmetic::div_mod::{
    lemma_add_mod_noop_right, lemma_mod_add_multiples_vanish, lemma_mod_bound, lemma_small_mod,
};
use vstd::prelude::*;

verus! {

/// The size of the 32-bit sequence-number space.
pub const SEQ_SPACE: u64 = 0x1_0000_0000;

/// The sequence number reached by walking `n` steps forward from `x` on the
/// circular number line (addition modulo 2^32).
pub open spec fn seq_add(x: u32, n: int) -> u32
    recommends
        n >= 0,
{
    (((x + n) % (SEQ_SPACE as int)) as u32)
}

/// The sequence number reached by walking `n` steps backward from `x` on the
/// circular number line (subtraction modulo 2^32).
pub open spec fn seq_sub(x: u32, n: int) -> u32
    recommends
        n >= 0,
{
    (((x - n) % (SEQ_SPACE as int)) as u32)
}

/// How many steps forward must be walked from `a` to reach `b` on the
/// circular number line; always in `[0, 2^32)`.
pub open spec fn wrap_dist(a: u32, b: u32) -> int {
    (b - a) % (SEQ_SPACE as int)
}

/// True iff, walking forward from `start` around the circular number line,
/// `x` is reached strictly before `end` and strictly after `start`
/// (both endpoints excluded).
pub open spec fn spec_between_wrapped(start: u32, x: u32, end: u32) -> bool {
    wrap_dist(start, x) != 0 && wrap_dist(start, x) < wrap_dist(start, end)
}

/// The forward distance between two concrete 32-bit points, written without
/// the modulo: `b - a` when `b` is not behind `a`, wrapped past zero otherwise.
pub proof fn lemma_wrap_dist_value(a: u32, b: u32)
    ensures
        b >= a ==> wrap_dist(a, b) == b - a,
        b < a ==> wrap_dist(a, b) == b - a + SEQ_SPACE,
{
    if b >= a {
        lemma_small_mod((b - a) as nat, SEQ_SPACE as nat);
    } else {
        lemma_mod_add_multiples_vanish(b - a, SEQ_SPACE as int);
        lemma_small_mod((b - a + SEQ_SPACE) as nat, SEQ_SPACE as nat);
    }
}

/// Walking `a` steps and then `b` steps forward is the same as walking
/// `a + b` steps forward.
pub proof fn lemma_seq_add_add(x: u32, a: int, b: int)
    requires
        a >= 0,
        b >= 0,
    ensures
        seq_add(seq_add(x, a), b) == seq_add(x, a + b),
{
    let m = SEQ_SPACE as int;
    lemma_mod_bound(x + a, m);
    lemma_add_mod_noop_right(b, x + a, m);
    assert((seq_add(x, a) + b) % m == (x + a + b) % m);
}

/// Wraparound-safe strict betweenness test: true iff, walking forward from
/// `start` around the 32-bit circular number line, `x` lies strictly between
/// `start` and `end` (both endpoints excluded).
pub fn is_between_wrapped(start: u32, x: u32, end: u32) -> (r: bool)
    ensures
        r == spec_between_wrapped(start, x, end),
{
    proof {
        lemma_wrap_dist_value(start, x);
        lemma_wrap_dist_value(start, end);
    }
    if start == x {
        false
    } else if start < x {
        // `x` is ahead of `start` without wrapping; reject exactly when `end`
        // falls in the segment already walked past.
        !(end >= start && end <= x)
    } else {
        // `x` is ahead of `start` only via wraparound; `end` must lie in the
        // wrapped region between them.
        end > x && end < start
    }
}

/// Addition on the circular sequence-number line.
pub fn wrap_add(x: u32, y: u32) -> (r: u32)
    ensures
        r == seq_add(x, y as int),
{
    proof {
        if x + y <= u32::MAX {
            lemma_small_mod((x + y) as nat, SEQ_SPACE as nat);
        } else {
            lemma_mod_add_multiples_vanish(x + y - SEQ_SPACE, SEQ_SPACE as int);
            lemma_small_mod((x + y - SEQ_SPACE) as nat, SEQ_SPACE as nat);
        }
    }
    x.wrapping_add(y)
}

/// Subtraction on the circular sequence-number line.
pub fn wrap_sub(x: u32, y: u32) -> (r: u32)
    ensures
        r == seq_sub(x, y as int),
{
    proof {
        if x >= y {
            lemma_small_mod((x - y) as nat, SEQ_SPACE as nat);
        } else {
            lemma_mod_add_multiples_vanish(x - y, SEQ_SPACE as int);
            lemma_small_mod((x - y + SEQ_SPACE) as nat, SEQ_SPACE as nat);
        }
    }
    x.wrapping_sub(y)
}

} // verus!
