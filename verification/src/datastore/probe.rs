//! The order in which slots are tried. A scan starts at some slot and keeps
//! adding an odd step modulo the number of slots; because the step is odd and
//! the number of slots is a power of two, the scan meets every slot exactly
//! once before it comes back to its start.
use vstd::prelude::*;
use vstd::arithmetic::div_mod::lemma_mod_equivalence;
use vstd::relations::injective_on;
use vstd::set_lib::{lemma_int_range, lemma_map_size, lemma_subset_equality, set_int_range};

verus! {

/// Number of lease slots, and so of distinct ids that can be handed out.
pub const SLOT_COUNT: u16 = 1024;

/// `SLOT_COUNT - 1`: masking with it reduces modulo `SLOT_COUNT`.
pub const SLOT_MASK: u16 = 1023;

/// The slot tried at step `step` of a scan that starts at `first` and moves
/// `increment` slots at a time.
pub open spec fn probe_slot(first: int, increment: int, step: int) -> int {
    (first + step * increment) % (SLOT_COUNT as int)
}

/// Whether the first `steps` steps of the scan visit `slot`.
pub open spec fn probed_within(first: int, increment: int, steps: int, slot: int) -> bool {
    exists|i: int| 0 <= i < steps && #[trigger] probe_slot(first, increment, i) == slot
}

/// A step that is a valid increment of a scan: odd and below `SLOT_COUNT`.
pub open spec fn is_scan_increment(increment: int) -> bool {
    0 < increment < SLOT_COUNT as int && increment % 2 == 1
}

/// The slot after `slot` when moving `increment` slots forward.
pub fn next_slot(slot: u16, increment: u16) -> (next: u16)
    requires
        slot < SLOT_COUNT,
        increment < SLOT_COUNT,
    ensures
        next == (slot + increment) % (SLOT_COUNT as int),
        next < SLOT_COUNT,
{
    let sum: u16 = slot + increment;
    assert(sum & 1023 == sum % 1024 && sum & 1023 < 1024) by (bit_vector);
    sum & SLOT_MASK
}

/// Moving one more step from the slot of step `step` gives the slot of step
/// `step + 1`.
pub proof fn lemma_probe_slot_next(first: int, increment: int, step: int)
    ensures
        (probe_slot(first, increment, step) + increment) % (SLOT_COUNT as int)
            == probe_slot(first, increment, step + 1),
{
    let m = SLOT_COUNT as int;
    let x = first + step * increment;
    assert(x + increment == first + (step + 1) * increment) by (nonlinear_arith)
        requires
            x == first + step * increment,
    ;
    vstd::arithmetic::div_mod::lemma_add_mod_noop(x, increment, m);
    vstd::arithmetic::div_mod::lemma_add_mod_noop(x % m, increment, m);
    vstd::arithmetic::div_mod::lemma_mod_twice(x, m);
}

/// Every probed slot is a slot.
pub proof fn lemma_probe_slot_in_range(first: int, increment: int, step: int)
    ensures
        0 <= probe_slot(first, increment, step) < SLOT_COUNT as int,
{
    vstd::arithmetic::div_mod::lemma_mod_bound(first + step * increment, SLOT_COUNT as int);
}

/// A product of a number that is not a multiple of `SLOT_COUNT` with an odd
/// number is not one either.
proof fn lemma_odd_multiple(d: u64, k: u64)
    requires
        0 < d < 1024,
        k < 1024,
        k % 2 == 1,
    ensures
        (d * k) % 1024 != 0,
{
    assert(d * k < 1024 * 1024) by (nonlinear_arith)
        requires
            d < 1024,
            k < 1024,
    ;
    let p: u64 = (d * k) as u64;
    assert((0u64 < d && d < 1024u64 && k < 1024u64 && (k & 1u64) == 1u64) ==> (((d * k) as u64)
        & 1023u64) != 0u64) by (bit_vector);
    assert(k & 1 == k % 2) by (bit_vector);
    assert(p & 1023 == p % 1024) by (bit_vector);
}

/// With an odd increment, two different steps among the first `SLOT_COUNT`
/// never land on the same slot.
pub proof fn lemma_probe_steps_distinct(first: int, increment: int, i: int, j: int)
    requires
        is_scan_increment(increment),
        0 <= i < SLOT_COUNT as int,
        0 <= j < SLOT_COUNT as int,
        i != j,
    ensures
        probe_slot(first, increment, i) != probe_slot(first, increment, j),
{
    let m = SLOT_COUNT as int;
    let (lo, hi) = if i < j { (i, j) } else { (j, i) };
    if probe_slot(first, increment, i) == probe_slot(first, increment, j) {
        lemma_mod_equivalence(first + hi * increment, first + lo * increment, m);
        assert((first + hi * increment) - (first + lo * increment) == (hi - lo) * increment)
            by (nonlinear_arith);
        lemma_odd_multiple((hi - lo) as u64, increment as u64);
        assert(false);
    }
}

/// The scan order is a permutation of the slots: with an odd increment the
/// first `SLOT_COUNT` steps of a scan visit `SLOT_COUNT` different slots, so
/// every slot is visited exactly once, whatever slot the scan starts at.
pub proof fn lemma_probe_sequence_is_permutation(first: int, increment: int)
    requires
        is_scan_increment(increment),
    ensures
        forall|i: int, j: int|
            0 <= i < SLOT_COUNT as int && 0 <= j < SLOT_COUNT as int && i != j
                ==> #[trigger] probe_slot(first, increment, i) != #[trigger] probe_slot(
                first,
                increment,
                j,
            ),
        forall|slot: int|
            0 <= slot < SLOT_COUNT as int ==> #[trigger] probed_within(
                first,
                increment,
                SLOT_COUNT as int,
                slot,
            ),
{
    let m = SLOT_COUNT as int;
    assert forall|i: int, j: int|
        0 <= i < m && 0 <= j < m && i != j implies #[trigger] probe_slot(first, increment, i)
        != #[trigger] probe_slot(first, increment, j) by {
        lemma_probe_steps_distinct(first, increment, i, j);
    }
    let steps = set_int_range(0, m);
    let f = |i: int| probe_slot(first, increment, i);
    let visited = steps.map(f);
    lemma_int_range(0, m);
    assert(injective_on(f, steps)) by {
        assert forall|x1: int, x2: int|
            steps.contains(x1) && steps.contains(x2) && #[trigger] f(x1) == #[trigger] f(x2)
            implies x1 == x2 by {
            if x1 != x2 {
                lemma_probe_steps_distinct(first, increment, x1, x2);
            }
        }
    }
    lemma_map_size(steps, visited, f);
    assert(visited.subset_of(set_int_range(0, m))) by {
        assert forall|s: int| visited.contains(s) implies set_int_range(0, m).contains(s) by {
            let i = choose|i: int| steps.contains(i) && f(i) == s;
            lemma_probe_slot_in_range(first, increment, i);
        }
    }
    lemma_subset_equality(visited, set_int_range(0, m));
    assert forall|slot: int| 0 <= slot < m implies #[trigger] probed_within(
        first,
        increment,
        m,
        slot,
    ) by {
        assert(set_int_range(0, m).contains(slot));
        assert(visited.contains(slot));
        let i = choose|i: int| steps.contains(i) && f(i) == slot;
        assert(probe_slot(first, increment, i) == slot);
    }
}

} // verus!
