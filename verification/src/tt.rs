//! Transposition table: a fixed-size cache of search results keyed by a
//! position's 64-bit hash.
//!
//! The table has a power-of-two number of slots; a hash selects slot
//! `hash & mask`, and the upper 32 bits of the hash are kept as a
//! verification key to detect collisions.

use vstd::prelude::*;
use crate::xiangqi::Move;

verus! {

/// The type of bound stored in an entry.
#[derive(Debug, Clone, Copy, PartialEq, Eq, Structural)]
pub enum Bound {
    /// Exact minimax value (PV node).
    Exact,
    /// Lower bound: the search cut off, the true value is at least the score.
    Lower,
    /// Upper bound: no move raised alpha, the true value is at most the score.
    Upper,
}

/// One cached search result.
#[derive(Debug, Clone, Copy, PartialEq, Eq, Structural)]
pub struct TtEntry {
    /// Upper 32 bits of the position hash.
    pub key: u32,
    /// Best (or refutation) move found in this position.
    pub best_move: Option<Move>,
    /// Evaluation score.
    pub score: i32,
    /// Depth the score was computed at.
    pub depth: u16,
    /// Kind of bound the score is.
    pub bound: Bound,
}

/// Fixed-size table; its view is the sequence of slots.
pub struct TranspositionTable {
    entries: Vec<Option<TtEntry>>,
    mask: u64,
}

/// Upper 32 bits of a hash, kept in the entry to detect collisions.
pub open spec fn verification_key(hash: u64) -> u32 {
    (hash >> 32u64) as u32
}

/// Slot a hash selects.
pub open spec fn slot_of(mask: u64, hash: u64) -> int {
    (hash & mask) as int
}

/// What a probe finds: the entry in the hash's slot when its key matches.
pub open spec fn probe_result(slots: Seq<Option<TtEntry>>, mask: u64, hash: u64) -> Option<TtEntry> {
    match slots[slot_of(mask, hash)] {
        Some(e) => if e.key == verification_key(hash) {
            Some(e)
        } else {
            None
        },
        None => None,
    }
}

/// Whether a store at `depth` overwrites the slot: an empty slot, another
/// position's entry, or an entry no deeper than the new one.
pub open spec fn should_replace(slot: Option<TtEntry>, key: u32, depth: u16) -> bool {
    match slot {
        None => true,
        Some(existing) => existing.key != key || depth >= existing.depth,
    }
}

/// Slots after storing a result.
pub open spec fn stored_slots(
    slots: Seq<Option<TtEntry>>,
    mask: u64,
    hash: u64,
    best_move: Option<Move>,
    score: i32,
    depth: u16,
    bound: Bound,
) -> Seq<Option<TtEntry>> {
    let i = slot_of(mask, hash);
    let key = verification_key(hash);
    if should_replace(slots[i], key, depth) {
        slots.update(i, Some(TtEntry { key, best_move, score, depth, bound }))
    } else {
        slots
    }
}

/// Largest power of two not above `n`, and 1 for `n == 0`.
pub open spec fn highest_pow2_at_most(n: nat) -> nat
    decreases n,
{
    if n <= 1 {
        1
    } else {
        2 * highest_pow2_at_most(n / 2)
    }
}

/// Number of slots a table of `size_mb` megabytes gets: the whole number of
/// entries that fit, rounded down to a power of two (at least 1).
pub open spec fn tt_slot_count(size_mb: nat) -> nat {
    let entry = vstd::layout::size_of::<Option<TtEntry>>();
    if entry == 0 {
        1
    } else {
        highest_pow2_at_most(size_mb * 1048576 / entry)
    }
}

proof fn lemma_pow2_bounds(n: nat)
    ensures
        highest_pow2_at_most(n) >= 1,
        n >= 1 ==> highest_pow2_at_most(n) <= n,
        n >= 1 ==> 2 * highest_pow2_at_most(n) > n,
    decreases n,
{
    if n > 1 {
        lemma_pow2_bounds(n / 2);
    }
}

impl View for TranspositionTable {
    type V = Seq<Option<TtEntry>>;

    closed spec fn view(&self) -> Seq<Option<TtEntry>> {
        self.entries@
    }
}

impl TranspositionTable {
    /// Well-formedness: one slot per mask value.
    pub closed spec fn wf(&self) -> bool {
        &&& self.entries@.len() == self.mask + 1
        &&& self.mask < usize::MAX
    }

    /// The index mask (`capacity - 1`).
    pub closed spec fn spec_mask(&self) -> u64 {
        self.mask
    }

    /// An empty table of about `size_mb` megabytes (see [`tt_slot_count`]).
    pub fn new(size_mb: usize) -> (t: TranspositionTable)
        requires
            size_mb * 1048576 <= usize::MAX,
        ensures
            t.wf(),
            t@ == Seq::new(tt_slot_count(size_mb as nat), |i: int| None::<TtEntry>),
            t.spec_mask() + 1 == tt_slot_count(size_mb as nat),
    {
        let entry_size = std::mem::size_of::<Option<TtEntry>>();
        let num_entries: usize = if entry_size == 0 {
            0
        } else {
            (size_mb * 1048576) / entry_size
        };
        // Round down to a power of two.
        let mut capacity: usize = 1;
        let mut rest: usize = num_entries;
        proof {
            lemma_pow2_bounds(num_entries as nat);
        }
        while rest > 1
            invariant
                capacity * highest_pow2_at_most(rest as nat) == highest_pow2_at_most(
                    num_entries as nat,
                ),
                highest_pow2_at_most(num_entries as nat) <= if num_entries >= 1 {
                    num_entries as nat
                } else {
                    1
                },
                capacity >= 1,
            decreases rest,
        {
            proof {
                lemma_pow2_bounds((rest / 2) as nat);
                assert(capacity * 2 * highest_pow2_at_most((rest / 2) as nat) == highest_pow2_at_most(
                    num_entries as nat,
                )) by (nonlinear_arith)
                    requires
                        capacity * highest_pow2_at_most(rest as nat) == highest_pow2_at_most(
                            num_entries as nat,
                        ),
                        highest_pow2_at_most(rest as nat) == 2 * highest_pow2_at_most(
                            (rest / 2) as nat,
                        ),
                ;
                assert(capacity * 2 <= highest_pow2_at_most(num_entries as nat)) by (nonlinear_arith)
                    requires
                        capacity * 2 * highest_pow2_at_most((rest / 2) as nat)
                            == highest_pow2_at_most(num_entries as nat),
                        highest_pow2_at_most((rest / 2) as nat) >= 1,
                        capacity >= 1,
                ;
            }
            capacity = capacity * 2;
            rest = rest / 2;
        }
        assert(highest_pow2_at_most(rest as nat) == 1);
        assert(capacity == highest_pow2_at_most(num_entries as nat)) by (nonlinear_arith)
            requires
                capacity * highest_pow2_at_most(rest as nat) == highest_pow2_at_most(
                    num_entries as nat,
                ),
                highest_pow2_at_most(rest as nat) == 1,
        ;
        assert(entry_size as nat == vstd::layout::size_of::<Option<TtEntry>>());
        assert(capacity == tt_slot_count(size_mb as nat));
        let mut entries: Vec<Option<TtEntry>> = Vec::new();
        let mut i: usize = 0;
        while i < capacity
            invariant
                i <= capacity,
                entries@ == Seq::new(i as nat, |j: int| None::<TtEntry>),
            decreases capacity - i,
        {
            entries.push(None);
            i = i + 1;
        }
        TranspositionTable { entries, mask: (capacity - 1) as u64 }
    }

    /// Looks up a position by its hash (see [`probe_result`]).
    pub fn probe(&self, hash: u64) -> (r: Option<TtEntry>)
        requires
            self.wf(),
        ensures
            slot_of(self.spec_mask(), hash) < self@.len(),
            r == probe_result(self@, self.spec_mask(), hash),
    {
        let mask = self.mask;
        assert(hash & mask <= mask) by (bit_vector);
        let idx = (hash & mask) as usize;
        match self.entries[idx] {
            Some(e) => {
                if e.key == (hash >> 32u64) as u32 {
                    Some(e)
                } else {
                    None
                }
            },
            None => None,
        }
    }

    /// Stores a search result; it replaces the slot's entry unless that
    /// entry is for the same position and deeper (see [`stored_slots`]).
    pub fn store(
        &mut self,
        hash: u64,
        best_move: Option<Move>,
        score: i32,
        depth: u16,
        bound: Bound,
    )
        requires
            old(self).wf(),
        ensures
            final(self).wf(),
            final(self).spec_mask() == old(self).spec_mask(),
            final(self)@ == stored_slots(
                old(self)@,
                old(self).spec_mask(),
                hash,
                best_move,
                score,
                depth,
                bound,
            ),
    {
        let mask = self.mask;
        assert(hash & mask <= mask) by (bit_vector);
        let idx = (hash & mask) as usize;
        let key = (hash >> 32u64) as u32;
        let replace = match self.entries[idx] {
            None => true,
            Some(existing) => existing.key != key || depth >= existing.depth,
        };
        if replace {
            self.entries.set(idx, Some(TtEntry { key, best_move, score, depth, bound }));
        }
    }

    /// Empties every slot (used when starting a new game).
    pub fn clear(&mut self)
        requires
            old(self).wf(),
        ensures
            final(self).wf(),
            final(self).spec_mask() == old(self).spec_mask(),
            final(self)@ == Seq::new(old(self)@.len(), |i: int| None::<TtEntry>),
    {
        let n = self.entries.len();
        let mut i: usize = 0;
        while i < n
            invariant
                n == self.entries@.len(),
                n == old(self).entries@.len(),
                self.mask == old(self).mask,
                i <= n,
                forall|j: int| 0 <= j < i ==> self.entries@[j] is None,
            decreases n - i,
        {
            self.entries.set(i, None);
            i = i + 1;
        }
        assert(self.entries@ =~= Seq::new(old(self)@.len(), |i: int| None::<TtEntry>));
    }

    /// Number of slots.
    pub fn capacity(&self) -> (n: usize)
        requires
            self.wf(),
        ensures
            n == self@.len(),
            n == self.spec_mask() + 1,
    {
        self.entries.len()
    }
}

/// A probe right after a store finds what was stored, whenever the store
/// replaced the slot: so a result stored at least as deep as the cached
/// one for the same position is the one read back.
pub proof fn law_probe_after_store(
    slots: Seq<Option<TtEntry>>,
    mask: u64,
    hash: u64,
    best_move: Option<Move>,
    score: i32,
    depth: u16,
    bound: Bound,
)
    requires
        slot_of(mask, hash) < slots.len(),
        should_replace(slots[slot_of(mask, hash)], verification_key(hash), depth),
    ensures
        probe_result(
            stored_slots(slots, mask, hash, best_move, score, depth, bound),
            mask,
            hash,
        ) == Some(
            TtEntry { key: verification_key(hash), best_move, score, depth, bound },
        ),
{
}

/// A store that does not replace (a deeper entry for the same position
/// is cached) leaves what a probe finds unchanged.
pub proof fn law_shallower_store_keeps_entry(
    slots: Seq<Option<TtEntry>>,
    mask: u64,
    hash: u64,
    best_move: Option<Move>,
    score: i32,
    depth: u16,
    bound: Bound,
)
    requires
        slot_of(mask, hash) < slots.len(),
        probe_result(slots, mask, hash) matches Some(e) && depth < e.depth,
    ensures
        probe_result(
            stored_slots(slots, mask, hash, best_move, score, depth, bound),
            mask,
            hash,
        ) == probe_result(slots, mask, hash),
{
}

/// A store always wins over another position's entry: when the slot the
/// hash selects is empty or holds an entry whose key is not the hash's
/// verification key, whatever its depth, a probe with the same hash right
/// after the store returns exactly what was stored.
pub proof fn law_store_replaces_other_position(
    slots: Seq<Option<TtEntry>>,
    mask: u64,
    hash: u64,
    best_move: Option<Move>,
    score: i32,
    depth: u16,
    bound: Bound,
)
    requires
        slot_of(mask, hash) < slots.len(),
        !(slots[slot_of(mask, hash)] matches Some(e) && e.key == verification_key(hash)),
    ensures
        probe_result(
            stored_slots(slots, mask, hash, best_move, score, depth, bound),
            mask,
            hash,
        ) == Some(
            TtEntry { key: verification_key(hash), best_move, score, depth, bound },
        ),
{
}

/// A probe right after a store returns what was stored unless a probe with
/// the same hash just before it found a strictly deeper entry; in that case
/// the earlier entry is still what the probe finds.
pub proof fn law_probe_after_store_unless_deeper(
    slots: Seq<Option<TtEntry>>,
    mask: u64,
    hash: u64,
    best_move: Option<Move>,
    score: i32,
    depth: u16,
    bound: Bound,
)
    requires
        slot_of(mask, hash) < slots.len(),
    ensures
        probe_result(
            stored_slots(slots, mask, hash, best_move, score, depth, bound),
            mask,
            hash,
        ) == (if probe_result(slots, mask, hash) matches Some(e) && depth < e.depth {
            probe_result(slots, mask, hash)
        } else {
            Some(TtEntry { key: verification_key(hash), best_move, score, depth, bound })
        }),
{
}

/// A store touches one slot and is seen by one position only: a probe with
/// another hash finds what it found before when that hash selects another
/// slot, and never finds the entry just stored when the two hashes differ
/// in their upper 32 bits.
pub proof fn law_store_leaves_other_hashes(
    slots: Seq<Option<TtEntry>>,
    mask: u64,
    hash: u64,
    other: u64,
    best_move: Option<Move>,
    score: i32,
    depth: u16,
    bound: Bound,
)
    requires
        slot_of(mask, hash) < slots.len(),
        slot_of(mask, other) < slots.len(),
    ensures
        slot_of(mask, other) != slot_of(mask, hash) ==> probe_result(
            stored_slots(slots, mask, hash, best_move, score, depth, bound),
            mask,
            other,
        ) == probe_result(slots, mask, other),
        (other >> 32u64) != (hash >> 32u64) ==> probe_result(
            stored_slots(slots, mask, hash, best_move, score, depth, bound),
            mask,
            other,
        ) != Some(TtEntry { key: verification_key(hash), best_move, score, depth, bound }),
{
    let a = hash >> 32u64;
    let b = other >> 32u64;
    assert(a != b ==> (a as u32) != (b as u32)) by (bit_vector)
        requires
            a == hash >> 32u64,
            b == other >> 32u64,
    ;
}

/// After `clear` no hash is found.
pub proof fn law_cleared_table_finds_nothing(n: nat, mask: u64, hash: u64)
    requires
        slot_of(mask, hash) < n,
    ensures
        probe_result(Seq::new(n, |i: int| None::<TtEntry>), mask, hash) is None,
{
}

} // verus!
