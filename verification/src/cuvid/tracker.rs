//! Frame-in-use tracker: one bit per decode surface.
//!
//! A surface is claimed when a picture is submitted for decoding into it and
//! freed when the consumer lets go of the frame that was mapped from it. The
//! engine must not be handed a surface whose bit is set.
use vstd::prelude::*;

verus! {

/// Number of decode surfaces that one tracker word can follow.
pub const MAX_SURFACES: usize = 64;

/// Whether bit `idx` of `word` is set.
pub open spec fn bit_set(word: u64, idx: int) -> bool {
    0 <= idx < 64 && (word >> (idx as u64)) & 1 == 1
}

/// The surfaces whose bit is set in `word`.
pub open spec fn slots_of(word: u64) -> Set<int> {
    Set::new(|idx: int| bit_set(word, idx))
}

/// The word in which only bit `idx` is set.
pub open spec fn slot_bit(idx: int) -> u64
    recommends
        0 <= idx < 64,
{
    1u64 << (idx as u64)
}

proof fn lemma_bit_after_or(word: u64, i: u64, j: u64)
    requires
        i < 64,
        j < 64,
    ensures
        (((word | (1u64 << i)) >> j) & 1 == 1) == (i == j || (word >> j) & 1 == 1),
{
    assert((((word | (1u64 << i)) >> j) & 1 == 1) == (i == j || (word >> j) & 1 == 1))
        by (bit_vector)
        requires
            i < 64,
            j < 64,
    ;
}

proof fn lemma_bit_after_and_not(word: u64, i: u64, j: u64)
    requires
        i < 64,
        j < 64,
    ensures
        (((word & !(1u64 << i)) >> j) & 1 == 1) == (i != j && (word >> j) & 1 == 1),
{
    assert((((word & !(1u64 << i)) >> j) & 1 == 1) == (i != j && (word >> j) & 1 == 1))
        by (bit_vector)
        requires
            i < 64,
            j < 64,
    ;
}

proof fn lemma_bit_test(word: u64, i: u64)
    requires
        i < 64,
    ensures
        ((word & (1u64 << i)) != 0) == ((word >> i) & 1 == 1),
{
    assert(((word & (1u64 << i)) != 0) == ((word >> i) & 1 == 1)) by (bit_vector)
        requires
            i < 64,
    ;
}

proof fn lemma_zero_has_no_bits(i: u64)
    requires
        i < 64,
    ensures
        (0u64 >> i) & 1 == 0,
{
    assert((0u64 >> i) & 1 == 0) by (bit_vector)
        requires
            i < 64,
    ;
}

/// Setting bit `idx` adds surface `idx` and touches no other.
pub proof fn lemma_slots_insert(word: u64, idx: int)
    requires
        0 <= idx < 64,
    ensures
        slots_of(word | slot_bit(idx)) == slots_of(word).insert(idx),
{
    let after = word | slot_bit(idx);
    assert forall|j: int| slots_of(after).contains(j) == slots_of(word).insert(idx).contains(
        j,
    ) by {
        if 0 <= j < 64 {
            lemma_bit_after_or(word, idx as u64, j as u64);
        }
    }
    assert(slots_of(after) =~= slots_of(word).insert(idx));
}

/// Clearing bit `idx` removes surface `idx` and touches no other.
pub proof fn lemma_slots_remove(word: u64, idx: int)
    requires
        0 <= idx < 64,
    ensures
        slots_of(word & !slot_bit(idx)) == slots_of(word).remove(idx),
{
    let after = word & !slot_bit(idx);
    assert forall|j: int| slots_of(after).contains(j) == slots_of(word).remove(idx).contains(
        j,
    ) by {
        if 0 <= j < 64 {
            lemma_bit_after_and_not(word, idx as u64, j as u64);
        }
    }
    assert(slots_of(after) =~= slots_of(word).remove(idx));
}

/// The zero word claims no surface.
pub proof fn lemma_slots_empty()
    ensures
        slots_of(0) == Set::<int>::empty(),
{
    assert forall|j: int| !slots_of(0).contains(j) by {
        if 0 <= j < 64 {
            lemma_zero_has_no_bits(j as u64);
        }
    }
    assert(slots_of(0) =~= Set::<int>::empty());
}

/// Which decode surfaces are claimed, as one 64-bit word.
#[derive(Clone, Copy, Debug)]
pub struct FrameTracker {
    bits: u64,
}

impl View for FrameTracker {
    type V = Set<int>;

    /// The set of claimed surface indices.
    open spec fn view(&self) -> Set<int> {
        slots_of(self.word())
    }
}

impl FrameTracker {
    /// The underlying word.
    pub closed spec fn word(self) -> u64 {
        self.bits
    }

    /// A tracker with every surface free.
    pub fn new() -> (tracker: Self)
        ensures
            tracker.word() == 0,
            tracker@ == Set::<int>::empty(),
    {
        proof {
            lemma_slots_empty();
        }
        FrameTracker { bits: 0 }
    }

    /// A tracker over a word read from shared storage.
    pub fn from_bits(bits: u64) -> (tracker: Self)
        ensures
            tracker.word() == bits,
    {
        FrameTracker { bits }
    }

    /// The word to write back to shared storage.
    pub fn bits(&self) -> (bits: u64)
        ensures
            bits == self.word(),
    {
        self.bits
    }

    /// The word to OR into shared storage to claim surface `idx`.
    pub fn claim_mask(idx: usize) -> (mask: u64)
        requires
            idx < MAX_SURFACES,
        ensures
            mask == slot_bit(idx as int),
            forall|word: u64| #[trigger] slots_of(word | mask) == slots_of(word).insert(idx as int),
    {
        assert forall|word: u64| #[trigger]
            slots_of(word | slot_bit(idx as int)) == slots_of(word).insert(idx as int) by {
            lemma_slots_insert(word, idx as int);
        }
        1u64 << (idx as u64)
    }

    /// The word to AND into shared storage to free surface `idx`.
    pub fn release_mask(idx: usize) -> (mask: u64)
        requires
            idx < MAX_SURFACES,
        ensures
            mask == !slot_bit(idx as int),
            forall|word: u64| #[trigger] slots_of(word & mask) == slots_of(word).remove(idx as int),
    {
        assert forall|word: u64| #[trigger]
            slots_of(word & !slot_bit(idx as int)) == slots_of(word).remove(idx as int) by {
            lemma_slots_remove(word, idx as int);
        }
        !(1u64 << (idx as u64))
    }

    /// Whether surface `idx` is claimed.
    pub fn is_in_use(&self, idx: usize) -> (in_use: bool)
        requires
            idx < MAX_SURFACES,
        ensures
            in_use == self@.contains(idx as int),
    {
        proof {
            lemma_bit_test(self.bits, idx as u64);
        }
        self.bits & (1u64 << (idx as u64)) != 0
    }

    /// Claims surface `idx`.
    pub fn mark_in_use(&mut self, idx: usize)
        requires
            idx < MAX_SURFACES,
        ensures
            final(self)@ == old(self)@.insert(idx as int),
            final(self).word() == old(self).word() | slot_bit(idx as int),
    {
        proof {
            lemma_slots_insert(self.bits, idx as int);
        }
        self.bits = self.bits | (1u64 << (idx as u64));
    }

    /// Frees surface `idx`.
    pub fn mark_free(&mut self, idx: usize)
        requires
            idx < MAX_SURFACES,
        ensures
            final(self)@ == old(self)@.remove(idx as int),
            final(self).word() == old(self).word() & !slot_bit(idx as int),
    {
        proof {
            lemma_slots_remove(self.bits, idx as int);
        }
        self.bits = self.bits & !(1u64 << (idx as u64));
    }

    /// Frees every surface, as when the decoder is torn down.
    pub fn clear(&mut self)
        ensures
            final(self)@ == Set::<int>::empty(),
            final(self).word() == 0,
    {
        proof {
            lemma_slots_empty();
        }
        self.bits = 0;
    }
}

} // verus!
