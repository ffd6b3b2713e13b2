//! Readiness bits: one bit per channel in a status word shared with a pool.
//!
//! The word is an atomic shared by every channel of a pool and read by the
//! pool at any time, so no specification speaks of its content. What is
//! verified is which bit a channel owns and how the slots are handed out.

use std::sync::atomic::{AtomicU64, Ordering};
use std::sync::Arc;
use vstd::prelude::*;

verus! {

/// The number of readiness bits in a status word.
pub const STATUS_BITS: u32 = 64;

/// Every bit of the status word is already assigned.
#[derive(Clone, Copy, Debug, PartialEq, Eq)]
pub struct NotEnoughBits;

/// The word with only bit `index` set.
pub open spec fn mask_of(index: u32) -> u64 {
    1u64 << index
}

/// Whether bit `index` of `word` is set.
pub open spec fn bit_at(word: u64, index: u32) -> bool {
    word & mask_of(index) != 0
}

/// Or-ing a mask into a word raises that bit and leaves every other bit as it
/// was.
pub proof fn lemma_raise_touches_one_bit(word: u64, index: u32, other: u32)
    requires
        index < STATUS_BITS,
        other < STATUS_BITS,
    ensures
        bit_at(word | mask_of(index), other) == (other == index || bit_at(word, other)),
{
    assert(((word | (1u64 << index)) & (1u64 << other) != 0) == (other == index || (word & (1u64
        << other) != 0))) by (bit_vector)
        requires
            index < 64,
            other < 64,
    ;
}

/// And-ing the complement of a mask into a word clears that bit and leaves
/// every other bit as it was.
pub proof fn lemma_lower_touches_one_bit(word: u64, index: u32, other: u32)
    requires
        index < STATUS_BITS,
        other < STATUS_BITS,
    ensures
        bit_at(word & !mask_of(index), other) == (other != index && bit_at(word, other)),
{
    assert(((word & !(1u64 << index)) & (1u64 << other) != 0) == (other != index && (word & (1u64
        << other) != 0))) by (bit_vector)
        requires
            index < 64,
            other < 64,
    ;
}

/// Computes the word with only bit `index` set.
fn mask(index: u32) -> (m: u64)
    requires
        index < STATUS_BITS,
    ensures
        m == mask_of(index),
{
    1u64 << index
}

/// A slot of a status word: the word and the position of one of its bits.
struct Slot {
    word: Arc<AtomicU64>,
    index: u32,
}

/// A channel's readiness bit. It starts out unassigned; a `BitAssigner` gives
/// it a slot in a status word.
pub struct StatusBit {
    slot: Option<Slot>,
}

impl StatusBit {
    #[verifier::type_invariant]
    spec fn in_range(&self) -> bool {
        self.slot matches Some(slot) ==> slot.index < STATUS_BITS
    }

    /// The position of this bit in its status word, once assigned.
    pub closed spec fn index(&self) -> Option<u32> {
        match self.slot {
            Some(slot) => Some(slot.index),
            None => None,
        }
    }

    /// The status word that holds this bit, once assigned.
    pub closed spec fn word(&self) -> Option<Arc<AtomicU64>> {
        match self.slot {
            Some(slot) => Some(slot.word),
            None => None,
        }
    }

    /// A bit that is not assigned yet.
    pub fn new() -> (bit: Self)
        ensures
            bit.index() is None,
            bit.word() is None,
    {
        StatusBit { slot: None }
    }

    /// Whether a slot has been assigned.
    pub fn is_assigned(&self) -> (assigned: bool)
        ensures
            assigned == self.index() is Some,
    {
        self.slot.is_some()
    }

    /// The position of this bit in its status word, once assigned.
    pub fn position(&self) -> (index: Option<u32>)
        ensures
            index == self.index(),
            index matches Some(i) ==> i < STATUS_BITS,
    {
        proof {
            use_type_invariant(self);
        }
        match &self.slot {
            Some(slot) => Some(slot.index),
            None => None,
        }
    }

    /// Publishes `value` as this channel's readiness: or-s `mask_of` the
    /// bit's position into the shared word to raise the bit, and-s its
    /// complement to clear it. Without a slot there is nowhere to publish,
    /// and nothing happens.
    pub fn set(&self, value: bool) {
        proof {
            use_type_invariant(self);
        }
        match &self.slot {
            Some(slot) => {
                let mask: u64 = mask(slot.index);
                if value {
                    slot.word.fetch_or(mask, Ordering::SeqCst);
                } else {
                    slot.word.fetch_and(!mask, Ordering::SeqCst);
                }
            },
            None => {},
        }
    }

    /// Whether this bit is raised in `word`, a snapshot of the status word.
    /// An unassigned bit is raised in no word.
    pub open spec fn raised_in(&self, word: u64) -> bool {
        self.index() matches Some(i) && bit_at(word, i)
    }

    /// Tells whether this bit is raised in `word`, a snapshot of the status
    /// word.
    pub fn is_raised_in(&self, word: u64) -> (raised: bool)
        ensures
            raised == self.raised_in(word),
    {
        proof {
            use_type_invariant(self);
        }
        match &self.slot {
            Some(slot) => word & mask(slot.index) != 0,
            None => false,
        }
    }

    /// Reads this channel's readiness from the shared word: loads the word
    /// once and answers `is_raised_in` for what was loaded. An unassigned bit
    /// reads as not ready.
    pub fn get(&self) -> (ready: bool)
        ensures
            self.index() is None ==> !ready,
    {
        match &self.slot {
            Some(slot) => {
                let word: u64 = slot.word.load(Ordering::SeqCst);
                self.is_raised_in(word)
            },
            None => false,
        }
    }
}

/// The number of slots taken after one more request, given the number taken
/// before it: a request takes a slot while one is free and none afterwards.
pub open spec fn after_request(taken: nat) -> nat {
    if taken < STATUS_BITS {
        taken + 1
    } else {
        taken
    }
}

/// The number of slots taken once `requests` assignments have been asked of
/// an assigner that started with a free word.
pub open spec fn taken_after(requests: nat) -> nat
    decreases requests,
{
    if requests == 0 {
        0
    } else {
        after_request(taken_after((requests - 1) as nat))
    }
}

/// Setup exhaustion: of the requests made to one assigner, the first
/// `STATUS_BITS` are granted, request `k` receiving slot `k`, and every later
/// one finds the word full and leaves the count of taken slots as it was.
pub proof fn lemma_setup_exhaustion(requests: nat)
    ensures
        taken_after(requests) == if requests <= STATUS_BITS {
            requests
        } else {
            STATUS_BITS as nat
        },
        taken_after(requests) < STATUS_BITS <==> requests < STATUS_BITS,
        requests >= STATUS_BITS ==> taken_after(requests + 1) == taken_after(requests),
    decreases requests,
{
    if requests > 0 {
        lemma_setup_exhaustion((requests - 1) as nat);
    }
    assert(taken_after(requests + 1) == after_request(taken_after(requests)));
}

/// Hands out the bits of one status word, lowest position first, each at most
/// once.
pub struct BitAssigner {
    word: Arc<AtomicU64>,
    next: u32,
}

impl BitAssigner {
    #[verifier::type_invariant]
    spec fn in_range(&self) -> bool {
        self.next <= STATUS_BITS
    }

    /// The number of bits handed out so far.
    pub closed spec fn assigned(&self) -> nat {
        self.next as nat
    }

    /// The status word whose bits are handed out.
    pub closed spec fn word(&self) -> Arc<AtomicU64> {
        self.word
    }

    /// An assigner for `word`, none of whose bits is taken.
    pub fn new(word: Arc<AtomicU64>) -> (assigner: Self)
        ensures
            assigner.assigned() == 0,
            assigner.word() == word,
    {
        BitAssigner { word, next: 0 }
    }

    /// The number of bits still free.
    pub fn remaining(&self) -> (free: u32)
        ensures
            free == STATUS_BITS - self.assigned(),
    {
        proof {
            use_type_invariant(self);
        }
        STATUS_BITS - self.next
    }

    /// Gives `bit` the lowest free slot of the status word. Fails, changing
    /// nothing, exactly when all `STATUS_BITS` slots are taken.
    pub fn assign(&mut self, bit: &mut StatusBit) -> (result: Result<(), NotEnoughBits>)
        ensures
            final(self).word() == old(self).word(),
            final(self).assigned() == after_request(old(self).assigned()),
            old(self).assigned() < STATUS_BITS ==> {
                &&& result is Ok
                &&& final(bit).index() == Some(old(self).assigned() as u32)
                &&& final(bit).word() == Some(old(self).word())
            },
            old(self).assigned() >= STATUS_BITS ==> {
                &&& result == Err::<(), NotEnoughBits>(NotEnoughBits)
                &&& *final(bit) == *old(bit)
            },
    {
        proof {
            use_type_invariant(&*self);
        }
        if self.next >= STATUS_BITS {
            return Err(NotEnoughBits);
        }
        let word = Arc::clone(&self.word);
        bit.slot = Some(Slot { word, index: self.next });
        self.next = self.next + 1;
        Ok(())
    }
}

} // verus!
