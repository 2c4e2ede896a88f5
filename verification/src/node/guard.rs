use vstd::prelude::*;

verus! {

/// A step of publishing that has been taken for the block in the making.
#[derive(Clone, Copy, Debug, Hash, PartialEq, Eq, PartialOrd, Ord, Structural)]
pub enum Guard {
    Consensus,
    Summarized,
    Finalized,
}

/// The weight of a guard in a set of guards: one, two and four, in their order.
pub open spec fn guard_weight(guard: Guard) -> nat {
    match guard {
        Guard::Consensus => 1,
        Guard::Summarized => 2,
        Guard::Finalized => 4,
    }
}

/// Whether the set with the sum of weights `bits` holds `guard`.
pub open spec fn bits_hold(bits: nat, guard: Guard) -> bool {
    match guard {
        Guard::Consensus => bits % 2 == 1,
        Guard::Summarized => (bits / 2) % 2 == 1,
        Guard::Finalized => (bits / 4) % 2 == 1,
    }
}

/// A set of guards, in the order in which publishing sets them.
#[derive(Clone, Copy, Debug)]
pub struct Guards {
    bits: u8,
}

impl View for Guards {
    type V = Set<Guard>;

    closed spec fn view(&self) -> Set<Guard> {
        Set::new(|guard: Guard| bits_hold(self.bits as nat, guard))
    }
}

proof fn lemma_bits_without(bits: nat, guard: Guard, other: Guard)
    requires
        bits < 8,
        bits_hold(bits, guard),
    ensures
        bits >= guard_weight(guard),
        bits_hold((bits - guard_weight(guard)) as nat, other) == (other != guard && bits_hold(
            bits,
            other,
        )),
{
    if bits == 0 {
    } else if bits == 1 {
    } else if bits == 2 {
    } else if bits == 3 {
    } else if bits == 4 {
    } else if bits == 5 {
    } else if bits == 6 {
    } else {
        assert(bits == 7);
    }
}

proof fn lemma_bits_with(bits: nat, guard: Guard, other: Guard)
    requires
        bits < 8,
        !bits_hold(bits, guard),
    ensures
        bits + guard_weight(guard) < 8,
        bits_hold(bits + guard_weight(guard), other) == (other == guard || bits_hold(bits, other)),
{
    if bits == 0 {
    } else if bits == 1 {
    } else if bits == 2 {
    } else if bits == 3 {
    } else if bits == 4 {
    } else if bits == 5 {
    } else if bits == 6 {
    } else {
        assert(bits == 7);
    }
}

fn weight(guard: Guard) -> (weight: u8)
    ensures
        weight == guard_weight(guard),
{
    match guard {
        Guard::Consensus => 1,
        Guard::Summarized => 2,
        Guard::Finalized => 4,
    }
}

impl Guards {
    #[verifier::type_invariant]
    spec fn well_formed(&self) -> bool {
        self.bits < 8
    }

    /// The empty set.
    pub fn new() -> (guards: Self)
        ensures
            guards@ == Set::<Guard>::empty(),
    {
        let guards = Guards { bits: 0 };
        assert(guards@ =~= Set::<Guard>::empty());
        guards
    }

    pub fn contains(&self, guard: Guard) -> (held: bool)
        ensures
            held == self@.contains(guard),
    {
        match guard {
            Guard::Consensus => self.bits % 2 == 1,
            Guard::Summarized => (self.bits / 2) % 2 == 1,
            Guard::Finalized => (self.bits / 4) % 2 == 1,
        }
    }

    pub fn is_empty(&self) -> (empty: bool)
        ensures
            empty == (self@ == Set::<Guard>::empty()),
    {
        proof {
            use_type_invariant(self);
            if self.bits == 0 {
                assert(self@ =~= Set::<Guard>::empty());
            } else {
                assert(self@.contains(Guard::Consensus) || self@.contains(Guard::Summarized)
                    || self@.contains(Guard::Finalized));
            }
        }
        self.bits == 0
    }

    /// Adds `guard`.
    pub fn insert(&mut self, guard: Guard)
        ensures
            final(self)@ == old(self)@.insert(guard),
    {
        proof {
            use_type_invariant(&*self);
        }
        if !self.contains(guard) {
            proof {
                lemma_bits_with(self.bits as nat, guard, guard);
            }
            let bits: u8 = self.bits + weight(guard);
            let added = Guards { bits };
            assert forall|other: Guard| added@.contains(other) == self@.insert(guard).contains(
                other,
            ) by {
                lemma_bits_with(self.bits as nat, guard, other);
            }
            assert(added@ =~= self@.insert(guard));
            *self = added;
        } else {
            assert(self@ =~= self@.insert(guard));
        }
    }

    /// Takes `guard` away.
    pub fn remove(&mut self, guard: Guard)
        ensures
            final(self)@ == old(self)@.remove(guard),
    {
        proof {
            use_type_invariant(&*self);
        }
        if self.contains(guard) {
            proof {
                lemma_bits_without(self.bits as nat, guard, guard);
            }
            let bits: u8 = self.bits - weight(guard);
            let taken = Guards { bits };
            assert forall|other: Guard| taken@.contains(other) == self@.remove(guard).contains(
                other,
            ) by {
                lemma_bits_without(self.bits as nat, guard, other);
            }
            assert(taken@ =~= self@.remove(guard));
            *self = taken;
        } else {
            assert(self@ =~= self@.remove(guard));
        }
    }

    /// Takes every guard away.
    pub fn clear(&mut self)
        ensures
            final(self)@ == Set::<Guard>::empty(),
    {
        *self = Guards::new();
    }

    /// The guards of the set, in their order.
    pub fn to_vec(&self) -> (guards: Vec<Guard>)
        ensures
            guards@ == (if self@.contains(Guard::Consensus) {
                seq![Guard::Consensus]
            } else {
                Seq::<Guard>::empty()
            }) + (if self@.contains(Guard::Summarized) {
                seq![Guard::Summarized]
            } else {
                Seq::<Guard>::empty()
            }) + (if self@.contains(Guard::Finalized) {
                seq![Guard::Finalized]
            } else {
                Seq::<Guard>::empty()
            }),
    {
        let mut guards: Vec<Guard> = Vec::new();
        if self.contains(Guard::Consensus) {
            guards.push(Guard::Consensus);
        }
        let ghost first = guards@;
        if self.contains(Guard::Summarized) {
            guards.push(Guard::Summarized);
        }
        let ghost second = guards@;
        if self.contains(Guard::Finalized) {
            guards.push(Guard::Finalized);
        }
        proof {
            let a = if self@.contains(Guard::Consensus) {
                seq![Guard::Consensus]
            } else {
                Seq::<Guard>::empty()
            };
            let b = if self@.contains(Guard::Summarized) {
                seq![Guard::Summarized]
            } else {
                Seq::<Guard>::empty()
            };
            let c = if self@.contains(Guard::Finalized) {
                seq![Guard::Finalized]
            } else {
                Seq::<Guard>::empty()
            };
            assert(first =~= a);
            assert(second =~= a + b);
            assert(guards@ =~= a + b + c);
        }
        guards
    }
}

} // verus!
