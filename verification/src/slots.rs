//! A list with room for two entries.

use vstd::prelude::*;

verus! {

/// How many entries a [`Slots`] holds at most.
pub const CAPACITY: usize = 2;

/// Up to two positions, kept in the order in which they were registered.
#[derive(Clone, Copy, Debug)]
pub struct Slots {
    items: [Option<usize>; 2],
}

impl View for Slots {
    type V = Seq<usize>;

    /// The registered positions, oldest first.
    closed spec fn view(&self) -> Seq<usize> {
        if self.items[0] is None {
            Seq::empty()
        } else if self.items[1] is None {
            seq![self.items[0]->0]
        } else {
            seq![self.items[0]->0, self.items[1]->0]
        }
    }
}

impl Slots {
    /// A free slot never comes before a filled one.
    #[verifier::type_invariant]
    spec fn filled_from_the_front(self) -> bool {
        self.items[0] is None ==> self.items[1] is None
    }

    pub fn new() -> (slots: Slots)
        ensures
            slots@ == Seq::<usize>::empty(),
    {
        Slots { items: [None, None] }
    }

    pub fn len(&self) -> (n: usize)
        ensures
            n == self@.len(),
            n <= CAPACITY,
    {
        if self.items[0].is_none() {
            0
        } else if self.items[1].is_none() {
            1
        } else {
            2
        }
    }

    pub fn is_full(&self) -> (full: bool)
        ensures
            full == (self@.len() == CAPACITY),
    {
        self.len() == CAPACITY
    }

    /// The entry that was registered as number `i`, counting from 0.
    pub fn get(&self, i: usize) -> (item: usize)
        requires
            i < self@.len(),
        ensures
            item == self@[i as int],
    {
        match self.items[i] {
            Some(item) => item,
            None => 0,
        }
    }

    /// Registers `item` in the first free slot.
    pub fn insert(&mut self, item: usize)
        requires
            old(self)@.len() < CAPACITY,
        ensures
            final(self)@ == old(self)@.push(item),
    {
        proof {
            use_type_invariant(&*self);
        }
        if self.items[0].is_none() {
            self.items[0] = Some(item);
        } else {
            self.items[1] = Some(item);
        }
    }
}

} // verus!
