//! The writes that the library asks its caller to carry out.

use vstd::prelude::*;

verus! {

/// One of the three arms of the junction.
#[derive(Clone, Copy, Debug, PartialEq, Eq, Structural)]
pub enum Arm {
    Left,
    Right,
    Upper,
}

/// A write to the outside world. The functions of this library add the
/// writes they decide on to a list of the caller's, in the order in which
/// they are to be carried out. A write that fails is fatal: the caller
/// halts.
#[derive(Clone, Copy, Debug, PartialEq, Eq, Structural)]
pub enum Command {
    /// Drive the pin of the stopper at position `stopper` high or low.
    Stopper { stopper: usize, high: bool },
    /// Drive the three pins of the light of `arm`.
    Light { arm: Arm, green: bool, yellow: bool, red: bool },
    /// Send the two bytes `id`, `angle` to the bus address `address`.
    Servo { address: u8, id: u8, angle: u8 },
    /// Drive the pulse pin of the servo at position `servo` high, which
    /// starts a pulse, or low, which ends it.
    Pulse { servo: usize, high: bool },
}

/// How many writes a [`Commands`] list holds at most.
pub const QUEUE_CAPACITY: usize = 64;

/// Whether a list that holds `used` writes has room for `more`.
pub open spec fn has_room(used: nat, more: Seq<Command>) -> bool {
    used + more.len() <= QUEUE_CAPACITY
}

/// A list of writes of fixed capacity. The functions of this library add
/// the writes they decide on to its end; the caller carries them out in
/// order and clears the list.
#[derive(Clone, Copy, Debug)]
pub struct Commands {
    items: [Command; 64],
    len: usize,
}

impl View for Commands {
    type V = Seq<Command>;

    /// The writes in the list, oldest first.
    closed spec fn view(&self) -> Seq<Command> {
        self.items@.take(
            if self.len <= QUEUE_CAPACITY {
                self.len as int
            } else {
                QUEUE_CAPACITY as int
            },
        )
    }
}

impl Commands {
    /// The list never holds more than its capacity.
    #[verifier::type_invariant]
    spec fn within_capacity(self) -> bool {
        self.len <= QUEUE_CAPACITY
    }

    /// No list holds more than [`QUEUE_CAPACITY`] writes.
    pub proof fn lemma_bounded(&self)
        ensures
            self@.len() <= QUEUE_CAPACITY,
    {
    }

    /// An empty list.
    pub fn new() -> (list: Commands)
        ensures
            list@ == Seq::<Command>::empty(),
    {
        Commands { items: [Command::Pulse { servo: 0, high: false };64], len: 0 }
    }

    /// The number of writes in the list.
    pub fn len(&self) -> (n: usize)
        ensures
            n == self@.len(),
            n <= QUEUE_CAPACITY,
    {
        proof {
            use_type_invariant(self);
        }
        self.len
    }

    pub fn is_empty(&self) -> (empty: bool)
        ensures
            empty == (self@.len() == 0),
    {
        self.len() == 0
    }

    /// How many more writes the list can take.
    pub fn room(&self) -> (n: usize)
        ensures
            n == QUEUE_CAPACITY - self@.len(),
    {
        QUEUE_CAPACITY - self.len()
    }

    /// The write at position `i`, counting from the oldest.
    pub fn get(&self, i: usize) -> (command: Command)
        requires
            i < self@.len(),
        ensures
            command == self@[i as int],
    {
        proof {
            use_type_invariant(self);
        }
        self.items[i]
    }

    /// Adds `command` to the end of the list.
    pub fn push(&mut self, command: Command)
        requires
            old(self)@.len() < QUEUE_CAPACITY,
        ensures
            final(self)@ == old(self)@.push(command),
    {
        proof {
            use_type_invariant(&*self);
        }
        let ghost before = self@;
        self.items[self.len] = command;
        self.len += 1;
        assert(self@ =~= before.push(command));
    }

    /// Empties the list.
    pub fn clear(&mut self)
        ensures
            final(self)@ == Seq::<Command>::empty(),
    {
        self.len = 0;
    }
}

} // verus!
