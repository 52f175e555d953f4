//! Reading a dispatch table out of memory, one word at a time.
//!
//! A native object begins with the address of its table, and the table is a row
//! of words without gaps. The reader says which address it needs next
//! ([`TableReader::pending`]); the caller reads the word that lies there and hands
//! it over ([`TableReader::accept`]). Whether the object has a table at all, and
//! whether it is as long as asked for, the reader cannot know: it reads what it
//! is told to read.
use vstd::layout::size_of;
use vstd::prelude::*;

verus! {

/// The size of a machine word in bytes.
pub open spec fn word_size() -> nat {
    size_of::<usize>()
}

/// The address of slot `i` of the table that begins at `base`.
pub open spec fn slot_address(base: usize, i: nat) -> int {
    base + i * word_size()
}

/// A read in progress.
pub struct Reading {
    /// The address of the object.
    pub object: usize,
    /// How many slots are to be read.
    pub slots: nat,
    /// The address of the table, once it was read from the object.
    pub base: Option<usize>,
    /// The slots read so far.
    pub words: Seq<usize>,
}

impl Reading {
    /// A read that has not begun.
    pub open spec fn begin(object: usize, slots: nat) -> Reading {
        Reading { object, slots, base: None, words: Seq::empty() }
    }

    /// The address of the word that is needed next: the object's first word, then
    /// the slots in their order. Nothing once all slots are read, and nothing
    /// where the next slot would lie beyond the last address.
    pub open spec fn pending(self) -> Option<usize> {
        match self.base {
            None => Some(self.object),
            Some(base) => if self.words.len() < self.slots && slot_address(base, self.words.len())
                <= usize::MAX {
                Some(slot_address(base, self.words.len()) as usize)
            } else {
                None
            },
        }
    }

    /// The read after the word at the pending address was found to be `word`.
    pub open spec fn accept(self, word: usize) -> Reading {
        if self.pending() is None {
            self
        } else {
            match self.base {
                None => Reading { base: Some(word), ..self },
                Some(_) => Reading { words: self.words.push(word), ..self },
            }
        }
    }

    /// The table, once all its slots are read.
    pub open spec fn table(self) -> Option<Seq<usize>> {
        if self.base is Some && self.words.len() == self.slots {
            Some(self.words)
        } else {
            None
        }
    }

    /// The read after `steps` words were taken from `memory`, each from the
    /// address that was pending.
    pub open spec fn read_from(self, memory: spec_fn(usize) -> usize, steps: nat) -> Reading
        decreases steps,
    {
        if steps == 0 {
            self
        } else {
            let before = self.read_from(memory, (steps - 1) as nat);
            match before.pending() {
                Some(address) => before.accept(memory(address)),
                None => before,
            }
        }
    }
}

/// Reads the dispatch table of one object.
pub struct TableReader {
    object: usize,
    slots: usize,
    base: Option<usize>,
    words: Vec<usize>,
}

impl View for TableReader {
    type V = Reading;

    closed spec fn view(&self) -> Reading {
        Reading { object: self.object, slots: self.slots as nat, base: self.base, words: self.words@ }
    }
}

impl TableReader {
    #[verifier::type_invariant]
    spec fn within_the_table(&self) -> bool {
        self.words@.len() <= self.slots
    }

    /// Begins the read of `slot_count` slots of the table of the object at `object`.
    pub fn new(object: usize, slot_count: usize) -> (reader: TableReader)
        ensures
            reader@ == Reading::begin(object, slot_count as nat),
    {
        TableReader { object, slots: slot_count, base: None, words: Vec::new() }
    }

    /// The address of the word that is needed next, if one is.
    pub fn pending(&self) -> (address: Option<usize>)
        ensures
            address == self@.pending(),
    {
        match self.base {
            None => Some(self.object),
            Some(base) => {
                if self.words.len() < self.slots {
                    match self.words.len().checked_mul(core::mem::size_of::<usize>()) {
                        Some(offset) => base.checked_add(offset),
                        None => None,
                    }
                } else {
                    None
                }
            },
        }
    }

    /// Takes the word that was read at the pending address. Where no address is
    /// pending the word is dropped.
    pub fn accept(self, word: usize) -> (next: TableReader)
        ensures
            next@ == self@.accept(word),
    {
        proof {
            use_type_invariant(&self);
        }
        if self.pending().is_none() {
            return self;
        }
        match self.base {
            None => TableReader { base: Some(word), ..self },
            Some(_) => {
                let TableReader { object, slots, base, mut words } = self;
                words.push(word);
                TableReader { object, slots, base, words }
            },
        }
    }

    /// The table, once all its slots are read.
    pub fn table(self) -> (table: Option<Vec<usize>>)
        ensures
            match table {
                Some(words) => self@.table() == Some(words@),
                None => self@.table() is None,
            },
    {
        if self.base.is_some() && self.words.len() == self.slots {
            Some(self.words)
        } else {
            None
        }
    }
}

/// The reader asks for the object's first word and then, from the address that it
/// finds there, for one word after another: after `i + 1` words it holds the first
/// `i` slots of the table, in their order and as they were read.
pub proof fn lemma_reads_slots_in_order(
    memory: spec_fn(usize) -> usize,
    object: usize,
    slots: nat,
    i: nat,
)
    requires
        i <= slots,
        slot_address(memory(object), slots) <= usize::MAX + 1,
    ensures
        Reading::begin(object, slots).read_from(memory, i + 1) == (Reading {
            object,
            slots,
            base: Some(memory(object)),
            words: Seq::new(i, |k: int| memory(slot_address(memory(object), k as nat) as usize)),
        }),
    decreases i,
{
    let start = Reading::begin(object, slots);
    let base = memory(object);
    let slot = |k: int| memory(slot_address(base, k as nat) as usize);
    if i == 0 {
        assert(start.read_from(memory, 0) == start);
        assert(start.read_from(memory, 1) == start.accept(base));
        assert(Seq::new(0, slot) == Seq::<usize>::empty());
    } else {
        lemma_reads_slots_in_order(memory, object, slots, (i - 1) as nat);
        let before = start.read_from(memory, i);
        assert(before.words == Seq::new((i - 1) as nat, slot));
        assert(slot_address(base, (i - 1) as nat) <= usize::MAX) by (nonlinear_arith)
            requires
                1 <= i <= slots,
                slot_address(base, slots) <= usize::MAX + 1,
                word_size() >= 1,
        {
        }
        assert(before.pending() == Some(slot_address(base, (i - 1) as nat) as usize));
        assert(before.words.push(slot(i - 1)) == Seq::new(i, slot));
    }
}

/// Read against a memory, the reader returns exactly the words that lie in the
/// table's slots, in their order and unchanged: slot `k` of the result is the
/// word at the table's address plus `k` words.
pub proof fn lemma_reads_the_table(memory: spec_fn(usize) -> usize, object: usize, slots: nat)
    requires
        slot_address(memory(object), slots) <= usize::MAX + 1,
    ensures
        Reading::begin(object, slots).read_from(memory, slots + 1).table() == Some(
            Seq::new(slots, |k: int| memory(slot_address(memory(object), k as nat) as usize)),
        ),
{
    lemma_reads_slots_in_order(memory, object, slots, slots);
}

} // verus!
