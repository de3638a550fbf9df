//! An executable control-block engine, verified against the protocol.
//!
//! The engine owns the control blocks and the pointees. Handles are plain
//! records of two address words; every operation takes the engine by
//! reference and the record it acts on, with its pointee type erased.

use crate::handle::shared_ptr;
use crate::laws::law_store_keeps_wf;
use crate::protocol::{max_issued, ControlBlock, State};
use vstd::prelude::*;

verus! {

/// A control block together with the pointee it keeps alive.
struct Slot<T> {
    count: usize,
    value: T,
}

/// Control blocks and pointees of type `T`, in the order of construction.
///
/// The slot of the `n`-th construction stays in place for good and is
/// emptied when its last handle is released, so no address word is ever
/// issued twice.
pub struct Engine<T> {
    slots: Vec<Option<Slot<T>>>,
}

/// Slot number of the control block at an even, non-null address.
spec fn slot_of_control(c: usize) -> int {
    c / 2 - 1
}

/// Slot number of the pointee at an odd address.
spec fn slot_of_data(d: usize) -> int {
    (d - 1) / 2
}

impl<T> View for Engine<T> {
    type V = State<T>;

    closed spec fn view(&self) -> State<T> {
        State {
            issued: self.slots@.len(),
            blocks: Map::new(
                |c: usize|
                    c % 2 == 0 && 0 <= slot_of_control(c) < self.slots@.len()
                        && self.slots@[slot_of_control(c)] is Some,
                |c: usize|
                    ControlBlock {
                        count: self.slots@[slot_of_control(c)]->0.count as nat,
                        data: (c - 1) as usize,
                    },
            ),
            heap: Map::new(
                |d: usize|
                    d % 2 == 1 && slot_of_data(d) < self.slots@.len()
                        && self.slots@[slot_of_data(d)] is Some,
                |d: usize| self.slots@[slot_of_data(d)]->0.value,
            ),
        }
    }
}

impl<T> Engine<T> {
    /// What the slots of an engine with a well-formed state are like.
    proof fn lemma_slots(&self)
        requires
            self@.wf(),
        ensures
            self.slots@.len() <= max_issued(),
            forall|i: int|
                0 <= i < self.slots@.len() && (#[trigger] self.slots@[i]) is Some
                    ==> self.slots@[i]->0.count >= 1,
    {
        assert forall|i: int|
            0 <= i < self.slots@.len() && (#[trigger] self.slots@[i]) is Some implies self.slots@[i]->0.count
            >= 1 by {
            let c = (2 * i + 2) as usize;
            assert(slot_of_control(c) == i);
            assert(self@.blocks.contains_key(c));
        }
    }

    /// Slots that are few enough and hold positive counts make a
    /// well-formed state.
    proof fn lemma_state(&self)
        requires
            self.slots@.len() <= max_issued(),
            forall|i: int|
                0 <= i < self.slots@.len() && (#[trigger] self.slots@[i]) is Some
                    ==> self.slots@[i]->0.count >= 1,
        ensures
            self@.wf(),
    {
        let s = self@;
        assert forall|c: usize| #[trigger] s.blocks.contains_key(c) implies s.heap.contains_key(
            (c - 1) as usize,
        ) by {
            assert(slot_of_data((c - 1) as usize) == slot_of_control(c));
        }
        assert forall|d: usize| #[trigger] s.heap.contains_key(d) implies s.blocks.contains_key(
            (d + 1) as usize,
        ) by {
            assert(slot_of_control((d + 1) as usize) == slot_of_data(d));
        }
    }

    /// An engine with no control block and no pointee.
    pub fn new() -> (engine: Engine<T>)
        ensures
            engine@.wf(),
            engine@ == State::<T>::empty(),
    {
        Engine { slots: Vec::new() }
    }

    /// Whether another construction still gets fresh address words.
    pub fn has_room(&self) -> (room: bool)
        ensures
            room == self@.has_room(),
    {
        self.slots.len() < usize::MAX / 2
    }

    /// Whether `sp` is the record of a live handle of this engine.
    pub fn is_valid(&self, sp: &shared_ptr<()>) -> (valid: bool)
        ensures
            valid == self@.valid(sp@),
    {
        let w = sp.words();
        let c = w[0];
        if c % 2 != 0 || c < 2 || c / 2 - 1 >= self.slots.len() {
            return false;
        }
        match &self.slots[c / 2 - 1] {
            Some(_) => w[1] == c - 1,
            None => false,
        }
    }

    /// Number of live handles that share the pointee of `sp`.
    pub fn use_count(&self, sp: &shared_ptr<()>) -> (count: usize)
        requires
            self@.valid(sp@),
        ensures
            count == self@.use_count(sp@),
    {
        let c = sp.words()[0];
        self.slots[c / 2 - 1].as_ref().unwrap().count
    }

    /// Takes `value` as a fresh pointee and builds a control block with
    /// count 1 around it. Returns the record of the first handle.
    pub fn construct(&mut self, value: T) -> (sp: shared_ptr<()>)
        requires
            old(self)@.wf(),
            old(self)@.has_room(),
        ensures
            final(self)@.wf(),
            final(self)@ == old(self)@.construct(value),
            sp@ == old(self)@.next_words(),
    {
        proof {
            self.lemma_slots();
        }
        let n = self.slots.len();
        self.slots.push(Some(Slot { count: 1, value }));
        proof {
            self.lemma_state();
        }
        shared_ptr::from_words([2 * n + 2, 2 * n + 1])
    }

    /// Counts one more handle for the pointee of `sp` and returns the record
    /// of the new handle, which holds the same two words.
    pub fn copy(&mut self, sp: &shared_ptr<()>) -> (dup: shared_ptr<()>)
        requires
            old(self)@.wf(),
            old(self)@.valid(sp@),
            old(self)@.use_count(sp@) < usize::MAX,
        ensures
            final(self)@.wf(),
            final(self)@ == old(self)@.copy(sp@),
            dup@ == sp@,
    {
        proof {
            self.lemma_slots();
        }
        let w = sp.words();
        let slot = self.slots[w[0] / 2 - 1].as_mut().unwrap();
        slot.count = slot.count + 1;
        proof {
            self.lemma_state();
        }
        shared_ptr::from_words(w)
    }

    /// Releases the handle with record `sp`. The last release destroys the
    /// pointee and frees the control block; any other one only lowers the
    /// count.
    pub fn destruct(&mut self, sp: shared_ptr<()>)
        requires
            old(self)@.wf(),
            old(self)@.valid(sp@),
        ensures
            final(self)@.wf(),
            final(self)@ == old(self)@.destruct(sp@),
    {
        proof {
            self.lemma_slots();
        }
        let i = sp.words()[0] / 2 - 1;
        let slot = self.slots[i].as_mut().unwrap();
        if slot.count > 1 {
            slot.count = slot.count - 1;
        } else {
            self.slots[i] = None;
        }
        proof {
            self.lemma_state();
        }
    }

    /// The address of the pointee that the handle with record `sp` shares.
    pub fn get(&self, sp: &shared_ptr<()>) -> (data: usize)
        requires
            self@.valid(sp@),
        ensures
            data == sp@.data,
            self@.blocks[sp@.control].data == data,
    {
        sp.words()[0] - 1
    }

    /// The pointee at address `data`.
    pub fn pointee(&self, data: usize) -> (value: &T)
        requires
            self@.heap.contains_key(data),
        ensures
            *value == self@.heap[data],
    {
        &self.slots[(data - 1) / 2].as_ref().unwrap().value
    }

    /// The pointee at address `data`, for writing.
    pub fn pointee_mut(&mut self, data: usize) -> (value: &mut T)
        requires
            old(self)@.wf(),
            old(self)@.heap.contains_key(data),
        ensures
            *value == old(self)@.heap[data],
            final(self)@ == old(self)@.store(data, *final(value)),
            final(self)@.wf(),
    {
        let slot = self.slots[(data - 1) / 2].as_mut().unwrap();
        let value = &mut slot.value;
        proof {
            law_store_keeps_wf(old(self)@, data, *final(value));
        }
        value
    }
}

} // verus!
