//! The reference-counting protocol as a transition system over plain values.
//!
//! A [`State`] is everything the protocol knows: which control blocks are
//! live, how many handles share each of them, and which pointee each of them
//! keeps alive. The four boundary operations are total spec functions from
//! state to state; the executable engine is verified against them and the
//! laws of shared ownership are proved over them.

use vstd::prelude::*;

verus! {

/// The two words of a handle record, by meaning.
pub struct Words {
    /// Address of the control block.
    pub control: usize,
    /// Address of the pointee.
    pub data: usize,
}

/// The record in which both words are null. No constructed handle holds it.
pub open spec fn null_words() -> Words {
    Words { control: 0, data: 0 }
}

/// The shared state of all handles that stem from one construction.
pub struct ControlBlock {
    /// Number of live handles that share the pointee.
    pub count: nat,
    /// Address of the pointee this block keeps alive.
    pub data: usize,
}

/// The most constructions one engine can number with distinct non-null
/// address words.
pub open spec fn max_issued() -> nat {
    (usize::MAX / 2) as nat
}

/// Address word of the pointee of the `n`-th construction, counted from 0.
pub open spec fn data_address(n: nat) -> usize
    recommends
        n < max_issued(),
{
    (2 * n + 1) as usize
}

/// Address word of the control block of the `n`-th construction, counted
/// from 0.
pub open spec fn control_address(n: nat) -> usize
    recommends
        n < max_issued(),
{
    (2 * n + 2) as usize
}

/// Control blocks and pointees of one engine.
#[verifier::ext_equal]
pub struct State<T> {
    /// How many constructions have taken place so far.
    pub issued: nat,
    /// The live control blocks, by address.
    pub blocks: Map<usize, ControlBlock>,
    /// The live pointees, by address.
    pub heap: Map<usize, T>,
}

impl<T> State<T> {
    /// The state before any construction.
    pub open spec fn empty() -> Self {
        State { issued: 0, blocks: Map::empty(), heap: Map::empty() }
    }

    /// Every live control block has been issued, is shared by at least one
    /// handle and keeps its own pointee alive; no pointee is alive without
    /// its control block.
    pub open spec fn wf(self) -> bool {
        &&& self.issued <= max_issued()
        &&& forall|c: usize| #[trigger]
            self.blocks.contains_key(c) ==> {
                &&& c % 2 == 0
                &&& 2 <= c <= 2 * self.issued
                &&& self.blocks[c].count >= 1
                &&& self.blocks[c].data == c - 1
                &&& self.heap.contains_key((c - 1) as usize)
            }
        &&& forall|d: usize| #[trigger]
            self.heap.contains_key(d) ==> {
                &&& d % 2 == 1
                &&& d < 2 * self.issued
                &&& self.blocks.contains_key((d + 1) as usize)
            }
    }

    /// Whether another construction still gets fresh address words.
    pub open spec fn has_room(self) -> bool {
        self.issued < max_issued()
    }

    /// Whether `w` is the record of a live handle: its control block is live
    /// and its data word addresses the pointee of that block.
    pub open spec fn valid(self, w: Words) -> bool {
        &&& self.blocks.contains_key(w.control)
        &&& self.blocks[w.control].data == w.data
    }

    /// Number of live handles that share the pointee of `w`.
    pub open spec fn use_count(self, w: Words) -> nat
        recommends
            self.valid(w),
    {
        self.blocks[w.control].count
    }

    /// The pointee that the handles with record `w` share.
    pub open spec fn pointee(self, w: Words) -> T
        recommends
            self.valid(w),
    {
        self.heap[w.data]
    }

    /// The record that the next construction returns.
    pub open spec fn next_words(self) -> Words
        recommends
            self.has_room(),
    {
        Words { control: control_address(self.issued), data: data_address(self.issued) }
    }

    /// A fresh control block with count 1 around a fresh pointee `value`.
    pub open spec fn construct(self, value: T) -> Self
        recommends
            self.has_room(),
    {
        let w = self.next_words();
        State {
            issued: self.issued + 1,
            blocks: self.blocks.insert(w.control, ControlBlock { count: 1, data: w.data }),
            heap: self.heap.insert(w.data, value),
        }
    }

    /// One more handle shares the pointee of `w`.
    pub open spec fn copy(self, w: Words) -> Self
        recommends
            self.valid(w),
    {
        State {
            blocks: self.blocks.insert(
                w.control,
                ControlBlock { count: self.blocks[w.control].count + 1, data: w.data },
            ),
            ..self
        }
    }

    /// Whether releasing a handle with record `w` destroys the pointee:
    /// it is the last one.
    pub open spec fn last(self, w: Words) -> bool
        recommends
            self.valid(w),
    {
        self.blocks[w.control].count == 1
    }

    /// One handle fewer shares the pointee of `w`. With the last handle the
    /// pointee and the control block go.
    pub open spec fn destruct(self, w: Words) -> Self
        recommends
            self.valid(w),
    {
        if self.last(w) {
            State {
                blocks: self.blocks.remove(w.control),
                heap: self.heap.remove(w.data),
                ..self
            }
        } else {
            State {
                blocks: self.blocks.insert(
                    w.control,
                    ControlBlock {
                        count: (self.blocks[w.control].count - 1) as nat,
                        data: w.data,
                    },
                ),
                ..self
            }
        }
    }

    /// The pointee at address `data` becomes `value`.
    pub open spec fn store(self, data: usize, value: T) -> Self
        recommends
            self.heap.contains_key(data),
    {
        State { heap: self.heap.insert(data, value), ..self }
    }
}

} // verus!
