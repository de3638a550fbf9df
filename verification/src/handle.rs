//! The typed handle: a two-word record tagged with its pointee type.
//!
//! A handle is live from the [`new`] or [`shared_ptr::clone`] that returned
//! it until its [`shared_ptr::drop`], which takes it by value: no handle is
//! released twice. While it is live it stands for one count in its control
//! block, so its pointee is alive.

use crate::engine::Engine;
use crate::protocol::{null_words, Words};
use std::marker::PhantomData;
use vstd::prelude::*;

verus! {

/// The two-word record of a shared-ownership handle.
///
/// Word 0 addresses the control block, word 1 addresses the pointee. The
/// pointee type `T` is a compile-time tag only: the two words are the whole
/// representation, whatever `T` is.
#[allow(non_camel_case_types)]
pub struct shared_ptr<T: ?Sized>([usize; 2], PhantomData<T>);

impl<T: ?Sized> View for shared_ptr<T> {
    type V = Words;

    closed spec fn view(&self) -> Words {
        Words { control: self.0[0], data: self.0[1] }
    }
}

impl<T: ?Sized> shared_ptr<T> {
    /// The record that holds the two words `words`.
    pub fn from_words(words: [usize; 2]) -> (sp: Self)
        ensures
            sp@ == (Words { control: words[0], data: words[1] }),
    {
        shared_ptr(words, PhantomData)
    }

    /// The two words of the record: control block first, pointee second.
    pub fn words(&self) -> (words: [usize; 2])
        ensures
            self@ == (Words { control: words[0], data: words[1] }),
    {
        [self.0[0], self.0[1]]
    }
}

impl<T: Default> Default for shared_ptr<T> {
    /// The null record. It is the record of no handle.
    fn default() -> (sp: Self)
        ensures
            sp@ == null_words(),
    {
        shared_ptr([0, 0], PhantomData)
    }
}

/// Moves `value` into the engine and returns the first handle to it: the
/// only one so far.
pub fn new<T>(engine: &mut Engine<T>, value: T) -> (sp: shared_ptr<T>)
    requires
        old(engine)@.wf(),
        old(engine)@.has_room(),
    ensures
        final(engine)@.wf(),
        final(engine)@ == old(engine)@.construct(value),
        sp@ == old(engine)@.next_words(),
{
    let erased = engine.construct(value);
    shared_ptr::from_words(erased.words())
}

impl<T> shared_ptr<T> {
    /// The same record with its pointee type erased.
    pub fn raw(&self) -> (erased: shared_ptr<()>)
        ensures
            erased@ == self@,
    {
        shared_ptr([self.0[0], self.0[1]], PhantomData)
    }

    /// One more handle to the same pointee. It holds the same two words;
    /// the engine counts it.
    pub fn clone(&self, engine: &mut Engine<T>) -> (dup: Self)
        requires
            old(engine)@.wf(),
            old(engine)@.valid(self@),
            old(engine)@.use_count(self@) < usize::MAX,
        ensures
            final(engine)@.wf(),
            final(engine)@ == old(engine)@.copy(self@),
            dup@ == self@,
    {
        let erased = engine.copy(&self.raw());
        shared_ptr::from_words(erased.words())
    }

    /// Releases this handle. With the last handle to a pointee the pointee
    /// is destroyed and its control block freed; before that, the other
    /// handles keep both.
    pub fn drop(self, engine: &mut Engine<T>)
        requires
            old(engine)@.wf(),
            old(engine)@.valid(self@),
        ensures
            final(engine)@.wf(),
            final(engine)@ == old(engine)@.destruct(self@),
    {
        engine.destruct(self.raw());
    }

    /// The pointee.
    pub fn deref<'a>(&self, engine: &'a Engine<T>) -> (value: &'a T)
        requires
            engine@.wf(),
            engine@.valid(self@),
        ensures
            *value == engine@.pointee(self@),
    {
        let data = engine.get(&self.raw());
        engine.pointee(data)
    }

    /// The pointee, for writing. What is written is what every handle to
    /// this pointee reads from then on.
    pub fn deref_mut<'a>(&mut self, engine: &'a mut Engine<T>) -> (value: &'a mut T)
        requires
            old(engine)@.wf(),
            old(engine)@.valid(old(self)@),
        ensures
            *final(self) == *old(self),
            *value == old(engine)@.pointee(old(self)@),
            final(engine)@.wf(),
            final(engine)@ == old(engine)@.store(old(self)@.data, *final(value)),
    {
        let data = engine.get(&self.raw());
        engine.pointee_mut(data)
    }
}

} // verus!
