//! The state of one parse: the byte source, and a store of memorized values with one slot per
//! type, and a current cell for each type that is iterated over.
//!
//! The store is statically tracked: its type, chosen by the grammar, has one field per memorized
//! type, and [`Slots`] maps each type to its field. A combinator that memorizes or reads a type
//! the store has no slot for does not compile. What remains dynamic is the state of each slot
//! (empty, holding a value, taken), so memorizing twice, or reading before memorizing, fails when
//! the grammar runs. The alternative, a registry keyed by run-time type identity with checked
//! downcasts, would defer all three memorization errors to run time.
use vstd::prelude::*;
use crate::consume::{bytes_at, read_rel, Consume};
use crate::error::ParseError;
use crate::file::{Endian, ParseFile};

verus! {

/// A memorization slot: empty, holding a value, or emptied by taking the value out. A slot
/// that held a value is never filled again.
#[derive(Debug)]
pub enum Stored<T> {
    Empty,
    Value(T),
    Taken,
}

/// A store with a memorization slot for values of type `T`.
///
/// A grammar names its store type and implements this trait once for each type it memorizes,
/// so that each type has its own slot: the store is keyed by type.
pub trait Slots<T>: Sized {
    /// The name of `T` in errors about its slot.
    spec fn name() -> &'static str;

    fn name_of() -> (r: &'static str)
        ensures
            r == Self::name(),
    ;

    /// The memorization slot of `T`.
    spec fn slot(&self) -> Stored<T>;

    /// The store with the slot of `T` replaced by `v`.
    spec fn with_slot(self, v: Stored<T>) -> Self;

    proof fn lemma_with_slot(self, v: Stored<T>)
        ensures
            self.with_slot(v).slot() == v,
    ;

    fn slot_ref(&self) -> (r: &Stored<T>)
        ensures
            *r == self.slot(),
    ;

    /// Replaces the slot of `T` by `v`, handing back what it held.
    fn set_slot(&mut self, v: Stored<T>) -> (r: Stored<T>)
        ensures
            r == old(self).slot(),
            *final(self) == old(self).with_slot(v),
    ;
}

/// A store with a current cell for values of type `T`, overwritten at each step of an
/// iteration over values of that type.
///
/// The current value is typed: reading it as `T` gives the latest `T` that was set. A store for
/// a grammar that iterates over one type has a single cell; one that iterates over several
/// types in turn should clear the other cells when it sets one, so that a read of another type
/// fails with `NotCurrent` rather than giving an earlier value.
pub trait CurrentSlot<T>: Sized {
    /// The name of `T` in errors about its current cell.
    spec fn current_name() -> &'static str;

    fn current_name_of() -> (r: &'static str)
        ensures
            r == Self::current_name(),
    ;

    /// The current value of type `T`, if one was set.
    spec fn current(&self) -> Option<T>;

    /// The store with the current value of type `T` replaced by `v`.
    spec fn with_current(self, v: T) -> Self;

    proof fn lemma_with_current(self, v: T)
        ensures
            self.with_current(v).current() == Some(v),
    ;

    fn current_ref(&self) -> (r: &Option<T>)
        ensures
            *r == self.current(),
    ;

    fn set_current(&mut self, v: T)
        ensures
            *final(self) == old(self).with_current(v),
    ;
}

/// The state of one parse.
pub struct FileCtx<S> {
    pub file: ParseFile,
    pub store: S,
}

/// The context `c` with its source moved to `pos`.
pub open spec fn jumped<S>(c: FileCtx<S>, pos: usize) -> FileCtx<S> {
    FileCtx { file: c.file.at(pos), store: c.store }
}

/// What memorizing `v` does to `store`: the new store and the outcome.
pub open spec fn spec_memorize<S: Slots<T>, T>(store: S, v: T) -> (S, Result<(), ParseError>) {
    match store.slot() {
        Stored::Empty => (store.with_slot(Stored::Value(v)), Ok(())),
        Stored::Value(_) => (store, Err(ParseError::AlreadyMemorized(<S as Slots<T>>::name()))),
        Stored::Taken => (store, Err(ParseError::TakenMemorized(<S as Slots<T>>::name()))),
    }
}

/// What reading the memorized value of type `T` from `store` gives.
pub open spec fn spec_memorized<S: Slots<T>, T>(store: S) -> Result<T, ParseError> {
    match store.slot() {
        Stored::Value(v) => Ok(v),
        Stored::Empty => Err(ParseError::NotMemorized(<S as Slots<T>>::name())),
        Stored::Taken => Err(ParseError::TakenMemorized(<S as Slots<T>>::name())),
    }
}

/// Memorizing `v` into an empty slot succeeds, and reading it back gives `v` unchanged; a second
/// memorization of the same type then fails with `AlreadyMemorized` and leaves the store as it
/// was. Reading a type whose slot is empty fails with `NotMemorized`.
pub proof fn lemma_memorize_round_trip<S: Slots<T>, T>(store: S, v: T, w: T)
    requires
        store.slot() is Empty,
    ensures
        spec_memorized::<S, T>(store) == Err::<T, _>(ParseError::NotMemorized(<S as Slots<T>>::name())),
        spec_memorize(store, v).1 is Ok,
        spec_memorized::<S, T>(spec_memorize(store, v).0) == Ok::<T, ParseError>(v),
        spec_memorize(spec_memorize(store, v).0, w) == (
        spec_memorize(store, v).0,
        Err::<(), _>(ParseError::AlreadyMemorized(<S as Slots<T>>::name())),
        ),
{
    store.lemma_with_slot(Stored::Value(v));
}

impl<S> FileCtx<S> {
    pub open spec fn wf(&self) -> bool {
        self.file.wf()
    }

    /// A context over `file` with the store `store`.
    pub fn new(file: ParseFile, store: S) -> (r: FileCtx<S>)
        ensures
            r == (FileCtx { file, store }),
    {
        FileCtx { file, store }
    }

    /// Reads a value of type `T` at the current offset.
    pub fn consume<T: Consume>(&mut self, endian: Endian) -> (r: Result<T, ParseError>)
        requires
            old(self).wf(),
        ensures
            final(self).wf(),
            final(self).store == old(self).store,
            read_rel(old(self).file, final(self).file, T::width(), r),
            r matches Ok(v) ==> v == T::decode(bytes_at(old(self).file, T::width()), endian),
    {
        T::consume(&mut self.file, endian)
    }

    /// Reads `n` bytes at the current offset.
    pub fn consume_bytes(&mut self, n: usize) -> (r: Result<Vec<u8>, ParseError>)
        requires
            old(self).wf(),
        ensures
            final(self).wf(),
            final(self).store == old(self).store,
            read_rel(old(self).file, final(self).file, n as nat, r),
            r matches Ok(b) ==> b@ == bytes_at(old(self).file, n as nat),
    {
        self.file.consume_bytes(n)
    }

    /// The current absolute offset.
    pub fn mark(&self) -> (r: usize)
        ensures
            r == self.file.pos(),
    {
        self.file.cur_pos()
    }

    /// Moves the source to the absolute offset `pos`.
    pub fn jump(&mut self, pos: usize)
        ensures
            *final(self) == jumped(*old(self), pos),
    {
        self.file.jump(pos)
    }

    /// Stores `val` in the slot of `T`. Fails with `AlreadyMemorized` when that slot holds a
    /// value, and with `TakenMemorized` when its value was taken out; the store is then unchanged.
    pub fn memorize<T>(&mut self, val: T) -> (r: Result<(), ParseError>)
        where
            S: Slots<T>,
        ensures
            final(self).file == old(self).file,
            (final(self).store, r) == spec_memorize(old(self).store, val),
    {
        match self.store.slot_ref() {
            Stored::Empty => {
                let _ = self.store.set_slot(Stored::Value(val));
                Ok(())
            },
            Stored::Value(_) => Err(ParseError::AlreadyMemorized(<S as Slots<T>>::name_of())),
            Stored::Taken => Err(ParseError::TakenMemorized(<S as Slots<T>>::name_of())),
        }
    }

    /// The memorized value of type `T`.
    pub fn get_memorized<T>(&self) -> (r: Result<&T, ParseError>)
        where
            S: Slots<T>,
        ensures
            match r {
                Ok(x) => spec_memorized::<S, T>(self.store) == Ok::<T, ParseError>(*x),
                Err(e) => spec_memorized::<S, T>(self.store) == Err::<T, _>(e),
            },
    {
        match self.store.slot_ref() {
            Stored::Value(v) => Ok(v),
            Stored::Empty => Err(ParseError::NotMemorized(<S as Slots<T>>::name_of())),
            Stored::Taken => Err(ParseError::TakenMemorized(<S as Slots<T>>::name_of())),
        }
    }

    /// Takes the memorized value of type `T` out of its slot, which then stays empty for good.
    pub fn take_memorized<T>(&mut self) -> (r: Result<T, ParseError>)
        where
            S: Slots<T>,
        ensures
            final(self).file == old(self).file,
            match old(self).store.slot() {
                Stored::Value(v) => r == Ok::<T, ParseError>(v) && final(self).store == old(
                    self,
                ).store.with_slot(Stored::Taken),
                Stored::Empty => r == Err::<T, _>(ParseError::NotMemorized(<S as Slots<T>>::name())) && final(self).store
                    == old(self).store,
                Stored::Taken => r == Err::<T, _>(ParseError::TakenMemorized(<S as Slots<T>>::name())) && final(self).store
                    == old(self).store,
            },
    {
        match self.store.slot_ref() {
            Stored::Value(_) => {},
            Stored::Empty => {
                return Err(ParseError::NotMemorized(<S as Slots<T>>::name_of()));
            },
            Stored::Taken => {
                return Err(ParseError::TakenMemorized(<S as Slots<T>>::name_of()));
            },
        }
        match self.store.set_slot(Stored::Taken) {
            Stored::Value(v) => Ok(v),
            Stored::Empty => Err(ParseError::NotMemorized(<S as Slots<T>>::name_of())),
            Stored::Taken => Err(ParseError::TakenMemorized(<S as Slots<T>>::name_of())),
        }
    }

    /// Makes `val` the current value of type `T`.
    pub fn set_current<T>(&mut self, val: T)
        where
            S: CurrentSlot<T>,
        ensures
            final(self).file == old(self).file,
            final(self).store == old(self).store.with_current(val),
    {
        self.store.set_current(val)
    }

    /// The current value of type `T`; fails with `NotCurrent` when none was set.
    pub fn get_current<T>(&self) -> (r: Result<&T, ParseError>)
        where
            S: CurrentSlot<T>,
        ensures
            match self.store.current() {
                Some(v) => r == Ok::<&T, ParseError>(&v),
                None => r == Err::<&T, _>(ParseError::NotCurrent(<S as CurrentSlot<T>>::current_name())),
            },
    {
        match self.store.current_ref() {
            Some(v) => Ok(v),
            None => Err(ParseError::NotCurrent(<S as CurrentSlot<T>>::current_name_of())),
        }
    }
}

} // verus!
