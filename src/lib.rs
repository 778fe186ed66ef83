//! Combinators for parsing binary formats in which values read at one place decide how the
//! bytes at another place are read: counts, offsets and tables that point elsewhere.
//!
//! A [`Reader`] may advance or move the byte source and may memorize values; an [`Action`] only
//! looks at what was memorized or is current, and never moves the source. Quantities that steer
//! the parse (a count, a jump target, a list to iterate over) are computed by actions, so they
//! are never computed while bytes are being consumed.
//!
//! The memorization store is a type chosen by the grammar, with one slot per memorized type
//! (see [`parse::Slots`]). Actions hand out owned copies of what they read, so no borrow of the
//! context outlives a later change to it.
pub mod combinator;
pub mod consume;
pub mod error;
pub mod file;
pub mod multi_range;
pub mod parse;
pub mod primitives;
pub mod sections;
pub mod tpl;

use vstd::prelude::*;
use std::marker::PhantomData;
use crate::combinator::{And, JumpAnd, Mapped, MapWith, Memorize, Repeated, Retrieve};
use crate::error::ParseError;
use crate::file::{LintLevel, ParseFile};
use crate::parse::FileCtx;

verus! {

/// Whether `f` has an unread byte and the level of the unused-bytes diagnostic is `Error`.
pub open spec fn unused_is_error(f: ParseFile) -> bool {
    !f.fully_used() && f.lints().on_unused == LintLevel::Error
}

/// A grammar step that may advance or move the byte source and may memorize values.
pub trait Reader<S>: Sized {
    type Output;

    /// The closures inside the reader accept every argument.
    spec fn ready(&self) -> bool;

    /// Running the reader from `pre` may end in `post` with the result `r`.
    spec fn runs(&self, pre: FileCtx<S>, post: FileCtx<S>, r: Result<Self::Output, ParseError>) -> bool;

    fn go(&self, ctx: &mut FileCtx<S>) -> (r: Result<Self::Output, ParseError>)
        requires
            self.ready(),
            old(ctx).wf(),
        ensures
            final(ctx).wf(),
            self.runs(*old(ctx), *final(ctx), r),
    ;

    /// Parses `file` from its current offset with the store `store`, then checks that every byte
    /// was read (see [`ParseFile::finish`]). The source is handed back with the output.
    ///
    /// A success is a successful run of the grammar after which no unread byte is an error. A
    /// failure is the grammar's own, or `UnusedErr` after a successful run that left a byte
    /// unread when that diagnostic's level is `Error`.
    fn parse(&self, file: ParseFile, store: S) -> (r: Result<(Self::Output, ParseFile), ParseError>)
        requires
            self.ready(),
            file.wf(),
        ensures
            r is Ok ==> r->Ok_0.1.wf() && exists|post: FileCtx<S>|
                #![trigger self.runs(FileCtx { file, store }, post, Ok(r->Ok_0.0))]
                self.runs(FileCtx { file, store }, post, Ok(r->Ok_0.0)) && post.file == r->Ok_0.1
                    && !unused_is_error(post.file),
            r is Err ==> exists|post: FileCtx<S>, ro: Result<Self::Output, ParseError>|
                #![trigger self.runs(FileCtx { file, store }, post, ro)]
                self.runs(FileCtx { file, store }, post, ro) && (ro == Err::<Self::Output, _>(
                    r->Err_0,
                ) || (ro is Ok && unused_is_error(post.file) && r->Err_0 == ParseError::UnusedErr)),
    {
        let ghost pre = FileCtx { file, store };
        let mut ctx = FileCtx::new(file, store);
        let ro = self.go(&mut ctx);
        let ghost gro = ro;
        let ghost post = ctx;
        assert(self.runs(pre, post, gro));
        let out = match ro {
            Ok(o) => o,
            Err(e) => {
                return Err(e);
            },
        };
        let FileCtx { file: f, store: _ } = ctx;
        match f.finish() {
            Ok(()) => {},
            Err(e) => {
                return Err(e);
            },
        }
        let r = Ok((out, f));
        assert(self.runs(pre, post, Ok(r->Ok_0.0)) && post.file == r->Ok_0.1);
        r
    }

    /// A repetition of this reader; choose how often with [`Repeated::exactly`] or
    /// [`Repeated::for_each`].
    fn repeated(self) -> (r: Repeated<Self, ()>)
        ensures
            r == (Repeated { inner: self, method: () }),
    {
        Repeated { inner: self, method: () }
    }

    /// This reader, then `second`, whose output is kept.
    fn and<R>(self, second: R) -> (r: And<Self, R>)
        ensures
            r == (And { first: self, second }),
    {
        And { first: self, second }
    }

    /// This reader, then a jump to the offset that `pos` gives, then `second`.
    fn jump_and<A, R>(self, pos: A, second: R) -> (r: JumpAnd<
        Self,
        R,
        A,
    >)
        ensures
            r == (JumpAnd { first: self, second, pos }),
    {
        JumpAnd { first: self, second, pos }
    }

    /// This reader, whose output is memorized under its type.
    fn memorize(self) -> (r: Memorize<Self>)
        ensures
            r == (Memorize { inner: self }),
    {
        Memorize { inner: self }
    }

    /// This reader, with its output passed through `func`.
    fn map<T, F: Fn(Self::Output) -> T>(self, func: F) -> (r: Mapped<Self, F, T>)
        ensures
            r.inner == self,
            r.func == func,
    {
        Mapped { inner: self, func, _phantom: PhantomData }
    }

    /// This reader, then `action` on the context it left, both outputs combined by `func`.
    fn map_with<T, A: Action<S>, F: Fn(Self::Output, A::Output) -> T>(self, action: A, func: F) -> (r:
        MapWith<Self, A, F, T>)
        ensures
            r.inner == self,
            r.action == action,
            r.func == func,
    {
        MapWith { inner: self, action, func, _phantom: PhantomData }
    }

    /// This reader, its output dropped, then `action` on the context it left.
    fn retrieve<A: Action<S>>(self, action: A) -> (r: Retrieve<Self, A>)
        ensures
            r == (Retrieve { inner: self, action }),
    {
        Retrieve { inner: self, action }
    }
}


/// A grammar step that only looks at the context: it neither moves the byte source nor
/// changes the store.
pub trait Action<S>: Sized {
    type Output;

    /// The closures inside the action accept every argument.
    spec fn ready(&self) -> bool;

    /// Evaluating the action on `ctx` may give `r`.
    spec fn gives(&self, ctx: FileCtx<S>, r: Result<Self::Output, ParseError>) -> bool;

    fn go(&self, ctx: &FileCtx<S>) -> (r: Result<Self::Output, ParseError>)
        requires
            self.ready(),
        ensures
            self.gives(*ctx, r),
    ;

    /// This action, with its output passed through `func`.
    fn map<T, F: Fn(Self::Output) -> T>(self, func: F) -> (r: Mapped<Self, F, T>)
        ensures
            r.inner == self,
            r.func == func,
    {
        Mapped { inner: self, func, _phantom: PhantomData }
    }
}

/// The action that gives `()`.
impl<S> Action<S> for () {
    type Output = ();

    open spec fn ready(&self) -> bool {
        true
    }

    open spec fn gives(&self, ctx: FileCtx<S>, r: Result<(), ParseError>) -> bool {
        r is Ok
    }

    fn go(&self, ctx: &FileCtx<S>) -> (r: Result<(), ParseError>) {
        Ok(())
    }
}

} // verus!
