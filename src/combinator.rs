//! The combinators from which grammars are built.
use vstd::prelude::*;
use std::marker::PhantomData;
use crate::error::ParseError;
use crate::file::ParseFile;
use crate::parse::{jumped, spec_memorize, CurrentSlot, FileCtx, Slots};
use crate::{Action, Reader};

verus! {

/// Passes the output of a reader or an action through `func`.
pub struct Mapped<P, F, U> {
    pub inner: P,
    pub func: F,
    pub _phantom: PhantomData<U>,
}

impl<S, R: Reader<S>, U, F: Fn(R::Output) -> U> Reader<S> for Mapped<R, F, U> {
    type Output = U;

    open spec fn ready(&self) -> bool {
        self.inner.ready() && forall|o: R::Output| call_requires(self.func, (o,))
    }

    open spec fn runs(&self, pre: FileCtx<S>, post: FileCtx<S>, r: Result<U, ParseError>) -> bool {
        exists|ri: Result<R::Output, ParseError>| #[trigger]
            self.inner.runs(pre, post, ri) && match ri {
                Ok(o) => r is Ok && call_ensures(self.func, (o,), r->Ok_0),
                Err(e) => r == Err::<U, _>(e),
            }
    }

    fn go(&self, ctx: &mut FileCtx<S>) -> (r: Result<U, ParseError>) {
        let ghost pre = *ctx;
        let ri = self.inner.go(ctx);
        let ghost gri = ri;
        let r = match ri {
            Ok(o) => Ok((self.func)(o)),
            Err(e) => Err(e),
        };
        assert(self.inner.runs(pre, *ctx, gri));
        r
    }
}

impl<S, A: Action<S>, U, F: Fn(A::Output) -> U> Action<S> for Mapped<A, F, U> {
    type Output = U;

    open spec fn ready(&self) -> bool {
        self.inner.ready() && forall|o: A::Output| call_requires(self.func, (o,))
    }

    open spec fn gives(&self, ctx: FileCtx<S>, r: Result<U, ParseError>) -> bool {
        exists|ri: Result<A::Output, ParseError>| #[trigger]
            self.inner.gives(ctx, ri) && match ri {
                Ok(o) => r is Ok && call_ensures(self.func, (o,), r->Ok_0),
                Err(e) => r == Err::<U, _>(e),
            }
    }

    fn go(&self, ctx: &FileCtx<S>) -> (r: Result<U, ParseError>) {
        let ri = self.inner.go(ctx);
        let ghost gri = ri;
        let r = match ri {
            Ok(o) => Ok((self.func)(o)),
            Err(e) => Err(e),
        };
        assert(self.inner.gives(*ctx, gri));
        r
    }
}

/// Runs `first`, then `second`; the output is that of `second`.
pub struct And<R1, R2> {
    pub first: R1,
    pub second: R2,
}

impl<S, R1: Reader<S>, R2: Reader<S>> Reader<S> for And<R1, R2> {
    type Output = R2::Output;

    open spec fn ready(&self) -> bool {
        self.first.ready() && self.second.ready()
    }

    open spec fn runs(&self, pre: FileCtx<S>, post: FileCtx<S>, r: Result<R2::Output, ParseError>) -> bool {
        exists|mid: FileCtx<S>, r1: Result<R1::Output, ParseError>| #[trigger]
            self.first.runs(pre, mid, r1) && match r1 {
                Ok(_) => self.second.runs(mid, post, r),
                Err(e) => post == mid && r == Err::<R2::Output, _>(e),
            }
    }

    fn go(&self, ctx: &mut FileCtx<S>) -> (r: Result<R2::Output, ParseError>) {
        let ghost pre = *ctx;
        let r1 = self.first.go(ctx);
        let ghost g1 = r1;
        let ghost mid = *ctx;
        match r1 {
            Ok(_) => {},
            Err(e) => {
                assert(self.first.runs(pre, mid, g1));
                return Err(e);
            },
        }
        let r = self.second.go(ctx);
        assert(self.first.runs(pre, mid, g1));
        r
    }
}

/// Runs `inner`, then evaluates `action` on the context it left, and combines both outputs
/// with `func`.
pub struct MapWith<R, A, F, T> {
    pub inner: R,
    pub action: A,
    pub func: F,
    pub _phantom: PhantomData<T>,
}

impl<S, R: Reader<S>, A: Action<S>, T, F: Fn(R::Output, A::Output) -> T> Reader<S> for MapWith<R, A, F, T> {
    type Output = T;

    open spec fn ready(&self) -> bool {
        &&& self.inner.ready()
        &&& self.action.ready()
        &&& forall|o: R::Output, a: A::Output| call_requires(self.func, (o, a))
    }

    open spec fn runs(&self, pre: FileCtx<S>, post: FileCtx<S>, r: Result<T, ParseError>) -> bool {
        exists|ri: Result<R::Output, ParseError>| #[trigger]
            self.inner.runs(pre, post, ri) && match ri {
                Err(e) => r == Err::<T, _>(e),
                Ok(o) => exists|ra: Result<A::Output, ParseError>| #[trigger]
                    self.action.gives(post, ra) && match ra {
                        Err(e) => r == Err::<T, _>(e),
                        Ok(a) => r is Ok && call_ensures(self.func, (o, a), r->Ok_0),
                    },
            }
    }

    fn go(&self, ctx: &mut FileCtx<S>) -> (r: Result<T, ParseError>) {
        let ghost pre = *ctx;
        let ri = self.inner.go(ctx);
        let ghost gri = ri;
        assert(self.inner.runs(pre, *ctx, gri));
        match ri {
            Err(e) => Err(e),
            Ok(o) => {
                let ra = self.action.go(ctx);
                let ghost gra = ra;
                assert(self.action.gives(*ctx, gra));
                match ra {
                    Err(e) => Err(e),
                    Ok(a) => Ok((self.func)(o, a)),
                }
            },
        }
    }
}

/// Runs `first`, evaluates `pos` on the context it left, jumps to that absolute offset and
/// runs `second`, whose output is kept.
pub struct JumpAnd<R1, R2, A> {
    pub first: R1,
    pub second: R2,
    pub pos: A,
}

impl<S, R1: Reader<S>, R2: Reader<S>, A: Action<S, Output = usize>> Reader<S> for JumpAnd<R1, R2, A> {
    type Output = R2::Output;

    open spec fn ready(&self) -> bool {
        self.first.ready() && self.second.ready() && self.pos.ready()
    }

    open spec fn runs(&self, pre: FileCtx<S>, post: FileCtx<S>, r: Result<R2::Output, ParseError>) -> bool {
        exists|mid: FileCtx<S>, r1: Result<R1::Output, ParseError>| #[trigger]
            self.first.runs(pre, mid, r1) && match r1 {
                Err(e) => post == mid && r == Err::<R2::Output, _>(e),
                Ok(_) => exists|p: Result<usize, ParseError>| #[trigger]
                    self.pos.gives(mid, p) && match p {
                        Err(e) => post == mid && r == Err::<R2::Output, _>(e),
                        Ok(off) => self.second.runs(jumped(mid, off), post, r),
                    },
            }
    }

    fn go(&self, ctx: &mut FileCtx<S>) -> (r: Result<R2::Output, ParseError>) {
        let ghost pre = *ctx;
        let r1 = self.first.go(ctx);
        let ghost g1 = r1;
        let ghost mid = *ctx;
        assert(self.first.runs(pre, mid, g1));
        if let Err(e) = r1 {
            return Err(e);
        }
        let p = self.pos.go(ctx);
        let ghost gp = p;
        assert(self.pos.gives(mid, gp));
        match p {
            Err(e) => Err(e),
            Ok(off) => {
                ctx.jump(off);
                proof {
                    ParseFile::lemma_at(mid.file, off);
                }
                self.second.go(ctx)
            },
        }
    }
}

/// Runs `inner`, drops its output, and gives what `action` gives on the context it left.
pub struct Retrieve<R, A> {
    pub inner: R,
    pub action: A,
}

impl<S, R: Reader<S>, A: Action<S>> Reader<S> for Retrieve<R, A> {
    type Output = A::Output;

    open spec fn ready(&self) -> bool {
        self.inner.ready() && self.action.ready()
    }

    open spec fn runs(&self, pre: FileCtx<S>, post: FileCtx<S>, r: Result<A::Output, ParseError>) -> bool {
        exists|ri: Result<R::Output, ParseError>| #[trigger]
            self.inner.runs(pre, post, ri) && match ri {
                Err(e) => r == Err::<A::Output, _>(e),
                Ok(_) => self.action.gives(post, r),
            }
    }

    fn go(&self, ctx: &mut FileCtx<S>) -> (r: Result<A::Output, ParseError>) {
        let ghost pre = *ctx;
        let ri = self.inner.go(ctx);
        let ghost gri = ri;
        assert(self.inner.runs(pre, *ctx, gri));
        match ri {
            Err(e) => Err(e),
            Ok(_) => self.action.go(ctx),
        }
    }
}

/// Runs `inner` and memorizes its output in the slot of its type; the output is `()`.
pub struct Memorize<R> {
    pub inner: R,
}

impl<S: Slots<R::Output>, R: Reader<S>> Reader<S> for Memorize<R> {
    type Output = ();

    open spec fn ready(&self) -> bool {
        self.inner.ready()
    }

    open spec fn runs(&self, pre: FileCtx<S>, post: FileCtx<S>, r: Result<(), ParseError>) -> bool {
        exists|mid: FileCtx<S>, ri: Result<R::Output, ParseError>| #[trigger]
            self.inner.runs(pre, mid, ri) && match ri {
                Err(e) => post == mid && r == Err::<(), _>(e),
                Ok(v) => post.file == mid.file && (post.store, r) == spec_memorize(mid.store, v),
            }
    }

    fn go(&self, ctx: &mut FileCtx<S>) -> (r: Result<(), ParseError>) {
        let ghost pre = *ctx;
        let ri = self.inner.go(ctx);
        let ghost gri = ri;
        let ghost mid = *ctx;
        assert(self.inner.runs(pre, mid, gri));
        match ri {
            Err(e) => Err(e),
            Ok(v) => ctx.memorize(v),
        }
    }
}

/// `post` is reached from `pre` by running `r` once for each of `outs`, in order, each run
/// succeeding with the next output.
pub open spec fn runs_n<S, R: Reader<S>>(
    r: R,
    pre: FileCtx<S>,
    post: FileCtx<S>,
    outs: Seq<R::Output>,
) -> bool
    decreases outs.len(),
{
    if outs.len() == 0 {
        post == pre
    } else {
        exists|mid: FileCtx<S>|
            runs_n(r, pre, mid, outs.drop_last()) && #[trigger] r.runs(mid, post, Ok(outs.last()))
    }
}

/// The context `c` with `v` as its current value of type `I`.
pub open spec fn with_current<S: CurrentSlot<I>, I>(c: FileCtx<S>, v: I) -> FileCtx<S> {
    FileCtx { file: c.file, store: c.store.with_current(v) }
}

/// `post` is reached from `pre` by running `r` once for each of `items`, in order, with the
/// item as the current value, each run succeeding with the matching output of `outs`.
pub open spec fn runs_each<S: CurrentSlot<I>, I, R: Reader<S>>(
    r: R,
    pre: FileCtx<S>,
    post: FileCtx<S>,
    items: Seq<I>,
    outs: Seq<R::Output>,
) -> bool
    decreases items.len(),
{
    if items.len() == 0 {
        post == pre && outs.len() == 0
    } else {
        outs.len() == items.len() && exists|mid: FileCtx<S>|
            runs_each(r, pre, mid, items.drop_last(), outs.drop_last()) && #[trigger] r.runs(
                with_current(mid, items.last()),
                post,
                Ok(outs.last()),
            )
    }
}

/// Repeats a reader a number of times given by an action.
pub struct RepeatExact<A>(pub A);

/// Repeats a reader once for each item of a list given by an action, with the item as the
/// current value.
pub struct ForEach<A>(pub A);

/// Repeats a reader until an action gives `true`.
pub struct RepeatUntil<A>(pub A);

/// `post` is reached from `pre` by running `r` once for each of `outs`, in order, where `p`
/// gives `false` on the context before each run.
pub open spec fn runs_until<S, R: Reader<S>, A: Action<S, Output = bool>>(
    r: R,
    p: A,
    pre: FileCtx<S>,
    post: FileCtx<S>,
    outs: Seq<R::Output>,
) -> bool
    decreases outs.len(),
{
    if outs.len() == 0 {
        post == pre
    } else {
        exists|mid: FileCtx<S>|
            runs_until(r, p, pre, mid, outs.drop_last()) && p.gives(mid, Ok(false))
                && #[trigger] r.runs(mid, post, Ok(outs.last()))
    }
}

/// A reader repeated; `method` says how often.
pub struct Repeated<R, M> {
    pub inner: R,
    pub method: M,
}

impl<R> Repeated<R, ()> {
    /// Repeats the reader as many times as `action` gives, evaluated once before the first run.
    pub fn exactly<A>(self, action: A) -> (r: Repeated<R, RepeatExact<A>>)
        ensures
            r.inner == self.inner,
            r.method.0 == action,
    {
        Repeated { inner: self.inner, method: RepeatExact(action) }
    }

    /// Repeats the reader while `action` gives `false`. The action is evaluated before each
    /// run; once it gives `true` the repetition ends without running the reader again, so the
    /// outputs are those of the runs before. As a run that reads nothing could repeat forever,
    /// a repetition that has run as many times as the source has bytes, and would run again,
    /// fails.
    pub fn until<A>(self, action: A) -> (r: Repeated<R, RepeatUntil<A>>)
        ensures
            r.inner == self.inner,
            r.method.0 == action,
    {
        Repeated { inner: self.inner, method: RepeatUntil(action) }
    }

    /// Repeats the reader once for each item of the list that `action` gives, evaluated once
    /// before the first run; each item is the current value during its run.
    pub fn for_each<A>(self, action: A) -> (r: Repeated<R, ForEach<A>>)
        ensures
            r.inner == self.inner,
            r.method.0 == action,
    {
        Repeated { inner: self.inner, method: ForEach(action) }
    }
}

impl<S, R: Reader<S>, A: Action<S, Output = usize>> Reader<S> for Repeated<R, RepeatExact<A>> {
    type Output = Vec<R::Output>;

    open spec fn ready(&self) -> bool {
        self.inner.ready() && self.method.0.ready()
    }

    /// The count is evaluated once; then the inner reader runs that many times in order, and
    /// the outputs come in the order of the runs. The first failure ends the repetition.
    open spec fn runs(&self, pre: FileCtx<S>, post: FileCtx<S>, r: Result<Vec<R::Output>, ParseError>) -> bool {
        exists|rn: Result<usize, ParseError>| #[trigger]
            self.method.0.gives(pre, rn) && match rn {
                Err(e) => post == pre && r == Err::<Vec<R::Output>, _>(e),
                Ok(n) => match r {
                    Ok(v) => v@.len() == n && runs_n(self.inner, pre, post, v@),
                    Err(e) => exists|mid: FileCtx<S>, outs: Seq<R::Output>|
                        outs.len() < n && #[trigger] runs_n(self.inner, pre, mid, outs)
                            && self.inner.runs(mid, post, Err(e)),
                },
            }
    }

    fn go(&self, ctx: &mut FileCtx<S>) -> (r: Result<Vec<R::Output>, ParseError>) {
        let ghost pre = *ctx;
        let rn = self.method.0.go(ctx);
        let ghost grn = rn;
        assert(self.method.0.gives(pre, grn));
        let n = match rn {
            Err(e) => {
                return Err(e);
            },
            Ok(n) => n,
        };
        let mut out: Vec<R::Output> = Vec::new();
        let mut i: usize = 0;
        assert(runs_n(self.inner, pre, *ctx, out@));
        while i < n
            invariant
                self.ready(),
                pre == *old(ctx),
                self.method.0.gives(pre, grn),
                grn == Ok::<usize, ParseError>(n),
                ctx.wf(),
                i <= n,
                out@.len() == i,
                runs_n(self.inner, pre, *ctx, out@),
            decreases n - i,
        {
            let ghost before = *ctx;
            let ghost outs = out@;
            let ri = self.inner.go(ctx);
            let ghost gri = ri;
            match ri {
                Ok(o) => {
                    out.push(o);
                    assert(out@.drop_last() == outs);
                    assert(self.inner.runs(before, *ctx, Ok(out@.last())));
                },
                Err(e) => {
                    assert(self.inner.runs(before, *ctx, Err(e)));
                    assert(runs_n(self.inner, pre, before, outs));
                    assert(exists|mid: FileCtx<S>, outs: Seq<R::Output>|
                        outs.len() < n && #[trigger] runs_n(self.inner, pre, mid, outs)
                            && self.inner.runs(mid, *ctx, Err(e)));
                    return Err(e);
                },
            }
            i = i + 1;
        }
        Ok(out)
    }
}

impl<S, R: Reader<S>, A: Action<S, Output = bool>> Reader<S> for Repeated<R, RepeatUntil<A>> {
    type Output = Vec<R::Output>;

    open spec fn ready(&self) -> bool {
        self.inner.ready() && self.method.0.ready()
    }

    /// A success ran the reader while the action gave `false` and ends where it gave `true`.
    /// A failure is the action's or the reader's, or, past the bound on the number of runs, a
    /// message.
    open spec fn runs(&self, pre: FileCtx<S>, post: FileCtx<S>, r: Result<Vec<R::Output>, ParseError>) -> bool {
        match r {
            Ok(v) => runs_until(self.inner, self.method.0, pre, post, v@) && self.method.0.gives(
                post,
                Ok(true),
            ),
            Err(e) => exists|mid: FileCtx<S>, outs: Seq<R::Output>| #[trigger]
                runs_until(self.inner, self.method.0, pre, mid, outs) && {
                    ||| self.method.0.gives(mid, Err(e)) && post == mid
                    ||| self.method.0.gives(mid, Ok(false)) && self.inner.runs(mid, post, Err(e))
                    ||| self.method.0.gives(mid, Ok(false)) && post == mid && outs.len()
                        >= pre.file.data().len() && e is Custom
                },
        }
    }

    fn go(&self, ctx: &mut FileCtx<S>) -> (r: Result<Vec<R::Output>, ParseError>) {
        let ghost pre = *ctx;
        let cap = ctx.file.len();
        let mut out: Vec<R::Output> = Vec::new();
        let mut i: usize = 0;
        loop
            invariant
                self.ready(),
                pre == *old(ctx),
                cap == pre.file.data().len(),
                ctx.wf(),
                i <= cap,
                out@.len() == i,
                runs_until(self.inner, self.method.0, pre, *ctx, out@),
            decreases cap - i,
        {
            let ghost before = *ctx;
            let ghost outs = out@;
            let stop = match self.method.0.go(ctx) {
                Ok(b) => b,
                Err(e) => {
                    assert(self.method.0.gives(before, Err(e)));
                    return Err(e);
                },
            };
            if stop {
                return Ok(out);
            }
            if i >= cap {
                proof {
                    assert(outs.len() >= pre.file.data().len());
                }
                return Err(ParseError::Custom(String::from_str("repetition does not end")));
            }
            match self.inner.go(ctx) {
                Ok(o) => {
                    out.push(o);
                    assert(out@.drop_last() == outs);
                    assert(self.inner.runs(before, *ctx, Ok(out@.last())));
                },
                Err(e) => {
                    assert(self.inner.runs(before, *ctx, Err(e)));
                    return Err(e);
                },
            }
            i = i + 1;
        }
    }
}

impl<S: CurrentSlot<I>, I, R: Reader<S>, A: Action<S, Output = Vec<I>>> Reader<S> for Repeated<R, ForEach<A>> {
    type Output = Vec<R::Output>;

    open spec fn ready(&self) -> bool {
        self.inner.ready() && self.method.0.ready()
    }

    /// The list is evaluated once; then the inner reader runs once per item, in order, with the
    /// item as the current value. The first failure ends the repetition.
    open spec fn runs(&self, pre: FileCtx<S>, post: FileCtx<S>, r: Result<Vec<R::Output>, ParseError>) -> bool {
        exists|rl: Result<Vec<I>, ParseError>| #[trigger]
            self.method.0.gives(pre, rl) && match rl {
                Err(e) => post == pre && r == Err::<Vec<R::Output>, _>(e),
                Ok(items) => match r {
                    Ok(v) => runs_each(self.inner, pre, post, items@, v@),
                    Err(e) => exists|k: int, mid: FileCtx<S>, outs: Seq<R::Output>|
                        0 <= k < items@.len() && #[trigger] runs_each(
                            self.inner,
                            pre,
                            mid,
                            items@.subrange(0, k),
                            outs,
                        ) && self.inner.runs(with_current(mid, items@[k]), post, Err(e)),
                },
            }
    }

    fn go(&self, ctx: &mut FileCtx<S>) -> (r: Result<Vec<R::Output>, ParseError>) {
        let ghost pre = *ctx;
        let rl = self.method.0.go(ctx);
        let ghost grl = rl;
        assert(self.method.0.gives(pre, grl));
        let mut items = match rl {
            Err(e) => {
                return Err(e);
            },
            Ok(items) => items,
        };
        let ghost all = items@;
        let total = items.len();
        let mut out: Vec<R::Output> = Vec::new();
        let mut i: usize = 0;
        assert(all.subrange(0, 0) =~= Seq::<I>::empty());
        while items.len() > 0
            invariant
                self.ready(),
                pre == *old(ctx),
                self.method.0.gives(pre, grl),
                grl is Ok && grl->Ok_0@ == all,
                ctx.wf(),
                all.len() == total,
                i <= all.len(),
                items@ == all.subrange(i as int, all.len() as int),
                out@.len() == i,
                runs_each(self.inner, pre, *ctx, all.subrange(0, i as int), out@),
            decreases items@.len(),
        {
            let ghost before = *ctx;
            let ghost outs = out@;
            let item = items.remove(0);
            assert(item == all[i as int]);
            ctx.set_current(item);
            assert(*ctx == with_current(before, all[i as int]));
            let ri = self.inner.go(ctx);
            let ghost gri = ri;
            assert(all.subrange(0, i + 1).drop_last() == all.subrange(0, i as int));
            match ri {
                Ok(o) => {
                    out.push(o);
                    assert(out@.drop_last() == outs);
                    assert(self.inner.runs(with_current(before, all[i as int]), *ctx, Ok(out@.last())));
                    assert(all.subrange(0, i + 1).last() == all[i as int]);
                    assert(runs_each(self.inner, pre, before, all.subrange(0, i + 1).drop_last(), out@.drop_last()));
                    assert(runs_each(self.inner, pre, *ctx, all.subrange(0, i + 1), out@));
                    assert(items@ =~= all.subrange(i + 1, all.len() as int));
                },
                Err(e) => {
                    assert(self.inner.runs(with_current(before, all[i as int]), *ctx, Err(e)));
                    assert(runs_each(self.inner, pre, before, all.subrange(0, i as int), outs));
                    assert(exists|k: int, mid: FileCtx<S>, outs: Seq<R::Output>|
                        0 <= k < all.len() && #[trigger] runs_each(
                            self.inner,
                            pre,
                            mid,
                            all.subrange(0, k),
                            outs,
                        ) && self.inner.runs(with_current(mid, all[k]), *ctx, Err(e)));
                    return Err(e);
                },
            }
            i = i + 1;
        }
        assert(all.subrange(0, i as int) =~= all);
        Ok(out)
    }
}

/// A successful `JumpAnd` runs `second` from exactly the offset that `pos` gave on the context
/// that `first` left, so the final position is that offset plus what `second` consumed; where
/// `first` left the source does not matter, only what it memorized.
pub proof fn lemma_jump_and_position<S, R1: Reader<S>, R2: Reader<S>, A: Action<S, Output = usize>>(
    j: JumpAnd<R1, R2, A>,
    pre: FileCtx<S>,
    post: FileCtx<S>,
    r: Result<R2::Output, ParseError>,
)
    requires
        j.runs(pre, post, r),
        r is Ok,
    ensures
        exists|mid: FileCtx<S>, off: usize|
            #![trigger j.pos.gives(mid, Ok(off))]
            j.pos.gives(mid, Ok(off)) && jumped(mid, off).file.pos() == off && j.second.runs(
                jumped(mid, off),
                post,
                r,
            ) && forall|p: usize| #[trigger]
                jumped(FileCtx { file: mid.file.at(p), store: mid.store }, off) == jumped(mid, off),
{
    let (mid, r1) = choose|mid: FileCtx<S>, r1: Result<R1::Output, ParseError>| #[trigger]
        j.first.runs(pre, mid, r1) && match r1 {
            Err(e) => post == mid && r == Err::<R2::Output, _>(e),
            Ok(_) => exists|p: Result<usize, ParseError>| #[trigger]
                j.pos.gives(mid, p) && match p {
                    Err(e) => post == mid && r == Err::<R2::Output, _>(e),
                    Ok(off) => j.second.runs(jumped(mid, off), post, r),
                },
        };
    let p = choose|p: Result<usize, ParseError>| #[trigger]
        j.pos.gives(mid, p) && match p {
            Err(e) => post == mid && r == Err::<R2::Output, _>(e),
            Ok(off) => j.second.runs(jumped(mid, off), post, r),
        };
    let off = p->Ok_0;
    mid.file.lemma_at(off);
    assert forall|q: usize| #[trigger]
        jumped(FileCtx { file: mid.file.at(q), store: mid.store }, off) == jumped(mid, off) by {
        mid.file.lemma_at_at(q, off);
    }
}

/// A successful `Repeated::exactly` gives exactly as many outputs as its count action gave,
/// in the order of the runs of the inner reader; with a count of zero the inner reader never
/// runs and the context is left as it was.
pub proof fn lemma_exactly_outputs<S, R: Reader<S>, A: Action<S, Output = usize>>(
    rep: Repeated<R, RepeatExact<A>>,
    pre: FileCtx<S>,
    post: FileCtx<S>,
    v: Vec<R::Output>,
)
    requires
        rep.runs(pre, post, Ok(v)),
    ensures
        exists|n: usize|
            #![trigger rep.method.0.gives(pre, Ok(n))]
            rep.method.0.gives(pre, Ok(n)) && v@.len() == n && runs_n(rep.inner, pre, post, v@) && (
            n == 0 ==> post == pre),
{
    let rn = choose|rn: Result<usize, ParseError>| #[trigger]
        rep.method.0.gives(pre, rn) && match rn {
            Err(e) => post == pre && Ok::<Vec<R::Output>, ParseError>(v) == Err::<
                Vec<R::Output>,
                _,
            >(e),
            Ok(n) => v@.len() == n && runs_n(rep.inner, pre, post, v@),
        };
    assert(rep.method.0.gives(pre, Ok(rn->Ok_0)));
}

} // verus!
