//! The leaves of a grammar: fixed-width reads, tag checks, jumps, and actions that look at
//! memorized or current values.
use vstd::prelude::*;
use std::marker::PhantomData;
use crate::consume::{bytes_at, read_ok, read_rel, Consume};
use crate::error::ParseError;
use crate::file::Endian;
use crate::parse::{jumped, spec_memorized, CurrentSlot, FileCtx, Slots};
use crate::{Action, Reader};

verus! {

/// Reads one value of type `I` in the byte order `endian`.
pub struct Consumable<I> {
    pub endian: Endian,
    pub _phantom: PhantomData<I>,
}

impl<S, I: Consume> Reader<S> for Consumable<I> {
    type Output = I;

    open spec fn ready(&self) -> bool {
        true
    }

    open spec fn runs(&self, pre: FileCtx<S>, post: FileCtx<S>, r: Result<I, ParseError>) -> bool {
        &&& post.store == pre.store
        &&& read_rel(pre.file, post.file, I::width(), r)
        &&& r matches Ok(v) ==> v == I::decode(bytes_at(pre.file, I::width()), self.endian)
    }

    fn go(&self, ctx: &mut FileCtx<S>) -> (r: Result<I, ParseError>) {
        ctx.consume(self.endian)
    }
}

/// Reads one byte.
pub fn u8() -> (r: Consumable<u8>)
    ensures
        r.endian == Endian::Big,
{
    Consumable { endian: Endian::Big, _phantom: PhantomData }
}

/// Reads a two-byte unsigned integer in the byte order `endian`.
pub fn u16(endian: Endian) -> (r: Consumable<u16>)
    ensures
        r.endian == endian,
{
    Consumable { endian, _phantom: PhantomData }
}

/// Reads a four-byte unsigned integer in the byte order `endian`.
pub fn u32(endian: Endian) -> (r: Consumable<u32>)
    ensures
        r.endian == endian,
{
    Consumable { endian, _phantom: PhantomData }
}

/// Reads a four-byte two's-complement integer in the byte order `endian`.
pub fn i32(endian: Endian) -> (r: Consumable<i32>)
    ensures
        r.endian == endian,
{
    Consumable { endian, _phantom: PhantomData }
}

/// Checks that the next `N` bytes are `bytes` and moves past them. On a mismatch nothing is
/// consumed, so a sibling grammar can be tried at the same offset.
pub struct Magic<const N: usize> {
    pub bytes: [u8; N],
}

impl<S, const N: usize> Reader<S> for Magic<N> {
    type Output = ();

    open spec fn ready(&self) -> bool {
        true
    }

    open spec fn runs(&self, pre: FileCtx<S>, post: FileCtx<S>, r: Result<(), ParseError>) -> bool {
        if pre.file.pos() + N > pre.file.data().len() {
            post == pre && r == Err::<(), _>(
                ParseError::UnexpectedEof { pos: pre.file.pos(), wanted: N },
            )
        } else if bytes_at(pre.file, N as nat) == self.bytes@ {
            post.store == pre.store && read_ok(pre.file, post.file, N as nat) && r is Ok
        } else {
            post == pre && (r matches Err(ParseError::TagMismatch { expected, actual })
                && expected@ == self.bytes@ && actual@ == bytes_at(pre.file, N as nat))
        }
    }

    fn go(&self, ctx: &mut FileCtx<S>) -> (r: Result<(), ParseError>) {
        let actual = match ctx.file.peek_bytes(N) {
            Some(b) => b,
            None => {
                return Err(ParseError::UnexpectedEof { pos: ctx.mark(), wanted: N });
            },
        };
        let mut expected: Vec<u8> = Vec::new();
        let mut same = true;
        let mut i: usize = 0;
        while i < N
            invariant
                actual@.len() == N,
                i <= N,
                expected@ == self.bytes@.subrange(0, i as int),
                self.bytes@.len() == N,
                same == forall|k: int| 0 <= k < i ==> actual@[k] == self.bytes@[k],
            decreases N - i,
        {
            let b = self.bytes[i];
            expected.push(b);
            if actual[i] != b {
                same = false;
            }
            assert(expected@ =~= self.bytes@.subrange(0, i + 1));
            i = i + 1;
        }
        assert(expected@ =~= self.bytes@);
        if same {
            assert(actual@ =~= self.bytes@);
        } else {
            assert(actual@ != self.bytes@);
        }
        if same {
            match ctx.consume_bytes(N) {
                Ok(_) => Ok(()),
                Err(e) => Err(e),
            }
        } else {
            Err(ParseError::TagMismatch { expected, actual })
        }
    }
}

/// A tag check for `bytes`.
pub fn magic<const N: usize>(bytes: [u8; N]) -> (r: Magic<N>)
    ensures
        r.bytes == bytes,
{
    Magic { bytes }
}

/// Evaluates `pos`, jumps to that absolute offset, and runs `inner`.
pub struct JumpRead<P, A> {
    pub pos: A,
    pub inner: P,
}

impl<S, P: Reader<S>, A: Action<S, Output = usize>> Reader<S> for JumpRead<P, A> {
    type Output = P::Output;

    open spec fn ready(&self) -> bool {
        self.pos.ready() && self.inner.ready()
    }

    open spec fn runs(&self, pre: FileCtx<S>, post: FileCtx<S>, r: Result<P::Output, ParseError>) -> bool {
        exists|p: Result<usize, ParseError>| #[trigger]
            self.pos.gives(pre, p) && match p {
                Err(e) => post == pre && r == Err::<P::Output, _>(e),
                Ok(off) => self.inner.runs(jumped(pre, off), post, r),
            }
    }

    fn go(&self, ctx: &mut FileCtx<S>) -> (r: Result<P::Output, ParseError>) {
        let ghost pre = *ctx;
        let p = self.pos.go(ctx);
        let ghost gp = p;
        assert(self.pos.gives(pre, gp));
        match p {
            Err(e) => Err(e),
            Ok(off) => {
                ctx.jump(off);
                proof {
                    pre.file.lemma_at(off);
                }
                self.inner.go(ctx)
            },
        }
    }
}

/// A jump to the offset that `pos` gives, then `inner`.
pub fn jump_read<A, P>(pos: A, inner: P) -> (r: JumpRead<P, A>)
    ensures
        r.pos == pos,
        r.inner == inner,
{
    JumpRead { pos, inner }
}

/// Gives a copy of the memorized value of type `T`.
pub struct Memorized<T> {
    pub _phantom: PhantomData<T>,
}

impl<S: Slots<T>, T: Clone> Action<S> for Memorized<T> {
    type Output = T;

    open spec fn ready(&self) -> bool {
        true
    }

    open spec fn gives(&self, ctx: FileCtx<S>, r: Result<T, ParseError>) -> bool {
        match spec_memorized::<S, T>(ctx.store) {
            Ok(v) => r is Ok && cloned(v, r->Ok_0),
            Err(e) => r == Err::<T, _>(e),
        }
    }

    fn go(&self, ctx: &FileCtx<S>) -> (r: Result<T, ParseError>) {
        match ctx.get_memorized::<T>() {
            Ok(v) => Ok(v.clone()),
            Err(e) => Err(e),
        }
    }
}

/// The action that reads the memorized value of type `T`.
pub fn memorized<T>() -> (r: Memorized<T>) {
    Memorized { _phantom: PhantomData }
}

/// Gives a copy of the current value of type `T`.
pub struct Current<T> {
    pub _phantom: PhantomData<T>,
}

impl<S: CurrentSlot<T>, T: Clone> Action<S> for Current<T> {
    type Output = T;

    open spec fn ready(&self) -> bool {
        true
    }

    open spec fn gives(&self, ctx: FileCtx<S>, r: Result<T, ParseError>) -> bool {
        match ctx.store.current() {
            Some(v) => r is Ok && cloned(v, r->Ok_0),
            None => r == Err::<T, _>(ParseError::NotCurrent(<S as CurrentSlot<T>>::current_name())),
        }
    }

    fn go(&self, ctx: &FileCtx<S>) -> (r: Result<T, ParseError>) {
        match ctx.get_current::<T>() {
            Ok(v) => Ok(v.clone()),
            Err(e) => Err(e),
        }
    }
}

/// The action that reads the current value of type `T`.
pub fn current<T>() -> (r: Current<T>) {
    Current { _phantom: PhantomData }
}

/// Runs the members of a tuple in order against the same context and gives the tuple of their
/// outputs; the members are all readers or all actions.
pub struct Group<T> {
    pub inner: T,
}

impl<S, A: Reader<S>, B: Reader<S>> Reader<S> for Group<(A, B)> {
    type Output = (A::Output, B::Output);

    open spec fn ready(&self) -> bool {
        self.inner.0.ready() && self.inner.1.ready()
    }

    open spec fn runs(&self, pre: FileCtx<S>, post: FileCtx<S>, r: Result<(A::Output, B::Output), ParseError>) -> bool {
        exists|mid: FileCtx<S>, ra: Result<A::Output, ParseError>| #[trigger]
            self.inner.0.runs(pre, mid, ra) && match ra {
                Err(e) => post == mid && r == Err::<(A::Output, B::Output), _>(e),
                Ok(x) => exists|rb: Result<B::Output, ParseError>| #[trigger]
                    self.inner.1.runs(mid, post, rb) && match rb {
                        Err(e) => r == Err::<(A::Output, B::Output), _>(e),
                        Ok(y) => r == Ok::<_, ParseError>((x, y)),
                    },
            }
    }

    fn go(&self, ctx: &mut FileCtx<S>) -> (r: Result<(A::Output, B::Output), ParseError>) {
        let ghost pre = *ctx;
        let ra = self.inner.0.go(ctx);
        let ghost gra = ra;
        let ghost mid = *ctx;
        assert(self.inner.0.runs(pre, mid, gra));
        let x = match ra {
            Err(e) => {
                return Err(e);
            },
            Ok(x) => x,
        };
        let rb = self.inner.1.go(ctx);
        let ghost grb = rb;
        assert(self.inner.1.runs(mid, *ctx, grb));
        match rb {
            Err(e) => Err(e),
            Ok(y) => Ok((x, y)),
        }
    }
}

impl<S, A: Reader<S>, B: Reader<S>, C: Reader<S>> Reader<S> for Group<(A, B, C)> {
    type Output = (A::Output, B::Output, C::Output);

    open spec fn ready(&self) -> bool {
        self.inner.0.ready() && self.inner.1.ready() && self.inner.2.ready()
    }

    open spec fn runs(
        &self,
        pre: FileCtx<S>,
        post: FileCtx<S>,
        r: Result<(A::Output, B::Output, C::Output), ParseError>,
    ) -> bool {
        exists|mid: FileCtx<S>, ra: Result<A::Output, ParseError>| #[trigger]
            self.inner.0.runs(pre, mid, ra) && match ra {
                Err(e) => post == mid && r == Err::<(A::Output, B::Output, C::Output), _>(e),
                Ok(x) => exists|mid2: FileCtx<S>, rb: Result<B::Output, ParseError>| #[trigger]
                    self.inner.1.runs(mid, mid2, rb) && match rb {
                        Err(e) => post == mid2 && r == Err::<(A::Output, B::Output, C::Output), _>(
                            e,
                        ),
                        Ok(y) => exists|rc: Result<C::Output, ParseError>| #[trigger]
                            self.inner.2.runs(mid2, post, rc) && match rc {
                                Err(e) => r == Err::<(A::Output, B::Output, C::Output), _>(e),
                                Ok(z) => r == Ok::<_, ParseError>((x, y, z)),
                            },
                    },
            }
    }

    fn go(&self, ctx: &mut FileCtx<S>) -> (r: Result<(A::Output, B::Output, C::Output), ParseError>) {
        let ghost pre = *ctx;
        let ra = self.inner.0.go(ctx);
        let ghost gra = ra;
        let ghost mid = *ctx;
        assert(self.inner.0.runs(pre, mid, gra));
        let x = match ra {
            Err(e) => {
                return Err(e);
            },
            Ok(x) => x,
        };
        let rb = self.inner.1.go(ctx);
        let ghost grb = rb;
        let ghost mid2 = *ctx;
        assert(self.inner.1.runs(mid, mid2, grb));
        let y = match rb {
            Err(e) => {
                return Err(e);
            },
            Ok(y) => y,
        };
        let rc = self.inner.2.go(ctx);
        let ghost grc = rc;
        assert(self.inner.2.runs(mid2, *ctx, grc));
        match rc {
            Err(e) => Err(e),
            Ok(z) => Ok((x, y, z)),
        }
    }
}

impl<S, A: Action<S>, B: Action<S>> Action<S> for Group<(A, B)> {
    type Output = (A::Output, B::Output);

    open spec fn ready(&self) -> bool {
        self.inner.0.ready() && self.inner.1.ready()
    }

    open spec fn gives(&self, ctx: FileCtx<S>, r: Result<(A::Output, B::Output), ParseError>) -> bool {
        exists|ra: Result<A::Output, ParseError>| #[trigger]
            self.inner.0.gives(ctx, ra) && match ra {
                Err(e) => r == Err::<(A::Output, B::Output), _>(e),
                Ok(x) => exists|rb: Result<B::Output, ParseError>| #[trigger]
                    self.inner.1.gives(ctx, rb) && match rb {
                        Err(e) => r == Err::<(A::Output, B::Output), _>(e),
                        Ok(y) => r == Ok::<_, ParseError>((x, y)),
                    },
            }
    }

    fn go(&self, ctx: &FileCtx<S>) -> (r: Result<(A::Output, B::Output), ParseError>) {
        let ra = self.inner.0.go(ctx);
        let ghost gra = ra;
        assert(self.inner.0.gives(*ctx, gra));
        let x = match ra {
            Err(e) => {
                return Err(e);
            },
            Ok(x) => x,
        };
        let rb = self.inner.1.go(ctx);
        let ghost grb = rb;
        assert(self.inner.1.gives(*ctx, grb));
        match rb {
            Err(e) => Err(e),
            Ok(y) => Ok((x, y)),
        }
    }
}

impl<S, A: Action<S>, B: Action<S>, C: Action<S>> Action<S> for Group<(A, B, C)> {
    type Output = (A::Output, B::Output, C::Output);

    open spec fn ready(&self) -> bool {
        self.inner.0.ready() && self.inner.1.ready() && self.inner.2.ready()
    }

    open spec fn gives(&self, ctx: FileCtx<S>, r: Result<(A::Output, B::Output, C::Output), ParseError>) -> bool {
        exists|ra: Result<A::Output, ParseError>| #[trigger]
            self.inner.0.gives(ctx, ra) && match ra {
                Err(e) => r == Err::<(A::Output, B::Output, C::Output), _>(e),
                Ok(x) => exists|rb: Result<B::Output, ParseError>| #[trigger]
                    self.inner.1.gives(ctx, rb) && match rb {
                        Err(e) => r == Err::<(A::Output, B::Output, C::Output), _>(e),
                        Ok(y) => exists|rc: Result<C::Output, ParseError>| #[trigger]
                            self.inner.2.gives(ctx, rc) && match rc {
                                Err(e) => r == Err::<(A::Output, B::Output, C::Output), _>(e),
                                Ok(z) => r == Ok::<_, ParseError>((x, y, z)),
                            },
                    },
            }
    }

    fn go(&self, ctx: &FileCtx<S>) -> (r: Result<(A::Output, B::Output, C::Output), ParseError>) {
        let ra = self.inner.0.go(ctx);
        let ghost gra = ra;
        assert(self.inner.0.gives(*ctx, gra));
        let x = match ra {
            Err(e) => {
                return Err(e);
            },
            Ok(x) => x,
        };
        let rb = self.inner.1.go(ctx);
        let ghost grb = rb;
        assert(self.inner.1.gives(*ctx, grb));
        let y = match rb {
            Err(e) => {
                return Err(e);
            },
            Ok(y) => y,
        };
        let rc = self.inner.2.go(ctx);
        let ghost grc = rc;
        assert(self.inner.2.gives(*ctx, grc));
        match rc {
            Err(e) => Err(e),
            Ok(z) => Ok((x, y, z)),
        }
    }
}

impl<S, A0: Reader<S>, A1: Reader<S>, A2: Reader<S>, A3: Reader<S>> Reader<S> for Group<(A0, A1, A2, A3)> {
    type Output = (A0::Output, A1::Output, A2::Output, A3::Output);

    open spec fn ready(&self) -> bool {
        self.inner.0.ready() && self.inner.1.ready() && self.inner.2.ready() && self.inner.3.ready()
    }

    open spec fn runs(&self, pre: FileCtx<S>, post: FileCtx<S>, r: Result<(A0::Output, A1::Output, A2::Output, A3::Output), ParseError>) -> bool {
        exists|m0: FileCtx<S>, r0: Result<A0::Output, ParseError>| #[trigger] self.inner.0.runs(pre, m0, r0) && match r0 {
            Err(e) => post == m0 && r == Err::<(A0::Output, A1::Output, A2::Output, A3::Output), _>(e),
            Ok(v0) => exists|m1: FileCtx<S>, r1: Result<A1::Output, ParseError>| #[trigger] self.inner.1.runs(m0, m1, r1) && match r1 {
                Err(e) => post == m1 && r == Err::<(A0::Output, A1::Output, A2::Output, A3::Output), _>(e),
                Ok(v1) => exists|m2: FileCtx<S>, r2: Result<A2::Output, ParseError>| #[trigger] self.inner.2.runs(m1, m2, r2) && match r2 {
                    Err(e) => post == m2 && r == Err::<(A0::Output, A1::Output, A2::Output, A3::Output), _>(e),
                    Ok(v2) => exists|r3: Result<A3::Output, ParseError>| #[trigger] self.inner.3.runs(m2, post, r3) && match r3 {
                        Err(e) => r == Err::<(A0::Output, A1::Output, A2::Output, A3::Output), _>(e),
                        Ok(v3) => r == Ok::<_, ParseError>((v0, v1, v2, v3)),
                    },
                },
            },
        }
    }

    fn go(&self, ctx: &mut FileCtx<S>) -> (r: Result<(A0::Output, A1::Output, A2::Output, A3::Output), ParseError>) {
        let ghost s0 = *ctx;
        let g0 = self.inner.0.go(ctx);
        let ghost h0 = g0;
        let ghost s1 = *ctx;
        assert(self.inner.0.runs(s0, s1, h0));
        let v0 = match g0 { Err(e) => { return Err(e); }, Ok(v) => v, };
        let g1 = self.inner.1.go(ctx);
        let ghost h1 = g1;
        let ghost s2 = *ctx;
        assert(self.inner.1.runs(s1, s2, h1));
        let v1 = match g1 { Err(e) => { return Err(e); }, Ok(v) => v, };
        let g2 = self.inner.2.go(ctx);
        let ghost h2 = g2;
        let ghost s3 = *ctx;
        assert(self.inner.2.runs(s2, s3, h2));
        let v2 = match g2 { Err(e) => { return Err(e); }, Ok(v) => v, };
        let g3 = self.inner.3.go(ctx);
        let ghost h3 = g3;
        let ghost s4 = *ctx;
        assert(self.inner.3.runs(s3, s4, h3));
        let v3 = match g3 { Err(e) => { return Err(e); }, Ok(v) => v, };
        Ok((v0, v1, v2, v3))
    }
}

impl<S, A0: Action<S>, A1: Action<S>, A2: Action<S>, A3: Action<S>> Action<S> for Group<(A0, A1, A2, A3)> {
    type Output = (A0::Output, A1::Output, A2::Output, A3::Output);

    open spec fn ready(&self) -> bool {
        self.inner.0.ready() && self.inner.1.ready() && self.inner.2.ready() && self.inner.3.ready()
    }

    open spec fn gives(&self, ctx: FileCtx<S>, r: Result<(A0::Output, A1::Output, A2::Output, A3::Output), ParseError>) -> bool {
        exists|r0: Result<A0::Output, ParseError>| #[trigger] self.inner.0.gives(ctx, r0) && match r0 {
            Err(e) => r == Err::<(A0::Output, A1::Output, A2::Output, A3::Output), _>(e),
            Ok(v0) => exists|r1: Result<A1::Output, ParseError>| #[trigger] self.inner.1.gives(ctx, r1) && match r1 {
                Err(e) => r == Err::<(A0::Output, A1::Output, A2::Output, A3::Output), _>(e),
                Ok(v1) => exists|r2: Result<A2::Output, ParseError>| #[trigger] self.inner.2.gives(ctx, r2) && match r2 {
                    Err(e) => r == Err::<(A0::Output, A1::Output, A2::Output, A3::Output), _>(e),
                    Ok(v2) => exists|r3: Result<A3::Output, ParseError>| #[trigger] self.inner.3.gives(ctx, r3) && match r3 {
                        Err(e) => r == Err::<(A0::Output, A1::Output, A2::Output, A3::Output), _>(e),
                        Ok(v3) => r == Ok::<_, ParseError>((v0, v1, v2, v3)),
                    },
                },
            },
        }
    }

    fn go(&self, ctx: &FileCtx<S>) -> (r: Result<(A0::Output, A1::Output, A2::Output, A3::Output), ParseError>) {
        let g0 = self.inner.0.go(ctx);
        let ghost h0 = g0;
        assert(self.inner.0.gives(*ctx, h0));
        let v0 = match g0 { Err(e) => { return Err(e); }, Ok(v) => v, };
        let g1 = self.inner.1.go(ctx);
        let ghost h1 = g1;
        assert(self.inner.1.gives(*ctx, h1));
        let v1 = match g1 { Err(e) => { return Err(e); }, Ok(v) => v, };
        let g2 = self.inner.2.go(ctx);
        let ghost h2 = g2;
        assert(self.inner.2.gives(*ctx, h2));
        let v2 = match g2 { Err(e) => { return Err(e); }, Ok(v) => v, };
        let g3 = self.inner.3.go(ctx);
        let ghost h3 = g3;
        assert(self.inner.3.gives(*ctx, h3));
        let v3 = match g3 { Err(e) => { return Err(e); }, Ok(v) => v, };
        Ok((v0, v1, v2, v3))
    }
}

impl<S, A0: Reader<S>, A1: Reader<S>, A2: Reader<S>, A3: Reader<S>, A4: Reader<S>> Reader<S> for Group<(A0, A1, A2, A3, A4)> {
    type Output = (A0::Output, A1::Output, A2::Output, A3::Output, A4::Output);

    open spec fn ready(&self) -> bool {
        self.inner.0.ready() && self.inner.1.ready() && self.inner.2.ready() && self.inner.3.ready() && self.inner.4.ready()
    }

    open spec fn runs(&self, pre: FileCtx<S>, post: FileCtx<S>, r: Result<(A0::Output, A1::Output, A2::Output, A3::Output, A4::Output), ParseError>) -> bool {
        exists|m0: FileCtx<S>, r0: Result<A0::Output, ParseError>| #[trigger] self.inner.0.runs(pre, m0, r0) && match r0 {
            Err(e) => post == m0 && r == Err::<(A0::Output, A1::Output, A2::Output, A3::Output, A4::Output), _>(e),
            Ok(v0) => exists|m1: FileCtx<S>, r1: Result<A1::Output, ParseError>| #[trigger] self.inner.1.runs(m0, m1, r1) && match r1 {
                Err(e) => post == m1 && r == Err::<(A0::Output, A1::Output, A2::Output, A3::Output, A4::Output), _>(e),
                Ok(v1) => exists|m2: FileCtx<S>, r2: Result<A2::Output, ParseError>| #[trigger] self.inner.2.runs(m1, m2, r2) && match r2 {
                    Err(e) => post == m2 && r == Err::<(A0::Output, A1::Output, A2::Output, A3::Output, A4::Output), _>(e),
                    Ok(v2) => exists|m3: FileCtx<S>, r3: Result<A3::Output, ParseError>| #[trigger] self.inner.3.runs(m2, m3, r3) && match r3 {
                        Err(e) => post == m3 && r == Err::<(A0::Output, A1::Output, A2::Output, A3::Output, A4::Output), _>(e),
                        Ok(v3) => exists|r4: Result<A4::Output, ParseError>| #[trigger] self.inner.4.runs(m3, post, r4) && match r4 {
                            Err(e) => r == Err::<(A0::Output, A1::Output, A2::Output, A3::Output, A4::Output), _>(e),
                            Ok(v4) => r == Ok::<_, ParseError>((v0, v1, v2, v3, v4)),
                        },
                    },
                },
            },
        }
    }

    fn go(&self, ctx: &mut FileCtx<S>) -> (r: Result<(A0::Output, A1::Output, A2::Output, A3::Output, A4::Output), ParseError>) {
        let ghost s0 = *ctx;
        let g0 = self.inner.0.go(ctx);
        let ghost h0 = g0;
        let ghost s1 = *ctx;
        assert(self.inner.0.runs(s0, s1, h0));
        let v0 = match g0 { Err(e) => { return Err(e); }, Ok(v) => v, };
        let g1 = self.inner.1.go(ctx);
        let ghost h1 = g1;
        let ghost s2 = *ctx;
        assert(self.inner.1.runs(s1, s2, h1));
        let v1 = match g1 { Err(e) => { return Err(e); }, Ok(v) => v, };
        let g2 = self.inner.2.go(ctx);
        let ghost h2 = g2;
        let ghost s3 = *ctx;
        assert(self.inner.2.runs(s2, s3, h2));
        let v2 = match g2 { Err(e) => { return Err(e); }, Ok(v) => v, };
        let g3 = self.inner.3.go(ctx);
        let ghost h3 = g3;
        let ghost s4 = *ctx;
        assert(self.inner.3.runs(s3, s4, h3));
        let v3 = match g3 { Err(e) => { return Err(e); }, Ok(v) => v, };
        let g4 = self.inner.4.go(ctx);
        let ghost h4 = g4;
        let ghost s5 = *ctx;
        assert(self.inner.4.runs(s4, s5, h4));
        let v4 = match g4 { Err(e) => { return Err(e); }, Ok(v) => v, };
        Ok((v0, v1, v2, v3, v4))
    }
}

impl<S, A0: Action<S>, A1: Action<S>, A2: Action<S>, A3: Action<S>, A4: Action<S>> Action<S> for Group<(A0, A1, A2, A3, A4)> {
    type Output = (A0::Output, A1::Output, A2::Output, A3::Output, A4::Output);

    open spec fn ready(&self) -> bool {
        self.inner.0.ready() && self.inner.1.ready() && self.inner.2.ready() && self.inner.3.ready() && self.inner.4.ready()
    }

    open spec fn gives(&self, ctx: FileCtx<S>, r: Result<(A0::Output, A1::Output, A2::Output, A3::Output, A4::Output), ParseError>) -> bool {
        exists|r0: Result<A0::Output, ParseError>| #[trigger] self.inner.0.gives(ctx, r0) && match r0 {
            Err(e) => r == Err::<(A0::Output, A1::Output, A2::Output, A3::Output, A4::Output), _>(e),
            Ok(v0) => exists|r1: Result<A1::Output, ParseError>| #[trigger] self.inner.1.gives(ctx, r1) && match r1 {
                Err(e) => r == Err::<(A0::Output, A1::Output, A2::Output, A3::Output, A4::Output), _>(e),
                Ok(v1) => exists|r2: Result<A2::Output, ParseError>| #[trigger] self.inner.2.gives(ctx, r2) && match r2 {
                    Err(e) => r == Err::<(A0::Output, A1::Output, A2::Output, A3::Output, A4::Output), _>(e),
                    Ok(v2) => exists|r3: Result<A3::Output, ParseError>| #[trigger] self.inner.3.gives(ctx, r3) && match r3 {
                        Err(e) => r == Err::<(A0::Output, A1::Output, A2::Output, A3::Output, A4::Output), _>(e),
                        Ok(v3) => exists|r4: Result<A4::Output, ParseError>| #[trigger] self.inner.4.gives(ctx, r4) && match r4 {
                            Err(e) => r == Err::<(A0::Output, A1::Output, A2::Output, A3::Output, A4::Output), _>(e),
                            Ok(v4) => r == Ok::<_, ParseError>((v0, v1, v2, v3, v4)),
                        },
                    },
                },
            },
        }
    }

    fn go(&self, ctx: &FileCtx<S>) -> (r: Result<(A0::Output, A1::Output, A2::Output, A3::Output, A4::Output), ParseError>) {
        let g0 = self.inner.0.go(ctx);
        let ghost h0 = g0;
        assert(self.inner.0.gives(*ctx, h0));
        let v0 = match g0 { Err(e) => { return Err(e); }, Ok(v) => v, };
        let g1 = self.inner.1.go(ctx);
        let ghost h1 = g1;
        assert(self.inner.1.gives(*ctx, h1));
        let v1 = match g1 { Err(e) => { return Err(e); }, Ok(v) => v, };
        let g2 = self.inner.2.go(ctx);
        let ghost h2 = g2;
        assert(self.inner.2.gives(*ctx, h2));
        let v2 = match g2 { Err(e) => { return Err(e); }, Ok(v) => v, };
        let g3 = self.inner.3.go(ctx);
        let ghost h3 = g3;
        assert(self.inner.3.gives(*ctx, h3));
        let v3 = match g3 { Err(e) => { return Err(e); }, Ok(v) => v, };
        let g4 = self.inner.4.go(ctx);
        let ghost h4 = g4;
        assert(self.inner.4.gives(*ctx, h4));
        let v4 = match g4 { Err(e) => { return Err(e); }, Ok(v) => v, };
        Ok((v0, v1, v2, v3, v4))
    }
}

impl<S, A0: Reader<S>, A1: Reader<S>, A2: Reader<S>, A3: Reader<S>, A4: Reader<S>, A5: Reader<S>> Reader<S> for Group<(A0, A1, A2, A3, A4, A5)> {
    type Output = (A0::Output, A1::Output, A2::Output, A3::Output, A4::Output, A5::Output);

    open spec fn ready(&self) -> bool {
        self.inner.0.ready() && self.inner.1.ready() && self.inner.2.ready() && self.inner.3.ready() && self.inner.4.ready() && self.inner.5.ready()
    }

    open spec fn runs(&self, pre: FileCtx<S>, post: FileCtx<S>, r: Result<(A0::Output, A1::Output, A2::Output, A3::Output, A4::Output, A5::Output), ParseError>) -> bool {
        exists|m0: FileCtx<S>, r0: Result<A0::Output, ParseError>| #[trigger] self.inner.0.runs(pre, m0, r0) && match r0 {
            Err(e) => post == m0 && r == Err::<(A0::Output, A1::Output, A2::Output, A3::Output, A4::Output, A5::Output), _>(e),
            Ok(v0) => exists|m1: FileCtx<S>, r1: Result<A1::Output, ParseError>| #[trigger] self.inner.1.runs(m0, m1, r1) && match r1 {
                Err(e) => post == m1 && r == Err::<(A0::Output, A1::Output, A2::Output, A3::Output, A4::Output, A5::Output), _>(e),
                Ok(v1) => exists|m2: FileCtx<S>, r2: Result<A2::Output, ParseError>| #[trigger] self.inner.2.runs(m1, m2, r2) && match r2 {
                    Err(e) => post == m2 && r == Err::<(A0::Output, A1::Output, A2::Output, A3::Output, A4::Output, A5::Output), _>(e),
                    Ok(v2) => exists|m3: FileCtx<S>, r3: Result<A3::Output, ParseError>| #[trigger] self.inner.3.runs(m2, m3, r3) && match r3 {
                        Err(e) => post == m3 && r == Err::<(A0::Output, A1::Output, A2::Output, A3::Output, A4::Output, A5::Output), _>(e),
                        Ok(v3) => exists|m4: FileCtx<S>, r4: Result<A4::Output, ParseError>| #[trigger] self.inner.4.runs(m3, m4, r4) && match r4 {
                            Err(e) => post == m4 && r == Err::<(A0::Output, A1::Output, A2::Output, A3::Output, A4::Output, A5::Output), _>(e),
                            Ok(v4) => exists|r5: Result<A5::Output, ParseError>| #[trigger] self.inner.5.runs(m4, post, r5) && match r5 {
                                Err(e) => r == Err::<(A0::Output, A1::Output, A2::Output, A3::Output, A4::Output, A5::Output), _>(e),
                                Ok(v5) => r == Ok::<_, ParseError>((v0, v1, v2, v3, v4, v5)),
                            },
                        },
                    },
                },
            },
        }
    }

    fn go(&self, ctx: &mut FileCtx<S>) -> (r: Result<(A0::Output, A1::Output, A2::Output, A3::Output, A4::Output, A5::Output), ParseError>) {
        let ghost s0 = *ctx;
        let g0 = self.inner.0.go(ctx);
        let ghost h0 = g0;
        let ghost s1 = *ctx;
        assert(self.inner.0.runs(s0, s1, h0));
        let v0 = match g0 { Err(e) => { return Err(e); }, Ok(v) => v, };
        let g1 = self.inner.1.go(ctx);
        let ghost h1 = g1;
        let ghost s2 = *ctx;
        assert(self.inner.1.runs(s1, s2, h1));
        let v1 = match g1 { Err(e) => { return Err(e); }, Ok(v) => v, };
        let g2 = self.inner.2.go(ctx);
        let ghost h2 = g2;
        let ghost s3 = *ctx;
        assert(self.inner.2.runs(s2, s3, h2));
        let v2 = match g2 { Err(e) => { return Err(e); }, Ok(v) => v, };
        let g3 = self.inner.3.go(ctx);
        let ghost h3 = g3;
        let ghost s4 = *ctx;
        assert(self.inner.3.runs(s3, s4, h3));
        let v3 = match g3 { Err(e) => { return Err(e); }, Ok(v) => v, };
        let g4 = self.inner.4.go(ctx);
        let ghost h4 = g4;
        let ghost s5 = *ctx;
        assert(self.inner.4.runs(s4, s5, h4));
        let v4 = match g4 { Err(e) => { return Err(e); }, Ok(v) => v, };
        let g5 = self.inner.5.go(ctx);
        let ghost h5 = g5;
        let ghost s6 = *ctx;
        assert(self.inner.5.runs(s5, s6, h5));
        let v5 = match g5 { Err(e) => { return Err(e); }, Ok(v) => v, };
        Ok((v0, v1, v2, v3, v4, v5))
    }
}

impl<S, A0: Action<S>, A1: Action<S>, A2: Action<S>, A3: Action<S>, A4: Action<S>, A5: Action<S>> Action<S> for Group<(A0, A1, A2, A3, A4, A5)> {
    type Output = (A0::Output, A1::Output, A2::Output, A3::Output, A4::Output, A5::Output);

    open spec fn ready(&self) -> bool {
        self.inner.0.ready() && self.inner.1.ready() && self.inner.2.ready() && self.inner.3.ready() && self.inner.4.ready() && self.inner.5.ready()
    }

    open spec fn gives(&self, ctx: FileCtx<S>, r: Result<(A0::Output, A1::Output, A2::Output, A3::Output, A4::Output, A5::Output), ParseError>) -> bool {
        exists|r0: Result<A0::Output, ParseError>| #[trigger] self.inner.0.gives(ctx, r0) && match r0 {
            Err(e) => r == Err::<(A0::Output, A1::Output, A2::Output, A3::Output, A4::Output, A5::Output), _>(e),
            Ok(v0) => exists|r1: Result<A1::Output, ParseError>| #[trigger] self.inner.1.gives(ctx, r1) && match r1 {
                Err(e) => r == Err::<(A0::Output, A1::Output, A2::Output, A3::Output, A4::Output, A5::Output), _>(e),
                Ok(v1) => exists|r2: Result<A2::Output, ParseError>| #[trigger] self.inner.2.gives(ctx, r2) && match r2 {
                    Err(e) => r == Err::<(A0::Output, A1::Output, A2::Output, A3::Output, A4::Output, A5::Output), _>(e),
                    Ok(v2) => exists|r3: Result<A3::Output, ParseError>| #[trigger] self.inner.3.gives(ctx, r3) && match r3 {
                        Err(e) => r == Err::<(A0::Output, A1::Output, A2::Output, A3::Output, A4::Output, A5::Output), _>(e),
                        Ok(v3) => exists|r4: Result<A4::Output, ParseError>| #[trigger] self.inner.4.gives(ctx, r4) && match r4 {
                            Err(e) => r == Err::<(A0::Output, A1::Output, A2::Output, A3::Output, A4::Output, A5::Output), _>(e),
                            Ok(v4) => exists|r5: Result<A5::Output, ParseError>| #[trigger] self.inner.5.gives(ctx, r5) && match r5 {
                                Err(e) => r == Err::<(A0::Output, A1::Output, A2::Output, A3::Output, A4::Output, A5::Output), _>(e),
                                Ok(v5) => r == Ok::<_, ParseError>((v0, v1, v2, v3, v4, v5)),
                            },
                        },
                    },
                },
            },
        }
    }

    fn go(&self, ctx: &FileCtx<S>) -> (r: Result<(A0::Output, A1::Output, A2::Output, A3::Output, A4::Output, A5::Output), ParseError>) {
        let g0 = self.inner.0.go(ctx);
        let ghost h0 = g0;
        assert(self.inner.0.gives(*ctx, h0));
        let v0 = match g0 { Err(e) => { return Err(e); }, Ok(v) => v, };
        let g1 = self.inner.1.go(ctx);
        let ghost h1 = g1;
        assert(self.inner.1.gives(*ctx, h1));
        let v1 = match g1 { Err(e) => { return Err(e); }, Ok(v) => v, };
        let g2 = self.inner.2.go(ctx);
        let ghost h2 = g2;
        assert(self.inner.2.gives(*ctx, h2));
        let v2 = match g2 { Err(e) => { return Err(e); }, Ok(v) => v, };
        let g3 = self.inner.3.go(ctx);
        let ghost h3 = g3;
        assert(self.inner.3.gives(*ctx, h3));
        let v3 = match g3 { Err(e) => { return Err(e); }, Ok(v) => v, };
        let g4 = self.inner.4.go(ctx);
        let ghost h4 = g4;
        assert(self.inner.4.gives(*ctx, h4));
        let v4 = match g4 { Err(e) => { return Err(e); }, Ok(v) => v, };
        let g5 = self.inner.5.go(ctx);
        let ghost h5 = g5;
        assert(self.inner.5.gives(*ctx, h5));
        let v5 = match g5 { Err(e) => { return Err(e); }, Ok(v) => v, };
        Ok((v0, v1, v2, v3, v4, v5))
    }
}

impl<S, A0: Reader<S>, A1: Reader<S>, A2: Reader<S>, A3: Reader<S>, A4: Reader<S>, A5: Reader<S>, A6: Reader<S>> Reader<S> for Group<(A0, A1, A2, A3, A4, A5, A6)> {
    type Output = (A0::Output, A1::Output, A2::Output, A3::Output, A4::Output, A5::Output, A6::Output);

    open spec fn ready(&self) -> bool {
        self.inner.0.ready() && self.inner.1.ready() && self.inner.2.ready() && self.inner.3.ready() && self.inner.4.ready() && self.inner.5.ready() && self.inner.6.ready()
    }

    open spec fn runs(&self, pre: FileCtx<S>, post: FileCtx<S>, r: Result<(A0::Output, A1::Output, A2::Output, A3::Output, A4::Output, A5::Output, A6::Output), ParseError>) -> bool {
        exists|m0: FileCtx<S>, r0: Result<A0::Output, ParseError>| #[trigger] self.inner.0.runs(pre, m0, r0) && match r0 {
            Err(e) => post == m0 && r == Err::<(A0::Output, A1::Output, A2::Output, A3::Output, A4::Output, A5::Output, A6::Output), _>(e),
            Ok(v0) => exists|m1: FileCtx<S>, r1: Result<A1::Output, ParseError>| #[trigger] self.inner.1.runs(m0, m1, r1) && match r1 {
                Err(e) => post == m1 && r == Err::<(A0::Output, A1::Output, A2::Output, A3::Output, A4::Output, A5::Output, A6::Output), _>(e),
                Ok(v1) => exists|m2: FileCtx<S>, r2: Result<A2::Output, ParseError>| #[trigger] self.inner.2.runs(m1, m2, r2) && match r2 {
                    Err(e) => post == m2 && r == Err::<(A0::Output, A1::Output, A2::Output, A3::Output, A4::Output, A5::Output, A6::Output), _>(e),
                    Ok(v2) => exists|m3: FileCtx<S>, r3: Result<A3::Output, ParseError>| #[trigger] self.inner.3.runs(m2, m3, r3) && match r3 {
                        Err(e) => post == m3 && r == Err::<(A0::Output, A1::Output, A2::Output, A3::Output, A4::Output, A5::Output, A6::Output), _>(e),
                        Ok(v3) => exists|m4: FileCtx<S>, r4: Result<A4::Output, ParseError>| #[trigger] self.inner.4.runs(m3, m4, r4) && match r4 {
                            Err(e) => post == m4 && r == Err::<(A0::Output, A1::Output, A2::Output, A3::Output, A4::Output, A5::Output, A6::Output), _>(e),
                            Ok(v4) => exists|m5: FileCtx<S>, r5: Result<A5::Output, ParseError>| #[trigger] self.inner.5.runs(m4, m5, r5) && match r5 {
                                Err(e) => post == m5 && r == Err::<(A0::Output, A1::Output, A2::Output, A3::Output, A4::Output, A5::Output, A6::Output), _>(e),
                                Ok(v5) => exists|r6: Result<A6::Output, ParseError>| #[trigger] self.inner.6.runs(m5, post, r6) && match r6 {
                                    Err(e) => r == Err::<(A0::Output, A1::Output, A2::Output, A3::Output, A4::Output, A5::Output, A6::Output), _>(e),
                                    Ok(v6) => r == Ok::<_, ParseError>((v0, v1, v2, v3, v4, v5, v6)),
                                },
                            },
                        },
                    },
                },
            },
        }
    }

    fn go(&self, ctx: &mut FileCtx<S>) -> (r: Result<(A0::Output, A1::Output, A2::Output, A3::Output, A4::Output, A5::Output, A6::Output), ParseError>) {
        let ghost s0 = *ctx;
        let g0 = self.inner.0.go(ctx);
        let ghost h0 = g0;
        let ghost s1 = *ctx;
        assert(self.inner.0.runs(s0, s1, h0));
        let v0 = match g0 { Err(e) => { return Err(e); }, Ok(v) => v, };
        let g1 = self.inner.1.go(ctx);
        let ghost h1 = g1;
        let ghost s2 = *ctx;
        assert(self.inner.1.runs(s1, s2, h1));
        let v1 = match g1 { Err(e) => { return Err(e); }, Ok(v) => v, };
        let g2 = self.inner.2.go(ctx);
        let ghost h2 = g2;
        let ghost s3 = *ctx;
        assert(self.inner.2.runs(s2, s3, h2));
        let v2 = match g2 { Err(e) => { return Err(e); }, Ok(v) => v, };
        let g3 = self.inner.3.go(ctx);
        let ghost h3 = g3;
        let ghost s4 = *ctx;
        assert(self.inner.3.runs(s3, s4, h3));
        let v3 = match g3 { Err(e) => { return Err(e); }, Ok(v) => v, };
        let g4 = self.inner.4.go(ctx);
        let ghost h4 = g4;
        let ghost s5 = *ctx;
        assert(self.inner.4.runs(s4, s5, h4));
        let v4 = match g4 { Err(e) => { return Err(e); }, Ok(v) => v, };
        let g5 = self.inner.5.go(ctx);
        let ghost h5 = g5;
        let ghost s6 = *ctx;
        assert(self.inner.5.runs(s5, s6, h5));
        let v5 = match g5 { Err(e) => { return Err(e); }, Ok(v) => v, };
        let g6 = self.inner.6.go(ctx);
        let ghost h6 = g6;
        let ghost s7 = *ctx;
        assert(self.inner.6.runs(s6, s7, h6));
        let v6 = match g6 { Err(e) => { return Err(e); }, Ok(v) => v, };
        Ok((v0, v1, v2, v3, v4, v5, v6))
    }
}

impl<S, A0: Action<S>, A1: Action<S>, A2: Action<S>, A3: Action<S>, A4: Action<S>, A5: Action<S>, A6: Action<S>> Action<S> for Group<(A0, A1, A2, A3, A4, A5, A6)> {
    type Output = (A0::Output, A1::Output, A2::Output, A3::Output, A4::Output, A5::Output, A6::Output);

    open spec fn ready(&self) -> bool {
        self.inner.0.ready() && self.inner.1.ready() && self.inner.2.ready() && self.inner.3.ready() && self.inner.4.ready() && self.inner.5.ready() && self.inner.6.ready()
    }

    open spec fn gives(&self, ctx: FileCtx<S>, r: Result<(A0::Output, A1::Output, A2::Output, A3::Output, A4::Output, A5::Output, A6::Output), ParseError>) -> bool {
        exists|r0: Result<A0::Output, ParseError>| #[trigger] self.inner.0.gives(ctx, r0) && match r0 {
            Err(e) => r == Err::<(A0::Output, A1::Output, A2::Output, A3::Output, A4::Output, A5::Output, A6::Output), _>(e),
            Ok(v0) => exists|r1: Result<A1::Output, ParseError>| #[trigger] self.inner.1.gives(ctx, r1) && match r1 {
                Err(e) => r == Err::<(A0::Output, A1::Output, A2::Output, A3::Output, A4::Output, A5::Output, A6::Output), _>(e),
                Ok(v1) => exists|r2: Result<A2::Output, ParseError>| #[trigger] self.inner.2.gives(ctx, r2) && match r2 {
                    Err(e) => r == Err::<(A0::Output, A1::Output, A2::Output, A3::Output, A4::Output, A5::Output, A6::Output), _>(e),
                    Ok(v2) => exists|r3: Result<A3::Output, ParseError>| #[trigger] self.inner.3.gives(ctx, r3) && match r3 {
                        Err(e) => r == Err::<(A0::Output, A1::Output, A2::Output, A3::Output, A4::Output, A5::Output, A6::Output), _>(e),
                        Ok(v3) => exists|r4: Result<A4::Output, ParseError>| #[trigger] self.inner.4.gives(ctx, r4) && match r4 {
                            Err(e) => r == Err::<(A0::Output, A1::Output, A2::Output, A3::Output, A4::Output, A5::Output, A6::Output), _>(e),
                            Ok(v4) => exists|r5: Result<A5::Output, ParseError>| #[trigger] self.inner.5.gives(ctx, r5) && match r5 {
                                Err(e) => r == Err::<(A0::Output, A1::Output, A2::Output, A3::Output, A4::Output, A5::Output, A6::Output), _>(e),
                                Ok(v5) => exists|r6: Result<A6::Output, ParseError>| #[trigger] self.inner.6.gives(ctx, r6) && match r6 {
                                    Err(e) => r == Err::<(A0::Output, A1::Output, A2::Output, A3::Output, A4::Output, A5::Output, A6::Output), _>(e),
                                    Ok(v6) => r == Ok::<_, ParseError>((v0, v1, v2, v3, v4, v5, v6)),
                                },
                            },
                        },
                    },
                },
            },
        }
    }

    fn go(&self, ctx: &FileCtx<S>) -> (r: Result<(A0::Output, A1::Output, A2::Output, A3::Output, A4::Output, A5::Output, A6::Output), ParseError>) {
        let g0 = self.inner.0.go(ctx);
        let ghost h0 = g0;
        assert(self.inner.0.gives(*ctx, h0));
        let v0 = match g0 { Err(e) => { return Err(e); }, Ok(v) => v, };
        let g1 = self.inner.1.go(ctx);
        let ghost h1 = g1;
        assert(self.inner.1.gives(*ctx, h1));
        let v1 = match g1 { Err(e) => { return Err(e); }, Ok(v) => v, };
        let g2 = self.inner.2.go(ctx);
        let ghost h2 = g2;
        assert(self.inner.2.gives(*ctx, h2));
        let v2 = match g2 { Err(e) => { return Err(e); }, Ok(v) => v, };
        let g3 = self.inner.3.go(ctx);
        let ghost h3 = g3;
        assert(self.inner.3.gives(*ctx, h3));
        let v3 = match g3 { Err(e) => { return Err(e); }, Ok(v) => v, };
        let g4 = self.inner.4.go(ctx);
        let ghost h4 = g4;
        assert(self.inner.4.gives(*ctx, h4));
        let v4 = match g4 { Err(e) => { return Err(e); }, Ok(v) => v, };
        let g5 = self.inner.5.go(ctx);
        let ghost h5 = g5;
        assert(self.inner.5.gives(*ctx, h5));
        let v5 = match g5 { Err(e) => { return Err(e); }, Ok(v) => v, };
        let g6 = self.inner.6.go(ctx);
        let ghost h6 = g6;
        assert(self.inner.6.gives(*ctx, h6));
        let v6 = match g6 { Err(e) => { return Err(e); }, Ok(v) => v, };
        Ok((v0, v1, v2, v3, v4, v5, v6))
    }
}

impl<S, A0: Reader<S>, A1: Reader<S>, A2: Reader<S>, A3: Reader<S>, A4: Reader<S>, A5: Reader<S>, A6: Reader<S>, A7: Reader<S>> Reader<S> for Group<(A0, A1, A2, A3, A4, A5, A6, A7)> {
    type Output = (A0::Output, A1::Output, A2::Output, A3::Output, A4::Output, A5::Output, A6::Output, A7::Output);

    open spec fn ready(&self) -> bool {
        self.inner.0.ready() && self.inner.1.ready() && self.inner.2.ready() && self.inner.3.ready() && self.inner.4.ready() && self.inner.5.ready() && self.inner.6.ready() && self.inner.7.ready()
    }

    open spec fn runs(&self, pre: FileCtx<S>, post: FileCtx<S>, r: Result<(A0::Output, A1::Output, A2::Output, A3::Output, A4::Output, A5::Output, A6::Output, A7::Output), ParseError>) -> bool {
        exists|m0: FileCtx<S>, r0: Result<A0::Output, ParseError>| #[trigger] self.inner.0.runs(pre, m0, r0) && match r0 {
            Err(e) => post == m0 && r == Err::<(A0::Output, A1::Output, A2::Output, A3::Output, A4::Output, A5::Output, A6::Output, A7::Output), _>(e),
            Ok(v0) => exists|m1: FileCtx<S>, r1: Result<A1::Output, ParseError>| #[trigger] self.inner.1.runs(m0, m1, r1) && match r1 {
                Err(e) => post == m1 && r == Err::<(A0::Output, A1::Output, A2::Output, A3::Output, A4::Output, A5::Output, A6::Output, A7::Output), _>(e),
                Ok(v1) => exists|m2: FileCtx<S>, r2: Result<A2::Output, ParseError>| #[trigger] self.inner.2.runs(m1, m2, r2) && match r2 {
                    Err(e) => post == m2 && r == Err::<(A0::Output, A1::Output, A2::Output, A3::Output, A4::Output, A5::Output, A6::Output, A7::Output), _>(e),
                    Ok(v2) => exists|m3: FileCtx<S>, r3: Result<A3::Output, ParseError>| #[trigger] self.inner.3.runs(m2, m3, r3) && match r3 {
                        Err(e) => post == m3 && r == Err::<(A0::Output, A1::Output, A2::Output, A3::Output, A4::Output, A5::Output, A6::Output, A7::Output), _>(e),
                        Ok(v3) => exists|m4: FileCtx<S>, r4: Result<A4::Output, ParseError>| #[trigger] self.inner.4.runs(m3, m4, r4) && match r4 {
                            Err(e) => post == m4 && r == Err::<(A0::Output, A1::Output, A2::Output, A3::Output, A4::Output, A5::Output, A6::Output, A7::Output), _>(e),
                            Ok(v4) => exists|m5: FileCtx<S>, r5: Result<A5::Output, ParseError>| #[trigger] self.inner.5.runs(m4, m5, r5) && match r5 {
                                Err(e) => post == m5 && r == Err::<(A0::Output, A1::Output, A2::Output, A3::Output, A4::Output, A5::Output, A6::Output, A7::Output), _>(e),
                                Ok(v5) => exists|m6: FileCtx<S>, r6: Result<A6::Output, ParseError>| #[trigger] self.inner.6.runs(m5, m6, r6) && match r6 {
                                    Err(e) => post == m6 && r == Err::<(A0::Output, A1::Output, A2::Output, A3::Output, A4::Output, A5::Output, A6::Output, A7::Output), _>(e),
                                    Ok(v6) => exists|r7: Result<A7::Output, ParseError>| #[trigger] self.inner.7.runs(m6, post, r7) && match r7 {
                                        Err(e) => r == Err::<(A0::Output, A1::Output, A2::Output, A3::Output, A4::Output, A5::Output, A6::Output, A7::Output), _>(e),
                                        Ok(v7) => r == Ok::<_, ParseError>((v0, v1, v2, v3, v4, v5, v6, v7)),
                                    },
                                },
                            },
                        },
                    },
                },
            },
        }
    }

    fn go(&self, ctx: &mut FileCtx<S>) -> (r: Result<(A0::Output, A1::Output, A2::Output, A3::Output, A4::Output, A5::Output, A6::Output, A7::Output), ParseError>) {
        let ghost s0 = *ctx;
        let g0 = self.inner.0.go(ctx);
        let ghost h0 = g0;
        let ghost s1 = *ctx;
        assert(self.inner.0.runs(s0, s1, h0));
        let v0 = match g0 { Err(e) => { return Err(e); }, Ok(v) => v, };
        let g1 = self.inner.1.go(ctx);
        let ghost h1 = g1;
        let ghost s2 = *ctx;
        assert(self.inner.1.runs(s1, s2, h1));
        let v1 = match g1 { Err(e) => { return Err(e); }, Ok(v) => v, };
        let g2 = self.inner.2.go(ctx);
        let ghost h2 = g2;
        let ghost s3 = *ctx;
        assert(self.inner.2.runs(s2, s3, h2));
        let v2 = match g2 { Err(e) => { return Err(e); }, Ok(v) => v, };
        let g3 = self.inner.3.go(ctx);
        let ghost h3 = g3;
        let ghost s4 = *ctx;
        assert(self.inner.3.runs(s3, s4, h3));
        let v3 = match g3 { Err(e) => { return Err(e); }, Ok(v) => v, };
        let g4 = self.inner.4.go(ctx);
        let ghost h4 = g4;
        let ghost s5 = *ctx;
        assert(self.inner.4.runs(s4, s5, h4));
        let v4 = match g4 { Err(e) => { return Err(e); }, Ok(v) => v, };
        let g5 = self.inner.5.go(ctx);
        let ghost h5 = g5;
        let ghost s6 = *ctx;
        assert(self.inner.5.runs(s5, s6, h5));
        let v5 = match g5 { Err(e) => { return Err(e); }, Ok(v) => v, };
        let g6 = self.inner.6.go(ctx);
        let ghost h6 = g6;
        let ghost s7 = *ctx;
        assert(self.inner.6.runs(s6, s7, h6));
        let v6 = match g6 { Err(e) => { return Err(e); }, Ok(v) => v, };
        let g7 = self.inner.7.go(ctx);
        let ghost h7 = g7;
        let ghost s8 = *ctx;
        assert(self.inner.7.runs(s7, s8, h7));
        let v7 = match g7 { Err(e) => { return Err(e); }, Ok(v) => v, };
        Ok((v0, v1, v2, v3, v4, v5, v6, v7))
    }
}

impl<S, A0: Action<S>, A1: Action<S>, A2: Action<S>, A3: Action<S>, A4: Action<S>, A5: Action<S>, A6: Action<S>, A7: Action<S>> Action<S> for Group<(A0, A1, A2, A3, A4, A5, A6, A7)> {
    type Output = (A0::Output, A1::Output, A2::Output, A3::Output, A4::Output, A5::Output, A6::Output, A7::Output);

    open spec fn ready(&self) -> bool {
        self.inner.0.ready() && self.inner.1.ready() && self.inner.2.ready() && self.inner.3.ready() && self.inner.4.ready() && self.inner.5.ready() && self.inner.6.ready() && self.inner.7.ready()
    }

    open spec fn gives(&self, ctx: FileCtx<S>, r: Result<(A0::Output, A1::Output, A2::Output, A3::Output, A4::Output, A5::Output, A6::Output, A7::Output), ParseError>) -> bool {
        exists|r0: Result<A0::Output, ParseError>| #[trigger] self.inner.0.gives(ctx, r0) && match r0 {
            Err(e) => r == Err::<(A0::Output, A1::Output, A2::Output, A3::Output, A4::Output, A5::Output, A6::Output, A7::Output), _>(e),
            Ok(v0) => exists|r1: Result<A1::Output, ParseError>| #[trigger] self.inner.1.gives(ctx, r1) && match r1 {
                Err(e) => r == Err::<(A0::Output, A1::Output, A2::Output, A3::Output, A4::Output, A5::Output, A6::Output, A7::Output), _>(e),
                Ok(v1) => exists|r2: Result<A2::Output, ParseError>| #[trigger] self.inner.2.gives(ctx, r2) && match r2 {
                    Err(e) => r == Err::<(A0::Output, A1::Output, A2::Output, A3::Output, A4::Output, A5::Output, A6::Output, A7::Output), _>(e),
                    Ok(v2) => exists|r3: Result<A3::Output, ParseError>| #[trigger] self.inner.3.gives(ctx, r3) && match r3 {
                        Err(e) => r == Err::<(A0::Output, A1::Output, A2::Output, A3::Output, A4::Output, A5::Output, A6::Output, A7::Output), _>(e),
                        Ok(v3) => exists|r4: Result<A4::Output, ParseError>| #[trigger] self.inner.4.gives(ctx, r4) && match r4 {
                            Err(e) => r == Err::<(A0::Output, A1::Output, A2::Output, A3::Output, A4::Output, A5::Output, A6::Output, A7::Output), _>(e),
                            Ok(v4) => exists|r5: Result<A5::Output, ParseError>| #[trigger] self.inner.5.gives(ctx, r5) && match r5 {
                                Err(e) => r == Err::<(A0::Output, A1::Output, A2::Output, A3::Output, A4::Output, A5::Output, A6::Output, A7::Output), _>(e),
                                Ok(v5) => exists|r6: Result<A6::Output, ParseError>| #[trigger] self.inner.6.gives(ctx, r6) && match r6 {
                                    Err(e) => r == Err::<(A0::Output, A1::Output, A2::Output, A3::Output, A4::Output, A5::Output, A6::Output, A7::Output), _>(e),
                                    Ok(v6) => exists|r7: Result<A7::Output, ParseError>| #[trigger] self.inner.7.gives(ctx, r7) && match r7 {
                                        Err(e) => r == Err::<(A0::Output, A1::Output, A2::Output, A3::Output, A4::Output, A5::Output, A6::Output, A7::Output), _>(e),
                                        Ok(v7) => r == Ok::<_, ParseError>((v0, v1, v2, v3, v4, v5, v6, v7)),
                                    },
                                },
                            },
                        },
                    },
                },
            },
        }
    }

    fn go(&self, ctx: &FileCtx<S>) -> (r: Result<(A0::Output, A1::Output, A2::Output, A3::Output, A4::Output, A5::Output, A6::Output, A7::Output), ParseError>) {
        let g0 = self.inner.0.go(ctx);
        let ghost h0 = g0;
        assert(self.inner.0.gives(*ctx, h0));
        let v0 = match g0 { Err(e) => { return Err(e); }, Ok(v) => v, };
        let g1 = self.inner.1.go(ctx);
        let ghost h1 = g1;
        assert(self.inner.1.gives(*ctx, h1));
        let v1 = match g1 { Err(e) => { return Err(e); }, Ok(v) => v, };
        let g2 = self.inner.2.go(ctx);
        let ghost h2 = g2;
        assert(self.inner.2.gives(*ctx, h2));
        let v2 = match g2 { Err(e) => { return Err(e); }, Ok(v) => v, };
        let g3 = self.inner.3.go(ctx);
        let ghost h3 = g3;
        assert(self.inner.3.gives(*ctx, h3));
        let v3 = match g3 { Err(e) => { return Err(e); }, Ok(v) => v, };
        let g4 = self.inner.4.go(ctx);
        let ghost h4 = g4;
        assert(self.inner.4.gives(*ctx, h4));
        let v4 = match g4 { Err(e) => { return Err(e); }, Ok(v) => v, };
        let g5 = self.inner.5.go(ctx);
        let ghost h5 = g5;
        assert(self.inner.5.gives(*ctx, h5));
        let v5 = match g5 { Err(e) => { return Err(e); }, Ok(v) => v, };
        let g6 = self.inner.6.go(ctx);
        let ghost h6 = g6;
        assert(self.inner.6.gives(*ctx, h6));
        let v6 = match g6 { Err(e) => { return Err(e); }, Ok(v) => v, };
        let g7 = self.inner.7.go(ctx);
        let ghost h7 = g7;
        assert(self.inner.7.gives(*ctx, h7));
        let v7 = match g7 { Err(e) => { return Err(e); }, Ok(v) => v, };
        Ok((v0, v1, v2, v3, v4, v5, v6, v7))
    }
}

impl<S, A0: Reader<S>, A1: Reader<S>, A2: Reader<S>, A3: Reader<S>, A4: Reader<S>, A5: Reader<S>, A6: Reader<S>, A7: Reader<S>, A8: Reader<S>> Reader<S> for Group<(A0, A1, A2, A3, A4, A5, A6, A7, A8)> {
    type Output = (A0::Output, A1::Output, A2::Output, A3::Output, A4::Output, A5::Output, A6::Output, A7::Output, A8::Output);

    open spec fn ready(&self) -> bool {
        self.inner.0.ready() && self.inner.1.ready() && self.inner.2.ready() && self.inner.3.ready() && self.inner.4.ready() && self.inner.5.ready() && self.inner.6.ready() && self.inner.7.ready() && self.inner.8.ready()
    }

    open spec fn runs(&self, pre: FileCtx<S>, post: FileCtx<S>, r: Result<(A0::Output, A1::Output, A2::Output, A3::Output, A4::Output, A5::Output, A6::Output, A7::Output, A8::Output), ParseError>) -> bool {
        exists|m0: FileCtx<S>, r0: Result<A0::Output, ParseError>| #[trigger] self.inner.0.runs(pre, m0, r0) && match r0 {
            Err(e) => post == m0 && r == Err::<(A0::Output, A1::Output, A2::Output, A3::Output, A4::Output, A5::Output, A6::Output, A7::Output, A8::Output), _>(e),
            Ok(v0) => exists|m1: FileCtx<S>, r1: Result<A1::Output, ParseError>| #[trigger] self.inner.1.runs(m0, m1, r1) && match r1 {
                Err(e) => post == m1 && r == Err::<(A0::Output, A1::Output, A2::Output, A3::Output, A4::Output, A5::Output, A6::Output, A7::Output, A8::Output), _>(e),
                Ok(v1) => exists|m2: FileCtx<S>, r2: Result<A2::Output, ParseError>| #[trigger] self.inner.2.runs(m1, m2, r2) && match r2 {
                    Err(e) => post == m2 && r == Err::<(A0::Output, A1::Output, A2::Output, A3::Output, A4::Output, A5::Output, A6::Output, A7::Output, A8::Output), _>(e),
                    Ok(v2) => exists|m3: FileCtx<S>, r3: Result<A3::Output, ParseError>| #[trigger] self.inner.3.runs(m2, m3, r3) && match r3 {
                        Err(e) => post == m3 && r == Err::<(A0::Output, A1::Output, A2::Output, A3::Output, A4::Output, A5::Output, A6::Output, A7::Output, A8::Output), _>(e),
                        Ok(v3) => exists|m4: FileCtx<S>, r4: Result<A4::Output, ParseError>| #[trigger] self.inner.4.runs(m3, m4, r4) && match r4 {
                            Err(e) => post == m4 && r == Err::<(A0::Output, A1::Output, A2::Output, A3::Output, A4::Output, A5::Output, A6::Output, A7::Output, A8::Output), _>(e),
                            Ok(v4) => exists|m5: FileCtx<S>, r5: Result<A5::Output, ParseError>| #[trigger] self.inner.5.runs(m4, m5, r5) && match r5 {
                                Err(e) => post == m5 && r == Err::<(A0::Output, A1::Output, A2::Output, A3::Output, A4::Output, A5::Output, A6::Output, A7::Output, A8::Output), _>(e),
                                Ok(v5) => exists|m6: FileCtx<S>, r6: Result<A6::Output, ParseError>| #[trigger] self.inner.6.runs(m5, m6, r6) && match r6 {
                                    Err(e) => post == m6 && r == Err::<(A0::Output, A1::Output, A2::Output, A3::Output, A4::Output, A5::Output, A6::Output, A7::Output, A8::Output), _>(e),
                                    Ok(v6) => exists|m7: FileCtx<S>, r7: Result<A7::Output, ParseError>| #[trigger] self.inner.7.runs(m6, m7, r7) && match r7 {
                                        Err(e) => post == m7 && r == Err::<(A0::Output, A1::Output, A2::Output, A3::Output, A4::Output, A5::Output, A6::Output, A7::Output, A8::Output), _>(e),
                                        Ok(v7) => exists|r8: Result<A8::Output, ParseError>| #[trigger] self.inner.8.runs(m7, post, r8) && match r8 {
                                            Err(e) => r == Err::<(A0::Output, A1::Output, A2::Output, A3::Output, A4::Output, A5::Output, A6::Output, A7::Output, A8::Output), _>(e),
                                            Ok(v8) => r == Ok::<_, ParseError>((v0, v1, v2, v3, v4, v5, v6, v7, v8)),
                                        },
                                    },
                                },
                            },
                        },
                    },
                },
            },
        }
    }

    fn go(&self, ctx: &mut FileCtx<S>) -> (r: Result<(A0::Output, A1::Output, A2::Output, A3::Output, A4::Output, A5::Output, A6::Output, A7::Output, A8::Output), ParseError>) {
        let ghost s0 = *ctx;
        let g0 = self.inner.0.go(ctx);
        let ghost h0 = g0;
        let ghost s1 = *ctx;
        assert(self.inner.0.runs(s0, s1, h0));
        let v0 = match g0 { Err(e) => { return Err(e); }, Ok(v) => v, };
        let g1 = self.inner.1.go(ctx);
        let ghost h1 = g1;
        let ghost s2 = *ctx;
        assert(self.inner.1.runs(s1, s2, h1));
        let v1 = match g1 { Err(e) => { return Err(e); }, Ok(v) => v, };
        let g2 = self.inner.2.go(ctx);
        let ghost h2 = g2;
        let ghost s3 = *ctx;
        assert(self.inner.2.runs(s2, s3, h2));
        let v2 = match g2 { Err(e) => { return Err(e); }, Ok(v) => v, };
        let g3 = self.inner.3.go(ctx);
        let ghost h3 = g3;
        let ghost s4 = *ctx;
        assert(self.inner.3.runs(s3, s4, h3));
        let v3 = match g3 { Err(e) => { return Err(e); }, Ok(v) => v, };
        let g4 = self.inner.4.go(ctx);
        let ghost h4 = g4;
        let ghost s5 = *ctx;
        assert(self.inner.4.runs(s4, s5, h4));
        let v4 = match g4 { Err(e) => { return Err(e); }, Ok(v) => v, };
        let g5 = self.inner.5.go(ctx);
        let ghost h5 = g5;
        let ghost s6 = *ctx;
        assert(self.inner.5.runs(s5, s6, h5));
        let v5 = match g5 { Err(e) => { return Err(e); }, Ok(v) => v, };
        let g6 = self.inner.6.go(ctx);
        let ghost h6 = g6;
        let ghost s7 = *ctx;
        assert(self.inner.6.runs(s6, s7, h6));
        let v6 = match g6 { Err(e) => { return Err(e); }, Ok(v) => v, };
        let g7 = self.inner.7.go(ctx);
        let ghost h7 = g7;
        let ghost s8 = *ctx;
        assert(self.inner.7.runs(s7, s8, h7));
        let v7 = match g7 { Err(e) => { return Err(e); }, Ok(v) => v, };
        let g8 = self.inner.8.go(ctx);
        let ghost h8 = g8;
        let ghost s9 = *ctx;
        assert(self.inner.8.runs(s8, s9, h8));
        let v8 = match g8 { Err(e) => { return Err(e); }, Ok(v) => v, };
        Ok((v0, v1, v2, v3, v4, v5, v6, v7, v8))
    }
}

impl<S, A0: Action<S>, A1: Action<S>, A2: Action<S>, A3: Action<S>, A4: Action<S>, A5: Action<S>, A6: Action<S>, A7: Action<S>, A8: Action<S>> Action<S> for Group<(A0, A1, A2, A3, A4, A5, A6, A7, A8)> {
    type Output = (A0::Output, A1::Output, A2::Output, A3::Output, A4::Output, A5::Output, A6::Output, A7::Output, A8::Output);

    open spec fn ready(&self) -> bool {
        self.inner.0.ready() && self.inner.1.ready() && self.inner.2.ready() && self.inner.3.ready() && self.inner.4.ready() && self.inner.5.ready() && self.inner.6.ready() && self.inner.7.ready() && self.inner.8.ready()
    }

    open spec fn gives(&self, ctx: FileCtx<S>, r: Result<(A0::Output, A1::Output, A2::Output, A3::Output, A4::Output, A5::Output, A6::Output, A7::Output, A8::Output), ParseError>) -> bool {
        exists|r0: Result<A0::Output, ParseError>| #[trigger] self.inner.0.gives(ctx, r0) && match r0 {
            Err(e) => r == Err::<(A0::Output, A1::Output, A2::Output, A3::Output, A4::Output, A5::Output, A6::Output, A7::Output, A8::Output), _>(e),
            Ok(v0) => exists|r1: Result<A1::Output, ParseError>| #[trigger] self.inner.1.gives(ctx, r1) && match r1 {
                Err(e) => r == Err::<(A0::Output, A1::Output, A2::Output, A3::Output, A4::Output, A5::Output, A6::Output, A7::Output, A8::Output), _>(e),
                Ok(v1) => exists|r2: Result<A2::Output, ParseError>| #[trigger] self.inner.2.gives(ctx, r2) && match r2 {
                    Err(e) => r == Err::<(A0::Output, A1::Output, A2::Output, A3::Output, A4::Output, A5::Output, A6::Output, A7::Output, A8::Output), _>(e),
                    Ok(v2) => exists|r3: Result<A3::Output, ParseError>| #[trigger] self.inner.3.gives(ctx, r3) && match r3 {
                        Err(e) => r == Err::<(A0::Output, A1::Output, A2::Output, A3::Output, A4::Output, A5::Output, A6::Output, A7::Output, A8::Output), _>(e),
                        Ok(v3) => exists|r4: Result<A4::Output, ParseError>| #[trigger] self.inner.4.gives(ctx, r4) && match r4 {
                            Err(e) => r == Err::<(A0::Output, A1::Output, A2::Output, A3::Output, A4::Output, A5::Output, A6::Output, A7::Output, A8::Output), _>(e),
                            Ok(v4) => exists|r5: Result<A5::Output, ParseError>| #[trigger] self.inner.5.gives(ctx, r5) && match r5 {
                                Err(e) => r == Err::<(A0::Output, A1::Output, A2::Output, A3::Output, A4::Output, A5::Output, A6::Output, A7::Output, A8::Output), _>(e),
                                Ok(v5) => exists|r6: Result<A6::Output, ParseError>| #[trigger] self.inner.6.gives(ctx, r6) && match r6 {
                                    Err(e) => r == Err::<(A0::Output, A1::Output, A2::Output, A3::Output, A4::Output, A5::Output, A6::Output, A7::Output, A8::Output), _>(e),
                                    Ok(v6) => exists|r7: Result<A7::Output, ParseError>| #[trigger] self.inner.7.gives(ctx, r7) && match r7 {
                                        Err(e) => r == Err::<(A0::Output, A1::Output, A2::Output, A3::Output, A4::Output, A5::Output, A6::Output, A7::Output, A8::Output), _>(e),
                                        Ok(v7) => exists|r8: Result<A8::Output, ParseError>| #[trigger] self.inner.8.gives(ctx, r8) && match r8 {
                                            Err(e) => r == Err::<(A0::Output, A1::Output, A2::Output, A3::Output, A4::Output, A5::Output, A6::Output, A7::Output, A8::Output), _>(e),
                                            Ok(v8) => r == Ok::<_, ParseError>((v0, v1, v2, v3, v4, v5, v6, v7, v8)),
                                        },
                                    },
                                },
                            },
                        },
                    },
                },
            },
        }
    }

    fn go(&self, ctx: &FileCtx<S>) -> (r: Result<(A0::Output, A1::Output, A2::Output, A3::Output, A4::Output, A5::Output, A6::Output, A7::Output, A8::Output), ParseError>) {
        let g0 = self.inner.0.go(ctx);
        let ghost h0 = g0;
        assert(self.inner.0.gives(*ctx, h0));
        let v0 = match g0 { Err(e) => { return Err(e); }, Ok(v) => v, };
        let g1 = self.inner.1.go(ctx);
        let ghost h1 = g1;
        assert(self.inner.1.gives(*ctx, h1));
        let v1 = match g1 { Err(e) => { return Err(e); }, Ok(v) => v, };
        let g2 = self.inner.2.go(ctx);
        let ghost h2 = g2;
        assert(self.inner.2.gives(*ctx, h2));
        let v2 = match g2 { Err(e) => { return Err(e); }, Ok(v) => v, };
        let g3 = self.inner.3.go(ctx);
        let ghost h3 = g3;
        assert(self.inner.3.gives(*ctx, h3));
        let v3 = match g3 { Err(e) => { return Err(e); }, Ok(v) => v, };
        let g4 = self.inner.4.go(ctx);
        let ghost h4 = g4;
        assert(self.inner.4.gives(*ctx, h4));
        let v4 = match g4 { Err(e) => { return Err(e); }, Ok(v) => v, };
        let g5 = self.inner.5.go(ctx);
        let ghost h5 = g5;
        assert(self.inner.5.gives(*ctx, h5));
        let v5 = match g5 { Err(e) => { return Err(e); }, Ok(v) => v, };
        let g6 = self.inner.6.go(ctx);
        let ghost h6 = g6;
        assert(self.inner.6.gives(*ctx, h6));
        let v6 = match g6 { Err(e) => { return Err(e); }, Ok(v) => v, };
        let g7 = self.inner.7.go(ctx);
        let ghost h7 = g7;
        assert(self.inner.7.gives(*ctx, h7));
        let v7 = match g7 { Err(e) => { return Err(e); }, Ok(v) => v, };
        let g8 = self.inner.8.go(ctx);
        let ghost h8 = g8;
        assert(self.inner.8.gives(*ctx, h8));
        let v8 = match g8 { Err(e) => { return Err(e); }, Ok(v) => v, };
        Ok((v0, v1, v2, v3, v4, v5, v6, v7, v8))
    }
}

impl<S, A0: Reader<S>, A1: Reader<S>, A2: Reader<S>, A3: Reader<S>, A4: Reader<S>, A5: Reader<S>, A6: Reader<S>, A7: Reader<S>, A8: Reader<S>, A9: Reader<S>> Reader<S> for Group<(A0, A1, A2, A3, A4, A5, A6, A7, A8, A9)> {
    type Output = (A0::Output, A1::Output, A2::Output, A3::Output, A4::Output, A5::Output, A6::Output, A7::Output, A8::Output, A9::Output);

    open spec fn ready(&self) -> bool {
        self.inner.0.ready() && self.inner.1.ready() && self.inner.2.ready() && self.inner.3.ready() && self.inner.4.ready() && self.inner.5.ready() && self.inner.6.ready() && self.inner.7.ready() && self.inner.8.ready() && self.inner.9.ready()
    }

    open spec fn runs(&self, pre: FileCtx<S>, post: FileCtx<S>, r: Result<(A0::Output, A1::Output, A2::Output, A3::Output, A4::Output, A5::Output, A6::Output, A7::Output, A8::Output, A9::Output), ParseError>) -> bool {
        exists|m0: FileCtx<S>, r0: Result<A0::Output, ParseError>| #[trigger] self.inner.0.runs(pre, m0, r0) && match r0 {
            Err(e) => post == m0 && r == Err::<(A0::Output, A1::Output, A2::Output, A3::Output, A4::Output, A5::Output, A6::Output, A7::Output, A8::Output, A9::Output), _>(e),
            Ok(v0) => exists|m1: FileCtx<S>, r1: Result<A1::Output, ParseError>| #[trigger] self.inner.1.runs(m0, m1, r1) && match r1 {
                Err(e) => post == m1 && r == Err::<(A0::Output, A1::Output, A2::Output, A3::Output, A4::Output, A5::Output, A6::Output, A7::Output, A8::Output, A9::Output), _>(e),
                Ok(v1) => exists|m2: FileCtx<S>, r2: Result<A2::Output, ParseError>| #[trigger] self.inner.2.runs(m1, m2, r2) && match r2 {
                    Err(e) => post == m2 && r == Err::<(A0::Output, A1::Output, A2::Output, A3::Output, A4::Output, A5::Output, A6::Output, A7::Output, A8::Output, A9::Output), _>(e),
                    Ok(v2) => exists|m3: FileCtx<S>, r3: Result<A3::Output, ParseError>| #[trigger] self.inner.3.runs(m2, m3, r3) && match r3 {
                        Err(e) => post == m3 && r == Err::<(A0::Output, A1::Output, A2::Output, A3::Output, A4::Output, A5::Output, A6::Output, A7::Output, A8::Output, A9::Output), _>(e),
                        Ok(v3) => exists|m4: FileCtx<S>, r4: Result<A4::Output, ParseError>| #[trigger] self.inner.4.runs(m3, m4, r4) && match r4 {
                            Err(e) => post == m4 && r == Err::<(A0::Output, A1::Output, A2::Output, A3::Output, A4::Output, A5::Output, A6::Output, A7::Output, A8::Output, A9::Output), _>(e),
                            Ok(v4) => exists|m5: FileCtx<S>, r5: Result<A5::Output, ParseError>| #[trigger] self.inner.5.runs(m4, m5, r5) && match r5 {
                                Err(e) => post == m5 && r == Err::<(A0::Output, A1::Output, A2::Output, A3::Output, A4::Output, A5::Output, A6::Output, A7::Output, A8::Output, A9::Output), _>(e),
                                Ok(v5) => exists|m6: FileCtx<S>, r6: Result<A6::Output, ParseError>| #[trigger] self.inner.6.runs(m5, m6, r6) && match r6 {
                                    Err(e) => post == m6 && r == Err::<(A0::Output, A1::Output, A2::Output, A3::Output, A4::Output, A5::Output, A6::Output, A7::Output, A8::Output, A9::Output), _>(e),
                                    Ok(v6) => exists|m7: FileCtx<S>, r7: Result<A7::Output, ParseError>| #[trigger] self.inner.7.runs(m6, m7, r7) && match r7 {
                                        Err(e) => post == m7 && r == Err::<(A0::Output, A1::Output, A2::Output, A3::Output, A4::Output, A5::Output, A6::Output, A7::Output, A8::Output, A9::Output), _>(e),
                                        Ok(v7) => exists|m8: FileCtx<S>, r8: Result<A8::Output, ParseError>| #[trigger] self.inner.8.runs(m7, m8, r8) && match r8 {
                                            Err(e) => post == m8 && r == Err::<(A0::Output, A1::Output, A2::Output, A3::Output, A4::Output, A5::Output, A6::Output, A7::Output, A8::Output, A9::Output), _>(e),
                                            Ok(v8) => exists|r9: Result<A9::Output, ParseError>| #[trigger] self.inner.9.runs(m8, post, r9) && match r9 {
                                                Err(e) => r == Err::<(A0::Output, A1::Output, A2::Output, A3::Output, A4::Output, A5::Output, A6::Output, A7::Output, A8::Output, A9::Output), _>(e),
                                                Ok(v9) => r == Ok::<_, ParseError>((v0, v1, v2, v3, v4, v5, v6, v7, v8, v9)),
                                            },
                                        },
                                    },
                                },
                            },
                        },
                    },
                },
            },
        }
    }

    fn go(&self, ctx: &mut FileCtx<S>) -> (r: Result<(A0::Output, A1::Output, A2::Output, A3::Output, A4::Output, A5::Output, A6::Output, A7::Output, A8::Output, A9::Output), ParseError>) {
        let ghost s0 = *ctx;
        let g0 = self.inner.0.go(ctx);
        let ghost h0 = g0;
        let ghost s1 = *ctx;
        assert(self.inner.0.runs(s0, s1, h0));
        let v0 = match g0 { Err(e) => { return Err(e); }, Ok(v) => v, };
        let g1 = self.inner.1.go(ctx);
        let ghost h1 = g1;
        let ghost s2 = *ctx;
        assert(self.inner.1.runs(s1, s2, h1));
        let v1 = match g1 { Err(e) => { return Err(e); }, Ok(v) => v, };
        let g2 = self.inner.2.go(ctx);
        let ghost h2 = g2;
        let ghost s3 = *ctx;
        assert(self.inner.2.runs(s2, s3, h2));
        let v2 = match g2 { Err(e) => { return Err(e); }, Ok(v) => v, };
        let g3 = self.inner.3.go(ctx);
        let ghost h3 = g3;
        let ghost s4 = *ctx;
        assert(self.inner.3.runs(s3, s4, h3));
        let v3 = match g3 { Err(e) => { return Err(e); }, Ok(v) => v, };
        let g4 = self.inner.4.go(ctx);
        let ghost h4 = g4;
        let ghost s5 = *ctx;
        assert(self.inner.4.runs(s4, s5, h4));
        let v4 = match g4 { Err(e) => { return Err(e); }, Ok(v) => v, };
        let g5 = self.inner.5.go(ctx);
        let ghost h5 = g5;
        let ghost s6 = *ctx;
        assert(self.inner.5.runs(s5, s6, h5));
        let v5 = match g5 { Err(e) => { return Err(e); }, Ok(v) => v, };
        let g6 = self.inner.6.go(ctx);
        let ghost h6 = g6;
        let ghost s7 = *ctx;
        assert(self.inner.6.runs(s6, s7, h6));
        let v6 = match g6 { Err(e) => { return Err(e); }, Ok(v) => v, };
        let g7 = self.inner.7.go(ctx);
        let ghost h7 = g7;
        let ghost s8 = *ctx;
        assert(self.inner.7.runs(s7, s8, h7));
        let v7 = match g7 { Err(e) => { return Err(e); }, Ok(v) => v, };
        let g8 = self.inner.8.go(ctx);
        let ghost h8 = g8;
        let ghost s9 = *ctx;
        assert(self.inner.8.runs(s8, s9, h8));
        let v8 = match g8 { Err(e) => { return Err(e); }, Ok(v) => v, };
        let g9 = self.inner.9.go(ctx);
        let ghost h9 = g9;
        let ghost s10 = *ctx;
        assert(self.inner.9.runs(s9, s10, h9));
        let v9 = match g9 { Err(e) => { return Err(e); }, Ok(v) => v, };
        Ok((v0, v1, v2, v3, v4, v5, v6, v7, v8, v9))
    }
}

impl<S, A0: Action<S>, A1: Action<S>, A2: Action<S>, A3: Action<S>, A4: Action<S>, A5: Action<S>, A6: Action<S>, A7: Action<S>, A8: Action<S>, A9: Action<S>> Action<S> for Group<(A0, A1, A2, A3, A4, A5, A6, A7, A8, A9)> {
    type Output = (A0::Output, A1::Output, A2::Output, A3::Output, A4::Output, A5::Output, A6::Output, A7::Output, A8::Output, A9::Output);

    open spec fn ready(&self) -> bool {
        self.inner.0.ready() && self.inner.1.ready() && self.inner.2.ready() && self.inner.3.ready() && self.inner.4.ready() && self.inner.5.ready() && self.inner.6.ready() && self.inner.7.ready() && self.inner.8.ready() && self.inner.9.ready()
    }

    open spec fn gives(&self, ctx: FileCtx<S>, r: Result<(A0::Output, A1::Output, A2::Output, A3::Output, A4::Output, A5::Output, A6::Output, A7::Output, A8::Output, A9::Output), ParseError>) -> bool {
        exists|r0: Result<A0::Output, ParseError>| #[trigger] self.inner.0.gives(ctx, r0) && match r0 {
            Err(e) => r == Err::<(A0::Output, A1::Output, A2::Output, A3::Output, A4::Output, A5::Output, A6::Output, A7::Output, A8::Output, A9::Output), _>(e),
            Ok(v0) => exists|r1: Result<A1::Output, ParseError>| #[trigger] self.inner.1.gives(ctx, r1) && match r1 {
                Err(e) => r == Err::<(A0::Output, A1::Output, A2::Output, A3::Output, A4::Output, A5::Output, A6::Output, A7::Output, A8::Output, A9::Output), _>(e),
                Ok(v1) => exists|r2: Result<A2::Output, ParseError>| #[trigger] self.inner.2.gives(ctx, r2) && match r2 {
                    Err(e) => r == Err::<(A0::Output, A1::Output, A2::Output, A3::Output, A4::Output, A5::Output, A6::Output, A7::Output, A8::Output, A9::Output), _>(e),
                    Ok(v2) => exists|r3: Result<A3::Output, ParseError>| #[trigger] self.inner.3.gives(ctx, r3) && match r3 {
                        Err(e) => r == Err::<(A0::Output, A1::Output, A2::Output, A3::Output, A4::Output, A5::Output, A6::Output, A7::Output, A8::Output, A9::Output), _>(e),
                        Ok(v3) => exists|r4: Result<A4::Output, ParseError>| #[trigger] self.inner.4.gives(ctx, r4) && match r4 {
                            Err(e) => r == Err::<(A0::Output, A1::Output, A2::Output, A3::Output, A4::Output, A5::Output, A6::Output, A7::Output, A8::Output, A9::Output), _>(e),
                            Ok(v4) => exists|r5: Result<A5::Output, ParseError>| #[trigger] self.inner.5.gives(ctx, r5) && match r5 {
                                Err(e) => r == Err::<(A0::Output, A1::Output, A2::Output, A3::Output, A4::Output, A5::Output, A6::Output, A7::Output, A8::Output, A9::Output), _>(e),
                                Ok(v5) => exists|r6: Result<A6::Output, ParseError>| #[trigger] self.inner.6.gives(ctx, r6) && match r6 {
                                    Err(e) => r == Err::<(A0::Output, A1::Output, A2::Output, A3::Output, A4::Output, A5::Output, A6::Output, A7::Output, A8::Output, A9::Output), _>(e),
                                    Ok(v6) => exists|r7: Result<A7::Output, ParseError>| #[trigger] self.inner.7.gives(ctx, r7) && match r7 {
                                        Err(e) => r == Err::<(A0::Output, A1::Output, A2::Output, A3::Output, A4::Output, A5::Output, A6::Output, A7::Output, A8::Output, A9::Output), _>(e),
                                        Ok(v7) => exists|r8: Result<A8::Output, ParseError>| #[trigger] self.inner.8.gives(ctx, r8) && match r8 {
                                            Err(e) => r == Err::<(A0::Output, A1::Output, A2::Output, A3::Output, A4::Output, A5::Output, A6::Output, A7::Output, A8::Output, A9::Output), _>(e),
                                            Ok(v8) => exists|r9: Result<A9::Output, ParseError>| #[trigger] self.inner.9.gives(ctx, r9) && match r9 {
                                                Err(e) => r == Err::<(A0::Output, A1::Output, A2::Output, A3::Output, A4::Output, A5::Output, A6::Output, A7::Output, A8::Output, A9::Output), _>(e),
                                                Ok(v9) => r == Ok::<_, ParseError>((v0, v1, v2, v3, v4, v5, v6, v7, v8, v9)),
                                            },
                                        },
                                    },
                                },
                            },
                        },
                    },
                },
            },
        }
    }

    fn go(&self, ctx: &FileCtx<S>) -> (r: Result<(A0::Output, A1::Output, A2::Output, A3::Output, A4::Output, A5::Output, A6::Output, A7::Output, A8::Output, A9::Output), ParseError>) {
        let g0 = self.inner.0.go(ctx);
        let ghost h0 = g0;
        assert(self.inner.0.gives(*ctx, h0));
        let v0 = match g0 { Err(e) => { return Err(e); }, Ok(v) => v, };
        let g1 = self.inner.1.go(ctx);
        let ghost h1 = g1;
        assert(self.inner.1.gives(*ctx, h1));
        let v1 = match g1 { Err(e) => { return Err(e); }, Ok(v) => v, };
        let g2 = self.inner.2.go(ctx);
        let ghost h2 = g2;
        assert(self.inner.2.gives(*ctx, h2));
        let v2 = match g2 { Err(e) => { return Err(e); }, Ok(v) => v, };
        let g3 = self.inner.3.go(ctx);
        let ghost h3 = g3;
        assert(self.inner.3.gives(*ctx, h3));
        let v3 = match g3 { Err(e) => { return Err(e); }, Ok(v) => v, };
        let g4 = self.inner.4.go(ctx);
        let ghost h4 = g4;
        assert(self.inner.4.gives(*ctx, h4));
        let v4 = match g4 { Err(e) => { return Err(e); }, Ok(v) => v, };
        let g5 = self.inner.5.go(ctx);
        let ghost h5 = g5;
        assert(self.inner.5.gives(*ctx, h5));
        let v5 = match g5 { Err(e) => { return Err(e); }, Ok(v) => v, };
        let g6 = self.inner.6.go(ctx);
        let ghost h6 = g6;
        assert(self.inner.6.gives(*ctx, h6));
        let v6 = match g6 { Err(e) => { return Err(e); }, Ok(v) => v, };
        let g7 = self.inner.7.go(ctx);
        let ghost h7 = g7;
        assert(self.inner.7.gives(*ctx, h7));
        let v7 = match g7 { Err(e) => { return Err(e); }, Ok(v) => v, };
        let g8 = self.inner.8.go(ctx);
        let ghost h8 = g8;
        assert(self.inner.8.gives(*ctx, h8));
        let v8 = match g8 { Err(e) => { return Err(e); }, Ok(v) => v, };
        let g9 = self.inner.9.go(ctx);
        let ghost h9 = g9;
        assert(self.inner.9.gives(*ctx, h9));
        let v9 = match g9 { Err(e) => { return Err(e); }, Ok(v) => v, };
        Ok((v0, v1, v2, v3, v4, v5, v6, v7, v8, v9))
    }
}

impl<S, A0: Reader<S>, A1: Reader<S>, A2: Reader<S>, A3: Reader<S>, A4: Reader<S>, A5: Reader<S>, A6: Reader<S>, A7: Reader<S>, A8: Reader<S>, A9: Reader<S>, A10: Reader<S>> Reader<S> for Group<(A0, A1, A2, A3, A4, A5, A6, A7, A8, A9, A10)> {
    type Output = (A0::Output, A1::Output, A2::Output, A3::Output, A4::Output, A5::Output, A6::Output, A7::Output, A8::Output, A9::Output, A10::Output);

    open spec fn ready(&self) -> bool {
        self.inner.0.ready() && self.inner.1.ready() && self.inner.2.ready() && self.inner.3.ready() && self.inner.4.ready() && self.inner.5.ready() && self.inner.6.ready() && self.inner.7.ready() && self.inner.8.ready() && self.inner.9.ready() && self.inner.10.ready()
    }

    open spec fn runs(&self, pre: FileCtx<S>, post: FileCtx<S>, r: Result<(A0::Output, A1::Output, A2::Output, A3::Output, A4::Output, A5::Output, A6::Output, A7::Output, A8::Output, A9::Output, A10::Output), ParseError>) -> bool {
        exists|m0: FileCtx<S>, r0: Result<A0::Output, ParseError>| #[trigger] self.inner.0.runs(pre, m0, r0) && match r0 {
            Err(e) => post == m0 && r == Err::<(A0::Output, A1::Output, A2::Output, A3::Output, A4::Output, A5::Output, A6::Output, A7::Output, A8::Output, A9::Output, A10::Output), _>(e),
            Ok(v0) => exists|m1: FileCtx<S>, r1: Result<A1::Output, ParseError>| #[trigger] self.inner.1.runs(m0, m1, r1) && match r1 {
                Err(e) => post == m1 && r == Err::<(A0::Output, A1::Output, A2::Output, A3::Output, A4::Output, A5::Output, A6::Output, A7::Output, A8::Output, A9::Output, A10::Output), _>(e),
                Ok(v1) => exists|m2: FileCtx<S>, r2: Result<A2::Output, ParseError>| #[trigger] self.inner.2.runs(m1, m2, r2) && match r2 {
                    Err(e) => post == m2 && r == Err::<(A0::Output, A1::Output, A2::Output, A3::Output, A4::Output, A5::Output, A6::Output, A7::Output, A8::Output, A9::Output, A10::Output), _>(e),
                    Ok(v2) => exists|m3: FileCtx<S>, r3: Result<A3::Output, ParseError>| #[trigger] self.inner.3.runs(m2, m3, r3) && match r3 {
                        Err(e) => post == m3 && r == Err::<(A0::Output, A1::Output, A2::Output, A3::Output, A4::Output, A5::Output, A6::Output, A7::Output, A8::Output, A9::Output, A10::Output), _>(e),
                        Ok(v3) => exists|m4: FileCtx<S>, r4: Result<A4::Output, ParseError>| #[trigger] self.inner.4.runs(m3, m4, r4) && match r4 {
                            Err(e) => post == m4 && r == Err::<(A0::Output, A1::Output, A2::Output, A3::Output, A4::Output, A5::Output, A6::Output, A7::Output, A8::Output, A9::Output, A10::Output), _>(e),
                            Ok(v4) => exists|m5: FileCtx<S>, r5: Result<A5::Output, ParseError>| #[trigger] self.inner.5.runs(m4, m5, r5) && match r5 {
                                Err(e) => post == m5 && r == Err::<(A0::Output, A1::Output, A2::Output, A3::Output, A4::Output, A5::Output, A6::Output, A7::Output, A8::Output, A9::Output, A10::Output), _>(e),
                                Ok(v5) => exists|m6: FileCtx<S>, r6: Result<A6::Output, ParseError>| #[trigger] self.inner.6.runs(m5, m6, r6) && match r6 {
                                    Err(e) => post == m6 && r == Err::<(A0::Output, A1::Output, A2::Output, A3::Output, A4::Output, A5::Output, A6::Output, A7::Output, A8::Output, A9::Output, A10::Output), _>(e),
                                    Ok(v6) => exists|m7: FileCtx<S>, r7: Result<A7::Output, ParseError>| #[trigger] self.inner.7.runs(m6, m7, r7) && match r7 {
                                        Err(e) => post == m7 && r == Err::<(A0::Output, A1::Output, A2::Output, A3::Output, A4::Output, A5::Output, A6::Output, A7::Output, A8::Output, A9::Output, A10::Output), _>(e),
                                        Ok(v7) => exists|m8: FileCtx<S>, r8: Result<A8::Output, ParseError>| #[trigger] self.inner.8.runs(m7, m8, r8) && match r8 {
                                            Err(e) => post == m8 && r == Err::<(A0::Output, A1::Output, A2::Output, A3::Output, A4::Output, A5::Output, A6::Output, A7::Output, A8::Output, A9::Output, A10::Output), _>(e),
                                            Ok(v8) => exists|m9: FileCtx<S>, r9: Result<A9::Output, ParseError>| #[trigger] self.inner.9.runs(m8, m9, r9) && match r9 {
                                                Err(e) => post == m9 && r == Err::<(A0::Output, A1::Output, A2::Output, A3::Output, A4::Output, A5::Output, A6::Output, A7::Output, A8::Output, A9::Output, A10::Output), _>(e),
                                                Ok(v9) => exists|r10: Result<A10::Output, ParseError>| #[trigger] self.inner.10.runs(m9, post, r10) && match r10 {
                                                    Err(e) => r == Err::<(A0::Output, A1::Output, A2::Output, A3::Output, A4::Output, A5::Output, A6::Output, A7::Output, A8::Output, A9::Output, A10::Output), _>(e),
                                                    Ok(v10) => r == Ok::<_, ParseError>((v0, v1, v2, v3, v4, v5, v6, v7, v8, v9, v10)),
                                                },
                                            },
                                        },
                                    },
                                },
                            },
                        },
                    },
                },
            },
        }
    }

    fn go(&self, ctx: &mut FileCtx<S>) -> (r: Result<(A0::Output, A1::Output, A2::Output, A3::Output, A4::Output, A5::Output, A6::Output, A7::Output, A8::Output, A9::Output, A10::Output), ParseError>) {
        let ghost s0 = *ctx;
        let g0 = self.inner.0.go(ctx);
        let ghost h0 = g0;
        let ghost s1 = *ctx;
        assert(self.inner.0.runs(s0, s1, h0));
        let v0 = match g0 { Err(e) => { return Err(e); }, Ok(v) => v, };
        let g1 = self.inner.1.go(ctx);
        let ghost h1 = g1;
        let ghost s2 = *ctx;
        assert(self.inner.1.runs(s1, s2, h1));
        let v1 = match g1 { Err(e) => { return Err(e); }, Ok(v) => v, };
        let g2 = self.inner.2.go(ctx);
        let ghost h2 = g2;
        let ghost s3 = *ctx;
        assert(self.inner.2.runs(s2, s3, h2));
        let v2 = match g2 { Err(e) => { return Err(e); }, Ok(v) => v, };
        let g3 = self.inner.3.go(ctx);
        let ghost h3 = g3;
        let ghost s4 = *ctx;
        assert(self.inner.3.runs(s3, s4, h3));
        let v3 = match g3 { Err(e) => { return Err(e); }, Ok(v) => v, };
        let g4 = self.inner.4.go(ctx);
        let ghost h4 = g4;
        let ghost s5 = *ctx;
        assert(self.inner.4.runs(s4, s5, h4));
        let v4 = match g4 { Err(e) => { return Err(e); }, Ok(v) => v, };
        let g5 = self.inner.5.go(ctx);
        let ghost h5 = g5;
        let ghost s6 = *ctx;
        assert(self.inner.5.runs(s5, s6, h5));
        let v5 = match g5 { Err(e) => { return Err(e); }, Ok(v) => v, };
        let g6 = self.inner.6.go(ctx);
        let ghost h6 = g6;
        let ghost s7 = *ctx;
        assert(self.inner.6.runs(s6, s7, h6));
        let v6 = match g6 { Err(e) => { return Err(e); }, Ok(v) => v, };
        let g7 = self.inner.7.go(ctx);
        let ghost h7 = g7;
        let ghost s8 = *ctx;
        assert(self.inner.7.runs(s7, s8, h7));
        let v7 = match g7 { Err(e) => { return Err(e); }, Ok(v) => v, };
        let g8 = self.inner.8.go(ctx);
        let ghost h8 = g8;
        let ghost s9 = *ctx;
        assert(self.inner.8.runs(s8, s9, h8));
        let v8 = match g8 { Err(e) => { return Err(e); }, Ok(v) => v, };
        let g9 = self.inner.9.go(ctx);
        let ghost h9 = g9;
        let ghost s10 = *ctx;
        assert(self.inner.9.runs(s9, s10, h9));
        let v9 = match g9 { Err(e) => { return Err(e); }, Ok(v) => v, };
        let g10 = self.inner.10.go(ctx);
        let ghost h10 = g10;
        let ghost s11 = *ctx;
        assert(self.inner.10.runs(s10, s11, h10));
        let v10 = match g10 { Err(e) => { return Err(e); }, Ok(v) => v, };
        Ok((v0, v1, v2, v3, v4, v5, v6, v7, v8, v9, v10))
    }
}

impl<S, A0: Action<S>, A1: Action<S>, A2: Action<S>, A3: Action<S>, A4: Action<S>, A5: Action<S>, A6: Action<S>, A7: Action<S>, A8: Action<S>, A9: Action<S>, A10: Action<S>> Action<S> for Group<(A0, A1, A2, A3, A4, A5, A6, A7, A8, A9, A10)> {
    type Output = (A0::Output, A1::Output, A2::Output, A3::Output, A4::Output, A5::Output, A6::Output, A7::Output, A8::Output, A9::Output, A10::Output);

    open spec fn ready(&self) -> bool {
        self.inner.0.ready() && self.inner.1.ready() && self.inner.2.ready() && self.inner.3.ready() && self.inner.4.ready() && self.inner.5.ready() && self.inner.6.ready() && self.inner.7.ready() && self.inner.8.ready() && self.inner.9.ready() && self.inner.10.ready()
    }

    open spec fn gives(&self, ctx: FileCtx<S>, r: Result<(A0::Output, A1::Output, A2::Output, A3::Output, A4::Output, A5::Output, A6::Output, A7::Output, A8::Output, A9::Output, A10::Output), ParseError>) -> bool {
        exists|r0: Result<A0::Output, ParseError>| #[trigger] self.inner.0.gives(ctx, r0) && match r0 {
            Err(e) => r == Err::<(A0::Output, A1::Output, A2::Output, A3::Output, A4::Output, A5::Output, A6::Output, A7::Output, A8::Output, A9::Output, A10::Output), _>(e),
            Ok(v0) => exists|r1: Result<A1::Output, ParseError>| #[trigger] self.inner.1.gives(ctx, r1) && match r1 {
                Err(e) => r == Err::<(A0::Output, A1::Output, A2::Output, A3::Output, A4::Output, A5::Output, A6::Output, A7::Output, A8::Output, A9::Output, A10::Output), _>(e),
                Ok(v1) => exists|r2: Result<A2::Output, ParseError>| #[trigger] self.inner.2.gives(ctx, r2) && match r2 {
                    Err(e) => r == Err::<(A0::Output, A1::Output, A2::Output, A3::Output, A4::Output, A5::Output, A6::Output, A7::Output, A8::Output, A9::Output, A10::Output), _>(e),
                    Ok(v2) => exists|r3: Result<A3::Output, ParseError>| #[trigger] self.inner.3.gives(ctx, r3) && match r3 {
                        Err(e) => r == Err::<(A0::Output, A1::Output, A2::Output, A3::Output, A4::Output, A5::Output, A6::Output, A7::Output, A8::Output, A9::Output, A10::Output), _>(e),
                        Ok(v3) => exists|r4: Result<A4::Output, ParseError>| #[trigger] self.inner.4.gives(ctx, r4) && match r4 {
                            Err(e) => r == Err::<(A0::Output, A1::Output, A2::Output, A3::Output, A4::Output, A5::Output, A6::Output, A7::Output, A8::Output, A9::Output, A10::Output), _>(e),
                            Ok(v4) => exists|r5: Result<A5::Output, ParseError>| #[trigger] self.inner.5.gives(ctx, r5) && match r5 {
                                Err(e) => r == Err::<(A0::Output, A1::Output, A2::Output, A3::Output, A4::Output, A5::Output, A6::Output, A7::Output, A8::Output, A9::Output, A10::Output), _>(e),
                                Ok(v5) => exists|r6: Result<A6::Output, ParseError>| #[trigger] self.inner.6.gives(ctx, r6) && match r6 {
                                    Err(e) => r == Err::<(A0::Output, A1::Output, A2::Output, A3::Output, A4::Output, A5::Output, A6::Output, A7::Output, A8::Output, A9::Output, A10::Output), _>(e),
                                    Ok(v6) => exists|r7: Result<A7::Output, ParseError>| #[trigger] self.inner.7.gives(ctx, r7) && match r7 {
                                        Err(e) => r == Err::<(A0::Output, A1::Output, A2::Output, A3::Output, A4::Output, A5::Output, A6::Output, A7::Output, A8::Output, A9::Output, A10::Output), _>(e),
                                        Ok(v7) => exists|r8: Result<A8::Output, ParseError>| #[trigger] self.inner.8.gives(ctx, r8) && match r8 {
                                            Err(e) => r == Err::<(A0::Output, A1::Output, A2::Output, A3::Output, A4::Output, A5::Output, A6::Output, A7::Output, A8::Output, A9::Output, A10::Output), _>(e),
                                            Ok(v8) => exists|r9: Result<A9::Output, ParseError>| #[trigger] self.inner.9.gives(ctx, r9) && match r9 {
                                                Err(e) => r == Err::<(A0::Output, A1::Output, A2::Output, A3::Output, A4::Output, A5::Output, A6::Output, A7::Output, A8::Output, A9::Output, A10::Output), _>(e),
                                                Ok(v9) => exists|r10: Result<A10::Output, ParseError>| #[trigger] self.inner.10.gives(ctx, r10) && match r10 {
                                                    Err(e) => r == Err::<(A0::Output, A1::Output, A2::Output, A3::Output, A4::Output, A5::Output, A6::Output, A7::Output, A8::Output, A9::Output, A10::Output), _>(e),
                                                    Ok(v10) => r == Ok::<_, ParseError>((v0, v1, v2, v3, v4, v5, v6, v7, v8, v9, v10)),
                                                },
                                            },
                                        },
                                    },
                                },
                            },
                        },
                    },
                },
            },
        }
    }

    fn go(&self, ctx: &FileCtx<S>) -> (r: Result<(A0::Output, A1::Output, A2::Output, A3::Output, A4::Output, A5::Output, A6::Output, A7::Output, A8::Output, A9::Output, A10::Output), ParseError>) {
        let g0 = self.inner.0.go(ctx);
        let ghost h0 = g0;
        assert(self.inner.0.gives(*ctx, h0));
        let v0 = match g0 { Err(e) => { return Err(e); }, Ok(v) => v, };
        let g1 = self.inner.1.go(ctx);
        let ghost h1 = g1;
        assert(self.inner.1.gives(*ctx, h1));
        let v1 = match g1 { Err(e) => { return Err(e); }, Ok(v) => v, };
        let g2 = self.inner.2.go(ctx);
        let ghost h2 = g2;
        assert(self.inner.2.gives(*ctx, h2));
        let v2 = match g2 { Err(e) => { return Err(e); }, Ok(v) => v, };
        let g3 = self.inner.3.go(ctx);
        let ghost h3 = g3;
        assert(self.inner.3.gives(*ctx, h3));
        let v3 = match g3 { Err(e) => { return Err(e); }, Ok(v) => v, };
        let g4 = self.inner.4.go(ctx);
        let ghost h4 = g4;
        assert(self.inner.4.gives(*ctx, h4));
        let v4 = match g4 { Err(e) => { return Err(e); }, Ok(v) => v, };
        let g5 = self.inner.5.go(ctx);
        let ghost h5 = g5;
        assert(self.inner.5.gives(*ctx, h5));
        let v5 = match g5 { Err(e) => { return Err(e); }, Ok(v) => v, };
        let g6 = self.inner.6.go(ctx);
        let ghost h6 = g6;
        assert(self.inner.6.gives(*ctx, h6));
        let v6 = match g6 { Err(e) => { return Err(e); }, Ok(v) => v, };
        let g7 = self.inner.7.go(ctx);
        let ghost h7 = g7;
        assert(self.inner.7.gives(*ctx, h7));
        let v7 = match g7 { Err(e) => { return Err(e); }, Ok(v) => v, };
        let g8 = self.inner.8.go(ctx);
        let ghost h8 = g8;
        assert(self.inner.8.gives(*ctx, h8));
        let v8 = match g8 { Err(e) => { return Err(e); }, Ok(v) => v, };
        let g9 = self.inner.9.go(ctx);
        let ghost h9 = g9;
        assert(self.inner.9.gives(*ctx, h9));
        let v9 = match g9 { Err(e) => { return Err(e); }, Ok(v) => v, };
        let g10 = self.inner.10.go(ctx);
        let ghost h10 = g10;
        assert(self.inner.10.gives(*ctx, h10));
        let v10 = match g10 { Err(e) => { return Err(e); }, Ok(v) => v, };
        Ok((v0, v1, v2, v3, v4, v5, v6, v7, v8, v9, v10))
    }
}

impl<S, A0: Reader<S>, A1: Reader<S>, A2: Reader<S>, A3: Reader<S>, A4: Reader<S>, A5: Reader<S>, A6: Reader<S>, A7: Reader<S>, A8: Reader<S>, A9: Reader<S>, A10: Reader<S>, A11: Reader<S>> Reader<S> for Group<(A0, A1, A2, A3, A4, A5, A6, A7, A8, A9, A10, A11)> {
    type Output = (A0::Output, A1::Output, A2::Output, A3::Output, A4::Output, A5::Output, A6::Output, A7::Output, A8::Output, A9::Output, A10::Output, A11::Output);

    open spec fn ready(&self) -> bool {
        self.inner.0.ready() && self.inner.1.ready() && self.inner.2.ready() && self.inner.3.ready() && self.inner.4.ready() && self.inner.5.ready() && self.inner.6.ready() && self.inner.7.ready() && self.inner.8.ready() && self.inner.9.ready() && self.inner.10.ready() && self.inner.11.ready()
    }

    open spec fn runs(&self, pre: FileCtx<S>, post: FileCtx<S>, r: Result<(A0::Output, A1::Output, A2::Output, A3::Output, A4::Output, A5::Output, A6::Output, A7::Output, A8::Output, A9::Output, A10::Output, A11::Output), ParseError>) -> bool {
        exists|m0: FileCtx<S>, r0: Result<A0::Output, ParseError>| #[trigger] self.inner.0.runs(pre, m0, r0) && match r0 {
            Err(e) => post == m0 && r == Err::<(A0::Output, A1::Output, A2::Output, A3::Output, A4::Output, A5::Output, A6::Output, A7::Output, A8::Output, A9::Output, A10::Output, A11::Output), _>(e),
            Ok(v0) => exists|m1: FileCtx<S>, r1: Result<A1::Output, ParseError>| #[trigger] self.inner.1.runs(m0, m1, r1) && match r1 {
                Err(e) => post == m1 && r == Err::<(A0::Output, A1::Output, A2::Output, A3::Output, A4::Output, A5::Output, A6::Output, A7::Output, A8::Output, A9::Output, A10::Output, A11::Output), _>(e),
                Ok(v1) => exists|m2: FileCtx<S>, r2: Result<A2::Output, ParseError>| #[trigger] self.inner.2.runs(m1, m2, r2) && match r2 {
                    Err(e) => post == m2 && r == Err::<(A0::Output, A1::Output, A2::Output, A3::Output, A4::Output, A5::Output, A6::Output, A7::Output, A8::Output, A9::Output, A10::Output, A11::Output), _>(e),
                    Ok(v2) => exists|m3: FileCtx<S>, r3: Result<A3::Output, ParseError>| #[trigger] self.inner.3.runs(m2, m3, r3) && match r3 {
                        Err(e) => post == m3 && r == Err::<(A0::Output, A1::Output, A2::Output, A3::Output, A4::Output, A5::Output, A6::Output, A7::Output, A8::Output, A9::Output, A10::Output, A11::Output), _>(e),
                        Ok(v3) => exists|m4: FileCtx<S>, r4: Result<A4::Output, ParseError>| #[trigger] self.inner.4.runs(m3, m4, r4) && match r4 {
                            Err(e) => post == m4 && r == Err::<(A0::Output, A1::Output, A2::Output, A3::Output, A4::Output, A5::Output, A6::Output, A7::Output, A8::Output, A9::Output, A10::Output, A11::Output), _>(e),
                            Ok(v4) => exists|m5: FileCtx<S>, r5: Result<A5::Output, ParseError>| #[trigger] self.inner.5.runs(m4, m5, r5) && match r5 {
                                Err(e) => post == m5 && r == Err::<(A0::Output, A1::Output, A2::Output, A3::Output, A4::Output, A5::Output, A6::Output, A7::Output, A8::Output, A9::Output, A10::Output, A11::Output), _>(e),
                                Ok(v5) => exists|m6: FileCtx<S>, r6: Result<A6::Output, ParseError>| #[trigger] self.inner.6.runs(m5, m6, r6) && match r6 {
                                    Err(e) => post == m6 && r == Err::<(A0::Output, A1::Output, A2::Output, A3::Output, A4::Output, A5::Output, A6::Output, A7::Output, A8::Output, A9::Output, A10::Output, A11::Output), _>(e),
                                    Ok(v6) => exists|m7: FileCtx<S>, r7: Result<A7::Output, ParseError>| #[trigger] self.inner.7.runs(m6, m7, r7) && match r7 {
                                        Err(e) => post == m7 && r == Err::<(A0::Output, A1::Output, A2::Output, A3::Output, A4::Output, A5::Output, A6::Output, A7::Output, A8::Output, A9::Output, A10::Output, A11::Output), _>(e),
                                        Ok(v7) => exists|m8: FileCtx<S>, r8: Result<A8::Output, ParseError>| #[trigger] self.inner.8.runs(m7, m8, r8) && match r8 {
                                            Err(e) => post == m8 && r == Err::<(A0::Output, A1::Output, A2::Output, A3::Output, A4::Output, A5::Output, A6::Output, A7::Output, A8::Output, A9::Output, A10::Output, A11::Output), _>(e),
                                            Ok(v8) => exists|m9: FileCtx<S>, r9: Result<A9::Output, ParseError>| #[trigger] self.inner.9.runs(m8, m9, r9) && match r9 {
                                                Err(e) => post == m9 && r == Err::<(A0::Output, A1::Output, A2::Output, A3::Output, A4::Output, A5::Output, A6::Output, A7::Output, A8::Output, A9::Output, A10::Output, A11::Output), _>(e),
                                                Ok(v9) => exists|m10: FileCtx<S>, r10: Result<A10::Output, ParseError>| #[trigger] self.inner.10.runs(m9, m10, r10) && match r10 {
                                                    Err(e) => post == m10 && r == Err::<(A0::Output, A1::Output, A2::Output, A3::Output, A4::Output, A5::Output, A6::Output, A7::Output, A8::Output, A9::Output, A10::Output, A11::Output), _>(e),
                                                    Ok(v10) => exists|r11: Result<A11::Output, ParseError>| #[trigger] self.inner.11.runs(m10, post, r11) && match r11 {
                                                        Err(e) => r == Err::<(A0::Output, A1::Output, A2::Output, A3::Output, A4::Output, A5::Output, A6::Output, A7::Output, A8::Output, A9::Output, A10::Output, A11::Output), _>(e),
                                                        Ok(v11) => r == Ok::<_, ParseError>((v0, v1, v2, v3, v4, v5, v6, v7, v8, v9, v10, v11)),
                                                    },
                                                },
                                            },
                                        },
                                    },
                                },
                            },
                        },
                    },
                },
            },
        }
    }

    fn go(&self, ctx: &mut FileCtx<S>) -> (r: Result<(A0::Output, A1::Output, A2::Output, A3::Output, A4::Output, A5::Output, A6::Output, A7::Output, A8::Output, A9::Output, A10::Output, A11::Output), ParseError>) {
        let ghost s0 = *ctx;
        let g0 = self.inner.0.go(ctx);
        let ghost h0 = g0;
        let ghost s1 = *ctx;
        assert(self.inner.0.runs(s0, s1, h0));
        let v0 = match g0 { Err(e) => { return Err(e); }, Ok(v) => v, };
        let g1 = self.inner.1.go(ctx);
        let ghost h1 = g1;
        let ghost s2 = *ctx;
        assert(self.inner.1.runs(s1, s2, h1));
        let v1 = match g1 { Err(e) => { return Err(e); }, Ok(v) => v, };
        let g2 = self.inner.2.go(ctx);
        let ghost h2 = g2;
        let ghost s3 = *ctx;
        assert(self.inner.2.runs(s2, s3, h2));
        let v2 = match g2 { Err(e) => { return Err(e); }, Ok(v) => v, };
        let g3 = self.inner.3.go(ctx);
        let ghost h3 = g3;
        let ghost s4 = *ctx;
        assert(self.inner.3.runs(s3, s4, h3));
        let v3 = match g3 { Err(e) => { return Err(e); }, Ok(v) => v, };
        let g4 = self.inner.4.go(ctx);
        let ghost h4 = g4;
        let ghost s5 = *ctx;
        assert(self.inner.4.runs(s4, s5, h4));
        let v4 = match g4 { Err(e) => { return Err(e); }, Ok(v) => v, };
        let g5 = self.inner.5.go(ctx);
        let ghost h5 = g5;
        let ghost s6 = *ctx;
        assert(self.inner.5.runs(s5, s6, h5));
        let v5 = match g5 { Err(e) => { return Err(e); }, Ok(v) => v, };
        let g6 = self.inner.6.go(ctx);
        let ghost h6 = g6;
        let ghost s7 = *ctx;
        assert(self.inner.6.runs(s6, s7, h6));
        let v6 = match g6 { Err(e) => { return Err(e); }, Ok(v) => v, };
        let g7 = self.inner.7.go(ctx);
        let ghost h7 = g7;
        let ghost s8 = *ctx;
        assert(self.inner.7.runs(s7, s8, h7));
        let v7 = match g7 { Err(e) => { return Err(e); }, Ok(v) => v, };
        let g8 = self.inner.8.go(ctx);
        let ghost h8 = g8;
        let ghost s9 = *ctx;
        assert(self.inner.8.runs(s8, s9, h8));
        let v8 = match g8 { Err(e) => { return Err(e); }, Ok(v) => v, };
        let g9 = self.inner.9.go(ctx);
        let ghost h9 = g9;
        let ghost s10 = *ctx;
        assert(self.inner.9.runs(s9, s10, h9));
        let v9 = match g9 { Err(e) => { return Err(e); }, Ok(v) => v, };
        let g10 = self.inner.10.go(ctx);
        let ghost h10 = g10;
        let ghost s11 = *ctx;
        assert(self.inner.10.runs(s10, s11, h10));
        let v10 = match g10 { Err(e) => { return Err(e); }, Ok(v) => v, };
        let g11 = self.inner.11.go(ctx);
        let ghost h11 = g11;
        let ghost s12 = *ctx;
        assert(self.inner.11.runs(s11, s12, h11));
        let v11 = match g11 { Err(e) => { return Err(e); }, Ok(v) => v, };
        Ok((v0, v1, v2, v3, v4, v5, v6, v7, v8, v9, v10, v11))
    }
}

impl<S, A0: Action<S>, A1: Action<S>, A2: Action<S>, A3: Action<S>, A4: Action<S>, A5: Action<S>, A6: Action<S>, A7: Action<S>, A8: Action<S>, A9: Action<S>, A10: Action<S>, A11: Action<S>> Action<S> for Group<(A0, A1, A2, A3, A4, A5, A6, A7, A8, A9, A10, A11)> {
    type Output = (A0::Output, A1::Output, A2::Output, A3::Output, A4::Output, A5::Output, A6::Output, A7::Output, A8::Output, A9::Output, A10::Output, A11::Output);

    open spec fn ready(&self) -> bool {
        self.inner.0.ready() && self.inner.1.ready() && self.inner.2.ready() && self.inner.3.ready() && self.inner.4.ready() && self.inner.5.ready() && self.inner.6.ready() && self.inner.7.ready() && self.inner.8.ready() && self.inner.9.ready() && self.inner.10.ready() && self.inner.11.ready()
    }

    open spec fn gives(&self, ctx: FileCtx<S>, r: Result<(A0::Output, A1::Output, A2::Output, A3::Output, A4::Output, A5::Output, A6::Output, A7::Output, A8::Output, A9::Output, A10::Output, A11::Output), ParseError>) -> bool {
        exists|r0: Result<A0::Output, ParseError>| #[trigger] self.inner.0.gives(ctx, r0) && match r0 {
            Err(e) => r == Err::<(A0::Output, A1::Output, A2::Output, A3::Output, A4::Output, A5::Output, A6::Output, A7::Output, A8::Output, A9::Output, A10::Output, A11::Output), _>(e),
            Ok(v0) => exists|r1: Result<A1::Output, ParseError>| #[trigger] self.inner.1.gives(ctx, r1) && match r1 {
                Err(e) => r == Err::<(A0::Output, A1::Output, A2::Output, A3::Output, A4::Output, A5::Output, A6::Output, A7::Output, A8::Output, A9::Output, A10::Output, A11::Output), _>(e),
                Ok(v1) => exists|r2: Result<A2::Output, ParseError>| #[trigger] self.inner.2.gives(ctx, r2) && match r2 {
                    Err(e) => r == Err::<(A0::Output, A1::Output, A2::Output, A3::Output, A4::Output, A5::Output, A6::Output, A7::Output, A8::Output, A9::Output, A10::Output, A11::Output), _>(e),
                    Ok(v2) => exists|r3: Result<A3::Output, ParseError>| #[trigger] self.inner.3.gives(ctx, r3) && match r3 {
                        Err(e) => r == Err::<(A0::Output, A1::Output, A2::Output, A3::Output, A4::Output, A5::Output, A6::Output, A7::Output, A8::Output, A9::Output, A10::Output, A11::Output), _>(e),
                        Ok(v3) => exists|r4: Result<A4::Output, ParseError>| #[trigger] self.inner.4.gives(ctx, r4) && match r4 {
                            Err(e) => r == Err::<(A0::Output, A1::Output, A2::Output, A3::Output, A4::Output, A5::Output, A6::Output, A7::Output, A8::Output, A9::Output, A10::Output, A11::Output), _>(e),
                            Ok(v4) => exists|r5: Result<A5::Output, ParseError>| #[trigger] self.inner.5.gives(ctx, r5) && match r5 {
                                Err(e) => r == Err::<(A0::Output, A1::Output, A2::Output, A3::Output, A4::Output, A5::Output, A6::Output, A7::Output, A8::Output, A9::Output, A10::Output, A11::Output), _>(e),
                                Ok(v5) => exists|r6: Result<A6::Output, ParseError>| #[trigger] self.inner.6.gives(ctx, r6) && match r6 {
                                    Err(e) => r == Err::<(A0::Output, A1::Output, A2::Output, A3::Output, A4::Output, A5::Output, A6::Output, A7::Output, A8::Output, A9::Output, A10::Output, A11::Output), _>(e),
                                    Ok(v6) => exists|r7: Result<A7::Output, ParseError>| #[trigger] self.inner.7.gives(ctx, r7) && match r7 {
                                        Err(e) => r == Err::<(A0::Output, A1::Output, A2::Output, A3::Output, A4::Output, A5::Output, A6::Output, A7::Output, A8::Output, A9::Output, A10::Output, A11::Output), _>(e),
                                        Ok(v7) => exists|r8: Result<A8::Output, ParseError>| #[trigger] self.inner.8.gives(ctx, r8) && match r8 {
                                            Err(e) => r == Err::<(A0::Output, A1::Output, A2::Output, A3::Output, A4::Output, A5::Output, A6::Output, A7::Output, A8::Output, A9::Output, A10::Output, A11::Output), _>(e),
                                            Ok(v8) => exists|r9: Result<A9::Output, ParseError>| #[trigger] self.inner.9.gives(ctx, r9) && match r9 {
                                                Err(e) => r == Err::<(A0::Output, A1::Output, A2::Output, A3::Output, A4::Output, A5::Output, A6::Output, A7::Output, A8::Output, A9::Output, A10::Output, A11::Output), _>(e),
                                                Ok(v9) => exists|r10: Result<A10::Output, ParseError>| #[trigger] self.inner.10.gives(ctx, r10) && match r10 {
                                                    Err(e) => r == Err::<(A0::Output, A1::Output, A2::Output, A3::Output, A4::Output, A5::Output, A6::Output, A7::Output, A8::Output, A9::Output, A10::Output, A11::Output), _>(e),
                                                    Ok(v10) => exists|r11: Result<A11::Output, ParseError>| #[trigger] self.inner.11.gives(ctx, r11) && match r11 {
                                                        Err(e) => r == Err::<(A0::Output, A1::Output, A2::Output, A3::Output, A4::Output, A5::Output, A6::Output, A7::Output, A8::Output, A9::Output, A10::Output, A11::Output), _>(e),
                                                        Ok(v11) => r == Ok::<_, ParseError>((v0, v1, v2, v3, v4, v5, v6, v7, v8, v9, v10, v11)),
                                                    },
                                                },
                                            },
                                        },
                                    },
                                },
                            },
                        },
                    },
                },
            },
        }
    }

    fn go(&self, ctx: &FileCtx<S>) -> (r: Result<(A0::Output, A1::Output, A2::Output, A3::Output, A4::Output, A5::Output, A6::Output, A7::Output, A8::Output, A9::Output, A10::Output, A11::Output), ParseError>) {
        let g0 = self.inner.0.go(ctx);
        let ghost h0 = g0;
        assert(self.inner.0.gives(*ctx, h0));
        let v0 = match g0 { Err(e) => { return Err(e); }, Ok(v) => v, };
        let g1 = self.inner.1.go(ctx);
        let ghost h1 = g1;
        assert(self.inner.1.gives(*ctx, h1));
        let v1 = match g1 { Err(e) => { return Err(e); }, Ok(v) => v, };
        let g2 = self.inner.2.go(ctx);
        let ghost h2 = g2;
        assert(self.inner.2.gives(*ctx, h2));
        let v2 = match g2 { Err(e) => { return Err(e); }, Ok(v) => v, };
        let g3 = self.inner.3.go(ctx);
        let ghost h3 = g3;
        assert(self.inner.3.gives(*ctx, h3));
        let v3 = match g3 { Err(e) => { return Err(e); }, Ok(v) => v, };
        let g4 = self.inner.4.go(ctx);
        let ghost h4 = g4;
        assert(self.inner.4.gives(*ctx, h4));
        let v4 = match g4 { Err(e) => { return Err(e); }, Ok(v) => v, };
        let g5 = self.inner.5.go(ctx);
        let ghost h5 = g5;
        assert(self.inner.5.gives(*ctx, h5));
        let v5 = match g5 { Err(e) => { return Err(e); }, Ok(v) => v, };
        let g6 = self.inner.6.go(ctx);
        let ghost h6 = g6;
        assert(self.inner.6.gives(*ctx, h6));
        let v6 = match g6 { Err(e) => { return Err(e); }, Ok(v) => v, };
        let g7 = self.inner.7.go(ctx);
        let ghost h7 = g7;
        assert(self.inner.7.gives(*ctx, h7));
        let v7 = match g7 { Err(e) => { return Err(e); }, Ok(v) => v, };
        let g8 = self.inner.8.go(ctx);
        let ghost h8 = g8;
        assert(self.inner.8.gives(*ctx, h8));
        let v8 = match g8 { Err(e) => { return Err(e); }, Ok(v) => v, };
        let g9 = self.inner.9.go(ctx);
        let ghost h9 = g9;
        assert(self.inner.9.gives(*ctx, h9));
        let v9 = match g9 { Err(e) => { return Err(e); }, Ok(v) => v, };
        let g10 = self.inner.10.go(ctx);
        let ghost h10 = g10;
        assert(self.inner.10.gives(*ctx, h10));
        let v10 = match g10 { Err(e) => { return Err(e); }, Ok(v) => v, };
        let g11 = self.inner.11.go(ctx);
        let ghost h11 = g11;
        assert(self.inner.11.gives(*ctx, h11));
        let v11 = match g11 { Err(e) => { return Err(e); }, Ok(v) => v, };
        Ok((v0, v1, v2, v3, v4, v5, v6, v7, v8, v9, v10, v11))
    }
}

impl<S, A0: Reader<S>, A1: Reader<S>, A2: Reader<S>, A3: Reader<S>, A4: Reader<S>, A5: Reader<S>, A6: Reader<S>, A7: Reader<S>, A8: Reader<S>, A9: Reader<S>, A10: Reader<S>, A11: Reader<S>, A12: Reader<S>> Reader<S> for Group<(A0, A1, A2, A3, A4, A5, A6, A7, A8, A9, A10, A11, A12)> {
    type Output = (A0::Output, A1::Output, A2::Output, A3::Output, A4::Output, A5::Output, A6::Output, A7::Output, A8::Output, A9::Output, A10::Output, A11::Output, A12::Output);

    open spec fn ready(&self) -> bool {
        self.inner.0.ready() && self.inner.1.ready() && self.inner.2.ready() && self.inner.3.ready() && self.inner.4.ready() && self.inner.5.ready() && self.inner.6.ready() && self.inner.7.ready() && self.inner.8.ready() && self.inner.9.ready() && self.inner.10.ready() && self.inner.11.ready() && self.inner.12.ready()
    }

    open spec fn runs(&self, pre: FileCtx<S>, post: FileCtx<S>, r: Result<(A0::Output, A1::Output, A2::Output, A3::Output, A4::Output, A5::Output, A6::Output, A7::Output, A8::Output, A9::Output, A10::Output, A11::Output, A12::Output), ParseError>) -> bool {
        exists|m0: FileCtx<S>, r0: Result<A0::Output, ParseError>| #[trigger] self.inner.0.runs(pre, m0, r0) && match r0 {
            Err(e) => post == m0 && r == Err::<(A0::Output, A1::Output, A2::Output, A3::Output, A4::Output, A5::Output, A6::Output, A7::Output, A8::Output, A9::Output, A10::Output, A11::Output, A12::Output), _>(e),
            Ok(v0) => exists|m1: FileCtx<S>, r1: Result<A1::Output, ParseError>| #[trigger] self.inner.1.runs(m0, m1, r1) && match r1 {
                Err(e) => post == m1 && r == Err::<(A0::Output, A1::Output, A2::Output, A3::Output, A4::Output, A5::Output, A6::Output, A7::Output, A8::Output, A9::Output, A10::Output, A11::Output, A12::Output), _>(e),
                Ok(v1) => exists|m2: FileCtx<S>, r2: Result<A2::Output, ParseError>| #[trigger] self.inner.2.runs(m1, m2, r2) && match r2 {
                    Err(e) => post == m2 && r == Err::<(A0::Output, A1::Output, A2::Output, A3::Output, A4::Output, A5::Output, A6::Output, A7::Output, A8::Output, A9::Output, A10::Output, A11::Output, A12::Output), _>(e),
                    Ok(v2) => exists|m3: FileCtx<S>, r3: Result<A3::Output, ParseError>| #[trigger] self.inner.3.runs(m2, m3, r3) && match r3 {
                        Err(e) => post == m3 && r == Err::<(A0::Output, A1::Output, A2::Output, A3::Output, A4::Output, A5::Output, A6::Output, A7::Output, A8::Output, A9::Output, A10::Output, A11::Output, A12::Output), _>(e),
                        Ok(v3) => exists|m4: FileCtx<S>, r4: Result<A4::Output, ParseError>| #[trigger] self.inner.4.runs(m3, m4, r4) && match r4 {
                            Err(e) => post == m4 && r == Err::<(A0::Output, A1::Output, A2::Output, A3::Output, A4::Output, A5::Output, A6::Output, A7::Output, A8::Output, A9::Output, A10::Output, A11::Output, A12::Output), _>(e),
                            Ok(v4) => exists|m5: FileCtx<S>, r5: Result<A5::Output, ParseError>| #[trigger] self.inner.5.runs(m4, m5, r5) && match r5 {
                                Err(e) => post == m5 && r == Err::<(A0::Output, A1::Output, A2::Output, A3::Output, A4::Output, A5::Output, A6::Output, A7::Output, A8::Output, A9::Output, A10::Output, A11::Output, A12::Output), _>(e),
                                Ok(v5) => exists|m6: FileCtx<S>, r6: Result<A6::Output, ParseError>| #[trigger] self.inner.6.runs(m5, m6, r6) && match r6 {
                                    Err(e) => post == m6 && r == Err::<(A0::Output, A1::Output, A2::Output, A3::Output, A4::Output, A5::Output, A6::Output, A7::Output, A8::Output, A9::Output, A10::Output, A11::Output, A12::Output), _>(e),
                                    Ok(v6) => exists|m7: FileCtx<S>, r7: Result<A7::Output, ParseError>| #[trigger] self.inner.7.runs(m6, m7, r7) && match r7 {
                                        Err(e) => post == m7 && r == Err::<(A0::Output, A1::Output, A2::Output, A3::Output, A4::Output, A5::Output, A6::Output, A7::Output, A8::Output, A9::Output, A10::Output, A11::Output, A12::Output), _>(e),
                                        Ok(v7) => exists|m8: FileCtx<S>, r8: Result<A8::Output, ParseError>| #[trigger] self.inner.8.runs(m7, m8, r8) && match r8 {
                                            Err(e) => post == m8 && r == Err::<(A0::Output, A1::Output, A2::Output, A3::Output, A4::Output, A5::Output, A6::Output, A7::Output, A8::Output, A9::Output, A10::Output, A11::Output, A12::Output), _>(e),
                                            Ok(v8) => exists|m9: FileCtx<S>, r9: Result<A9::Output, ParseError>| #[trigger] self.inner.9.runs(m8, m9, r9) && match r9 {
                                                Err(e) => post == m9 && r == Err::<(A0::Output, A1::Output, A2::Output, A3::Output, A4::Output, A5::Output, A6::Output, A7::Output, A8::Output, A9::Output, A10::Output, A11::Output, A12::Output), _>(e),
                                                Ok(v9) => exists|m10: FileCtx<S>, r10: Result<A10::Output, ParseError>| #[trigger] self.inner.10.runs(m9, m10, r10) && match r10 {
                                                    Err(e) => post == m10 && r == Err::<(A0::Output, A1::Output, A2::Output, A3::Output, A4::Output, A5::Output, A6::Output, A7::Output, A8::Output, A9::Output, A10::Output, A11::Output, A12::Output), _>(e),
                                                    Ok(v10) => exists|m11: FileCtx<S>, r11: Result<A11::Output, ParseError>| #[trigger] self.inner.11.runs(m10, m11, r11) && match r11 {
                                                        Err(e) => post == m11 && r == Err::<(A0::Output, A1::Output, A2::Output, A3::Output, A4::Output, A5::Output, A6::Output, A7::Output, A8::Output, A9::Output, A10::Output, A11::Output, A12::Output), _>(e),
                                                        Ok(v11) => exists|r12: Result<A12::Output, ParseError>| #[trigger] self.inner.12.runs(m11, post, r12) && match r12 {
                                                            Err(e) => r == Err::<(A0::Output, A1::Output, A2::Output, A3::Output, A4::Output, A5::Output, A6::Output, A7::Output, A8::Output, A9::Output, A10::Output, A11::Output, A12::Output), _>(e),
                                                            Ok(v12) => r == Ok::<_, ParseError>((v0, v1, v2, v3, v4, v5, v6, v7, v8, v9, v10, v11, v12)),
                                                        },
                                                    },
                                                },
                                            },
                                        },
                                    },
                                },
                            },
                        },
                    },
                },
            },
        }
    }

    fn go(&self, ctx: &mut FileCtx<S>) -> (r: Result<(A0::Output, A1::Output, A2::Output, A3::Output, A4::Output, A5::Output, A6::Output, A7::Output, A8::Output, A9::Output, A10::Output, A11::Output, A12::Output), ParseError>) {
        let ghost s0 = *ctx;
        let g0 = self.inner.0.go(ctx);
        let ghost h0 = g0;
        let ghost s1 = *ctx;
        assert(self.inner.0.runs(s0, s1, h0));
        let v0 = match g0 { Err(e) => { return Err(e); }, Ok(v) => v, };
        let g1 = self.inner.1.go(ctx);
        let ghost h1 = g1;
        let ghost s2 = *ctx;
        assert(self.inner.1.runs(s1, s2, h1));
        let v1 = match g1 { Err(e) => { return Err(e); }, Ok(v) => v, };
        let g2 = self.inner.2.go(ctx);
        let ghost h2 = g2;
        let ghost s3 = *ctx;
        assert(self.inner.2.runs(s2, s3, h2));
        let v2 = match g2 { Err(e) => { return Err(e); }, Ok(v) => v, };
        let g3 = self.inner.3.go(ctx);
        let ghost h3 = g3;
        let ghost s4 = *ctx;
        assert(self.inner.3.runs(s3, s4, h3));
        let v3 = match g3 { Err(e) => { return Err(e); }, Ok(v) => v, };
        let g4 = self.inner.4.go(ctx);
        let ghost h4 = g4;
        let ghost s5 = *ctx;
        assert(self.inner.4.runs(s4, s5, h4));
        let v4 = match g4 { Err(e) => { return Err(e); }, Ok(v) => v, };
        let g5 = self.inner.5.go(ctx);
        let ghost h5 = g5;
        let ghost s6 = *ctx;
        assert(self.inner.5.runs(s5, s6, h5));
        let v5 = match g5 { Err(e) => { return Err(e); }, Ok(v) => v, };
        let g6 = self.inner.6.go(ctx);
        let ghost h6 = g6;
        let ghost s7 = *ctx;
        assert(self.inner.6.runs(s6, s7, h6));
        let v6 = match g6 { Err(e) => { return Err(e); }, Ok(v) => v, };
        let g7 = self.inner.7.go(ctx);
        let ghost h7 = g7;
        let ghost s8 = *ctx;
        assert(self.inner.7.runs(s7, s8, h7));
        let v7 = match g7 { Err(e) => { return Err(e); }, Ok(v) => v, };
        let g8 = self.inner.8.go(ctx);
        let ghost h8 = g8;
        let ghost s9 = *ctx;
        assert(self.inner.8.runs(s8, s9, h8));
        let v8 = match g8 { Err(e) => { return Err(e); }, Ok(v) => v, };
        let g9 = self.inner.9.go(ctx);
        let ghost h9 = g9;
        let ghost s10 = *ctx;
        assert(self.inner.9.runs(s9, s10, h9));
        let v9 = match g9 { Err(e) => { return Err(e); }, Ok(v) => v, };
        let g10 = self.inner.10.go(ctx);
        let ghost h10 = g10;
        let ghost s11 = *ctx;
        assert(self.inner.10.runs(s10, s11, h10));
        let v10 = match g10 { Err(e) => { return Err(e); }, Ok(v) => v, };
        let g11 = self.inner.11.go(ctx);
        let ghost h11 = g11;
        let ghost s12 = *ctx;
        assert(self.inner.11.runs(s11, s12, h11));
        let v11 = match g11 { Err(e) => { return Err(e); }, Ok(v) => v, };
        let g12 = self.inner.12.go(ctx);
        let ghost h12 = g12;
        let ghost s13 = *ctx;
        assert(self.inner.12.runs(s12, s13, h12));
        let v12 = match g12 { Err(e) => { return Err(e); }, Ok(v) => v, };
        Ok((v0, v1, v2, v3, v4, v5, v6, v7, v8, v9, v10, v11, v12))
    }
}

impl<S, A0: Action<S>, A1: Action<S>, A2: Action<S>, A3: Action<S>, A4: Action<S>, A5: Action<S>, A6: Action<S>, A7: Action<S>, A8: Action<S>, A9: Action<S>, A10: Action<S>, A11: Action<S>, A12: Action<S>> Action<S> for Group<(A0, A1, A2, A3, A4, A5, A6, A7, A8, A9, A10, A11, A12)> {
    type Output = (A0::Output, A1::Output, A2::Output, A3::Output, A4::Output, A5::Output, A6::Output, A7::Output, A8::Output, A9::Output, A10::Output, A11::Output, A12::Output);

    open spec fn ready(&self) -> bool {
        self.inner.0.ready() && self.inner.1.ready() && self.inner.2.ready() && self.inner.3.ready() && self.inner.4.ready() && self.inner.5.ready() && self.inner.6.ready() && self.inner.7.ready() && self.inner.8.ready() && self.inner.9.ready() && self.inner.10.ready() && self.inner.11.ready() && self.inner.12.ready()
    }

    open spec fn gives(&self, ctx: FileCtx<S>, r: Result<(A0::Output, A1::Output, A2::Output, A3::Output, A4::Output, A5::Output, A6::Output, A7::Output, A8::Output, A9::Output, A10::Output, A11::Output, A12::Output), ParseError>) -> bool {
        exists|r0: Result<A0::Output, ParseError>| #[trigger] self.inner.0.gives(ctx, r0) && match r0 {
            Err(e) => r == Err::<(A0::Output, A1::Output, A2::Output, A3::Output, A4::Output, A5::Output, A6::Output, A7::Output, A8::Output, A9::Output, A10::Output, A11::Output, A12::Output), _>(e),
            Ok(v0) => exists|r1: Result<A1::Output, ParseError>| #[trigger] self.inner.1.gives(ctx, r1) && match r1 {
                Err(e) => r == Err::<(A0::Output, A1::Output, A2::Output, A3::Output, A4::Output, A5::Output, A6::Output, A7::Output, A8::Output, A9::Output, A10::Output, A11::Output, A12::Output), _>(e),
                Ok(v1) => exists|r2: Result<A2::Output, ParseError>| #[trigger] self.inner.2.gives(ctx, r2) && match r2 {
                    Err(e) => r == Err::<(A0::Output, A1::Output, A2::Output, A3::Output, A4::Output, A5::Output, A6::Output, A7::Output, A8::Output, A9::Output, A10::Output, A11::Output, A12::Output), _>(e),
                    Ok(v2) => exists|r3: Result<A3::Output, ParseError>| #[trigger] self.inner.3.gives(ctx, r3) && match r3 {
                        Err(e) => r == Err::<(A0::Output, A1::Output, A2::Output, A3::Output, A4::Output, A5::Output, A6::Output, A7::Output, A8::Output, A9::Output, A10::Output, A11::Output, A12::Output), _>(e),
                        Ok(v3) => exists|r4: Result<A4::Output, ParseError>| #[trigger] self.inner.4.gives(ctx, r4) && match r4 {
                            Err(e) => r == Err::<(A0::Output, A1::Output, A2::Output, A3::Output, A4::Output, A5::Output, A6::Output, A7::Output, A8::Output, A9::Output, A10::Output, A11::Output, A12::Output), _>(e),
                            Ok(v4) => exists|r5: Result<A5::Output, ParseError>| #[trigger] self.inner.5.gives(ctx, r5) && match r5 {
                                Err(e) => r == Err::<(A0::Output, A1::Output, A2::Output, A3::Output, A4::Output, A5::Output, A6::Output, A7::Output, A8::Output, A9::Output, A10::Output, A11::Output, A12::Output), _>(e),
                                Ok(v5) => exists|r6: Result<A6::Output, ParseError>| #[trigger] self.inner.6.gives(ctx, r6) && match r6 {
                                    Err(e) => r == Err::<(A0::Output, A1::Output, A2::Output, A3::Output, A4::Output, A5::Output, A6::Output, A7::Output, A8::Output, A9::Output, A10::Output, A11::Output, A12::Output), _>(e),
                                    Ok(v6) => exists|r7: Result<A7::Output, ParseError>| #[trigger] self.inner.7.gives(ctx, r7) && match r7 {
                                        Err(e) => r == Err::<(A0::Output, A1::Output, A2::Output, A3::Output, A4::Output, A5::Output, A6::Output, A7::Output, A8::Output, A9::Output, A10::Output, A11::Output, A12::Output), _>(e),
                                        Ok(v7) => exists|r8: Result<A8::Output, ParseError>| #[trigger] self.inner.8.gives(ctx, r8) && match r8 {
                                            Err(e) => r == Err::<(A0::Output, A1::Output, A2::Output, A3::Output, A4::Output, A5::Output, A6::Output, A7::Output, A8::Output, A9::Output, A10::Output, A11::Output, A12::Output), _>(e),
                                            Ok(v8) => exists|r9: Result<A9::Output, ParseError>| #[trigger] self.inner.9.gives(ctx, r9) && match r9 {
                                                Err(e) => r == Err::<(A0::Output, A1::Output, A2::Output, A3::Output, A4::Output, A5::Output, A6::Output, A7::Output, A8::Output, A9::Output, A10::Output, A11::Output, A12::Output), _>(e),
                                                Ok(v9) => exists|r10: Result<A10::Output, ParseError>| #[trigger] self.inner.10.gives(ctx, r10) && match r10 {
                                                    Err(e) => r == Err::<(A0::Output, A1::Output, A2::Output, A3::Output, A4::Output, A5::Output, A6::Output, A7::Output, A8::Output, A9::Output, A10::Output, A11::Output, A12::Output), _>(e),
                                                    Ok(v10) => exists|r11: Result<A11::Output, ParseError>| #[trigger] self.inner.11.gives(ctx, r11) && match r11 {
                                                        Err(e) => r == Err::<(A0::Output, A1::Output, A2::Output, A3::Output, A4::Output, A5::Output, A6::Output, A7::Output, A8::Output, A9::Output, A10::Output, A11::Output, A12::Output), _>(e),
                                                        Ok(v11) => exists|r12: Result<A12::Output, ParseError>| #[trigger] self.inner.12.gives(ctx, r12) && match r12 {
                                                            Err(e) => r == Err::<(A0::Output, A1::Output, A2::Output, A3::Output, A4::Output, A5::Output, A6::Output, A7::Output, A8::Output, A9::Output, A10::Output, A11::Output, A12::Output), _>(e),
                                                            Ok(v12) => r == Ok::<_, ParseError>((v0, v1, v2, v3, v4, v5, v6, v7, v8, v9, v10, v11, v12)),
                                                        },
                                                    },
                                                },
                                            },
                                        },
                                    },
                                },
                            },
                        },
                    },
                },
            },
        }
    }

    fn go(&self, ctx: &FileCtx<S>) -> (r: Result<(A0::Output, A1::Output, A2::Output, A3::Output, A4::Output, A5::Output, A6::Output, A7::Output, A8::Output, A9::Output, A10::Output, A11::Output, A12::Output), ParseError>) {
        let g0 = self.inner.0.go(ctx);
        let ghost h0 = g0;
        assert(self.inner.0.gives(*ctx, h0));
        let v0 = match g0 { Err(e) => { return Err(e); }, Ok(v) => v, };
        let g1 = self.inner.1.go(ctx);
        let ghost h1 = g1;
        assert(self.inner.1.gives(*ctx, h1));
        let v1 = match g1 { Err(e) => { return Err(e); }, Ok(v) => v, };
        let g2 = self.inner.2.go(ctx);
        let ghost h2 = g2;
        assert(self.inner.2.gives(*ctx, h2));
        let v2 = match g2 { Err(e) => { return Err(e); }, Ok(v) => v, };
        let g3 = self.inner.3.go(ctx);
        let ghost h3 = g3;
        assert(self.inner.3.gives(*ctx, h3));
        let v3 = match g3 { Err(e) => { return Err(e); }, Ok(v) => v, };
        let g4 = self.inner.4.go(ctx);
        let ghost h4 = g4;
        assert(self.inner.4.gives(*ctx, h4));
        let v4 = match g4 { Err(e) => { return Err(e); }, Ok(v) => v, };
        let g5 = self.inner.5.go(ctx);
        let ghost h5 = g5;
        assert(self.inner.5.gives(*ctx, h5));
        let v5 = match g5 { Err(e) => { return Err(e); }, Ok(v) => v, };
        let g6 = self.inner.6.go(ctx);
        let ghost h6 = g6;
        assert(self.inner.6.gives(*ctx, h6));
        let v6 = match g6 { Err(e) => { return Err(e); }, Ok(v) => v, };
        let g7 = self.inner.7.go(ctx);
        let ghost h7 = g7;
        assert(self.inner.7.gives(*ctx, h7));
        let v7 = match g7 { Err(e) => { return Err(e); }, Ok(v) => v, };
        let g8 = self.inner.8.go(ctx);
        let ghost h8 = g8;
        assert(self.inner.8.gives(*ctx, h8));
        let v8 = match g8 { Err(e) => { return Err(e); }, Ok(v) => v, };
        let g9 = self.inner.9.go(ctx);
        let ghost h9 = g9;
        assert(self.inner.9.gives(*ctx, h9));
        let v9 = match g9 { Err(e) => { return Err(e); }, Ok(v) => v, };
        let g10 = self.inner.10.go(ctx);
        let ghost h10 = g10;
        assert(self.inner.10.gives(*ctx, h10));
        let v10 = match g10 { Err(e) => { return Err(e); }, Ok(v) => v, };
        let g11 = self.inner.11.go(ctx);
        let ghost h11 = g11;
        assert(self.inner.11.gives(*ctx, h11));
        let v11 = match g11 { Err(e) => { return Err(e); }, Ok(v) => v, };
        let g12 = self.inner.12.go(ctx);
        let ghost h12 = g12;
        assert(self.inner.12.gives(*ctx, h12));
        let v12 = match g12 { Err(e) => { return Err(e); }, Ok(v) => v, };
        Ok((v0, v1, v2, v3, v4, v5, v6, v7, v8, v9, v10, v11, v12))
    }
}

impl<S, A0: Reader<S>> Reader<S> for Group<(A0,)> {
    type Output = (A0::Output,);

    open spec fn ready(&self) -> bool {
        self.inner.0.ready()
    }

    open spec fn runs(&self, pre: FileCtx<S>, post: FileCtx<S>, r: Result<(A0::Output,), ParseError>) -> bool {
        exists|r0: Result<A0::Output, ParseError>| #[trigger] self.inner.0.runs(pre, post, r0) && match r0 {
            Err(e) => r == Err::<(A0::Output,), _>(e),
            Ok(v0) => r == Ok::<_, ParseError>((v0,)),
        }
    }

    fn go(&self, ctx: &mut FileCtx<S>) -> (r: Result<(A0::Output,), ParseError>) {
        let ghost s0 = *ctx;
        let g0 = self.inner.0.go(ctx);
        let ghost h0 = g0;
        let ghost s1 = *ctx;
        assert(self.inner.0.runs(s0, s1, h0));
        let v0 = match g0 { Err(e) => { return Err(e); }, Ok(v) => v, };
        Ok((v0,))
    }
}

impl<S, A0: Action<S>> Action<S> for Group<(A0,)> {
    type Output = (A0::Output,);

    open spec fn ready(&self) -> bool {
        self.inner.0.ready()
    }

    open spec fn gives(&self, ctx: FileCtx<S>, r: Result<(A0::Output,), ParseError>) -> bool {
        exists|r0: Result<A0::Output, ParseError>| #[trigger] self.inner.0.gives(ctx, r0) && match r0 {
            Err(e) => r == Err::<(A0::Output,), _>(e),
            Ok(v0) => r == Ok::<_, ParseError>((v0,)),
        }
    }

    fn go(&self, ctx: &FileCtx<S>) -> (r: Result<(A0::Output,), ParseError>) {
        let g0 = self.inner.0.go(ctx);
        let ghost h0 = g0;
        assert(self.inner.0.gives(*ctx, h0));
        let v0 = match g0 { Err(e) => { return Err(e); }, Ok(v) => v, };
        Ok((v0,))
    }
}

/// A group of the members of the tuple `members`, of one to thirteen members; a group is itself
/// a member, so larger tuples are written as groups of groups.
pub fn group<T>(members: T) -> (r: Group<T>)
    ensures
        r.inner == members,
{
    Group { inner: members }
}

} // verus!
