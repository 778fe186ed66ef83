//! Fixed-width values decoded from the byte source.
use vstd::prelude::*;
use crate::error::ParseError;
use crate::file::{Endian, ParseFile};
use crate::multi_range::range_set;

verus! {

/// `post` is `pre` after a successful read of `n` bytes at its offset.
pub open spec fn read_ok(pre: ParseFile, post: ParseFile, n: nat) -> bool {
    &&& pre.pos() + n <= pre.data().len()
    &&& post.wf() == pre.wf()
    &&& post.data() == pre.data()
    &&& post.lints() == pre.lints()
    &&& post.pos() == pre.pos() + n
    &&& post.used() == pre.used().union(range_set(pre.pos() as int, pre.pos() + n))
}

/// The `n` bytes at the offset of `f`.
pub open spec fn bytes_at(f: ParseFile, n: nat) -> Seq<u8> {
    f.data().subrange(f.pos() as int, f.pos() + n)
}

/// The outcome of reading a value `n` bytes wide from `pre`: on success `post` is `pre` after
/// the read; on failure nothing moved and the error tells where the source ended.
pub open spec fn read_rel<T>(pre: ParseFile, post: ParseFile, n: nat, r: Result<T, ParseError>) -> bool {
    match r {
        Ok(_) => read_ok(pre, post, n),
        Err(e) => pre.pos() + n > pre.data().len() && post == pre && e == (
        ParseError::UnexpectedEof { pos: pre.pos(), wanted: n as usize }),
    }
}

/// The big-endian value of two bytes.
pub open spec fn be2(b: Seq<u8>) -> int {
    b[0] * 256 + b[1]
}

/// The big-endian value of four bytes.
pub open spec fn be4(b: Seq<u8>) -> int {
    ((b[0] * 256 + b[1]) * 256 + b[2]) * 256 + b[3]
}

/// The big-endian value of eight bytes.
pub open spec fn be8(b: Seq<u8>) -> int {
    ((((((b[0] * 256 + b[1]) * 256 + b[2]) * 256 + b[3]) * 256 + b[4]) * 256 + b[5]) * 256 + b[6])
        * 256 + b[7]
}

/// The value of `b` read in the byte order `endian`.
pub open spec fn order(b: Seq<u8>, endian: Endian) -> Seq<u8> {
    match endian {
        Endian::Big => b,
        Endian::Little => b.reverse(),
    }
}

/// A value of fixed width that can be read from the byte source.
pub trait Consume: Sized {
    /// The number of bytes read.
    spec fn width() -> nat;

    /// The value that the bytes `b` encode in the byte order `endian`.
    spec fn decode(b: Seq<u8>, endian: Endian) -> Self;

    fn consume(file: &mut ParseFile, endian: Endian) -> (r: Result<Self, ParseError>)
        requires
            old(file).wf(),
        ensures
            final(file).wf(),
            read_rel(*old(file), *final(file), Self::width(), r),
            r matches Ok(v) ==> v == Self::decode(bytes_at(*old(file), Self::width()), endian),
    ;
}

impl Consume for u8 {
    open spec fn width() -> nat {
        1
    }

    open spec fn decode(b: Seq<u8>, endian: Endian) -> u8 {
        b[0]
    }

    fn consume(file: &mut ParseFile, endian: Endian) -> (r: Result<u8, ParseError>) {
        let b = file.consume_bytes(1)?;
        Ok(b[0])
    }
}

impl Consume for u16 {
    open spec fn width() -> nat {
        2
    }

    open spec fn decode(b: Seq<u8>, endian: Endian) -> u16 {
        be2(order(b, endian)) as u16
    }

    fn consume(file: &mut ParseFile, endian: Endian) -> (r: Result<u16, ParseError>) {
        let b = file.consume_bytes(2)?;
        let (hi, lo) = match endian {
            Endian::Big => (b[0], b[1]),
            Endian::Little => (b[1], b[0]),
        };
        proof {
            assert(order(b@, endian)[0] == hi && order(b@, endian)[1] == lo);
        }
        Ok(hi as u16 * 256 + lo as u16)
    }
}

impl Consume for u32 {
    open spec fn width() -> nat {
        4
    }

    open spec fn decode(b: Seq<u8>, endian: Endian) -> u32 {
        be4(order(b, endian)) as u32
    }

    fn consume(file: &mut ParseFile, endian: Endian) -> (r: Result<u32, ParseError>) {
        let b = file.consume_bytes(4)?;
        let (b0, b1, b2, b3) = match endian {
            Endian::Big => (b[0], b[1], b[2], b[3]),
            Endian::Little => (b[3], b[2], b[1], b[0]),
        };
        proof {
            let o = order(b@, endian);
            assert(o[0] == b0 && o[1] == b1 && o[2] == b2 && o[3] == b3);
        }
        Ok(((b0 as u32 * 256 + b1 as u32) * 256 + b2 as u32) * 256 + b3 as u32)
    }
}

impl Consume for u64 {
    open spec fn width() -> nat {
        8
    }

    open spec fn decode(b: Seq<u8>, endian: Endian) -> u64 {
        be8(order(b, endian)) as u64
    }

    fn consume(file: &mut ParseFile, endian: Endian) -> (r: Result<u64, ParseError>) {
        let b = file.consume_bytes(8)?;
        let (b0, b1, b2, b3, b4, b5, b6, b7) = match endian {
            Endian::Big => (b[0], b[1], b[2], b[3], b[4], b[5], b[6], b[7]),
            Endian::Little => (b[7], b[6], b[5], b[4], b[3], b[2], b[1], b[0]),
        };
        proof {
            let o = order(b@, endian);
            assert(o[0] == b0 && o[1] == b1 && o[2] == b2 && o[3] == b3);
            assert(o[4] == b4 && o[5] == b5 && o[6] == b6 && o[7] == b7);
        }
        Ok(((((((b0 as u64 * 256 + b1 as u64) * 256 + b2 as u64) * 256 + b3 as u64) * 256
            + b4 as u64) * 256 + b5 as u64) * 256 + b6 as u64) * 256 + b7 as u64)
    }
}

impl Consume for i8 {
    open spec fn width() -> nat {
        1
    }

    /// The byte read as a two's-complement number.
    open spec fn decode(b: Seq<u8>, endian: Endian) -> i8 {
        b[0] as i8
    }

    fn consume(file: &mut ParseFile, endian: Endian) -> (r: Result<i8, ParseError>) {
        let v = u8::consume(file, endian)?;
        Ok(v as i8)
    }
}

impl Consume for i16 {
    open spec fn width() -> nat {
        2
    }

    /// The unsigned value read as a two's-complement number.
    open spec fn decode(b: Seq<u8>, endian: Endian) -> i16 {
        u16::decode(b, endian) as i16
    }

    fn consume(file: &mut ParseFile, endian: Endian) -> (r: Result<i16, ParseError>) {
        let v = u16::consume(file, endian)?;
        Ok(v as i16)
    }
}

impl Consume for i32 {
    open spec fn width() -> nat {
        4
    }

    /// The unsigned value read as a two's-complement number.
    open spec fn decode(b: Seq<u8>, endian: Endian) -> i32 {
        u32::decode(b, endian) as i32
    }

    fn consume(file: &mut ParseFile, endian: Endian) -> (r: Result<i32, ParseError>) {
        let v = u32::consume(file, endian)?;
        Ok(v as i32)
    }
}

impl Consume for i64 {
    open spec fn width() -> nat {
        8
    }

    /// The unsigned value read as a two's-complement number.
    open spec fn decode(b: Seq<u8>, endian: Endian) -> i64 {
        u64::decode(b, endian) as i64
    }

    fn consume(file: &mut ParseFile, endian: Endian) -> (r: Result<i64, ParseError>) {
        let v = u64::consume(file, endian)?;
        Ok(v as i64)
    }
}

} // verus!
