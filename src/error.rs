//! The errors of a parse.
use vstd::prelude::*;

verus! {

/// Why a parse failed.
#[derive(Debug)]
pub enum ParseError {
    /// The byte source ended before a read of `wanted` bytes at offset `pos` could complete.
    UnexpectedEof { pos: usize, wanted: usize },
    /// Some bytes of the source were never read, and the lint level asks for an error.
    UnusedErr,
    /// Bytes were read twice, and the lint level asks for an error.
    OverlapErr,
    /// A value of the named type was memorized already.
    AlreadyMemorized(&'static str),
    /// No value of the named type was memorized.
    NotMemorized(&'static str),
    /// The memorized value of the named type was taken out already.
    TakenMemorized(&'static str),
    /// No current value of the named type was set.
    NotCurrent(&'static str),
    /// A tag check read `actual` where `expected` was required.
    TagMismatch { expected: Vec<u8>, actual: Vec<u8> },
    /// A failure described by a message.
    Custom(String),
}

} // verus!
