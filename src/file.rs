//! The byte source of a parse: the whole input in memory, a position, and a record of which
//! bytes were read.
use vstd::prelude::*;
use crate::error::ParseError;
use crate::multi_range::{range_set, MultiRange};

verus! {

/// The byte order of a multi-byte number.
#[derive(Clone, Copy, Debug, PartialEq, Eq, Structural)]
pub enum Endian {
    Big,
    Little,
}

/// How a diagnostic is reported.
#[derive(Clone, Copy, Debug, PartialEq, Eq, Structural)]
pub enum LintLevel {
    Ignore,
    Warn,
    Error,
}

/// The level of each diagnostic.
#[derive(Clone, Copy, Debug, PartialEq, Eq, Structural)]
pub struct ParseLints {
    /// Bytes of the source that no read covered.
    pub on_unused: LintLevel,
    /// Bytes read more than once; configurable, but no read reports it yet.
    pub on_overlap: LintLevel,
}

impl Default for ParseLints {
    fn default() -> (r: ParseLints)
        ensures
            r == (ParseLints { on_unused: LintLevel::Ignore, on_overlap: LintLevel::Error }),
    {
        ParseLints { on_unused: LintLevel::Ignore, on_overlap: LintLevel::Error }
    }
}

/// Configures and opens a [`ParseFile`].
pub struct ParseBuilder {
    lints: ParseLints,
}

impl Default for ParseBuilder {
    fn default() -> (r: ParseBuilder)
        ensures
            r.lints() == ParseLints::default_spec(),
    {
        ParseBuilder { lints: ParseLints::default() }
    }
}

impl ParseLints {
    /// The default levels: unused bytes are ignored, overlapping reads are errors.
    pub open spec fn default_spec() -> ParseLints {
        ParseLints { on_unused: LintLevel::Ignore, on_overlap: LintLevel::Error }
    }
}

impl ParseBuilder {
    pub closed spec fn lints(&self) -> ParseLints {
        self.lints
    }

    /// Sets the level of the unused-bytes diagnostic.
    pub fn on_unused(self, level: LintLevel) -> (r: ParseBuilder)
        ensures
            r.lints() == (ParseLints { on_unused: level, ..self.lints() }),
    {
        ParseBuilder { lints: ParseLints { on_unused: level, on_overlap: self.lints.on_overlap } }
    }

    /// Sets the level of the overlapping-reads diagnostic.
    pub fn on_overlap(self, level: LintLevel) -> (r: ParseBuilder)
        ensures
            r.lints() == (ParseLints { on_overlap: level, ..self.lints() }),
    {
        ParseBuilder { lints: ParseLints { on_unused: self.lints.on_unused, on_overlap: level } }
    }

    /// Opens the byte source `data`, positioned at its start, with nothing read yet.
    pub fn finish(self, data: Vec<u8>) -> (r: ParseFile)
        ensures
            r.wf(),
            r.data() == data@,
            r.pos() == 0,
            r.used() == Set::<int>::empty(),
            r.lints() == self.lints(),
    {
        ParseFile { inner: data, stream_pos: 0, lints: self.lints, used: MultiRange::new() }
    }
}

/// A seekable byte source of known length.
pub struct ParseFile {
    inner: Vec<u8>,
    stream_pos: usize,
    lints: ParseLints,
    used: MultiRange,
}

impl ParseFile {
    pub closed spec fn wf(&self) -> bool {
        self.used.wf()
    }

    /// The bytes of the source.
    pub closed spec fn data(&self) -> Seq<u8> {
        self.inner@
    }

    /// The current absolute offset.
    pub closed spec fn pos(&self) -> usize {
        self.stream_pos
    }

    /// The offsets read so far.
    pub closed spec fn used(&self) -> Set<int> {
        self.used@
    }

    pub closed spec fn lints(&self) -> ParseLints {
        self.lints
    }

    /// The same source, moved to `offset`.
    pub closed spec fn at(self, offset: usize) -> ParseFile {
        ParseFile { stream_pos: offset, ..self }
    }

    pub broadcast proof fn lemma_at(self, offset: usize)
        ensures
            #[trigger] self.at(offset).pos() == offset,
            self.at(offset).data() == self.data(),
            self.at(offset).used() == self.used(),
            self.at(offset).lints() == self.lints(),
            self.at(offset).wf() == self.wf(),
    {
    }

    /// Moving twice is moving to the last offset: the earlier position is forgotten.
    pub proof fn lemma_at_at(self, first: usize, offset: usize)
        ensures
            self.at(first).at(offset) == self.at(offset),
    {
    }

    /// Whether every byte of the source was read.
    pub open spec fn fully_used(&self) -> bool {
        range_set(0, self.data().len() as int).subset_of(self.used())
    }

    /// A builder with the default diagnostic levels.
    pub fn build() -> (r: ParseBuilder)
        ensures
            r.lints() == ParseLints::default_spec(),
    {
        ParseBuilder::default()
    }

    /// Opens `data` with the default diagnostic levels.
    pub fn open(data: Vec<u8>) -> (r: ParseFile)
        ensures
            r.wf(),
            r.data() == data@,
            r.pos() == 0,
            r.used() == Set::<int>::empty(),
            r.lints() == ParseLints::default_spec(),
    {
        Self::build().finish(data)
    }

    /// The length of the source.
    pub fn len(&self) -> (r: usize)
        ensures
            r == self.data().len(),
    {
        self.inner.len()
    }

    /// The current absolute offset.
    pub fn cur_pos(&self) -> (r: usize)
        ensures
            r == self.pos(),
    {
        self.stream_pos
    }

    /// Whether the offset `x` was read.
    pub fn was_read(&self, x: usize) -> (r: bool)
        requires
            self.wf(),
        ensures
            r == self.used().contains(x as int),
    {
        self.used.covered(x)
    }

    /// Reads `n` bytes at the current offset and moves past them, recording them as read.
    /// Fails, changing nothing, when fewer than `n` bytes remain.
    pub fn consume_bytes(&mut self, n: usize) -> (r: Result<Vec<u8>, ParseError>)
        requires
            old(self).wf(),
        ensures
            final(self).wf(),
            final(self).data() == old(self).data(),
            final(self).lints() == old(self).lints(),
            old(self).pos() + n <= old(self).data().len() <==> r.is_ok(),
            r matches Ok(b) ==> {
                &&& b@ == old(self).data().subrange(
                    old(self).pos() as int,
                    old(self).pos() + n,
                )
                &&& final(self).pos() == old(self).pos() + n
                &&& final(self).used() == old(self).used().union(
                    range_set(old(self).pos() as int, old(self).pos() + n),
                )
            },
            r matches Err(e) ==> *final(self) == *old(self) && e == (ParseError::UnexpectedEof {
                pos: old(self).pos(),
                wanted: n,
            }),
    {
        let pos = self.stream_pos;
        if pos > self.inner.len() || n > self.inner.len() - pos {
            return Err(ParseError::UnexpectedEof { pos, wanted: n });
        }
        let len = self.inner.len();
        let mut out: Vec<u8> = Vec::new();
        let mut i: usize = 0;
        while i < n
            invariant
                len == self.inner@.len(),
                pos + n <= len,
                i <= n,
                out@ == self.inner@.subrange(pos as int, pos + i),
            decreases n - i,
        {
            out.push(self.inner[pos + i]);
            i = i + 1;
        }
        self.used.insert(pos..pos + n);
        self.stream_pos = pos + n;
        Ok(out)
    }

    /// The `n` bytes at the current offset, without moving past them or recording them as
    /// read. `None` when fewer than `n` bytes remain.
    pub fn peek_bytes(&self, n: usize) -> (r: Option<Vec<u8>>)
        ensures
            r is Some <==> self.pos() + n <= self.data().len(),
            r matches Some(b) ==> b@ == self.data().subrange(self.pos() as int, self.pos() + n),
    {
        let pos = self.stream_pos;
        let len = self.inner.len();
        if pos > len || n > len - pos {
            return None;
        }
        let mut out: Vec<u8> = Vec::new();
        let mut i: usize = 0;
        while i < n
            invariant
                len == self.inner@.len(),
                pos == self.stream_pos,
                pos + n <= len,
                i <= n,
                out@ == self.inner@.subrange(pos as int, pos + i),
            decreases n - i,
        {
            out.push(self.inner[pos + i]);
            i = i + 1;
        }
        Some(out)
    }

    /// Moves to the absolute offset `offset`. A later read past the end of the source fails.
    pub fn jump(&mut self, offset: usize)
        ensures
            *final(self) == old(self).at(offset),
    {
        self.stream_pos = offset;
    }

    /// Whether the unused-bytes diagnostic asks for a warning: some byte was never read and
    /// its level is `Warn`.
    pub fn should_warn_unused(&self) -> (r: bool)
        requires
            self.wf(),
        ensures
            r == (!self.fully_used() && self.lints().on_unused == LintLevel::Warn),
    {
        !self.used.covered(0..self.inner.len()) && self.lints.on_unused == LintLevel::Warn
    }

    /// Checks the coverage of the source once the parse is done: fails with `UnusedErr` when
    /// some byte was never read and the level of that diagnostic is `Error`.
    pub fn finish(&self) -> (r: Result<(), ParseError>)
        requires
            self.wf(),
        ensures
            r.is_err() <==> (!self.fully_used() && self.lints().on_unused == LintLevel::Error),
            r matches Err(e) ==> e == ParseError::UnusedErr,
    {
        if !self.used.covered(0..self.inner.len()) {
            match self.lints.on_unused {
                LintLevel::Ignore => Ok(()),
                LintLevel::Warn => Ok(()),
                LintLevel::Error => Err(ParseError::UnusedErr),
            }
        } else {
            Ok(())
        }
    }
}

} // verus!
