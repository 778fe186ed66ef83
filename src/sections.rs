//! A small format of independent sections: a big-endian section count, then that many table
//! entries of a big-endian offset and length, then the sections, each reached only through
//! the offset of its entry.
use vstd::prelude::*;
use crate::combinator::{runs_each, runs_n, with_current, And, ForEach, Memorize, RepeatExact, Repeated};
use crate::consume::{bytes_at, read_ok, read_rel};
use crate::error::ParseError;
use crate::multi_range::range_set;
use crate::parse::{jumped, spec_memorize, spec_memorized, CurrentSlot, FileCtx, Slots, Stored};
use crate::primitives::JumpRead;
use crate::{Action, Reader};

verus! {

/// The number of sections.
#[derive(Clone, Copy, Debug, PartialEq, Eq, Structural)]
pub struct Count(pub u32);

/// Where a section lies: its absolute offset and its length in bytes.
#[derive(Clone, Copy, Debug, PartialEq, Eq, Structural)]
pub struct Section {
    pub offset: u32,
    pub len: u32,
}

/// The memorization store of the sections grammar.
pub struct SectionStore {
    count: Stored<Count>,
    table: Stored<Vec<Section>>,
    section: Option<Section>,
}

impl SectionStore {
    /// A store with every slot empty and no current section.
    pub fn new() -> (r: SectionStore)
        ensures
            Slots::<Count>::slot(&r) is Empty,
            Slots::<Vec<Section>>::slot(&r) is Empty,
            CurrentSlot::<Section>::current(&r) is None,
    {
        SectionStore { count: Stored::Empty, table: Stored::Empty, section: None }
    }
}

impl Slots<Count> for SectionStore {
    open spec fn name() -> &'static str {
        "Count"
    }

    fn name_of() -> (r: &'static str) {
        "Count"
    }

    closed spec fn slot(&self) -> Stored<Count> {
        self.count
    }

    closed spec fn with_slot(self, v: Stored<Count>) -> SectionStore {
        SectionStore { count: v, ..self }
    }

    proof fn lemma_with_slot(self, v: Stored<Count>) {
    }

    fn slot_ref(&self) -> (r: &Stored<Count>) {
        &self.count
    }

    fn set_slot(&mut self, v: Stored<Count>) -> (r: Stored<Count>) {
        let mut v = v;
        std::mem::swap(&mut self.count, &mut v);
        v
    }
}

impl Slots<Vec<Section>> for SectionStore {
    open spec fn name() -> &'static str {
        "Vec<Section>"
    }

    fn name_of() -> (r: &'static str) {
        "Vec<Section>"
    }

    closed spec fn slot(&self) -> Stored<Vec<Section>> {
        self.table
    }

    closed spec fn with_slot(self, v: Stored<Vec<Section>>) -> SectionStore {
        SectionStore { table: v, ..self }
    }

    proof fn lemma_with_slot(self, v: Stored<Vec<Section>>) {
    }

    fn slot_ref(&self) -> (r: &Stored<Vec<Section>>) {
        &self.table
    }

    fn set_slot(&mut self, v: Stored<Vec<Section>>) -> (r: Stored<Vec<Section>>) {
        let mut v = v;
        std::mem::swap(&mut self.table, &mut v);
        v
    }
}

impl CurrentSlot<Section> for SectionStore {
    open spec fn current_name() -> &'static str {
        "Section"
    }

    fn current_name_of() -> (r: &'static str) {
        "Section"
    }

    closed spec fn current(&self) -> Option<Section> {
        self.section
    }

    closed spec fn with_current(self, v: Section) -> SectionStore {
        SectionStore { section: Some(v), ..self }
    }

    proof fn lemma_with_current(self, v: Section) {
    }

    fn current_ref(&self) -> (r: &Option<Section>) {
        &self.section
    }

    fn set_current(&mut self, v: Section) {
        self.section = Some(v);
    }
}

/// Each slot and the current cell of a [`SectionStore`] are kept apart: replacing one leaves
/// the others as they were.
pub proof fn lemma_section_store_frame(st: SectionStore, c: Stored<Count>, t: Stored<Vec<Section>>, s: Section)
    ensures
        Slots::<Vec<Section>>::slot(&Slots::<Count>::with_slot(st, c)) == Slots::<Vec<Section>>::slot(&st),
        CurrentSlot::<Section>::current(&Slots::<Count>::with_slot(st, c)) == CurrentSlot::<Section>::current(&st),
        Slots::<Count>::slot(&Slots::<Vec<Section>>::with_slot(st, t)) == Slots::<Count>::slot(&st),
        CurrentSlot::<Section>::current(&Slots::<Vec<Section>>::with_slot(st, t)) == CurrentSlot::<Section>::current(&st),
        Slots::<Count>::slot(&CurrentSlot::<Section>::with_current(st, s)) == Slots::<Count>::slot(&st),
        Slots::<Vec<Section>>::slot(&CurrentSlot::<Section>::with_current(st, s)) == Slots::<Vec<Section>>::slot(&st),
{
}

/// The big-endian four-byte word of `b` at `i`.
pub open spec fn word(b: Seq<u8>, i: int) -> u32 {
    (((b[i] * 256 + b[i + 1]) * 256 + b[i + 2]) * 256 + b[i + 3]) as u32
}

/// The big-endian word of `b` at `i`.
pub(crate) fn word_at(b: &Vec<u8>, i: usize) -> (r: u32)
    requires
        i + 4 <= b@.len(),
    ensures
        r == word(b@, i as int),
{
    let _len = b.len();
    ((b[i] as u32 * 256 + b[i + 1] as u32) * 256 + b[i + 2] as u32) * 256 + b[i + 3] as u32
}

/// The section count that a file of bytes `b` starts with.
pub open spec fn section_count(b: Seq<u8>) -> nat {
    word(b, 0) as nat
}

/// Table entry `i` of a file of bytes `b`.
pub open spec fn entry(b: Seq<u8>, i: int) -> Section {
    Section { offset: word(b, 4 + 8 * i), len: word(b, 8 + 8 * i) }
}

/// The first `n` table entries of a file of bytes `b`.
pub open spec fn entries(b: Seq<u8>, n: nat) -> Seq<Section> {
    Seq::new(n, |i: int| entry(b, i))
}

/// The bytes of section `s` in a file of bytes `b`.
pub open spec fn payload(b: Seq<u8>, s: Section) -> Seq<u8> {
    b.subrange(s.offset as int, s.offset + s.len)
}

/// The offsets of the sections `items`.
pub open spec fn payload_cover(items: Seq<Section>) -> Set<int>
    decreases items.len(),
{
    if items.len() == 0 {
        Set::empty()
    } else {
        payload_cover(items.drop_last()).union(
            range_set(items.last().offset as int, items.last().offset + items.last().len),
        )
    }
}

/// The header, the table and every section of a file of bytes `b` lie inside it.
pub open spec fn sections_fit(b: Seq<u8>) -> bool {
    &&& 4 <= b.len()
    &&& 4 + 8 * section_count(b) <= b.len()
    &&& forall|i: int|
        0 <= i < section_count(b) ==> #[trigger] entry(b, i).offset + entry(b, i).len <= b.len()
}

/// Reads the section count.
pub struct CountReader;

impl Reader<SectionStore> for CountReader {
    type Output = Count;

    open spec fn ready(&self) -> bool {
        true
    }

    open spec fn runs(&self, pre: FileCtx<SectionStore>, post: FileCtx<SectionStore>, r: Result<Count, ParseError>) -> bool {
        &&& post.store == pre.store
        &&& read_rel(pre.file, post.file, 4, r)
        &&& r matches Ok(c) ==> c.0 == word(pre.file.data(), pre.file.pos() as int)
    }

    fn go(&self, ctx: &mut FileCtx<SectionStore>) -> (r: Result<Count, ParseError>) {
        let b = ctx.consume_bytes(4)?;
        Ok(Count(word_at(&b, 0)))
    }
}

/// Reads one table entry: a big-endian offset, then a big-endian length.
pub struct EntryReader;

impl Reader<SectionStore> for EntryReader {
    type Output = Section;

    open spec fn ready(&self) -> bool {
        true
    }

    open spec fn runs(&self, pre: FileCtx<SectionStore>, post: FileCtx<SectionStore>, r: Result<Section, ParseError>) -> bool {
        &&& post.store == pre.store
        &&& read_rel(pre.file, post.file, 8, r)
        &&& r matches Ok(s) ==> s == (Section {
            offset: word(pre.file.data(), pre.file.pos() as int),
            len: word(pre.file.data(), pre.file.pos() + 4),
        })
    }

    fn go(&self, ctx: &mut FileCtx<SectionStore>) -> (r: Result<Section, ParseError>) {
        let b = ctx.consume_bytes(8)?;
        Ok(Section { offset: word_at(&b, 0), len: word_at(&b, 4) })
    }
}

/// Gives the memorized section count.
pub struct CountAction;

impl Action<SectionStore> for CountAction {
    type Output = usize;

    open spec fn ready(&self) -> bool {
        true
    }

    open spec fn gives(&self, ctx: FileCtx<SectionStore>, r: Result<usize, ParseError>) -> bool {
        match spec_memorized::<SectionStore, Count>(ctx.store) {
            Ok(c) => r == Ok::<usize, ParseError>(c.0 as usize),
            Err(e) => r == Err::<usize, _>(e),
        }
    }

    fn go(&self, ctx: &FileCtx<SectionStore>) -> (r: Result<usize, ParseError>) {
        match ctx.get_memorized::<Count>() {
            Ok(c) => Ok(c.0 as usize),
            Err(e) => Err(e),
        }
    }
}

/// Gives a copy of the memorized table.
pub struct TableAction;

impl Action<SectionStore> for TableAction {
    type Output = Vec<Section>;

    open spec fn ready(&self) -> bool {
        true
    }

    open spec fn gives(&self, ctx: FileCtx<SectionStore>, r: Result<Vec<Section>, ParseError>) -> bool {
        match spec_memorized::<SectionStore, Vec<Section>>(ctx.store) {
            Ok(t) => r is Ok && r->Ok_0@ == t@,
            Err(e) => r == Err::<Vec<Section>, _>(e),
        }
    }

    fn go(&self, ctx: &FileCtx<SectionStore>) -> (r: Result<Vec<Section>, ParseError>) {
        let table = match ctx.get_memorized::<Vec<Section>>() {
            Ok(t) => t,
            Err(e) => {
                return Err(e);
            },
        };
        let mut out: Vec<Section> = Vec::new();
        let mut i: usize = 0;
        while i < table.len()
            invariant
                i <= table@.len(),
                out@ == table@.subrange(0, i as int),
            decreases table@.len() - i,
        {
            out.push(table[i]);
            i = i + 1;
        }
        assert(out@ == table@);
        Ok(out)
    }
}

/// Gives the offset of the current section.
pub struct SectionOffset;

impl Action<SectionStore> for SectionOffset {
    type Output = usize;

    open spec fn ready(&self) -> bool {
        true
    }

    open spec fn gives(&self, ctx: FileCtx<SectionStore>, r: Result<usize, ParseError>) -> bool {
        match CurrentSlot::<Section>::current(&ctx.store) {
            Some(s) => r == Ok::<usize, ParseError>(s.offset as usize),
            None => r == Err::<usize, _>(ParseError::NotCurrent(<SectionStore as CurrentSlot<Section>>::current_name())),
        }
    }

    fn go(&self, ctx: &FileCtx<SectionStore>) -> (r: Result<usize, ParseError>) {
        match ctx.get_current::<Section>() {
            Ok(s) => Ok(s.offset as usize),
            Err(e) => Err(e),
        }
    }
}

/// Reads as many bytes as the current section is long.
pub struct PayloadReader;

impl Reader<SectionStore> for PayloadReader {
    type Output = Vec<u8>;

    open spec fn ready(&self) -> bool {
        true
    }

    open spec fn runs(&self, pre: FileCtx<SectionStore>, post: FileCtx<SectionStore>, r: Result<Vec<u8>, ParseError>) -> bool {
        &&& post.store == pre.store
        &&& match CurrentSlot::<Section>::current(&pre.store) {
            None => post == pre && r == Err::<Vec<u8>, _>(ParseError::NotCurrent(<SectionStore as CurrentSlot<Section>>::current_name())),
            Some(s) => read_rel(pre.file, post.file, s.len as nat, r) && (r matches Ok(b) ==> b@
                == bytes_at(pre.file, s.len as nat)),
        }
    }

    fn go(&self, ctx: &mut FileCtx<SectionStore>) -> (r: Result<Vec<u8>, ParseError>) {
        let s: Section = match ctx.get_current::<Section>() {
            Ok(s) => *s,
            Err(e) => {
                return Err(e);
            },
        };
        ctx.consume_bytes(s.len as usize)
    }
}

/// Reading `outs.len()` table entries one after the other from `pre` reads `8` bytes per entry
/// from its offset, leaves the store alone, and gives the entries at those bytes.
proof fn lemma_table_chain(
    er: EntryReader,
    pre: FileCtx<SectionStore>,
    post: FileCtx<SectionStore>,
    outs: Seq<Section>,
)
    requires
        runs_n(er, pre, post, outs),
    ensures
        post.store == pre.store,
        post.file.data() == pre.file.data(),
        post.file.pos() == pre.file.pos() + 8 * outs.len(),
        outs.len() > 0 ==> pre.file.pos() + 8 * outs.len() <= pre.file.data().len(),
        post.file.used() == pre.file.used().union(
            range_set(pre.file.pos() as int, pre.file.pos() + 8 * outs.len()),
        ),
        forall|i: int|
            0 <= i < outs.len() ==> #[trigger] outs[i] == (Section {
                offset: word(pre.file.data(), pre.file.pos() + 8 * i),
                len: word(pre.file.data(), pre.file.pos() + 8 * i + 4),
            }),
    decreases outs.len(),
{
    let p = pre.file.pos() as int;
    if outs.len() == 0 {
        assert(pre.file.used().union(range_set(p, p)) =~= pre.file.used());
    } else {
        let mid = choose|mid: FileCtx<SectionStore>|
            runs_n(er, pre, mid, outs.drop_last()) && #[trigger] er.runs(mid, post, Ok(outs.last()));
        lemma_table_chain(er, pre, mid, outs.drop_last());
        let k = outs.len() - 1;
        assert(pre.file.used().union(range_set(p, p + 8 * k)).union(range_set(p + 8 * k, p + 8 * k + 8))
            =~= pre.file.used().union(range_set(p, p + 8 * outs.len())));
        assert forall|i: int| 0 <= i < outs.len() implies #[trigger] outs[i] == (Section {
            offset: word(pre.file.data(), p + 8 * i),
            len: word(pre.file.data(), p + 8 * i + 4),
        }) by {
            if i < k {
                assert(outs[i] == outs.drop_last()[i]);
            }
        }
    }
}

/// Reading the sections `items` one after the other, each at its offset, keeps the memorized
/// count and table, reads exactly the bytes of each section, and gives them in order.
proof fn lemma_payload_chain(
    jr: JumpRead<PayloadReader, SectionOffset>,
    pre: FileCtx<SectionStore>,
    post: FileCtx<SectionStore>,
    items: Seq<Section>,
    outs: Seq<Vec<u8>>,
)
    requires
        runs_each(jr, pre, post, items, outs),
    ensures
        Slots::<Count>::slot(&post.store) == Slots::<Count>::slot(&pre.store),
        Slots::<Vec<Section>>::slot(&post.store) == Slots::<Vec<Section>>::slot(&pre.store),
        post.file.data() == pre.file.data(),
        post.file.used() == pre.file.used().union(payload_cover(items)),
        outs.len() == items.len(),
        forall|k: int| 0 <= k < outs.len() ==> (#[trigger] outs[k])@ == payload(pre.file.data(), items[k]),
    decreases items.len(),
{
    if items.len() == 0 {
        assert(pre.file.used().union(Set::empty()) =~= pre.file.used());
    } else {
        let mid = choose|mid: FileCtx<SectionStore>|
            runs_each(jr, pre, mid, items.drop_last(), outs.drop_last()) && #[trigger] jr.runs(
                with_current(mid, items.last()),
                post,
                Ok(outs.last()),
            );
        lemma_payload_chain(jr, pre, mid, items.drop_last(), outs.drop_last());
        let s = items.last();
        let c = with_current(mid, s);
        let p = choose|p: Result<usize, ParseError>| #[trigger]
            jr.pos.gives(c, p) && match p {
                Err(e) => post == c && Ok::<Vec<u8>, ParseError>(outs.last()) == Err::<Vec<u8>, _>(e),
                Ok(off) => jr.inner.runs(jumped(c, off), post, Ok(outs.last())),
            };
        let off = s.offset as usize;
        assert(p == Ok::<usize, ParseError>(off));
        let j = jumped(c, off);
        c.file.lemma_at(off);
        assert(pre.file.used().union(payload_cover(items.drop_last())).union(
            range_set(s.offset as int, s.offset + s.len),
        ) =~= pre.file.used().union(payload_cover(items)));
        assert forall|k: int| 0 <= k < outs.len() implies (#[trigger] outs[k])@ == payload(
            pre.file.data(),
            items[k],
        ) by {
            if k < outs.len() - 1 {
                assert(outs[k] == outs.drop_last()[k]);
                assert(items[k] == items.drop_last()[k]);
            }
        }
    }
}

/// The header of the grammar: the count, then the table, each memorized.
pub type Header = And<Memorize<CountReader>, Memorize<Repeated<EntryReader, RepeatExact<CountAction>>>>;

/// The sections of the grammar: for each table entry, its bytes, read at its offset.
pub type Payloads = Repeated<JumpRead<PayloadReader, SectionOffset>, ForEach<TableAction>>;

/// The grammar of the sections format.
pub type SectionsGrammar = And<Header, Payloads>;

/// What a parse of a file of the sections format gives, read from offset 0 with empty slots:
/// it succeeds when the header, the table and every section lie inside the file; a success
/// gives the bytes of each section in table order and has read exactly the header, the table
/// and the sections.
pub open spec fn sections_outcome(
    pre: FileCtx<SectionStore>,
    post: FileCtx<SectionStore>,
    res: Result<Vec<Vec<u8>>, ParseError>,
) -> bool {
    let b = pre.file.data();
    let n = section_count(b);
    &&& sections_fit(b) ==> res is Ok
    &&& res is Ok ==> {
        &&& res->Ok_0@.len() == n
        &&& forall|i: int| 0 <= i < n ==> (#[trigger] res->Ok_0@[i])@ == payload(b, entry(b, i))
        &&& post.file.data() == b
        &&& post.file.used() == pre.file.used().union(range_set(0, 4 + 8 * (n as int))).union(
            payload_cover(entries(b, n)),
        )
    }
}

/// Every run of the sections grammar from offset 0 with empty slots has the outcome of
/// [`sections_outcome`].
pub proof fn lemma_sections(
    g: SectionsGrammar,
    pre: FileCtx<SectionStore>,
    post: FileCtx<SectionStore>,
    res: Result<Vec<Vec<u8>>, ParseError>,
)
    requires
        g.runs(pre, post, res),
        pre.file.pos() == 0,
        Slots::<Count>::slot(&pre.store) is Empty,
        Slots::<Vec<Section>>::slot(&pre.store) is Empty,
    ensures
        sections_outcome(pre, post, res),
{
    let b = pre.file.data();
    let n = section_count(b);
    let (mid, r1) = choose|mid: FileCtx<SectionStore>, r1: Result<(), ParseError>|
        #[trigger] g.first.runs(pre, mid, r1) && match r1 {
            Ok(_) => g.second.runs(mid, post, res),
            Err(e) => post == mid && res == Err::<Vec<Vec<u8>>, _>(e),
        };
    let h = g.first;
    let (m1, ra) = choose|m1: FileCtx<SectionStore>, ra: Result<(), ParseError>|
        #[trigger] h.first.runs(pre, m1, ra) && match ra {
            Ok(_) => h.second.runs(m1, mid, r1),
            Err(e) => mid == m1 && r1 == Err::<(), _>(e),
        };
    let (m0, rc) = choose|m0: FileCtx<SectionStore>, rc: Result<Count, ParseError>|
        #[trigger] h.first.inner.runs(pre, m0, rc) && match rc {
            Err(e) => m1 == m0 && ra == Err::<(), _>(e),
            Ok(v) => m1.file == m0.file && (m1.store, ra) == spec_memorize(m0.store, v),
        };
    if rc is Ok && ra is Ok {
        let cnt = rc->Ok_0;
        assert(cnt.0 == word(b, 0));
        lemma_after_count(g, pre, post, res, mid, r1, m1, cnt);
    }
}

/// The middle part of [`lemma_sections`]: the count was read and memorized.
proof fn lemma_after_count(
    g: SectionsGrammar,
    pre: FileCtx<SectionStore>,
    post: FileCtx<SectionStore>,
    res: Result<Vec<Vec<u8>>, ParseError>,
    mid: FileCtx<SectionStore>,
    r1: Result<(), ParseError>,
    m1: FileCtx<SectionStore>,
    cnt: Count,
)
    requires
        g.first.second.runs(m1, mid, r1),
        r1 is Err ==> res is Err,
        r1 is Ok ==> g.second.runs(mid, post, res),
        cnt.0 == word(pre.file.data(), 0),
        read_ok(pre.file, m1.file, 4),
        pre.file.pos() == 0,
        m1.store == Slots::<Count>::with_slot(pre.store, Stored::Value(cnt)),
        Slots::<Vec<Section>>::slot(&pre.store) is Empty,
    ensures
        sections_outcome(pre, post, res),
{
    let b = pre.file.data();
    let n = section_count(b);
    let h = g.first;
    let rep = h.second.inner;
    let (m2, rt) = choose|m2: FileCtx<SectionStore>, rt: Result<Vec<Section>, ParseError>|
        #[trigger] rep.runs(m1, m2, rt) && match rt {
            Err(e) => mid == m2 && r1 == Err::<(), _>(e),
            Ok(v) => mid.file == m2.file && (mid.store, r1) == spec_memorize(m2.store, v),
        };
    let rn = choose|rn: Result<usize, ParseError>| #[trigger]
        rep.method.0.gives(m1, rn) && match rn {
            Err(e) => m2 == m1 && rt == Err::<Vec<Section>, _>(e),
            Ok(k) => match rt {
                Ok(v) => v@.len() == k && runs_n(rep.inner, m1, m2, v@),
                Err(e) => exists|mm: FileCtx<SectionStore>, outs: Seq<Section>|
                    outs.len() < k && #[trigger] runs_n(rep.inner, m1, mm, outs)
                        && rep.inner.runs(mm, m2, Err(e)),
            },
        };
    assert(rn == Ok::<usize, ParseError>(cnt.0 as usize));
    if rt is Err {
        if sections_fit(b) {
            let e = rt->Err_0;
            let (mm, outs) = choose|mm: FileCtx<SectionStore>, outs: Seq<Section>|
                outs.len() < n && #[trigger] runs_n(rep.inner, m1, mm, outs)
                    && rep.inner.runs(mm, m2, Err(e));
            lemma_table_chain(rep.inner, m1, mm, outs);
        }
    } else {
        let v = rt->Ok_0;
        lemma_table_chain(rep.inner, m1, m2, v@);
        assert(v@ =~= entries(b, n));
        if r1 is Ok {
            lemma_after_header(g, pre, post, res, mid);
        }
    }
}

/// The last part of [`lemma_sections`]: the header was read and memorized.
proof fn lemma_after_header(
    g: SectionsGrammar,
    pre: FileCtx<SectionStore>,
    post: FileCtx<SectionStore>,
    res: Result<Vec<Vec<u8>>, ParseError>,
    mid: FileCtx<SectionStore>,
)
    requires
        g.second.runs(mid, post, res),
        mid.file.data() == pre.file.data(),
        mid.file.used() == pre.file.used().union(range_set(0, 4)).union(
            range_set(4, 4 + 8 * (section_count(pre.file.data()) as int)),
        ),
        spec_memorized::<SectionStore, Vec<Section>>(mid.store) is Ok,
        spec_memorized::<SectionStore, Vec<Section>>(mid.store)->Ok_0@ == entries(
            pre.file.data(),
            section_count(pre.file.data()),
        ),
    ensures
        sections_outcome(pre, post, res),
{
    let b = pre.file.data();
    let n = section_count(b);
    let pl = g.second;
    let rl = choose|rl: Result<Vec<Section>, ParseError>| #[trigger]
        pl.method.0.gives(mid, rl) && match rl {
            Err(e) => post == mid && res == Err::<Vec<Vec<u8>>, _>(e),
            Ok(items) => match res {
                Ok(o) => runs_each(pl.inner, mid, post, items@, o@),
                Err(e) => exists|k: int, mm: FileCtx<SectionStore>, outs: Seq<Vec<u8>>|
                    0 <= k < items@.len() && #[trigger] runs_each(
                        pl.inner,
                        mid,
                        mm,
                        items@.subrange(0, k),
                        outs,
                    ) && pl.inner.runs(with_current(mm, items@[k]), post, Err(e)),
            },
        };
    let items = rl->Ok_0;
    assert(items@ == entries(b, n));
    assert(mid.file.used() =~= pre.file.used().union(range_set(0, 4 + 8 * (n as int))));
    match res {
        Ok(o) => {
            lemma_payload_chain(pl.inner, mid, post, items@, o@);
        },
        Err(e) => {
            if sections_fit(b) {
                let (k, mm, outs) = choose|k: int, mm: FileCtx<SectionStore>, outs: Seq<Vec<u8>>|
                    0 <= k < items@.len() && #[trigger] runs_each(
                        pl.inner,
                        mid,
                        mm,
                        items@.subrange(0, k),
                        outs,
                    ) && pl.inner.runs(with_current(mm, items@[k]), post, Err(e));
                lemma_payload_chain(pl.inner, mid, mm, items@.subrange(0, k), outs);
                let c = with_current(mm, items@[k]);
                let off = items@[k].offset as usize;
                assert(entry(b, k).offset + entry(b, k).len <= b.len());
                let p = choose|p: Result<usize, ParseError>| #[trigger]
                    pl.inner.pos.gives(c, p) && match p {
                        Err(e2) => post == c && Err::<Vec<u8>, ParseError>(e) == Err::<Vec<u8>, _>(e2),
                        Ok(o2) => pl.inner.inner.runs(jumped(c, o2), post, Err(e)),
                    };
                assert(p == Ok::<usize, ParseError>(off));
                c.file.lemma_at(off);
            }
        },
    }
}

/// The grammar of the sections format (see [`sections_outcome`]).
pub fn sections_parser() -> (r: SectionsGrammar)
    ensures
        r.ready(),
        forall|pre: FileCtx<SectionStore>, post: FileCtx<SectionStore>, res: Result<Vec<Vec<u8>>, ParseError>|
            #[trigger] r.runs(pre, post, res) && pre.file.pos() == 0 && Slots::<Count>::slot(&pre.store) is Empty
                && Slots::<Vec<Section>>::slot(&pre.store) is Empty ==> sections_outcome(pre, post, res),
{
    let header = And {
        first: Memorize { inner: CountReader },
        second: Memorize {
            inner: Repeated { inner: EntryReader, method: RepeatExact(CountAction) },
        },
    };
    let payloads = Repeated {
        inner: JumpRead { pos: SectionOffset, inner: PayloadReader },
        method: ForEach(TableAction),
    };
    let g = And { first: header, second: payloads };
    assert forall|pre: FileCtx<SectionStore>, post: FileCtx<SectionStore>, res: Result<Vec<Vec<u8>>, ParseError>|
        #[trigger] g.runs(pre, post, res) && pre.file.pos() == 0 && Slots::<Count>::slot(&pre.store) is Empty
            && Slots::<Vec<Section>>::slot(&pre.store) is Empty implies sections_outcome(pre, post, res) by {
        lemma_sections(g, pre, post, res);
    }
    g
}

} // verus!
