use gcd::error::ParseError;
use gcd::file::{Endian, ParseFile};
use gcd::parse::FileCtx;
use gcd::primitives::{current, group, jump_read, memorized, u16, u8};
use gcd::sections::{Count, Section, SectionStore};
use gcd::{Action, Reader};

fn ctx_over(data: Vec<u8>) -> FileCtx<SectionStore> {
    FileCtx::new(ParseFile::open(data), SectionStore::new())
}

#[test]
fn map_with_sees_what_the_reader_memorized() {
    let mut ctx = ctx_over(vec![3, 4]);
    let reader = Reader::<SectionStore>::map_with(
        Reader::<SectionStore>::memorize(Reader::<SectionStore>::map(u8(), |b: u8| Count(b as u32))),
        memorized::<Count>(),
        |_: (), c: Count| c.0 * 10,
    );
    assert_eq!(reader.go(&mut ctx).unwrap(), 30);
    assert_eq!(ctx.mark(), 1);
}

#[test]
fn retrieve_gives_the_action_output() {
    let mut ctx = ctx_over(vec![0, 9]);
    let reader = Reader::<SectionStore>::retrieve(
        Reader::<SectionStore>::memorize(Reader::<SectionStore>::map(u16(Endian::Big), |n: u16| {
            Count(n as u32)
        })),
        Action::<SectionStore>::map(memorized::<Count>(), |c: Count| c.0 + 1),
    );
    assert_eq!(reader.go(&mut ctx).unwrap(), 10);
}

#[test]
fn retrieve_fails_when_nothing_was_memorized() {
    let mut ctx = ctx_over(vec![0, 9]);
    let reader = Reader::<SectionStore>::retrieve(u16(Endian::Big), memorized::<Count>());
    assert!(matches!(reader.go(&mut ctx), Err(ParseError::NotMemorized(_))));
}

#[test]
fn jump_read_reads_at_the_offset() {
    let mut ctx = ctx_over(vec![1, 2, 3, 4]);
    assert!(ctx.memorize(Count(2)).is_ok());
    let reader = jump_read(Action::<SectionStore>::map(memorized::<Count>(), |c: Count| c.0 as usize), u8());
    assert_eq!(reader.go(&mut ctx).unwrap(), 3);
    assert_eq!(ctx.mark(), 3);
}

#[test]
fn jump_past_the_end_then_read_fails() {
    let mut ctx = ctx_over(vec![1, 2]);
    assert!(ctx.memorize(Count(7)).is_ok());
    let reader = jump_read(Action::<SectionStore>::map(memorized::<Count>(), |c: Count| c.0 as usize), u8());
    assert!(matches!(reader.go(&mut ctx), Err(ParseError::UnexpectedEof { pos: 7, wanted: 1 })));
}

#[test]
fn action_group_gives_both_values() {
    let mut ctx = ctx_over(vec![]);
    assert!(ctx.memorize(Count(4)).is_ok());
    ctx.set_current(Section { offset: 1, len: 2 });
    let both = group((memorized::<Count>(), current::<Section>()));
    assert_eq!(Action::<SectionStore>::go(&both, &ctx).unwrap(), (Count(4), Section { offset: 1, len: 2 }));
    let missing = group((memorized::<Count>(), memorized::<Vec<Section>>()));
    assert!(matches!(Action::<SectionStore>::go(&missing, &ctx), Err(ParseError::NotMemorized(_))));
}

#[test]
fn action_group_of_three() {
    let mut ctx = ctx_over(vec![]);
    assert!(ctx.memorize(Count(4)).is_ok());
    assert!(ctx.memorize(vec![Section { offset: 0, len: 0 }]).is_ok());
    ctx.set_current(Section { offset: 1, len: 2 });
    let all = group((memorized::<Count>(), current::<Section>(), memorized::<Vec<Section>>()));
    let (count, section, table) = Action::<SectionStore>::go(&all, &ctx).unwrap();
    assert_eq!(count, Count(4));
    assert_eq!(section, Section { offset: 1, len: 2 });
    assert_eq!(table.len(), 1);
}

#[test]
fn reader_group_runs_in_order() {
    let mut ctx = ctx_over(vec![1, 0, 2, 3]);
    let both = group((u8(), u16(Endian::Big), u8()));
    assert_eq!(Reader::<SectionStore>::go(&both, &mut ctx).unwrap(), (1, 2, 3));
}

#[test]
fn for_each_sets_each_item_as_current() {
    let mut ctx = ctx_over(vec![10, 11, 12, 13]);
    assert!(ctx
        .memorize(vec![Section { offset: 3, len: 1 }, Section { offset: 0, len: 2 }])
        .is_ok());
    let at = Action::<SectionStore>::map(current::<Section>(), |s: Section| s.offset as usize);
    let n = Action::<SectionStore>::map(current::<Section>(), |s: Section| s.len as usize);
    let each = Reader::<SectionStore>::repeated(jump_read(at, Reader::<SectionStore>::repeated(u8()).exactly(n)))
        .for_each(memorized::<Vec<Section>>());
    assert_eq!(each.go(&mut ctx).unwrap(), vec![vec![13], vec![10, 11]]);
    assert_eq!(ctx.get_current::<Section>().unwrap(), &Section { offset: 0, len: 2 });
}

#[test]
fn for_each_without_a_list_fails() {
    let mut ctx = ctx_over(vec![10]);
    let each = Reader::<SectionStore>::repeated(u8()).for_each(memorized::<Vec<Section>>());
    assert!(matches!(each.go(&mut ctx), Err(ParseError::NotMemorized(_))));
}

#[test]
fn current_without_a_value_fails() {
    let ctx = ctx_over(vec![]);
    assert!(matches!(Action::<SectionStore>::go(&current::<Section>(), &ctx), Err(ParseError::NotCurrent(_))));
}

#[test]
fn reader_group_of_twelve() {
    let mut ctx = ctx_over((1..=12).collect());
    let all = group((u8(), u8(), u8(), u8(), u8(), u8(), u8(), u8(), u8(), u8(), u8(), u8()));
    assert_eq!(
        Reader::<SectionStore>::go(&all, &mut ctx).unwrap(),
        (1, 2, 3, 4, 5, 6, 7, 8, 9, 10, 11, 12)
    );
    assert_eq!(ctx.mark(), 12);
}

#[test]
fn action_group_of_four() {
    let mut ctx = ctx_over(vec![]);
    assert!(ctx.memorize(Count(4)).is_ok());
    ctx.set_current(Section { offset: 1, len: 2 });
    let all = group((memorized::<Count>(), current::<Section>(), memorized::<Count>(), current::<Section>()));
    let (a, b, c, d) = Action::<SectionStore>::go(&all, &ctx).unwrap();
    assert_eq!((a, c), (Count(4), Count(4)));
    assert_eq!((b, d), (Section { offset: 1, len: 2 }, Section { offset: 1, len: 2 }));
}

#[test]
fn reader_group_of_one_and_of_thirteen() {
    let mut ctx = ctx_over((1..=14).collect());
    let one = group((u8(),));
    assert_eq!(Reader::<SectionStore>::go(&one, &mut ctx).unwrap(), (1,));
    let all = group((u8(), u8(), u8(), u8(), u8(), u8(), u8(), u8(), u8(), u8(), u8(), u8(), u8()));
    let out = Reader::<SectionStore>::go(&all, &mut ctx).unwrap();
    assert_eq!(out.0, 2);
    assert_eq!(out.12, 14);
    assert_eq!(ctx.mark(), 14);
}
