use gcd::error::ParseError;
use gcd::file::{Endian, LintLevel, ParseFile};
use gcd::parse::FileCtx;
use gcd::primitives::{i32, magic, memorized, u16, u32, u8};
use gcd::sections::{sections_parser, Count, Section, SectionStore};
use gcd::{Action, Reader};

fn ctx_over(data: Vec<u8>) -> FileCtx<SectionStore> {
    FileCtx::new(ParseFile::open(data), SectionStore::new())
}

#[test]
fn memorize_then_read_gives_the_value() {
    let mut ctx = ctx_over(vec![]);
    assert!(matches!(ctx.get_memorized::<Count>(), Err(ParseError::NotMemorized(_))));
    assert!(ctx.memorize(Count(7)).is_ok());
    assert_eq!(ctx.get_memorized::<Count>().unwrap(), &Count(7));
    assert!(matches!(ctx.memorize(Count(8)), Err(ParseError::AlreadyMemorized("Count"))));
    assert_eq!(ctx.get_memorized::<Count>().unwrap(), &Count(7));
}

#[test]
fn slots_are_kept_per_type() {
    let mut ctx = ctx_over(vec![]);
    assert!(ctx.memorize(Count(3)).is_ok());
    assert!(matches!(ctx.get_memorized::<Vec<Section>>(), Err(ParseError::NotMemorized(_))));
    assert!(ctx.memorize(vec![Section { offset: 1, len: 2 }]).is_ok());
    assert_eq!(ctx.get_memorized::<Count>().unwrap(), &Count(3));
    assert_eq!(ctx.get_memorized::<Vec<Section>>().unwrap().len(), 1);
}

#[test]
fn taken_value_cannot_be_read_or_stored_again() {
    let mut ctx = ctx_over(vec![]);
    assert!(matches!(ctx.take_memorized::<Count>(), Err(ParseError::NotMemorized(_))));
    assert!(ctx.memorize(Count(5)).is_ok());
    assert_eq!(ctx.take_memorized::<Count>().unwrap(), Count(5));
    assert!(matches!(ctx.get_memorized::<Count>(), Err(ParseError::TakenMemorized(_))));
    assert!(matches!(ctx.take_memorized::<Count>(), Err(ParseError::TakenMemorized(_))));
    assert!(matches!(ctx.memorize(Count(6)), Err(ParseError::TakenMemorized(_))));
}

#[test]
fn current_value_is_the_latest_one() {
    let mut ctx = ctx_over(vec![]);
    assert!(matches!(ctx.get_current::<Section>(), Err(ParseError::NotCurrent("Section"))));
    ctx.set_current(Section { offset: 1, len: 1 });
    ctx.set_current(Section { offset: 9, len: 4 });
    assert_eq!(ctx.get_current::<Section>().unwrap(), &Section { offset: 9, len: 4 });
}

#[test]
fn reads_decode_in_the_given_byte_order() {
    let mut ctx = ctx_over(vec![0x12, 0x34, 0x12, 0x34, 0x56, 0x78, 0xff]);
    assert_eq!(Reader::<SectionStore>::go(&u16(Endian::Little), &mut ctx).unwrap(), 0x3412);
    assert_eq!(Reader::<SectionStore>::go(&u32(Endian::Big), &mut ctx).unwrap(), 0x12345678);
    assert_eq!(ctx.mark(), 6);
    match Reader::<SectionStore>::go(&u16(Endian::Big), &mut ctx) {
        Err(ParseError::UnexpectedEof { pos, wanted }) => {
            assert_eq!(pos, 6);
            assert_eq!(wanted, 2);
        }
        _ => panic!("a read past the end must fail"),
    }
    assert_eq!(ctx.mark(), 6);
    assert_eq!(Reader::<SectionStore>::go(&u8(), &mut ctx).unwrap(), 0xff);
}

#[test]
fn little_endian_u32() {
    let mut ctx = ctx_over(vec![0x78, 0x56, 0x34, 0x12]);
    assert_eq!(Reader::<SectionStore>::go(&u32(Endian::Little), &mut ctx).unwrap(), 0x12345678);
}

#[test]
fn tag_mismatch_rewinds() {
    let mut ctx = ctx_over(vec![0x12, 0x35, 0x00]);
    let tag = magic([0x12, 0x34]);
    match Reader::<SectionStore>::go(&tag, &mut ctx) {
        Err(ParseError::TagMismatch { expected, actual }) => {
            assert_eq!(expected, vec![0x12, 0x34]);
            assert_eq!(actual, vec![0x12, 0x35]);
        }
        _ => panic!("the tag does not match"),
    }
    assert_eq!(ctx.mark(), 0);
    assert!(!ctx.file.was_read(0));
    let other = magic([0x12, 0x35]);
    assert!(Reader::<SectionStore>::go(&other, &mut ctx).is_ok());
    assert_eq!(ctx.mark(), 2);
    assert!(ctx.file.was_read(1));
}

#[test]
fn jump_and_continues_at_the_computed_offset() {
    // The count 8 is both the first value and the offset of the byte to read.
    let data = vec![0, 0, 0, 8, 1, 1, 1, 1, 0xaa, 0xbb];
    let pos = Action::<SectionStore>::map(memorized::<Count>(), |c: Count| c.0 as usize);
    let first = Reader::<SectionStore>::memorize(Reader::<SectionStore>::map(u32(Endian::Big), Count));
    let reader = Reader::<SectionStore>::jump_and(first, pos, u8());
    let mut ctx = ctx_over(data.clone());
    assert_eq!(reader.go(&mut ctx).unwrap(), 0xaa);
    assert_eq!(ctx.mark(), 9);

    // Reading more before the jump does not change where the jump lands.
    let pos = Action::<SectionStore>::map(memorized::<Count>(), |c: Count| c.0 as usize);
    let longer = Reader::<SectionStore>::and(
        Reader::<SectionStore>::memorize(Reader::<SectionStore>::map(u32(Endian::Big), Count)),
        u32(Endian::Big),
    );
    let reader = Reader::<SectionStore>::jump_and(longer, pos, u8());
    let mut ctx = ctx_over(data);
    assert_eq!(reader.go(&mut ctx).unwrap(), 0xaa);
    assert_eq!(ctx.mark(), 9);
}

#[test]
fn exactly_zero_never_runs_the_reader() {
    let mut ctx = ctx_over(vec![0, 0, 0, 0]);
    assert!(ctx.memorize(Count(0)).is_ok());
    let n = Action::<SectionStore>::map(memorized::<Count>(), |c: Count| c.0 as usize);
    let reader = Reader::<SectionStore>::repeated(u8()).exactly(n);
    assert_eq!(reader.go(&mut ctx).unwrap(), Vec::<u8>::new());
    assert_eq!(ctx.mark(), 0);
    assert!(!ctx.file.was_read(0));
}

#[test]
fn exactly_keeps_the_order_of_the_runs() {
    let mut ctx = ctx_over(vec![5, 6, 7, 8]);
    assert!(ctx.memorize(Count(3)).is_ok());
    let n = Action::<SectionStore>::map(memorized::<Count>(), |c: Count| c.0 as usize);
    let reader = Reader::<SectionStore>::repeated(u8()).exactly(n);
    assert_eq!(reader.go(&mut ctx).unwrap(), vec![5, 6, 7]);
    assert_eq!(ctx.mark(), 3);
}

#[test]
fn exactly_fails_with_the_count_error() {
    let mut ctx = ctx_over(vec![5]);
    let n = Action::<SectionStore>::map(memorized::<Count>(), |c: Count| c.0 as usize);
    let reader = Reader::<SectionStore>::repeated(u8()).exactly(n);
    assert!(matches!(reader.go(&mut ctx), Err(ParseError::NotMemorized(_))));
    assert_eq!(ctx.mark(), 0);
}

#[test]
fn until_stops_before_reading_when_the_action_holds() {
    let mut ctx = ctx_over(vec![1, 2, 3]);
    assert!(ctx.memorize(Count(0)).is_ok());
    let done = Action::<SectionStore>::map(memorized::<Count>(), |c: Count| c.0 == 0);
    let reader = Reader::<SectionStore>::repeated(u8()).until(done);
    assert_eq!(reader.go(&mut ctx).unwrap(), Vec::<u8>::new());
    assert_eq!(ctx.mark(), 0);
}

#[test]
fn until_that_never_holds_is_bounded() {
    let mut ctx = ctx_over(vec![1, 2, 3]);
    assert!(ctx.memorize(Count(1)).is_ok());
    let done = Action::<SectionStore>::map(memorized::<Count>(), |c: Count| c.0 == 0);
    let reader = Reader::<SectionStore>::repeated(u8()).until(done);
    assert!(matches!(reader.go(&mut ctx), Err(ParseError::Custom(_))));
    assert_eq!(ctx.mark(), 3);
}

/// A file of two sections stored in the opposite order of their table entries.
fn two_sections(extra: &[u8]) -> Vec<u8> {
    let mut data = vec![0, 0, 0, 2];
    data.extend_from_slice(&[0, 0, 0, 23, 0, 0, 0, 2]);
    data.extend_from_slice(&[0, 0, 0, 20, 0, 0, 0, 3]);
    data.extend_from_slice(&[b'a', b'b', b'c', b'x', b'y']);
    data.extend_from_slice(extra);
    data
}

#[test]
fn sections_consume_the_whole_file() {
    let data = two_sections(&[]);
    let len = data.len();
    let file = ParseFile::build().on_unused(LintLevel::Error).finish(data);
    let (out, file) = sections_parser().parse(file, SectionStore::new()).unwrap();
    assert_eq!(out, vec![vec![b'x', b'y'], vec![b'a', b'b', b'c']]);
    assert_eq!(len, 25);
    for x in 0..len {
        assert!(file.was_read(x));
    }
    assert!(file.finish().is_ok());
    assert!(!file.should_warn_unused());
}

#[test]
fn sections_with_unread_bytes_and_error_level_fail() {
    let file = ParseFile::build().on_unused(LintLevel::Error).finish(two_sections(&[0xee]));
    assert!(matches!(sections_parser().parse(file, SectionStore::new()), Err(ParseError::UnusedErr)));
}

#[test]
fn sections_with_unread_bytes_and_ignore_level_pass() {
    let file = ParseFile::build().on_unused(LintLevel::Ignore).finish(two_sections(&[0xee]));
    let (out, file) = sections_parser().parse(file, SectionStore::new()).unwrap();
    assert_eq!(out.len(), 2);
    assert!(!file.was_read(25));
    assert!(!file.should_warn_unused());
}

#[test]
fn sections_with_unread_bytes_and_warn_level_ask_for_a_warning() {
    let file = ParseFile::build().on_unused(LintLevel::Warn).finish(two_sections(&[0xee]));
    let (_, file) = sections_parser().parse(file, SectionStore::new()).unwrap();
    assert!(file.should_warn_unused());
}

#[test]
fn default_lints_ignore_unused_bytes() {
    let file = ParseFile::open(two_sections(&[0xee]));
    assert!(sections_parser().parse(file, SectionStore::new()).is_ok());
}

#[test]
fn finish_on_an_untouched_file() {
    let empty = ParseFile::build().on_unused(LintLevel::Error).finish(vec![]);
    assert!(empty.finish().is_ok());
    let unread = ParseFile::build().on_unused(LintLevel::Error).finish(vec![1]);
    assert!(matches!(unread.finish(), Err(ParseError::UnusedErr)));
    let ignored = ParseFile::build().on_unused(LintLevel::Ignore).finish(vec![1]);
    assert!(ignored.finish().is_ok());
}

#[test]
fn sections_with_a_short_table_fail() {
    let file = ParseFile::open(vec![0, 0, 0, 2, 0, 0, 0, 12, 0, 0, 0, 1]);
    assert!(matches!(
        sections_parser().parse(file, SectionStore::new()),
        Err(ParseError::UnexpectedEof { pos: 12, wanted: 8 })
    ));
}

#[test]
fn signed_and_wide_reads() {
    let mut ctx = ctx_over(vec![
        0xff, 0xff, 0xff, 0xfe, 0, 0, 0, 0, 0, 0, 1, 2, 2, 1, 0, 0, 0, 0, 0, 0, 0x80, 0xfe, 0xff,
        0xff, 0xff, 0xff, 0xff, 0xff, 0xff, 0xff, 0xff,
    ]);
    assert_eq!(Reader::<SectionStore>::go(&i32(Endian::Big), &mut ctx).unwrap(), -2);
    assert_eq!(ctx.consume::<u64>(Endian::Big).unwrap(), 258);
    assert_eq!(ctx.consume::<u64>(Endian::Little).unwrap(), 258);
    assert_eq!(ctx.consume::<i8>(Endian::Big).unwrap(), -128);
    assert_eq!(ctx.consume::<i16>(Endian::Little).unwrap(), -2);
    assert_eq!(ctx.consume::<i64>(Endian::Big).unwrap(), -1);
    assert_eq!(ctx.mark(), 31);
}
