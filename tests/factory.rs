use token_factory::char_stream::{CharStream, InputStream};
use token_factory::common_token_factory::{
    ArenaCommonFactory, ArenaCowFactory, CommonTokenFactory, CowTokenFactory, TokenFactory,
    EOF_TEXT,
};
use token_factory::token::{
    CommonToken, CowText, OwningToken, Token, INVALID_TEXT, TOKEN_INDEX_UNSET,
    TOKEN_INVALID_TYPE,
};

const TEN: &str = "abcdefghij";

fn check_fields<T: Token>(t: &T, ttype: isize, channel: isize, start: isize, stop: isize, line: isize, column: isize) {
    assert_eq!(t.get_token_type(), ttype);
    assert_eq!(t.get_channel(), channel);
    assert_eq!(t.get_start(), start);
    assert_eq!(t.get_stop(), stop);
    assert_eq!(t.get_line(), line);
    assert_eq!(t.get_column(), column);
    assert_eq!(t.get_token_index(), -1);
    assert!(!t.is_read_only());
}

fn check_invalid<T: Token>(t: &T) {
    assert_eq!(t.get_token_type(), TOKEN_INVALID_TYPE);
    assert_eq!(t.get_channel(), 0);
    assert_eq!(t.get_start(), -1);
    assert_eq!(t.get_stop(), -1);
    assert_eq!(t.get_line(), -1);
    assert_eq!(t.get_column(), -1);
    assert_eq!(t.get_token_index(), TOKEN_INDEX_UNSET);
    assert_eq!(t.get_text(), "<invalid>");
    assert!(t.is_read_only());
}

#[test]
fn input_stream_reads_inclusive_spans() {
    let s = InputStream::new("añb€c");
    assert_eq!(s.size(), 5);
    assert_eq!(s.get_text(1, 3), "ñb€");
    assert_eq!(s.get_text(0, 0), "a");
    assert_eq!(s.get_text(3, 1), "");
    assert_eq!(s.get_text(-1, 2), "");
    assert_eq!(s.get_text(2, 5), "");
    assert_eq!(InputStream::new("").size(), 0);
}

#[test]
fn invalid_owning_sentinel() {
    let f = CommonTokenFactory::default();
    let a = f.create_invalid();
    let b = f.create_invalid();
    check_invalid(&*a);
    check_invalid(&*b);
    assert_eq!(a.get_text(), b.get_text());
    assert_eq!(INVALID_TEXT, "<invalid>");
}

#[test]
fn invalid_cow_sentinel() {
    let f = CowTokenFactory::default();
    let a = f.create_invalid();
    let b = f.create_invalid();
    check_invalid(&*a);
    check_invalid(&*b);
    assert!(a.is_text_borrowed());
}

#[test]
fn invalid_arena_sentinel_is_shared() {
    let f = ArenaCommonFactory::default();
    let a = f.create_invalid();
    let b = f.create_invalid();
    check_invalid(a);
    assert!(std::ptr::eq(a, b));
    let g = ArenaCowFactory::default();
    let c = g.create_invalid();
    let d = g.create_invalid();
    check_invalid(c);
    assert!(std::ptr::eq(c, d));
}

#[test]
fn new_invalid_builds_sentinel() {
    check_invalid(&OwningToken::new_invalid());
    check_invalid(&CommonToken::new_invalid());
}

#[test]
fn explicit_text_wins_owning() {
    let s = InputStream::new(TEN);
    let f = CommonTokenFactory::default();
    let t = f.create(Some(&s), 5, Some("foo".to_string()), 1, 2, 5, 3, 4);
    assert_eq!(t.get_text(), "foo");
    check_fields(&*t, 5, 1, 2, 5, 3, 4);
    let u = f.create(Some(&s), 5, Some("foo".to_string()), 1, 12, 30, 3, 4);
    assert_eq!(u.get_text(), "foo");
    let v = f.create::<InputStream>(None, 5, Some("foo".to_string()), 1, 2, 5, 3, 4);
    assert_eq!(v.get_text(), "foo");
}

#[test]
fn explicit_text_wins_cow() {
    let s = InputStream::new(TEN);
    let f = CowTokenFactory::default();
    let t = f.create(Some(&s), 5, Some("foo".to_string()), 1, 2, 5, 3, 4);
    assert_eq!(t.get_text(), "foo");
    assert!(!t.is_text_borrowed());
    check_fields(&*t, 5, 1, 2, 5, 3, 4);
    let u = f.create(Some(&s), 5, Some("foo".to_string()), 1, 12, 30, 3, 4);
    assert_eq!(u.get_text(), "foo");
}

#[test]
fn in_range_span_reads_source() {
    let s = InputStream::new(TEN);
    let expected = s.get_text(2, 5);
    assert_eq!(expected, "cdef");
    let f = CommonTokenFactory::default();
    let t = f.create(Some(&s), 7, None, 0, 2, 5, 1, 2);
    assert_eq!(t.get_text(), expected);
    check_fields(&*t, 7, 0, 2, 5, 1, 2);
    let g = CowTokenFactory::default();
    let c = g.create(Some(&s), 7, None, 0, 2, 5, 1, 2);
    assert_eq!(c.get_text(), expected);
    check_fields(&*c, 7, 0, 2, 5, 1, 2);
}

#[test]
fn span_past_end_is_eof() {
    let s = InputStream::new(TEN);
    let f = CommonTokenFactory::default();
    let t = f.create(Some(&s), 7, None, 0, 12, 15, 1, 2);
    assert_eq!(t.get_text(), "<EOF>");
    let u = f.create(Some(&s), 7, None, 0, 2, 10, 1, 2);
    assert_eq!(u.get_text(), "<EOF>");
    let g = CowTokenFactory::default();
    let c = g.create(Some(&s), 7, None, 0, 12, 15, 1, 2);
    assert_eq!(c.get_text(), EOF_TEXT);
    assert!(!c.is_text_borrowed());
    let d = g.create(Some(&s), 7, None, 0, 10, 9, 1, 2);
    assert_eq!(d.get_text(), "<EOF>");
}

#[test]
fn source_as_trait_object() {
    let s = InputStream::new(TEN);
    let d: &dyn CharStream = &s;
    let f = CowTokenFactory::default();
    let t = f.create(Some(d), 7, None, 0, 2, 5, 1, 2);
    assert_eq!(t.get_text(), "cdef");
    assert!(t.is_text_borrowed());
}

#[test]
fn last_character_is_in_range() {
    let s = InputStream::new(TEN);
    let f = CommonTokenFactory::default();
    let t = f.create(Some(&s), 7, None, 0, 9, 9, 1, 2);
    assert_eq!(t.get_text(), "j");
}

#[test]
fn no_text_no_source_is_empty() {
    let f = CommonTokenFactory::default();
    let t = f.create::<InputStream>(None, 1, None, 0, 0, 0, 1, 0);
    assert_eq!(t.get_text(), "");
    let g = CowTokenFactory::default();
    let c = g.create::<InputStream>(None, 1, None, 0, 0, 0, 1, 0);
    assert_eq!(c.get_text(), "");
    assert!(!c.is_text_borrowed());
}

#[test]
fn owning_tokens_have_own_buffers() {
    let s = InputStream::new(TEN);
    let f = CommonTokenFactory::default();
    let a = f.create(Some(&s), 1, None, 0, 2, 5, 1, 2);
    let b = f.create(Some(&s), 1, None, 0, 2, 5, 1, 2);
    assert_eq!(a.get_text(), b.get_text());
    assert_ne!(a.get_text().as_ptr(), b.get_text().as_ptr());
    assert_ne!(a.get_text().as_ptr(), TEN[2..].as_ptr());
}

#[test]
fn cow_span_shares_source_buffer() {
    let s = InputStream::new(TEN);
    let f = CowTokenFactory::default();
    let t = f.create(Some(&s), 1, None, 0, 2, 5, 1, 2);
    assert!(t.is_text_borrowed());
    assert_eq!(t.get_text().as_ptr(), TEN[2..].as_ptr());
    let u = f.create(Some(&s), 1, Some("cdef".to_string()), 0, 2, 5, 1, 2);
    assert!(!u.is_text_borrowed());
    assert_ne!(u.get_text().as_ptr(), TEN[2..].as_ptr());
}

#[test]
fn arena_tokens_match_base() {
    let s = InputStream::new(TEN);
    let base = CommonTokenFactory::default();
    let arena = ArenaCommonFactory::default();
    let b = base.create(Some(&s), 3, None, 1, 2, 5, 7, 8);
    let a = arena.create(Some(&s), 3, None, 1, 2, 5, 7, 8);
    assert_eq!(a.get_text(), b.get_text());
    check_fields(a, 3, 1, 2, 5, 7, 8);
    check_fields(&*b, 3, 1, 2, 5, 7, 8);
    let b2 = base.create(Some(&s), 3, Some("x".to_string()), 1, 20, 25, 7, 8);
    let a2 = arena.create(Some(&s), 3, Some("x".to_string()), 1, 20, 25, 7, 8);
    assert_eq!(a2.get_text(), b2.get_text());
}

#[test]
fn arena_cow_tokens_match_base() {
    let s = InputStream::new(TEN);
    let base = CowTokenFactory::default();
    let arena = ArenaCowFactory::default();
    let b = base.create(Some(&s), 3, None, 1, 2, 5, 7, 8);
    let a = arena.create(Some(&s), 3, None, 1, 2, 5, 7, 8);
    assert_eq!(a.get_text(), b.get_text());
    assert!(a.is_text_borrowed());
    check_fields(a, 3, 1, 2, 5, 7, 8);
}

#[test]
fn arena_reference_survives_growth() {
    let s = InputStream::new(TEN);
    let arena = ArenaCommonFactory::default();
    let first = arena.create(Some(&s), 3, None, 1, 2, 5, 7, 8);
    let text_at = first.get_text().as_ptr();
    for _ in 0..10_000 {
        arena.create(Some(&s), 3, None, 1, 2, 5, 7, 8);
    }
    assert_eq!(first.get_text(), "cdef");
    check_fields(first, 3, 1, 2, 5, 7, 8);
    assert_eq!(first.get_text().as_ptr(), text_at);
}

#[test]
fn constructors_build_fresh_tokens() {
    let t = OwningToken::new(2, 1, 3, 4, 5, 6, "ab".to_string());
    check_fields(&t, 2, 1, 3, 4, 5, 6);
    assert_eq!(t.get_text(), "ab");
    let c = CommonToken::new(2, 1, 3, 4, 5, 6, CowText::Borrowed("cd"));
    check_fields(&c, 2, 1, 3, 4, 5, 6);
    assert_eq!(c.get_text(), "cd");
    assert!(c.is_text_borrowed());
    let o = CommonToken::new(2, 1, 3, 4, 5, 6, CowText::Owned("ef".to_string()));
    assert_eq!(o.get_text(), "ef");
    assert!(!o.is_text_borrowed());
}

#[test]
fn token_index_is_set_once() {
    let s = InputStream::new(TEN);
    let f = CommonTokenFactory::default();
    let mut t = f.create(Some(&s), 1, None, 0, 2, 5, 1, 2);
    assert_eq!(t.get_token_index(), -1);
    t.set_token_index(4);
    assert_eq!(t.get_token_index(), 4);
    assert_eq!(t.get_text(), "cdef");
    let g = CowTokenFactory::default();
    let mut c = g.create(Some(&s), 1, None, 0, 2, 5, 1, 2);
    assert_eq!(c.get_token_index(), -1);
    c.set_token_index(9);
    assert_eq!(c.get_token_index(), 9);
}
