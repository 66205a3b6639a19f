//! Factories that turn lexical facts into tokens, one per representation,
//! and the arena-backed adapter over them.
use std::marker::PhantomData;

use typed_arena::Arena;
use vstd::prelude::*;

use crate::char_stream::CharStream;
use crate::token::{
    fresh_token, invalid_token, CommonToken, CowText, OwningToken, Token, TokenView,
};

verus! {

/// Text given to a token whose span lies past the end of its source.
pub const EOF_TEXT: &'static str = "<EOF>";

/// The model of an optional explicit text.
pub open spec fn text_view(text: Option<String>) -> Option<Seq<char>> {
    match text {
        Some(t) => Some(t@),
        None => None,
    }
}

/// Whether the span `[start, stop]` can be read from `source`: neither end
/// lies at or past its end.
pub open spec fn span_in_source<'b, S: CharStream<'b> + ?Sized>(source: &S, start: int, stop: int) -> bool {
    stop < source.len_spec() && start < source.len_spec()
}

/// The text a factory gives a token: the explicit text if there is one;
/// else, with a source, the span read from it or `<EOF>` where the span
/// runs past its end; else the empty text.
pub open spec fn resolved_text<'b, S: CharStream<'b> + ?Sized>(
    text: Option<Seq<char>>,
    source: Option<&S>,
    start: int,
    stop: int,
) -> Seq<char> {
    match text {
        Some(t) => t,
        None => match source {
            Some(x) => if span_in_source(x, start, stop) {
                x.text_spec(start, stop)
            } else {
                EOF_TEXT@
            },
            None => Seq::empty(),
        },
    }
}

/// The token that every factory's `create` describes: the given fields,
/// the text that `resolved_text` picks, index unset, writable.
pub open spec fn created_token<'b, S: CharStream<'b> + ?Sized>(
    ttype: int,
    text: Option<Seq<char>>,
    source: Option<&S>,
    channel: int,
    start: int,
    stop: int,
    line: int,
    column: int,
) -> TokenView {
    fresh_token(ttype, channel, start, stop, line, column, resolved_text(text, source, start, stop))
}

/// Whatever a factory hands out for a token (a box, a reference into an
/// arena), seen as the token it leads to.
pub trait TokenHandle {
    spec fn handle_view(&self) -> TokenView;
}

impl<T: Token> TokenHandle for Box<T> {
    open spec fn handle_view(&self) -> TokenView {
        (**self).token_view()
    }
}

impl<'x, T: Token> TokenHandle for &'x T {
    open spec fn handle_view(&self) -> TokenView {
        (**self).token_view()
    }
}

/// Builds tokens from the facts a scanner recognised, and hands out the
/// invalid sentinel.
pub trait TokenFactory<'a> {
    /// The token representation this factory builds.
    type Inner: Token + 'a;

    /// What a caller receives for each token.
    type Tok: TokenHandle + 'a;

    /// A token with the given fields and the text that `resolved_text`
    /// picks; its index is unset and it is writable.
    fn create<'b: 'a, S: CharStream<'b> + ?Sized>(
        &'a self,
        source: Option<&S>,
        ttype: isize,
        text: Option<String>,
        channel: isize,
        start: isize,
        stop: isize,
        line: isize,
        column: isize,
    ) -> (r: Self::Tok)
        ensures
            r.handle_view() == created_token(
                ttype as int,
                text_view(text),
                source,
                channel as int,
                start as int,
                stop as int,
                line as int,
                column as int,
            ),
    ;

    /// The invalid sentinel of this representation.
    fn create_invalid(&'a self) -> (r: Self::Tok)
        ensures
            r.handle_view() == invalid_token(),
    ;
}

/// Builds copy-on-write tokens: text read from the source is borrowed from
/// it, any other text is owned.
#[derive(Default)]
pub struct CowTokenFactory;

impl<'a> TokenFactory<'a> for CowTokenFactory {
    type Inner = CommonToken<'a>;

    type Tok = Box<CommonToken<'a>>;

    fn create<'b: 'a, S: CharStream<'b> + ?Sized>(
        &'a self,
        source: Option<&S>,
        ttype: isize,
        text: Option<String>,
        channel: isize,
        start: isize,
        stop: isize,
        line: isize,
        column: isize,
    ) -> (r: Self::Tok)
        ensures
            r.text_is_borrowed() <==> (text is None && source is Some && span_in_source(
                source.unwrap(),
                start as int,
                stop as int,
            )),
    {
        let ghost given = text_view(text);
        let text = match text {
            Some(t) => CowText::Owned(t),
            None => match source {
                Some(x) => {
                    if stop >= x.size() || start >= x.size() {
                        CowText::Owned(EOF_TEXT.to_owned())
                    } else {
                        CowText::Borrowed(x.get_text(start, stop))
                    }
                },
                None => CowText::Owned("".to_owned()),
            },
        };
        proof {
            reveal_strlit("");
            assert(text@ =~= resolved_text(given, source, start as int, stop as int));
        }
        let t = CommonToken::new(ttype, channel, start, stop, line, column, text);
        let b = Box::new(t);
        assert(b.handle_view() == t.token_view());
        b
    }

    fn create_invalid(&'a self) -> (r: Self::Tok) {
        let t = CommonToken::new_invalid();
        let b = Box::new(t);
        assert(b.handle_view() == t.token_view());
        b
    }
}

/// Builds owning tokens: every token's text is a buffer of its own.
#[derive(Default)]
pub struct CommonTokenFactory {}

impl<'a> TokenFactory<'a> for CommonTokenFactory {
    type Inner = OwningToken;

    type Tok = Box<OwningToken>;

    fn create<'b: 'a, S: CharStream<'b> + ?Sized>(
        &'a self,
        source: Option<&S>,
        ttype: isize,
        text: Option<String>,
        channel: isize,
        start: isize,
        stop: isize,
        line: isize,
        column: isize,
    ) -> (r: Self::Tok) {
        let ghost given = text_view(text);
        let text = match text {
            Some(t) => t,
            None => match source {
                Some(x) => {
                    let t = if stop >= x.size() || start >= x.size() {
                        EOF_TEXT
                    } else {
                        x.get_text(start, stop)
                    };
                    t.to_owned()
                },
                None => "".to_owned(),
            },
        };
        proof {
            reveal_strlit("");
            assert(text@ =~= resolved_text(given, source, start as int, stop as int));
        }
        let t = OwningToken::new(ttype, channel, start, stop, line, column, text);
        let b = Box::new(t);
        assert(b.handle_view() == t.token_view());
        b
    }

    fn create_invalid(&'a self) -> (r: Self::Tok) {
        let t = OwningToken::new_invalid();
        let b = Box::new(t);
        assert(b.handle_view() == t.token_view());
        b
    }
}

#[verifier::external_type_specification]
#[verifier::external_body]
#[verifier::reject_recursive_types(T)]
pub struct ExArena<T>(Arena<T>);

/// Relies on typed_arena::Arena::new: makes an empty arena.
#[verifier::external_body]
fn new_arena<T>() -> (r: Arena<T>) {
    Arena::new()
}

/// Relies on typed_arena::Arena::alloc: moves `value` into the arena and
/// returns a reference to it, valid as long as the arena is. Later
/// allocations never move it.
#[verifier::external_body]
fn alloc_in<'x, T>(arena: &'x Arena<T>, value: T) -> (r: &'x T)
    ensures
        *r == value,
{
    arena.alloc(value)
}

/// Wraps a factory that hands out boxed tokens and keeps the tokens in an
/// arena instead, handing out references into it. The references live as
/// long as the factory; the tokens are freed together when it is dropped.
/// The factory keeps its own invalid sentinel, so every call of
/// `create_invalid` returns a reference to one and the same token.
#[verifier::reject_recursive_types(T)]
pub struct ArenaFactory<'input, TF: TokenFactory<'input, Tok = Box<T>, Inner = T>, T: Token + 'input> {
    arena: Arena<T>,
    factory: TF,
    invalid: T,
    pd: PhantomData<&'input str>,
}

/// Arena factory over owning tokens.
pub type ArenaCommonFactory<'a> = ArenaFactory<'a, CommonTokenFactory, OwningToken>;

/// Arena factory over copy-on-write tokens.
pub type ArenaCowFactory<'a> = ArenaFactory<'a, CowTokenFactory, CommonToken<'a>>;

impl<'input, TF: TokenFactory<'input, Tok = Box<T>, Inner = T>, T: Token + 'input> ArenaFactory<'input, TF, T> {
    #[verifier::type_invariant]
    spec fn sentinel_is_invalid(&self) -> bool {
        self.invalid.token_view() == invalid_token()
    }

    /// The token that `create_invalid` hands out.
    pub closed spec fn sentinel(&self) -> TokenView {
        self.invalid.token_view()
    }
}

impl<'input, TF: TokenFactory<'input, Tok = Box<T>, Inner = T> + Default, T: Token + 'input> Default for ArenaFactory<'input, TF, T> {
    fn default() -> (r: Self)
        ensures
            r.sentinel() == invalid_token(),
    {
        ArenaFactory {
            arena: new_arena(),
            factory: TF::default(),
            invalid: T::new_invalid(),
            pd: PhantomData,
        }
    }
}

impl<'input, TF: TokenFactory<'input, Tok = Box<T>, Inner = T>, T: Token + 'input> TokenFactory<'input> for ArenaFactory<'input, TF, T> {
    type Inner = T;

    type Tok = &'input T;

    fn create<'b: 'input, S: CharStream<'b> + ?Sized>(
        &'input self,
        source: Option<&S>,
        ttype: isize,
        text: Option<String>,
        channel: isize,
        start: isize,
        stop: isize,
        line: isize,
        column: isize,
    ) -> (r: Self::Tok) {
        let token = self.factory.create(source, ttype, text, channel, start, stop, line, column);
        alloc_in(&self.arena, *token)
    }

    fn create_invalid(&'input self) -> (r: Self::Tok) {
        proof {
            use_type_invariant(self);
        }
        &self.invalid
    }
}

/// Something that works with tokens, and names the factory that builds them.
pub trait TokenAware<'input> {
    type TF: TokenFactory<'input> + 'input;
}

} // verus!
