//! Tokens: the read surface shared by every representation, and the two
//! representations themselves.
use vstd::prelude::*;

verus! {

/// Token type reserved for the invalid sentinel.
pub const TOKEN_INVALID_TYPE: isize = 0;

/// Value of `token_index` before the token stream assigns one.
pub const TOKEN_INDEX_UNSET: isize = -1;

/// Text of the invalid sentinel token.
pub const INVALID_TEXT: &'static str = "<invalid>";

/// Mathematical model of a token: all of its fields, with its text as a
/// sequence of characters.
pub struct TokenView {
    pub token_type: int,
    pub channel: int,
    pub start: int,
    pub stop: int,
    pub token_index: int,
    pub line: int,
    pub column: int,
    pub text: Seq<char>,
    pub read_only: bool,
}

/// The token that a factory builds from the given lexical facts and the
/// already resolved text: index unset, writable.
pub open spec fn fresh_token(
    token_type: int,
    channel: int,
    start: int,
    stop: int,
    line: int,
    column: int,
    text: Seq<char>,
) -> TokenView {
    TokenView {
        token_type,
        channel,
        start,
        stop,
        token_index: TOKEN_INDEX_UNSET as int,
        line,
        column,
        text,
        read_only: false,
    }
}

/// The invalid sentinel, the same for every representation.
pub open spec fn invalid_token() -> TokenView {
    TokenView {
        token_type: TOKEN_INVALID_TYPE as int,
        channel: 0,
        start: -1,
        stop: -1,
        token_index: TOKEN_INDEX_UNSET as int,
        line: -1,
        column: -1,
        text: INVALID_TEXT@,
        read_only: true,
    }
}

/// Read accessors for every field of a token, and the one mutator, for
/// `token_index`, which read-only tokens refuse.
pub trait Token {
    spec fn token_view(&self) -> TokenView;

    fn get_token_type(&self) -> (r: isize)
        ensures
            r as int == self.token_view().token_type,
    ;

    fn get_channel(&self) -> (r: isize)
        ensures
            r as int == self.token_view().channel,
    ;

    fn get_start(&self) -> (r: isize)
        ensures
            r as int == self.token_view().start,
    ;

    fn get_stop(&self) -> (r: isize)
        ensures
            r as int == self.token_view().stop,
    ;

    fn get_line(&self) -> (r: isize)
        ensures
            r as int == self.token_view().line,
    ;

    fn get_column(&self) -> (r: isize)
        ensures
            r as int == self.token_view().column,
    ;

    fn get_token_index(&self) -> (r: isize)
        ensures
            r as int == self.token_view().token_index,
    ;

    fn get_text(&self) -> (r: &str)
        ensures
            r@ == self.token_view().text,
    ;

    fn is_read_only(&self) -> (r: bool)
        ensures
            r == self.token_view().read_only,
    ;

    /// A fresh copy of this representation's invalid sentinel.
    fn new_invalid() -> (r: Self) where Self: Sized
        ensures
            r.token_view() == invalid_token(),
    ;

    /// Assigns the token's position in the stream. Read-only tokens (the
    /// sentinels) may not be changed.
    fn set_token_index(&mut self, index: isize)
        requires
            !old(self).token_view().read_only,
        ensures
            final(self).token_view() == (TokenView { token_index: index as int, ..old(self).token_view() }),
    ;
}

/// A token whose text is always a buffer of its own.
pub struct OwningToken {
    token_type: isize,
    channel: isize,
    start: isize,
    stop: isize,
    token_index: isize,
    line: isize,
    column: isize,
    text: String,
    read_only: bool,
}

impl OwningToken {
    /// A writable token with no index yet, holding `text` as its own.
    pub fn new(
        token_type: isize,
        channel: isize,
        start: isize,
        stop: isize,
        line: isize,
        column: isize,
        text: String,
    ) -> (r: OwningToken)
        ensures
            r.token_view() == fresh_token(
                token_type as int,
                channel as int,
                start as int,
                stop as int,
                line as int,
                column as int,
                text@,
            ),
    {
        OwningToken {
            token_type,
            channel,
            start,
            stop,
            token_index: TOKEN_INDEX_UNSET,
            line,
            column,
            text,
            read_only: false,
        }
    }
}

impl Token for OwningToken {
    closed spec fn token_view(&self) -> TokenView {
        TokenView {
            token_type: self.token_type as int,
            channel: self.channel as int,
            start: self.start as int,
            stop: self.stop as int,
            token_index: self.token_index as int,
            line: self.line as int,
            column: self.column as int,
            text: self.text@,
            read_only: self.read_only,
        }
    }

    fn get_token_type(&self) -> (r: isize) {
        self.token_type
    }

    fn get_channel(&self) -> (r: isize) {
        self.channel
    }

    fn get_start(&self) -> (r: isize) {
        self.start
    }

    fn get_stop(&self) -> (r: isize) {
        self.stop
    }

    fn get_line(&self) -> (r: isize) {
        self.line
    }

    fn get_column(&self) -> (r: isize) {
        self.column
    }

    fn get_token_index(&self) -> (r: isize) {
        self.token_index
    }

    fn get_text(&self) -> (r: &str) {
        self.text.as_str()
    }

    fn is_read_only(&self) -> (r: bool) {
        self.read_only
    }

    fn set_token_index(&mut self, index: isize) {
        self.token_index = index;
    }

    fn new_invalid() -> (r: Self) {
        OwningToken {
            token_type: TOKEN_INVALID_TYPE,
            channel: 0,
            start: -1,
            stop: -1,
            token_index: TOKEN_INDEX_UNSET,
            line: -1,
            column: -1,
            text: INVALID_TEXT.to_owned(),
            read_only: true,
        }
    }
}

/// Copy-on-write text: a view into the source's buffer, or a buffer of the
/// token's own.
pub enum CowText<'a> {
    Borrowed(&'a str),
    Owned(String),
}

impl<'a> CowText<'a> {
    pub open spec fn view(&self) -> Seq<char> {
        match self {
            CowText::Borrowed(s) => s@,
            CowText::Owned(s) => s@,
        }
    }

    /// The text, whichever case holds it.
    pub fn as_str(&self) -> (r: &str)
        ensures
            r@ == self.view(),
    {
        match self {
            CowText::Borrowed(s) => s,
            CowText::Owned(s) => s.as_str(),
        }
    }

    pub fn is_borrowed(&self) -> (r: bool)
        ensures
            r == (self is Borrowed),
    {
        match self {
            CowText::Borrowed(_) => true,
            CowText::Owned(_) => false,
        }
    }
}

/// A token whose text is a copy-on-write value: borrowed from the source
/// where the span exists there, owned otherwise.
pub struct CommonToken<'a> {
    token_type: isize,
    channel: isize,
    start: isize,
    stop: isize,
    token_index: isize,
    line: isize,
    column: isize,
    text: CowText<'a>,
    read_only: bool,
}

impl<'a> CommonToken<'a> {
    /// Whether the token's text is a view into its source rather than a
    /// buffer of its own.
    pub closed spec fn text_is_borrowed(&self) -> bool {
        self.text is Borrowed
    }

    /// A writable token with no index yet and the given text, borrowed or
    /// owned as given.
    pub fn new(
        token_type: isize,
        channel: isize,
        start: isize,
        stop: isize,
        line: isize,
        column: isize,
        text: CowText<'a>,
    ) -> (r: CommonToken<'a>)
        ensures
            r.token_view() == fresh_token(
                token_type as int,
                channel as int,
                start as int,
                stop as int,
                line as int,
                column as int,
                text@,
            ),
            r.text_is_borrowed() == (text is Borrowed),
    {
        CommonToken {
            token_type,
            channel,
            start,
            stop,
            token_index: TOKEN_INDEX_UNSET,
            line,
            column,
            text,
            read_only: false,
        }
    }

    /// Whether the token's text is a view into its source.
    pub fn is_text_borrowed(&self) -> (r: bool)
        ensures
            r == self.text_is_borrowed(),
    {
        self.text.is_borrowed()
    }
}

impl<'a> Token for CommonToken<'a> {
    closed spec fn token_view(&self) -> TokenView {
        TokenView {
            token_type: self.token_type as int,
            channel: self.channel as int,
            start: self.start as int,
            stop: self.stop as int,
            token_index: self.token_index as int,
            line: self.line as int,
            column: self.column as int,
            text: self.text.view(),
            read_only: self.read_only,
        }
    }

    fn get_token_type(&self) -> (r: isize) {
        self.token_type
    }

    fn get_channel(&self) -> (r: isize) {
        self.channel
    }

    fn get_start(&self) -> (r: isize) {
        self.start
    }

    fn get_stop(&self) -> (r: isize) {
        self.stop
    }

    fn get_line(&self) -> (r: isize) {
        self.line
    }

    fn get_column(&self) -> (r: isize) {
        self.column
    }

    fn get_token_index(&self) -> (r: isize) {
        self.token_index
    }

    fn get_text(&self) -> (r: &str) {
        self.text.as_str()
    }

    fn is_read_only(&self) -> (r: bool) {
        self.read_only
    }

    fn set_token_index(&mut self, index: isize) {
        self.token_index = index;
    }

    fn new_invalid() -> (r: Self) {
        CommonToken {
            token_type: TOKEN_INVALID_TYPE,
            channel: 0,
            start: -1,
            stop: -1,
            token_index: TOKEN_INDEX_UNSET,
            line: -1,
            column: -1,
            text: CowText::Borrowed(INVALID_TEXT),
            read_only: true,
        }
    }
}

} // verus!
