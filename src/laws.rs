//! Properties of the factories, stated over the contracts they all share.
use vstd::prelude::*;

use crate::char_stream::CharStream;
use crate::common_token_factory::{created_token, TokenFactory, TokenHandle, EOF_TEXT};
use crate::token::{TOKEN_INDEX_UNSET, TOKEN_INVALID_TYPE};

verus! {

/// Every factory's `create_invalid` gives the same token on every call:
/// the read-only sentinel with the invalid type.
pub proof fn invalid_is_one_sentinel<'a, F: TokenFactory<'a>>(f: &'a F, x: F::Tok, y: F::Tok)
    requires
        call_ensures(F::create_invalid, (f,), x),
        call_ensures(F::create_invalid, (f,), y),
    ensures
        x.handle_view() == y.handle_view(),
        x.handle_view().token_type == TOKEN_INVALID_TYPE as int,
        x.handle_view().read_only,
{
}

/// An explicit text becomes the created token's text, whatever source and
/// span are given.
pub proof fn explicit_text_is_kept<'b, S: CharStream<'b> + ?Sized>(
    ttype: int,
    text: Seq<char>,
    source: Option<&S>,
    channel: int,
    start: int,
    stop: int,
    line: int,
    column: int,
)
    ensures
        created_token(ttype, Some(text), source, channel, start, stop, line, column).text == text,
{
}

/// Without an explicit text, a span whose ends both lie before the end of
/// the source gives the source's text for that span.
pub proof fn span_text_is_read<'b, S: CharStream<'b> + ?Sized>(
    ttype: int,
    source: &S,
    channel: int,
    start: int,
    stop: int,
    line: int,
    column: int,
)
    requires
        start < source.len_spec(),
        stop < source.len_spec(),
    ensures
        created_token(ttype, None, Some(source), channel, start, stop, line, column).text
            == source.text_spec(start, stop),
{
}

/// Without an explicit text, a span with an end at or past the end of the
/// source gives the text `<EOF>`.
pub proof fn span_past_end_is_eof<'b, S: CharStream<'b> + ?Sized>(
    ttype: int,
    source: &S,
    channel: int,
    start: int,
    stop: int,
    line: int,
    column: int,
)
    requires
        start >= source.len_spec() || stop >= source.len_spec(),
    ensures
        created_token(ttype, None, Some(source), channel, start, stop, line, column).text
            == EOF_TEXT@,
{
}

/// A created token has no index yet and is writable, whatever it was
/// created from.
pub proof fn created_index_is_unset<'b, S: CharStream<'b> + ?Sized>(
    ttype: int,
    text: Option<Seq<char>>,
    source: Option<&S>,
    channel: int,
    start: int,
    stop: int,
    line: int,
    column: int,
)
    ensures
        created_token(ttype, text, source, channel, start, stop, line, column).token_index
            == TOKEN_INDEX_UNSET as int,
        !created_token(ttype, text, source, channel, start, stop, line, column).read_only,
{
}

} // verus!
