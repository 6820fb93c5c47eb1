//! Token streams, seen as the flat list of what they hold.

use proc_macro2::{Group, Ident, Literal, Punct, Span, TokenStream};
use quote::TokenStreamExt;
use vstd::prelude::*;

verus! {

/// `proc_macro2::Span`, a position in source text. Nothing is known of what
/// it holds; it is handed through to whoever reports a diagnostic.
#[verifier::external_type_specification]
#[verifier::external_body]
pub struct ExSpan(Span);

/// `proc_macro2::TokenStream`. What it holds is spoken of through
/// [`lexemes`].
#[verifier::external_type_specification]
#[verifier::external_body]
pub struct ExTokenStream(TokenStream);

/// The three pairs of delimiters that enclose a group of tokens.
#[derive(Clone, Copy, Debug, PartialEq, Eq, Structural)]
pub enum Delimiter {
    Parenthesis,
    Brace,
    Bracket,
}

/// Whether a punctuation character is directly followed by another one.
#[derive(Clone, Copy, Debug, PartialEq, Eq, Structural)]
pub enum Spacing {
    Joint,
    Alone,
}

/// One entry of a token stream read from left to right. A group counts as its
/// opening delimiter, then what it encloses, then its closing delimiter.
pub enum Lexeme {
    /// An identifier or keyword.
    Word(Seq<char>),
    /// A punctuation character directly followed by another one.
    Joint(char),
    /// A punctuation character that stands alone.
    Alone(char),
    /// A string literal that denotes these characters.
    Text(Seq<char>),
    /// An integer literal with the suffix `u64`.
    Number(u64),
    Open(Delimiter),
    Close(Delimiter),
}

/// The entries of `stream` from left to right, spans left aside.
pub uninterp spec fn lexemes(stream: TokenStream) -> Seq<Lexeme>;

/// Whether `c` may stand in a word: an ASCII letter, a digit or `_`.
pub open spec fn is_word_char(c: char) -> bool {
    ('a' <= c && c <= 'z') || ('A' <= c && c <= 'Z') || ('0' <= c && c <= '9') || c == '_'
}

/// The identifiers that this crate writes: ASCII letters, digits and `_`,
/// starting with a letter.
pub open spec fn is_word(text: Seq<char>) -> bool {
    &&& text.len() > 0
    &&& ('a' <= text[0] && text[0] <= 'z') || ('A' <= text[0] && text[0] <= 'Z')
    &&& forall|i: int| 0 <= i < text.len() ==> is_word_char(#[trigger] text[i])
}

/// The punctuation characters that a token may hold.
pub open spec fn is_punctuation(c: char) -> bool {
    c == '!' || c == '#' || c == '$' || c == '%' || c == '&' || c == '\'' || c == '*' || c == '+'
        || c == ',' || c == '-' || c == '.' || c == '/' || c == ':' || c == ';' || c == '<'
        || c == '=' || c == '>' || c == '?' || c == '@' || c == '^' || c == '|' || c == '~'
}

/// `TokenStream::new`: a stream that holds nothing.
#[verifier::external_body]
pub(crate) fn empty_stream() -> (stream: TokenStream)
    ensures
        lexemes(stream) == Seq::<Lexeme>::empty(),
{
    TokenStream::new()
}

/// `Ident::new` at the call site, appended with `TokenStreamExt::append`:
/// the stream gains the identifier as its last entry. `Ident::new` panics on
/// text that is no identifier, which `is_word` leaves out.
#[verifier::external_body]
pub(crate) fn push_word(tokens: &mut TokenStream, word: &str)
    requires
        is_word(word@),
    ensures
        lexemes(*final(tokens)) == lexemes(*old(tokens)).push(Lexeme::Word(word@)),
{
    tokens.append(Ident::new(word, Span::call_site()));
}

/// `Punct::new`, appended with `TokenStreamExt::append`: the stream gains
/// the punctuation character as its last entry, with the given spacing.
/// `Punct::new` panics on other characters than those of `is_punctuation`.
#[verifier::external_body]
pub(crate) fn push_punct(tokens: &mut TokenStream, c: char, spacing: Spacing)
    requires
        is_punctuation(c),
    ensures
        lexemes(*final(tokens)) == lexemes(*old(tokens)).push(
            match spacing {
                Spacing::Joint => Lexeme::Joint(c),
                Spacing::Alone => Lexeme::Alone(c),
            },
        ),
{
    let spacing = match spacing {
        Spacing::Joint => proc_macro2::Spacing::Joint,
        Spacing::Alone => proc_macro2::Spacing::Alone,
    };
    tokens.append(Punct::new(c, spacing));
}

/// `Literal::string`, appended with `TokenStreamExt::append`: the stream
/// gains, as its last entry, a string literal that denotes `text`.
#[verifier::external_body]
pub(crate) fn push_text(tokens: &mut TokenStream, text: &str)
    ensures
        lexemes(*final(tokens)) == lexemes(*old(tokens)).push(Lexeme::Text(text@)),
{
    tokens.append(Literal::string(text));
}

/// `Literal::u64_suffixed`, appended with `TokenStreamExt::append`: the
/// stream gains, as its last entry, the literal of `number` with the suffix
/// `u64`.
#[verifier::external_body]
pub(crate) fn push_number(tokens: &mut TokenStream, number: u64)
    ensures
        lexemes(*final(tokens)) == lexemes(*old(tokens)).push(Lexeme::Number(number)),
{
    tokens.append(Literal::u64_suffixed(number));
}

/// `Group::new`, appended with `TokenStreamExt::append`: the stream gains a
/// group that encloses `inner` in the given delimiters.
#[verifier::external_body]
pub(crate) fn push_group(tokens: &mut TokenStream, delimiter: Delimiter, inner: TokenStream)
    ensures
        lexemes(*final(tokens)) == lexemes(*old(tokens)).push(Lexeme::Open(delimiter)) + lexemes(
            inner,
        ).push(Lexeme::Close(delimiter)),
{
    let delimiter = match delimiter {
        Delimiter::Parenthesis => proc_macro2::Delimiter::Parenthesis,
        Delimiter::Brace => proc_macro2::Delimiter::Brace,
        Delimiter::Bracket => proc_macro2::Delimiter::Bracket,
    };
    tokens.append(Group::new(delimiter, inner));
}

} // verus!
