//! A lexer for the part of the shell language that needs no quoting and no expansion.

use crate::text::{self, chars_of, is_whitespace, text_between};
use vstd::prelude::*;

verus! {

/// What a token stands for.
#[derive(Debug, Clone, Copy, PartialEq, Eq, Structural)]
pub enum TokenKind {
    /// A literal word.
    Arg,
    /// `&&`, `||` or `;`.
    Operator,
    /// `|`.
    Pipe,
    /// `<` or `>`.
    Redirect,
    /// Any other character that a shell does not take literally, and white space other than
    /// spaces and tabs.
    Shellism,
}

/// A token and the characters it was read from.
#[derive(Debug, Clone, PartialEq, Eq)]
pub struct Token {
    pub kind: TokenKind,
    pub value: String,
}

/// The mathematical counterpart of [`Token`].
#[verifier::ext_equal]
pub struct TokenView {
    pub kind: TokenKind,
    pub value: Seq<char>,
}

impl View for Token {
    type V = TokenView;

    open spec fn view(&self) -> TokenView {
        TokenView { kind: self.kind, value: self.value@ }
    }
}

impl DeepView for Token {
    type V = TokenView;

    open spec fn deep_view(&self) -> TokenView {
        self@
    }
}

/// Whether `character` separates words. A shell takes no other white space for a separator.
pub open spec fn separates_words(character: char) -> bool {
    character == ' ' || character == '\t'
}

/// The kind of the token that a character which ends a word stands for on its own.
pub open spec fn symbol_kind(character: char) -> Option<TokenKind> {
    if character == ';' {
        Some(TokenKind::Operator)
    } else if character == '|' {
        Some(TokenKind::Pipe)
    } else if character == '<' || character == '>' {
        Some(TokenKind::Redirect)
    } else if character == '&' || character == '*' || character == '?' || character == '('
        || character == ')' || character == '{' || character == '}' || character == '!'
        || character == '`' || character == '$' || character == '\'' || character == '"'
        || character == '\\' || character == '#' || character == '[' || character == ']' {
        Some(TokenKind::Shellism)
    } else if text::is_white_space(character) && !separates_words(character) {
        Some(TokenKind::Shellism)
    } else {
        None
    }
}

/// Whether a word goes on with `character`.
pub open spec fn is_word_char(character: char) -> bool {
    !separates_words(character) && symbol_kind(character) is None
}

/// How many word characters `text` starts with.
pub open spec fn word_length(text: Seq<char>) -> nat
    decreases text.len(),
{
    if text.len() > 0 && is_word_char(text.first()) {
        1 + word_length(text.drop_first())
    } else {
        0
    }
}

/// Whether `text` starts with `&&` or `||`.
pub open spec fn starts_with_pair(text: Seq<char>) -> bool {
    text.len() >= 2 && text[0] == text[1] && (text[0] == '&' || text[0] == '|')
}

/// The first token of a text that starts with no separator.
pub open spec fn first_token(text: Seq<char>) -> TokenView
    recommends
        text.len() > 0,
        !separates_words(text.first()),
{
    if starts_with_pair(text) {
        TokenView { kind: TokenKind::Operator, value: text.take(2) }
    } else {
        match symbol_kind(text.first()) {
            Some(kind) => TokenView { kind, value: text.take(1) },
            None => TokenView { kind: TokenKind::Arg, value: text.take(word_length(text) as int) },
        }
    }
}

/// The tokens of `text`: spaces and tabs separate words, and every symbol is a token.
pub open spec fn lex(text: Seq<char>) -> Seq<TokenView>
    decreases text.len(),
{
    if text.len() == 0 {
        Seq::empty()
    } else if separates_words(text.first()) {
        lex(text.drop_first())
    } else {
        let token = first_token(text);
        if 0 < token.value.len() <= text.len() {
            seq![token] + lex(text.skip(token.value.len() as int))
        } else {
            Seq::empty()
        }
    }
}

/// A first token is made of the characters that `text` starts with.
pub proof fn lemma_first_token(text: Seq<char>)
    requires
        text.len() > 0,
        !separates_words(text.first()),
    ensures
        0 < first_token(text).value.len() <= text.len(),
        first_token(text).value == text.take(first_token(text).value.len() as int),
{
    lemma_word_length(text);
}

/// A word is no longer than the text, and every character of it is a word character.
pub proof fn lemma_word_length(text: Seq<char>)
    ensures
        word_length(text) <= text.len(),
        forall|i: int| 0 <= i < word_length(text) ==> is_word_char(#[trigger] text[i]),
        word_length(text) < text.len() ==> !is_word_char(text[word_length(text) as int]),
    decreases text.len(),
{
    if text.len() > 0 && is_word_char(text.first()) {
        let rest = text.drop_first();
        lemma_word_length(rest);
        assert forall|i: int| 0 <= i < word_length(text) implies is_word_char(
            #[trigger] text[i],
        ) by {
            if i > 0 {
                assert(text[i] == rest[i - 1]);
            }
        }
        if word_length(text) < text.len() {
            assert(text[word_length(text) as int] == rest[word_length(rest) as int]);
        }
    }
}

/// Whether `character` separates words.
fn is_separator(character: char) -> (separator: bool)
    ensures
        separator == separates_words(character),
{
    character == ' ' || character == '\t'
}

/// The kind of the token that `character` stands for on its own, where it ends a word.
fn kind_of_symbol(character: char) -> (kind: Option<TokenKind>)
    ensures
        kind == symbol_kind(character),
{
    if character == ';' {
        Some(TokenKind::Operator)
    } else if character == '|' {
        Some(TokenKind::Pipe)
    } else if character == '<' || character == '>' {
        Some(TokenKind::Redirect)
    } else if character == '&' || character == '*' || character == '?' || character == '('
        || character == ')' || character == '{' || character == '}' || character == '!'
        || character == '`' || character == '$' || character == '\'' || character == '"'
        || character == '\\' || character == '#' || character == '[' || character == ']' {
        Some(TokenKind::Shellism)
    } else if is_whitespace(character) && !is_separator(character) {
        Some(TokenKind::Shellism)
    } else {
        None
    }
}

/// Where the word that starts at `from` ends.
fn word_end(chars: &Vec<char>, from: usize) -> (end: usize)
    requires
        from <= chars.len(),
    ensures
        end == from + word_length(chars@.skip(from as int)),
        from <= end <= chars.len(),
{
    let mut end: usize = from;
    while end < chars.len() && !is_separator(chars[end]) && kind_of_symbol(chars[end]).is_none()
        invariant
            from <= end <= chars.len(),
            end + word_length(chars@.skip(end as int)) == from + word_length(
                chars@.skip(from as int),
            ),
        decreases chars.len() - end,
    {
        assert(chars@.skip(end as int).drop_first() == chars@.skip(end + 1));
        end = end + 1;
    }
    end
}

/// Splits `chars` into tokens.
pub fn tokenize_chars(chars: &Vec<char>) -> (tokens: Vec<Token>)
    ensures
        tokens.deep_view() == lex(chars@),
{
    let mut tokens: Vec<Token> = Vec::new();
    let mut at: usize = 0;
    assert(chars@.skip(0) == chars@);
    while at < chars.len()
        invariant
            at <= chars.len(),
            tokens.deep_view() + lex(chars@.skip(at as int)) == lex(chars@),
        decreases chars.len() - at,
    {
        let ghost rest = chars@.skip(at as int);
        let ghost done = tokens.deep_view();
        if is_separator(chars[at]) {
            assert(rest.drop_first() == chars@.skip(at + 1));
            at = at + 1;
        } else {
            proof {
                lemma_first_token(rest);
            }
            let pair = at + 1 < chars.len() && chars[at] == chars[at + 1] && (chars[at] == '&'
                || chars[at] == '|');
            let (kind, end): (TokenKind, usize) = if pair {
                (TokenKind::Operator, at + 2)
            } else {
                match kind_of_symbol(chars[at]) {
                    Some(kind) => (kind, at + 1),
                    None => (TokenKind::Arg, word_end(chars, at)),
                }
            };
            let token = Token { kind, value: text_between(chars, at, end) };
            proof {
                assert(pair == starts_with_pair(rest));
                assert(chars@.subrange(at as int, end as int) == rest.take(end - at));
                assert(token@ == first_token(rest));
                assert(rest.skip(end - at) == chars@.skip(end as int));
                assert(lex(rest) == seq![token@] + lex(chars@.skip(end as int)));
            }
            tokens.push(token);
            proof {
                assert(tokens.deep_view() == done.push(token@));
                assert(done.push(token@) + lex(chars@.skip(end as int)) == done + lex(rest));
            }
            at = end;
        }
    }
    assert(lex(chars@.skip(at as int)) == Seq::<TokenView>::empty());
    assert(tokens.deep_view() + Seq::<TokenView>::empty() == tokens.deep_view());
    tokens
}

/// Splits `input` into tokens.
pub fn tokenize(input: &str) -> (tokens: Vec<Token>)
    ensures
        tokens.deep_view() == lex(input@),
{
    tokenize_chars(&chars_of(input))
}

} // verus!
