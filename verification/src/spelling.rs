//! How command lines spell plans, character by character.

use crate::plan::{self, ChainOperator, PlanView};
use crate::shell_lexer::{self, TokenKind, TokenView};
use crate::text;
use vstd::prelude::*;

verus! {

/// The tokens' characters, with one space between every two tokens.
pub open spec fn spelled(tokens: Seq<TokenView>) -> Seq<char>
    decreases tokens.len(),
{
    if tokens.len() == 0 {
        Seq::empty()
    } else if tokens.len() == 1 {
        tokens[0].value
    } else {
        tokens[0].value + seq![' '] + spelled(tokens.drop_first())
    }
}

/// Whether a shell takes every character of `word` literally, and the word is not empty.
pub open spec fn plain_word(word: Seq<char>) -> bool {
    &&& word.len() > 0
    &&& forall|i: int|
        0 <= i < word.len() ==> shell_lexer::is_word_char(#[trigger] word[i]) && word[i]
            != '\0'
}

/// Whether every word of the plan is plain.
pub open spec fn plain_plan(plan: PlanView) -> bool {
    forall|i: int, j: int|
        0 <= i < plan.commands.len() && 0 <= j < plan.commands[i].len() ==> plain_word(
            #[trigger] plan.commands[i][j],
        )
}

/// A plain word, or the spelling of an operator.
pub open spec fn plain_token(token: TokenView) -> bool {
    ||| token.kind == TokenKind::Arg && plain_word(token.value)
    ||| exists|operator: ChainOperator| #[trigger]
        plan::operator_token(operator) == token
}

/// Whether `character` stands for itself in a command line that runs without a shell, or is part
/// of an operator between its commands.
pub open spec fn plannable(character: char) -> bool {
    &&& !plan::needs_shell(character)
    &&& shell_lexer::symbol_kind(character) is None || character == ';' || character == '&'
        || character == '|'
}

/// A command line that is planned holds, between the white space at its ends, no character that
/// quotes, expands, redirects or groups, and no white space but spaces and tabs.
pub proof fn law_planned_text_needs_no_expansion(command: Seq<char>)
    requires
        plan::plan_of(command) is Some,
    ensures
        ({
            let text = text::trimmed(command);
            forall|i: int|
                0 <= i < text.len() ==> plannable(#[trigger] text[i]) && (text::is_white_space(
                    text[i],
                ) ==> shell_lexer::separates_words(text[i]))
        }),
{
    let text = text::trimmed(command);
    let tokens = shell_lexer::lex(text);
    lemma_planned_kinds(tokens, Seq::empty(), Seq::empty(), Seq::empty());
    lemma_lexed_characters(text);
}

/// Whether `token` is a word or an operator.
spec fn chain_token(token: TokenView) -> bool {
    token.kind == TokenKind::Arg || token.kind
        == TokenKind::Operator
}

/// Only words and operators are planned.
proof fn lemma_planned_kinds(
    tokens: Seq<TokenView>,
    words: Seq<Seq<char>>,
    commands: Seq<Seq<Seq<char>>>,
    operators: Seq<ChainOperator>,
)
    requires
        plan::plan_after(tokens, words, commands, operators) is Some,
    ensures
        forall|i: int| 0 <= i < tokens.len() ==> chain_token(#[trigger] tokens[i]),
    decreases tokens.len(),
{
    if tokens.len() > 0 {
        let rest = tokens.drop_first();
        match tokens[0].kind {
            TokenKind::Arg => {
                lemma_planned_kinds(rest, words.push(tokens[0].value), commands, operators);
            },
            _ => {
                let operator = plan::operator_of(tokens[0].value)->0;
                lemma_planned_kinds(
                    rest,
                    Seq::empty(),
                    commands.push(words),
                    operators.push(operator),
                );
            },
        }
        assert forall|i: int| 0 <= i < tokens.len() implies chain_token(#[trigger] tokens[i]) by {
            if i > 0 {
                assert(tokens[i] == rest[i - 1]);
            }
        }
    }
}

/// Text that gives only words and operators holds no other symbol.
proof fn lemma_lexed_characters(text: Seq<char>)
    requires
        forall|i: int|
            0 <= i < shell_lexer::lex(text).len() ==> chain_token(
                #[trigger] shell_lexer::lex(text)[i],
            ),
    ensures
        forall|i: int|
            0 <= i < text.len() ==> (shell_lexer::symbol_kind(#[trigger] text[i]) is None
                || text[i] == ';' || text[i] == '&' || text[i] == '|'),
    decreases text.len(),
{
    let tokens = shell_lexer::lex(text);
    if text.len() == 0 {
    } else if shell_lexer::separates_words(text.first()) {
        let rest = text.drop_first();
        lemma_lexed_characters(rest);
        assert forall|i: int| 0 <= i < text.len() implies (shell_lexer::symbol_kind(
            #[trigger] text[i],
        ) is None || text[i] == ';' || text[i] == '&' || text[i] == '|') by {
            if i > 0 {
                assert(text[i] == rest[i - 1]);
            }
        }
    } else {
        let token = shell_lexer::first_token(text);
        let length = token.value.len() as int;
        let rest = text.skip(length);
        shell_lexer::lemma_first_token(text);
        shell_lexer::lemma_word_length(text);
        assert(tokens[0] == token);
        assert forall|i: int| 0 <= i < shell_lexer::lex(rest).len() implies chain_token(
            #[trigger] shell_lexer::lex(rest)[i],
        ) by {
            assert(shell_lexer::lex(rest)[i] == tokens[i + 1]);
        }
        lemma_lexed_characters(rest);
        assert forall|i: int| 0 <= i < text.len() implies (shell_lexer::symbol_kind(
            #[trigger] text[i],
        ) is None || text[i] == ';' || text[i] == '&' || text[i] == '|') by {
            if i >= length {
                assert(text[i] == rest[i - length]);
            } else if !shell_lexer::starts_with_pair(text) {
                if shell_lexer::symbol_kind(text.first()) is None {
                    assert(shell_lexer::is_word_char(text[i]));
                }
            }
        }
    }
}

/// A command line that spells a plan of plain words, with spaces between them, is planned as
/// exactly those words and operators.
pub proof fn law_spelled_plan_is_planned(plan: PlanView)
    requires
        plan.well_formed(),
        plain_plan(plan),
    ensures
        plan::plan_of(spelled(plan.tokens())) == Some(plan),
{
    let tokens = plan.tokens();
    let text = spelled(tokens);
    lemma_plain_commands(plan.commands.drop_last(), plan.operators);
    assert(plan::literal_command(plan.commands[plan.commands.len() - 1]));
    assert forall|i: int| 0 <= i < tokens.len() implies plain_token(#[trigger] tokens[i]) by {
        let joined = plan::joined_tokens(plan.commands.drop_last(), plan.operators);
        if i < joined.len() {
            assert(tokens[i] == joined[i]);
        } else {
            let j = i - joined.len();
            assert(tokens[i].value == plan.commands[plan.commands.len() - 1][j]);
        }
    }
    lemma_spelled_characters(tokens);
    lemma_spelled_is_lexed(tokens);
    assert(text::trimmed(text) == text);
    plan::law_plan_is_read_back(plan);
}

/// The finished commands of a plain plan give plain tokens.
proof fn lemma_plain_commands(
    commands: Seq<Seq<Seq<char>>>,
    operators: Seq<ChainOperator>,
)
    requires
        commands.len() == operators.len(),
        forall|i: int, j: int|
            0 <= i < commands.len() && 0 <= j < commands[i].len() ==> plain_word(
                #[trigger] commands[i][j],
            ),
    ensures
        forall|i: int|
            0 <= i < plan::joined_tokens(commands, operators).len() ==> plain_token(
                #[trigger] plan::joined_tokens(commands, operators)[i],
            ),
    decreases operators.len(),
{
    if operators.len() > 0 {
        let earlier = plan::joined_tokens(commands.drop_last(), operators.drop_last());
        let words = plan::word_tokens(commands.last());
        let all = plan::joined_tokens(commands, operators);
        lemma_plain_commands(commands.drop_last(), operators.drop_last());
        assert forall|i: int| 0 <= i < all.len() implies plain_token(#[trigger] all[i]) by {
            if i < earlier.len() {
                assert(all[i] == earlier[i]);
            } else if i < earlier.len() + words.len() {
                let j = i - earlier.len();
                assert(all[i] == words[j]);
                assert(words[j].value == commands[commands.len() - 1][j]);
            } else {
                assert(all[i] == plan::operator_token(operators.last()));
            }
        }
    }
}

/// Spelled plain tokens start and end with no white space and hold nothing that needs a shell.
proof fn lemma_spelled_characters(tokens: Seq<TokenView>)
    requires
        tokens.len() > 0,
        forall|i: int| 0 <= i < tokens.len() ==> plain_token(#[trigger] tokens[i]),
    ensures
        spelled(tokens).len() > 0,
        !text::is_white_space(spelled(tokens).first()),
        !text::is_white_space(spelled(tokens).last()),
        forall|i: int|
            0 <= i < spelled(tokens).len() ==> !plan::needs_shell(
                #[trigger] spelled(tokens)[i],
            ),
    decreases tokens.len(),
{
    let value = tokens[0].value;
    let text = spelled(tokens);
    assert(plain_token(tokens[0]));
    assert(value.len() > 0 && forall|i: int|
        0 <= i < value.len() ==> !text::is_white_space(#[trigger] value[i])
            && !plan::needs_shell(value[i])) by {
        if tokens[0].kind == TokenKind::Arg {
            assert(plain_word(value));
        }
    }
    if tokens.len() > 1 {
        let later = tokens.drop_first();
        assert forall|i: int| 0 <= i < later.len() implies plain_token(#[trigger] later[i]) by {
            assert(later[i] == tokens[i + 1]);
        }
        lemma_spelled_characters(later);
        assert forall|i: int| 0 <= i < text.len() implies !plan::needs_shell(
            #[trigger] text[i],
        ) by {
            if i < value.len() {
                assert(text[i] == value[i]);
            } else if i > value.len() {
                assert(text[i] == spelled(later)[i - value.len() - 1]);
            }
        }
        assert(text.first() == value[0]);
        assert(text.last() == spelled(later).last());
    } else {
        assert(text == value);
        assert(text.first() == value[0]);
        assert(text.last() == value[value.len() - 1]);
    }
}

/// A plain token is read back from its characters, whatever separate text follows.
proof fn lemma_token_is_lexed(token: TokenView, rest: Seq<char>)
    requires
        plain_token(token),
        rest.len() > 0 ==> rest[0] == ' ',
    ensures
        shell_lexer::lex(token.value + rest) == seq![token] + shell_lexer::lex(rest),
{
    let text = token.value + rest;
    if token.kind == TokenKind::Arg {
        assert(plain_word(token.value));
        lemma_word_is_measured(token.value, rest);
        assert(text.first() == token.value[0]);
        assert(text.take(token.value.len() as int) == token.value);
    } else {
        let operator = choose|operator: ChainOperator| #[trigger]
            plan::operator_token(operator) == token;
        assert(text.first() == token.value[0]);
        assert(text.take(token.value.len() as int) == token.value);
        if operator != ChainOperator::Sequence {
            assert(text[1] == token.value[1]);
        }
    }
    assert(shell_lexer::first_token(text) == token);
    assert(text.skip(token.value.len() as int) == rest);
}

/// A word is measured up to the white space behind it.
proof fn lemma_word_is_measured(word: Seq<char>, rest: Seq<char>)
    requires
        forall|i: int| 0 <= i < word.len() ==> shell_lexer::is_word_char(#[trigger] word[i]),
        rest.len() > 0 ==> rest[0] == ' ',
    ensures
        shell_lexer::word_length(word + rest) == word.len(),
    decreases word.len(),
{
    if word.len() == 0 {
        assert(word + rest == rest);
    } else {
        assert((word + rest).first() == word[0]);
        assert((word + rest).drop_first() == word.drop_first() + rest);
        lemma_word_is_measured(word.drop_first(), rest);
    }
}

/// Plain tokens are read back from their spelling.
proof fn lemma_spelled_is_lexed(tokens: Seq<TokenView>)
    requires
        forall|i: int| 0 <= i < tokens.len() ==> plain_token(#[trigger] tokens[i]),
    ensures
        shell_lexer::lex(spelled(tokens)) == tokens,
    decreases tokens.len(),
{
    if tokens.len() == 0 {
    } else if tokens.len() == 1 {
        let nothing = Seq::<char>::empty();
        lemma_token_is_lexed(tokens[0], nothing);
        assert(tokens[0].value + nothing == spelled(tokens));
        assert(seq![tokens[0]] + shell_lexer::lex(nothing) == tokens);
    } else {
        let later = tokens.drop_first();
        assert forall|i: int| 0 <= i < later.len() implies plain_token(#[trigger] later[i]) by {
            assert(later[i] == tokens[i + 1]);
        }
        lemma_spelled_is_lexed(later);
        let rest = seq![' '] + spelled(later);
        assert(rest.drop_first() == spelled(later));
        assert(shell_lexer::lex(rest) == later);
        lemma_token_is_lexed(tokens[0], rest);
        assert(tokens[0].value + rest == spelled(tokens));
        assert(seq![tokens[0]] + later == tokens);
    }
}

/// Whether a shell takes `character` literally wherever it stands in a word, except that a `~` at
/// the start of a word is expanded.
pub open spec fn ordinary(character: char) -> bool {
    &&& !text::is_white_space(character)
    &&& character != ';' && character != '&' && character != '|'
    &&& character != '<' && character != '>'
    &&& character != '*' && character != '?' && character != '[' && character != ']'
    &&& character != '(' && character != ')' && character != '{' && character != '}'
    &&& character != '!' && character != '`' && character != '$' && character != '#'
    &&& character != '\'' && character != '"' && character != '\\'
}

/// Every ordinary character is part of a word and rules no plan out, and no other character is part
/// of a word. Letters, digits and most punctuation are ordinary.
pub proof fn law_ordinary_characters_make_words(character: char)
    ensures
        shell_lexer::is_word_char(character) <==> ordinary(character),
        ordinary(character) && character != '\0' ==> !plan::needs_shell(character),
        ('a' <= character <= 'z' || 'A' <= character <= 'Z' || '0' <= character <= '9' || character
            == '=' || character == ',' || character == ':' || character == '@' || character == '.'
            || character == '/' || character == '-' || character == '_' || character == '+'
            || character == '%' || character == '^' || character == '~') ==> {
            &&& shell_lexer::is_word_char(character)
            &&& !plan::needs_shell(character)
        },
        character > '\u{3000}' ==> shell_lexer::is_word_char(character) && !plan::needs_shell(
            character,
        ),
{
}

/// The characters of `tokens`, in order.
pub open spec fn characters(tokens: Seq<TokenView>) -> Seq<char>
    decreases tokens.len(),
{
    if tokens.len() == 0 {
        Seq::empty()
    } else {
        tokens.first().value + characters(tokens.drop_first())
    }
}

/// `text` without its spaces and tabs.
pub open spec fn without_blanks(text: Seq<char>) -> Seq<char>
    decreases text.len(),
{
    if text.len() == 0 {
        text
    } else if text.first() == ' ' || text.first() == '\t' {
        without_blanks(text.drop_first())
    } else {
        seq![text.first()] + without_blanks(text.drop_first())
    }
}

/// Leading characters other than spaces and tabs stay.
proof fn lemma_without_blanks(lead: Seq<char>, rest: Seq<char>)
    requires
        forall|i: int| 0 <= i < lead.len() ==> #[trigger] lead[i] != ' ' && lead[i] != '\t',
    ensures
        without_blanks(lead + rest) == lead + without_blanks(rest),
    decreases lead.len(),
{
    if lead.len() == 0 {
        assert(lead + rest == rest);
        assert(lead + without_blanks(rest) == without_blanks(rest));
    } else {
        let text = lead + rest;
        let later = lead.drop_first();
        assert(text.first() == lead[0]);
        assert(text.drop_first() == later + rest);
        assert forall|i: int| 0 <= i < later.len() implies #[trigger] later[i] != ' ' && later[i]
            != '\t' by {
            assert(later[i] == lead[i + 1]);
        }
        lemma_without_blanks(later, rest);
        assert(seq![lead[0]] + (later + without_blanks(rest)) == lead + without_blanks(rest));
    }
}

/// Splitting a text into tokens loses nothing but its spaces and tabs, adds nothing, and keeps the
/// order.
pub proof fn law_tokens_keep_every_character(text: Seq<char>)
    ensures
        characters(shell_lexer::lex(text)) == without_blanks(text),
    decreases text.len(),
{
    if text.len() == 0 {
    } else if shell_lexer::separates_words(text.first()) {
        law_tokens_keep_every_character(text.drop_first());
    } else {
        let token = shell_lexer::first_token(text);
        let length = token.value.len() as int;
        let rest = text.skip(length);
        shell_lexer::lemma_first_token(text);
        shell_lexer::lemma_word_length(text);
        law_tokens_keep_every_character(rest);
        assert(shell_lexer::lex(text).first() == token);
        assert(shell_lexer::lex(text).drop_first() == shell_lexer::lex(rest));
        assert forall|i: int| 0 <= i < length implies #[trigger] token.value[i] != ' '
            && token.value[i] != '\t' by {
            assert(token.value[i] == text[i]);
            if !shell_lexer::starts_with_pair(text) && shell_lexer::symbol_kind(text.first())
                is None {
                assert(shell_lexer::is_word_char(text[i]));
            }
        }
        lemma_without_blanks(token.value, rest);
        assert(token.value + rest == text);
    }
}

/// The words and operators of a plan hold, in order, exactly the characters of the command line
/// without its spaces and tabs. Only a `;` at the end may be left out.
pub proof fn law_plan_keeps_every_character(command: Seq<char>)
    requires
        plan::plan_of(command) is Some,
    ensures
        ({
            let kept = characters(plan::plan_of(command)->0.tokens());
            let written = without_blanks(text::trimmed(command));
            written == kept || written == kept.push(';')
        }),
{
    let text = text::trimmed(command);
    let tokens = shell_lexer::lex(text);
    let plan = plan::plan_of(command)->0;
    law_tokens_keep_every_character(text);
    plan::law_plan_spells_its_tokens(tokens);
    let end = plan::operator_token(ChainOperator::Sequence);
    if tokens != plan.tokens() {
        lemma_characters_of_push(plan.tokens(), end);
        assert(characters(plan.tokens()) + seq![';'] == characters(plan.tokens()).push(';'));
    }
}

/// A token at the end adds its characters at the end.
proof fn lemma_characters_of_push(tokens: Seq<TokenView>, last: TokenView)
    ensures
        characters(tokens.push(last)) == characters(tokens) + last.value,
    decreases tokens.len(),
{
    let all = tokens.push(last);
    if tokens.len() == 0 {
        assert(all.drop_first() == Seq::<TokenView>::empty());
        assert(characters(all) == last.value + characters(all.drop_first()));
        assert(characters(tokens) + last.value == last.value);
    } else {
        assert(all.first() == tokens.first());
        assert(all.drop_first() == tokens.drop_first().push(last));
        lemma_characters_of_push(tokens.drop_first(), last);
        assert(tokens.first().value + (characters(tokens.drop_first()) + last.value) == characters(
            tokens,
        ) + last.value);
    }
}

/// A run of ordinary characters is one word, and the same word.
pub proof fn law_ordinary_word_is_one_token(word: Seq<char>)
    requires
        word.len() > 0,
        forall|i: int| 0 <= i < word.len() ==> ordinary(#[trigger] word[i]),
    ensures
        shell_lexer::lex(word) == seq![TokenView { kind: TokenKind::Arg, value: word }],
{
    let nothing = Seq::<char>::empty();
    assert(word + nothing == word);
    assert forall|i: int| 0 <= i < word.len() implies shell_lexer::is_word_char(
        #[trigger] word[i],
    ) by {
        law_ordinary_characters_make_words(word[i]);
    }
    lemma_word_is_measured(word, nothing);
    assert(word.take(word.len() as int) == word);
    assert(word.skip(word.len() as int) == nothing);
    assert(shell_lexer::first_token(word).value == word);
    assert(shell_lexer::lex(nothing) == Seq::<TokenView>::empty());
}

/// A word is measured alike before a space or a tab and at the end.
proof fn lemma_word_length_before_blank(text: Seq<char>, blank: char, rest: Seq<char>)
    requires
        blank == ' ' || blank == '\t',
    ensures
        shell_lexer::word_length(text + seq![blank] + rest) == shell_lexer::word_length(text),
    decreases text.len(),
{
    let all = text + seq![blank] + rest;
    if text.len() == 0 {
        assert(all.first() == blank);
    } else {
        assert(all.first() == text.first());
        assert(all.drop_first() == text.drop_first() + seq![blank] + rest);
        lemma_word_length_before_blank(text.drop_first(), blank, rest);
    }
}

/// A space or a tab always separates: what stands before it and what stands behind it are split
/// into tokens on their own.
pub proof fn law_blank_separates(text: Seq<char>, blank: char, rest: Seq<char>)
    requires
        blank == ' ' || blank == '\t',
    ensures
        shell_lexer::lex(text + seq![blank] + rest) == shell_lexer::lex(text) + shell_lexer::lex(
            rest,
        ),
    decreases text.len(),
{
    let all = text + seq![blank] + rest;
    if text.len() == 0 {
        assert(all.first() == blank);
        assert(all.drop_first() == rest);
        assert(shell_lexer::lex(text) + shell_lexer::lex(rest) == shell_lexer::lex(rest));
    } else if shell_lexer::separates_words(text.first()) {
        assert(all.first() == text.first());
        assert(all.drop_first() == text.drop_first() + seq![blank] + rest);
        law_blank_separates(text.drop_first(), blank, rest);
    } else {
        let token = shell_lexer::first_token(text);
        let length = token.value.len() as int;
        shell_lexer::lemma_first_token(text);
        lemma_word_length_before_blank(text, blank, rest);
        assert(all.first() == text.first());
        assert(all[1] == (if text.len() > 1 {
            text[1]
        } else {
            blank
        }));
        assert(shell_lexer::starts_with_pair(all) == shell_lexer::starts_with_pair(text));
        assert(all.take(length) == text.take(length));
        shell_lexer::lemma_word_length(text);
        let measured = shell_lexer::word_length(text) as int;
        assert(all.take(1) == text.take(1));
        assert(all.take(measured) == text.take(measured));
        assert(shell_lexer::first_token(all) == token);
        assert(all.skip(length) == text.skip(length) + seq![blank] + rest);
        law_blank_separates(text.skip(length), blank, rest);
        assert(seq![token] + (shell_lexer::lex(text.skip(length)) + shell_lexer::lex(rest))
            == shell_lexer::lex(text) + shell_lexer::lex(rest));
    }
}

/// Whether `word` is made of ordinary characters and stands for no home directory.
pub open spec fn ordinary_word(word: Seq<char>) -> bool {
    &&& word.len() > 0
    &&& word[0] != '~'
    &&& forall|i: int| 0 <= i < word.len() ==> ordinary(#[trigger] word[i]) && word[i] != '\0'
}

/// Every chain of commands whose words are ordinary is planned as exactly those words and
/// operators, when it is written with spaces between them.
pub proof fn law_ordinary_commands_are_planned(plan: PlanView)
    requires
        plan.commands.len() == plan.operators.len() + 1,
        forall|i: int| 0 <= i < plan.commands.len() ==> (#[trigger] plan.commands[i]).len() > 0,
        forall|i: int, j: int|
            0 <= i < plan.commands.len() && 0 <= j < plan.commands[i].len() ==> ordinary_word(
                #[trigger] plan.commands[i][j],
            ),
    ensures
        plan::plan_of(spelled(plan.tokens())) == Some(plan),
{
    assert forall|i: int| 0 <= i < plan.commands.len() implies plan::literal_command(
        #[trigger] plan.commands[i],
    ) by {
        let words = plan.commands[i];
        assert forall|j: int| 0 <= j < words.len() implies !plan::starts_with_tilde(
            #[trigger] words[j],
        ) by {
            assert(ordinary_word(plan.commands[i][j]));
        }
    }
    assert forall|i: int, j: int|
        0 <= i < plan.commands.len() && 0 <= j < plan.commands[i].len() implies plain_word(
        #[trigger] plan.commands[i][j],
    ) by {
        let word = plan.commands[i][j];
        assert(ordinary_word(word));
        assert forall|k: int| 0 <= k < word.len() implies shell_lexer::is_word_char(
            #[trigger] word[k],
        ) && word[k] != '\0' by {
            assert(ordinary(word[k]));
            law_ordinary_characters_make_words(word[k]);
        }
    }
    law_spelled_plan_is_planned(plan);
}

/// Two words joined by `&&`, `||` or `;` are planned as two commands with that operator.
pub proof fn law_operators_join_commands(first: Seq<char>, second: Seq<char>)
    requires
        ordinary_word(first),
        ordinary_word(second),
    ensures
        plan::plan_of(first + seq![' ', '&', '&', ' '] + second) == Some(
            PlanView { commands: seq![seq![first], seq![second]], operators: seq![ChainOperator::And] },
        ),
        plan::plan_of(first + seq![' ', '|', '|', ' '] + second) == Some(
            PlanView { commands: seq![seq![first], seq![second]], operators: seq![ChainOperator::Or] },
        ),
        plan::plan_of(first + seq![' ', ';', ' '] + second) == Some(
            PlanView {
                commands: seq![seq![first], seq![second]],
                operators: seq![ChainOperator::Sequence],
            },
        ),
{
    lemma_joined_pair(first, second, ChainOperator::And);
    lemma_joined_pair(first, second, ChainOperator::Or);
    lemma_joined_pair(first, second, ChainOperator::Sequence);
    assert(first + seq![' '] + (seq!['&', '&'] + seq![' '] + second) == first
        + seq![' ', '&', '&', ' '] + second);
    assert(first + seq![' '] + (seq!['|', '|'] + seq![' '] + second) == first
        + seq![' ', '|', '|', ' '] + second);
    assert(first + seq![' '] + (seq![';'] + seq![' '] + second) == first + seq![' ', ';', ' ']
        + second);
}

/// Two words around an operator are planned as two commands.
proof fn lemma_joined_pair(first: Seq<char>, second: Seq<char>, operator: ChainOperator)
    requires
        ordinary_word(first),
        ordinary_word(second),
    ensures
        plan::plan_of(first + seq![' '] + (plan::operator_text(operator) + seq![' '] + second))
            == Some(
            PlanView { commands: seq![seq![first], seq![second]], operators: seq![operator] },
        ),
{
    let plan = PlanView { commands: seq![seq![first], seq![second]], operators: seq![operator] };
    let word = |value: Seq<char>| TokenView { kind: TokenKind::Arg, value };
    let tokens = seq![word(first), plan::operator_token(operator), word(second)];
    assert forall|i: int, j: int|
        0 <= i < plan.commands.len() && 0 <= j < plan.commands[i].len() implies ordinary_word(
        #[trigger] plan.commands[i][j],
    ) by {
        assert(plan.commands[i][j] == first || plan.commands[i][j] == second);
    }
    law_ordinary_commands_are_planned(plan);
    reveal_with_fuel(plan::joined_tokens, 3);
    assert(plan.tokens() =~= tokens);
    let later = tokens.drop_first();
    assert(later =~= seq![plan::operator_token(operator), word(second)]);
    assert(later.drop_first() =~= seq![word(second)]);
    reveal_with_fuel(spelled, 4);
    assert(spelled(tokens) == first + seq![' '] + (plan::operator_text(operator) + seq![' ']
        + second));
}

/// A command line that is planned holds no quote, no backslash, no line break, no expansion, no
/// redirection, no group and no comment, and none of its words starts with `~`.
pub proof fn law_planned_line_is_literal(command: Seq<char>)
    requires
        plan::plan_of(command) is Some,
    ensures
        ({
            let text = text::trimmed(command);
            forall|i: int|
                0 <= i < text.len() ==> {
                    let character = #[trigger] text[i];
                    &&& character != '\'' && character != '"' && character != '\\'
                    &&& character != '\n' && character != '\r' && character != '\0'
                    &&& character != '$' && character != '`' && character != '#'
                    &&& character != '*' && character != '?' && character != '[' && character
                        != ']'
                    &&& character != '<' && character != '>' && character != '!'
                    &&& character != '(' && character != ')' && character != '{' && character
                        != '}'
                }
        }),
        ({
            let plan = plan::plan_of(command)->0;
            forall|i: int, j: int|
                0 <= i < plan.commands.len() && 0 <= j < plan.commands[i].len() ==> {
                    let word = #[trigger] plan.commands[i][j];
                    word.len() > 0 ==> word[0] != '~'
                }
        }),
{
    law_planned_text_needs_no_expansion(command);
    plan::law_planned_command_is_well_formed(command);
    let text = text::trimmed(command);
    assert forall|i: int| 0 <= i < text.len() implies {
        let character = #[trigger] text[i];
        &&& character != '\'' && character != '"' && character != '\\'
        &&& character != '\n' && character != '\r' && character != '\0'
        &&& character != '$' && character != '`' && character != '#'
        &&& character != '*' && character != '?' && character != '[' && character != ']'
        &&& character != '<' && character != '>' && character != '!'
        &&& character != '(' && character != ')' && character != '{' && character != '}'
    } by {
        assert(plannable(text[i]));
    }
    let plan = plan::plan_of(command)->0;
    assert forall|i: int, j: int|
        0 <= i < plan.commands.len() && 0 <= j < plan.commands[i].len() implies {
        let word = #[trigger] plan.commands[i][j];
        word.len() > 0 ==> word[0] != '~'
    } by {
        assert(plan::literal_command(plan.commands[i]));
        assert(!plan::starts_with_tilde(plan.commands[i][j]));
    }
}

/// Word characters are measured up to the character that ends the word.
proof fn lemma_word_is_measured_up_to(word: Seq<char>, rest: Seq<char>)
    requires
        forall|i: int| 0 <= i < word.len() ==> shell_lexer::is_word_char(#[trigger] word[i]),
        rest.len() > 0,
        !shell_lexer::is_word_char(rest[0]),
    ensures
        shell_lexer::word_length(word + rest) == word.len(),
    decreases word.len(),
{
    if word.len() == 0 {
        assert(word + rest == rest);
    } else {
        assert((word + rest).first() == word[0]);
        assert((word + rest).drop_first() == word.drop_first() + rest);
        lemma_word_is_measured_up_to(word.drop_first(), rest);
    }
}

/// An operator needs no spaces around it: it ends the word before it, is a token of its own, and what
/// follows it is split on its own.
pub proof fn law_operator_needs_no_space(word: Seq<char>, rest: Seq<char>)
    requires
        word.len() > 0,
        forall|i: int| 0 <= i < word.len() ==> ordinary(#[trigger] word[i]),
    ensures
        ({
            let arg = TokenView { kind: TokenKind::Arg, value: word };
            let operator = |value: Seq<char>| TokenView { kind: TokenKind::Operator, value };
            &&& shell_lexer::lex(word + (seq!['&', '&'] + rest)) == seq![
                arg,
                operator(seq!['&', '&']),
            ] + shell_lexer::lex(rest)
            &&& shell_lexer::lex(word + (seq!['|', '|'] + rest)) == seq![
                arg,
                operator(seq!['|', '|']),
            ] + shell_lexer::lex(rest)
            &&& shell_lexer::lex(word + (seq![';'] + rest)) == seq![arg, operator(seq![';'])]
                + shell_lexer::lex(rest)
        }),
{
    lemma_operator_behind_a_word(word, ChainOperator::And, rest);
    lemma_operator_behind_a_word(word, ChainOperator::Or, rest);
    lemma_operator_behind_a_word(word, ChainOperator::Sequence, rest);
}

/// A word and an operator right behind it are two tokens.
proof fn lemma_operator_behind_a_word(
    word: Seq<char>,
    operator: ChainOperator,
    rest: Seq<char>,
)
    requires
        word.len() > 0,
        forall|i: int| 0 <= i < word.len() ==> ordinary(#[trigger] word[i]),
    ensures
        shell_lexer::lex(word + (plan::operator_text(operator) + rest)) == seq![
            TokenView { kind: TokenKind::Arg, value: word },
            plan::operator_token(operator),
        ] + shell_lexer::lex(rest),
{
    let arg = TokenView { kind: TokenKind::Arg, value: word };
    let value = plan::operator_text(operator);
    let behind = value + rest;
    let text = word + behind;
    assert forall|i: int| 0 <= i < word.len() implies shell_lexer::is_word_char(
        #[trigger] word[i],
    ) by {
        law_ordinary_characters_make_words(word[i]);
    }
    assert(behind[0] == value[0]);
    lemma_word_is_measured_up_to(word, behind);
    assert(text.first() == word[0]);
    assert(text.take(word.len() as int) == word);
    assert(text.skip(word.len() as int) == behind);
    assert(shell_lexer::first_token(text) == arg);
    if operator != ChainOperator::Sequence {
        assert(behind[1] == value[1]);
    }
    assert(behind.take(value.len() as int) == value);
    assert(behind.skip(value.len() as int) == rest);
    assert(shell_lexer::first_token(behind) == plan::operator_token(operator));
    assert(shell_lexer::lex(behind) == seq![plan::operator_token(operator)] + shell_lexer::lex(
        rest,
    ));
    assert(shell_lexer::lex(text) == seq![arg] + shell_lexer::lex(behind));
    assert(seq![arg] + (seq![plan::operator_token(operator)] + shell_lexer::lex(rest)) == seq![
        arg,
        plan::operator_token(operator),
    ] + shell_lexer::lex(rest));
}

/// How many spaces and tabs stand between two parts of a command line does not change its plan.
pub proof fn law_extra_blanks_do_not_matter(
    first: Seq<char>,
    blank: char,
    other: char,
    second: Seq<char>,
)
    requires
        blank == ' ' || blank == '\t',
        other == ' ' || other == '\t',
        first.len() > 0,
        !text::is_white_space(first.first()),
        second.len() > 0,
        !text::is_white_space(second.last()),
    ensures
        plan::plan_of(first + seq![blank] + second) == plan::plan_of(
            first + seq![blank] + (seq![other] + second),
        ),
{
    let narrow = first + seq![blank] + second;
    let padded = seq![other] + second;
    let wide = first + seq![blank] + padded;
    assert(narrow.first() == first.first() && narrow.last() == second.last());
    assert(wide.first() == first.first() && wide.last() == second.last());
    assert(text::trimmed(narrow) == narrow);
    assert(text::trimmed(wide) == wide);
    law_blank_separates(first, blank, second);
    law_blank_separates(first, blank, padded);
    assert(shell_lexer::lex(padded) == shell_lexer::lex(second)) by {
        assert(padded.first() == other);
        assert(padded.drop_first() == second);
    }
    let at = first.len() as int;
    if exists|i: int| 0 <= i < narrow.len() && plan::needs_shell(#[trigger] narrow[i]) {
        let i = choose|i: int| 0 <= i < narrow.len() && plan::needs_shell(#[trigger] narrow[i]);
        if i <= at {
            assert(wide[i] == narrow[i]);
        } else {
            assert(wide[i + 1] == narrow[i]);
        }
    }
    if exists|i: int| 0 <= i < wide.len() && plan::needs_shell(#[trigger] wide[i]) {
        let i = choose|i: int| 0 <= i < wide.len() && plan::needs_shell(#[trigger] wide[i]);
        if i <= at {
            assert(narrow[i] == wide[i]);
        } else {
            assert(i != at + 1);
            assert(narrow[i - 1] == wide[i]);
        }
    }
}

} // verus!
