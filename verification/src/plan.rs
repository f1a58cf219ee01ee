//! Plans for command lines that can run without a shell.

use crate::shell_lexer::{self, tokenize_chars, Token, TokenKind, TokenView};
use crate::text::{self, first_char, same_text, trimmed_chars};
use vstd::prelude::*;

verus! {

/// What joins two commands of a chain.
#[derive(Debug, Clone, Copy, PartialEq, Eq, Structural)]
pub enum ChainOperator {
    /// `&&`: go on after a success.
    And,
    /// `||`: go on after a failure.
    Or,
    /// `;`: go on in any case.
    Sequence,
}

/// Literal commands and the operators between them.
#[derive(Debug, Clone, PartialEq, Eq)]
pub struct DirectPlan {
    pub commands: Vec<Vec<String>>,
    pub operators: Vec<ChainOperator>,
}

/// The mathematical counterpart of [`DirectPlan`].
#[verifier::ext_equal]
pub struct PlanView {
    pub commands: Seq<Seq<Seq<char>>>,
    pub operators: Seq<ChainOperator>,
}

impl View for DirectPlan {
    type V = PlanView;

    open spec fn view(&self) -> PlanView {
        PlanView { commands: self.commands.deep_view(), operators: self.operators@ }
    }
}

impl PlanView {
    /// One operator between every two commands, and no command without a word or with a word
    /// that a shell would expand to a home directory.
    pub open spec fn well_formed(self) -> bool {
        &&& self.commands.len() == self.operators.len() + 1
        &&& forall|i: int| 0 <= i < self.commands.len() ==> literal_command(#[trigger] self.commands[i])
    }
}

/// Whether `words` can be handed to a program as they stand.
pub open spec fn literal_command(words: Seq<Seq<char>>) -> bool {
    &&& words.len() > 0
    &&& forall|i: int| 0 <= i < words.len() ==> !starts_with_tilde(#[trigger] words[i])
}

/// Whether `word` starts with `~`.
pub open spec fn starts_with_tilde(word: Seq<char>) -> bool {
    word.len() > 0 && word[0] == '~'
}

/// The operator that a token's characters spell.
pub open spec fn operator_of(value: Seq<char>) -> Option<ChainOperator> {
    if value == seq!['&', '&'] {
        Some(ChainOperator::And)
    } else if value == seq!['|', '|'] {
        Some(ChainOperator::Or)
    } else if value == seq![';'] {
        Some(ChainOperator::Sequence)
    } else {
        None
    }
}

/// The plan that `tokens` complete, after `words` of a command that is still open, the finished
/// `commands`, and the `operators` that ended them.
pub open spec fn plan_after(
    tokens: Seq<TokenView>,
    words: Seq<Seq<char>>,
    commands: Seq<Seq<Seq<char>>>,
    operators: Seq<ChainOperator>,
) -> Option<PlanView>
    decreases tokens.len(),
{
    if tokens.len() == 0 {
        if words.len() > 0 {
            Some(PlanView { commands: commands.push(words), operators })
        } else if operators.len() > 0 && operators.last() == ChainOperator::Sequence {
            Some(PlanView { commands, operators: operators.drop_last() })
        } else {
            None
        }
    } else {
        let token = tokens.first();
        let rest = tokens.drop_first();
        match token.kind {
            TokenKind::Arg => if starts_with_tilde(token.value) {
                None
            } else {
                plan_after(rest, words.push(token.value), commands, operators)
            },
            TokenKind::Operator => match operator_of(token.value) {
                Some(operator) if words.len() > 0 => plan_after(
                    rest,
                    Seq::empty(),
                    commands.push(words),
                    operators.push(operator),
                ),
                _ => None,
            },
            _ => None,
        }
    }
}

/// The plan that `tokens` spell, if they spell one.
pub open spec fn plan_of_tokens(tokens: Seq<TokenView>) -> Option<PlanView> {
    plan_after(tokens, Seq::empty(), Seq::empty(), Seq::empty())
}

/// The characters that rule a direct plan out wherever they stand in the command line.
pub open spec fn needs_shell(character: char) -> bool {
    ||| character == '\''
    ||| character == '"'
    ||| character == '\\'
    ||| character == '\n'
    ||| character == '\r'
    ||| character == '\0'
    ||| character == '$'
    ||| character == '#'
    ||| character == '['
    ||| character == ']'
}

/// The plan for `command`, if it can run without a shell.
pub open spec fn plan_of(command: Seq<char>) -> Option<PlanView> {
    let text = text::trimmed(command);
    if text.len() == 0 || exists|i: int| 0 <= i < text.len() && needs_shell(#[trigger] text[i]) {
        None
    } else {
        plan_of_tokens(shell_lexer::lex(text))
    }
}

/// The view of an optional plan.
pub open spec fn plan_view(plan: Option<DirectPlan>) -> Option<PlanView> {
    match plan {
        Some(plan) => Some(plan@),
        None => None,
    }
}

/// Whether the next command of a chain runs after one that ended with `previous_exit_code`.
pub open spec fn runs_after(operator: ChainOperator, previous_exit_code: i32) -> bool {
    match operator {
        ChainOperator::And => previous_exit_code == 0,
        ChainOperator::Or => previous_exit_code != 0,
        ChainOperator::Sequence => true,
    }
}

/// Whether the command behind `operator` runs after one that ended with `previous_exit_code`.
pub fn should_run(operator: ChainOperator, previous_exit_code: i32) -> (run: bool)
    ensures
        operator == ChainOperator::And ==> (run <==> previous_exit_code == 0),
        operator == ChainOperator::Or ==> (run <==> previous_exit_code != 0),
        operator == ChainOperator::Sequence ==> run,
        run == runs_after(operator, previous_exit_code),
{
    match operator {
        ChainOperator::And => previous_exit_code == 0,
        ChainOperator::Or => previous_exit_code != 0,
        ChainOperator::Sequence => true,
    }
}

/// The operator that a token's characters spell.
fn operator_from(value: &str) -> (operator: Option<ChainOperator>)
    ensures
        operator == operator_of(value@),
{
    proof {
        reveal_strlit("&&");
        reveal_strlit("||");
        reveal_strlit(";");
        assert("&&"@ =~= seq!['&', '&']);
        assert("||"@ =~= seq!['|', '|']);
        assert(";"@ =~= seq![';']);
    }
    if same_text(value, "&&") {
        Some(ChainOperator::And)
    } else if same_text(value, "||") {
        Some(ChainOperator::Or)
    } else if same_text(value, ";") {
        Some(ChainOperator::Sequence)
    } else {
        None
    }
}

/// Whether `word` starts with `~`.
fn is_home_relative(word: &str) -> (tilde: bool)
    ensures
        tilde == starts_with_tilde(word@),
{
    first_char(word) == Some('~')
}

/// Whether `character` rules a direct plan out.
fn is_shell_only(character: char) -> (shell: bool)
    ensures
        shell == needs_shell(character),
{
    character == '\'' || character == '"' || character == '\\' || character == '\n' || character
        == '\r' || character == '\0' || character == '$' || character == '#' || character == '['
        || character == ']'
}

/// The plan that `tokens` spell: literal words joined by operators, with at most a `;` at the
/// end.
pub fn plan_tokens(tokens: &Vec<Token>) -> (plan: Option<DirectPlan>)
    ensures
        plan_view(plan) == plan_of_tokens(tokens.deep_view()),
{
    let mut commands: Vec<Vec<String>> = Vec::new();
    let mut operators: Vec<ChainOperator> = Vec::new();
    let mut words: Vec<String> = Vec::new();
    let mut at: usize = 0;
    let ghost all = tokens.deep_view();
    assert(all.skip(0) == all);
    assert(words.deep_view() == Seq::<Seq<char>>::empty());
    assert(commands.deep_view() == Seq::<Seq<Seq<char>>>::empty());
    while at < tokens.len()
        invariant
            at <= tokens.len(),
            all == tokens.deep_view(),
            plan_after(
                all.skip(at as int),
                words.deep_view(),
                commands.deep_view(),
                operators@,
            ) == plan_of_tokens(all),
        decreases tokens.len() - at,
    {
        let token = &tokens[at];
        let ghost rest = all.skip(at as int);
        let ghost old_words = words.deep_view();
        let ghost old_commands = commands.deep_view();
        proof {
            assert(rest.first() == token@);
            assert(rest.drop_first() == all.skip(at + 1));
        }
        match token.kind {
            TokenKind::Arg => {
                if is_home_relative(token.value.as_str()) {
                    return None;
                }
                words.push(token.value.clone());
                assert(words.deep_view() == old_words.push(token.value@));
            },
            TokenKind::Operator => {
                if words.len() == 0 {
                    return None;
                }
                match operator_from(token.value.as_str()) {
                    Some(operator) => {
                        commands.push(words);
                        operators.push(operator);
                        words = Vec::new();
                        assert(commands.deep_view() == old_commands.push(old_words));
                        assert(words.deep_view() == Seq::<Seq<char>>::empty());
                    },
                    None => {
                        return None;
                    },
                }
            },
            _ => {
                return None;
            },
        }
        at = at + 1;
    }
    let ghost old_words = words.deep_view();
    let ghost old_commands = commands.deep_view();
    assert(all.skip(at as int).len() == 0);
    if words.len() > 0 {
        commands.push(words);
        assert(commands.deep_view() == old_commands.push(old_words));
        Some(DirectPlan { commands, operators })
    } else {
        match operators.pop() {
            Some(ChainOperator::Sequence) => Some(DirectPlan { commands, operators }),
            _ => None,
        }
    }
}

/// Plans only literal words joined by `&&`, `||` or `;`.
///
/// Any syntax that a shell would have to expand rejects the complete plan, so that the untouched
/// command can run exactly once through the platform shell.
pub fn parse_direct_plan(command: &str) -> (plan: Option<DirectPlan>)
    ensures
        plan_view(plan) == plan_of(command@),
{
    let chars = trimmed_chars(command);
    if chars.len() == 0 {
        return None;
    }
    let mut at: usize = 0;
    while at < chars.len()
        invariant
            at <= chars.len(),
            chars@ == text::trimmed(command@),
            forall|i: int| 0 <= i < at ==> !needs_shell(#[trigger] chars@[i]),
        decreases chars.len() - at,
    {
        if is_shell_only(chars[at]) {
            assert(needs_shell(chars@[at as int]));
            return None;
        }
        at = at + 1;
    }
    plan_tokens(&tokenize_chars(&chars))
}

/// The characters that spell `operator`.
pub open spec fn operator_text(operator: ChainOperator) -> Seq<char> {
    match operator {
        ChainOperator::And => seq!['&', '&'],
        ChainOperator::Or => seq!['|', '|'],
        ChainOperator::Sequence => seq![';'],
    }
}

/// The token that spells `operator`.
pub open spec fn operator_token(operator: ChainOperator) -> TokenView {
    TokenView { kind: TokenKind::Operator, value: operator_text(operator) }
}

/// One word token for each of `words`.
pub open spec fn word_tokens(words: Seq<Seq<char>>) -> Seq<TokenView> {
    words.map_values(
        |word: Seq<char>| TokenView { kind: TokenKind::Arg, value: word },
    )
}

/// The tokens of `commands`, each followed by its operator.
pub open spec fn joined_tokens(
    commands: Seq<Seq<Seq<char>>>,
    operators: Seq<ChainOperator>,
) -> Seq<TokenView>
    decreases operators.len(),
{
    if operators.len() == 0 {
        Seq::empty()
    } else {
        joined_tokens(commands.drop_last(), operators.drop_last()) + word_tokens(commands.last())
            + seq![operator_token(operators.last())]
    }
}

impl PlanView {
    /// The tokens that spell the plan, without a `;` at the end.
    pub open spec fn tokens(self) -> Seq<TokenView> {
        joined_tokens(self.commands.drop_last(), self.operators) + word_tokens(self.commands.last())
    }
}

/// Word tokens extend the open command.
proof fn lemma_plan_after_words(
    new_words: Seq<Seq<char>>,
    rest: Seq<TokenView>,
    words: Seq<Seq<char>>,
    commands: Seq<Seq<Seq<char>>>,
    operators: Seq<ChainOperator>,
)
    requires
        forall|i: int| 0 <= i < new_words.len() ==> !starts_with_tilde(#[trigger] new_words[i]),
    ensures
        plan_after(word_tokens(new_words) + rest, words, commands, operators) == plan_after(
            rest,
            words + new_words,
            commands,
            operators,
        ),
    decreases new_words.len(),
{
    if new_words.len() == 0 {
        assert(word_tokens(new_words) + rest == rest);
        assert(words + new_words == words);
    } else {
        let tokens = word_tokens(new_words) + rest;
        let later = new_words.drop_first();
        assert(tokens.first().value == new_words[0]);
        assert(tokens.drop_first() == word_tokens(later) + rest);
        assert forall|i: int| 0 <= i < later.len() implies !starts_with_tilde(
            #[trigger] later[i],
        ) by {
            assert(later[i] == new_words[i + 1]);
        }
        lemma_plan_after_words(later, rest, words.push(new_words[0]), commands, operators);
        assert(words.push(new_words[0]) + later == words + new_words);
    }
}

/// Finished commands are collected with their operators.
proof fn lemma_plan_after_commands(
    new_commands: Seq<Seq<Seq<char>>>,
    new_operators: Seq<ChainOperator>,
    rest: Seq<TokenView>,
)
    requires
        new_commands.len() == new_operators.len(),
        forall|i: int| 0 <= i < new_commands.len() ==> literal_command(#[trigger] new_commands[i]),
    ensures
        plan_after(
            joined_tokens(new_commands, new_operators) + rest,
            Seq::empty(),
            Seq::empty(),
            Seq::empty(),
        ) == plan_after(rest, Seq::empty(), new_commands, new_operators),
    decreases new_operators.len(),
{
    if new_operators.len() == 0 {
        assert(joined_tokens(new_commands, new_operators) + rest == rest);
        assert(new_commands == Seq::<Seq<Seq<char>>>::empty());
        assert(new_operators == Seq::<ChainOperator>::empty());
    } else {
        let commands = new_commands.drop_last();
        let operators = new_operators.drop_last();
        let words = new_commands.last();
        let operator = new_operators.last();
        let behind = seq![operator_token(operator)] + rest;
        assert forall|i: int| 0 <= i < commands.len() implies literal_command(
            #[trigger] commands[i],
        ) by {
            assert(commands[i] == new_commands[i]);
        }
        assert(literal_command(new_commands[new_commands.len() - 1]));
        assert(joined_tokens(new_commands, new_operators) + rest == joined_tokens(
            commands,
            operators,
        ) + (word_tokens(words) + behind));
        lemma_plan_after_commands(commands, operators, word_tokens(words) + behind);
        lemma_plan_after_words(words, behind, Seq::empty(), commands, operators);
        assert(Seq::<Seq<char>>::empty() + words == words);
        assert(behind.first() == operator_token(operator));
        assert(behind.drop_first() == rest);
        lemma_operator_text(operator);
        assert(commands.push(words) == new_commands);
        assert(operators.push(operator) == new_operators);
    }
}

/// An operator is read back from its spelling, and has no other.
proof fn lemma_operator_text(operator: ChainOperator)
    ensures
        operator_of(operator_text(operator)) == Some(operator),
        forall|value: Seq<char>| #[trigger]
            operator_of(value) == Some(operator) ==> value == operator_text(operator),
{
    assert(seq!['&', '&'][0] != seq!['|', '|'][0]);
    assert(seq!['&', '&'].len() != seq![';'].len());
    assert(seq!['|', '|'].len() != seq![';'].len());
}

/// Every well-formed plan is read back from the tokens that spell it, with or without a `;` at
/// the end.
pub proof fn law_plan_is_read_back(plan: PlanView)
    requires
        plan.well_formed(),
    ensures
        plan_of_tokens(plan.tokens()) == Some(plan),
        plan_of_tokens(plan.tokens().push(operator_token(ChainOperator::Sequence))) == Some(plan),
{
    let commands = plan.commands.drop_last();
    let words = plan.commands.last();
    assert forall|i: int| 0 <= i < commands.len() implies literal_command(
        #[trigger] commands[i],
    ) by {
        assert(commands[i] == plan.commands[i]);
    }
    assert(literal_command(plan.commands[plan.commands.len() - 1]));
    let nothing = Seq::<TokenView>::empty();
    lemma_plan_after_commands(commands, plan.operators, word_tokens(words));
    lemma_plan_after_words(words, nothing, Seq::empty(), commands, plan.operators);
    assert(word_tokens(words) + nothing == word_tokens(words));
    assert(Seq::<Seq<char>>::empty() + words == words);
    assert(commands.push(words) == plan.commands);

    let end = operator_token(ChainOperator::Sequence);
    let operators = plan.operators.push(ChainOperator::Sequence);
    assert(operators.drop_last() == plan.operators);
    assert(joined_tokens(plan.commands, operators) + nothing == plan.tokens().push(end));
    lemma_plan_after_commands(plan.commands, operators, nothing);
}

/// Whatever is planned is spelled by its tokens: each word is a word token as it stands, and the
/// only thing left out is a `;` at the end.
pub proof fn law_plan_spells_its_tokens(tokens: Seq<TokenView>)
    requires
        plan_of_tokens(tokens) is Some,
    ensures
        plan_of_tokens(tokens)->0.well_formed(),
        ({
            let plan = plan_of_tokens(tokens)->0;
            tokens == plan.tokens() || tokens == plan.tokens().push(
                operator_token(ChainOperator::Sequence),
            )
        }),
{
    let none = Seq::<Seq<char>>::empty();
    lemma_planned_tokens(tokens, none, Seq::empty(), Seq::empty());
    assert(joined_tokens(Seq::empty(), Seq::empty()) + word_tokens(none) + tokens == tokens);
}

/// The tokens read so far and those to come spell the plan.
proof fn lemma_planned_tokens(
    tokens: Seq<TokenView>,
    words: Seq<Seq<char>>,
    commands: Seq<Seq<Seq<char>>>,
    operators: Seq<ChainOperator>,
)
    requires
        commands.len() == operators.len(),
        forall|i: int| 0 <= i < commands.len() ==> literal_command(#[trigger] commands[i]),
        forall|i: int| 0 <= i < words.len() ==> !starts_with_tilde(#[trigger] words[i]),
        plan_after(tokens, words, commands, operators) is Some,
    ensures
        plan_after(tokens, words, commands, operators)->0.well_formed(),
        ({
            let plan = plan_after(tokens, words, commands, operators)->0;
            let all = joined_tokens(commands, operators) + word_tokens(words) + tokens;
            all == plan.tokens() || all == plan.tokens().push(
                operator_token(ChainOperator::Sequence),
            )
        }),
    decreases tokens.len(),
{
    let plan = plan_after(tokens, words, commands, operators)->0;
    let read = joined_tokens(commands, operators) + word_tokens(words);
    if tokens.len() == 0 {
        assert(read + tokens == read);
        if words.len() > 0 {
            assert(plan.commands.drop_last() == commands);
            assert forall|i: int| 0 <= i < plan.commands.len() implies literal_command(
                #[trigger] plan.commands[i],
            ) by {
                if i < commands.len() {
                    assert(plan.commands[i] == commands[i]);
                }
            }
        } else {
            assert(read == joined_tokens(commands, operators));
            assert(plan.tokens().push(operator_token(ChainOperator::Sequence)) == read);
        }
    } else {
        let token = tokens.first();
        let rest = tokens.drop_first();
        match token.kind {
            TokenKind::Arg => {
                lemma_planned_tokens(rest, words.push(token.value), commands, operators);
                assert(joined_tokens(commands, operators) + word_tokens(words.push(token.value))
                    + rest == read + tokens);
            },
            TokenKind::Operator => {
                let operator = operator_of(token.value)->0;
                let new_commands = commands.push(words);
                let new_operators = operators.push(operator);
                assert forall|i: int| 0 <= i < new_commands.len() implies literal_command(
                    #[trigger] new_commands[i],
                ) by {
                    if i < commands.len() {
                        assert(new_commands[i] == commands[i]);
                    }
                }
                let none = Seq::<Seq<char>>::empty();
                lemma_planned_tokens(rest, none, new_commands, new_operators);
                lemma_operator_text(operator);
                assert(new_commands.drop_last() == commands);
                assert(new_operators.drop_last() == operators);
                assert(joined_tokens(new_commands, new_operators) + word_tokens(none) + rest == read
                    + tokens);
            },
            _ => {},
        }
    }
}

/// For every exit code, a command behind `&&` runs exactly if it is 0, one behind `||` exactly if
/// it is not, one behind `;` always, and so exactly one of `&&` and `||` goes on.
pub proof fn law_operators_decide_by_success(exit_code: i32)
    ensures
        runs_after(ChainOperator::And, exit_code) <==> exit_code == 0,
        runs_after(ChainOperator::Or, exit_code) <==> exit_code != 0,
        runs_after(ChainOperator::Sequence, exit_code),
        runs_after(ChainOperator::And, exit_code) != runs_after(ChainOperator::Or, exit_code),
{
}

/// Every plan for a command line is well formed.
pub proof fn law_planned_command_is_well_formed(command: Seq<char>)
    ensures
        plan_of(command) matches Some(plan) ==> plan.well_formed(),
{
    if plan_of(command) is Some {
        law_plan_spells_its_tokens(shell_lexer::lex(text::trimmed(command)));
    }
}

/// White space around a command line does not change its plan.
pub proof fn law_outer_white_space_does_not_matter(command: Seq<char>)
    ensures
        plan_of(text::trimmed(command)) == plan_of(command),
{
    text::law_trimming_once_is_enough(command);
}

} // verus!
