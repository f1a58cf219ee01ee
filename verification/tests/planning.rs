//! Plans and routes of command lines.

use rtk::plan::{parse_direct_plan, plan_tokens, should_run, ChainOperator, DirectPlan};
use rtk::platform::Platform;
use rtk::route::{
    classify_commands, classify_filtered_route, has_file_operand, is_common_test_runner,
    CargoCommand, FilterRoute, GitCommand,
};
use rtk::shell_lexer::{tokenize, Token, TokenKind};
use rtk::text::is_whitespace;

fn words(text: &str) -> Vec<String> {
    text.split(' ').filter(|word| !word.is_empty()).map(str::to_string).collect()
}

fn planned(command: &str) -> DirectPlan {
    parse_direct_plan(command).expect("plan")
}

#[test]
fn complex_or_expanding_syntax_is_not_directly_planned() {
    for command in [
        "wc -l file | cat",
        "wc -l file > count",
        "wc -l $FILE",
        "wc -l *.txt",
        "echo $(wc -l file)",
        "for file in *.txt; do wc -l $file; done",
        "wc -l 'file name' && wc -l other",
    ] {
        assert!(parse_direct_plan(command).is_none(), "{command}");
    }
}

#[test]
fn every_expanding_character_rules_a_plan_out() {
    for character in "'\"\\\n\r\0$#[]<>|&*?(){}!`".chars() {
        let command = format!("wc -l a{character}b");
        assert!(parse_direct_plan(&command).is_none(), "{command:?}");
    }
    assert!(parse_direct_plan("wc -l ~/notes").is_none());
    assert!(parse_direct_plan("wc -l notes~").is_some());
}

#[test]
fn chains_are_split_at_their_operators() {
    let plan = planned("  wc -l a&&git status || cargo test;wc b\t\n");
    assert_eq!(
        plan.commands,
        vec![words("wc -l a"), words("git status"), words("cargo test"), words("wc b")]
    );
    assert_eq!(
        plan.operators,
        vec![ChainOperator::And, ChainOperator::Or, ChainOperator::Sequence]
    );
}

#[test]
fn outer_white_space_does_not_change_a_plan() {
    assert_eq!(parse_direct_plan(" \u{2003}git status\r\n"), parse_direct_plan("git status"));
    assert!(parse_direct_plan("git\nstatus").is_none());
}

#[test]
fn a_trailing_semicolon_is_dropped_and_other_dangling_operators_reject() {
    let plan = planned("wc a ; wc b ;");
    assert_eq!(plan.commands.len(), 2);
    assert_eq!(plan.operators, vec![ChainOperator::Sequence]);
    for command in ["", "   ", ";", "wc a &&", "wc a ||", "&& wc a", "wc a ;; wc b", "wc a ; ;"] {
        assert!(parse_direct_plan(command).is_none(), "{command:?}");
    }
}

#[test]
fn a_spelled_plan_is_read_back() {
    let plan = planned("wc -l a && git log -1 || cargo check ; go test");
    let mut text = String::new();
    for (index, command) in plan.commands.iter().enumerate() {
        if index > 0 {
            text.push_str(match plan.operators[index - 1] {
                ChainOperator::And => " && ",
                ChainOperator::Or => " || ",
                ChainOperator::Sequence => " ; ",
            });
        }
        text.push_str(&command.join(" "));
    }
    assert_eq!(text, "wc -l a && git log -1 || cargo check ; go test");
    assert_eq!(planned(&text), plan);
    assert_eq!(plan_tokens(&tokenize(&text)), Some(plan));
}

#[test]
fn tokens_are_words_operators_and_symbols() {
    let token = |kind: TokenKind, value: &str| Token { kind, value: value.to_string() };
    assert_eq!(
        tokenize("a&&b | c>d &e;|| f*"),
        vec![
            token(TokenKind::Arg, "a"),
            token(TokenKind::Operator, "&&"),
            token(TokenKind::Arg, "b"),
            token(TokenKind::Pipe, "|"),
            token(TokenKind::Arg, "c"),
            token(TokenKind::Redirect, ">"),
            token(TokenKind::Arg, "d"),
            token(TokenKind::Shellism, "&"),
            token(TokenKind::Arg, "e"),
            token(TokenKind::Operator, ";"),
            token(TokenKind::Operator, "||"),
            token(TokenKind::Arg, "f"),
            token(TokenKind::Shellism, "*"),
        ]
    );
    assert!(tokenize(" \t ").is_empty());
}

#[test]
fn tokens_of_other_kinds_are_not_planned() {
    let token = |kind: TokenKind, value: &str| Token { kind, value: value.to_string() };
    assert!(plan_tokens(&vec![token(TokenKind::Arg, "a"), token(TokenKind::Pipe, "|")]).is_none());
    assert!(plan_tokens(&vec![
        token(TokenKind::Arg, "a"),
        token(TokenKind::Operator, "&"),
        token(TokenKind::Arg, "b"),
    ])
    .is_none());
    assert!(plan_tokens(&Vec::new()).is_none());
}

#[test]
fn white_space_is_that_of_unicode() {
    for code in 0..=0x10ffff_u32 {
        if let Some(character) = char::from_u32(code) {
            assert_eq!(is_whitespace(character), character.is_whitespace(), "{code:#x}");
        }
    }
}

#[test]
fn operators_decide_by_the_exit_code_before_them() {
    assert!(should_run(ChainOperator::And, 0));
    assert!(!should_run(ChainOperator::And, 1));
    assert!(!should_run(ChainOperator::Or, 0));
    assert!(should_run(ChainOperator::Or, -1));
    assert!(should_run(ChainOperator::Sequence, 0));
    assert!(should_run(ChainOperator::Sequence, 2));
}

#[test]
fn only_a_named_file_lets_wc_be_filtered() {
    assert!(has_file_operand(&words("-l file")));
    assert!(!has_file_operand(&words("-l -w")));
    assert!(!has_file_operand(&words("-l --")));
    assert!(has_file_operand(&words("-- -l")));
    assert!(has_file_operand(&[String::new()]));
    assert!(!has_file_operand(&[]));
    assert_eq!(classify_filtered_route(Platform::Unix, &words("wc -l")), None);
    assert_eq!(classify_filtered_route(Platform::Unix, &words("wc -l file")), Some(FilterRoute::Wc));
}

#[test]
fn test_runners_are_known_by_their_file_names() {
    for command in [
        "pytest", "jest", "vitest", "rspec", "phpunit", "pest", "./node_modules/.bin/jest -w",
        "/usr/bin/pytest -q", "bin/rspec/", "bin/rspec/.", "go test ./x", "npm test", "pnpm test",
        "/opt/yarn test",
    ] {
        assert!(is_common_test_runner(Platform::Unix, &words(command)), "{command}");
        assert_eq!(classify_filtered_route(Platform::Unix, &words(command)), Some(FilterRoute::Test));
    }
    for command in ["", "go build", "npm", "npm run test", "pytest/..", "/", ".", "..", "mypytest"] {
        assert!(!is_common_test_runner(Platform::Unix, &words(command)), "{command}");
    }
    assert!(!is_common_test_runner(Platform::Unix, &[String::new()]));
}

#[test]
fn file_names_are_those_of_the_standard_library() {
    for path in [
        "pytest", "a/pytest", "/pytest", "./pytest", "pytest/", "pytest//", "pytest/.", "pytest/./",
        "../pytest", "pytest/..", "pytest/../pytest", "//pytest", ".", "..", "/", "", "/.", "./.",
        "a//./pytest/././",
    ] {
        let name = std::path::Path::new(path).file_name().and_then(|name| name.to_str());
        assert_eq!(
            is_common_test_runner(Platform::current(), &[path.to_string()]),
            name == Some("pytest"),
            "{path:?}"
        );
    }
}

#[test]
fn drives_and_shares_are_no_file_names() {
    for path in ["C:pytest", "c:/bin/pytest", "C:/pytest/", "//server/share/pytest", "a\\pytest",
        "\\\\server\\share\\pytest", "//server//pytest", "bin/pytest", "pytest"]
    {
        assert!(is_common_test_runner(Platform::Windows, &[path.to_string()]), "{path}");
    }
    for path in ["//server/pytest", "//pytest/share", "C:", "C:/", "1:pytest", "CC:pytest", "C:.."] {
        assert!(!is_common_test_runner(Platform::Windows, &[path.to_string()]), "{path}");
    }
    let verbatim = |rest: &str| {
        is_common_test_runner(Platform::Windows, &[format!("\\\\?\\{rest}")])
    };
    for rest in [
        "C:\\pytest", "C:\\bin\\pytest\\", "UNC\\server\\share\\pytest", "share\\pytest",
        "unc\\pytest",
    ] {
        assert!(verbatim(rest), "{rest}");
    }
    for rest in [
        "UNC\\server\\pytest", "UNC\\pytest", "pytest", "C:/pytest", "C:\\bin/pytest",
        "C:\\pytest\\.", "C:\\pytest\\..", "", "UNC\\",
    ] {
        assert!(!verbatim(rest), "{rest}");
    }
    assert!(!is_common_test_runner(Platform::Unix, &["C:pytest".to_string()]));
    assert!(!is_common_test_runner(Platform::Unix, &["a\\pytest".to_string()]));
    assert!(is_common_test_runner(Platform::Unix, &["//server/pytest".to_string()]));
}

#[test]
fn only_spaces_and_tabs_separate_words() {
    assert_eq!(planned("wc\t-l  a").commands, vec![words("wc -l a")]);
    for character in ['\u{a0}', '\u{b}', '\u{c}', '\u{85}', '\u{2003}', '\u{3000}'] {
        let command = format!("wc -l a{character}b");
        assert!(parse_direct_plan(&command).is_none(), "{command:?}");
    }
    assert_eq!(
        tokenize("a\u{a0}"),
        vec![
            Token { kind: TokenKind::Arg, value: "a".to_string() },
            Token { kind: TokenKind::Shellism, value: "\u{a0}".to_string() },
        ]
    );
}

#[test]
fn git_and_cargo_need_a_known_subcommand() {
    assert_eq!(
        classify_filtered_route(Platform::Unix, &words("git show HEAD")),
        Some(FilterRoute::Git(GitCommand::Show))
    );
    assert_eq!(classify_filtered_route(Platform::Unix, &words("git push")), None);
    assert_eq!(classify_filtered_route(Platform::Unix, &words("git")), None);
    assert_eq!(classify_filtered_route(Platform::Unix, &words("git -C x status")), None);
    assert_eq!(
        classify_filtered_route(Platform::Unix, &words("cargo build --release")),
        Some(FilterRoute::Cargo(CargoCommand::Build))
    );
    assert_eq!(classify_filtered_route(Platform::Unix, &words("cargo run")), None);
    assert_eq!(classify_filtered_route(Platform::Unix, &words("cargo")), None);
    assert_eq!(classify_filtered_route(Platform::Unix, &[]), None);
}

#[test]
fn a_plan_is_routed_only_as_a_whole() {
    assert_eq!(
        classify_commands(Platform::Unix, &planned("git status && wc a").commands),
        Some(vec![FilterRoute::Git(GitCommand::Status), FilterRoute::Wc])
    );
    assert_eq!(classify_commands(Platform::Unix, &planned("git status && ls").commands), None);
}
