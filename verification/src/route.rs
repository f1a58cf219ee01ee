//! Which filter, if any, a command goes through.

use crate::platform::{self, PathStyle, Platform};
use crate::text::{chars_of, first_char, same_text, text_between};
use vstd::prelude::*;
use vstd::slice::slice_subrange;

verus! {

/// The git commands with a filter.
#[derive(Debug, Clone, Copy, PartialEq, Eq, Structural)]
pub enum GitCommand {
    Status,
    Diff,
    Log,
    Show,
}

/// The cargo commands with a filter.
#[derive(Debug, Clone, Copy, PartialEq, Eq, Structural)]
pub enum CargoCommand {
    Build,
    Check,
    Test,
}

/// The filter that a command goes through.
#[derive(Debug, Clone, Copy, PartialEq, Eq, Structural)]
pub enum FilterRoute {
    Wc,
    Git(GitCommand),
    Cargo(CargoCommand),
    Test,
}

/// Whether `--` stands before the argument at `at`.
pub open spec fn after_separator(args: Seq<Seq<char>>, at: int) -> bool {
    exists|i: int| 0 <= i < at && #[trigger] args[i] == "--"@
}

/// Whether `arg` starts with `-`.
pub open spec fn starts_with_dash(arg: Seq<char>) -> bool {
    arg.len() > 0 && arg[0] == '-'
}

/// Whether `args` name a file: one of them is no option, or stands behind `--`.
pub open spec fn names_file(args: Seq<Seq<char>>) -> bool {
    exists|i: int|
        0 <= i < args.len() && (!starts_with_dash(#[trigger] args[i]) || after_separator(args, i))
}

/// Where the last component of `path` starts.
pub open spec fn component_start(style: PathStyle, path: Seq<char>) -> int
    decreases path.len(),
{
    if path.len() == 0 || platform::separates(style, path.last()) {
        path.len() as int
    } else {
        component_start(style, path.drop_last())
    }
}

/// The last component of a path without a prefix: repeated and trailing separators and the
/// component `.` do not count, and `..` is no name. In a verbatim path `.` counts, and is no name
/// either.
pub open spec fn last_name(style: PathStyle, path: Seq<char>) -> Option<Seq<char>>
    decreases path.len(),
{
    if path.len() == 0 {
        None
    } else if platform::separates(style, path.last()) {
        last_name(style, path.drop_last())
    } else {
        let start = component_start(style, path);
        let name = path.skip(start);
        if name == seq!['.'] {
            if style != PathStyle::Verbatim && 0 <= start < path.len() {
                last_name(style, path.take(start))
            } else {
                None
            }
        } else if name == seq!['.', '.'] {
            None
        } else {
            Some(name)
        }
    }
}

/// The file name of a path: its last component, which no drive and no share counts as.
pub open spec fn file_name(platform: Platform, path: Seq<char>) -> Option<Seq<char>> {
    let style = platform::style_of(platform, path);
    last_name(style, path.skip(platform::prefix_length(style, path)))
}

/// Whether a program of this name runs tests whatever its arguments are.
pub open spec fn runs_tests(tool: Seq<char>) -> bool {
    ||| tool == "pytest"@
    ||| tool == "jest"@
    ||| tool == "vitest"@
    ||| tool == "rspec"@
    ||| tool == "phpunit"@
    ||| tool == "pest"@
}

/// Whether a program of this name runs tests with the subcommand `test`.
pub open spec fn has_test_subcommand(tool: Seq<char>) -> bool {
    ||| tool == "go"@
    ||| tool == "npm"@
    ||| tool == "pnpm"@
    ||| tool == "yarn"@
}

/// Whether `words` run the tests of a project.
pub open spec fn is_test_command(platform: Platform, words: Seq<Seq<char>>) -> bool {
    &&& words.len() > 0
    &&& match file_name(platform, words[0]) {
        Some(tool) => {
            ||| runs_tests(tool)
            ||| has_test_subcommand(tool) && words.len() > 1 && words[1] == "test"@
        },
        None => false,
    }
}

/// The git command that a first argument names.
pub open spec fn git_command(name: Seq<char>) -> Option<GitCommand> {
    if name == "status"@ {
        Some(GitCommand::Status)
    } else if name == "diff"@ {
        Some(GitCommand::Diff)
    } else if name == "log"@ {
        Some(GitCommand::Log)
    } else if name == "show"@ {
        Some(GitCommand::Show)
    } else {
        None
    }
}

/// The cargo command that a first argument names.
pub open spec fn cargo_command(name: Seq<char>) -> Option<CargoCommand> {
    if name == "build"@ {
        Some(CargoCommand::Build)
    } else if name == "check"@ {
        Some(CargoCommand::Check)
    } else if name == "test"@ {
        Some(CargoCommand::Test)
    } else {
        None
    }
}

/// The filter that a command goes through, if there is one for it.
pub open spec fn route_of(platform: Platform, words: Seq<Seq<char>>) -> Option<FilterRoute> {
    if words.len() == 0 {
        None
    } else if words[0] == "wc"@ && names_file(words.drop_first()) {
        Some(FilterRoute::Wc)
    } else if words[0] == "git"@ {
        if words.len() > 1 && git_command(words[1]) is Some {
            Some(FilterRoute::Git(git_command(words[1])->0))
        } else {
            None
        }
    } else if words[0] == "cargo"@ {
        if words.len() > 1 && cargo_command(words[1]) is Some {
            Some(FilterRoute::Cargo(cargo_command(words[1])->0))
        } else {
            None
        }
    } else if is_test_command(platform, words) {
        Some(FilterRoute::Test)
    } else {
        None
    }
}

/// Whether `arg` starts with `-`.
fn is_option(arg: &str) -> (option: bool)
    ensures
        option == starts_with_dash(arg@),
{
    first_char(arg) == Some('-')
}

/// Whether `args` name a file.
///
/// Without one, `wc` reads its stdin, which is empty here.
pub fn has_file_operand(args: &[String]) -> (found: bool)
    ensures
        found == names_file(args.deep_view()),
{
    let ghost all = args.deep_view();
    let mut separated = false;
    let mut at: usize = 0;
    while at < args.len()
        invariant
            all == args.deep_view(),
            all.len() == args.len(),
            at <= args.len(),
            separated == after_separator(all, at as int),
            forall|i: int|
                0 <= i < at ==> starts_with_dash(#[trigger] all[i]) && !after_separator(all, i),
        decreases args.len() - at,
    {
        let arg = args[at].as_str();
        assert(all[at as int] == arg@);
        if separated || !is_option(arg) {
            assert(!starts_with_dash(all[at as int]) || after_separator(all, at as int));
            return true;
        }
        if same_text(arg, "--") {
            separated = true;
        }
        at = at + 1;
    }
    false
}

/// The file name of `path`.
fn file_name_of(platform: Platform, path: &str) -> (name: Option<String>)
    ensures
        match name {
            Some(name) => file_name(platform, path@) == Some(name@),
            None => file_name(platform, path@) is None,
        },
{
    let chars = chars_of(path);
    let style = platform.path_style(&chars);
    let prefix: usize = style.prefix_end(&chars);
    let mut end: usize = chars.len();
    assert(chars@.subrange(prefix as int, end as int) == path@.skip(prefix as int));
    while end > prefix
        invariant
            prefix <= end <= chars.len(),
            last_name(style, chars@.subrange(prefix as int, end as int)) == file_name(
                platform,
                path@,
            ),
        decreases end,
    {
        let ghost whole = chars@.subrange(prefix as int, end as int);
        if style.separator(chars[end - 1]) {
            assert(whole.drop_last() == chars@.subrange(prefix as int, end - 1));
            end = end - 1;
        } else {
            let mut start: usize = end;
            while start > prefix && !style.separator(chars[start - 1])
                invariant
                    prefix <= start <= end <= chars.len(),
                    component_start(style, chars@.subrange(prefix as int, start as int))
                        == component_start(style, whole),
                decreases start,
            {
                assert(chars@.subrange(prefix as int, start as int).drop_last() == chars@.subrange(
                    prefix as int,
                    start - 1,
                ));
                start = start - 1;
            }
            let ghost name = whole.skip(start - prefix);
            assert(component_start(style, whole) == start - prefix) by {
                if start > prefix {
                    assert(chars@.subrange(prefix as int, start as int).last() == chars@[start - 1]);
                }
            }
            assert(start < end);
            assert(name == chars@.subrange(start as int, end as int));
            if end - start == 1 && chars[start] == '.' {
                assert(name == seq!['.']);
                if style == PathStyle::Verbatim {
                    return None;
                }
                assert(whole.take(start - prefix) == chars@.subrange(prefix as int, start as int));
                end = start;
            } else if end - start == 2 && chars[start] == '.' && chars[start + 1] == '.' {
                assert(name == seq!['.', '.']);
                return None;
            } else {
                assert(name != seq!['.'] && name != seq!['.', '.']) by {
                    if name == seq!['.'] {
                        assert(name[0] == '.');
                    }
                    if name == seq!['.', '.'] {
                        assert(name[0] == '.' && name[1] == '.');
                    }
                }
                return Some(text_between(&chars, start, end));
            }
        }
    }
    None
}

/// Whether `words` run the tests of a project.
pub fn is_common_test_runner(platform: Platform, words: &[String]) -> (test: bool)
    ensures
        test == is_test_command(platform, words.deep_view()),
{
    if words.len() == 0 {
        return false;
    }
    assert(words.deep_view()[0] == words@[0]@);
    let tool = match file_name_of(platform, words[0].as_str()) {
        Some(tool) => tool,
        None => {
            return false;
        },
    };
    let tool = tool.as_str();
    if same_text(tool, "pytest") || same_text(tool, "jest") || same_text(tool, "vitest")
        || same_text(tool, "rspec") || same_text(tool, "phpunit") || same_text(tool, "pest") {
        return true;
    }
    if words.len() < 2 {
        return false;
    }
    assert(words.deep_view()[1] == words@[1]@);
    same_text(words[1].as_str(), "test") && (same_text(tool, "go") || same_text(tool, "npm")
        || same_text(tool, "pnpm") || same_text(tool, "yarn"))
}

/// The filter that a command goes through, if there is one for it.
pub fn classify_filtered_route(platform: Platform, words: &[String]) -> (route: Option<FilterRoute>)
    ensures
        route == route_of(platform, words.deep_view()),
{
    let ghost all = words.deep_view();
    if words.len() == 0 {
        return None;
    }
    let tool = words[0].as_str();
    assert(all[0] == tool@);
    if same_text(tool, "wc") {
        let args = slice_subrange(words, 1, words.len());
        assert(args.deep_view() == all.drop_first());
        if has_file_operand(args) {
            return Some(FilterRoute::Wc);
        }
    }
    if same_text(tool, "git") {
        if words.len() < 2 {
            return None;
        }
        let name = words[1].as_str();
        assert(all[1] == name@);
        return if same_text(name, "status") {
            Some(FilterRoute::Git(GitCommand::Status))
        } else if same_text(name, "diff") {
            Some(FilterRoute::Git(GitCommand::Diff))
        } else if same_text(name, "log") {
            Some(FilterRoute::Git(GitCommand::Log))
        } else if same_text(name, "show") {
            Some(FilterRoute::Git(GitCommand::Show))
        } else {
            None
        };
    }
    if same_text(tool, "cargo") {
        if words.len() < 2 {
            return None;
        }
        let name = words[1].as_str();
        assert(all[1] == name@);
        return if same_text(name, "build") {
            Some(FilterRoute::Cargo(CargoCommand::Build))
        } else if same_text(name, "check") {
            Some(FilterRoute::Cargo(CargoCommand::Check))
        } else if same_text(name, "test") {
            Some(FilterRoute::Cargo(CargoCommand::Test))
        } else {
            None
        };
    }
    if is_common_test_runner(platform, words) {
        Some(FilterRoute::Test)
    } else {
        None
    }
}

/// The filters of all `commands`, if there is one for each of them.
pub open spec fn routes_of(platform: Platform, commands: Seq<Seq<Seq<char>>>) -> Option<
    Seq<FilterRoute>,
> {
    if forall|i: int|
        0 <= i < commands.len() ==> route_of(platform, #[trigger] commands[i]) is Some {
        Some(commands.map_values(|words: Seq<Seq<char>>| route_of(platform, words)->0))
    } else {
        None
    }
}

/// The filters of all `commands`, if there is one for each of them.
pub fn classify_commands(platform: Platform, commands: &Vec<Vec<String>>) -> (routes: Option<
    Vec<FilterRoute>,
>)
    ensures
        match routes {
            Some(routes) => routes_of(platform, commands.deep_view()) == Some(routes@),
            None => routes_of(platform, commands.deep_view()) is None,
        },
{
    let ghost all = commands.deep_view();
    let mut routes: Vec<FilterRoute> = Vec::new();
    let mut at: usize = 0;
    while at < commands.len()
        invariant
            all == commands.deep_view(),
            all.len() == commands.len(),
            at <= commands.len(),
            routes.len() == at,
            forall|i: int| 0 <= i < at ==> route_of(platform, #[trigger] all[i]) == Some(routes@[i]),
        decreases commands.len() - at,
    {
        assert(all[at as int] == commands@[at as int].deep_view());
        match classify_filtered_route(platform, commands[at].as_slice()) {
            Some(route) => {
                routes.push(route);
            },
            None => {
                return None;
            },
        }
        at = at + 1;
    }
    assert(routes_of(platform, all)->0 == routes@);
    Some(routes)
}

/// A `wc` without a file would read stdin, so it has no filter and is left to the shell.
pub proof fn law_wc_without_a_file_has_no_filter(platform: Platform, words: Seq<Seq<char>>)
    requires
        words.len() > 0,
        words[0] == "wc"@,
        !names_file(words.drop_first()),
    ensures
        route_of(platform, words) is None,
{
    let tool = words[0];
    reveal_strlit("wc");
    reveal_strlit("git");
    reveal_strlit("cargo");
    reveal_strlit("pytest");
    reveal_strlit("jest");
    reveal_strlit("vitest");
    reveal_strlit("rspec");
    reveal_strlit("phpunit");
    reveal_strlit("pest");
    reveal_strlit("go");
    reveal_strlit("npm");
    reveal_strlit("pnpm");
    reveal_strlit("yarn");
    reveal_with_fuel(component_start, 3);
    assert(tool.drop_last().last() == 'w');
    let style = platform::style_of(platform, tool);
    assert(component_start(style, tool) == 0);
    assert(tool.skip(0) == tool);
    assert(tool != seq!['.', '.']) by {
        assert(tool[0] == 'w');
    }
    assert(file_name(platform, tool) == Some(tool));
    assert(tool != "go"@) by {
        assert(tool[0] == 'w' && "go"@[0] == 'g');
    }
}

/// The git and cargo commands with a filter are known by their first argument, whatever follows it,
/// and no other is.
pub proof fn law_subcommand_names_the_filter(platform: Platform, words: Seq<Seq<char>>)
    requires
        words.len() > 1,
    ensures
        words[0] == "git"@ ==> {
            &&& words[1] == "status"@ ==> route_of(platform, words) == Some(
                FilterRoute::Git(GitCommand::Status),
            )
            &&& words[1] == "diff"@ ==> route_of(platform, words) == Some(
                FilterRoute::Git(GitCommand::Diff),
            )
            &&& words[1] == "log"@ ==> route_of(platform, words) == Some(
                FilterRoute::Git(GitCommand::Log),
            )
            &&& words[1] == "show"@ ==> route_of(platform, words) == Some(
                FilterRoute::Git(GitCommand::Show),
            )
            &&& route_of(platform, words) is Some ==> words[1] == "status"@ || words[1] == "diff"@
                || words[1] == "log"@ || words[1] == "show"@
        },
        words[0] == "cargo"@ ==> {
            &&& words[1] == "build"@ ==> route_of(platform, words) == Some(
                FilterRoute::Cargo(CargoCommand::Build),
            )
            &&& words[1] == "check"@ ==> route_of(platform, words) == Some(
                FilterRoute::Cargo(CargoCommand::Check),
            )
            &&& words[1] == "test"@ ==> route_of(platform, words) == Some(
                FilterRoute::Cargo(CargoCommand::Test),
            )
            &&& route_of(platform, words) is Some ==> words[1] == "build"@ || words[1] == "check"@
                || words[1] == "test"@
        },
{
    reveal_strlit("wc");
    reveal_strlit("git");
    reveal_strlit("cargo");
    reveal_strlit("status");
    reveal_strlit("diff");
    reveal_strlit("log");
    reveal_strlit("show");
    reveal_strlit("build");
    reveal_strlit("check");
    reveal_strlit("test");
    assert("wc"@.len() == 2 && "git"@.len() == 3 && "cargo"@.len() == 5);
    assert("status"@.len() == 6 && "diff"@.len() == 4 && "log"@.len() == 3 && "show"@.len() == 4);
    assert("build"@.len() == 5 && "check"@.len() == 5 && "test"@.len() == 4);
    assert("diff"@[0] == 'd' && "show"@[0] == 's');
    assert("build"@[0] == 'b' && "check"@[0] == 'c');
}

/// Without a first argument `git` and `cargo` have no filter, and every filter is that of its tool.
pub proof fn law_filter_belongs_to_its_tool(platform: Platform, words: Seq<Seq<char>>)
    ensures
        words.len() == 0 ==> route_of(platform, words) is None,
        words.len() == 1 && (words[0] == "git"@ || words[0] == "cargo"@) ==> route_of(
            platform,
            words,
        ) is None,
        route_of(platform, words) matches Some(FilterRoute::Wc) ==> words[0] == "wc"@,
        route_of(platform, words) matches Some(FilterRoute::Git(_)) ==> words[0] == "git"@,
        route_of(platform, words) matches Some(FilterRoute::Cargo(_)) ==> words[0] == "cargo"@,
        words.len() > 0 && words[0] == "wc"@ && names_file(words.drop_first()) ==> route_of(
            platform,
            words,
        ) == Some(FilterRoute::Wc),
{
    reveal_strlit("wc");
    reveal_strlit("git");
    reveal_strlit("cargo");
}

/// A separator in front of `at` is one in front of the argument that follows it in `args`, where the
/// first of `args` is none.
proof fn lemma_separator_behind_an_option(args: Seq<Seq<char>>, at: int)
    requires
        0 <= at < args.len(),
        args[0] != "--"@,
    ensures
        after_separator(args, at + 1) <==> after_separator(args.drop_first(), at),
{
    let rest = args.drop_first();
    if after_separator(args, at + 1) {
        let j = choose|j: int| 0 <= j < at + 1 && #[trigger] args[j] == "--"@;
        assert(rest[j - 1] == args[j]);
    }
    if after_separator(rest, at) {
        let j = choose|j: int| 0 <= j < at && #[trigger] rest[j] == "--"@;
        assert(args[j + 1] == rest[j]);
    }
}

/// An option in front changes nothing.
proof fn lemma_option_names_no_file(args: Seq<Seq<char>>)
    requires
        args.len() > 0,
        starts_with_dash(args[0]),
        args[0] != "--"@,
    ensures
        names_file(args) <==> names_file(args.drop_first()),
{
    let rest = args.drop_first();
    if names_file(args) {
        let i = choose|i: int|
            0 <= i < args.len() && (!starts_with_dash(#[trigger] args[i]) || after_separator(
                args,
                i,
            ));
        assert(i > 0);
        lemma_separator_behind_an_option(args, i - 1);
        assert(rest[i - 1] == args[i]);
    }
    if names_file(rest) {
        let i = choose|i: int|
            0 <= i < rest.len() && (!starts_with_dash(#[trigger] rest[i]) || after_separator(
                rest,
                i,
            ));
        lemma_separator_behind_an_option(args, i);
        assert(args[i + 1] == rest[i]);
    }
}

/// Behind `--` anything names a file.
proof fn lemma_anything_behind_a_separator(args: Seq<Seq<char>>)
    requires
        args.len() > 1,
        args[0] == "--"@,
    ensures
        names_file(args),
{
    let second = args[1];
    assert(after_separator(args, 1));
    assert(!starts_with_dash(second) || after_separator(args, 1));
}

/// Whether the arguments of `wc` name a file is told from the front: an argument that is no option
/// names one, an option names none, and behind `--` anything does.
pub proof fn law_file_operand_is_found_from_the_front(arg: Seq<char>, rest: Seq<Seq<char>>)
    ensures
        !names_file(Seq::empty()),
        !(arg.len() > 0 && arg[0] == '-') ==> names_file(seq![arg] + rest),
        arg.len() > 0 && arg[0] == '-' && arg != "--"@ ==> (names_file(seq![arg] + rest)
            <==> names_file(rest)),
        arg == "--"@ ==> (names_file(seq![arg] + rest) <==> rest.len() > 0),
{
    let args = seq![arg] + rest;
    assert(args[0] == arg);
    assert(args.drop_first() == rest);
    if arg == "--"@ {
        reveal_strlit("--");
        if rest.len() > 0 {
            lemma_anything_behind_a_separator(args);
        } else {
            assert(args.len() == 1);
            assert(starts_with_dash(args[0]));
            assert(!after_separator(args, 0));
            assert forall|i: int| 0 <= i < args.len() implies starts_with_dash(#[trigger] args[i])
                && !after_separator(args, i) by {
                assert(i == 0);
            }
        }
    } else if arg.len() > 0 && arg[0] == '-' {
        lemma_option_names_no_file(args);
    } else {
        assert(!starts_with_dash(args[0]));
    }
}

/// Whether `name` is one component of a path, and neither `.` nor `..`.
pub open spec fn plain_name(name: Seq<char>) -> bool {
    &&& name.len() > 0
    &&& name != seq!['.']
    &&& name != seq!['.', '.']
    &&& forall|i: int| 0 <= i < name.len() ==> #[trigger] name[i] != '/' && name[i] != '\\'
}

/// A name behind a separator, or at the start, is where the last component starts.
proof fn lemma_component_start(style: PathStyle, lead: Seq<char>, name: Seq<char>)
    requires
        plain_name(name),
        lead.len() == 0 || platform::separates(style, lead.last()),
    ensures
        component_start(style, lead + name) == lead.len(),
        last_name(style, lead + name) == Some(name),
{
    let path = lead + name;
    lemma_component_start_step(style, lead, name);
    assert(path.last() == name.last());
    assert(name.last() == name[name.len() - 1]);
    assert(path.skip(lead.len() as int) == name);
}

/// The characters of a name are no separators.
proof fn lemma_component_start_step(style: PathStyle, lead: Seq<char>, name: Seq<char>)
    requires
        forall|i: int| 0 <= i < name.len() ==> #[trigger] name[i] != '/' && name[i] != '\\',
        lead.len() == 0 || platform::separates(style, lead.last()),
    ensures
        component_start(style, lead + name) == lead.len(),
    decreases name.len(),
{
    let path = lead + name;
    if name.len() == 0 {
        assert(path == lead);
    } else {
        let shorter = name.drop_last();
        assert(path.last() == name[name.len() - 1]);
        assert(path.drop_last() == lead + shorter);
        assert forall|i: int| 0 <= i < shorter.len() implies #[trigger] shorter[i] != '/'
            && shorter[i] != '\\' by {
            assert(shorter[i] == name[i]);
        }
        lemma_component_start_step(style, lead, shorter);
    }
}

/// A name that is no drive has no prefix.
proof fn lemma_name_has_no_prefix(name: Seq<char>)
    requires
        plain_name(name),
        name.len() < 2 || name[1] != ':',
    ensures
        platform::style_of(Platform::Windows, name) == PathStyle::Both,
        platform::prefix_length(PathStyle::Both, name) == 0,
{
    let lead = seq!['\\', '\\', '?', '\\'];
    assert(name[0] != '/' && name[0] != '\\');
    if platform::starts_with(name, lead) {
        assert(name.take(4)[0] == lead[0]);
    }
}

/// A name alone is its own file name.
proof fn lemma_name_alone(style: PathStyle, name: Seq<char>)
    requires
        plain_name(name),
    ensures
        last_name(style, name) == Some(name),
{
    let nothing = Seq::<char>::empty();
    assert(nothing + name == name);
    lemma_component_start(style, nothing, name);
}

/// A name behind a slash is the last one, with a slash behind it or not.
proof fn lemma_name_behind_a_slash(directory: Seq<char>, name: Seq<char>)
    requires
        plain_name(name),
    ensures
        last_name(PathStyle::Slashes, directory + seq!['/'] + name) == Some(name),
        last_name(PathStyle::Slashes, (directory + seq!['/'] + name).push('/')) == Some(name),
{
    let lead = directory + seq!['/'];
    assert(lead.last() == '/');
    lemma_component_start(PathStyle::Slashes, lead, name);
    let closed = (lead + name).push('/');
    assert(closed.last() == '/');
    assert(closed.drop_last() == lead + name);
}

/// On Unix a path has no prefix.
proof fn lemma_unix_path(path: Seq<char>)
    ensures
        file_name(Platform::Unix, path) == last_name(PathStyle::Slashes, path),
{
    assert(path.skip(0) == path);
}

/// A program is known by its name alone, in whatever directory it stands, and a slash behind the
/// name changes nothing.
pub proof fn law_file_name_stands_behind_the_directory(directory: Seq<char>, name: Seq<char>)
    requires
        plain_name(name),
    ensures
        file_name(Platform::Unix, name) == Some(name),
        file_name(Platform::Unix, directory + seq!['/'] + name) == Some(name),
        file_name(Platform::Unix, (directory + seq!['/'] + name).push('/')) == Some(name),
        name.len() < 2 || name[1] != ':' ==> file_name(Platform::Windows, name) == Some(name),
{
    let path = directory + seq!['/'] + name;
    assert(file_name(Platform::Unix, name) == Some(name)) by {
        lemma_unix_path(name);
        lemma_name_alone(PathStyle::Slashes, name);
    }
    assert(file_name(Platform::Unix, path) == Some(name)) by {
        lemma_unix_path(path);
        lemma_name_behind_a_slash(directory, name);
    }
    assert(file_name(Platform::Unix, path.push('/')) == Some(name)) by {
        lemma_unix_path(path.push('/'));
        lemma_name_behind_a_slash(directory, name);
    }
    if name.len() < 2 || name[1] != ':' {
        assert(file_name(Platform::Windows, name) == Some(name)) by {
            lemma_name_has_no_prefix(name);
            lemma_name_alone(PathStyle::Both, name);
            assert(name.skip(0) == name);
        }
    }
}

/// A program of one of the known names runs tests whatever its arguments are, and a package tool
/// does so exactly with the argument `test` first. Nothing else does.
pub proof fn law_test_runners_are_known_by_name(platform: Platform, words: Seq<Seq<char>>)
    requires
        words.len() > 0,
    ensures
        file_name(platform, words[0]) matches Some(name) ==> {
            let always = name == "pytest"@ || name == "jest"@ || name == "vitest"@ || name
                == "rspec"@ || name == "phpunit"@ || name == "pest"@;
            let on_demand = name == "go"@ || name == "npm"@ || name == "pnpm"@ || name == "yarn"@;
            &&& always ==> is_test_command(platform, words)
            &&& on_demand && words.len() > 1 && words[1] == "test"@ ==> is_test_command(
                platform,
                words,
            )
            &&& is_test_command(platform, words) ==> always || on_demand && words.len() > 1
                && words[1] == "test"@
        },
        file_name(platform, words[0]) is None ==> !is_test_command(platform, words),
        words[0] != "wc"@ && words[0] != "git"@ && words[0] != "cargo"@ ==> (route_of(
            platform,
            words,
        ) == (if is_test_command(platform, words) {
            Some(FilterRoute::Test)
        } else {
            None
        })),
{
}

/// A chain is routed exactly if each of its commands is, and each goes through the filter that its
/// own words call for.
pub proof fn law_chain_is_routed_as_a_whole(platform: Platform, commands: Seq<Seq<Seq<char>>>)
    ensures
        routes_of(platform, commands) is Some <==> forall|i: int|
            0 <= i < commands.len() ==> route_of(platform, #[trigger] commands[i]) is Some,
        routes_of(platform, commands) matches Some(routes) ==> {
            &&& routes.len() == commands.len()
            &&& forall|i: int|
                0 <= i < commands.len() ==> route_of(platform, #[trigger] commands[i]) == Some(
                    routes[i],
                )
        },
{
}

/// On Windows neither a drive nor a server and its share are part of a program's name.
pub proof fn law_prefix_is_no_part_of_the_name(
    letter: char,
    server: Seq<char>,
    share: Seq<char>,
    name: Seq<char>,
)
    requires
        'a' <= letter <= 'z' || 'A' <= letter <= 'Z',
        plain_name(name),
        plain_name(server),
        plain_name(share),
    ensures
        file_name(Platform::Windows, seq![letter, ':'] + name) == Some(name),
        file_name(Platform::Windows, seq!['/', '/'] + server + seq!['/'] + share) is None,
        file_name(
            Platform::Windows,
            seq!['/', '/'] + server + seq!['/'] + share + (seq!['/'] + name),
        ) == Some(name),
{
    let drive = seq![letter, ':'] + name;
    platform::law_path_style_is_that_of_the_platform(drive);
    assert(drive[0] == letter && drive[1] == ':');
    assert(drive.skip(2) == name);
    lemma_name_alone(PathStyle::Both, name);

    let lead = seq!['/', '/'] + server + seq!['/'] + share;
    let nothing = Seq::<char>::empty();
    platform::law_path_style_is_that_of_the_platform(lead);
    assert(lead[0] == '/');
    assert(lead + nothing == lead);
    platform::law_share_is_a_prefix(server, share, nothing);
    assert(lead.skip(lead.len() as int) == nothing);

    let behind = seq!['/'] + name;
    let path = lead + behind;
    platform::law_path_style_is_that_of_the_platform(path);
    assert(path[0] == '/');
    platform::law_share_is_a_prefix(server, share, behind);
    assert(path.skip(lead.len() as int) == behind);
    assert(seq!['/'].last() == '/');
    lemma_component_start(PathStyle::Both, seq!['/'], name);
}

} // verus!
