//! The platform that commands run on: its shell and its paths.

use vstd::prelude::*;

verus! {

/// What kind of platform commands run on.
#[derive(Debug, Clone, Copy, PartialEq, Eq, Structural)]
pub enum Platform {
    Unix,
    Windows,
}

/// `std::path::is_separator`: whether `character` separates the components of a path here.
/// Nothing is claimed of the answer, since it is that of the machine.
#[verifier::external_body]
fn separates_here(character: char) -> bool {
    std::path::is_separator(character)
}

/// The program that runs a command line, and the flag that comes before it.
pub open spec fn shell_of(platform: Platform) -> (Seq<char>, Seq<char>) {
    match platform {
        Platform::Unix => ("sh"@, "-c"@),
        Platform::Windows => ("cmd"@, "/C"@),
    }
}

/// How a path is split into its components.
#[derive(Debug, Clone, Copy, PartialEq, Eq, Structural)]
pub enum PathStyle {
    /// At slashes.
    Slashes,
    /// At slashes and backslashes.
    Both,
    /// At backslashes alone, behind `\\?\`: everything else is taken literally.
    Verbatim,
}

/// Whether `text` starts with `start`.
pub open spec fn starts_with(text: Seq<char>, start: Seq<char>) -> bool {
    start.len() <= text.len() && text.take(start.len() as int) == start
}

/// How `path` is split.
pub open spec fn style_of(platform: Platform, path: Seq<char>) -> PathStyle {
    if platform == Platform::Unix {
        PathStyle::Slashes
    } else if starts_with(path, seq!['\\', '\\', '?', '\\']) {
        PathStyle::Verbatim
    } else {
        PathStyle::Both
    }
}

/// Whether `character` separates the components of a path.
pub open spec fn separates(style: PathStyle, character: char) -> bool {
    match style {
        PathStyle::Slashes => character == '/',
        PathStyle::Both => character == '/' || character == '\\',
        PathStyle::Verbatim => character == '\\',
    }
}

/// How many characters `text` starts with that are no separators.
pub open spec fn component_length(style: PathStyle, text: Seq<char>) -> nat
    decreases text.len(),
{
    if text.len() > 0 && !separates(style, text.first()) {
        1 + component_length(style, text.drop_first())
    } else {
        0
    }
}

/// Where the component behind the separator at `from` ends, or `from` itself where there is no
/// such component.
pub open spec fn next_component_end(style: PathStyle, path: Seq<char>, from: int) -> int {
    let length = component_length(style, path.skip(from + 1)) as int;
    if from < path.len() && length > 0 {
        from + 1 + length
    } else {
        from
    }
}

/// Whether `path` starts with a drive letter and a colon.
pub open spec fn starts_with_drive(path: Seq<char>) -> bool {
    &&& path.len() >= 2
    &&& 'a' <= path[0] <= 'z' || 'A' <= path[0] <= 'Z'
    &&& path[1] == ':'
}

/// How many characters of a verbatim path come before its components: a server and a share behind
/// `UNC\`, or else the first component, such as a drive.
pub open spec fn verbatim_prefix_length(path: Seq<char>) -> int {
    let style = PathStyle::Verbatim;
    if starts_with(path.skip(4), seq!['U', 'N', 'C', '\\']) {
        let server = 8 + component_length(style, path.skip(8)) as int;
        next_component_end(style, path, server)
    } else {
        4 + component_length(style, path.skip(4)) as int
    }
}

/// How many characters of `path` name a drive, or a server and a share, before its components:
/// none but on Windows.
pub open spec fn prefix_length(style: PathStyle, path: Seq<char>) -> int {
    match style {
        PathStyle::Slashes => 0,
        PathStyle::Verbatim => verbatim_prefix_length(path),
        PathStyle::Both => if path.len() >= 2 && separates(style, path[0]) && separates(
            style,
            path[1],
        ) {
            let server = 2 + component_length(style, path.skip(2)) as int;
            let share = next_component_end(style, path, server);
            if server > 2 && share > server {
                share
            } else {
                0
            }
        } else if starts_with_drive(path) {
            2
        } else {
            0
        },
    }
}

impl Platform {
    /// Whether this is the platform of this process, by what it told of a backslash.
    pub closed spec fn is_current(self) -> bool {
        call_ensures(separates_here, ('\\',), self == Platform::Windows)
    }

    /// The platform of this process: Windows where a backslash separates the components of a
    /// path.
    pub fn current() -> (platform: Platform)
        ensures
            platform.is_current(),
    {
        if separates_here('\\') {
            Platform::Windows
        } else {
            Platform::Unix
        }
    }

    /// The program that runs a command line, and the flag that comes before it.
    pub fn shell(self) -> (shell: (&'static str, &'static str))
        ensures
            self == Platform::Unix ==> shell.0@ == "sh"@ && shell.1@ == "-c"@,
            self == Platform::Windows ==> shell.0@ == "cmd"@ && shell.1@ == "/C"@,
            (shell.0@, shell.1@) == shell_of(self),
    {
        match self {
            Platform::Unix => ("sh", "-c"),
            Platform::Windows => ("cmd", "/C"),
        }
    }

    /// How a path is split.
    pub fn path_style(self, path: &Vec<char>) -> (style: PathStyle)
        ensures
            style == style_of(self, path@),
    {
        match self {
            Platform::Unix => PathStyle::Slashes,
            Platform::Windows => {
                let verbatim = path.len() >= 4 && path[0] == '\\' && path[1] == '\\' && path[2]
                    == '?' && path[3] == '\\';
                let ghost lead = seq!['\\', '\\', '?', '\\'];
                assert(verbatim == starts_with(path@, lead)) by {
                    if starts_with(path@, lead) {
                        assert(path@.take(4)[0] == lead[0] && path@.take(4)[1] == lead[1]);
                        assert(path@.take(4)[2] == lead[2] && path@.take(4)[3] == lead[3]);
                    }
                    if verbatim {
                        assert(path@.take(4) == lead);
                    }
                }
                if verbatim {
                    PathStyle::Verbatim
                } else {
                    PathStyle::Both
                }
            },
        }
    }
}

impl PathStyle {
    /// Whether `character` separates the components of a path.
    pub fn separator(self, character: char) -> (separator: bool)
        ensures
            separator == separates(self, character),
    {
        match self {
            PathStyle::Slashes => character == '/',
            PathStyle::Both => character == '/' || character == '\\',
            PathStyle::Verbatim => character == '\\',
        }
    }

    /// Where the component that starts at `from` ends.
    fn component_end(self, chars: &Vec<char>, from: usize) -> (end: usize)
        requires
            from <= chars.len(),
        ensures
            end == from + component_length(self, chars@.skip(from as int)),
            from <= end <= chars.len(),
    {
        let mut end: usize = from;
        while end < chars.len() && !self.separator(chars[end])
            invariant
                from <= end <= chars.len(),
                end + component_length(self, chars@.skip(end as int)) == from
                    + component_length(self, chars@.skip(from as int)),
            decreases chars.len() - end,
        {
            assert(chars@.skip(end as int).drop_first() == chars@.skip(end + 1));
            end = end + 1;
        }
        end
    }

    /// Where the component behind the separator at `from` ends, or `from` itself where there is
    /// no such component.
    fn behind(self, chars: &Vec<char>, from: usize) -> (end: usize)
        requires
            from <= chars.len(),
        ensures
            end == next_component_end(self, chars@, from as int),
            from <= end <= chars.len(),
    {
        if from == chars.len() {
            return from;
        }
        let end: usize = self.component_end(chars, from + 1);
        if end > from + 1 {
            end
        } else {
            from
        }
    }

    /// How many characters of a path name a drive, or a server and a share, before its
    /// components.
    pub fn prefix_end(self, path: &Vec<char>) -> (end: usize)
        requires
            self == PathStyle::Verbatim ==> path.len() >= 4,
        ensures
            end == prefix_length(self, path@),
            end <= path.len(),
    {
        match self {
            PathStyle::Slashes => 0,
            PathStyle::Verbatim => {
                let shared = path.len() >= 8 && path[4] == 'U' && path[5] == 'N' && path[6] == 'C'
                    && path[7] == '\\';
                let ghost rest = path@.skip(4);
                let ghost lead = seq!['U', 'N', 'C', '\\'];
                assert(shared == starts_with(rest, lead)) by {
                    if starts_with(rest, lead) {
                        assert(rest.take(4)[0] == lead[0] && rest.take(4)[1] == lead[1]);
                        assert(rest.take(4)[2] == lead[2] && rest.take(4)[3] == lead[3]);
                    }
                    if shared {
                        assert(rest.take(4) == lead);
                    }
                }
                if shared {
                    let server: usize = self.component_end(path, 8);
                    self.behind(path, server)
                } else {
                    self.component_end(path, 4)
                }
            },
            PathStyle::Both => {
                if path.len() < 2 {
                    0
                } else if self.separator(path[0]) && self.separator(path[1]) {
                    let server: usize = self.component_end(path, 2);
                    let share: usize = self.behind(path, server);
                    if server > 2 && share > server {
                        share
                    } else {
                        0
                    }
                } else if path[1] == ':' && (('a' <= path[0] && path[0] <= 'z') || ('A' <= path[0]
                    && path[0] <= 'Z')) {
                    2
                } else {
                    0
                }
            },
        }
    }
}

/// The shell is `sh -c` or, on Windows, `cmd /C`.
pub proof fn law_shell_is_that_of_the_platform()
    ensures
        shell_of(Platform::Unix).0 == "sh"@,
        shell_of(Platform::Unix).1 == "-c"@,
        shell_of(Platform::Windows).0 == "cmd"@,
        shell_of(Platform::Windows).1 == "/C"@,
{
}

/// A slash separates everywhere but behind a verbatim prefix, a backslash everywhere but on Unix,
/// and no other character does.
pub proof fn law_slashes_separate(style: PathStyle, character: char)
    ensures
        separates(style, '/') <==> style != PathStyle::Verbatim,
        separates(style, '\\') <==> style != PathStyle::Slashes,
        character != '/' && character != '\\' ==> !separates(style, character),
{
}

/// Only Windows has other paths than those with slashes, and only there a path can be verbatim, by
/// its first four characters.
pub proof fn law_path_style_is_that_of_the_platform(path: Seq<char>)
    ensures
        style_of(Platform::Unix, path) == PathStyle::Slashes,
        style_of(Platform::Windows, path) != PathStyle::Slashes,
        style_of(Platform::Windows, path) == PathStyle::Verbatim <==> path.len() >= 4 && path[0]
            == '\\' && path[1] == '\\' && path[2] == '?' && path[3] == '\\',
{
    let lead = seq!['\\', '\\', '?', '\\'];
    if starts_with(path, lead) {
        assert(path.take(4)[0] == lead[0] && path.take(4)[1] == lead[1]);
        assert(path.take(4)[2] == lead[2] && path.take(4)[3] == lead[3]);
    }
    if path.len() >= 4 && path[0] == '\\' && path[1] == '\\' && path[2] == '?' && path[3] == '\\' {
        assert(path.take(4) == lead);
    }
}

/// A component is measured up to the next separator.
proof fn lemma_component_is_measured(style: PathStyle, name: Seq<char>, rest: Seq<char>)
    requires
        forall|i: int| 0 <= i < name.len() ==> !separates(style, #[trigger] name[i]),
        rest.len() > 0 ==> separates(style, rest[0]),
    ensures
        component_length(style, name + rest) == name.len(),
    decreases name.len(),
{
    let text = name + rest;
    if name.len() == 0 {
        assert(text == rest);
    } else {
        let later = name.drop_first();
        assert(text.first() == name[0]);
        assert(text.drop_first() == later + rest);
        assert forall|i: int| 0 <= i < later.len() implies !separates(style, #[trigger] later[i]) by {
            assert(later[i] == name[i + 1]);
        }
        lemma_component_is_measured(style, later, rest);
    }
}

/// A server and a share behind two separators are the prefix of a path, up to the separator behind
/// them.
pub proof fn law_share_is_a_prefix(server: Seq<char>, share: Seq<char>, rest: Seq<char>)
    requires
        server.len() > 0,
        share.len() > 0,
        forall|i: int| 0 <= i < server.len() ==> #[trigger] server[i] != '/' && server[i] != '\\',
        forall|i: int| 0 <= i < share.len() ==> #[trigger] share[i] != '/' && share[i] != '\\',
        rest.len() > 0 ==> rest[0] == '/',
    ensures
        prefix_length(
            PathStyle::Both,
            seq!['/', '/'] + server + seq!['/'] + share + rest,
        ) == 3 + server.len() + share.len(),
{
    let style = PathStyle::Both;
    let path = seq!['/', '/'] + server + seq!['/'] + share + rest;
    let behind = seq!['/'] + share + rest;
    assert(path[0] == '/' && path[1] == '/');
    assert(path.skip(2) == server + behind);
    lemma_component_is_measured(style, server, behind);
    assert(path.skip(2 + server.len() as int + 1) == share + rest);
    lemma_component_is_measured(style, share, rest);
}

} // verus!
