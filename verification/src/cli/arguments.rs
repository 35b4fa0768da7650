//! Command-line arguments.

use crate::cli::imports::lists;
use crate::text::{begins_with, contains, has_text, join, joined, same_text, starts_with, texts};
use vstd::prelude::*;

verus! {

broadcast use vstd::string::group_string_axioms;

/// What a command line asks for.
#[derive(Debug, PartialEq, Eq)]
#[allow(inconsistent_fields)]
pub enum CliAction {
    /// Nothing: the usage is shown, and the program fails.
    MissingCommand,
    /// The usage.
    ShowUsage,
    /// The version.
    ShowVersion,
    /// Something that cannot be done; the message says why.
    Refused(String),
    /// The tokens of a file.
    LexFile(String),
    /// The syntax tree of a file.
    ParseFile(String),
    /// A type check of a file.
    CheckFile(String),
    /// The Rust that a file is compiled to.
    EmitRust(String),
    /// A build of a file.
    BuildFile {
        /// The file.
        file: String,
        /// The project's directory, where one is given.
        output_dir: Option<String>,
    },
    /// A run of a file.
    RunFile(String),
    /// A run of a program given on the command line.
    RunCode(String),
    /// Formatting of files.
    FormatFiles {
        /// The file or directory.
        path: String,
        /// Whether files are only checked.
        check_mode: bool,
        /// Whether differences are shown.
        diff_mode: bool,
    },
    /// A run of tests.
    RunTests {
        /// The file or directory.
        path: String,
        /// Whether the output is verbose.
        verbose: bool,
        /// Whether the first failure ends the run.
        stop_on_fail: bool,
        /// Whether slow tests are run too.
        include_slow: bool,
        /// What the tests' names have to contain.
        filter: Option<String>,
    },
}

/// What a command line asks for.
#[allow(inconsistent_fields)]
pub ghost enum ActionModel {
    /// Nothing.
    MissingCommand,
    /// The usage.
    ShowUsage,
    /// The version.
    ShowVersion,
    /// Something that cannot be done.
    Refused(Seq<char>),
    /// The tokens of a file.
    LexFile(Seq<char>),
    /// The syntax tree of a file.
    ParseFile(Seq<char>),
    /// A type check of a file.
    CheckFile(Seq<char>),
    /// The Rust that a file is compiled to.
    EmitRust(Seq<char>),
    /// A build of a file.
    BuildFile {
        /// The file.
        file: Seq<char>,
        /// The project's directory.
        output_dir: Option<Seq<char>>,
    },
    /// A run of a file.
    RunFile(Seq<char>),
    /// A run of a program given on the command line.
    RunCode(Seq<char>),
    /// Formatting of files.
    FormatFiles {
        /// The file or directory.
        path: Seq<char>,
        /// Whether files are only checked.
        check_mode: bool,
        /// Whether differences are shown.
        diff_mode: bool,
    },
    /// A run of tests.
    RunTests {
        /// The file or directory.
        path: Seq<char>,
        /// Whether the output is verbose.
        verbose: bool,
        /// Whether the first failure ends the run.
        stop_on_fail: bool,
        /// Whether slow tests are run too.
        include_slow: bool,
        /// What the tests' names have to contain.
        filter: Option<Seq<char>>,
    },
}

/// The text of an optional argument.
pub open spec fn optional_text(text: Option<String>) -> Option<Seq<char>> {
    match text {
        Some(text) => Some(text@),
        None => None,
    }
}

impl CliAction {
    /// What is asked for.
    pub open spec fn model(self) -> ActionModel {
        match self {
            CliAction::MissingCommand => ActionModel::MissingCommand,
            CliAction::ShowUsage => ActionModel::ShowUsage,
            CliAction::ShowVersion => ActionModel::ShowVersion,
            CliAction::Refused(message) => ActionModel::Refused(message@),
            CliAction::LexFile(file) => ActionModel::LexFile(file@),
            CliAction::ParseFile(file) => ActionModel::ParseFile(file@),
            CliAction::CheckFile(file) => ActionModel::CheckFile(file@),
            CliAction::EmitRust(file) => ActionModel::EmitRust(file@),
            CliAction::BuildFile { file, output_dir } => ActionModel::BuildFile {
                file: file@,
                output_dir: optional_text(output_dir),
            },
            CliAction::RunFile(file) => ActionModel::RunFile(file@),
            CliAction::RunCode(code) => ActionModel::RunCode(code@),
            CliAction::FormatFiles { path, check_mode, diff_mode } => ActionModel::FormatFiles {
                path: path@,
                check_mode,
                diff_mode,
            },
            CliAction::RunTests { path, verbose, stop_on_fail, include_slow, filter } => ActionModel::RunTests {
                path: path@,
                verbose,
                stop_on_fail,
                include_slow,
                filter: optional_text(filter),
            },
        }
    }
}

/// Whether a flag is among the arguments.
pub open spec fn flagged(args: Seq<Seq<char>>, flag: Seq<char>) -> bool {
    args.contains(flag)
}

/// The first argument from one on that does not start like an option; the current directory where there is none.
pub open spec fn first_path(args: Seq<Seq<char>>, from: int, option: Seq<char>) -> Seq<char>
    decreases args.len() - from,
{
    if from < 0 || from >= args.len() {
        "."@
    } else if begins_with(args[from], option) {
        first_path(args, from + 1, option)
    } else {
        args[from]
    }
}

/// The argument behind the first `-k` at or behind a place.
pub open spec fn keyword(args: Seq<Seq<char>>, from: int) -> Option<Seq<char>>
    decreases args.len() - from,
{
    if from < 0 || from >= args.len() {
        None
    } else if args[from] == "-k"@ {
        if from + 1 < args.len() {
            Some(args[from + 1])
        } else {
            None
        }
    } else {
        keyword(args, from + 1)
    }
}

/// A program given on the command line, with an entrypoint where it declares none.
pub open spec fn runnable(code: Seq<char>) -> Seq<char> {
    if has_text(code, "def main"@) {
        code
    } else {
        code + "\n\ndef main() -> Unit:\n  pass\n"@
    }
}

/// What a run asks for.
pub open spec fn run_requested(args: Seq<Seq<char>>) -> ActionModel {
    if args.len() >= 3 && (args[2] == "-c"@ || args[2] == "--command"@) {
        let code = joined(args.skip(3), " "@);
        if code.len() == 0 {
            ActionModel::Refused("Error: -c/--command requires source code string"@)
        } else {
            ActionModel::RunCode(runnable(code))
        }
    } else if args.len() < 3 {
        ActionModel::Refused("Error: run requires a file path or -c \"code\""@)
    } else {
        ActionModel::RunFile(args[2])
    }
}

/// What a command line asks for. The first argument is the program's own name.
pub open spec fn requested(args: Seq<Seq<char>>) -> ActionModel {
    if args.len() < 2 {
        ActionModel::MissingCommand
    } else if args[1] == "--help"@ || args[1] == "-h"@ {
        ActionModel::ShowUsage
    } else if args[1] == "--version"@ || args[1] == "-V"@ {
        ActionModel::ShowVersion
    } else if args[1] == "--lex"@ {
        if args.len() < 3 {
            ActionModel::Refused("Error: --lex requires a file path"@)
        } else {
            ActionModel::LexFile(args[2])
        }
    } else if args[1] == "--parse"@ {
        if args.len() < 3 {
            ActionModel::Refused("Error: --parse requires a file path"@)
        } else {
            ActionModel::ParseFile(args[2])
        }
    } else if args[1] == "--check"@ {
        if args.len() < 3 {
            ActionModel::Refused("Error: --check requires a file path"@)
        } else {
            ActionModel::CheckFile(args[2])
        }
    } else if args[1] == "--emit-rust"@ {
        if args.len() < 3 {
            ActionModel::Refused("Error: --emit-rust requires a file path"@)
        } else {
            ActionModel::EmitRust(args[2])
        }
    } else if args[1] == "build"@ {
        if args.len() < 3 {
            ActionModel::Refused("Error: build requires a file path"@)
        } else {
            ActionModel::BuildFile {
                file: args[2],
                output_dir: if args.len() >= 4 {
                    Some(args[3])
                } else {
                    None
                },
            }
        }
    } else if args[1] == "run"@ {
        run_requested(args)
    } else if args[1] == "fmt"@ {
        if args.len() < 3 {
            ActionModel::Refused("Error: fmt requires a file or directory path"@)
        } else {
            ActionModel::FormatFiles {
                path: first_path(args, 2, "--"@),
                check_mode: flagged(args, "--check"@),
                diff_mode: flagged(args, "--diff"@),
            }
        }
    } else if args[1] == "test"@ {
        ActionModel::RunTests {
            path: first_path(args, 2, "-"@),
            verbose: flagged(args, "-v"@) || flagged(args, "--verbose"@),
            stop_on_fail: flagged(args, "-x"@) || flagged(args, "--exitfirst"@),
            include_slow: flagged(args, "--slow"@),
            filter: keyword(args, 0),
        }
    } else {
        ActionModel::CheckFile(args[1])
    }
}

/// The first argument from the third on that does not start like an option.
fn path_argument(args: &Vec<String>, option: &str) -> (path: String)
    ensures
        path@ == first_path(texts(args@), 2, option@),
{
    let mut i: usize = 2;
    while i < args.len()
        invariant
            2 <= i,
            first_path(texts(args@), 2, option@) == first_path(texts(args@), i as int, option@),
        decreases args@.len() - i,
    {
        if !starts_with(args[i].as_str(), option) {
            return args[i].clone();
        }
        i += 1;
    }
    ".".to_owned()
}

/// The argument behind the first `-k`.
fn keyword_argument(args: &Vec<String>) -> (filter: Option<String>)
    ensures
        optional_text(filter) == keyword(texts(args@), 0),
{
    let mut i: usize = 0;
    while i < args.len()
        invariant
            i <= args@.len(),
            keyword(texts(args@), 0) == keyword(texts(args@), i as int),
        decreases args@.len() - i,
    {
        if same_text(args[i].as_str(), "-k") {
            if i + 1 < args.len() {
                return Some(args[i + 1].clone());
            }
            return None;
        }
        i += 1;
    }
    None
}

/// The arguments from the fourth on, joined by spaces.
fn inline_code(args: &Vec<String>) -> (code: String)
    requires
        args@.len() >= 3,
    ensures
        code@ == joined(texts(args@).skip(3), " "@),
{
    let mut tail: Vec<String> = Vec::new();
    let mut i: usize = 3;
    proof {
        assert(texts(tail@) =~= texts(args@).subrange(3, 3));
    }
    while i < args.len()
        invariant
            3 <= i,
            i <= args@.len() || i == 3,
            i <= args@.len() ==> texts(tail@) == texts(args@).subrange(3, i as int),
            i > args@.len() ==> tail@.len() == 0,
        decreases args@.len() - i,
    {
        let ghost before = texts(tail@);
        tail.push(args[i].clone());
        proof {
            assert(texts(tail@) =~= before.push(args@[i as int]@));
            assert(texts(args@).subrange(3, i + 1) =~= texts(args@).subrange(3, i as int).push(args@[i as int]@));
        }
        i += 1;
    }
    proof {
        assert(texts(tail@) =~= texts(args@).skip(3));
    }
    join(&tail, " ")
}

/// A program given on the command line, with an entrypoint where it declares none.
pub fn runnable_program(code: String) -> (program: String)
    ensures
        program@ == runnable(code@),
{
    if contains(code.as_str(), "def main") {
        code
    } else {
        code.concat("\n\ndef main() -> Unit:\n  pass\n")
    }
}

/// What a run asks for.
fn parse_run(args: &Vec<String>) -> (action: CliAction)
    ensures
        action.model() == run_requested(texts(args@)),
{
    if args.len() >= 3 && (same_text(args[2].as_str(), "-c") || same_text(args[2].as_str(), "--command")) {
        let code: String = inline_code(args);
        if code.as_str().unicode_len() == 0 {
            return CliAction::Refused("Error: -c/--command requires source code string".to_owned());
        }
        return CliAction::RunCode(runnable_program(code));
    }
    if args.len() < 3 {
        CliAction::Refused("Error: run requires a file path or -c \"code\"".to_owned())
    } else {
        CliAction::RunFile(args[2].clone())
    }
}

/// Decides what a command line asks for. The first argument is the program's own name.
pub fn parse_arguments(args: &Vec<String>) -> (action: CliAction)
    ensures
        action.model() == requested(texts(args@)),
{
    if args.len() < 2 {
        return CliAction::MissingCommand;
    }
    let command: &str = args[1].as_str();
    if same_text(command, "--help") || same_text(command, "-h") {
        CliAction::ShowUsage
    } else if same_text(command, "--version") || same_text(command, "-V") {
        CliAction::ShowVersion
    } else if same_text(command, "--lex") {
        if args.len() < 3 {
            CliAction::Refused("Error: --lex requires a file path".to_owned())
        } else {
            CliAction::LexFile(args[2].clone())
        }
    } else if same_text(command, "--parse") {
        if args.len() < 3 {
            CliAction::Refused("Error: --parse requires a file path".to_owned())
        } else {
            CliAction::ParseFile(args[2].clone())
        }
    } else if same_text(command, "--check") {
        if args.len() < 3 {
            CliAction::Refused("Error: --check requires a file path".to_owned())
        } else {
            CliAction::CheckFile(args[2].clone())
        }
    } else if same_text(command, "--emit-rust") {
        if args.len() < 3 {
            CliAction::Refused("Error: --emit-rust requires a file path".to_owned())
        } else {
            CliAction::EmitRust(args[2].clone())
        }
    } else if same_text(command, "build") {
        if args.len() < 3 {
            CliAction::Refused("Error: build requires a file path".to_owned())
        } else {
            let output_dir: Option<String> = if args.len() >= 4 {
                Some(args[3].clone())
            } else {
                None
            };
            CliAction::BuildFile { file: args[2].clone(), output_dir }
        }
    } else if same_text(command, "run") {
        parse_run(args)
    } else if same_text(command, "fmt") {
        if args.len() < 3 {
            CliAction::Refused("Error: fmt requires a file or directory path".to_owned())
        } else {
            CliAction::FormatFiles {
                path: path_argument(args, "--"),
                check_mode: lists(args, "--check"),
                diff_mode: lists(args, "--diff"),
            }
        }
    } else if same_text(command, "test") {
        CliAction::RunTests {
            path: path_argument(args, "-"),
            verbose: lists(args, "-v") || lists(args, "--verbose"),
            stop_on_fail: lists(args, "-x") || lists(args, "--exitfirst"),
            include_slow: lists(args, "--slow"),
            filter: keyword_argument(args),
        }
    } else {
        CliAction::CheckFile(args[1].clone())
    }
}

/// A program given on the command line always declares an entrypoint when it is run.
pub proof fn law_inline_programs_have_an_entrypoint(code: Seq<char>)
    ensures
        has_text(runnable(code), "def main"@),
        runnable(runnable(code)) == runnable(code),
{
    if !has_text(code, "def main"@) {
        let whole = runnable(code);
        let tail = "\n\ndef main() -> Unit:\n  pass\n"@;
        reveal_strlit("\n\ndef main() -> Unit:\n  pass\n");
        reveal_strlit("def main");
        assert(tail.subrange(2, 10) =~= "def main"@);
        assert(whole.subrange(code.len() as int + 2, code.len() as int + 10) =~= tail.subrange(2, 10));
        assert(crate::text::stands_at(whole, code.len() as int + 2, "def main"@));
    }
}

// ---------------------------------------------------------------------------
// The logo
// ---------------------------------------------------------------------------

/// The escape sequence of gold.
pub const GOLD: &'static str = "\x1b[1;33m";

/// The escape sequence of cyan.
pub const CYAN: &'static str = "\x1b[1;36m";

/// The escape sequence of magenta.
pub const MAGENTA: &'static str = "\x1b[1;35m";

/// The escape sequence that ends a color.
pub const RESET: &'static str = "\x1b[0m";

/// The color of a character of the logo: shadows are cyan in the left half of their line and magenta in the right
/// half, all else is gold.
pub open spec fn logo_color(line: Seq<char>, at: int) -> Seq<char> {
    if line[at] == '\u{2591}' {
        if at < line.len() / 2 {
            CYAN@
        } else {
            MAGENTA@
        }
    } else {
        GOLD@
    }
}

/// The first characters of a line of the logo, each behind its color.
pub open spec fn colored(line: Seq<char>, count: int) -> Seq<char>
    decreases count,
{
    if count <= 0 {
        Seq::empty()
    } else {
        colored(line, count - 1) + logo_color(line, count - 1) + seq![line[count - 1]]
    }
}

/// Colors a line of the logo.
pub fn logo_line(line: &str) -> (text: String)
    ensures
        text@ == colored(line@, line@.len() as int) + RESET@,
{
    let chars: Vec<char> = crate::text::chars_of(line);
    let length: usize = chars.len();
    let mut text: String = String::new();
    let mut i: usize = 0;
    while i < length
        invariant
            i <= length,
            length == chars@.len(),
            chars@ == line@,
            text@ == colored(line@, i as int),
        decreases length - i,
    {
        let ghost before = text@;
        let color: &str = if chars[i] == '\u{2591}' {
            if i < length / 2 {
                CYAN
            } else {
                MAGENTA
            }
        } else {
            GOLD
        };
        text.append(color);
        text.push(chars[i]);
        proof {
            assert(text@ =~= before + color@ + seq![line@[i as int]]);
        }
        i += 1;
    }
    text.concat(RESET)
}

} // verus!
