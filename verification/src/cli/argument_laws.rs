//! What holds of command lines.

use crate::cli::arguments::{colored, first_path, keyword, logo_color, requested, ActionModel, CYAN, GOLD, MAGENTA};
use crate::text::begins_with;
use vstd::prelude::*;

verus! {

/// Commands on a file take the argument behind them, whatever follows, and are refused, by their own name, without one.
/// Help and the version are shown under either of their names.
pub proof fn law_commands_take_their_file(args: Seq<Seq<char>>)
    requires
        args.len() >= 2,
    ensures
        args[1] == "--help"@ || args[1] == "-h"@ ==> requested(args) is ShowUsage,
        args[1] == "--version"@ || args[1] == "-V"@ ==> requested(args) is ShowVersion,
        args.len() >= 3 ==> {
            &&& args[1] == "--lex"@ ==> requested(args) == ActionModel::LexFile(args[2])
            &&& args[1] == "--parse"@ ==> requested(args) == ActionModel::ParseFile(args[2])
            &&& args[1] == "--check"@ ==> requested(args) == ActionModel::CheckFile(args[2])
            &&& args[1] == "--emit-rust"@ ==> requested(args) == ActionModel::EmitRust(args[2])
            &&& args[1] == "build"@ ==> requested(args) is BuildFile && requested(args)->file == args[2] && (requested(
                args,
            )->output_dir == if args.len() >= 4 {
                Some(args[3])
            } else {
                None
            })
        },
        args.len() == 2 && (args[1] == "--lex"@ || args[1] == "--parse"@ || args[1] == "--check"@ || args[1]
            == "--emit-rust"@ || args[1] == "build"@) ==> requested(args) == ActionModel::Refused(
            "Error: "@ + args[1] + " requires a file path"@,
        ),
        args.len() == 2 && (args[1] == "run"@ || args[1] == "fmt"@) ==> requested(args) is Refused,
{
    commands_differ();
    reveal_strlit("--lex");
    reveal_strlit("--parse");
    reveal_strlit("--check");
    reveal_strlit("--emit-rust");
    reveal_strlit("build");
    reveal_strlit("Error: ");
    reveal_strlit(" requires a file path");
    reveal_strlit("Error: --lex requires a file path");
    reveal_strlit("Error: --parse requires a file path");
    reveal_strlit("Error: --check requires a file path");
    reveal_strlit("Error: --emit-rust requires a file path");
    reveal_strlit("Error: build requires a file path");
    assert("Error: "@ + "--lex"@ + " requires a file path"@ =~= "Error: --lex requires a file path"@);
    assert("Error: "@ + "--parse"@ + " requires a file path"@ =~= "Error: --parse requires a file path"@);
    assert("Error: "@ + "--check"@ + " requires a file path"@ =~= "Error: --check requires a file path"@);
    assert("Error: "@ + "--emit-rust"@ + " requires a file path"@ =~= "Error: --emit-rust requires a file path"@);
    assert("Error: "@ + "build"@ + " requires a file path"@ =~= "Error: build requires a file path"@);
}

proof fn commands_differ()
    ensures
        "--help"@.len() == 6,
        "-h"@.len() == 2,
        "--version"@.len() == 9,
        "-V"@.len() == 2,
        "--lex"@.len() == 5,
        "--parse"@.len() == 7,
        "--check"@.len() == 7,
        "--emit-rust"@.len() == 11,
        "build"@.len() == 5,
        "run"@.len() == 3,
        "fmt"@.len() == 3,
        "test"@.len() == 4,
        "-h"@ != "-V"@,
        "--lex"@ != "build"@,
        "--parse"@ != "--check"@,
        "run"@ != "fmt"@,
{
    reveal_strlit("--help");
    assert("--help"@.len() == 6);
    reveal_strlit("-h");
    assert("-h"@.len() == 2);
    reveal_strlit("--version");
    assert("--version"@.len() == 9);
    reveal_strlit("-V");
    assert("-V"@.len() == 2);
    reveal_strlit("--lex");
    assert("--lex"@.len() == 5);
    reveal_strlit("--parse");
    assert("--parse"@.len() == 7);
    reveal_strlit("--check");
    assert("--check"@.len() == 7);
    reveal_strlit("--emit-rust");
    assert("--emit-rust"@.len() == 11);
    reveal_strlit("build");
    assert("build"@.len() == 5);
    reveal_strlit("run");
    assert("run"@.len() == 3);
    reveal_strlit("fmt");
    assert("fmt"@.len() == 3);
    reveal_strlit("test");
    assert("test"@.len() == 4);
    assert("-h"@[1] != "-V"@[1]);
    assert("--lex"@[0] != "build"@[0]);
    assert("--parse"@[2] != "--check"@[2]);
    assert("run"@[0] != "fmt"@[0]);
}

/// A flag of a formatting or a test run is set exactly where it stands among the arguments, in its long or its short
/// form. What is formatted or tested is the first argument that is no option, and the current directory without one.
pub proof fn law_flags_are_set_where_they_stand(args: Seq<Seq<char>>, at: int)
    requires
        args.len() >= 3,
    ensures
        args[1] == "fmt"@ ==> {
            &&& requested(args) is FormatFiles
            &&& requested(args)->check_mode <==> args.contains("--check"@)
            &&& requested(args)->diff_mode <==> args.contains("--diff"@)
            &&& 2 <= at < args.len() && !begins_with(args[at], "--"@) && (forall|i: int|
                2 <= i < at ==> begins_with(#[trigger] args[i], "--"@)) ==> requested(args)->FormatFiles_path
                == args[at]
            &&& (forall|i: int| 2 <= i < args.len() ==> begins_with(#[trigger] args[i], "--"@)) ==> requested(
                args,
            )->FormatFiles_path == "."@
        },
        args[1] == "test"@ ==> {
            &&& requested(args) is RunTests
            &&& requested(args)->verbose <==> args.contains("-v"@) || args.contains("--verbose"@)
            &&& requested(args)->stop_on_fail <==> args.contains("-x"@) || args.contains("--exitfirst"@)
            &&& requested(args)->include_slow <==> args.contains("--slow"@)
            &&& 2 <= at < args.len() && !begins_with(args[at], "-"@) && (forall|i: int|
                2 <= i < at ==> begins_with(#[trigger] args[i], "-"@)) ==> requested(args)->RunTests_path == args[at]
            &&& (forall|i: int| 2 <= i < args.len() ==> begins_with(#[trigger] args[i], "-"@)) ==> requested(
                args,
            )->RunTests_path == "."@
            &&& !args.contains("-k"@) ==> requested(args)->filter is None
            &&& 0 <= at < args.len() - 1 && args[at] == "-k"@ && (forall|i: int|
                0 <= i < at ==> #[trigger] args[i] != "-k"@) ==> requested(args)->filter == Some(args[at + 1])
        },
{
    commands_differ();
    reveal_strlit("--");
    reveal_strlit("-");
    if 2 <= at < args.len() {
        if !begins_with(args[at], "--"@) && forall|i: int| 2 <= i < at ==> begins_with(#[trigger] args[i], "--"@) {
            first_is(args, 2, at, "--"@);
        }
        if !begins_with(args[at], "-"@) && forall|i: int| 2 <= i < at ==> begins_with(#[trigger] args[i], "-"@) {
            first_is(args, 2, at, "-"@);
        }
    }
    if forall|i: int| 2 <= i < args.len() ==> begins_with(#[trigger] args[i], "--"@) {
        none_is(args, 2, "--"@);
    }
    if forall|i: int| 2 <= i < args.len() ==> begins_with(#[trigger] args[i], "-"@) {
        none_is(args, 2, "-"@);
    }
    if !args.contains("-k"@) {
        no_keyword(args, 0);
    }
    if 0 <= at < args.len() - 1 && args[at] == "-k"@ && forall|i: int| 0 <= i < at ==> #[trigger] args[i] != "-k"@ {
        keyword_is(args, 0, at);
    }
}

proof fn first_is(args: Seq<Seq<char>>, from: int, at: int, option: Seq<char>)
    requires
        0 <= from <= at < args.len(),
        !begins_with(args[at], option),
        forall|i: int| from <= i < at ==> begins_with(#[trigger] args[i], option),
    ensures
        first_path(args, from, option) == args[at],
    decreases at - from,
{
    if from < at {
        assert(begins_with(args[from], option));
        first_is(args, from + 1, at, option);
    }
}

proof fn none_is(args: Seq<Seq<char>>, from: int, option: Seq<char>)
    requires
        0 <= from,
        forall|i: int| from <= i < args.len() ==> begins_with(#[trigger] args[i], option),
    ensures
        first_path(args, from, option) == "."@,
    decreases args.len() - from,
{
    if from < args.len() {
        assert(begins_with(args[from], option));
        none_is(args, from + 1, option);
    }
}

proof fn no_keyword(args: Seq<Seq<char>>, from: int)
    requires
        0 <= from,
        !args.contains("-k"@),
    ensures
        keyword(args, from) is None,
    decreases args.len() - from,
{
    if from < args.len() {
        assert(args.contains(args[from]));
        no_keyword(args, from + 1);
    }
}

proof fn keyword_is(args: Seq<Seq<char>>, from: int, at: int)
    requires
        0 <= from <= at < args.len() - 1,
        args[at] == "-k"@,
        forall|i: int| 0 <= i < at ==> #[trigger] args[i] != "-k"@,
    ensures
        keyword(args, from) == Some(args[at + 1]),
    decreases at - from,
{
    if from < at {
        assert(args[from] != "-k"@);
        keyword_is(args, from + 1, at);
    }
}

/// A command line that is no command names a file to check.
pub proof fn law_other_arguments_are_checked(args: Seq<Seq<char>>)
    requires
        args.len() >= 2,
        args[1] != "--help"@,
        args[1] != "-h"@,
        args[1] != "--version"@,
        args[1] != "-V"@,
        args[1] != "--lex"@,
        args[1] != "--parse"@,
        args[1] != "--check"@,
        args[1] != "--emit-rust"@,
        args[1] != "build"@,
        args[1] != "run"@,
        args[1] != "fmt"@,
        args[1] != "test"@,
    ensures
        requested(args) == ActionModel::CheckFile(args[1]),
{
}

/// Shadows of the logo are cyan on the left and magenta on the right, and everything else is gold. Each character stands
/// behind its color.
pub proof fn law_logo_is_colored_by_halves(line: Seq<char>, at: int)
    requires
        0 <= at < line.len(),
    ensures
        line[at] != '\u{2591}' ==> logo_color(line, at) == GOLD@,
        line[at] == '\u{2591}' && at < line.len() / 2 ==> logo_color(line, at) == CYAN@,
        line[at] == '\u{2591}' && at >= line.len() / 2 ==> logo_color(line, at) == MAGENTA@,
        colored(line, at + 1) == (colored(line, at) + logo_color(line, at)).push(line[at]),
        colored(line, 0).len() == 0,
{
    assert(colored(line, at + 1) =~= (colored(line, at) + logo_color(line, at)).push(line[at]));
}

} // verus!
