//! What holds of the commands.

use crate::ast::{Declaration, ImportKind, Spanned};
use crate::cli::commands::{
    build_shown, chosen_action, crates_with, format_shown, import_target, root_place, run_shown, searched,
    targets_from, DirectoryFacts, FormatTally, TargetModel,
};
use crate::cli::prelude::{present, ParsedModule};
use crate::project::{known_version, BuildResult, RunResult};
use crate::text::{has_text, stands_at, texts};
use vstd::prelude::*;

verus! {

broadcast use vstd::string::group_string_axioms;

// ---------------------------------------------------------------------------
// Reports
// ---------------------------------------------------------------------------

proof fn stands_inside(before: Seq<char>, text: Seq<char>, behind: Seq<char>)
    ensures
        has_text(before + text + behind, text),
{
    let whole = before + text + behind;
    assert(whole.subrange(before.len() as int, (before.len() + text.len()) as int) =~= text);
    assert(stands_at(whole, before.len() as int, text));
}

/// A build that succeeds ends without an error and names its binary. One that fails, or cannot run, ends with one and
/// complains with what was said, and with nothing on standard output.
pub proof fn law_failed_builds_end_with_an_error(outcome: Result<BuildResult, String>, binary: Seq<char>)
    ensures
        build_shown(outcome, binary).exit_code is None <==> (outcome matches Ok(result) && result.success),
        build_shown(outcome, binary).exit_code matches Some(code) ==> code == 1,
        match outcome {
            Ok(result) => if result.success {
                has_text(build_shown(outcome, binary).stdout, binary) && build_shown(outcome, binary).stderr.len() == 0
            } else {
                has_text(build_shown(outcome, binary).stderr, result.stderr@) && build_shown(
                    outcome,
                    binary,
                ).stdout.len() == 0
            },
            Err(error) => has_text(build_shown(outcome, binary).stderr, error@) && build_shown(
                outcome,
                binary,
            ).stdout.len() == 0,
        },
{
    stands_inside("\u{2713} Build successful!\nBinary: "@, binary, "\n"@);
    match outcome {
        Ok(result) => stands_inside("Build failed:\n"@, result.stderr@, "\n"@),
        Err(error) => stands_inside("Error running cargo: "@, error@, "\n"@),
    }
}

/// A run ends as the program did and shows what it printed, and its complaints exactly where it failed. One that cannot
/// run ends with an error that says why.
pub proof fn law_runs_end_as_their_program(outcome: Result<RunResult, String>)
    ensures
        match outcome {
            Ok(result) => {
                &&& run_shown(outcome).stdout == result.stdout@
                &&& run_shown(outcome).exit_code == result.exit_code
                &&& result.success ==> run_shown(outcome).stderr.len() == 0
                &&& !result.success ==> run_shown(outcome).stderr == result.stderr@
            },
            Err(error) => {
                &&& run_shown(outcome).exit_code == Some(1i32)
                &&& has_text(run_shown(outcome).stderr, error@)
                &&& run_shown(outcome).stdout.len() == 0
            },
        },
{
    match outcome {
        Err(error) => stands_inside("Error running program: "@, error@, "\n"@),
        _ => {},
    }
}

/// Formatting ends with an error exactly where a file failed, or where files are only looked at and one of them needs
/// formatting.
pub proof fn law_formatting_fails_where_work_is_left(
    tally: FormatTally,
    files: nat,
    check_mode: bool,
    diff_mode: bool,
)
    ensures
        format_shown(tally, files, check_mode, diff_mode).exit_code == (if tally.errors > 0 || ((check_mode
            || diff_mode) && tally.needs_formatting) {
            Some(1i32)
        } else {
            None
        }),
        format_shown(tally, files, check_mode, diff_mode).stderr.len() > 0 ==> format_shown(
            tally,
            files,
            check_mode,
            diff_mode,
        ).exit_code is Some,
{
}

/// A changed file is shown, named or written, as asked, and nothing is done with one that is formatted already.
pub proof fn law_files_are_treated_as_asked(check_mode: bool, diff_mode: bool, changed: bool)
    ensures
        ({
            let action = chosen_action(check_mode, diff_mode, changed);
            &&& !changed ==> !action.show_diff && !action.name_file && !action.write && !action.needs_formatting
            &&& changed ==> action.show_diff == diff_mode && action.name_file == check_mode
            &&& changed ==> action.write != action.needs_formatting
            &&& changed ==> action.needs_formatting == (check_mode || diff_mode)
        }),
{
}

// ---------------------------------------------------------------------------
// Places
// ---------------------------------------------------------------------------

/// The root of a project is the nearest directory with a manifest or a source directory, else the topmost one.
pub proof fn law_roots_are_the_nearest_marked_directory(ancestors: Seq<DirectoryFacts>, from: int)
    requires
        0 <= from < ancestors.len(),
    ensures
        ({
            let root = root_place(ancestors, from);
            &&& from <= root < ancestors.len()
            &&& root == ancestors.len() - 1 || ancestors[root].has_manifest || ancestors[root].has_src
            &&& forall|i: int|
                from <= i < root ==> !(#[trigger] ancestors[i]).has_manifest && !ancestors[i].has_src
        }),
    decreases ancestors.len() - from,
{
    if !(from >= ancestors.len() - 1 || ancestors[from].has_manifest || ancestors[from].has_src) {
        law_roots_are_the_nearest_marked_directory(ancestors, from + 1);
    }
}

/// Hidden directories and those of build outputs and packages are not searched, and all others are.
pub proof fn law_hidden_directories_are_not_searched(name: Seq<char>)
    ensures
        name.len() > 0 && name[0] == '.' ==> !searched(name),
        name == "target"@ || name == "node_modules"@ ==> !searched(name),
        name.len() > 0 && name[0] != '.' && name != "target"@ && name != "node_modules"@ ==> searched(name),
{
    reveal_strlit(".");
    if name.len() > 0 {
        assert(name.subrange(0, 1)[0] == name[0]);
        if name[0] == '.' {
            assert(name.subrange(0, 1) =~= "."@);
        }
    }
}

// ---------------------------------------------------------------------------
// Imports
// ---------------------------------------------------------------------------

/// An import looks for its module where its path says, relative or absolute and as many levels up. The path of a
/// `from` import is the module's, and a plain import of several names ends in an item of the module. The standard
/// library and other languages' packages are not looked for.
pub proof fn law_imports_look_where_they_say(decl: Declaration)
    ensures
        match decl {
            Declaration::Import(import) => match import.kind {
                ImportKind::Module(path) => match import_target(decl) {
                    Some(target) => {
                        &&& path.segments@.len() > 0 && path.segments@[0]@ != "std"@
                        &&& target.is_absolute == path.is_absolute
                        &&& target.parent_levels == path.parent_levels
                        &&& path.segments@.len() == 1 ==> target.segments == seq![path.segments@[0]@]
                        &&& path.segments@.len() > 1 ==> target.segments.push(path.segments@.last()@) == texts(
                            path.segments@,
                        )
                    },
                    None => path.segments@.len() == 0 || path.segments@[0]@ == "std"@,
                },
                ImportKind::From { module, .. } => match import_target(decl) {
                    Some(target) => {
                        &&& module.segments@.len() > 0 && module.segments@[0]@ != "std"@
                        &&& target.is_absolute == module.is_absolute
                        &&& target.parent_levels == module.parent_levels
                        &&& target.segments.len() == module.segments@.len()
                        &&& forall|i: int|
                            0 <= i < module.segments@.len() ==> #[trigger] target.segments[i] == module.segments@[i]@
                    },
                    None => module.segments@.len() == 0 || module.segments@[0]@ == "std"@,
                },
                _ => import_target(decl) is None,
            },
            _ => import_target(decl) is None,
        },
{
    match decl {
        Declaration::Import(import) => match import.kind {
            ImportKind::Module(path) => {
                if path.segments@.len() > 1 {
                    let all = texts(path.segments@);
                    assert(all.drop_last().push(path.segments@.last()@) =~= all);
                }
                if path.segments@.len() == 1 {
                    assert(texts(path.segments@) =~= seq![path.segments@[0]@]);
                }
            },
            _ => {},
        },
        _ => {},
    }
}

/// Every import that is looked for is a target, in the order of the declarations, and nothing else is.
pub proof fn law_targets_are_those_of_the_imports(decls: Seq<Spanned<Declaration>>, from: int, found: Seq<TargetModel>)
    requires
        0 <= from <= decls.len(),
    ensures
        from < decls.len() ==> targets_from(decls, from, found) == targets_from(
            decls,
            from + 1,
            match import_target(decls[from].node) {
                Some(target) => found.push(target),
                None => found,
            },
        ),
        targets_from(decls, from, found).len() >= found.len(),
        targets_from(decls, from, found).take(found.len() as int) == found,
        forall|i: int|
            from <= i < decls.len() && import_target((#[trigger] decls[i]).node) is Some ==> targets_from(
                decls,
                from,
                found,
            ).contains(import_target(decls[i].node)->Some_0),
    decreases decls.len() - from,
{
    if from < decls.len() {
        let more = match import_target(decls[from].node) {
            Some(target) => found.push(target),
            None => found,
        };
        law_targets_are_those_of_the_imports(decls, from + 1, more);
        let all = targets_from(decls, from, found);
        assert(all.take(found.len() as int) =~= all.take(more.len() as int).take(found.len() as int));
        assert(more.take(found.len() as int) =~= found);
        assert forall|i: int| from <= i < decls.len() && import_target((#[trigger] decls[i]).node) is Some implies all.contains(
            import_target(decls[i].node)->Some_0,
        ) by {
            if i == from {
                assert(all.take(more.len() as int)[found.len() as int] == all[found.len() as int]);
            }
        }
    } else {
        assert(found.take(found.len() as int) =~= found);
    }
}

/// A project asks for every crate that its program imports, each at the version that is known to work, and for no other.
pub proof fn law_imported_crates_are_asked_for(
    crates: Map<Seq<char>, Option<Seq<char>>>,
    names: Seq<Seq<char>>,
    from: int,
    name: Seq<char>,
)
    requires
        0 <= from,
    ensures
        crates_with(crates, names, from).contains_key(name) <==> crates.contains_key(name) || exists|i: int|
            from <= i < names.len() && #[trigger] names[i] == name,
        (exists|i: int| from <= i < names.len() && #[trigger] names[i] == name) ==> crates_with(crates, names, from)[name]
            == known_version(name),
        !(exists|i: int| from <= i < names.len() && #[trigger] names[i] == name) && crates.contains_key(name)
            ==> crates_with(crates, names, from)[name] == crates[name],
    decreases names.len() - from,
{
    if from < names.len() {
        law_imported_crates_are_asked_for(
            crates.insert(names[from], known_version(names[from])),
            names,
            from + 1,
            name,
        );
    }
}

// ---------------------------------------------------------------------------
// The prelude
// ---------------------------------------------------------------------------

/// The modules that were read come one behind the other in their order, and a file that gave none leaves no trace.
pub proof fn law_modules_that_are_there_are_kept(
    parsed: Seq<Option<ParsedModule>>,
    from: int,
    found: Seq<ParsedModule>,
    module: ParsedModule,
)
    requires
        0 <= from <= parsed.len(),
    ensures
        from == parsed.len() ==> present(parsed, from, found) == found,
        present(parsed.push(None), from, found) == present(parsed, from, found),
        present(parsed.push(Some(module)), from, found) == present(parsed, from, found).push(module),
    decreases parsed.len() - from,
{
    reveal_with_fuel(present, 2);
    if from < parsed.len() {
        assert(parsed.push(None)[from] == parsed[from]);
        assert(parsed.push(Some(module))[from] == parsed[from]);
        let next = match parsed[from] {
            Some(first) => found.push(first),
            None => found,
        };
        law_modules_that_are_there_are_kept(parsed, from + 1, next, module);
    }
}

} // verus!
