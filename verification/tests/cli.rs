//! Decisions of the command line.

use incan_backend::ast::{Declaration, ImportDecl, ImportKind, ImportPath, Program, Span, Spanned};
use incan_backend::cli::arguments::{
    logo_line, parse_arguments, runnable_program, CliAction, CYAN, GOLD, MAGENTA, RESET,
};
use incan_backend::cli::binding_inspect::{
    binding_inspection_report, inspect_bindings, resolve_binding_entry_path, BindingEntry, BindingInspection,
    BindingInspectionFormat, CBindingDescriptor, CBindingEnum, CBindingField, CBindingParameter, CBindingStruct,
    CBindingSymbol, CBindingType, CBindingVariant, CheckedModule, PathFacts,
};
use incan_backend::cli::cargo_policy::CargoPolicy;
use incan_backend::cli::collection::{CollectionEvent, CollectionStep, ModuleCollection};
use incan_backend::cli::commands::{
    build_report, climbed, configure_generator, find_project_root, format_action, format_report, import_targets,
    is_source_file, output_directory, plan_project, project_name, run_report, searches_directory, source_extension,
    CodeNeeds, DirectoryFacts, FileResult, FormatTally, ModuleQueue,
};
use incan_backend::cli::imports::collect_rust_crates;
use incan_backend::cli::places::line_column_for_offset;
use incan_backend::cli::prelude::{
    find_stdlib_dir, load_prelude, module_segments, parse_prelude_file, prelude_files, stdlib_places, ParsedModule,
    StdlibCandidate, StdlibPlace,
};
use incan_backend::project::{BuildResult, RunResult};

fn arguments(list: &[&str]) -> Vec<String> {
    list.iter().map(|argument| argument.to_string()).collect()
}

fn asked(list: &[&str]) -> CliAction {
    parse_arguments(&arguments(list))
}

fn file(name: &str) -> String {
    name.to_string()
}

fn spanned<T>(node: T) -> Spanned<T> {
    Spanned {
        node,
        span: Span { start: 0, end: 0 },
    }
}

fn path(segments: &[&str], is_absolute: bool, parent_levels: usize) -> ImportPath {
    ImportPath {
        segments: arguments(segments),
        is_absolute,
        parent_levels,
    }
}

fn program(imports: Vec<ImportKind>) -> Program {
    Program {
        declarations: imports
            .into_iter()
            .map(|kind| spanned(Declaration::Import(ImportDecl { kind, alias: None })))
            .collect(),
    }
}

fn rust_crate(name: &str) -> ImportKind {
    ImportKind::RustCrate {
        crate_name: name.to_string(),
        path: Vec::new(),
    }
}

fn module(name: &str) -> ParsedModule {
    ParsedModule {
        name: name.to_string(),
        path_segments: vec![name.to_string()],
        source: String::new(),
        ast: program(Vec::new()),
    }
}

// ---------------------------------------------------------------------------
// Arguments
// ---------------------------------------------------------------------------

#[test]
fn commands_are_recognized() {
    assert_eq!(asked(&["incan"]), CliAction::MissingCommand);
    assert_eq!(asked(&["incan", "-h"]), CliAction::ShowUsage);
    assert_eq!(asked(&["incan", "--version"]), CliAction::ShowVersion);
    assert_eq!(asked(&["incan", "--lex", "a.incn"]), CliAction::LexFile(file("a.incn")));
    assert_eq!(asked(&["incan", "--parse", "a.incn"]), CliAction::ParseFile(file("a.incn")));
    assert_eq!(asked(&["incan", "--check", "a.incn"]), CliAction::CheckFile(file("a.incn")));
    assert_eq!(asked(&["incan", "--emit-rust", "a.incn"]), CliAction::EmitRust(file("a.incn")));
    assert_eq!(asked(&["incan", "a.incn"]), CliAction::CheckFile(file("a.incn")));
    assert_eq!(
        asked(&["incan", "build", "a.incn", "out"]),
        CliAction::BuildFile {
            file: file("a.incn"),
            output_dir: Some(file("out"))
        }
    );
    assert_eq!(asked(&["incan", "run", "a.incn"]), CliAction::RunFile(file("a.incn")));
}

#[test]
fn missing_files_are_refused() {
    assert_eq!(
        asked(&["incan", "--lex"]),
        CliAction::Refused(file("Error: --lex requires a file path"))
    );
    assert_eq!(
        asked(&["incan", "build"]),
        CliAction::Refused(file("Error: build requires a file path"))
    );
    assert_eq!(
        asked(&["incan", "run"]),
        CliAction::Refused(file("Error: run requires a file path or -c \"code\""))
    );
    assert_eq!(
        asked(&["incan", "run", "-c"]),
        CliAction::Refused(file("Error: -c/--command requires source code string"))
    );
    assert_eq!(
        asked(&["incan", "fmt"]),
        CliAction::Refused(file("Error: fmt requires a file or directory path"))
    );
}

#[test]
fn inline_programs_get_an_entrypoint() {
    assert_eq!(
        asked(&["incan", "run", "-c", "import", "this"]),
        CliAction::RunCode(file("import this\n\ndef main() -> Unit:\n  pass\n"))
    );
    assert_eq!(
        runnable_program(file("def main() -> Unit:\n  pass\n")),
        "def main() -> Unit:\n  pass\n"
    );
}

#[test]
fn options_may_stand_anywhere() {
    assert_eq!(
        asked(&["incan", "fmt", "--check", "src", "--diff"]),
        CliAction::FormatFiles {
            path: file("src"),
            check_mode: true,
            diff_mode: true
        }
    );
    assert_eq!(
        asked(&["incan", "fmt", "--check"]),
        CliAction::FormatFiles {
            path: file("."),
            check_mode: true,
            diff_mode: false
        }
    );
    assert_eq!(
        asked(&["incan", "test", "-v", "-k", "adds", "--slow"]),
        CliAction::RunTests {
            path: file("adds"),
            verbose: true,
            stop_on_fail: false,
            include_slow: true,
            filter: Some(file("adds"))
        }
    );
    assert_eq!(
        asked(&["incan", "test", "-x", "-k"]),
        CliAction::RunTests {
            path: file("."),
            verbose: false,
            stop_on_fail: true,
            include_slow: false,
            filter: None
        }
    );
}

#[test]
fn shadows_change_their_color_in_the_middle() {
    assert_eq!(
        logo_line("░█░"),
        format!("{CYAN}░{GOLD}█{MAGENTA}░{RESET}")
    );
    assert_eq!(logo_line(""), RESET);
}

// ---------------------------------------------------------------------------
// Modules
// ---------------------------------------------------------------------------

#[test]
fn no_file_is_read_twice() {
    let mut queue = ModuleQueue::new("main.incn");
    let first = queue.next().expect("the entry is read first");
    assert_eq!(first.file_path, "main.incn");
    assert_eq!(first.name, "main");
    assert_eq!(first.path_segments, ["main"]);
    queue.add_dependency(file("main.incn"), arguments(&["main"]));
    queue.add_dependency(file("db/models.incn"), arguments(&["db", "models"]));
    queue.add_dependency(file("util.incn"), arguments(&["util"]));
    queue.add_dependency(file("db/models.incn"), arguments(&["db", "models"]));
    queue.record(module("main"));
    let mut names = Vec::new();
    while let Some(pending) = queue.next() {
        names.push(pending.name.clone());
        queue.record(module(&pending.name));
    }
    assert_eq!(names, ["db_models", "util"]);
    let order: Vec<String> = queue.finish().into_iter().map(|module| module.name).collect();
    assert_eq!(order, ["util", "db_models", "main"]);
}

#[test]
fn collections_ask_for_files_in_turn() {
    let parsed = |imports: Vec<ImportKind>| CollectionEvent::Parsed {
        source: String::new(),
        ast: program(imports),
    };
    let import = |name: &str| ImportKind::Module(path(&[name], false, 0));
    let CollectionStep::Read(collection, read) = ModuleCollection::new("main.incn").advance(CollectionEvent::Begin)
    else {
        panic!("the entry file is read first");
    };
    assert_eq!(read, "main.incn");
    let step = collection.advance(parsed(vec![import("a"), import("b"), import("gone")]));
    let CollectionStep::Locate(collection, target) = step else {
        panic!("the first import is looked for");
    };
    assert_eq!(target.segments, ["a"]);
    let CollectionStep::Locate(collection, target) = collection.advance(CollectionEvent::Located(Some(file("a.incn"))))
    else {
        panic!("the second import is looked for");
    };
    assert_eq!(target.segments, ["b"]);
    let CollectionStep::Locate(collection, target) = collection.advance(CollectionEvent::Located(Some(file("b.incn"))))
    else {
        panic!("the third import is looked for");
    };
    assert_eq!(target.segments, ["gone"]);
    let CollectionStep::Read(collection, read) = collection.advance(CollectionEvent::Located(None)) else {
        panic!("a file is read");
    };
    assert_eq!(read, "b.incn");
    let CollectionStep::Locate(collection, _) = collection.advance(parsed(vec![import("main")])) else {
        panic!("an import is looked for");
    };
    let step = collection.advance(CollectionEvent::Located(Some(file("main.incn"))));
    let CollectionStep::Read(collection, read) = step else {
        panic!("the entry file was read already");
    };
    assert_eq!(read, "a.incn");
    let CollectionStep::Unexpected(collection) = collection.advance(CollectionEvent::Begin) else {
        panic!("the collection has begun already");
    };
    let CollectionStep::Done(modules) = collection.advance(parsed(Vec::new())) else {
        panic!("nothing is left to be read");
    };
    let names: Vec<&str> = modules.iter().map(|module| module.name.as_str()).collect();
    assert_eq!(names, ["a", "b", "main"]);
}

#[test]
fn imports_lead_to_modules() {
    let ast = program(vec![
        ImportKind::Module(path(&["db", "models", "User"], true, 0)),
        ImportKind::Module(path(&["util"], false, 1)),
        ImportKind::From {
            module: path(&["web", "routes"], false, 0),
            items: Vec::new(),
        },
        ImportKind::Module(path(&["std", "io"], false, 0)),
        ImportKind::From {
            module: path(&[], false, 0),
            items: Vec::new(),
        },
        rust_crate("rand"),
    ]);
    let targets = import_targets(&ast);
    assert_eq!(targets.len(), 3);
    assert_eq!(targets[0].segments, ["db", "models"]);
    assert!(targets[0].is_absolute);
    assert_eq!(targets[1].segments, ["util"]);
    assert_eq!(targets[1].parent_levels, 1);
    assert_eq!(targets[2].segments, ["web", "routes"]);
}

#[test]
fn roots_are_the_nearest_project() {
    let bare = DirectoryFacts {
        has_manifest: false,
        has_src: false,
    };
    let manifest = DirectoryFacts {
        has_manifest: true,
        has_src: false,
    };
    let sources = DirectoryFacts {
        has_manifest: false,
        has_src: true,
    };
    assert_eq!(find_project_root(&vec![bare, manifest, sources]), (1, false));
    assert_eq!(find_project_root(&vec![bare, sources]), (1, true));
    assert_eq!(find_project_root(&vec![bare, bare]), (1, false));
    assert_eq!(source_extension(true, true), Some("incn"));
    assert_eq!(source_extension(false, true), Some("incan"));
    assert_eq!(source_extension(false, false), None);
}

#[test]
fn crates_are_listed_once_in_their_order() {
    let ast = program(vec![rust_crate("time"), rust_crate("rand"), rust_crate("time"), rust_crate("std")]);
    assert_eq!(collect_rust_crates(&ast), ["time", "rand"]);
    let generator = configure_generator("out", "demo", true, false, false, &ast);
    let toml = generator.generate_cargo_toml();
    assert!(toml.contains("rand = \"0.8\""), "{toml}");
    assert!(toml.contains("serde = "), "{toml}");
    assert!(!toml.contains("std = "), "{toml}");
}

// ---------------------------------------------------------------------------
// Reports
// ---------------------------------------------------------------------------

#[test]
fn projects_have_defaults() {
    assert_eq!(project_name(None), "incan_project");
    assert_eq!(project_name(Some(file("demo"))), "demo");
    assert_eq!(output_directory(None, "demo"), "target/incan/demo");
    assert_eq!(output_directory(Some(file("out")), "demo"), "out");
}

#[test]
fn projects_are_planned() {
    let needs = CodeNeeds {
        serde: false,
        tokio: true,
        axum: false,
    };
    let plan = plan_project(Some(file("demo")), None, needs, &program(vec![rust_crate("rand")]), 2);
    assert_eq!(plan.directory, "target/incan/demo");
    assert!(plan.nested);
    let toml = plan.generator.generate_cargo_toml();
    assert!(toml.contains("tokio = ") && toml.contains("rand = \"0.8\""), "{toml}");
    assert!(!plan_project(None, Some(file("out")), needs, &program(Vec::new()), 0).nested);
}

#[test]
fn builds_are_reported() {
    let build = |success: bool| BuildResult {
        success,
        stdout: String::new(),
        stderr: file("error[E0001]"),
    };
    let report = build_report(Ok(build(true)), "out/demo");
    assert_eq!(report.stdout, "✓ Build successful!\nBinary: out/demo\n");
    assert_eq!(report.exit_code, None);
    let report = build_report(Ok(build(false)), "out/demo");
    assert_eq!(report.stderr, "Build failed:\nerror[E0001]\n");
    assert_eq!(report.exit_code, Some(1));
    let report = build_report(Err(file("not found")), "out/demo");
    assert_eq!(report.stderr, "Error running cargo: not found\n");
    assert_eq!(report.exit_code, Some(1));
}

#[test]
fn runs_end_as_their_programs() {
    let run = |success: bool, exit_code: Option<i32>| RunResult {
        success,
        stdout: file("out"),
        stderr: file("err"),
        exit_code,
    };
    let report = run_report(Ok(run(true, Some(0))));
    assert_eq!((report.stdout.as_str(), report.stderr.as_str()), ("out", ""));
    assert_eq!(report.exit_code, Some(0));
    let report = run_report(Ok(run(false, Some(3))));
    assert_eq!((report.stdout.as_str(), report.stderr.as_str()), ("out", "err"));
    assert_eq!(report.exit_code, Some(3));
    assert_eq!(run_report(Err(file("io"))).exit_code, Some(1));
}

#[test]
fn only_source_files_are_formatted() {
    assert!(searches_directory("src"));
    assert!(!searches_directory(".git"));
    assert!(!searches_directory("target"));
    assert!(!searches_directory("node_modules"));
    assert!(is_source_file(Some("incn")));
    assert!(!is_source_file(Some("incan")));
    assert!(!is_source_file(None));
}

#[test]
fn checking_writes_nothing() {
    let action = format_action(true, false, true);
    assert!(action.name_file && action.needs_formatting && !action.write && !action.show_diff);
    let action = format_action(false, true, true);
    assert!(action.show_diff && action.needs_formatting && !action.write && !action.name_file);
    let action = format_action(false, false, true);
    assert!(action.write && !action.needs_formatting);
    assert!(!format_action(false, false, false).write);
}

#[test]
fn formatting_is_summed_up() {
    let mut tally = FormatTally::new();
    tally.count(FileResult::Written);
    tally.count(FileResult::Failed);
    tally.count(FileResult::Unchanged);
    let report = format_report(tally, 3, false, false);
    assert_eq!(report.stdout, "\n✓ 1 file(s) formatted, 1 error(s)\n");
    assert_eq!(report.exit_code, Some(1));
    let mut tally = FormatTally::new();
    let report = format_report(tally, 3, true, false);
    assert_eq!(report.stdout, "✓ 3 file(s) already formatted\n");
    assert_eq!(report.exit_code, None);
    tally.count(FileResult::NeedsFormatting);
    assert_eq!(
        format_report(tally, 3, true, false).stderr,
        "\n3 file(s) would be reformatted\n"
    );
    let report = format_report(tally, 3, false, true);
    assert_eq!(report.stderr, "\n3 file(s) need formatting\n");
    assert_eq!(report.exit_code, Some(1));
}

// ---------------------------------------------------------------------------
// Prelude
// ---------------------------------------------------------------------------

#[test]
fn prelude_modules_are_named_by_their_paths() {
    assert_eq!(prelude_files().len(), 7);
    assert_eq!(prelude_files()[6], "prelude.incn");
    assert_eq!(module_segments("derives/debug.incn"), ["derives", "debug"]);
    assert_eq!(module_segments("a.incn.incn"), ["a"]);
    assert_eq!(module_segments("/a//b"), ["", "a", "", "b"]);
    assert_eq!(module_segments(""), [""]);
    let parsed = parse_prelude_file("derives/debug.incn", file("trait Debug"), program(Vec::new()));
    assert_eq!(parsed.name, "derives_debug");
    assert_eq!(parsed.source, "trait Debug");
}

#[test]
fn missing_prelude_files_are_left_out() {
    let loaded = load_prelude(vec![Some(module("a")), None, Some(module("b"))]);
    let names: Vec<&str> = loaded.iter().map(|module| module.name.as_str()).collect();
    assert_eq!(names, ["a", "b"]);
}

#[test]
fn places_of_the_library_are_tried_in_order() {
    assert_eq!(
        stdlib_places(5, true),
        [
            StdlibPlace::WorkingDirectory,
            StdlibPlace::AboveExecutable(0),
            StdlibPlace::AboveExecutable(1),
            StdlibPlace::AboveExecutable(2),
            StdlibPlace::Configured,
        ]
    );
    assert_eq!(
        stdlib_places(1, false),
        [StdlibPlace::WorkingDirectory, StdlibPlace::AboveExecutable(0)]
    );
}

#[test]
fn climbing_ends_at_the_top() {
    assert_eq!(climbed(0, 3), 0);
    assert_eq!(climbed(2, 3), 2);
    assert_eq!(climbed(9, 3), 2);
}

#[test]
fn the_first_directory_holds_the_library() {
    let candidate = |exists: bool, is_dir: bool| StdlibCandidate { exists, is_dir };
    assert_eq!(
        find_stdlib_dir(&vec![candidate(false, false), candidate(true, false), candidate(true, true)]),
        Some(2)
    );
    assert_eq!(find_stdlib_dir(&Vec::new()), None);
}

// ---------------------------------------------------------------------------
// Bindings
// ---------------------------------------------------------------------------

fn scalar(spelling: &str) -> CBindingType {
    CBindingType::Scalar(spelling.to_string())
}

fn descriptor(name: &str, start: usize, end: usize) -> CBindingDescriptor {
    CBindingDescriptor {
        class_name: name.to_string(),
        header: file("math.h"),
        system_library: file("m"),
        span: Span { start, end },
        symbols: vec![CBindingSymbol {
            name: file("fill"),
            native: file("c_fill"),
            parameters: vec![
                CBindingParameter {
                    name: file("data"),
                    ty: CBindingType::Pointer {
                        mutable: true,
                        pointee: Box::new(CBindingType::Pointer {
                            mutable: false,
                            pointee: Box::new(scalar("c.Int")),
                        }),
                    },
                },
                CBindingParameter {
                    name: file("shape"),
                    ty: CBindingType::Struct(file("Shape")),
                },
            ],
            return_type: CBindingType::Void,
        }],
        enums: vec![CBindingEnum {
            name: file("Mode"),
            carrier: file("c.UInt"),
            variants: vec![CBindingVariant {
                name: file("Fast"),
                native: file("MODE_FAST"),
            }],
        }],
        structs: vec![CBindingStruct {
            name: file("Shape"),
            native: file("shape_t"),
            fields: vec![CBindingField {
                name: file("width"),
                ty: scalar("c.Int"),
            }],
        }],
    }
}

fn checked(segments: &[&str], source: &str, bindings: Option<Vec<CBindingDescriptor>>) -> CheckedModule {
    CheckedModule {
        path_segments: arguments(segments),
        file_path: format!("{}.incn", segments.join("/")),
        source: source.to_string(),
        bindings,
    }
}

#[test]
fn bindings_are_summarized() {
    let modules = vec![checked(&["app", "native"], "äb\nclass M:\n", Some(vec![descriptor("M", 4, 99)]))];
    let Ok(BindingInspection::Text(text)) = inspect_bindings(&modules, BindingInspectionFormat::Text) else {
        panic!("a summary was asked for");
    };
    assert_eq!(
        text,
        "Binding M (app::native)\n  header: math.h\n  link: c.system_library(\"m\")\n  source: app/native.incn:2:1\n  \
         symbol fill(data: c.MutPtr[c.ConstPtr[c.Int]], shape: Shape) -> None [native: c_fill]\n  enum Mode: c.UInt\n    \
         Fast = MODE_FAST\n  struct Shape [native: shape_t]\n    width: c.Int\n"
    );
    let Ok(BindingInspection::Json(report)) = inspect_bindings(&modules, BindingInspectionFormat::Json) else {
        panic!("a report was asked for");
    };
    assert_eq!(report.schema_version, 1);
    let source = &report.bindings[0].source;
    assert_eq!((source.start, source.end), (4, 13));
    assert_eq!((source.end_line, source.end_column), (3, 1));
}

#[test]
fn no_bindings_are_said_so() {
    let Ok(BindingInspection::Text(text)) = inspect_bindings(&Vec::new(), BindingInspectionFormat::Text) else {
        panic!("a summary was asked for");
    };
    assert_eq!(text, "No checked C bindings.\n");
}

#[test]
fn bindings_are_ordered_by_module_and_name() {
    let modules = vec![
        checked(&["b"], "", Some(vec![descriptor("Z", 0, 0), descriptor("A", 0, 0)])),
        checked(&["a", "x"], "", Some(vec![descriptor("Q", 0, 0)])),
        checked(&["a"], "", Some(vec![descriptor("Q", 0, 0)])),
    ];
    let Ok(report) = binding_inspection_report(&modules) else {
        panic!("all modules were analysed");
    };
    let order: Vec<String> = report
        .bindings
        .iter()
        .map(|binding| format!("{}.{}", binding.module.join("/"), binding.name))
        .collect();
    assert_eq!(order, ["a.Q", "a/x.Q", "b.A", "b.Z"]);
}

#[test]
fn modules_without_analysis_are_refused() {
    let modules = vec![checked(&["a"], "", Some(Vec::new())), checked(&["b"], "", None)];
    let Err(message) = binding_inspection_report(&modules) else {
        panic!("a module was not analysed");
    };
    assert_eq!(message, "missing session analysis for b.incn");
}

#[test]
fn places_count_characters() {
    assert_eq!(line_column_for_offset("ab\ncd", 0), (1, 1));
    assert_eq!(line_column_for_offset("ab\ncd", 2), (1, 3));
    assert_eq!(line_column_for_offset("ab\ncd", 3), (2, 1));
    assert_eq!(line_column_for_offset("ab\ncd", 99), (2, 3));
    assert_eq!(line_column_for_offset("äöü", 2), (1, 2));
    assert_eq!(line_column_for_offset("äöü", 3), (1, 3));
    assert_eq!(line_column_for_offset("🦀x", 4), (1, 2));
}

#[test]
fn entries_are_files_or_projects() {
    let facts = |is_file: bool, is_dir: bool, has_main: bool, has_lib: bool| PathFacts {
        is_file,
        is_dir,
        has_main,
        has_lib,
    };
    assert_eq!(
        resolve_binding_entry_path("x", facts(true, false, false, false)),
        Ok(BindingEntry::Given)
    );
    assert_eq!(
        resolve_binding_entry_path("x", facts(false, true, true, true)),
        Ok(BindingEntry::Main)
    );
    assert_eq!(
        resolve_binding_entry_path("x", facts(false, true, false, true)),
        Ok(BindingEntry::Lib)
    );
    assert_eq!(
        resolve_binding_entry_path("x", facts(false, true, false, false)),
        Err(file(
            "binding inspection requires an Incan source file, or a project directory with `src/main.incn` or `src/lib.incn`: x"
        ))
    );
    assert_eq!(
        resolve_binding_entry_path("x", facts(false, false, false, false)),
        Err(file("binding inspection path does not exist: x"))
    );
}

#[test]
fn frozen_policies_are_offline_and_locked() {
    let policy = CargoPolicy::explicit(false, false, true, Vec::new());
    assert!(policy.offline && policy.locked && policy.frozen);
    let policy = CargoPolicy::explicit(true, false, false, Vec::new());
    assert!(policy.offline && !policy.locked && !policy.frozen);
}

#[test]
fn arguments_of_the_environment_come_last() {
    let args = |names: &[&str]| -> Vec<String> { names.iter().map(|name| name.to_string()).collect() };
    let policy = CargoPolicy::from_sources(false, true, false, args(&["-v"]), args(&["--jobs", "2"]), args(&["-q"]));
    assert_eq!(policy.extra_args, ["-v", "--jobs", "2"]);
    assert!(policy.locked && !policy.offline);
    let policy = CargoPolicy::from_sources(false, false, false, Vec::new(), Vec::new(), args(&["-q"]));
    assert_eq!(policy.extra_args, ["-q"]);
}
