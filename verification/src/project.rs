//! Generated Cargo projects.
//!
//! The generator decides which files a project has and what they hold; writing them and running Cargo is left to its
//! callers.

use crate::names::NameMap;
use crate::order::{all_inserted, insert_name, inserted, sorted_names};
use crate::text::{
    chars_at, chars_of, join, joined, lossy_text, lossy_utf8, same_text, stands_at, text_of, texts,
};
use crate::INCAN_VERSION;
use vstd::prelude::*;

verus! {

broadcast use vstd::string::group_string_axioms;

/// Generator of runnable Rust projects.
#[derive(Debug)]
pub struct ProjectGenerator {
    /// Where the project is generated.
    pub output_dir: String,
    /// The project's name.
    pub name: String,
    /// Whether the project is a binary.
    pub is_binary: bool,
    /// Whether serialization is needed.
    pub needs_serde: bool,
    /// Whether the async runtime is needed.
    pub needs_tokio: bool,
    /// Whether the web framework is needed.
    pub needs_axum: bool,
    /// The imported crates with their version requirements. One without a requirement takes the latest version.
    pub rust_crate_deps: NameMap<Option<String>>,
}

/// One file of a generated project.
#[derive(Debug)]
pub struct ProjectFile {
    /// The path below the project's directory.
    pub path: Vec<String>,
    /// The contents.
    pub contents: String,
}

/// A path below a directory.
#[derive(Debug)]
pub struct ProjectPath {
    /// The directory.
    pub base: String,
    /// The names below it.
    pub segments: Vec<String>,
}

/// The code of one module, by its path.
#[derive(Debug)]
pub struct ModuleCode {
    /// The path, outermost module first.
    pub path: Vec<String>,
    /// The code.
    pub code: String,
}

/// What building a project gave.
#[derive(Debug)]
pub struct BuildResult {
    /// Whether it succeeded.
    pub success: bool,
    /// What it printed.
    pub stdout: String,
    /// What it complained of.
    pub stderr: String,
}

/// What running a project gave.
#[derive(Debug)]
pub struct RunResult {
    /// Whether it succeeded.
    pub success: bool,
    /// What it printed besides what went to the terminal.
    pub stdout: String,
    /// What it complained of besides what went to the terminal.
    pub stderr: String,
    /// The exit code, where it was not stopped by a signal.
    pub exit_code: Option<i32>,
}

impl BuildResult {
    /// What a finished build gave, its output decoded as text.
    pub fn from_output(success: bool, stdout: &[u8], stderr: &[u8]) -> (result: Self)
        ensures
            result.success == success,
            result.stdout@ == lossy_utf8(stdout@),
            result.stderr@ == lossy_utf8(stderr@),
    {
        BuildResult { success, stdout: lossy_text(stdout), stderr: lossy_text(stderr) }
    }
}

impl RunResult {
    /// What a finished run gave, whose output went to the terminal.
    pub fn from_status(success: bool, exit_code: Option<i32>) -> (result: Self)
        ensures
            result.success == success,
            result.exit_code == exit_code,
            result.stdout@ == Seq::<char>::empty(),
            result.stderr@ == Seq::<char>::empty(),
    {
        RunResult { success, stdout: String::new(), stderr: String::new(), exit_code }
    }
}

// ---------------------------------------------------------------------------
// Dependencies
// ---------------------------------------------------------------------------

/// The version requirement of a crate that is known to work.
pub open spec fn known_version(name: Seq<char>) -> Option<Seq<char>> {
    if name == "serde"@ {
        Some("{ version = \"1.0\", features = [\"derive\"] }"@)
    } else if name == "serde_json"@ {
        Some("\"1.0\""@)
    } else if name == "tokio"@ {
        Some("{ version = \"1\", features = [\"rt-multi-thread\", \"macros\", \"time\", \"sync\"] }"@)
    } else if name == "time"@ {
        Some("{ version = \"0.3\", features = [\"formatting\", \"macros\"] }"@)
    } else if name == "chrono"@ {
        Some("{ version = \"0.4\", features = [\"serde\"] }"@)
    } else if name == "reqwest"@ {
        Some("{ version = \"0.11\", features = [\"json\"] }"@)
    } else if name == "uuid"@ {
        Some("{ version = \"1.0\", features = [\"v4\", \"serde\"] }"@)
    } else if name == "rand"@ {
        Some("\"0.8\""@)
    } else if name == "regex"@ {
        Some("\"1.0\""@)
    } else if name == "anyhow"@ {
        Some("\"1.0\""@)
    } else if name == "thiserror"@ {
        Some("\"1.0\""@)
    } else if name == "tracing"@ {
        Some("\"0.1\""@)
    } else if name == "clap"@ {
        Some("{ version = \"4.0\", features = [\"derive\"] }"@)
    } else if name == "log"@ {
        Some("\"0.4\""@)
    } else if name == "env_logger"@ {
        Some("\"0.10\""@)
    } else if name == "sqlx"@ {
        Some("{ version = \"0.7\", features = [\"runtime-tokio-native-tls\", \"postgres\"] }"@)
    } else if name == "futures"@ {
        Some("\"0.3\""@)
    } else if name == "bytes"@ {
        Some("\"1.0\""@)
    } else if name == "itertools"@ {
        Some("\"0.12\""@)
    } else {
        None
    }
}

/// The version requirement of a crate that is known to work.
fn known_requirement(name: &str) -> (requirement: Option<String>)
    ensures
        known_version(name@) == requirement_text(requirement),
{
    let spec: &str = if same_text(name, "serde") {
        "{ version = \"1.0\", features = [\"derive\"] }"
    } else if same_text(name, "serde_json") {
        "\"1.0\""
    } else if same_text(name, "tokio") {
        "{ version = \"1\", features = [\"rt-multi-thread\", \"macros\", \"time\", \"sync\"] }"
    } else if same_text(name, "time") {
        "{ version = \"0.3\", features = [\"formatting\", \"macros\"] }"
    } else if same_text(name, "chrono") {
        "{ version = \"0.4\", features = [\"serde\"] }"
    } else if same_text(name, "reqwest") {
        "{ version = \"0.11\", features = [\"json\"] }"
    } else if same_text(name, "uuid") {
        "{ version = \"1.0\", features = [\"v4\", \"serde\"] }"
    } else if same_text(name, "rand") {
        "\"0.8\""
    } else if same_text(name, "regex") {
        "\"1.0\""
    } else if same_text(name, "anyhow") {
        "\"1.0\""
    } else if same_text(name, "thiserror") {
        "\"1.0\""
    } else if same_text(name, "tracing") {
        "\"0.1\""
    } else if same_text(name, "clap") {
        "{ version = \"4.0\", features = [\"derive\"] }"
    } else if same_text(name, "log") {
        "\"0.4\""
    } else if same_text(name, "env_logger") {
        "\"0.10\""
    } else if same_text(name, "sqlx") {
        "{ version = \"0.7\", features = [\"runtime-tokio-native-tls\", \"postgres\"] }"
    } else if same_text(name, "futures") {
        "\"0.3\""
    } else if same_text(name, "bytes") {
        "\"1.0\""
    } else if same_text(name, "itertools") {
        "\"0.12\""
    } else {
        return None;
    };
    Some(spec.to_owned())
}

/// The text of a version requirement.
pub open spec fn requirement_text(requirement: Option<String>) -> Option<Seq<char>> {
    match requirement {
        Some(text) => Some(text@),
        None => None,
    }
}

/// What the generator depends on.
#[verifier::ext_equal]
pub ghost struct GeneratorModel {
    /// Where the project is generated.
    pub output_dir: Seq<char>,
    /// The project's name.
    pub name: Seq<char>,
    /// Whether the project is a binary.
    pub is_binary: bool,
    /// Whether serialization is needed.
    pub needs_serde: bool,
    /// Whether the async runtime is needed.
    pub needs_tokio: bool,
    /// Whether the web framework is needed.
    pub needs_axum: bool,
    /// The imported crates with their version requirements.
    pub crates: Map<Seq<char>, Option<Seq<char>>>,
}

/// Whether the crates that the features bring already have a line for a crate.
pub open spec fn covered(needs_serde: bool, needs_tokio: bool, needs_axum: bool, name: Seq<char>) -> bool {
    ||| needs_serde && (name == "serde"@ || name == "serde_json"@)
    ||| needs_axum && (name == "axum"@ || name == "tokio"@)
    ||| needs_tokio && name == "tokio"@
}

/// The lines of the crates that the features bring.
pub open spec fn feature_lines(needs_serde: bool, needs_tokio: bool, needs_axum: bool) -> Seq<Seq<char>> {
    let serde = if needs_serde {
        seq!["serde = { version = \"1.0\", features = [\"derive\"] }"@, "serde_json = \"1.0\""@]
    } else {
        Seq::empty()
    };
    let runtime = if needs_axum {
        seq![
            "axum = \"0.7\""@,
            "tokio = { version = \"1\", features = [\"rt-multi-thread\", \"macros\", \"time\", \"sync\", \"net\"] }"@,
        ]
    } else if needs_tokio {
        seq!["tokio = { version = \"1\", features = [\"rt-multi-thread\", \"macros\", \"time\", \"sync\"] }"@]
    } else {
        Seq::empty()
    };
    serde + runtime
}

/// The line of an imported crate.
pub open spec fn crate_line(name: Seq<char>, requirement: Option<Seq<char>>) -> Seq<char> {
    match requirement {
        Some(version) => name + " = "@ + version,
        None => name + " = \"*\""@,
    }
}

/// The dependency lines with those of the imported crates from one on that no feature covers.
pub open spec fn lines_with(
    g: ProjectGenerator,
    lines: Seq<Seq<char>>,
    from: int,
) -> Seq<Seq<char>>
    decreases g.rust_crate_deps.entries@.len() - from,
{
    let entries = g.rust_crate_deps.entries@;
    if from < 0 || from >= entries.len() {
        lines
    } else if covered(g.needs_serde, g.needs_tokio, g.needs_axum, entries[from].0@) {
        lines_with(g, lines, from + 1)
    } else {
        lines_with(g, lines.push(crate_line(entries[from].0@, requirement_text(entries[from].1))), from + 1)
    }
}

/// The dependency lines of a project.
pub open spec fn dependency_lines(g: ProjectGenerator) -> Seq<Seq<char>> {
    lines_with(g, feature_lines(g.needs_serde, g.needs_tokio, g.needs_axum), 0)
}

/// The target section of a project's manifest.
pub open spec fn target_section(name: Seq<char>, is_binary: bool) -> Seq<char> {
    if is_binary {
        "[[bin]]\nname = \""@ + name + "\"\npath = \"src/main.rs\""@
    } else {
        "[lib]\nname = \""@ + name + "\"\npath = \"src/lib.rs\""@
    }
}

/// The dependency section of a project's manifest.
pub open spec fn dependency_section(lines: Seq<Seq<char>>) -> Seq<char> {
    if lines.len() == 0 {
        "# No additional dependencies"@
    } else {
        joined(lines, "\n"@)
    }
}

/// The manifest of a project.
pub open spec fn manifest(g: ProjectGenerator) -> Seq<char> {
    "[package]\nname = \""@ + g.name@ + "\"\nversion = \""@ + INCAN_VERSION@
        + "\"\nedition = \"2021\"\n\n# Generated by the Incan compiler\n\n[dependencies]\n"@ + dependency_section(
        dependency_lines(g),
    ) + "\n\n"@ + target_section(g.name@, g.is_binary) + "\n"@
}

// ---------------------------------------------------------------------------
// Module declarations
// ---------------------------------------------------------------------------

/// The first place at or behind a place where a text stands.
pub open spec fn first_place(text: Seq<char>, needle: Seq<char>, from: int) -> Option<int>
    decreases text.len() + 1 - from,
{
    if from < 0 || from > text.len() {
        None
    } else if stands_at(text, from, needle) {
        Some(from)
    } else {
        first_place(text, needle, from + 1)
    }
}

/// The place behind the line that a place is in.
pub open spec fn line_end(text: Seq<char>, from: int) -> int
    decreases text.len() - from,
{
    if from < 0 || from >= text.len() {
        text.len() as int
    } else if text[from] == '\n' {
        from + 1
    } else {
        line_end(text, from + 1)
    }
}

/// The declarations of modules.
pub open spec fn module_lines(names: Seq<Seq<char>>) -> Seq<char>
    decreases names.len(),
{
    if names.len() == 0 {
        Seq::empty()
    } else {
        module_lines(names.drop_last()) + "mod "@ + names.last() + ";\n"@
    }
}

/// Code with declarations of modules: behind the line of the crate-level allow attribute where there is one, else in
/// front of everything.
pub open spec fn with_modules(code: Seq<char>, names: Seq<Seq<char>>) -> Seq<char> {
    if names.len() == 0 {
        code
    } else {
        match first_place(code, "#![allow("@, 0) {
            Some(at) => code.take(line_end(code, at)) + module_lines(names) + "\n"@ + code.skip(line_end(code, at)),
            None => module_lines(names) + "\n"@ + code,
        }
    }
}

/// Finds the first place where a text stands.
fn find_text(text: &Vec<char>, needle: &Vec<char>) -> (place: Option<usize>)
    ensures
        first_place(text@, needle@, 0) == match place {
            Some(at) => Some(at as int),
            None => None,
        },
        place matches Some(at) ==> at <= text@.len(),
{
    let mut at: usize = 0;
    while at < text.len()
        invariant
            at <= text@.len(),
            first_place(text@, needle@, 0) == first_place(text@, needle@, at as int),
        decreases text@.len() - at,
    {
        if chars_at(text, at, needle) {
            return Some(at);
        }
        at += 1;
    }
    if chars_at(text, at, needle) {
        Some(at)
    } else {
        proof {
            assert(first_place(text@, needle@, at + 1) is None);
        }
        None
    }
}

/// The place behind the line that a place is in.
fn end_of_line(text: &Vec<char>, from: usize) -> (end: usize)
    requires
        from <= text@.len(),
    ensures
        end == line_end(text@, from as int),
        from <= end <= text@.len(),
{
    let mut at: usize = from;
    while at < text.len()
        invariant
            from <= at <= text@.len(),
            line_end(text@, from as int) == line_end(text@, at as int),
        decreases text@.len() - at,
    {
        if text[at] == '\n' {
            return at + 1;
        }
        at += 1;
    }
    at
}

/// The declarations of modules.
fn declare_modules(names: &Vec<String>) -> (lines: String)
    ensures
        lines@ == module_lines(texts(names@)),
{
    let mut lines: String = String::new();
    let mut i: usize = 0;
    proof {
        assert(texts(names@).take(0) =~= Seq::empty());
        assert(lines@ =~= Seq::empty());
    }
    while i < names.len()
        invariant
            i <= names@.len(),
            lines@ == module_lines(texts(names@).take(i as int)),
        decreases names@.len() - i,
    {
        proof {
            assert(texts(names@).take(i + 1).drop_last() =~= texts(names@).take(i as int));
        }
        lines = lines.concat("mod ").concat(names[i].as_str()).concat(";\n");
        i += 1;
    }
    proof {
        assert(texts(names@).take(i as int) =~= texts(names@));
    }
    lines
}

/// Code with declarations of modules.
fn insert_modules(code: &str, names: &Vec<String>) -> (full: String)
    ensures
        full@ == with_modules(code@, texts(names@)),
{
    if names.len() == 0 {
        return code.to_owned();
    }
    let lines: String = declare_modules(names);
    let chars: Vec<char> = chars_of(code);
    let attribute: Vec<char> = chars_of("#![allow(");
    match find_text(&chars, &attribute) {
        Some(at) => {
            let end: usize = end_of_line(&chars, at);
            proof {
                assert(chars@.subrange(0, end as int) =~= code@.take(end as int));
                assert(chars@.subrange(end as int, chars@.len() as int) =~= code@.skip(end as int));
            }
            text_of(&chars, 0, end).concat(lines.as_str()).concat("\n").concat(
                text_of(&chars, end, chars.len()).as_str(),
            )
        },
        None => lines.concat("\n").concat(code),
    }
}

// ---------------------------------------------------------------------------
// Files
// ---------------------------------------------------------------------------

/// What a file of a project is: its path and its contents.
pub type FileModel = (Seq<Seq<char>>, Seq<char>);

/// What a file of a project is.
pub open spec fn file_model(file: ProjectFile) -> FileModel {
    (texts(file.path@), file.contents@)
}

/// What a run of files is.
pub open spec fn file_models(files: Seq<ProjectFile>) -> Seq<FileModel> {
    Seq::new(files.len(), |i: int| file_model(files[i]))
}

/// The name of a project's main source file.
pub open spec fn main_file(is_binary: bool) -> Seq<char> {
    if is_binary {
        "main.rs"@
    } else {
        "lib.rs"@
    }
}

/// The manifest file of a project.
pub open spec fn manifest_file(g: ProjectGenerator) -> FileModel {
    (seq!["Cargo.toml"@], manifest(g))
}

/// The main source file of a project.
pub open spec fn source_file(g: ProjectGenerator, code: Seq<char>) -> FileModel {
    (seq!["src"@, main_file(g.is_binary)], code)
}

/// The file of a module that stands directly below the sources.
pub open spec fn flat_file(name: Seq<char>, code: Seq<char>) -> FileModel {
    (seq!["src"@, name + ".rs"@], code)
}

/// The names of some modules.
pub open spec fn flat_names(modules: Seq<(String, String)>) -> Seq<Seq<char>> {
    Seq::new(modules.len(), |i: int| modules[i].0@)
}

/// The files of a project whose modules stand directly below its sources.
pub open spec fn flat_files(g: ProjectGenerator, code: Seq<char>, modules: Seq<(String, String)>) -> Seq<FileModel> {
    seq![manifest_file(g)] + Seq::new(modules.len(), |i: int| flat_file(modules[i].0@, modules[i].1@))
        + seq![source_file(g, with_modules(code, all_inserted(Seq::empty(), flat_names(modules), 0)))]
}

/// The path of a module.
pub open spec fn path_of(module: ModuleCode) -> Seq<Seq<char>> {
    texts(module.path@)
}

/// The directories that the modules from one on stand in, behind those found so far. `depth` is the number of names
/// of the next directory of the first of them.
pub open spec fn directories(
    modules: Seq<ModuleCode>,
    from: int,
    depth: int,
    found: Seq<Seq<Seq<char>>>,
) -> Seq<Seq<Seq<char>>>
    decreases modules.len() - from, path_of(modules[from]).len() - depth,
{
    if from < 0 || from >= modules.len() {
        found
    } else if depth < 1 || depth >= path_of(modules[from]).len() {
        directories(modules, from + 1, 1, found)
    } else {
        let directory = path_of(modules[from]).take(depth);
        directories(
            modules,
            from,
            depth + 1,
            if found.contains(directory) {
                found
            } else {
                found.push(directory)
            },
        )
    }
}

/// Whether a module stands in a directory or below it.
pub open spec fn stands_in(path: Seq<Seq<char>>, directory: Seq<Seq<char>>) -> bool {
    path.len() > directory.len() && path.take(directory.len() as int) == directory
}

/// The modules of a directory, sorted, from one of the given modules on, with those found so far.
pub open spec fn submodules(
    modules: Seq<ModuleCode>,
    from: int,
    directory: Seq<Seq<char>>,
    found: Seq<Seq<char>>,
) -> Seq<Seq<char>>
    decreases modules.len() - from,
{
    if from < 0 || from >= modules.len() {
        found
    } else if stands_in(path_of(modules[from]), directory) {
        submodules(
            modules,
            from + 1,
            directory,
            inserted(found, path_of(modules[from])[directory.len() as int]),
        )
    } else {
        submodules(modules, from + 1, directory, found)
    }
}

/// The public declarations of the modules of a directory.
pub open spec fn public_lines(names: Seq<Seq<char>>) -> Seq<Seq<char>> {
    Seq::new(names.len(), |i: int| "pub mod "@ + names[i] + ";"@)
}

/// The file that declares the modules of a directory.
pub open spec fn directory_file(modules: Seq<ModuleCode>, directory: Seq<Seq<char>>) -> FileModel {
    (
        seq!["src"@] + directory + seq!["mod.rs"@],
        joined(public_lines(submodules(modules, 0, directory, Seq::empty())), "\n"@) + "\n"@,
    )
}

/// The file of a module.
pub open spec fn nested_file(module: ModuleCode) -> FileModel {
    (
        seq!["src"@] + path_of(module).drop_last() + seq![path_of(module).last() + ".rs"@],
        module.code@,
    )
}

/// The files of a project whose modules are nested in directories: a `mod.rs` for every directory, the modules, and a
/// main file that declares the outermost modules.
pub open spec fn nested_files(g: ProjectGenerator, code: Seq<char>, modules: Seq<ModuleCode>) -> Seq<FileModel> {
    let dirs = directories(modules, 0, 1, Seq::empty());
    seq![manifest_file(g)] + Seq::new(dirs.len(), |i: int| directory_file(modules, dirs[i])) + Seq::new(
        modules.len(),
        |i: int| nested_file(modules[i]),
    ) + seq![source_file(g, with_modules(code, submodules(modules, 0, Seq::empty(), Seq::empty())))]
}

/// A file below the sources.
fn source_path(name: String) -> (path: Vec<String>)
    ensures
        texts(path@) == seq!["src"@, name@],
{
    let path: Vec<String> = vec!["src".to_owned(), name];
    proof {
        assert(texts(path@) =~= seq!["src"@, name@]);
    }
    path
}

/// Decides whether a module stands in a directory or below it.
fn is_in(path: &Vec<String>, directory: &Vec<String>) -> (inside: bool)
    ensures
        inside == stands_in(texts(path@), texts(directory@)),
{
    if path.len() <= directory.len() {
        return false;
    }
    let mut i: usize = 0;
    while i < directory.len()
        invariant
            i <= directory@.len() < path@.len(),
            forall|j: int| 0 <= j < i ==> (#[trigger] path@[j])@ == directory@[j]@,
        decreases directory@.len() - i,
    {
        if !same_text(path[i].as_str(), directory[i].as_str()) {
            proof {
                assert(texts(path@).take(directory@.len() as int)[i as int] != texts(directory@)[i as int]);
            }
            return false;
        }
        i += 1;
    }
    proof {
        assert(texts(path@).take(directory@.len() as int) =~= texts(directory@));
    }
    true
}

/// The modules of a directory, sorted.
fn submodules_of(modules: &Vec<ModuleCode>, directory: &Vec<String>) -> (names: Vec<String>)
    ensures
        texts(names@) == submodules(modules@, 0, texts(directory@), Seq::empty()),
{
    let mut names: Vec<String> = Vec::new();
    let mut i: usize = 0;
    proof {
        assert(texts(names@) =~= Seq::empty());
    }
    while i < modules.len()
        invariant
            i <= modules@.len(),
            submodules(modules@, 0, texts(directory@), Seq::empty()) == submodules(
                modules@,
                i as int,
                texts(directory@),
                texts(names@),
            ),
        decreases modules@.len() - i,
    {
        if is_in(&modules[i].path, directory) {
            insert_name(&mut names, modules[i].path[directory.len()].as_str());
        }
        i += 1;
    }
    names
}

/// What a run of paths is.
pub open spec fn paths(list: Seq<Vec<String>>) -> Seq<Seq<Seq<char>>> {
    Seq::new(list.len(), |i: int| texts(list[i]@))
}

/// The first names of a path.
fn path_prefix(path: &Vec<String>, depth: usize) -> (prefix: Vec<String>)
    requires
        depth <= path@.len(),
    ensures
        texts(prefix@) == texts(path@).take(depth as int),
{
    let mut prefix: Vec<String> = Vec::new();
    let mut i: usize = 0;
    while i < depth
        invariant
            i <= depth <= path@.len(),
            prefix@.len() == i,
            forall|j: int| 0 <= j < i ==> (#[trigger] prefix@[j])@ == path@[j]@,
        decreases depth - i,
    {
        prefix.push(path[i].clone());
        i += 1;
    }
    proof {
        assert(texts(prefix@) =~= texts(path@).take(depth as int));
    }
    prefix
}

/// Decides whether a path is in a list.
fn lists_path(list: &Vec<Vec<String>>, path: &Vec<String>) -> (found: bool)
    ensures
        found == paths(list@).contains(texts(path@)),
{
    let mut i: usize = 0;
    while i < list.len()
        invariant
            i <= list@.len(),
            forall|j: int| 0 <= j < i ==> #[trigger] paths(list@)[j] != texts(path@),
        decreases list@.len() - i,
    {
        if same_path(&list[i], path) {
            proof {
                assert(paths(list@)[i as int] == texts(path@));
            }
            return true;
        }
        i += 1;
    }
    false
}

/// Decides whether two paths are the same.
fn same_path(a: &Vec<String>, b: &Vec<String>) -> (same: bool)
    ensures
        same == (texts(a@) == texts(b@)),
{
    if a.len() != b.len() {
        proof {
            assert(texts(a@).len() != texts(b@).len());
        }
        return false;
    }
    let mut i: usize = 0;
    while i < a.len()
        invariant
            i <= a@.len() == b@.len(),
            forall|j: int| 0 <= j < i ==> (#[trigger] a@[j])@ == b@[j]@,
        decreases a@.len() - i,
    {
        if !same_text(a[i].as_str(), b[i].as_str()) {
            proof {
                assert(texts(a@)[i as int] != texts(b@)[i as int]);
            }
            return false;
        }
        i += 1;
    }
    proof {
        assert(texts(a@) =~= texts(b@));
    }
    true
}

/// The directories that some modules stand in.
fn directories_of(modules: &Vec<ModuleCode>) -> (found: Vec<Vec<String>>)
    ensures
        paths(found@) == directories(modules@, 0, 1, Seq::empty()),
{
    let mut found: Vec<Vec<String>> = Vec::new();
    let mut i: usize = 0;
    proof {
        assert(paths(found@) =~= Seq::empty());
    }
    while i < modules.len()
        invariant
            i <= modules@.len(),
            directories(modules@, 0, 1, Seq::empty()) == directories(modules@, i as int, 1, paths(found@)),
        decreases modules@.len() - i,
    {
        let path: &Vec<String> = &modules[i].path;
        let mut depth: usize = 1;
        while depth < path.len()
            invariant
                i < modules@.len(),
                path@ == modules@[i as int].path@,
                1 <= depth,
                depth <= path@.len() || depth == 1,
                directories(modules@, 0, 1, Seq::empty()) == directories(
                    modules@,
                    i as int,
                    depth as int,
                    paths(found@),
                ),
            decreases path@.len() - depth,
        {
            let directory: Vec<String> = path_prefix(path, depth);
            if !lists_path(&found, &directory) {
                let ghost before = paths(found@);
                found.push(directory);
                proof {
                    assert(paths(found@) =~= before.push(texts(directory@)));
                }
            }
            depth += 1;
        }
        i += 1;
    }
    found
}

/// The file that declares the modules of a directory.
fn directory_source(modules: &Vec<ModuleCode>, directory: &Vec<String>) -> (file: ProjectFile)
    ensures
        file_model(file) == directory_file(modules@, texts(directory@)),
{
    let names: Vec<String> = submodules_of(modules, directory);
    let mut lines: Vec<String> = Vec::new();
    let mut i: usize = 0;
    while i < names.len()
        invariant
            i <= names@.len(),
            lines@.len() == i,
            forall|j: int| 0 <= j < i ==> (#[trigger] lines@[j])@ == "pub mod "@ + names@[j]@ + ";"@,
        decreases names@.len() - i,
    {
        lines.push("pub mod ".to_owned().concat(names[i].as_str()).concat(";"));
        i += 1;
    }
    proof {
        assert(texts(lines@) =~= public_lines(texts(names@)));
    }
    let mut path: Vec<String> = vec!["src".to_owned()];
    let mut k: usize = 0;
    proof {
        assert(texts(path@) =~= seq!["src"@] + texts(directory@).take(0));
    }
    while k < directory.len()
        invariant
            k <= directory@.len(),
            texts(path@) == seq!["src"@] + texts(directory@).take(k as int),
        decreases directory@.len() - k,
    {
        let ghost before = texts(path@);
        path.push(directory[k].clone());
        proof {
            assert(texts(path@) =~= before.push(directory@[k as int]@));
            assert(texts(directory@).take(k + 1) =~= texts(directory@).take(k as int).push(directory@[k as int]@));
            assert(texts(path@) =~= seq!["src"@] + texts(directory@).take(k + 1));
        }
        k += 1;
    }
    let ghost before = texts(path@);
    path.push("mod.rs".to_owned());
    proof {
        assert(texts(directory@).take(k as int) =~= texts(directory@));
        assert(texts(path@) =~= before.push("mod.rs"@));
        assert(texts(path@) =~= seq!["src"@] + texts(directory@) + seq!["mod.rs"@]);
    }
    ProjectFile { path, contents: join(&lines, "\n").concat("\n") }
}

/// The file of a module.
fn module_source(module: &ModuleCode) -> (file: ProjectFile)
    requires
        module.path@.len() > 0,
    ensures
        file_model(file) == nested_file(*module),
{
    let count: usize = module.path.len();
    let mut path: Vec<String> = vec!["src".to_owned()];
    let mut k: usize = 0;
    let ghost names = path_of(*module);
    proof {
        assert(texts(path@) =~= seq!["src"@] + names.take(0));
    }
    while k < count - 1
        invariant
            k <= count - 1,
            count == module.path@.len(),
            names == texts(module.path@),
            texts(path@) == seq!["src"@] + names.take(k as int),
        decreases count - k,
    {
        let ghost before = texts(path@);
        path.push(module.path[k].clone());
        proof {
            assert(texts(path@) =~= before.push(names[k as int]));
            assert(names.take(k + 1) =~= names.take(k as int).push(names[k as int]));
            assert(texts(path@) =~= seq!["src"@] + names.take(k + 1));
        }
        k += 1;
    }
    let ghost before = texts(path@);
    let file_name: String = module.path[count - 1].clone().concat(".rs");
    path.push(file_name);
    proof {
        assert(names.take(k as int) =~= names.drop_last());
        assert(texts(path@) =~= before.push(names.last() + ".rs"@));
        assert(texts(path@) =~= seq!["src"@] + names.drop_last() + seq![names.last() + ".rs"@]);
    }
    ProjectFile { path, contents: module.code.clone() }
}

impl ProjectGenerator {
    /// What the generator depends on.
    pub open spec fn model(&self) -> GeneratorModel {
        GeneratorModel {
            output_dir: self.output_dir@,
            name: self.name@,
            is_binary: self.is_binary,
            needs_serde: self.needs_serde,
            needs_tokio: self.needs_tokio,
            needs_axum: self.needs_axum,
            crates: self.rust_crate_deps@.map_values(|requirement: Option<String>| requirement_text(requirement)),
        }
    }

    /// Whether no crate is listed twice.
    pub open spec fn well_formed(&self) -> bool {
        self.rust_crate_deps.distinct()
    }

    /// A generator of a project without dependencies.
    pub fn new(output_dir: &str, name: &str, is_binary: bool) -> (generator: Self)
        ensures
            generator.well_formed(),
            generator.model() == (GeneratorModel {
                output_dir: output_dir@,
                name: name@,
                is_binary,
                needs_serde: false,
                needs_tokio: false,
                needs_axum: false,
                crates: Map::empty(),
            }),
    {
        let generator = ProjectGenerator {
            output_dir: output_dir.to_owned(),
            name: name.to_owned(),
            is_binary,
            needs_serde: false,
            needs_tokio: false,
            needs_axum: false,
            rust_crate_deps: NameMap::new(),
        };
        proof {
            assert(generator.model().crates =~= Map::empty());
        }
        generator
    }

    /// Turns serialization on.
    pub fn with_serde(self) -> (generator: Self)
        ensures
            generator == (ProjectGenerator { needs_serde: true, ..self }),
    {
        ProjectGenerator { needs_serde: true, ..self }
    }

    /// Sets whether serialization is needed.
    pub fn set_needs_serde(&mut self, needs: bool)
        ensures
            *final(self) == (ProjectGenerator { needs_serde: needs, ..*old(self) }),
    {
        self.needs_serde = needs;
    }

    /// Turns the async runtime on.
    pub fn with_tokio(self) -> (generator: Self)
        ensures
            generator == (ProjectGenerator { needs_tokio: true, ..self }),
    {
        ProjectGenerator { needs_tokio: true, ..self }
    }

    /// Sets whether the async runtime is needed.
    pub fn set_needs_tokio(&mut self, needs: bool)
        ensures
            *final(self) == (ProjectGenerator { needs_tokio: needs, ..*old(self) }),
    {
        self.needs_tokio = needs;
    }

    /// Turns the web framework on.
    pub fn with_axum(self) -> (generator: Self)
        ensures
            generator == (ProjectGenerator { needs_axum: true, ..self }),
    {
        ProjectGenerator { needs_axum: true, ..self }
    }

    /// Sets whether the web framework is needed.
    pub fn set_needs_axum(&mut self, needs: bool)
        ensures
            *final(self) == (ProjectGenerator { needs_axum: needs, ..*old(self) }),
    {
        self.needs_axum = needs;
    }

    /// Adds an imported crate with the version that is known to work, or the latest one.
    pub fn add_rust_crate(&mut self, crate_name: &str)
        ensures
            final(self).model() == (GeneratorModel {
                crates: old(self).model().crates.insert(crate_name@, known_version(crate_name@)),
                ..old(self).model()
            }),
            old(self).well_formed() ==> final(self).well_formed(),
    {
        let requirement: Option<String> = known_requirement(crate_name);
        self.rust_crate_deps.insert(crate_name.to_owned(), requirement);
        proof {
            assert(self.model().crates =~= old(self).model().crates.insert(crate_name@, known_version(crate_name@)));
        }
    }

    /// Adds an imported crate with a version requirement.
    pub fn add_rust_crate_with_version(&mut self, crate_name: &str, version_spec: &str)
        ensures
            final(self).model() == (GeneratorModel {
                crates: old(self).model().crates.insert(crate_name@, Some(version_spec@)),
                ..old(self).model()
            }),
            old(self).well_formed() ==> final(self).well_formed(),
    {
        self.rust_crate_deps.insert(crate_name.to_owned(), Some(version_spec.to_owned()));
        proof {
            assert(self.model().crates =~= old(self).model().crates.insert(crate_name@, Some(version_spec@)));
        }
    }

    /// Decides whether the features already have a line for a crate.
    fn covers(&self, name: &str) -> (found: bool)
        ensures
            found == covered(self.needs_serde, self.needs_tokio, self.needs_axum, name@),
    {
        (self.needs_serde && (same_text(name, "serde") || same_text(name, "serde_json"))) || (self.needs_axum && (
        same_text(name, "axum") || same_text(name, "tokio"))) || (self.needs_tokio && same_text(name, "tokio"))
    }

    /// The dependency lines.
    fn dependencies(&self) -> (lines: Vec<String>)
        ensures
            texts(lines@) == dependency_lines(*self),
    {
        let mut lines: Vec<String> = Vec::new();
        if self.needs_serde {
            lines.push("serde = { version = \"1.0\", features = [\"derive\"] }".to_owned());
            lines.push("serde_json = \"1.0\"".to_owned());
        }
        if self.needs_axum {
            lines.push("axum = \"0.7\"".to_owned());
            lines.push(
                "tokio = { version = \"1\", features = [\"rt-multi-thread\", \"macros\", \"time\", \"sync\", \"net\"] }".to_owned(),
            );
        } else if self.needs_tokio {
            lines.push(
                "tokio = { version = \"1\", features = [\"rt-multi-thread\", \"macros\", \"time\", \"sync\"] }".to_owned(),
            );
        }
        proof {
            assert(texts(lines@) =~= feature_lines(self.needs_serde, self.needs_tokio, self.needs_axum));
        }
        let entries: &Vec<(String, Option<String>)> = &self.rust_crate_deps.entries;
        let mut i: usize = 0;
        while i < entries.len()
            invariant
                i <= entries@.len(),
                entries@ == self.rust_crate_deps.entries@,
                dependency_lines(*self) == lines_with(*self, texts(lines@), i as int),
            decreases entries@.len() - i,
        {
            if !self.covers(entries[i].0.as_str()) {
                let line: String = match &entries[i].1 {
                    Some(version) => entries[i].0.clone().concat(" = ").concat(version.as_str()),
                    None => entries[i].0.clone().concat(" = \"*\""),
                };
                let ghost before = texts(lines@);
                lines.push(line);
                proof {
                    assert(texts(lines@) =~= before.push(line@));
                }
            }
            i += 1;
        }
        lines
    }

    /// The manifest of the project.
    pub fn generate_cargo_toml(&self) -> (text: String)
        ensures
            text@ == manifest(*self),
    {
        let target: String = if self.is_binary {
            "[[bin]]\nname = \"".to_owned().concat(self.name.as_str()).concat("\"\npath = \"src/main.rs\"")
        } else {
            "[lib]\nname = \"".to_owned().concat(self.name.as_str()).concat("\"\npath = \"src/lib.rs\"")
        };
        let lines: Vec<String> = self.dependencies();
        let dependencies: String = if lines.len() == 0 {
            "# No additional dependencies".to_owned()
        } else {
            join(&lines, "\n")
        };
        "[package]\nname = \"".to_owned().concat(self.name.as_str()).concat("\"\nversion = \"").concat(
            INCAN_VERSION,
        ).concat("\"\nedition = \"2021\"\n\n# Generated by the Incan compiler\n\n[dependencies]\n").concat(
            dependencies.as_str(),
        ).concat("\n\n").concat(target.as_str()).concat("\n")
    }

    /// The manifest file.
    fn manifest_source(&self) -> (file: ProjectFile)
        ensures
            file_model(file) == manifest_file(*self),
    {
        let path: Vec<String> = vec!["Cargo.toml".to_owned()];
        proof {
            assert(texts(path@) =~= seq!["Cargo.toml"@]);
        }
        ProjectFile { path, contents: self.generate_cargo_toml() }
    }

    /// The main source file.
    fn main_source(&self, code: String) -> (file: ProjectFile)
        ensures
            file_model(file) == source_file(*self, code@),
    {
        let name: String = if self.is_binary {
            "main.rs".to_owned()
        } else {
            "lib.rs".to_owned()
        };
        ProjectFile { path: source_path(name), contents: code }
    }

    /// The files of a project with one source file.
    pub fn generate(&self, rust_code: &str) -> (files: Vec<ProjectFile>)
        ensures
            file_models(files@) == seq![manifest_file(*self), source_file(*self, rust_code@)],
    {
        let files: Vec<ProjectFile> = vec![self.manifest_source(), self.main_source(rust_code.to_owned())];
        proof {
            assert(file_models(files@) =~= seq![manifest_file(*self), source_file(*self, rust_code@)]);
        }
        files
    }

    /// The files of a project whose modules, by name, stand directly below its sources.
    pub fn generate_multi(&self, main_code: &str, modules: &Vec<(String, String)>) -> (files: Vec<ProjectFile>)
        ensures
            file_models(files@) == flat_files(*self, main_code@, modules@),
    {
        let mut files: Vec<ProjectFile> = vec![self.manifest_source()];
        let mut names: Vec<String> = Vec::new();
        let mut i: usize = 0;
        while i < modules.len()
            invariant
                i <= modules@.len(),
                names@.len() == i,
                files@.len() == i + 1,
                file_model(files@[0]) == manifest_file(*self),
                forall|j: int| 0 <= j < i ==> (#[trigger] names@[j])@ == modules@[j].0@,
                forall|j: int|
                    1 <= j <= i ==> file_model(#[trigger] files@[j]) == flat_file(
                        modules@[j - 1].0@,
                        modules@[j - 1].1@,
                    ),
            decreases modules@.len() - i,
        {
            let file = ProjectFile {
                path: source_path(modules[i].0.clone().concat(".rs")),
                contents: modules[i].1.clone(),
            };
            files.push(file);
            names.push(modules[i].0.clone());
            i += 1;
        }
        proof {
            assert(texts(names@) =~= flat_names(modules@));
        }
        let sorted: Vec<String> = sorted_names(&names);
        files.push(self.main_source(insert_modules(main_code, &sorted)));
        proof {
            assert(file_models(files@) =~= flat_files(*self, main_code@, modules@));
        }
        files
    }

    /// The files of a project whose modules are nested in directories.
    pub fn generate_nested(&self, main_code: &str, modules: &Vec<ModuleCode>) -> (files: Vec<ProjectFile>)
        requires
            forall|i: int| 0 <= i < modules@.len() ==> (#[trigger] modules@[i]).path@.len() > 0,
        ensures
            file_models(files@) == nested_files(*self, main_code@, modules@),
    {
        let dirs: Vec<Vec<String>> = directories_of(modules);
        let mut files: Vec<ProjectFile> = vec![self.manifest_source()];
        let ghost start = seq![manifest_file(*self)];
        let ghost listed = Seq::new(dirs@.len(), |i: int| directory_file(modules@, paths(dirs@)[i]));
        let ghost coded = Seq::new(modules@.len(), |i: int| nested_file(modules@[i]));
        let mut i: usize = 0;
        proof {
            assert(file_models(files@) =~= start + listed.take(0));
        }
        while i < dirs.len()
            invariant
                i <= dirs@.len(),
                listed.len() == dirs@.len(),
                forall|k: int| 0 <= k < dirs@.len() ==> #[trigger] listed[k] == directory_file(
                    modules@,
                    texts(dirs@[k]@),
                ),
                file_models(files@) == start + listed.take(i as int),
            decreases dirs@.len() - i,
        {
            let ghost before = file_models(files@);
            let file: ProjectFile = directory_source(modules, &dirs[i]);
            files.push(file);
            proof {
                assert(file_models(files@) =~= before.push(listed[i as int]));
                assert(listed.take(i + 1) =~= listed.take(i as int).push(listed[i as int]));
                assert(file_models(files@) =~= start + listed.take(i + 1));
            }
            i += 1;
        }
        proof {
            assert(listed.take(i as int) =~= listed);
            assert(file_models(files@) =~= start + listed + coded.take(0));
        }
        let mut k: usize = 0;
        while k < modules.len()
            invariant
                k <= modules@.len(),
                forall|i: int| 0 <= i < modules@.len() ==> (#[trigger] modules@[i]).path@.len() > 0,
                coded == Seq::new(modules@.len(), |i: int| nested_file(modules@[i])),
                file_models(files@) == start + listed + coded.take(k as int),
            decreases modules@.len() - k,
        {
            let ghost before = file_models(files@);
            let file: ProjectFile = module_source(&modules[k]);
            files.push(file);
            proof {
                assert(file_models(files@) =~= before.push(coded[k as int]));
                assert(coded.take(k + 1) =~= coded.take(k as int).push(coded[k as int]));
                assert(file_models(files@) =~= start + listed + coded.take(k + 1));
            }
            k += 1;
        }
        let root: Vec<String> = Vec::new();
        proof {
            assert(texts(root@) =~= Seq::empty());
            assert(coded.take(k as int) =~= coded);
        }
        let top_level: Vec<String> = submodules_of(modules, &root);
        let ghost before = file_models(files@);
        let main: ProjectFile = self.main_source(insert_modules(main_code, &top_level));
        files.push(main);
        proof {
            assert(file_models(files@) =~= before.push(file_model(main)));
            assert(listed =~= Seq::new(
                paths(dirs@).len(),
                |i: int| directory_file(modules@, paths(dirs@)[i]),
            ));
            assert(file_models(files@) =~= nested_files(*self, main_code@, modules@));
        }
        files
    }

    /// Where the built binary stands.
    pub fn binary_path(&self) -> (path: ProjectPath)
        ensures
            path.base@ == self.output_dir@,
            texts(path.segments@) == seq!["target"@, "release"@, self.name@],
    {
        let segments: Vec<String> = vec!["target".to_owned(), "release".to_owned(), self.name.clone()];
        proof {
            assert(texts(segments@) =~= seq!["target"@, "release"@, self.name@]);
        }
        ProjectPath { base: self.output_dir.clone(), segments }
    }
}

// ---------------------------------------------------------------------------
// Laws
// ---------------------------------------------------------------------------

/// The names of the crates that the features bring.
pub open spec fn feature_names(needs_serde: bool, needs_tokio: bool, needs_axum: bool) -> Seq<Seq<char>> {
    let serde = if needs_serde {
        seq!["serde"@, "serde_json"@]
    } else {
        Seq::empty()
    };
    let runtime = if needs_axum {
        seq!["axum"@, "tokio"@]
    } else if needs_tokio {
        seq!["tokio"@]
    } else {
        Seq::empty()
    };
    serde + runtime
}

/// The names of the crates that a project depends on, line by line.
pub open spec fn names_with(g: ProjectGenerator, names: Seq<Seq<char>>, from: int) -> Seq<Seq<char>>
    decreases g.rust_crate_deps.entries@.len() - from,
{
    let entries = g.rust_crate_deps.entries@;
    if from < 0 || from >= entries.len() {
        names
    } else if covered(g.needs_serde, g.needs_tokio, g.needs_axum, entries[from].0@) {
        names_with(g, names, from + 1)
    } else {
        names_with(g, names.push(entries[from].0@), from + 1)
    }
}

proof fn names_are_distinct(g: ProjectGenerator, names: Seq<Seq<char>>, from: int)
    requires
        g.well_formed(),
        0 <= from,
        names.no_duplicates(),
        forall|i: int|
            0 <= i < names.len() ==> covered(g.needs_serde, g.needs_tokio, g.needs_axum, #[trigger] names[i])
                || exists|k: int|
                0 <= k < from && k < g.rust_crate_deps.entries@.len() && (#[trigger] g.rust_crate_deps.entries@[k]).0@
                    == names[i],
    ensures
        names_with(g, names, from).no_duplicates(),
    decreases g.rust_crate_deps.entries@.len() - from,
{
    let entries = g.rust_crate_deps.entries@;
    if from < entries.len() {
        let name = entries[from].0@;
        if covered(g.needs_serde, g.needs_tokio, g.needs_axum, name) {
            names_are_distinct(g, names, from + 1);
        } else {
            let more = names.push(name);
            assert forall|i: int| 0 <= i < names.len() implies names[i] != name by {
                if names[i] == name {
                    let k = choose|k: int|
                        0 <= k < from && k < entries.len() && (#[trigger] entries[k]).0@ == names[i];
                    assert(entries[k].0@ != entries[from].0@);
                }
            }
            assert forall|i: int| 0 <= i < more.len() implies covered(
                g.needs_serde,
                g.needs_tokio,
                g.needs_axum,
                #[trigger] more[i],
            ) || exists|k: int|
                0 <= k < from + 1 && k < entries.len() && (#[trigger] entries[k]).0@ == more[i] by {
                if i < names.len() {
                    assert(more[i] == names[i]);
                } else {
                    assert(entries[from].0@ == more[i]);
                }
            }
            names_are_distinct(g, more, from + 1);
        }
    }
}

/// Whether a line declares a crate.
pub open spec fn declares_crate(line: Seq<char>, name: Seq<char>) -> bool {
    exists|requirement: Option<Seq<char>>| line == #[trigger] crate_line(name, requirement)
}

pub proof fn lines_name_their_crates(g: ProjectGenerator, lines: Seq<Seq<char>>, names: Seq<Seq<char>>, from: int)
    requires
        lines.len() == names.len(),
    ensures
        lines_with(g, lines, from).len() == names_with(g, names, from).len() >= lines.len(),
        forall|i: int|
            0 <= i < lines.len() ==> lines_with(g, lines, from)[i] == lines[i] && names_with(g, names, from)[i]
                == names[i],
        forall|i: int|
            lines.len() <= i < lines_with(g, lines, from).len() ==> declares_crate(
                #[trigger] lines_with(g, lines, from)[i],
                names_with(g, names, from)[i],
            ),
    decreases g.rust_crate_deps.entries@.len() - from,
{
    let entries = g.rust_crate_deps.entries@;
    if 0 <= from < entries.len() {
        let name = entries[from].0@;
        let requirement = requirement_text(entries[from].1);
        if covered(g.needs_serde, g.needs_tokio, g.needs_axum, name) {
            lines_name_their_crates(g, lines, names, from + 1);
        } else {
            let more = lines.push(crate_line(name, requirement));
            lines_name_their_crates(g, more, names.push(name), from + 1);
            let all = lines_with(g, lines, from);
            assert(all[lines.len() as int] == more[lines.len() as int]);
            assert(declares_crate(all[lines.len() as int], name));
            assert forall|i: int| 0 <= i < lines.len() implies all[i] == lines[i] && names_with(g, names, from)[i]
                == names[i] by {
                assert(more[i] == lines[i]);
                assert(names.push(name)[i] == names[i]);
            }
        }
    }
}

/// The lines of the features declare the crates that the features bring, each at its place.
pub proof fn feature_lines_name_their_crates(needs_serde: bool, needs_tokio: bool, needs_axum: bool)
    ensures
        feature_lines(needs_serde, needs_tokio, needs_axum).len() == feature_names(
            needs_serde,
            needs_tokio,
            needs_axum,
        ).len(),
        forall|i: int|
            0 <= i < feature_names(needs_serde, needs_tokio, needs_axum).len() ==> declares_crate(
                #[trigger] feature_lines(needs_serde, needs_tokio, needs_axum)[i],
                feature_names(needs_serde, needs_tokio, needs_axum)[i],
            ),
{
    let lines = feature_lines(needs_serde, needs_tokio, needs_axum);
    let names = feature_names(needs_serde, needs_tokio, needs_axum);
    reveal_strlit(" = ");
    reveal_strlit("serde");
    reveal_strlit("serde_json");
    reveal_strlit("axum");
    reveal_strlit("tokio");
    reveal_strlit("serde = { version = \"1.0\", features = [\"derive\"] }");
    reveal_strlit("serde_json = \"1.0\"");
    reveal_strlit("axum = \"0.7\"");
    reveal_strlit(
        "tokio = { version = \"1\", features = [\"rt-multi-thread\", \"macros\", \"time\", \"sync\", \"net\"] }",
    );
    reveal_strlit("tokio = { version = \"1\", features = [\"rt-multi-thread\", \"macros\", \"time\", \"sync\"] }");
    assert forall|i: int| 0 <= i < names.len() implies declares_crate(#[trigger] lines[i], names[i]) by {
        let version = lines[i].skip((names[i].len() + 3) as int);
        assert(lines[i] =~= crate_line(names[i], Some(version)));
    }
}

/// No crate is declared twice: what a feature brings is not declared again for an import, and every line declares the
/// crate of its place, those of the features included.
pub proof fn law_crates_are_declared_once(g: ProjectGenerator)
    requires
        g.well_formed(),
    ensures
        ({
            let names = names_with(g, feature_names(g.needs_serde, g.needs_tokio, g.needs_axum), 0);
            &&& names.no_duplicates()
            &&& dependency_lines(g).len() == names.len()
            &&& forall|i: int| 0 <= i < names.len() ==> declares_crate(#[trigger] dependency_lines(g)[i], names[i])
        }),
{
    lines_name_their_crates(
        g,
        feature_lines(g.needs_serde, g.needs_tokio, g.needs_axum),
        feature_names(g.needs_serde, g.needs_tokio, g.needs_axum),
        0,
    );
    reveal_strlit("serde");
    reveal_strlit("serde_json");
    reveal_strlit("axum");
    reveal_strlit("tokio");
    let names = feature_names(g.needs_serde, g.needs_tokio, g.needs_axum);
    assert("serde"@.len() == 5 && "serde_json"@.len() == 10 && "axum"@.len() == 4 && "tokio"@.len() == 5);
    assert("serde"@[0] == 's' && "tokio"@[0] == 't');
    assert(names.no_duplicates());
    names_are_distinct(g, names, 0);
    feature_lines_name_their_crates(g.needs_serde, g.needs_tokio, g.needs_axum);
    let features = feature_lines(g.needs_serde, g.needs_tokio, g.needs_axum);
    let (lines, all) = (dependency_lines(g), names_with(g, names, 0));
    assert forall|i: int| 0 <= i < all.len() implies declares_crate(#[trigger] lines[i], all[i]) by {
        if i < features.len() {
            assert(lines[i] == features[i] && all[i] == names[i]);
            assert(declares_crate(features[i], names[i]));
        }
    }
}

proof fn directories_grow(
    modules: Seq<ModuleCode>,
    from: int,
    depth: int,
    found: Seq<Seq<Seq<char>>>,
    directory: Seq<Seq<char>>,
)
    requires
        found.contains(directory),
    ensures
        directories(modules, from, depth, found).contains(directory),
    decreases modules.len() - from, path_of(modules[from]).len() - depth,
{
    if 0 <= from < modules.len() {
        if depth < 1 || depth >= path_of(modules[from]).len() {
            directories_grow(modules, from + 1, 1, found, directory);
        } else {
            let next = path_of(modules[from]).take(depth);
            if found.contains(next) {
                directories_grow(modules, from, depth + 1, found, directory);
            } else {
                let at = choose|i: int| 0 <= i < found.len() && found[i] == directory;
                assert(found.push(next)[at] == directory);
                directories_grow(modules, from, depth + 1, found.push(next), directory);
            }
        }
    }
}

proof fn directories_cover(
    modules: Seq<ModuleCode>,
    from: int,
    depth: int,
    found: Seq<Seq<Seq<char>>>,
    at: int,
    level: int,
)
    requires
        0 <= from <= at < modules.len(),
        1 <= depth,
        1 <= level < path_of(modules[at]).len(),
        from == at ==> depth <= level,
    ensures
        directories(modules, from, depth, found).contains(path_of(modules[at]).take(level)),
    decreases modules.len() - from, path_of(modules[from]).len() - depth,
{
    if depth >= path_of(modules[from]).len() {
        directories_cover(modules, from + 1, 1, found, at, level);
    } else {
        let next = path_of(modules[from]).take(depth);
        let more = if found.contains(next) {
            found
        } else {
            found.push(next)
        };
        if from == at && depth == level {
            if !found.contains(next) {
                assert(more[found.len() as int] == next);
            }
            directories_grow(modules, from, depth + 1, more, next);
        } else {
            directories_cover(modules, from, depth + 1, more, at, level);
        }
    }
}

proof fn submodules_grow(
    modules: Seq<ModuleCode>,
    from: int,
    directory: Seq<Seq<char>>,
    found: Seq<Seq<char>>,
    name: Seq<char>,
)
    requires
        crate::order::increasing(found),
        found.contains(name),
    ensures
        submodules(modules, from, directory, found).contains(name),
    decreases modules.len() - from,
{
    if 0 <= from < modules.len() {
        if stands_in(path_of(modules[from]), directory) {
            let next = path_of(modules[from])[directory.len() as int];
            crate::order::law_insertion_keeps_order(found, next);
            submodules_grow(modules, from + 1, directory, inserted(found, next), name);
        } else {
            submodules_grow(modules, from + 1, directory, found, name);
        }
    }
}

proof fn submodules_cover(
    modules: Seq<ModuleCode>,
    from: int,
    directory: Seq<Seq<char>>,
    found: Seq<Seq<char>>,
    at: int,
)
    requires
        0 <= from <= at < modules.len(),
        crate::order::increasing(found),
        stands_in(path_of(modules[at]), directory),
    ensures
        submodules(modules, from, directory, found).contains(path_of(modules[at])[directory.len() as int]),
    decreases modules.len() - from,
{
    if stands_in(path_of(modules[from]), directory) {
        let next = path_of(modules[from])[directory.len() as int];
        crate::order::law_insertion_keeps_order(found, next);
        if from == at {
            submodules_grow(modules, from + 1, directory, inserted(found, next), next);
        } else {
            submodules_cover(modules, from + 1, directory, inserted(found, next), at);
        }
    } else {
        submodules_cover(modules, from + 1, directory, found, at);
    }
}

/// Every module of a nested project is reachable: each directory on its path has a file that declares the next name
/// of the path, and the main file declares the first one.
pub proof fn law_modules_are_declared(modules: Seq<ModuleCode>, at: int, level: int)
    requires
        0 <= at < modules.len(),
        0 <= level < path_of(modules[at]).len(),
    ensures
        submodules(modules, 0, path_of(modules[at]).take(level), Seq::empty()).contains(path_of(modules[at])[level]),
        level > 0 ==> directories(modules, 0, 1, Seq::empty()).contains(path_of(modules[at]).take(level)),
        level == 0 ==> submodules(modules, 0, Seq::empty(), Seq::empty()).contains(path_of(modules[at])[0]),
{
    let directory = path_of(modules[at]).take(level);
    submodules_cover(modules, 0, directory, Seq::empty(), at);
    if level > 0 {
        directories_cover(modules, 0, 1, Seq::empty(), at, level);
    } else {
        assert(directory =~= Seq::empty());
    }
}

} // verus!
