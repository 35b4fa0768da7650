//! What the commands decide between reading and writing.

use crate::ast::{Declaration, ImportKind, Program, Spanned};
use crate::cli::imports::{collect_rust_crates, crate_names, lists};
use crate::cli::prelude::ParsedModule;
use crate::project::{known_version, BuildResult, GeneratorModel, ProjectGenerator, RunResult};
use crate::text::{begins_with, decimal, join, joined, natural_text, same_text, starts_with, texts};
use vstd::prelude::*;

verus! {

broadcast use vstd::string::group_string_axioms;

// ---------------------------------------------------------------------------
// Modules
// ---------------------------------------------------------------------------

/// A module that is to be read.
#[derive(Debug)]
pub struct PendingModule {
    /// The file.
    pub file_path: String,
    /// The module's name.
    pub name: String,
    /// The names of its path.
    pub path_segments: Vec<String>,
}

/// What a module that is to be read is.
pub ghost struct PendingModel {
    /// The file.
    pub file_path: Seq<char>,
    /// The module's name.
    pub name: Seq<char>,
    /// The names of its path.
    pub path_segments: Seq<Seq<char>>,
}

impl PendingModule {
    /// What the module is.
    pub open spec fn model(self) -> PendingModel {
        PendingModel {
            file_path: self.file_path@,
            name: self.name@,
            path_segments: texts(self.path_segments@),
        }
    }
}

/// What a run of modules is.
pub open spec fn pending_models(modules: Seq<PendingModule>) -> Seq<PendingModel> {
    Seq::new(modules.len(), |i: int| modules[i].model())
}

/// The modules of a program, while they are being read.
#[derive(Debug)]
pub struct ModuleQueue {
    /// The files that were handed out.
    pub processed: Vec<String>,
    /// The modules that are to be read, the next one last.
    pub pending: Vec<PendingModule>,
    /// The modules that were read, in the order of their reading.
    pub modules: Vec<ParsedModule>,
}

/// What stands in a queue of modules.
#[verifier::ext_equal]
pub ghost struct QueueModel {
    /// The files that were handed out.
    pub processed: Seq<Seq<char>>,
    /// The modules that are to be read.
    pub pending: Seq<PendingModel>,
    /// The modules that were read.
    pub modules: Seq<ParsedModule>,
}

/// The module to be read next and the modules behind it: files that were handed out are passed over.
pub open spec fn next_pending(pending: Seq<PendingModel>, processed: Seq<Seq<char>>) -> (
    Seq<PendingModel>,
    Option<PendingModel>,
)
    decreases pending.len(),
{
    if pending.len() == 0 {
        (pending, None)
    } else if processed.contains(pending.last().file_path) {
        next_pending(pending.drop_last(), processed)
    } else {
        (pending.drop_last(), Some(pending.last()))
    }
}

impl ModuleQueue {
    /// What stands in the queue.
    pub open spec fn model(&self) -> QueueModel {
        QueueModel {
            processed: texts(self.processed@),
            pending: pending_models(self.pending@),
            modules: self.modules@,
        }
    }

    /// Whether no file was handed out twice.
    pub open spec fn hands_out_once(&self) -> bool {
        self.model().processed.no_duplicates()
    }

    /// The queue that starts with a program's entry file.
    pub fn new(entry_path: &str) -> (queue: Self)
        ensures
            queue.hands_out_once(),
            queue.model() == (QueueModel {
                processed: Seq::empty(),
                pending: seq![
                    PendingModel { file_path: entry_path@, name: "main"@, path_segments: seq!["main"@] },
                ],
                modules: Seq::empty(),
            }),
    {
        let entry = PendingModule {
            file_path: entry_path.to_owned(),
            name: "main".to_owned(),
            path_segments: vec!["main".to_owned()],
        };
        proof {
            assert(texts(entry.path_segments@) =~= seq!["main"@]);
        }
        let queue = ModuleQueue { processed: Vec::new(), pending: vec![entry], modules: Vec::new() };
        proof {
            assert(queue.model() =~= QueueModel {
                processed: Seq::empty(),
                pending: seq![
                    PendingModel { file_path: entry_path@, name: "main"@, path_segments: seq!["main"@] },
                ],
                modules: Seq::empty(),
            });
        }
        queue
    }

    /// Hands out the module to be read next. No file is handed out twice.
    pub fn next(&mut self) -> (module: Option<PendingModule>)
        ensures
            old(self).hands_out_once() ==> final(self).hands_out_once(),
            ({
                let (rest, next) = next_pending(old(self).model().pending, old(self).model().processed);
                &&& final(self).model().pending == rest
                &&& final(self).model().modules == old(self).model().modules
                &&& match (module, next) {
                    (Some(module), Some(expected)) => {
                        &&& module.model() == expected
                        &&& !old(self).model().processed.contains(module.file_path@)
                        &&& final(self).model().processed == old(self).model().processed.push(module.file_path@)
                    },
                    (None, None) => final(self).model().processed == old(self).model().processed,
                    _ => false,
                }
            }),
    {
        let ghost files = self.model().processed;
        loop
            invariant
                self.processed == old(self).processed,
                self.modules == old(self).modules,
                files == texts(self.processed@),
                next_pending(old(self).model().pending, files) == next_pending(pending_models(self.pending@), files),
            decreases self.pending@.len(),
        {
            let ghost before = pending_models(self.pending@);
            match self.pending.pop() {
                None => {
                    proof {
                        assert(pending_models(self.pending@) =~= before);
                    }
                    return None;
                },
                Some(module) => {
                    proof {
                        assert(pending_models(self.pending@) =~= before.drop_last());
                        assert(before.last() == module.model());
                    }
                    if !lists(&self.processed, module.file_path.as_str()) {
                        self.processed.push(module.file_path.clone());
                        proof {
                            assert(texts(self.processed@) =~= files.push(module.file_path@));
                        }
                        return Some(module);
                    }
                },
            }
        }
    }

    /// Adds a module that an import leads to, unless its file was handed out.
    pub fn add_dependency(&mut self, file_path: String, segments: Vec<String>)
        ensures
            final(self).model() == (QueueModel {
                pending: if old(self).model().processed.contains(file_path@) {
                    old(self).model().pending
                } else {
                    old(self).model().pending.push(
                        PendingModel {
                            file_path: file_path@,
                            name: joined(texts(segments@), "_"@),
                            path_segments: texts(segments@),
                        },
                    )
                },
                ..old(self).model()
            }),
    {
        if !lists(&self.processed, file_path.as_str()) {
            let name: String = join(&segments, "_");
            let module = PendingModule { file_path, name, path_segments: segments };
            self.pending.push(module);
            proof {
                assert(self.model().pending =~= old(self).model().pending.push(module.model()));
            }
        }
    }

    /// Records a module that was read.
    pub fn record(&mut self, module: ParsedModule)
        ensures
            final(self).model() == (QueueModel {
                modules: old(self).model().modules.push(module),
                ..old(self).model()
            }),
    {
        self.modules.push(module);
    }

    /// The modules, dependencies first and the entry module last.
    pub fn finish(self) -> (modules: Vec<ParsedModule>)
        ensures
            modules@ == self.model().modules.reverse(),
    {
        let ghost given = self.modules@;
        let mut rest: Vec<ParsedModule> = self.modules;
        let mut modules: Vec<ParsedModule> = Vec::new();
        loop
            invariant
                given == self.model().modules,
                rest@.len() + modules@.len() == given.len(),
                rest@ == given.take(rest@.len() as int),
                forall|i: int| 0 <= i < modules@.len() ==> modules@[i] == given[given.len() - 1 - i],
            decreases rest@.len(),
        {
            match rest.pop() {
                None => {
                    proof {
                        assert(modules@ =~= given.reverse());
                    }
                    return modules;
                },
                Some(module) => {
                    proof {
                        assert(module == given[rest@.len() as int]);
                        assert(rest@ =~= given.take(rest@.len() as int));
                    }
                    modules.push(module);
                },
            }
        }
    }
}

/// Where an imported module is looked for.
#[derive(Debug)]
pub struct ImportTarget {
    /// Whether it is looked for from the project's root.
    pub is_absolute: bool,
    /// How many directories are climbed first.
    pub parent_levels: usize,
    /// The names of the module's path.
    pub segments: Vec<String>,
}

/// Where an imported module is looked for.
pub ghost struct TargetModel {
    /// Whether it is looked for from the project's root.
    pub is_absolute: bool,
    /// How many directories are climbed first.
    pub parent_levels: nat,
    /// The names of the module's path.
    pub segments: Seq<Seq<char>>,
}

impl ImportTarget {
    /// Where the module is looked for.
    pub open spec fn model(self) -> TargetModel {
        TargetModel {
            is_absolute: self.is_absolute,
            parent_levels: self.parent_levels as nat,
            segments: texts(self.segments@),
        }
    }
}

/// Where the module that a declaration imports is looked for. The last name of a plain import of several names is an
/// item of the module. The standard library is not looked for.
pub open spec fn import_target(decl: Declaration) -> Option<TargetModel> {
    match decl {
        Declaration::Import(import) => match import.kind {
            ImportKind::Module(path) => if path.segments@.len() == 0 || path.segments@[0]@ == "std"@ {
                None
            } else {
                Some(
                    TargetModel {
                        is_absolute: path.is_absolute,
                        parent_levels: path.parent_levels as nat,
                        segments: if path.segments@.len() > 1 {
                            texts(path.segments@).drop_last()
                        } else {
                            texts(path.segments@)
                        },
                    },
                )
            },
            ImportKind::From { module, .. } => if module.segments@.len() == 0 || module.segments@[0]@ == "std"@ {
                None
            } else {
                Some(
                    TargetModel {
                        is_absolute: module.is_absolute,
                        parent_levels: module.parent_levels as nat,
                        segments: texts(module.segments@),
                    },
                )
            },
            _ => None,
        },
        _ => None,
    }
}

/// The targets of the imports from one declaration on, behind those found so far.
pub open spec fn targets_from(
    decls: Seq<Spanned<Declaration>>,
    from: int,
    found: Seq<TargetModel>,
) -> Seq<TargetModel>
    decreases decls.len() - from,
{
    if from < 0 || from >= decls.len() {
        found
    } else {
        match import_target(decls[from].node) {
            Some(target) => targets_from(decls, from + 1, found.push(target)),
            None => targets_from(decls, from + 1, found),
        }
    }
}

/// What a run of targets is.
pub open spec fn target_models(targets: Seq<ImportTarget>) -> Seq<TargetModel> {
    Seq::new(targets.len(), |i: int| targets[i].model())
}

/// Copies the first names of a path.
fn copy_segments(segments: &Vec<String>, count: usize) -> (copy: Vec<String>)
    requires
        count <= segments@.len(),
    ensures
        texts(copy@) == texts(segments@).take(count as int),
{
    let mut copy: Vec<String> = Vec::new();
    let mut i: usize = 0;
    while i < count
        invariant
            i <= count <= segments@.len(),
            copy@.len() == i,
            forall|j: int| 0 <= j < i ==> (#[trigger] copy@[j])@ == segments@[j]@,
        decreases count - i,
    {
        copy.push(segments[i].clone());
        i += 1;
    }
    proof {
        assert(texts(copy@) =~= texts(segments@).take(count as int));
    }
    copy
}

/// Where the module that a declaration imports is looked for.
fn target_of(decl: &Declaration) -> (target: Option<ImportTarget>)
    ensures
        import_target(*decl) == match target {
            Some(target) => Some(target.model()),
            None => None,
        },
{
    match decl {
        Declaration::Import(import) => match &import.kind {
            ImportKind::Module(path) => {
                let length: usize = path.segments.len();
                if length == 0 || same_text(path.segments[0].as_str(), "std") {
                    return None;
                }
                let count: usize = if length > 1 {
                    length - 1
                } else {
                    length
                };
                let segments: Vec<String> = copy_segments(&path.segments, count);
                proof {
                    if length > 1 {
                        assert(texts(path.segments@).take(count as int) =~= texts(path.segments@).drop_last());
                    } else {
                        assert(texts(path.segments@).take(count as int) =~= texts(path.segments@));
                    }
                }
                Some(ImportTarget { is_absolute: path.is_absolute, parent_levels: path.parent_levels, segments })
            },
            ImportKind::From { module, .. } => {
                if module.segments.len() == 0 || same_text(module.segments[0].as_str(), "std") {
                    return None;
                }
                let segments: Vec<String> = copy_segments(&module.segments, module.segments.len());
                proof {
                    assert(texts(module.segments@).take(module.segments@.len() as int) =~= texts(module.segments@));
                }
                Some(ImportTarget { is_absolute: module.is_absolute, parent_levels: module.parent_levels, segments })
            },
            _ => None,
        },
        _ => None,
    }
}

/// Where the modules that a program imports are looked for, in the order of its imports.
pub fn import_targets(program: &Program) -> (targets: Vec<ImportTarget>)
    ensures
        target_models(targets@) == targets_from(program.declarations@, 0, Seq::empty()),
{
    let decls: &Vec<Spanned<Declaration>> = &program.declarations;
    let mut targets: Vec<ImportTarget> = Vec::new();
    let mut i: usize = 0;
    proof {
        assert(target_models(targets@) =~= Seq::empty());
    }
    while i < decls.len()
        invariant
            i <= decls@.len(),
            targets_from(decls@, 0, Seq::empty()) == targets_from(decls@, i as int, target_models(targets@)),
        decreases decls@.len() - i,
    {
        match target_of(&decls[i].node) {
            Some(target) => {
                let ghost before = target_models(targets@);
                targets.push(target);
                proof {
                    assert(target_models(targets@) =~= before.push(target.model()));
                }
            },
            None => {},
        }
        i += 1;
    }
    targets
}

/// What is known of a directory.
#[derive(Debug, Clone, Copy, PartialEq, Eq, Structural)]
pub struct DirectoryFacts {
    /// Whether it has a Cargo manifest.
    pub has_manifest: bool,
    /// Whether it has a source directory.
    pub has_src: bool,
}

/// The place of a project's root among a directory and its ancestors: the first one with a manifest or a source
/// directory, else the last one.
pub open spec fn root_place(ancestors: Seq<DirectoryFacts>, from: int) -> int
    decreases ancestors.len() - from,
{
    if from >= ancestors.len() - 1 || ancestors[from].has_manifest || ancestors[from].has_src {
        from
    } else {
        root_place(ancestors, from + 1)
    }
}

/// Finds a project's root among a directory and its ancestors, nearest first, and whether modules are looked for in
/// its source directory.
pub fn find_project_root(ancestors: &Vec<DirectoryFacts>) -> (root: (usize, bool))
    requires
        ancestors@.len() > 0,
    ensures
        root.0 == root_place(ancestors@, 0),
        root.0 < ancestors@.len(),
        root.1 == ancestors@[root.0 as int].has_src,
{
    let count: usize = ancestors.len();
    let mut i: usize = 0;
    while i < count - 1 && !ancestors[i].has_manifest && !ancestors[i].has_src
        invariant
            i < count,
            count == ancestors@.len(),
            root_place(ancestors@, 0) == root_place(ancestors@, i as int),
        ensures
            i < count,
            root_place(ancestors@, 0) == i,
        decreases count - i,
    {
        i += 1;
    }
    (i, ancestors[i].has_src)
}

/// Which of a directory and those above it an import starts from that climbs some levels. The climb ends at the
/// topmost directory.
pub fn climbed(parent_levels: usize, directories: usize) -> (at: usize)
    requires
        directories > 0,
    ensures
        at == if parent_levels < directories {
            parent_levels as int
        } else {
            directories - 1
        },
{
    if parent_levels < directories {
        parent_levels
    } else {
        directories - 1
    }
}

/// The extension of the file that a module is read from, where there is one.
pub fn source_extension(incn_exists: bool, incan_exists: bool) -> (extension: Option<&'static str>)
    ensures
        extension == (if incn_exists {
            Some("incn")
        } else if incan_exists {
            Some("incan")
        } else {
            None
        }),
{
    if incn_exists {
        Some("incn")
    } else if incan_exists {
        Some("incan")
    } else {
        None
    }
}

// ---------------------------------------------------------------------------
// Projects
// ---------------------------------------------------------------------------

/// What a command shows and how it ends.
#[derive(Debug, PartialEq, Eq)]
pub struct CommandReport {
    /// What goes to standard output.
    pub stdout: String,
    /// What goes to standard error.
    pub stderr: String,
    /// The exit code, where the command ends the program.
    pub exit_code: Option<i32>,
}

/// What a command shows and how it ends.
#[verifier::ext_equal]
pub ghost struct ReportModel {
    /// What goes to standard output.
    pub stdout: Seq<char>,
    /// What goes to standard error.
    pub stderr: Seq<char>,
    /// The exit code, where the command ends the program.
    pub exit_code: Option<i32>,
}

impl CommandReport {
    /// What is shown and how the command ends.
    pub open spec fn model(self) -> ReportModel {
        ReportModel { stdout: self.stdout@, stderr: self.stderr@, exit_code: self.exit_code }
    }
}

/// The name of the project of a file.
pub fn project_name(file_stem: Option<String>) -> (name: String)
    ensures
        name@ == match file_stem {
            Some(stem) => stem@,
            None => "incan_project"@,
        },
{
    match file_stem {
        Some(stem) => stem,
        None => "incan_project".to_owned(),
    }
}

/// The directory of a project.
pub fn output_directory(output_dir: Option<String>, project_name: &str) -> (directory: String)
    ensures
        directory@ == match output_dir {
            Some(directory) => directory@,
            None => "target/incan/"@ + project_name@,
        },
{
    match output_dir {
        Some(directory) => directory,
        None => "target/incan/".to_owned().concat(project_name),
    }
}

/// The crates with the names from one on, at the versions that are known to work.
pub open spec fn crates_with(
    crates: Map<Seq<char>, Option<Seq<char>>>,
    names: Seq<Seq<char>>,
    from: int,
) -> Map<Seq<char>, Option<Seq<char>>>
    decreases names.len() - from,
{
    if from < 0 || from >= names.len() {
        crates
    } else {
        crates_with(crates.insert(names[from], known_version(names[from])), names, from + 1)
    }
}

/// The generator of a program's project: with what the program needs and the crates it imports.
pub fn configure_generator(
    output_dir: &str,
    project_name: &str,
    needs_serde: bool,
    needs_tokio: bool,
    needs_axum: bool,
    ast: &Program,
) -> (generator: ProjectGenerator)
    ensures
        generator.well_formed(),
        generator.model() == (GeneratorModel {
            output_dir: output_dir@,
            name: project_name@,
            is_binary: true,
            needs_serde,
            needs_tokio,
            needs_axum,
            crates: crates_with(Map::empty(), crate_names(ast.declarations@, 0, Seq::empty()), 0),
        }),
{
    let mut generator: ProjectGenerator = ProjectGenerator::new(output_dir, project_name, true);
    generator.set_needs_serde(needs_serde);
    generator.set_needs_tokio(needs_tokio);
    generator.set_needs_axum(needs_axum);
    let ghost start = generator.model();
    let names: Vec<String> = collect_rust_crates(ast);
    let mut i: usize = 0;
    while i < names.len()
        invariant
            i <= names@.len(),
            generator.well_formed(),
            generator.model() == (GeneratorModel { crates: generator.model().crates, ..start }),
            crates_with(Map::empty(), texts(names@), 0) == crates_with(
                generator.model().crates,
                texts(names@),
                i as int,
            ),
        decreases names@.len() - i,
    {
        generator.add_rust_crate(names[i].as_str());
        i += 1;
    }
    generator
}

/// What the generated code of a program needs.
#[derive(Debug, Clone, Copy, PartialEq, Eq, Structural)]
pub struct CodeNeeds {
    /// Whether it needs serialization.
    pub serde: bool,
    /// Whether it needs the async runtime.
    pub tokio: bool,
    /// Whether it needs the web framework.
    pub axum: bool,
}

/// How a program's project is made.
#[derive(Debug)]
pub struct ProjectPlan {
    /// The project's directory.
    pub directory: String,
    /// The generator of the project.
    pub generator: ProjectGenerator,
    /// Whether the project has a file for every module.
    pub nested: bool,
}

/// Plans the project of a program with dependencies, from the name of its file and the directory that was asked for.
pub fn plan_project(
    file_stem: Option<String>,
    output_dir: Option<String>,
    needs: CodeNeeds,
    main: &Program,
    dependencies: usize,
) -> (plan: ProjectPlan)
    ensures
        ({
            let name = match file_stem {
                Some(stem) => stem@,
                None => "incan_project"@,
            };
            let directory = match output_dir {
                Some(directory) => directory@,
                None => "target/incan/"@ + name,
            };
            &&& plan.directory@ == directory
            &&& plan.nested == (dependencies > 0)
            &&& plan.generator.well_formed()
            &&& plan.generator.model() == (GeneratorModel {
                output_dir: directory,
                name,
                is_binary: true,
                needs_serde: needs.serde,
                needs_tokio: needs.tokio,
                needs_axum: needs.axum,
                crates: crates_with(Map::empty(), crate_names(main.declarations@, 0, Seq::empty()), 0),
            })
        }),
{
    let name: String = project_name(file_stem);
    let directory: String = output_directory(output_dir, name.as_str());
    let generator: ProjectGenerator = configure_generator(
        directory.as_str(),
        name.as_str(),
        needs.serde,
        needs.tokio,
        needs.axum,
        main,
    );
    ProjectPlan { directory, generator, nested: dependencies > 0 }
}

/// What is shown of a build.
pub open spec fn build_shown(outcome: Result<BuildResult, String>, binary: Seq<char>) -> ReportModel {
    match outcome {
        Ok(result) => if result.success {
            ReportModel {
                stdout: "\u{2713} Build successful!\nBinary: "@ + binary + "\n"@,
                stderr: Seq::empty(),
                exit_code: None,
            }
        } else {
            ReportModel {
                stdout: Seq::empty(),
                stderr: "Build failed:\n"@ + result.stderr@ + "\n"@,
                exit_code: Some(1i32),
            }
        },
        Err(error) => ReportModel {
            stdout: Seq::empty(),
            stderr: "Error running cargo: "@ + error@ + "\n"@,
            exit_code: Some(1i32),
        },
    }
}

/// What is shown of a build.
pub fn build_report(outcome: Result<BuildResult, String>, binary: &str) -> (report: CommandReport)
    ensures
        report.model() == build_shown(outcome, binary@),
{
    match outcome {
        Ok(result) => if result.success {
            CommandReport {
                stdout: "\u{2713} Build successful!\nBinary: ".to_owned().concat(binary).concat("\n"),
                stderr: String::new(),
                exit_code: None,
            }
        } else {
            CommandReport {
                stdout: String::new(),
                stderr: "Build failed:\n".to_owned().concat(result.stderr.as_str()).concat("\n"),
                exit_code: Some(1),
            }
        },
        Err(error) => CommandReport {
            stdout: String::new(),
            stderr: "Error running cargo: ".to_owned().concat(error.as_str()).concat("\n"),
            exit_code: Some(1),
        },
    }
}

/// What is shown of a run. Complaints are shown only of a run that failed, and the program ends as the run did.
pub open spec fn run_shown(outcome: Result<RunResult, String>) -> ReportModel {
    match outcome {
        Ok(result) => ReportModel {
            stdout: result.stdout@,
            stderr: if result.success {
                Seq::empty()
            } else {
                result.stderr@
            },
            exit_code: result.exit_code,
        },
        Err(error) => ReportModel {
            stdout: Seq::empty(),
            stderr: "Error running program: "@ + error@ + "\n"@,
            exit_code: Some(1i32),
        },
    }
}

/// What is shown of a run.
pub fn run_report(outcome: Result<RunResult, String>) -> (report: CommandReport)
    ensures
        report.model() == run_shown(outcome),
{
    match outcome {
        Ok(result) => {
            let stderr: String = if result.success {
                String::new()
            } else {
                result.stderr
            };
            CommandReport { stdout: result.stdout, stderr, exit_code: result.exit_code }
        },
        Err(error) => CommandReport {
            stdout: String::new(),
            stderr: "Error running program: ".to_owned().concat(error.as_str()).concat("\n"),
            exit_code: Some(1),
        },
    }
}

// ---------------------------------------------------------------------------
// Formatting files
// ---------------------------------------------------------------------------

/// Whether a directory is searched for source files.
pub open spec fn searched(name: Seq<char>) -> bool {
    !begins_with(name, "."@) && name != "target"@ && name != "node_modules"@
}

/// Decides whether a directory is searched for source files.
pub fn searches_directory(name: &str) -> (yes: bool)
    ensures
        yes == searched(name@),
{
    !starts_with(name, ".") && !same_text(name, "target") && !same_text(name, "node_modules")
}

/// Decides whether a file with an extension is a source file.
pub fn is_source_file(extension: Option<&str>) -> (yes: bool)
    ensures
        yes == match extension {
            Some(extension) => extension@ == "incn"@,
            None => false,
        },
{
    match extension {
        Some(extension) => same_text(extension, "incn"),
        None => false,
    }
}

/// What is done with a file.
#[derive(Debug, Clone, Copy, PartialEq, Eq, Structural)]
pub struct FormatAction {
    /// Whether the difference is shown.
    pub show_diff: bool,
    /// Whether the file is named as one that would be formatted.
    pub name_file: bool,
    /// Whether the formatted text is written.
    pub write: bool,
    /// Whether the file needs formatting.
    pub needs_formatting: bool,
}

/// What is done with a file. A file is written only where it is neither checked nor compared.
pub open spec fn chosen_action(check_mode: bool, diff_mode: bool, changed: bool) -> FormatAction {
    FormatAction {
        show_diff: diff_mode && changed,
        name_file: check_mode && changed,
        write: !check_mode && !diff_mode && changed,
        needs_formatting: (check_mode || diff_mode) && changed,
    }
}

/// Chooses what is done with a file.
pub fn format_action(check_mode: bool, diff_mode: bool, changed: bool) -> (action: FormatAction)
    ensures
        action == chosen_action(check_mode, diff_mode, changed),
{
    FormatAction {
        show_diff: diff_mode && changed,
        name_file: check_mode && changed,
        write: !check_mode && !diff_mode && changed,
        needs_formatting: (check_mode || diff_mode) && changed,
    }
}

/// What came of the files so far.
#[derive(Debug, Clone, Copy, PartialEq, Eq, Structural)]
pub struct FormatTally {
    /// Whether any file needs formatting.
    pub needs_formatting: bool,
    /// How many files were written.
    pub formatted: u64,
    /// How many files failed.
    pub errors: u64,
}

/// What came of one file.
#[derive(Debug, Clone, Copy, PartialEq, Eq, Structural)]
pub enum FileResult {
    /// It could not be read, formatted or written.
    Failed,
    /// It was written.
    Written,
    /// It needs formatting.
    NeedsFormatting,
    /// Nothing.
    Unchanged,
}

impl FormatTally {
    /// Before any file.
    pub fn new() -> (tally: Self)
        ensures
            tally == (FormatTally { needs_formatting: false, formatted: 0, errors: 0 }),
    {
        FormatTally { needs_formatting: false, formatted: 0, errors: 0 }
    }

    /// Counts one more file.
    pub fn count(&mut self, result: FileResult)
        requires
            result is Written ==> old(self).formatted < u64::MAX,
            result is Failed ==> old(self).errors < u64::MAX,
        ensures
            *final(self) == match result {
                FileResult::Failed => FormatTally { errors: (old(self).errors + 1) as u64, ..*old(self) },
                FileResult::Written => FormatTally { formatted: (old(self).formatted + 1) as u64, ..*old(self) },
                FileResult::NeedsFormatting => FormatTally { needs_formatting: true, ..*old(self) },
                FileResult::Unchanged => *old(self),
            },
    {
        match result {
            FileResult::Failed => {
                self.errors += 1;
            },
            FileResult::Written => {
                self.formatted += 1;
            },
            FileResult::NeedsFormatting => {
                self.needs_formatting = true;
            },
            FileResult::Unchanged => {},
        }
    }
}

/// What is shown at the end of formatting.
pub open spec fn format_shown(tally: FormatTally, files: nat, check_mode: bool, diff_mode: bool) -> ReportModel {
    let failed = if tally.errors > 0 {
        Some(1i32)
    } else {
        None
    };
    if check_mode || diff_mode {
        if tally.needs_formatting {
            ReportModel {
                stdout: Seq::empty(),
                stderr: "\n"@ + decimal(files) + " file(s) "@ + (if diff_mode {
                    "need formatting"@
                } else {
                    "would be reformatted"@
                }) + "\n"@,
                exit_code: Some(1i32),
            }
        } else {
            ReportModel {
                stdout: "\u{2713} "@ + decimal(files) + " file(s) already formatted\n"@,
                stderr: Seq::empty(),
                exit_code: failed,
            }
        }
    } else {
        ReportModel {
            stdout: "\n\u{2713} "@ + decimal(tally.formatted as nat) + " file(s) formatted, "@ + decimal(
                tally.errors as nat,
            ) + " error(s)\n"@,
            stderr: Seq::empty(),
            exit_code: failed,
        }
    }
}

/// What is shown at the end of formatting.
pub fn format_report(tally: FormatTally, files: u64, check_mode: bool, diff_mode: bool) -> (report: CommandReport)
    ensures
        report.model() == format_shown(tally, files as nat, check_mode, diff_mode),
{
    let failed: Option<i32> = if tally.errors > 0 {
        Some(1)
    } else {
        None
    };
    if check_mode || diff_mode {
        if tally.needs_formatting {
            let what: &str = if diff_mode {
                "need formatting"
            } else {
                "would be reformatted"
            };
            CommandReport {
                stdout: String::new(),
                stderr: "\n".to_owned().concat(natural_text(files).as_str()).concat(" file(s) ").concat(what).concat(
                    "\n",
                ),
                exit_code: Some(1),
            }
        } else {
            CommandReport {
                stdout: "\u{2713} ".to_owned().concat(natural_text(files).as_str()).concat(
                    " file(s) already formatted\n",
                ),
                stderr: String::new(),
                exit_code: failed,
            }
        }
    } else {
        CommandReport {
            stdout: "\n\u{2713} ".to_owned().concat(natural_text(tally.formatted).as_str()).concat(
                " file(s) formatted, ",
            ).concat(natural_text(tally.errors).as_str()).concat(" error(s)\n"),
            stderr: String::new(),
            exit_code: failed,
        }
    }
}

/// Checking and comparing never write a file, and a file that is formatted already is never written.
pub proof fn law_checking_writes_nothing(check_mode: bool, diff_mode: bool, changed: bool)
    ensures
        chosen_action(check_mode, diff_mode, changed).write ==> !check_mode && !diff_mode && changed,
        chosen_action(check_mode, diff_mode, changed).needs_formatting ==> !chosen_action(
            check_mode,
            diff_mode,
            changed,
        ).write,
{
}

} // verus!
