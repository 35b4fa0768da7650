//! Collection of a program's modules, one file after the other.
//!
//! The collection says which file is to be read next and where imported modules are to be looked for; whoever runs it
//! reads the file or looks for the module and tells what came of it.

use crate::ast::Program;
use crate::cli::commands::{
    import_targets, next_pending, target_models, targets_from, ImportTarget, ModuleQueue, PendingModel, PendingModule,
    QueueModel, TargetModel,
};
use crate::cli::prelude::ParsedModule;
use crate::text::{joined, texts};
use vstd::prelude::*;

verus! {

broadcast use vstd::string::group_string_axioms;

/// What a collection waits for.
#[derive(Debug)]
pub enum Waiting {
    /// Its beginning.
    Beginning,
    /// The parsed file of a module.
    Module(PendingModule),
    /// The file of an imported module, with the names of the module's path.
    Location(Vec<String>),
}

/// A collection in progress.
#[derive(Debug)]
pub struct ModuleCollection {
    /// The modules.
    pub queue: ModuleQueue,
    /// The imported modules that are still to be looked for.
    pub targets: Vec<ImportTarget>,
    /// What it waits for.
    pub waiting: Waiting,
}

/// What came of what a collection waits for.
#[derive(Debug)]
#[allow(inconsistent_fields)]
pub enum CollectionEvent {
    /// It begins.
    Begin,
    /// A file was read and parsed.
    Parsed {
        /// The source.
        source: String,
        /// The syntax tree.
        ast: Program,
    },
    /// An imported module was looked for, and found in a file or not.
    Located(Option<String>),
}

/// How a collection goes on.
#[derive(Debug)]
pub enum CollectionStep {
    /// A file is to be read.
    Read(ModuleCollection, String),
    /// An imported module is to be looked for.
    Locate(ModuleCollection, ImportTarget),
    /// The modules are complete, dependencies first and the entry module last.
    Done(Vec<ParsedModule>),
    /// The event is not the one that the collection waits for.
    Unexpected(ModuleCollection),
}

/// What a collection waits for.
pub ghost enum WaitingModel {
    /// Its beginning.
    Beginning,
    /// The parsed file of a module.
    Module(PendingModel),
    /// The file of an imported module.
    Location(Seq<Seq<char>>),
}

/// What a collection in progress is.
pub ghost struct CollectionModel {
    /// The modules.
    pub queue: QueueModel,
    /// The imported modules that are still to be looked for.
    pub targets: Seq<TargetModel>,
    /// What it waits for.
    pub waiting: WaitingModel,
}

/// How a collection goes on.
pub ghost enum StepModel {
    /// A file is to be read.
    Read(CollectionModel, Seq<char>),
    /// An imported module is to be looked for.
    Locate(CollectionModel, TargetModel),
    /// The modules are complete.
    Done(Seq<ParsedModule>),
    /// The event is not the one that the collection waits for.
    Unexpected(CollectionModel),
}

impl Waiting {
    /// What is waited for.
    pub open spec fn model(self) -> WaitingModel {
        match self {
            Waiting::Beginning => WaitingModel::Beginning,
            Waiting::Module(module) => WaitingModel::Module(module.model()),
            Waiting::Location(segments) => WaitingModel::Location(texts(segments@)),
        }
    }
}

impl CollectionStep {
    /// How the collection goes on.
    pub open spec fn model(self) -> StepModel {
        match self {
            CollectionStep::Read(collection, file) => StepModel::Read(collection.model(), file@),
            CollectionStep::Locate(collection, target) => StepModel::Locate(collection.model(), target.model()),
            CollectionStep::Done(modules) => StepModel::Done(modules@),
            CollectionStep::Unexpected(collection) => StepModel::Unexpected(collection.model()),
        }
    }
}

/// How a collection goes on with the modules that it has: imported modules are looked for first, then the next file is
/// read that was not read yet.
pub open spec fn going_on(queue: QueueModel, targets: Seq<TargetModel>) -> StepModel {
    if targets.len() > 0 {
        StepModel::Locate(
            CollectionModel {
                queue,
                targets: targets.drop_first(),
                waiting: WaitingModel::Location(targets[0].segments),
            },
            targets[0],
        )
    } else {
        match next_pending(queue.pending, queue.processed) {
            (pending, Some(module)) => StepModel::Read(
                CollectionModel {
                    queue: QueueModel { pending, processed: queue.processed.push(module.file_path), ..queue },
                    targets,
                    waiting: WaitingModel::Module(module),
                },
                module.file_path,
            ),
            (_, None) => StepModel::Done(queue.modules.reverse()),
        }
    }
}

/// The modules after an imported one was looked for: a file that was found is to be read, unless it was read already.
pub open spec fn located(queue: QueueModel, segments: Seq<Seq<char>>, found: Option<Seq<char>>) -> QueueModel {
    match found {
        Some(file_path) => if queue.processed.contains(file_path) {
            queue
        } else {
            QueueModel {
                pending: queue.pending.push(
                    PendingModel { file_path, name: joined(segments, "_"@), path_segments: segments },
                ),
                ..queue
            }
        },
        None => queue,
    }
}

/// The file that an imported module was found in.
pub open spec fn found_file(found: Option<String>) -> Option<Seq<char>> {
    match found {
        Some(file_path) => Some(file_path@),
        None => None,
    }
}

/// Whether a module is the parsed form of one that was to be read.
pub open spec fn parsed_as(module: ParsedModule, pending: PendingModel, source: String, ast: Program) -> bool {
    &&& module.name@ == pending.name
    &&& texts(module.path_segments@) == pending.path_segments
    &&& module.source == source
    &&& module.ast == ast
}

/// How a collection goes on behind a parsed module: it is entered, and the modules that it imports are looked for.
pub open spec fn after_parsing(queue: QueueModel, module: ParsedModule) -> StepModel {
    going_on(
        QueueModel { modules: queue.modules.push(module), ..queue },
        targets_from(module.ast.declarations@, 0, Seq::empty()),
    )
}

/// Whether a step is the one that the parsed file of a module leads to.
pub open spec fn parsing_leads_to(
    queue: QueueModel,
    pending: PendingModel,
    source: String,
    ast: Program,
    step: StepModel,
) -> bool {
    exists|module: ParsedModule|
        #[trigger] parsed_as(module, pending, source, ast) && step == after_parsing(queue, module)
}

/// Whether a step is the one that an event leads to.
pub open spec fn leads_to(collection: CollectionModel, event: CollectionEvent, step: StepModel) -> bool {
    match (collection.waiting, event) {
        (WaitingModel::Beginning, CollectionEvent::Begin) => step == going_on(collection.queue, collection.targets),
        (WaitingModel::Module(pending), CollectionEvent::Parsed { source, ast }) => parsing_leads_to(
            collection.queue,
            pending,
            source,
            ast,
            step,
        ),
        (WaitingModel::Location(segments), CollectionEvent::Located(found)) => step == going_on(
            located(collection.queue, segments, found_file(found)),
            collection.targets,
        ),
        _ => step == StepModel::Unexpected(collection),
    }
}

impl ModuleCollection {
    /// What the collection is.
    pub open spec fn model(self) -> CollectionModel {
        CollectionModel {
            queue: self.queue.model(),
            targets: target_models(self.targets@),
            waiting: self.waiting.model(),
        }
    }

    /// A collection that begins with a program's entry file.
    pub fn new(entry_path: &str) -> (collection: Self)
        ensures
            collection.model().queue.processed == Seq::<Seq<char>>::empty(),
            collection.model().queue.pending == seq![
                PendingModel { file_path: entry_path@, name: "main"@, path_segments: seq!["main"@] },
            ],
            collection.model().queue.modules == Seq::<ParsedModule>::empty(),
            collection.model().targets == Seq::<TargetModel>::empty(),
            collection.model().waiting == WaitingModel::Beginning,
    {
        let collection = ModuleCollection {
            queue: ModuleQueue::new(entry_path),
            targets: Vec::new(),
            waiting: Waiting::Beginning,
        };
        proof {
            assert(collection.model().targets =~= Seq::empty());
        }
        collection
    }

    /// Tells the collection what came of what it waits for.
    pub fn advance(self, event: CollectionEvent) -> (step: CollectionStep)
        ensures
            leads_to(self.model(), event, step.model()),
    {
        let ghost before = self.model();
        let ModuleCollection { mut queue, targets, waiting } = self;
        match (waiting, event) {
            (Waiting::Beginning, CollectionEvent::Begin) => {
                let step: CollectionStep = go_on(queue, targets);
                proof {
                    assert(step.model() == going_on(before.queue, before.targets));
                }
                step
            },
            (Waiting::Module(pending), CollectionEvent::Parsed { source, ast }) => {
                let found: Vec<ImportTarget> = import_targets(&ast);
                let ghost awaited = pending.model();
                let module = ParsedModule {
                    name: pending.name,
                    path_segments: pending.path_segments,
                    source,
                    ast,
                };
                queue.record(module);
                let step: CollectionStep = go_on(queue, found);
                proof {
                    assert(before.waiting == WaitingModel::Module(awaited));
                    assert(parsed_as(module, awaited, source, ast));
                    assert(step.model() == after_parsing(before.queue, module));
                    assert(parsing_leads_to(before.queue, awaited, source, ast, step.model()));
                }
                step
            },
            (Waiting::Location(segments), CollectionEvent::Located(found)) => {
                let ghost names = texts(segments@);
                let ghost place = found_file(found);
                match found {
                    Some(file_path) => {
                        queue.add_dependency(file_path, segments);
                    },
                    None => {},
                }
                let step: CollectionStep = go_on(queue, targets);
                proof {
                    assert(before.waiting == WaitingModel::Location(names));
                    assert(step.model() == going_on(located(before.queue, names, place), before.targets));
                }
                step
            },
            (waiting, _) => CollectionStep::Unexpected(ModuleCollection { queue, targets, waiting }),
        }
    }
}

/// Copies the names of a path.
fn copy_names(names: &Vec<String>) -> (copy: Vec<String>)
    ensures
        texts(copy@) == texts(names@),
{
    let mut copy: Vec<String> = Vec::new();
    let mut i: usize = 0;
    while i < names.len()
        invariant
            i <= names@.len(),
            copy@.len() == i,
            forall|j: int| 0 <= j < i ==> (#[trigger] copy@[j])@ == names@[j]@,
        decreases names@.len() - i,
    {
        copy.push(names[i].clone());
        i += 1;
    }
    proof {
        assert(texts(copy@) =~= texts(names@));
    }
    copy
}

/// Goes on with the modules that a collection has.
fn go_on(queue: ModuleQueue, targets: Vec<ImportTarget>) -> (step: CollectionStep)
    ensures
        step.model() == going_on(queue.model(), target_models(targets@)),
{
    let ghost wanted = target_models(targets@);
    let mut queue: ModuleQueue = queue;
    let mut targets: Vec<ImportTarget> = targets;
    if targets.len() > 0 {
        let target: ImportTarget = targets.remove(0);
        let segments: Vec<String> = copy_names(&target.segments);
        proof {
            assert(target_models(targets@) =~= wanted.drop_first());
            assert(wanted[0] == target.model());
        }
        return CollectionStep::Locate(
            ModuleCollection { queue, targets, waiting: Waiting::Location(segments) },
            target,
        );
    }
    match queue.next() {
        Some(module) => {
            let file: String = module.file_path.clone();
            CollectionStep::Read(ModuleCollection { queue, targets, waiting: Waiting::Module(module) }, file)
        },
        None => CollectionStep::Done(queue.finish()),
    }
}

proof fn lemma_next_is_new(pending: Seq<PendingModel>, processed: Seq<Seq<char>>)
    ensures
        next_pending(pending, processed).1 matches Some(module) ==> !processed.contains(module.file_path),
    decreases pending.len(),
{
    if pending.len() > 0 && processed.contains(pending.last().file_path) {
        lemma_next_is_new(pending.drop_last(), processed);
    }
}

/// No file is read twice: one that is to be read was not read before, and counts as read from then on.
pub proof fn law_files_are_read_once(collection: CollectionModel, event: CollectionEvent, step: StepModel)
    requires
        leads_to(collection, event, step),
        collection.queue.processed.no_duplicates(),
    ensures
        step matches StepModel::Read(next, file) ==> {
            &&& !collection.queue.processed.contains(file)
            &&& next.queue.processed == collection.queue.processed.push(file)
            &&& next.queue.processed.no_duplicates()
        },
        step matches StepModel::Locate(next, _) ==> next.queue.processed == collection.queue.processed,
{
    let known = collection.queue.processed;
    match step {
        StepModel::Read(next, file) => {
            let queue = queue_after(collection, event, step);
            lemma_next_is_new(queue.pending, queue.processed);
        },
        _ => {},
    }
}

/// The modules that an event leaves, before the collection goes on.
spec fn queue_after(collection: CollectionModel, event: CollectionEvent, step: StepModel) -> QueueModel {
    match (collection.waiting, event) {
        (WaitingModel::Module(pending), CollectionEvent::Parsed { source, ast }) => {
            let module = choose|module: ParsedModule|
                #[trigger] parsed_as(module, pending, source, ast) && step == after_parsing(
                    collection.queue,
                    module,
                );
            QueueModel { modules: collection.queue.modules.push(module), ..collection.queue }
        },
        (WaitingModel::Location(segments), CollectionEvent::Located(found)) => located(
            collection.queue,
            segments,
            found_file(found),
        ),
        _ => collection.queue,
    }
}

/// The modules that were read first come last: what was collected stays in its order, whatever is read after it.
pub proof fn law_dependencies_come_first(collection: CollectionModel, event: CollectionEvent, step: StepModel)
    requires
        leads_to(collection, event, step),
        collection.queue.modules.len() > 0,
    ensures
        step matches StepModel::Done(modules) ==> modules.len() >= collection.queue.modules.len() && modules.last()
            == collection.queue.modules[0],
        step matches StepModel::Read(next, _) ==> next.queue.modules.len() > 0 && next.queue.modules[0]
            == collection.queue.modules[0],
        step matches StepModel::Locate(next, _) ==> next.queue.modules.len() > 0 && next.queue.modules[0]
            == collection.queue.modules[0],
{
    let queue = queue_after(collection, event, step);
    assert(queue.modules[0] == collection.queue.modules[0]);
}

} // verus!
