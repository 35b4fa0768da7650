//! Executing one free function, and the evidence that its result carries.

use crate::body_ir::{AbiV0RuntimeRequirement, Body, BodyIrModule, HirSourceSpan, OwnershipFact};
use crate::replacement::admission::{
    first_named, free_function_refusal, named_free_function, prepare_free_function_execution,
    ValidatedFreeFunctionExecution,
};
use crate::replacement::error::{unsupported, ErrorModel, ReplacementExecutionError};
use crate::replacement::execute::{slots_model, BodyExecutor, ExecutionStop, Flow};
use crate::replacement::semantics::{
    block_run, bound_run, frame, recorded, requirement_spelling, FlowModel, Halt, Machine, OwnershipRead,
};
use crate::replacement::value::{
    kind_of, models, observable, scalar, value_kind, Locals, ReplacementValue, ValueModel,
};
use crate::selection::{digest_output, fragments_identity};
use crate::text::{bool_spelling, bool_text, decimal, join, joined, natural_text, slice_texts, texts};
use std::rc::Rc;
use vstd::prelude::*;

verus! {

broadcast use vstd::string::group_string_axioms;

/// How deeply calls and rounds of one execution may nest.
pub const EXECUTION_FUEL: u64 = 18_446_744_073_709_551_615;

// ---------------------------------------------------------------------------
// Evidence
// ---------------------------------------------------------------------------

/// The label of an ownership fact.
pub open spec fn fact_spelling(fact: OwnershipFact) -> Seq<char> {
    match fact {
        OwnershipFact::Copy => "copy"@,
        OwnershipFact::Move => "move"@,
        OwnershipFact::Clone => "clone"@,
        OwnershipFact::Borrow => "borrow"@,
        OwnershipFact::MutBorrow => "mut_borrow"@,
        OwnershipFact::Unknown => "unknown"@,
    }
}

/// Names an ownership fact.
fn ownership_label(fact: OwnershipFact) -> (label: &'static str)
    ensures
        label@ == fact_spelling(fact),
{
    match fact {
        OwnershipFact::Copy => "copy",
        OwnershipFact::Move => "move",
        OwnershipFact::Clone => "clone",
        OwnershipFact::Borrow => "borrow",
        OwnershipFact::MutBorrow => "mut_borrow",
        OwnershipFact::Unknown => "unknown",
    }
}

/// Names a runtime requirement.
fn runtime_requirement_label(requirement: &AbiV0RuntimeRequirement) -> (label: String)
    ensures
        label@ == requirement_spelling(*requirement),
{
    match requirement {
        AbiV0RuntimeRequirement::RuntimeHelper(name) => "runtime_helper(".to_owned().concat(name.as_str()).concat(
            ")",
        ),
        AbiV0RuntimeRequirement::HostedStd => "hosted_std".to_owned(),
        AbiV0RuntimeRequirement::Allocator => "allocator".to_owned(),
        AbiV0RuntimeRequirement::PanicStrategy => "panic_strategy".to_owned(),
        AbiV0RuntimeRequirement::AsyncRuntime => "async_runtime".to_owned(),
    }
}

/// One ownership read as reports show it.
#[derive(Debug, Clone, PartialEq, Eq)]
pub struct OwnershipReadProjection {
    /// First byte offset of the read's source span.
    pub span_start: usize,
    /// Byte offset behind the read's source span.
    pub span_end: usize,
    /// The label of the ownership fact.
    pub fact: &'static str,
    /// Whether lowering marked the read as its local's last use.
    pub last_use: bool,
}

impl OwnershipReadProjection {
    /// Whether this is how a read is shown.
    pub open spec fn shows(self, read: OwnershipRead) -> bool {
        self.span_start == read.span.start && self.span_end == read.span.end && self.fact@ == fact_spelling(read.fact)
            && self.last_use == read.last_use
    }
}

/// One runtime requirement as reports show it.
#[derive(Debug, Clone, PartialEq, Eq)]
pub struct RuntimeRequirementProjection {
    /// The label of the requirement.
    pub requirement: String,
}

/// The line of one read in an execution's identity.
pub open spec fn read_line(read: OwnershipRead) -> Seq<char> {
    "span="@ + decimal(read.span.start as nat) + ".."@ + decimal(read.span.end as nat) + ";fact="@ + fact_spelling(
        read.fact,
    ) + ";last_use="@ + bool_spelling(read.last_use)
}

/// The reads of an execution as its identity covers them.
pub open spec fn reads_summary(reads: Seq<OwnershipRead>) -> Seq<char> {
    joined(Seq::new(reads.len(), |i: int| read_line(reads[i])), "|"@)
}

/// The requirements of an execution as its identity covers them.
pub open spec fn requirements_summary(requirements: Seq<AbiV0RuntimeRequirement>) -> Seq<char> {
    joined(Seq::new(requirements.len(), |i: int| requirement_spelling(requirements[i])), "|"@)
}

/// Projects ownership reads into their reported shape.
fn ownership_read_projection(reads: &Vec<OwnershipRead>) -> (shown: Vec<OwnershipReadProjection>)
    ensures
        shown@.len() == reads@.len(),
        forall|i: int| 0 <= i < reads@.len() ==> (#[trigger] shown@[i]).shows(reads@[i]),
{
    let mut shown: Vec<OwnershipReadProjection> = Vec::new();
    let mut i: usize = 0;
    while i < reads.len()
        invariant
            i <= reads@.len(),
            shown@.len() == i,
            forall|j: int| 0 <= j < i ==> (#[trigger] shown@[j]).shows(reads@[j]),
        decreases reads@.len() - i,
    {
        shown.push(
            OwnershipReadProjection {
                span_start: reads[i].span.start,
                span_end: reads[i].span.end,
                fact: ownership_label(reads[i].fact),
                last_use: reads[i].last_use,
            },
        );
        i += 1;
    }
    shown
}

/// Projects runtime requirements into their reported shape.
fn runtime_requirement_projection(requirements: &Vec<AbiV0RuntimeRequirement>) -> (shown: Vec<
    RuntimeRequirementProjection,
>)
    ensures
        shown@.len() == requirements@.len(),
        forall|i: int|
            0 <= i < requirements@.len() ==> (#[trigger] shown@[i]).requirement@ == requirement_spelling(
                requirements@[i],
            ),
{
    let mut shown: Vec<RuntimeRequirementProjection> = Vec::new();
    let mut i: usize = 0;
    while i < requirements.len()
        invariant
            i <= requirements@.len(),
            shown@.len() == i,
            forall|j: int|
                0 <= j < i ==> (#[trigger] shown@[j]).requirement@ == requirement_spelling(requirements@[j]),
        decreases requirements@.len() - i,
    {
        shown.push(RuntimeRequirementProjection { requirement: runtime_requirement_label(&requirements[i]) });
        i += 1;
    }
    shown
}

/// Renders the reads as one component of an identity.
fn canonical_ownership_summary(reads: &Vec<OwnershipRead>) -> (text: String)
    ensures
        text@ == reads_summary(reads@),
{
    let shown: Vec<OwnershipReadProjection> = ownership_read_projection(reads);
    let mut lines: Vec<String> = Vec::new();
    let mut i: usize = 0;
    while i < shown.len()
        invariant
            i <= shown@.len(),
            shown@.len() == reads@.len(),
            forall|j: int| 0 <= j < reads@.len() ==> (#[trigger] shown@[j]).shows(reads@[j]),
            lines@.len() == i,
            forall|j: int| 0 <= j < i ==> (#[trigger] lines@[j])@ == read_line(reads@[j]),
        decreases shown@.len() - i,
    {
        let read: &OwnershipReadProjection = &shown[i];
        lines.push(
            "span=".to_owned().concat(natural_text(read.span_start as u64).as_str()).concat("..").concat(
                natural_text(read.span_end as u64).as_str(),
            ).concat(";fact=").concat(read.fact).concat(";last_use=").concat(bool_text(read.last_use).as_str()),
        );
        i += 1;
    }
    proof {
        assert(texts(lines@) =~= Seq::new(reads@.len(), |i: int| read_line(reads@[i])));
    }
    join(&lines, "|")
}

/// Renders the requirements as one component of an identity.
fn canonical_runtime_requirements_summary(requirements: &Vec<AbiV0RuntimeRequirement>) -> (text: String)
    ensures
        text@ == requirements_summary(requirements@),
{
    let mut lines: Vec<String> = Vec::new();
    let mut i: usize = 0;
    while i < requirements.len()
        invariant
            i <= requirements@.len(),
            lines@.len() == i,
            forall|j: int| 0 <= j < i ==> (#[trigger] lines@[j])@ == requirement_spelling(requirements@[j]),
        decreases requirements@.len() - i,
    {
        lines.push(runtime_requirement_label(&requirements[i]));
        i += 1;
    }
    proof {
        assert(texts(lines@) =~= Seq::new(requirements@.len(), |i: int| requirement_spelling(requirements@[i])));
    }
    join(&lines, "|")
}

// ---------------------------------------------------------------------------
// Execution
// ---------------------------------------------------------------------------

/// Successful execution evidence for one free function.
#[derive(Debug, Clone, PartialEq)]
pub struct ReplacementExecution {
    /// The function's value.
    pub value: ReplacementValue,
    /// The consumed bodies and frame markers, as proof of the consumed input.
    pub body_snapshot: String,
    /// Every ownership decision, in execution order.
    pub ownership_reads: Vec<OwnershipRead>,
    /// The runtime requirements of the consumed bodies.
    pub runtime_requirements: Vec<AbiV0RuntimeRequirement>,
    /// The identity of snapshot, result, ownership decisions and requirements.
    pub output_identity: String,
}

/// The snapshot text of an execution.
pub open spec fn snapshot_text(m: Machine) -> Seq<char> {
    joined(m.snapshots, "\n-- direct execution frame --\n"@)
}

/// The identity of an execution that gave a value.
pub open spec fn execution_identity(m: Machine, value: ValueModel) -> Seq<char> {
    fragments_identity(
        seq![snapshot_text(m), observable(value), reads_summary(m.reads), requirements_summary(m.requirements)],
    )
}

impl ReplacementExecution {
    /// Whether this is the evidence of a run that ended in a state with a value.
    pub open spec fn evidences(self, m: Machine, value: ValueModel) -> bool {
        &&& self.value.model() == value
        &&& self.body_snapshot@ == snapshot_text(m)
        &&& self.ownership_reads@ == m.reads
        &&& self.runtime_requirements@ == m.requirements
        &&& self.output_identity@ == execution_identity(m, value)
    }

    /// The ownership evidence that is bound into the output identity.
    #[must_use]
    pub fn ownership_evidence(&self) -> (shown: Vec<OwnershipReadProjection>)
        ensures
            shown@.len() == self.ownership_reads@.len(),
            forall|i: int| 0 <= i < shown@.len() ==> (#[trigger] shown@[i]).shows(self.ownership_reads@[i]),
    {
        ownership_read_projection(&self.ownership_reads)
    }

    /// The runtime-requirement evidence that is bound into the output identity.
    #[must_use]
    pub fn runtime_requirement_evidence(&self) -> (shown: Vec<RuntimeRequirementProjection>)
        ensures
            shown@.len() == self.runtime_requirements@.len(),
            forall|i: int|
                0 <= i < shown@.len() ==> (#[trigger] shown@[i]).requirement@ == requirement_spelling(
                    self.runtime_requirements@[i],
                ),
    {
        runtime_requirement_projection(&self.runtime_requirements)
    }
}

/// The slots of a function whose leading parameters are given.
pub open spec fn leading_slots(args: Seq<ValueModel>, count: nat) -> Seq<Option<ValueModel>> {
    Seq::new(
        count,
        |i: int| if i < args.len() {
            Some(args[i])
        } else {
            None
        },
    )
}

/// Running a body with leading arguments: the final state and value, or the halt.
pub open spec fn body_run(p: BodyIrModule, fuel: nat, body: Body, args: Seq<ValueModel>) -> Result<
    (Machine, ValueModel),
    Halt,
> {
    match bound_run(
        p,
        fuel,
        recorded(frame(Map::empty(), 0), body),
        body.params@,
        leading_slots(args, body.params@.len()),
        Map::empty(),
        Map::empty(),
        0,
        body.span,
    ) {
        Err(halt) => Err(halt),
        Ok((m, env)) => match block_run(p, fuel, Machine { locals: env, ..m }, body.block.stmts@, 0) {
            Err(halt) => Err(halt),
            Ok((m, flow)) => {
                let value = match flow {
                    FlowModel::Return(Some(value)) => Some(value),
                    FlowModel::Return(None) => Some(ValueModel::Unit),
                    FlowModel::Next => Some(ValueModel::Unit),
                    _ => None,
                };
                match value {
                    None => Err(
                        Halt::Error(
                            ErrorModel::Unsupported("loop control outside a normalized loop"@, body.span),
                        ),
                    ),
                    Some(value) => if scalar(value) {
                        Ok((m, value))
                    } else {
                        Err(
                            Halt::Error(
                                ErrorModel::Unsupported(
                                    "returning "@ + kind_of(value) + " from the scalar replacement profile"@,
                                    body.span,
                                ),
                            ),
                        )
                    },
                }
            },
        },
    }
}

/// Running a free function that was admitted.
pub open spec fn admitted_run(p: BodyIrModule, fuel: nat, name: Seq<char>, args: Seq<ValueModel>) -> Result<
    (Machine, ValueModel),
    Halt,
> {
    match first_named(p.bodies@, 0, name) {
        None => Err(Halt::Error(ErrorModel::MissingFunction(name))),
        Some(body) => if args.len() > body.params@.len() {
            Err(
                Halt::Error(
                    ErrorModel::Unsupported("callable parameter binding arity mismatch"@, body.span),
                ),
            )
        } else {
            body_run(p, fuel, *body, args)
        },
    }
}

/// Running a free function, with its admission.
pub open spec fn function_run(p: BodyIrModule, fuel: nat, name: Seq<char>, args: Seq<ValueModel>) -> Result<
    (Machine, ValueModel),
    Halt,
> {
    match free_function_refusal(p, name, args) {
        Some(error) => Err(Halt::Error(error)),
        None => admitted_run(p, fuel, name, args),
    }
}

/// Whether a run ends with a result or an error: no integer leaves its range, and nothing nests too deeply.
pub open spec fn settles(run: Result<(Machine, ValueModel), Halt>) -> bool {
    match run {
        Ok(_) => true,
        Err(halt) => halt is Error,
    }
}

/// Whether an execution or an error is what a run gives.
pub open spec fn execution_agrees(
    run: Result<(Machine, ValueModel), Halt>,
    outcome: Result<ReplacementExecution, ReplacementExecutionError>,
) -> bool {
    match outcome {
        Ok(execution) => run matches Ok(done) && execution.evidences(done.0, done.1),
        Err(error) => run matches Err(halt) && halt == Halt::Error(error@),
    }
}

/// The slots of a function whose leading parameters are given.
fn leading_arguments(args: &[ReplacementValue], count: usize) -> (slots: Vec<Option<ReplacementValue>>)
    requires
        args@.len() <= count,
    ensures
        slots_model(slots@) == leading_slots(models(args@), count as nat),
{
    let mut slots: Vec<Option<ReplacementValue>> = Vec::new();
    let mut i: usize = 0;
    proof {
        assert(models(args@).len() == args@.len());
    }
    while i < count
        invariant
            i <= count,
            args@.len() <= count,
            models(args@).len() == args@.len(),
            slots@.len() == i,
            forall|j: int|
                0 <= j < i ==> slots_model(slots@)[j] == (if j < args@.len() {
                    Some(models(args@)[j])
                } else {
                    None
                }),
        decreases count - i,
    {
        let ghost before = slots@;
        if i < args.len() {
            slots.push(Some(args[i].clone()));
        } else {
            slots.push(None);
        }
        proof {
            assert forall|j: int| 0 <= j < i + 1 implies slots_model(slots@)[j] == (if j < args@.len() {
                Some(models(args@)[j])
            } else {
                None
            }) by {
                if j < i {
                    assert(slots_model(before)[j] == slots_model(slots@)[j]);
                } else if j < args@.len() {
                    assert(models(args@)[j] == args@[j].model());
                }
            }
        }
        i += 1;
    }
    proof {
        assert(slots_model(slots@) =~= leading_slots(models(args@), count as nat));
    }
    slots
}

impl<'module> BodyExecutor<'module> {
    /// Binds the arguments of a direct execution to the body's parameters.
    fn start(module: &'module BodyIrModule, body: &Body, args: &[ReplacementValue], fuel: u64) -> (outcome: Result<
        BodyExecutor<'module>,
        ExecutionStop,
    >)
        requires
            args@.len() <= body.params@.len(),
        ensures
            match outcome {
                Ok(executor) => executor.module == module && (bound_run(
                    *module,
                    fuel as nat,
                    recorded(frame(Map::empty(), 0), *body),
                    body.params@,
                    leading_slots(models(args@), body.params@.len()),
                    Map::empty(),
                    Map::empty(),
                    0,
                    body.span,
                ) matches Ok(done) && executor.machine() == (Machine { locals: done.1, ..done.0 })),
                Err(stop) => bound_run(
                    *module,
                    fuel as nat,
                    recorded(frame(Map::empty(), 0), *body),
                    body.params@,
                    leading_slots(models(args@), body.params@.len()),
                    Map::empty(),
                    Map::empty(),
                    0,
                    body.span,
                ) matches Err(halt) && halt == stop@,
            },
    {
        let none: Locals = Locals::new();
        let mut executor: BodyExecutor<'module> = BodyExecutor::with_locals(module, Locals::new(), 0);
        executor.record_body(body);
        let slots: Vec<Option<ReplacementValue>> = leading_arguments(args, body.params.len());
        let locals: Locals = executor.bind_parameter_values(&body.params, slots, &none, body.span, fuel)?;
        executor.locals = locals;
        Ok(executor)
    }

    /// Renders the consumed bodies and frame markers.
    fn body_snapshot(&self) -> (text: String)
        ensures
            text@ == snapshot_text(self.machine()),
    {
        join(&self.body_snapshots, "\n-- direct execution frame --\n")
    }
}

/// Rejects a result that is no scalar.
fn ensure_scalar_result(value: &ReplacementValue, span: HirSourceSpan) -> (outcome: Result<
    (),
    ReplacementExecutionError,
>)
    ensures
        match outcome {
            Ok(_) => scalar(value.model()),
            Err(error) => !scalar(value.model()) && error@ == ErrorModel::Unsupported(
                "returning "@ + kind_of(value.model()) + " from the scalar replacement profile"@,
                span,
            ),
        },
{
    if value.is_collection_scalar() {
        Ok(())
    } else {
        Err(
            unsupported(
                "returning ".to_owned().concat(value_kind(value)).concat(
                    " from the scalar replacement profile",
                ).as_str(),
                span,
            ),
        )
    }
}

/// Runs a body with leading arguments.
fn run_body(module: &BodyIrModule, body: &Body, args: &[ReplacementValue], fuel: u64) -> (outcome: Result<
    ReplacementExecution,
    ExecutionStop,
>)
    requires
        args@.len() <= body.params@.len(),
    ensures
        match outcome {
            Ok(execution) => body_run(*module, fuel as nat, *body, models(args@)) matches Ok(done)
                && execution.evidences(done.0, done.1),
            Err(stop) => body_run(*module, fuel as nat, *body, models(args@)) matches Err(halt) && halt == stop@,
        },
{
    let mut executor: BodyExecutor = BodyExecutor::start(module, body, args, fuel)?;
    let value: ReplacementValue = match executor.execute_block(&body.block.stmts, fuel)? {
        Flow::Return(Some(value)) => value,
        Flow::Return(None) => ReplacementValue::Unit,
        Flow::Next => ReplacementValue::Unit,
        _ => {
            return Err(ExecutionStop::Error(unsupported("loop control outside a normalized loop", body.span)));
        },
    };
    match ensure_scalar_result(&value, body.span) {
        Ok(_) => {},
        Err(error) => {
            return Err(ExecutionStop::Error(error));
        },
    }
    let ghost m = executor.machine();
    let body_snapshot: String = executor.body_snapshot();
    let result: String = value.observable_text();
    let reads: String = canonical_ownership_summary(&executor.ownership_reads);
    let requirements: String = canonical_runtime_requirements_summary(&executor.runtime_requirements);
    let parts: [&str; 4] = [body_snapshot.as_str(), result.as_str(), reads.as_str(), requirements.as_str()];
    let output_identity: String = digest_output(&parts);
    proof {
        assert(slice_texts(parts@) =~= seq![
            snapshot_text(m),
            observable(value.model()),
            reads_summary(m.reads),
            requirements_summary(m.requirements),
        ]);
    }
    Ok(
        ReplacementExecution {
            value,
            body_snapshot,
            ownership_reads: executor.ownership_reads,
            runtime_requirements: executor.runtime_requirements,
            output_identity,
        },
    )
}

/// Executes one free function that was admitted, or reports `None` where an integer would leave its range or
/// calls and rounds would nest too deeply.
pub fn attempt_prevalidated_free_function(execution: ValidatedFreeFunctionExecution<'_, '_>) -> (outcome: Option<
    Result<ReplacementExecution, ReplacementExecutionError>,
>)
    ensures
        match outcome {
            Some(outcome) => execution_agrees(
                admitted_run(execution.module(), EXECUTION_FUEL as nat, execution.name(), execution.args()),
                outcome,
            ),
            None => !settles(
                admitted_run(execution.module(), EXECUTION_FUEL as nat, execution.name(), execution.args()),
            ),
        },
{
    let (module, name, args) = execution.parts();
    let body: &Rc<Body> = match named_free_function(module, name.as_str()) {
        Ok(body) => body,
        Err(error) => {
            return Some(Err(error));
        },
    };
    proof {
        assert(models(args@).len() == args@.len());
    }
    if args.len() > body.params.len() {
        return Some(Err(unsupported("callable parameter binding arity mismatch", body.span)));
    }
    match run_body(module, body, args, EXECUTION_FUEL) {
        Ok(execution) => Some(Ok(execution)),
        Err(ExecutionStop::Error(error)) => Some(Err(error)),
        Err(_) => None,
    }
}

/// Executes one free function, or reports `None` where an integer would leave its range or calls and rounds would
/// nest too deeply.
pub fn attempt_free_function(module: &BodyIrModule, name: &str, args: &[ReplacementValue]) -> (outcome: Option<
    Result<ReplacementExecution, ReplacementExecutionError>,
>)
    ensures
        match outcome {
            Some(outcome) => execution_agrees(
                function_run(*module, EXECUTION_FUEL as nat, name@, models(args@)),
                outcome,
            ),
            None => !settles(function_run(*module, EXECUTION_FUEL as nat, name@, models(args@))),
        },
{
    match prepare_free_function_execution(module, name, args) {
        Ok(plan) => attempt_prevalidated_free_function(plan),
        Err(error) => Some(Err(error)),
    }
}

/// Executes one free function that has already passed [`prepare_free_function_execution`].
pub fn execute_prevalidated_free_function(execution: ValidatedFreeFunctionExecution<'_, '_>) -> (outcome: Result<
    ReplacementExecution,
    ReplacementExecutionError,
>)
    requires
        settles(admitted_run(execution.module(), EXECUTION_FUEL as nat, execution.name(), execution.args())),
    ensures
        execution_agrees(
            admitted_run(execution.module(), EXECUTION_FUEL as nat, execution.name(), execution.args()),
            outcome,
        ),
{
    attempt_prevalidated_free_function(execution).unwrap()
}

/// Executes one named free function with concrete scalar arguments.
pub fn execute_free_function(module: &BodyIrModule, name: &str, args: &[ReplacementValue]) -> (outcome: Result<
    ReplacementExecution,
    ReplacementExecutionError,
>)
    requires
        settles(function_run(*module, EXECUTION_FUEL as nat, name@, models(args@))),
    ensures
        execution_agrees(function_run(*module, EXECUTION_FUEL as nat, name@, models(args@)), outcome),
{
    attempt_free_function(module, name, args).unwrap()
}

} // verus!
