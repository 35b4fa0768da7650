//! Availability of provider hosts, checked before anything runs.
//!
//! Nothing is executed: defaults, branches that are not taken and frames that are not polled are inspected as well.
//! Calls lead to the bodies that dispatch would choose; each body is inspected once.

use crate::body_ir::{
    ArgumentElement, Body, BodyIrModule, CallableParam, CallableParamDefault, CallableTarget, Callee, MatchArm,
    ProviderOperation, RaceArm, Rvalue, Statement, StatementKind,
};
use crate::cli::imports::lists;
use crate::likeness::{alike_provider_operation, is_alike_provider_operation};
use crate::replacement::admission::{callable_body, first_named, named_callable_body};
use crate::replacement::error::{unsupported, ErrorModel, ReplacementExecutionError};
use crate::replacement::profile::{all_single, dispatchable, validate_argument_binding_profile};
use crate::sharing::share;
use crate::text::texts;
use std::rc::Rc;
use vstd::prelude::*;

verus! {

broadcast use vstd::string::group_string_axioms;

/// The provider hosts of a run, by the operations they execute.
#[derive(Debug)]
pub struct ProviderRuntime {
    /// The operations.
    pub operations: Vec<ProviderOperation>,
}

impl ProviderRuntime {
    /// Decides whether a host of the run executes an operation.
    pub fn resolves(&self, operation: &ProviderOperation) -> (found: bool)
        ensures
            found == executes(*self, *operation),
    {
        let mut i: usize = 0;
        while i < self.operations.len()
            invariant
                i <= self.operations@.len(),
                forall|j: int| 0 <= j < i ==> !alike_provider_operation(#[trigger] self.operations@[j], *operation),
            decreases self.operations@.len() - i,
        {
            if is_alike_provider_operation(&self.operations[i], operation) {
                proof {
                    assert(alike_provider_operation(self.operations@[i as int], *operation));
                }
                return true;
            }
            i += 1;
        }
        false
    }
}

/// Whether a host of a run executes an operation.
pub open spec fn executes(runtime: ProviderRuntime, operation: ProviderOperation) -> bool {
    exists|i: int|
        0 <= i < runtime.operations@.len() && alike_provider_operation(
            #[trigger] runtime.operations@[i],
            operation,
        )
}

/// Whether the hosts of a run, where there are any, execute an operation.
pub open spec fn hosted(providers: Option<&ProviderRuntime>, operation: ProviderOperation) -> bool {
    match providers {
        Some(runtime) => executes(*runtime, operation),
        None => false,
    }
}

/// What inspecting a computation gave: the bodies it calls behind those found so far, or its refusal.
pub type Found = Result<Seq<Rc<Body>>, ErrorModel>;

/// What inspecting a call gives.
pub open spec fn call_found(
    module: BodyIrModule,
    providers: Option<&ProviderRuntime>,
    statement: Statement,
    callee: Callee,
    args: Seq<ArgumentElement>,
    found: Seq<Rc<Body>>,
) -> Found {
    match callee {
        Callee::ProviderOperation(plan) => if hosted(providers, plan.operation) {
            Ok(found)
        } else {
            Err(
                ErrorModel::Unsupported(
                    "provider operation `"@ + plan.operation.declaration_name@
                        + "` that no provider host in this run executes"@,
                    plan.call_span,
                ),
            )
        },
        Callee::Function(CallableTarget::Named(target)) => if !target.builtin && target.direct_call_id is Some
            && all_single(args) && dispatchable(target.binding) {
            match callable_body(module, target.name@, statement.span) {
                Ok(body) => Ok(found.push(body)),
                Err(error) => Err(error),
            }
        } else {
            Ok(found)
        },
        _ => Ok(found),
    }
}

/// What inspecting a statement gives.
pub open spec fn statement_found(
    module: BodyIrModule,
    providers: Option<&ProviderRuntime>,
    statement: Statement,
    found: Seq<Rc<Body>>,
) -> Found
    decreases statement, 0int,
{
    match statement.kind {
        StatementKind::Call { callee, args, .. } => call_found(module, providers, statement, callee, args@, found),
        StatementKind::Assign { rvalue, .. } => rvalue_found(module, providers, rvalue, found),
        StatementKind::If { then_block, else_block, .. } => match statements_found(
            module,
            providers,
            then_block.stmts@,
            0,
            found,
        ) {
            Err(error) => Err(error),
            Ok(found) => match else_block {
                Some(block) => statements_found(module, providers, block.stmts@, 0, found),
                None => Ok(found),
            },
        },
        StatementKind::Loop { body } => statements_found(module, providers, body.stmts@, 0, found),
        StatementKind::Race { arms } => race_found(module, providers, arms@, 0, found),
        _ => Ok(found),
    }
}

/// What inspecting the statements from one on gives.
pub open spec fn statements_found(
    module: BodyIrModule,
    providers: Option<&ProviderRuntime>,
    stmts: Seq<Statement>,
    from: int,
    found: Seq<Rc<Body>>,
) -> Found
    decreases stmts, stmts.len() - from,
{
    if from < 0 || from >= stmts.len() {
        Ok(found)
    } else {
        match statement_found(module, providers, stmts[from], found) {
            Ok(found) => statements_found(module, providers, stmts, from + 1, found),
            Err(error) => Err(error),
        }
    }
}

/// What inspecting the arms of a race from one on gives.
pub open spec fn race_found(
    module: BodyIrModule,
    providers: Option<&ProviderRuntime>,
    arms: Seq<RaceArm>,
    from: int,
    found: Seq<Rc<Body>>,
) -> Found
    decreases arms, arms.len() - from,
{
    if from < 0 || from >= arms.len() {
        Ok(found)
    } else {
        match statements_found(module, providers, arms[from].body.stmts@, 0, found) {
            Ok(found) => race_found(module, providers, arms, from + 1, found),
            Err(error) => Err(error),
        }
    }
}

/// What inspecting the arms of a match from one on gives.
pub open spec fn match_found(
    module: BodyIrModule,
    providers: Option<&ProviderRuntime>,
    arms: Seq<MatchArm>,
    from: int,
    found: Seq<Rc<Body>>,
) -> Found
    decreases arms, arms.len() - from,
{
    if from < 0 || from >= arms.len() {
        Ok(found)
    } else {
        match statements_found(module, providers, arms[from].guard_stmts@, 0, found) {
            Err(error) => Err(error),
            Ok(found) => match statements_found(module, providers, arms[from].body_stmts@, 0, found) {
                Ok(found) => match_found(module, providers, arms, from + 1, found),
                Err(error) => Err(error),
            },
        }
    }
}

/// What inspecting the source defaults of the parameters from one on gives.
pub open spec fn params_found(
    module: BodyIrModule,
    providers: Option<&ProviderRuntime>,
    params: Seq<CallableParam>,
    from: int,
    found: Seq<Rc<Body>>,
) -> Found
    decreases params, params.len() - from,
{
    if from < 0 || from >= params.len() {
        Ok(found)
    } else {
        match default_found(module, providers, params[from].default, found) {
            Ok(found) => params_found(module, providers, params, from + 1, found),
            Err(error) => Err(error),
        }
    }
}

/// What inspecting a default gives.
pub open spec fn default_found(
    module: BodyIrModule,
    providers: Option<&ProviderRuntime>,
    default: CallableParamDefault,
    found: Seq<Rc<Body>>,
) -> Found
    decreases default, 0int,
{
    match default {
        CallableParamDefault::Source(computation) => statements_found(
            module,
            providers,
            computation.stmts@,
            0,
            found,
        ),
        _ => Ok(found),
    }
}

/// What inspecting an rvalue gives. Deferred bodies are inspected where they are made.
pub open spec fn rvalue_found(
    module: BodyIrModule,
    providers: Option<&ProviderRuntime>,
    rvalue: Rvalue,
    found: Seq<Rc<Body>>,
) -> Found
    decreases rvalue, 0int,
{
    match rvalue {
        Rvalue::Closure { params, body, .. } => match params_found(module, providers, params@, 0, found) {
            Err(error) => Err(error),
            Ok(found) => statements_found(module, providers, body.stmts@, 0, found),
        },
        Rvalue::Generator { body, .. } => statements_found(module, providers, body.stmts@, 0, found),
        Rvalue::Match { arms } => match_found(module, providers, arms@, 0, found),
        _ => Ok(found),
    }
}

/// What inspecting a body gives.
pub open spec fn body_found(module: BodyIrModule, providers: Option<&ProviderRuntime>, body: Body) -> Found {
    match params_found(module, providers, body.params@, 0, Seq::empty()) {
        Err(error) => Err(error),
        Ok(found) => statements_found(module, providers, body.block.stmts@, 0, found),
    }
}

/// The identities of an entry body and of the bodies of a module.
pub open spec fn identities(module: BodyIrModule, entry: Rc<Body>) -> Seq<Seq<char>> {
    Seq::new(module.bodies@.len(), |i: int| module.bodies@[i].direct_call_id@).push(entry.direct_call_id@)
}

/// How many identities were not visited.
pub open spec fn unvisited(ids: Seq<Seq<char>>, visited: Set<Seq<char>>) -> nat
    decreases ids.len(),
{
    if ids.len() == 0 {
        0
    } else {
        unvisited(ids.drop_last(), visited) + if visited.contains(ids.last()) {
            0nat
        } else {
            1nat
        }
    }
}

proof fn lemma_visiting(ids: Seq<Seq<char>>, visited: Set<Seq<char>>, id: Seq<char>)
    ensures
        unvisited(ids, visited.insert(id)) <= unvisited(ids, visited),
        ids.contains(id) && !visited.contains(id) ==> unvisited(ids, visited.insert(id)) < unvisited(ids, visited),
    decreases ids.len(),
{
    if ids.len() > 0 {
        lemma_visiting(ids.drop_last(), visited, id);
        if ids.contains(id) && ids.last() != id {
            let i = choose|i: int| 0 <= i < ids.len() && ids[i] == id;
            assert(ids.drop_last()[i] == id);
        }
    }
}

/// The first refusal of the pending bodies and all that they lead to; the last pending body is inspected first.
pub open spec fn pending_refusal(
    module: BodyIrModule,
    providers: Option<&ProviderRuntime>,
    ids: Seq<Seq<char>>,
    pending: Seq<Rc<Body>>,
    visited: Set<Seq<char>>,
) -> Option<ErrorModel>
    decreases unvisited(ids, visited), pending.len(),
    via pending_shrinks
{
    if pending.len() == 0 {
        None
    } else {
        let body = pending.last();
        let id = body.direct_call_id@;
        if visited.contains(id) || !ids.contains(id) {
            pending_refusal(module, providers, ids, pending.drop_last(), visited)
        } else {
            match body_found(module, providers, *body) {
                Err(error) => Some(error),
                Ok(found) => pending_refusal(
                    module,
                    providers,
                    ids,
                    pending.drop_last() + found,
                    visited.insert(id),
                ),
            }
        }
    }
}

#[via_fn]
proof fn pending_shrinks(
    module: BodyIrModule,
    providers: Option<&ProviderRuntime>,
    ids: Seq<Seq<char>>,
    pending: Seq<Rc<Body>>,
    visited: Set<Seq<char>>,
) {
    if pending.len() > 0 {
        lemma_visiting(ids, visited, pending.last().direct_call_id@);
    }
}

/// The first refusal of an entry body and of the bodies of the module that it can reach.
pub open spec fn host_refusal(module: BodyIrModule, entry: Rc<Body>, providers: Option<&ProviderRuntime>) -> Option<
    ErrorModel,
> {
    pending_refusal(module, providers, identities(module, entry), seq![entry], Set::empty())
}

// ---------------------------------------------------------------------------
// Inspection
// ---------------------------------------------------------------------------

/// What an inspection gave.
pub open spec fn found_outcome(outcome: Result<(), ReplacementExecutionError>, found: Seq<Rc<Body>>) -> Found {
    match outcome {
        Ok(_) => Ok(found),
        Err(error) => Err(error@),
    }
}

/// Whether all found bodies are bodies of a module.
pub open spec fn of_module(module: BodyIrModule, found: Seq<Rc<Body>>) -> bool {
    forall|i: int| 0 <= i < found.len() ==> module.bodies@.contains(#[trigger] found[i])
}

proof fn lemma_first_named_is_listed(bodies: Seq<Rc<Body>>, from: int, name: Seq<char>)
    ensures
        first_named(bodies, from, name) matches Some(body) ==> bodies.contains(body),
    decreases bodies.len() - from,
{
    if 0 <= from < bodies.len() && bodies[from].name@ != name {
        lemma_first_named_is_listed(bodies, from + 1, name);
    }
}

/// Decides whether no argument is a spread.
fn all_arguments_single(args: &Vec<ArgumentElement>) -> (yes: bool)
    ensures
        yes == all_single(args@),
{
    let mut i: usize = 0;
    while i < args.len()
        invariant
            i <= args@.len(),
            forall|j: int| 0 <= j < i ==> (#[trigger] args@[j]) is One,
        decreases args@.len() - i,
    {
        match &args[i] {
            ArgumentElement::One(_) => {},
            ArgumentElement::Spread(_) => {
                proof {
                    assert(!(args@[i as int] is One));
                }
                return false;
            },
        }
        i += 1;
    }
    true
}

/// Inspects a call.
fn inspect_call(
    module: &BodyIrModule,
    providers: Option<&ProviderRuntime>,
    statement: &Statement,
    callee: &Callee,
    args: &Vec<ArgumentElement>,
    found: &mut Vec<Rc<Body>>,
) -> (outcome: Result<(), ReplacementExecutionError>)
    requires
        of_module(*module, old(found)@),
    ensures
        call_found(*module, providers, *statement, *callee, args@, old(found)@) == found_outcome(
            outcome,
            final(found)@,
        ),
        of_module(*module, final(found)@),
{
    match callee {
        Callee::ProviderOperation(plan) => {
            let executed: bool = match providers {
                Some(runtime) => runtime.resolves(&plan.operation),
                None => false,
            };
            if executed {
                Ok(())
            } else {
                Err(
                    unsupported(
                        "provider operation `".to_owned().concat(plan.operation.declaration_name.as_str()).concat(
                            "` that no provider host in this run executes",
                        ).as_str(),
                        plan.call_span,
                    ),
                )
            }
        },
        Callee::Function(CallableTarget::Named(target)) => {
            if !target.builtin && target.direct_call_id.is_some() && all_arguments_single(args)
                && validate_argument_binding_profile(&target.binding) {
                let body: &Rc<Body> = named_callable_body(module, target, statement.span)?;
                proof {
                    lemma_first_named_is_listed(module.bodies@, 0, target.name@);
                    assert(module.bodies@.contains(*body));
                }
                found.push(share(body));
            }
            Ok(())
        },
        _ => Ok(()),
    }
}

/// Inspects one statement.
fn inspect_statement(
    module: &BodyIrModule,
    providers: Option<&ProviderRuntime>,
    statement: &Statement,
    found: &mut Vec<Rc<Body>>,
) -> (outcome: Result<(), ReplacementExecutionError>)
    requires
        of_module(*module, old(found)@),
    ensures
        statement_found(*module, providers, *statement, old(found)@) == found_outcome(outcome, final(found)@),
        of_module(*module, final(found)@),
    decreases statement, 0int,
{
    match &statement.kind {
        StatementKind::Call { callee, args, .. } => inspect_call(module, providers, statement, callee, args, found),
        StatementKind::Assign { rvalue, .. } => inspect_rvalue(module, providers, rvalue, found),
        StatementKind::If { then_block, else_block, .. } => {
            inspect_statements(module, providers, &then_block.stmts, found)?;
            match else_block {
                Some(block) => inspect_statements(module, providers, &block.stmts, found),
                None => Ok(()),
            }
        },
        StatementKind::Loop { body } => inspect_statements(module, providers, &body.stmts, found),
        StatementKind::Race { arms } => inspect_race(module, providers, arms, found),
        _ => Ok(()),
    }
}

/// Inspects a run of statements.
fn inspect_statements(
    module: &BodyIrModule,
    providers: Option<&ProviderRuntime>,
    stmts: &Vec<Statement>,
    found: &mut Vec<Rc<Body>>,
) -> (outcome: Result<(), ReplacementExecutionError>)
    requires
        of_module(*module, old(found)@),
    ensures
        statements_found(*module, providers, stmts@, 0, old(found)@) == found_outcome(outcome, final(found)@),
        of_module(*module, final(found)@),
    decreases stmts, 0int,
{
    let mut i: usize = 0;
    while i < stmts.len()
        invariant
            i <= stmts@.len(),
            of_module(*module, found@),
            statements_found(*module, providers, stmts@, 0, old(found)@) == statements_found(
                *module,
                providers,
                stmts@,
                i as int,
                found@,
            ),
        decreases stmts@.len() - i,
    {
        inspect_statement(module, providers, &stmts[i], found)?;
        i += 1;
    }
    Ok(())
}

/// Inspects the arms of a race.
fn inspect_race(
    module: &BodyIrModule,
    providers: Option<&ProviderRuntime>,
    arms: &Vec<RaceArm>,
    found: &mut Vec<Rc<Body>>,
) -> (outcome: Result<(), ReplacementExecutionError>)
    requires
        of_module(*module, old(found)@),
    ensures
        race_found(*module, providers, arms@, 0, old(found)@) == found_outcome(outcome, final(found)@),
        of_module(*module, final(found)@),
    decreases arms, 0int,
{
    let mut i: usize = 0;
    while i < arms.len()
        invariant
            i <= arms@.len(),
            of_module(*module, found@),
            race_found(*module, providers, arms@, 0, old(found)@) == race_found(
                *module,
                providers,
                arms@,
                i as int,
                found@,
            ),
        decreases arms@.len() - i,
    {
        inspect_statements(module, providers, &arms[i].body.stmts, found)?;
        i += 1;
    }
    Ok(())
}

/// Inspects the arms of a match.
fn inspect_match(
    module: &BodyIrModule,
    providers: Option<&ProviderRuntime>,
    arms: &Vec<MatchArm>,
    found: &mut Vec<Rc<Body>>,
) -> (outcome: Result<(), ReplacementExecutionError>)
    requires
        of_module(*module, old(found)@),
    ensures
        match_found(*module, providers, arms@, 0, old(found)@) == found_outcome(outcome, final(found)@),
        of_module(*module, final(found)@),
    decreases arms, 0int,
{
    let mut i: usize = 0;
    while i < arms.len()
        invariant
            i <= arms@.len(),
            of_module(*module, found@),
            match_found(*module, providers, arms@, 0, old(found)@) == match_found(
                *module,
                providers,
                arms@,
                i as int,
                found@,
            ),
        decreases arms@.len() - i,
    {
        inspect_statements(module, providers, &arms[i].guard_stmts, found)?;
        inspect_statements(module, providers, &arms[i].body_stmts, found)?;
        i += 1;
    }
    Ok(())
}

/// Inspects the source defaults of parameters.
fn inspect_params(
    module: &BodyIrModule,
    providers: Option<&ProviderRuntime>,
    params: &Vec<CallableParam>,
    found: &mut Vec<Rc<Body>>,
) -> (outcome: Result<(), ReplacementExecutionError>)
    requires
        of_module(*module, old(found)@),
    ensures
        params_found(*module, providers, params@, 0, old(found)@) == found_outcome(outcome, final(found)@),
        of_module(*module, final(found)@),
    decreases params, 0int,
{
    let mut i: usize = 0;
    while i < params.len()
        invariant
            i <= params@.len(),
            of_module(*module, found@),
            params_found(*module, providers, params@, 0, old(found)@) == params_found(
                *module,
                providers,
                params@,
                i as int,
                found@,
            ),
        decreases params@.len() - i,
    {
        inspect_default(module, providers, &params[i].default, found)?;
        i += 1;
    }
    Ok(())
}

/// Inspects a default.
fn inspect_default(
    module: &BodyIrModule,
    providers: Option<&ProviderRuntime>,
    default: &CallableParamDefault,
    found: &mut Vec<Rc<Body>>,
) -> (outcome: Result<(), ReplacementExecutionError>)
    requires
        of_module(*module, old(found)@),
    ensures
        default_found(*module, providers, *default, old(found)@) == found_outcome(outcome, final(found)@),
        of_module(*module, final(found)@),
    decreases default, 0int,
{
    match default {
        CallableParamDefault::Source(computation) => inspect_statements(
            module,
            providers,
            &computation.stmts,
            found,
        ),
        _ => Ok(()),
    }
}

/// Inspects an rvalue.
fn inspect_rvalue(
    module: &BodyIrModule,
    providers: Option<&ProviderRuntime>,
    rvalue: &Rvalue,
    found: &mut Vec<Rc<Body>>,
) -> (outcome: Result<(), ReplacementExecutionError>)
    requires
        of_module(*module, old(found)@),
    ensures
        rvalue_found(*module, providers, *rvalue, old(found)@) == found_outcome(outcome, final(found)@),
        of_module(*module, final(found)@),
    decreases rvalue, 0int,
{
    match rvalue {
        Rvalue::Closure { params, body, .. } => {
            inspect_params(module, providers, params, found)?;
            inspect_statements(module, providers, &body.stmts, found)
        },
        Rvalue::Generator { body, .. } => inspect_statements(module, providers, &body.stmts, found),
        Rvalue::Match { arms } => inspect_match(module, providers, arms, found),
        _ => Ok(()),
    }
}

/// Refuses provider operations without a host in an entry body and in all bodies of the module that it can reach.
pub fn validate(module: &BodyIrModule, entry: &Rc<Body>, providers: Option<&ProviderRuntime>) -> (outcome: Result<
    (),
    ReplacementExecutionError,
>)
    ensures
        match outcome {
            Ok(_) => host_refusal(*module, *entry, providers) is None,
            Err(error) => host_refusal(*module, *entry, providers) == Some(error@),
        },
{
    let ghost ids = identities(*module, *entry);
    let mut pending: Vec<Rc<Body>> = vec![share(entry)];
    let mut visited: Vec<String> = Vec::new();
    let ghost mut seen = Set::<Seq<char>>::empty();
    proof {
        assert(pending@ =~= seq![*entry]);
        assert(ids[module.bodies@.len() as int] == entry.direct_call_id@);
    }
    loop
        invariant
            ids == identities(*module, *entry),
            forall|id: Seq<char>| seen.contains(id) <==> #[trigger] texts(visited@).contains(id),
            forall|i: int| 0 <= i < pending@.len() ==> ids.contains((#[trigger] pending@[i]).direct_call_id@),
            host_refusal(*module, *entry, providers) == pending_refusal(*module, providers, ids, pending@, seen),
        decreases unvisited(ids, seen), pending@.len(),
    {
        let ghost before = pending@;
        let body: Rc<Body> = match pending.pop() {
            Some(body) => body,
            None => {
                return Ok(());
            },
        };
        proof {
            assert(before.last() == body);
            assert(ids.contains(before[before.len() - 1].direct_call_id@));
            assert(pending@ =~= before.drop_last());
            lemma_visiting(ids, seen, body.direct_call_id@);
        }
        if !lists(&visited, body.direct_call_id.as_str()) {
            let mut found: Vec<Rc<Body>> = Vec::new();
            inspect_params(module, providers, &body.params, &mut found)?;
            inspect_statements(module, providers, &body.block.stmts, &mut found)?;
            let ghost marks = texts(visited@);
            visited.push(body.direct_call_id.clone());
            proof {
                assert(texts(visited@) =~= marks.push(body.direct_call_id@));
                let id = body.direct_call_id@;
                assert forall|other: Seq<char>| seen.insert(id).contains(other) <==> #[trigger] texts(
                    visited@,
                ).contains(other) by {
                    let all = marks.push(id);
                    if marks.contains(other) {
                        let i = choose|i: int| 0 <= i < marks.len() && marks[i] == other;
                        assert(all[i] == other);
                    }
                    if other == id {
                        assert(all[marks.len() as int] == other);
                    }
                    if all.contains(other) && other != id {
                        let i = choose|i: int| 0 <= i < all.len() && all[i] == other;
                        assert(marks[i] == other);
                    }
                    assert(seen.contains(other) <==> marks.contains(other));
                }
                seen = seen.insert(id);
            }
            let ghost rest = pending@;
            let mut k: usize = 0;
            proof {
                assert(rest + found@.take(0) =~= rest);
            }
            while k < found.len()
                invariant
                    k <= found@.len(),
                    pending@ == rest + found@.take(k as int),
                decreases found@.len() - k,
            {
                pending.push(share(&found[k]));
                proof {
                    assert(found@.take(k + 1) =~= found@.take(k as int).push(found@[k as int]));
                    assert(pending@ =~= rest + found@.take(k + 1));
                }
                k += 1;
            }
            proof {
                assert(found@.take(k as int) =~= found@);
                assert forall|i: int| 0 <= i < pending@.len() implies ids.contains(
                    (#[trigger] pending@[i]).direct_call_id@,
                ) by {
                    if i < rest.len() {
                        assert(pending@[i] == before[i]);
                    } else {
                        let callee = found@[i - rest.len()];
                        assert(pending@[i] == callee);
                        assert(module.bodies@.contains(callee));
                        let at = choose|at: int| 0 <= at < module.bodies@.len() && module.bodies@[at] == callee;
                        assert(ids[at] == callee.direct_call_id@);
                    }
                }
            }
        } else {
            proof {
                assert(seen.contains(body.direct_call_id@));
                assert forall|i: int| 0 <= i < pending@.len() implies ids.contains(
                    (#[trigger] pending@[i]).direct_call_id@,
                ) by {
                    assert(pending@[i] == before[i]);
                }
            }
        }
    }
}

// ---------------------------------------------------------------------------
// Reachability
// ---------------------------------------------------------------------------

/// The identities that are visited once nothing is pending.
pub open spec fn all_visited(
    module: BodyIrModule,
    providers: Option<&ProviderRuntime>,
    ids: Seq<Seq<char>>,
    pending: Seq<Rc<Body>>,
    visited: Set<Seq<char>>,
) -> Set<Seq<char>>
    decreases unvisited(ids, visited), pending.len(),
    via visiting_shrinks
{
    if pending.len() == 0 {
        visited
    } else {
        let body = pending.last();
        let id = body.direct_call_id@;
        if visited.contains(id) || !ids.contains(id) {
            all_visited(module, providers, ids, pending.drop_last(), visited)
        } else {
            match body_found(module, providers, *body) {
                Err(_) => visited,
                Ok(found) => all_visited(module, providers, ids, pending.drop_last() + found, visited.insert(id)),
            }
        }
    }
}

#[via_fn]
proof fn visiting_shrinks(
    module: BodyIrModule,
    providers: Option<&ProviderRuntime>,
    ids: Seq<Seq<char>>,
    pending: Seq<Rc<Body>>,
    visited: Set<Seq<char>>,
) {
    if pending.len() > 0 {
        lemma_visiting(ids, visited, pending.last().direct_call_id@);
    }
}

/// The body behind a shared pointer.
pub open spec fn contents(body: Rc<Body>) -> Body {
    *body
}

/// Whether a body is inspected without refusal and leads only to some identities.
pub open spec fn leads_within(
    module: BodyIrModule,
    providers: Option<&ProviderRuntime>,
    body: Rc<Body>,
    ids: Set<Seq<char>>,
) -> bool {
    match body_found(module, providers, *body) {
        Ok(found) => forall|i: int| 0 <= i < found.len() ==> ids.contains((#[trigger] found[i]).direct_call_id@),
        Err(_) => false,
    }
}

/// Whether the bodies of a module have identities of their own.
pub open spec fn distinct_identities(module: BodyIrModule) -> bool {
    forall|i: int, j: int|
        0 <= i < j < module.bodies@.len() ==> (#[trigger] module.bodies@[i]).direct_call_id@ != (
        #[trigger] module.bodies@[j]).direct_call_id@
}

proof fn call_finds_bodies_of_module(
    module: BodyIrModule,
    providers: Option<&ProviderRuntime>,
    statement: Statement,
    callee: Callee,
    args: Seq<ArgumentElement>,
    found: Seq<Rc<Body>>,
)
    requires
        of_module(module, found),
    ensures
        call_found(module, providers, statement, callee, args, found) matches Ok(all) ==> of_module(module, all),
{
    match callee {
        Callee::Function(CallableTarget::Named(target)) => {
            lemma_first_named_is_listed(module.bodies@, 0, target.name@);
        },
        _ => {},
    }
}

proof fn statement_finds_bodies_of_module(
    module: BodyIrModule,
    providers: Option<&ProviderRuntime>,
    statement: Statement,
    found: Seq<Rc<Body>>,
)
    requires
        of_module(module, found),
    ensures
        statement_found(module, providers, statement, found) matches Ok(all) ==> of_module(module, all),
    decreases statement, 0int,
{
    match statement.kind {
        StatementKind::Call { callee, args, .. } => {
            call_finds_bodies_of_module(module, providers, statement, callee, args@, found);
        },
        StatementKind::Assign { rvalue, .. } => {
            rvalue_finds_bodies_of_module(module, providers, rvalue, found);
        },
        StatementKind::If { then_block, else_block, .. } => {
            statements_find_bodies_of_module(module, providers, then_block.stmts@, 0, found);
            match statements_found(module, providers, then_block.stmts@, 0, found) {
                Err(_) => {},
                Ok(next) => match else_block {
                    Some(block) => {
                        statements_find_bodies_of_module(module, providers, block.stmts@, 0, next);
                    },
                    None => {},
                },
            }
        },
        StatementKind::Loop { body } => {
            statements_find_bodies_of_module(module, providers, body.stmts@, 0, found);
        },
        StatementKind::Race { arms } => {
            race_finds_bodies_of_module(module, providers, arms@, 0, found);
        },
        _ => {},
    }
}

proof fn statements_find_bodies_of_module(
    module: BodyIrModule,
    providers: Option<&ProviderRuntime>,
    stmts: Seq<Statement>,
    from: int,
    found: Seq<Rc<Body>>,
)
    requires
        of_module(module, found),
    ensures
        statements_found(module, providers, stmts, from, found) matches Ok(all) ==> of_module(module, all),
    decreases stmts, stmts.len() - from,
{
    if 0 <= from < stmts.len() {
        statement_finds_bodies_of_module(module, providers, stmts[from], found);
        match statement_found(module, providers, stmts[from], found) {
            Ok(next) => {
                statements_find_bodies_of_module(module, providers, stmts, from + 1, next);
            },
            Err(_) => {},
        }
    }
}

proof fn race_finds_bodies_of_module(
    module: BodyIrModule,
    providers: Option<&ProviderRuntime>,
    arms: Seq<RaceArm>,
    from: int,
    found: Seq<Rc<Body>>,
)
    requires
        of_module(module, found),
    ensures
        race_found(module, providers, arms, from, found) matches Ok(all) ==> of_module(module, all),
    decreases arms, arms.len() - from,
{
    if 0 <= from < arms.len() {
        statements_find_bodies_of_module(module, providers, arms[from].body.stmts@, 0, found);
        match statements_found(module, providers, arms[from].body.stmts@, 0, found) {
            Ok(next) => {
                race_finds_bodies_of_module(module, providers, arms, from + 1, next);
            },
            Err(_) => {},
        }
    }
}

proof fn match_finds_bodies_of_module(
    module: BodyIrModule,
    providers: Option<&ProviderRuntime>,
    arms: Seq<MatchArm>,
    from: int,
    found: Seq<Rc<Body>>,
)
    requires
        of_module(module, found),
    ensures
        match_found(module, providers, arms, from, found) matches Ok(all) ==> of_module(module, all),
    decreases arms, arms.len() - from,
{
    if 0 <= from < arms.len() {
        statements_find_bodies_of_module(module, providers, arms[from].guard_stmts@, 0, found);
        match statements_found(module, providers, arms[from].guard_stmts@, 0, found) {
            Err(_) => {},
            Ok(guarded) => {
                statements_find_bodies_of_module(module, providers, arms[from].body_stmts@, 0, guarded);
                match statements_found(module, providers, arms[from].body_stmts@, 0, guarded) {
                    Ok(next) => {
                        match_finds_bodies_of_module(module, providers, arms, from + 1, next);
                    },
                    Err(_) => {},
                }
            },
        }
    }
}

proof fn params_find_bodies_of_module(
    module: BodyIrModule,
    providers: Option<&ProviderRuntime>,
    params: Seq<CallableParam>,
    from: int,
    found: Seq<Rc<Body>>,
)
    requires
        of_module(module, found),
    ensures
        params_found(module, providers, params, from, found) matches Ok(all) ==> of_module(module, all),
    decreases params, params.len() - from,
{
    if 0 <= from < params.len() {
        default_finds_bodies_of_module(module, providers, params[from].default, found);
        match default_found(module, providers, params[from].default, found) {
            Ok(next) => {
                params_find_bodies_of_module(module, providers, params, from + 1, next);
            },
            Err(_) => {},
        }
    }
}

proof fn default_finds_bodies_of_module(
    module: BodyIrModule,
    providers: Option<&ProviderRuntime>,
    default: CallableParamDefault,
    found: Seq<Rc<Body>>,
)
    requires
        of_module(module, found),
    ensures
        default_found(module, providers, default, found) matches Ok(all) ==> of_module(module, all),
    decreases default, 0int,
{
    match default {
        CallableParamDefault::Source(computation) => {
            statements_find_bodies_of_module(module, providers, computation.stmts@, 0, found);
        },
        _ => {},
    }
}

proof fn rvalue_finds_bodies_of_module(
    module: BodyIrModule,
    providers: Option<&ProviderRuntime>,
    rvalue: Rvalue,
    found: Seq<Rc<Body>>,
)
    requires
        of_module(module, found),
    ensures
        rvalue_found(module, providers, rvalue, found) matches Ok(all) ==> of_module(module, all),
    decreases rvalue, 0int,
{
    match rvalue {
        Rvalue::Closure { params, body, .. } => {
            params_find_bodies_of_module(module, providers, params@, 0, found);
            match params_found(module, providers, params@, 0, found) {
                Err(_) => {},
                Ok(next) => {
                    statements_find_bodies_of_module(module, providers, body.stmts@, 0, next);
                },
            }
        },
        Rvalue::Generator { body, .. } => {
            statements_find_bodies_of_module(module, providers, body.stmts@, 0, found);
        },
        Rvalue::Match { arms } => {
            match_finds_bodies_of_module(module, providers, arms@, 0, found);
        },
        _ => {},
    }
}

proof fn body_finds_bodies_of_module(module: BodyIrModule, providers: Option<&ProviderRuntime>, body: Rc<Body>)
    ensures
        body_found(module, providers, contents(body)) matches Ok(all) ==> of_module(module, all),
{
    params_find_bodies_of_module(module, providers, body.params@, 0, Seq::empty());
    match params_found(module, providers, body.params@, 0, Seq::empty()) {
        Err(_) => {},
        Ok(next) => {
            statements_find_bodies_of_module(module, providers, body.block.stmts@, 0, next);
        },
    }
}

proof fn lemma_visits(
    module: BodyIrModule,
    providers: Option<&ProviderRuntime>,
    ids: Seq<Seq<char>>,
    pending: Seq<Rc<Body>>,
    visited: Set<Seq<char>>,
)
    requires
        distinct_identities(module),
        of_module(module, pending),
        forall|i: int| 0 <= i < module.bodies@.len() ==> ids.contains((#[trigger] module.bodies@[i]).direct_call_id@),
        pending_refusal(module, providers, ids, pending, visited) is None,
    ensures
        ({
            let all = all_visited(module, providers, ids, pending, visited);
            &&& visited.subset_of(all)
            &&& forall|i: int| 0 <= i < pending.len() ==> all.contains((#[trigger] pending[i]).direct_call_id@)
            &&& forall|b: Rc<Body>|
                module.bodies@.contains(b) && all.contains(b.direct_call_id@) && !visited.contains(b.direct_call_id@)
                    ==> #[trigger] leads_within(module, providers, b, all)
        }),
    decreases unvisited(ids, visited), pending.len(),
{
    if pending.len() > 0 {
        let body = pending.last();
        let id = body.direct_call_id@;
        let rest = pending.drop_last();
        assert(module.bodies@.contains(pending[pending.len() - 1]));
        let at = choose|at: int| 0 <= at < module.bodies@.len() && module.bodies@[at] == body;
        assert(ids.contains(module.bodies@[at].direct_call_id@));
        lemma_visiting(ids, visited, id);
        assert forall|i: int| 0 <= i < rest.len() implies module.bodies@.contains(#[trigger] rest[i]) by {
            assert(rest[i] == pending[i]);
        }
        let all = all_visited(module, providers, ids, pending, visited);
        if visited.contains(id) {
            lemma_visits(module, providers, ids, rest, visited);
            assert forall|i: int| 0 <= i < pending.len() implies all.contains(
                (#[trigger] pending[i]).direct_call_id@,
            ) by {
                if i < rest.len() {
                    assert(rest[i] == pending[i]);
                }
            }
        } else {
            body_finds_bodies_of_module(module, providers, body);
            match body_found(module, providers, contents(body)) {
                Err(_) => {},
                Ok(found) => {
                    let next = rest + found;
                    assert forall|i: int| 0 <= i < next.len() implies module.bodies@.contains(#[trigger] next[i]) by {
                        if i < rest.len() {
                            assert(next[i] == rest[i]);
                        } else {
                            assert(next[i] == found[i - rest.len()]);
                        }
                    }
                    lemma_visits(module, providers, ids, next, visited.insert(id));
                    assert forall|i: int| 0 <= i < pending.len() implies all.contains(
                        (#[trigger] pending[i]).direct_call_id@,
                    ) by {
                        if i < rest.len() {
                            assert(next[i] == pending[i]);
                        } else {
                            assert(visited.insert(id).contains(id));
                        }
                    }
                    assert forall|b: Rc<Body>|
                        module.bodies@.contains(b) && all.contains(b.direct_call_id@) && !visited.contains(
                            b.direct_call_id@,
                        ) implies #[trigger] leads_within(module, providers, b, all) by {
                        if b.direct_call_id@ == id {
                            let j = choose|j: int| 0 <= j < module.bodies@.len() && module.bodies@[j] == b;
                            if at < j {
                                assert(module.bodies@[at].direct_call_id@ != module.bodies@[j].direct_call_id@);
                            }
                            if j < at {
                                assert(module.bodies@[j].direct_call_id@ != module.bodies@[at].direct_call_id@);
                            }
                            assert(b == body);
                            assert forall|i: int| 0 <= i < found.len() implies all.contains(
                                (#[trigger] found[i]).direct_call_id@,
                            ) by {
                                assert(next[rest.len() + i] == found[i]);
                            }
                        }
                    }
                },
            }
        }
    }
}

/// Whether a path follows calls from its first body on.
pub open spec fn call_path(module: BodyIrModule, providers: Option<&ProviderRuntime>, path: Seq<Rc<Body>>) -> bool {
    forall|i: int| 0 <= i < path.len() - 1 ==> #[trigger] calls(module, providers, path, i)
}

/// Whether a body of a path calls the next one.
pub open spec fn calls(
    module: BodyIrModule,
    providers: Option<&ProviderRuntime>,
    path: Seq<Rc<Body>>,
    at: int,
) -> bool {
    match body_found(module, providers, *path[at]) {
        Ok(found) => found.contains(path[at + 1]),
        Err(_) => false,
    }
}

/// An entry that is not refused reaches no body that would be: along every chain of calls, every provider operation
/// has a host. The entry is a body of the module, and bodies have identities of their own.
pub proof fn law_reachable_operations_have_hosts(
    module: BodyIrModule,
    entry: Rc<Body>,
    providers: Option<&ProviderRuntime>,
    path: Seq<Rc<Body>>,
)
    requires
        distinct_identities(module),
        module.bodies@.contains(entry),
        host_refusal(module, entry, providers) is None,
        path.len() > 0,
        path[0] == entry,
        call_path(module, providers, path),
    ensures
        body_found(module, providers, contents(path.last())) is Ok,
{
    let ids = identities(module, entry);
    assert forall|i: int| 0 <= i < module.bodies@.len() implies ids.contains(
        (#[trigger] module.bodies@[i]).direct_call_id@,
    ) by {
        assert(ids[i] == module.bodies@[i].direct_call_id@);
    }
    lemma_visits(module, providers, ids, seq![entry], Set::empty());
    let all = all_visited(module, providers, ids, seq![entry], Set::empty());
    assert(all.contains(seq![entry][0].direct_call_id@));
    path_is_visited(module, providers, path, all, path.len() - 1);
}

proof fn path_is_visited(
    module: BodyIrModule,
    providers: Option<&ProviderRuntime>,
    path: Seq<Rc<Body>>,
    all: Set<Seq<char>>,
    at: int,
)
    requires
        0 <= at < path.len(),
        module.bodies@.contains(path[0]),
        all.contains(path[0].direct_call_id@),
        call_path(module, providers, path),
        forall|b: Rc<Body>|
            module.bodies@.contains(b) && all.contains(b.direct_call_id@) ==> #[trigger] leads_within(
                module,
                providers,
                b,
                all,
            ),
    ensures
        module.bodies@.contains(path[at]),
        all.contains(path[at].direct_call_id@),
        leads_within(module, providers, path[at], all),
    decreases at,
{
    if at > 0 {
        path_is_visited(module, providers, path, all, at - 1);
        assert(calls(module, providers, path, at - 1));
        body_finds_bodies_of_module(module, providers, path[at - 1]);
        match body_found(module, providers, contents(path[at - 1])) {
            Ok(found) => {
                let i = choose|i: int| 0 <= i < found.len() && found[i] == path[at];
                assert(all.contains(found[i].direct_call_id@));
                assert(module.bodies@.contains(found[i]));
            },
            Err(_) => {},
        }
    }
}

} // verus!
