//! The calls that stand in a body, wherever they stand.

use crate::body_ir::{
    ArgumentElement, Body, BodyIrModule, CallableParam, CallableParamDefault, CallableTarget, Callee, HirSourceSpan,
    MatchArm, NamedCallableTarget, RaceArm, Rvalue, Statement, StatementKind,
};
use crate::replacement::admission::callable_body;
use crate::replacement::admitted::bound_apart;
use crate::replacement::error::ErrorModel;
use crate::replacement::provider_preflight::{
    body_found, call_found, default_found, executes, match_found, params_found, race_found, rvalue_found,
    statement_found, statements_found, Found, ProviderRuntime,
};
use std::rc::Rc;
use vstd::prelude::*;

verus! {

// ---------------------------------------------------------------------------
// What holds of every call
// ---------------------------------------------------------------------------

/// Whether a call by name is resolved to a declaration, with arguments that are all bound.
pub open spec fn is_direct(target: NamedCallableTarget, args: Seq<ArgumentElement>) -> bool {
    &&& !target.builtin
    &&& target.direct_call_id is Some
    &&& forall|i: int| 0 <= i < args.len() ==> (#[trigger] args[i]) is One
    &&& bound_apart(target.binding)
}

/// Whether a call can be carried out: a provider's operation has a host, and a direct call has one body to reach.
pub open spec fn call_is_met(
    module: BodyIrModule,
    providers: Option<&ProviderRuntime>,
    callee: Callee,
    args: Seq<ArgumentElement>,
    span: HirSourceSpan,
) -> bool {
    match callee {
        Callee::ProviderOperation(plan) => providers matches Some(runtime) && executes(*runtime, plan.operation),
        Callee::Function(CallableTarget::Named(target)) => is_direct(target, args) ==> callable_body(
            module,
            target.name@,
            span,
        ) is Ok,
        _ => true,
    }
}

/// Whether a statement is a direct call that reaches a body.
pub open spec fn call_reaches(
    module: BodyIrModule,
    callee: Callee,
    args: Seq<ArgumentElement>,
    span: HirSourceSpan,
    body: Rc<Body>,
) -> bool {
    match callee {
        Callee::Function(CallableTarget::Named(target)) => is_direct(target, args) && callable_body(
            module,
            target.name@,
            span,
        ) == Ok::<_, ErrorModel>(body),
        _ => false,
    }
}

/// Whether all calls of a statement can be carried out, also those in its branches, its loop, its arms, and in the
/// closures, generators and matches that it computes.
pub open spec fn met(module: BodyIrModule, providers: Option<&ProviderRuntime>, statement: Statement) -> bool
    decreases statement, 0int,
{
    match statement.kind {
        StatementKind::Call { callee, args, .. } => call_is_met(module, providers, callee, args@, statement.span),
        StatementKind::Assign { rvalue, .. } => match rvalue {
            Rvalue::Closure { params, body, .. } => all_defaults_met(module, providers, params@) && all_met(
                module,
                providers,
                body.stmts@,
            ),
            Rvalue::Generator { body, .. } => all_met(module, providers, body.stmts@),
            Rvalue::Match { arms } => forall|i: int|
                0 <= i < arms@.len() ==> all_met(module, providers, (#[trigger] arms@[i]).guard_stmts@) && all_met(
                    module,
                    providers,
                    arms@[i].body_stmts@,
                ),
            _ => true,
        },
        StatementKind::If { then_block, else_block, .. } => all_met(module, providers, then_block.stmts@) && (
        else_block matches Some(block) ==> all_met(module, providers, block.stmts@)),
        StatementKind::Loop { body } => all_met(module, providers, body.stmts@),
        StatementKind::Race { arms } => forall|i: int|
            0 <= i < arms@.len() ==> all_met(module, providers, (#[trigger] arms@[i]).body.stmts@),
        _ => true,
    }
}

/// Whether all calls of a run of statements can be carried out.
pub open spec fn all_met(module: BodyIrModule, providers: Option<&ProviderRuntime>, stmts: Seq<Statement>) -> bool
    decreases stmts, 0int,
{
    forall|i: int| 0 <= i < stmts.len() ==> met(module, providers, #[trigger] stmts[i])
}

/// Whether all calls in the defaults of some parameters can be carried out.
pub open spec fn all_defaults_met(
    module: BodyIrModule,
    providers: Option<&ProviderRuntime>,
    params: Seq<CallableParam>,
) -> bool
    decreases params, 0int,
{
    forall|i: int|
        0 <= i < params.len() ==> ((#[trigger] params[i]).default matches CallableParamDefault::Source(computation)
            ==> all_met(module, providers, computation.stmts@))
}

/// Whether any call of a statement reaches a body, wherever it stands in the statement.
pub open spec fn reaches(module: BodyIrModule, statement: Statement, body: Rc<Body>) -> bool
    decreases statement, 0int,
{
    match statement.kind {
        StatementKind::Call { callee, args, .. } => call_reaches(module, callee, args@, statement.span, body),
        StatementKind::Assign { rvalue, .. } => match rvalue {
            Rvalue::Closure { params, body: inner, .. } => any_default_reaches(module, params@, body) || any_reaches(
                module,
                inner.stmts@,
                body,
            ),
            Rvalue::Generator { body: inner, .. } => any_reaches(module, inner.stmts@, body),
            Rvalue::Match { arms } => exists|i: int|
                0 <= i < arms@.len() && (any_reaches(module, (#[trigger] arms@[i]).guard_stmts@, body) || any_reaches(
                    module,
                    arms@[i].body_stmts@,
                    body,
                )),
            _ => false,
        },
        StatementKind::If { then_block, else_block, .. } => any_reaches(module, then_block.stmts@, body) || (
        else_block matches Some(block) && any_reaches(module, block.stmts@, body)),
        StatementKind::Loop { body: repeated } => any_reaches(module, repeated.stmts@, body),
        StatementKind::Race { arms } => exists|i: int|
            0 <= i < arms@.len() && any_reaches(module, (#[trigger] arms@[i]).body.stmts@, body),
        _ => false,
    }
}

/// Whether any call of a run of statements reaches a body.
pub open spec fn any_reaches(module: BodyIrModule, stmts: Seq<Statement>, body: Rc<Body>) -> bool
    decreases stmts, 0int,
{
    exists|i: int| 0 <= i < stmts.len() && reaches(module, #[trigger] stmts[i], body)
}

/// Whether any call in the defaults of some parameters reaches a body.
pub open spec fn any_default_reaches(module: BodyIrModule, params: Seq<CallableParam>, body: Rc<Body>) -> bool
    decreases params, 0int,
{
    exists|i: int|
        0 <= i < params.len() && ((#[trigger] params[i]).default matches CallableParamDefault::Source(computation)
            && any_reaches(module, computation.stmts@, body))
}

// ---------------------------------------------------------------------------
// Inspecting finds all of them
// ---------------------------------------------------------------------------

/// Whether what an inspection gave is what it should: bodies where all is met, and those that were found before or that
/// are reached.
spec fn gives(given: Found, found: Seq<Rc<Body>>, is_met: bool, body: Rc<Body>, is_reached: bool) -> bool {
    &&& given is Ok <==> is_met
    &&& given matches Ok(after) ==> (after.contains(body) <==> found.contains(body) || is_reached)
}

proof fn pushed(found: Seq<Rc<Body>>, next: Rc<Body>, body: Rc<Body>)
    ensures
        found.push(next).contains(body) <==> found.contains(body) || next == body,
{
    if found.contains(body) {
        let i = choose|i: int| 0 <= i < found.len() && found[i] == body;
        assert(found.push(next)[i] == body);
    }
    assert(found.push(next)[found.len() as int] == next);
    if found.push(next).contains(body) && next != body {
        let i = choose|i: int| 0 <= i < found.push(next).len() && found.push(next)[i] == body;
        assert(found[i] == body);
    }
}

proof fn call_gives(
    module: BodyIrModule,
    providers: Option<&ProviderRuntime>,
    statement: Statement,
    callee: &Callee,
    args: Seq<ArgumentElement>,
    found: Seq<Rc<Body>>,
    body: Rc<Body>,
)
    ensures
        gives(
            call_found(module, providers, statement, *callee, args, found),
            found,
            call_is_met(module, providers, *callee, args, statement.span),
            body,
            call_reaches(module, *callee, args, statement.span, body),
        ),
{
    match callee {
        Callee::Function(CallableTarget::Named(target)) => {
            match callable_body(module, target.name@, statement.span) {
                Ok(next) => pushed(found, next, body),
                Err(_) => {},
            }
        },
        _ => {},
    }
}

proof fn statement_gives(
    module: BodyIrModule,
    providers: Option<&ProviderRuntime>,
    statement: Statement,
    found: Seq<Rc<Body>>,
    body: Rc<Body>,
)
    ensures
        gives(
            statement_found(module, providers, statement, found),
            found,
            met(module, providers, statement),
            body,
            reaches(module, statement, body),
        ),
    decreases statement, 2int,
{
    match &statement.kind {
        StatementKind::Call { callee, args, .. } => {
            call_gives(module, providers, statement, callee, args@, found, body);
        },
        StatementKind::Assign { rvalue, .. } => {
            assert(statement_found(module, providers, statement, found) == rvalue_found(
                module,
                providers,
                *rvalue,
                found,
            ));
            match rvalue {
                Rvalue::Closure { params, body: inner, .. } => {
                    defaults_give(module, providers, params@, 0, found, body);
                    match params_found(module, providers, params@, 0, found) {
                        Ok(more) => law_every_call_is_inspected(module, providers, inner.stmts@, 0, more, body),
                        Err(_) => {},
                    }
                },
                Rvalue::Generator { body: inner, .. } => {
                    law_every_call_is_inspected(module, providers, inner.stmts@, 0, found, body);
                },
                Rvalue::Match { arms } => {
                    match_gives(module, providers, arms@, 0, found, body);
                },
                _ => {},
            }
        },
        StatementKind::If { then_block, else_block, .. } => {
            law_every_call_is_inspected(module, providers, then_block.stmts@, 0, found, body);
            match statements_found(module, providers, then_block.stmts@, 0, found) {
                Ok(more) => match else_block {
                    Some(block) => law_every_call_is_inspected(module, providers, block.stmts@, 0, more, body),
                    None => {},
                },
                Err(_) => {},
            }
        },
        StatementKind::Loop { body: repeated } => {
            law_every_call_is_inspected(module, providers, repeated.stmts@, 0, found, body);
        },
        StatementKind::Race { arms } => {
            race_gives(module, providers, arms@, 0, found, body);
        },
        _ => {},
    }
}

/// Inspecting a run of statements succeeds exactly where all calls in it can be carried out, wherever they stand. It then
/// gives the bodies found before and those that any call in it reaches, and no others.
pub proof fn law_every_call_is_inspected(
    module: BodyIrModule,
    providers: Option<&ProviderRuntime>,
    stmts: Seq<Statement>,
    from: int,
    found: Seq<Rc<Body>>,
    body: Rc<Body>,
)
    requires
        0 <= from,
    ensures
        statements_found(module, providers, stmts, from, found) is Ok <==> forall|i: int|
            from <= i < stmts.len() ==> met(module, providers, #[trigger] stmts[i]),
        statements_found(module, providers, stmts, from, found) matches Ok(after) ==> (after.contains(body)
            <==> found.contains(body) || exists|i: int|
            from <= i < stmts.len() && reaches(module, #[trigger] stmts[i], body)),
    decreases stmts, stmts.len() - from,
{
    if from < stmts.len() {
        statement_gives(module, providers, stmts[from], found, body);
        match statement_found(module, providers, stmts[from], found) {
            Ok(more) => law_every_call_is_inspected(module, providers, stmts, from + 1, more, body),
            Err(_) => {},
        }
    }
}

proof fn race_gives(
    module: BodyIrModule,
    providers: Option<&ProviderRuntime>,
    arms: Seq<RaceArm>,
    from: int,
    found: Seq<Rc<Body>>,
    body: Rc<Body>,
)
    requires
        0 <= from,
    ensures
        gives(
            race_found(module, providers, arms, from, found),
            found,
            forall|i: int| from <= i < arms.len() ==> all_met(module, providers, (#[trigger] arms[i]).body.stmts@),
            body,
            exists|i: int| from <= i < arms.len() && any_reaches(module, (#[trigger] arms[i]).body.stmts@, body),
        ),
    decreases arms, arms.len() - from,
{
    if from < arms.len() {
        let stmts = arms[from].body.stmts@;
        law_every_call_is_inspected(module, providers, stmts, 0, found, body);
        match statements_found(module, providers, stmts, 0, found) {
            Ok(more) => race_gives(module, providers, arms, from + 1, more, body),
            Err(_) => {},
        }
    }
}

proof fn match_gives(
    module: BodyIrModule,
    providers: Option<&ProviderRuntime>,
    arms: Seq<MatchArm>,
    from: int,
    found: Seq<Rc<Body>>,
    body: Rc<Body>,
)
    requires
        0 <= from,
    ensures
        gives(
            match_found(module, providers, arms, from, found),
            found,
            forall|i: int|
                from <= i < arms.len() ==> all_met(module, providers, (#[trigger] arms[i]).guard_stmts@) && all_met(
                    module,
                    providers,
                    arms[i].body_stmts@,
                ),
            body,
            exists|i: int|
                from <= i < arms.len() && (any_reaches(module, (#[trigger] arms[i]).guard_stmts@, body) || any_reaches(
                    module,
                    arms[i].body_stmts@,
                    body,
                )),
        ),
    decreases arms, arms.len() - from,
{
    if from < arms.len() {
        let (guard, inner) = (arms[from].guard_stmts@, arms[from].body_stmts@);
        law_every_call_is_inspected(module, providers, guard, 0, found, body);
        match statements_found(module, providers, guard, 0, found) {
            Ok(more) => {
                law_every_call_is_inspected(module, providers, inner, 0, more, body);
                match statements_found(module, providers, inner, 0, more) {
                    Ok(all) => match_gives(module, providers, arms, from + 1, all, body),
                    Err(_) => {},
                }
            },
            Err(_) => {},
        }
    }
}

proof fn defaults_give(
    module: BodyIrModule,
    providers: Option<&ProviderRuntime>,
    params: Seq<CallableParam>,
    from: int,
    found: Seq<Rc<Body>>,
    body: Rc<Body>,
)
    requires
        0 <= from,
    ensures
        gives(
            params_found(module, providers, params, from, found),
            found,
            forall|i: int|
                from <= i < params.len() ==> ((#[trigger] params[i]).default matches CallableParamDefault::Source(
                    computation,
                ) ==> all_met(module, providers, computation.stmts@)),
            body,
            exists|i: int|
                from <= i < params.len() && ((#[trigger] params[i]).default matches CallableParamDefault::Source(
                    computation,
                ) && any_reaches(module, computation.stmts@, body)),
        ),
    decreases params, params.len() - from,
{
    if from < params.len() {
        let default = params[from].default;
        match &default {
            CallableParamDefault::Source(computation) => {
                law_every_call_is_inspected(module, providers, computation.stmts@, 0, found, body);
                assert(default_found(module, providers, default, found) == statements_found(
                    module,
                    providers,
                    computation.stmts@,
                    0,
                    found,
                ));
            },
            _ => {
                assert(default_found(module, providers, default, found) == Ok::<
                    Seq<Rc<Body>>,
                    ErrorModel,
                >(found));
            },
        }
        match default_found(module, providers, default, found) {
            Ok(more) => defaults_give(module, providers, params, from + 1, more, body),
            Err(_) => {},
        }
    }
}

/// Inspecting a body succeeds exactly where all calls in its statements and in the defaults of its parameters can be
/// carried out, and gives exactly the bodies that any of them reaches.
pub proof fn law_bodies_are_inspected_whole(
    module: BodyIrModule,
    providers: Option<&ProviderRuntime>,
    inspected: &Body,
    body: Rc<Body>,
)
    ensures
        body_found(module, providers, *inspected) is Ok <==> all_defaults_met(module, providers, inspected.params@)
            && all_met(module, providers, inspected.block.stmts@),
        body_found(module, providers, *inspected) matches Ok(found) ==> (found.contains(body) <==> any_default_reaches(
            module,
            inspected.params@,
            body,
        ) || any_reaches(module, inspected.block.stmts@, body)),
{
    assert(!Seq::<Rc<Body>>::empty().contains(body));
    defaults_give(module, providers, inspected.params@, 0, Seq::empty(), body);
    match params_found(module, providers, inspected.params@, 0, Seq::empty()) {
        Ok(more) => law_every_call_is_inspected(module, providers, inspected.block.stmts@, 0, more, body),
        Err(_) => {},
    }
}

} // verus!
