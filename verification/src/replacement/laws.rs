//! What holds of every execution.

use crate::body_ir::{
    AbiV0RuntimeRequirement, ArgumentBinding, ArgumentElement, Body, BodyIrModule, BoundArgument, CallableParam,
    CallableParamDefault, CallableTarget, Callee, ClosureBody, DefaultComputation, HirSourceSpan,
    LocalCallableTarget, LocalId, NamedCallableTarget, Operand, Place, PlaceElem, PlaceOperand, Rvalue, Statement,
    StatementKind,
};
use crate::replacement::admission::{body_refusal, callable_body, first_named, free_function_refusal};
use crate::replacement::free_function::{function_run, leading_slots};
use crate::replacement::profile::{all_single, bare_refusal, element_operands};
use crate::replacement::semantics::{
    adapter_poll_run, adapter_receiver_run, arguments_run, asks_for, block_run, bound_run, call_run,
    callable_evidence, callee_run, callee_value_run, collect_receiver_run, collect_run, condition_run,
    default_evidence, default_run, earliest, evidenced, frame, frame_run, generator_poll_run,
    generator_statement_run, invoke_run, iterate_run, local_run, loop_run, merged, moved, named_run, next_step,
    operand_run, operands_run, parameter_run, poll_run, projected, recaptured, receiver_run, recorded,
    requirements_with, resume_run, resumed_frame, rvalue_run, sequence_run, statement_run, stepped, supplied_run,
    taken, no_values, noted, FlowModel, Machine, Run, MAX_EXECUTION_STEPS,
};
use crate::replacement::value::{
    environment, scalar, CallableModel, GeneratorCursor, GeneratorModel, ReplacementAdapterKind, ValueModel,
};
use std::rc::Rc;
use vstd::prelude::*;

verus! {

// ---------------------------------------------------------------------------
// Fuel
// ---------------------------------------------------------------------------

/// The body behind a shared pointer.
spec fn contents(body: Rc<Body>) -> Body {
    *body
}

/// The operand a callable body hands back.
spec fn outcome_of(body: Rc<ClosureBody>) -> Operand {
    body.result
}

/// Whether a run had fuel enough.
pub open spec fn enough<T>(run: Run<T>) -> bool {
    !(run matches Err(halt) && halt is Exhausted)
}

proof fn fuel_block(p: BodyIrModule, f: nat, g: nat, m: Machine, stmts: Seq<Statement>, from: int)
    requires
        f <= g,
        enough(block_run(p, f, m, stmts, from)),
    ensures
        block_run(p, g, m, stmts, from) == block_run(p, f, m, stmts, from),
    decreases f, stmts.len() - from,
{
    if 0 <= from < stmts.len() {
        match stepped(m, stmts[from].span) {
            Err(_) => {},
            Ok(next) => {
                fuel_statement(p, (f - 1) as nat, (g - 1) as nat, next, stmts[from]);
                match statement_run(p, (f - 1) as nat, next, stmts[from]) {
                    Ok((after, FlowModel::Next)) => {
                        fuel_block(p, f, g, after, stmts, from + 1);
                    },
                    _ => {},
                }
            },
        }
    }
}

proof fn fuel_sequence(
    p: BodyIrModule,
    f: nat,
    g: nat,
    m: Machine,
    stmts: Seq<Statement>,
    from: int,
    complaint: Seq<char>,
)
    requires
        f <= g,
        enough(sequence_run(p, f, m, stmts, from, complaint)),
    ensures
        sequence_run(p, g, m, stmts, from, complaint) == sequence_run(p, f, m, stmts, from, complaint),
    decreases f, stmts.len() - from,
{
    if 0 <= from < stmts.len() {
        fuel_statement(p, (f - 1) as nat, (g - 1) as nat, m, stmts[from]);
        match statement_run(p, (f - 1) as nat, m, stmts[from]) {
            Ok((after, FlowModel::Next)) => {
                fuel_sequence(p, f, g, after, stmts, from + 1, complaint);
            },
            _ => {},
        }
    }
}

proof fn fuel_statement(p: BodyIrModule, f: nat, g: nat, m: Machine, statement: Statement)
    requires
        f <= g,
        enough(statement_run(p, f, m, statement)),
    ensures
        statement_run(p, g, m, statement) == statement_run(p, f, m, statement),
    decreases f, 0int,
{
    let span = statement.span;
    let less = (f - 1) as nat;
    let more = (g - 1) as nat;
    match statement.kind {
        StatementKind::Call { destination, callee, args, .. } => {
            fuel_call(p, less, more, m, destination, callee, args@, span);
        },
        StatementKind::If { cond, then_block, else_block } => match condition_run(m, cond, span) {
            Err(_) => {},
            Ok((next, holds)) => {
                if holds {
                    fuel_block(p, less, more, next, then_block.stmts@, 0);
                } else {
                    match else_block {
                        Some(block) => {
                            fuel_block(p, less, more, next, block.stmts@, 0);
                        },
                        None => {},
                    }
                }
            },
        },
        StatementKind::Loop { body } => {
            fuel_loop(p, less, more, m, body.stmts@, span);
        },
        StatementKind::IterNext { destination, iterator, protocol } => {
            if protocol is Builtin {
                fuel_iterate(p, less, more, m, destination, iterator, span);
            }
        },
        _ => {},
    }
}

proof fn fuel_loop(p: BodyIrModule, f: nat, g: nat, m: Machine, stmts: Seq<Statement>, span: HirSourceSpan)
    requires
        f <= g,
        enough(loop_run(p, f, m, stmts, span)),
    ensures
        loop_run(p, g, m, stmts, span) == loop_run(p, f, m, stmts, span),
    decreases f, 0int,
{
    let less = (f - 1) as nat;
    let more = (g - 1) as nat;
    fuel_block(p, less, more, m, stmts, 0);
    match block_run(p, less, m, stmts, 0) {
        Err(_) => {},
        Ok((after, flow)) => {
            if flow is Next || flow is Continue {
                let counted = if stmts.len() == 0 {
                    Machine { steps: next_step(after.steps), ..after }
                } else {
                    after
                };
                if counted.steps < MAX_EXECUTION_STEPS {
                    fuel_loop(p, less, more, counted, stmts, span);
                }
            }
        },
    }
}

proof fn fuel_iterate(
    p: BodyIrModule,
    f: nat,
    g: nat,
    m: Machine,
    destination: Place,
    iterator: Operand,
    span: HirSourceSpan,
)
    requires
        f <= g,
        enough(iterate_run(p, f, m, destination, iterator, span)),
    ensures
        iterate_run(p, g, m, destination, iterator, span) == iterate_run(p, f, m, destination, iterator, span),
    decreases f, 0int,
{
    match receiver_run(
        m,
        iterator,
        span,
        "non-place builtin iterator"@,
        "read of an unavailable builtin iterator"@,
    ) {
        Err(_) => {},
        Ok((next, value)) => {
            fuel_poll(p, (f - 1) as nat, (g - 1) as nat, next, value, span);
        },
    }
}

proof fn fuel_call(
    p: BodyIrModule,
    f: nat,
    g: nat,
    m: Machine,
    destination: Option<Place>,
    callee: Callee,
    args: Seq<ArgumentElement>,
    span: HirSourceSpan,
)
    requires
        f <= g,
        enough(call_run(p, f, m, destination, callee, args, span)),
    ensures
        call_run(p, g, m, destination, callee, args, span) == call_run(p, f, m, destination, callee, args, span),
    decreases f, 0int,
{
    if all_single(args) {
        match destination {
            Some(place) => {
                if bare_refusal(place, span) is None {
                    fuel_callee(p, (f - 1) as nat, (g - 1) as nat, m, callee, element_operands(args), span);
                }
            },
            None => {},
        }
    }
}

proof fn fuel_callee(
    p: BodyIrModule,
    f: nat,
    g: nat,
    m: Machine,
    callee: Callee,
    args: Seq<Operand>,
    span: HirSourceSpan,
)
    requires
        f <= g,
        enough(callee_value_run(p, f, m, callee, args, span)),
    ensures
        callee_value_run(p, g, m, callee, args, span) == callee_value_run(p, f, m, callee, args, span),
    decreases f, 0int,
{
    let less = (f - 1) as nat;
    let more = (g - 1) as nat;
    match callee {
        Callee::Function(CallableTarget::Named(target)) => {
            if target.name@ != "range"@ {
                fuel_named(p, less, more, m, target, args, span);
            }
        },
        Callee::Function(CallableTarget::Local(target)) => {
            fuel_local(p, less, more, m, target, args, span);
        },
        Callee::Method(target) => {
            if target.name@ == "collect"@ && args.len() == 1 {
                match collect_receiver_run(m, args[0], span) {
                    Err(_) => {},
                    Ok((next, iterator)) => {
                        fuel_collect(p, less, more, next, iterator, Seq::empty(), span);
                    },
                }
            }
        },
        _ => {},
    }
}

proof fn fuel_local(
    p: BodyIrModule,
    f: nat,
    g: nat,
    m: Machine,
    target: LocalCallableTarget,
    args: Seq<Operand>,
    span: HirSourceSpan,
)
    requires
        f <= g,
        enough(local_run(p, f, m, target, args, span)),
    ensures
        local_run(p, g, m, target, args, span) == local_run(p, f, m, target, args, span),
    decreases f, 0int,
{
    let less = (f - 1) as nat;
    let more = (g - 1) as nat;
    match callee_run(m, target.operand, span) {
        Err(_) => {},
        Ok((next, callable)) => {
            if !recaptured(callable.captures) {
                match supplied_run(next, callable.params@, args, target.binding, span) {
                    Err(_) => {},
                    Ok((after, supplied)) => {
                        let env = environment(callable.captures);
                        fuel_bound(p, less, more, after, callable.params@, supplied, env, env, 0, span);
                        match bound_run(p, less, after, callable.params@, supplied, env, env, 0, span) {
                            Err(_) => {},
                            Ok((bound, locals)) => {
                                fuel_frame(p, less, more, bound, callable, locals, span, "stored callable"@);
                            },
                        }
                    },
                }
            }
        },
    }
}

proof fn fuel_frame(
    p: BodyIrModule,
    f: nat,
    g: nat,
    m: Machine,
    callable: CallableModel,
    env: Map<LocalId, ValueModel>,
    span: HirSourceSpan,
    kind: Seq<char>,
)
    requires
        f <= g,
        enough(frame_run(p, f, m, callable, env, span, kind)),
    ensures
        frame_run(p, g, m, callable, env, span, kind) == frame_run(p, f, m, callable, env, span, kind),
    decreases f, 0int,
{
    fuel_sequence(
        p,
        (f - 1) as nat,
        (g - 1) as nat,
        frame(env, m.steps),
        callable.body.stmts@,
        0,
        "control flow in a callable expression body"@,
    );
}

proof fn fuel_named(
    p: BodyIrModule,
    f: nat,
    g: nat,
    m: Machine,
    target: NamedCallableTarget,
    args: Seq<Operand>,
    span: HirSourceSpan,
)
    requires
        f <= g,
        enough(named_run(p, f, m, target, args, span)),
    ensures
        named_run(p, g, m, target, args, span) == named_run(p, f, m, target, args, span),
    decreases f, 0int,
{
    let less = (f - 1) as nat;
    let more = (g - 1) as nat;
    match callable_body(p, target.name@, span) {
        Err(_) => {},
        Ok(body) => {
            if body_refusal(contents(body)) is None {
                match supplied_run(m, body.params@, args, target.binding, span) {
                    Err(_) => {},
                    Ok((after, supplied)) => {
                        let none = Map::<LocalId, ValueModel>::empty();
                        fuel_bound(p, less, more, after, body.params@, supplied, none, none, 0, span);
                        match bound_run(p, less, after, body.params@, supplied, none, none, 0, span) {
                            Err(_) => {},
                            Ok((bound, env)) => {
                                if !body.yields {
                                    fuel_block(
                                        p,
                                        less,
                                        more,
                                        recorded(frame(env, bound.steps), contents(body)),
                                        body.block.stmts@,
                                        0,
                                    );
                                }
                            },
                        }
                    },
                }
            }
        },
    }
}

proof fn fuel_parameter(
    p: BodyIrModule,
    f: nat,
    g: nat,
    m: Machine,
    parameter: CallableParam,
    supplied: Option<ValueModel>,
    captures: Map<LocalId, ValueModel>,
    span: HirSourceSpan,
)
    requires
        f <= g,
        enough(parameter_run(p, f, m, parameter, supplied, captures, span)),
    ensures
        parameter_run(p, g, m, parameter, supplied, captures, span) == parameter_run(
            p,
            f,
            m,
            parameter,
            supplied,
            captures,
            span,
        ),
    decreases f, 0int,
{
    if supplied is None {
        match parameter.default {
            CallableParamDefault::Source(computation) => {
                fuel_default(p, (f - 1) as nat, (g - 1) as nat, m, computation);
            },
            _ => {},
        }
    }
}

proof fn fuel_bound(
    p: BodyIrModule,
    f: nat,
    g: nat,
    m: Machine,
    params: Seq<CallableParam>,
    supplied: Seq<Option<ValueModel>>,
    captures: Map<LocalId, ValueModel>,
    env: Map<LocalId, ValueModel>,
    from: int,
    span: HirSourceSpan,
)
    requires
        f <= g,
        enough(bound_run(p, f, m, params, supplied, captures, env, from, span)),
    ensures
        bound_run(p, g, m, params, supplied, captures, env, from, span) == bound_run(
            p,
            f,
            m,
            params,
            supplied,
            captures,
            env,
            from,
            span,
        ),
    decreases f, params.len() - from,
{
    if supplied.len() == params.len() && 0 <= from < params.len() {
        fuel_parameter(p, (f - 1) as nat, (g - 1) as nat, m, params[from], supplied[from], captures, span);
        match parameter_run(p, (f - 1) as nat, m, params[from], supplied[from], captures, span) {
            Err(_) => {},
            Ok((next, value)) => {
                if !env.contains_key(params[from].local) {
                    fuel_bound(
                        p,
                        f,
                        g,
                        next,
                        params,
                        supplied,
                        captures,
                        env.insert(params[from].local, value),
                        from + 1,
                        span,
                    );
                }
            },
        }
    }
}

proof fn fuel_default(p: BodyIrModule, f: nat, g: nat, m: Machine, computation: DefaultComputation)
    requires
        f <= g,
        enough(default_run(p, f, m, computation)),
    ensures
        default_run(p, g, m, computation) == default_run(p, f, m, computation),
    decreases f, 0int,
{
    fuel_sequence(
        p,
        (f - 1) as nat,
        (g - 1) as nat,
        frame(Map::empty(), m.steps),
        computation.stmts@,
        0,
        "control flow in a callable default computation"@,
    );
}

proof fn fuel_collect(
    p: BodyIrModule,
    f: nat,
    g: nat,
    m: Machine,
    iterator: ValueModel,
    items: Seq<ValueModel>,
    span: HirSourceSpan,
)
    requires
        f <= g,
        enough(collect_run(p, f, m, iterator, items, span)),
    ensures
        collect_run(p, g, m, iterator, items, span) == collect_run(p, f, m, iterator, items, span),
    decreases f, 0int,
{
    let less = (f - 1) as nat;
    let more = (g - 1) as nat;
    fuel_poll(p, less, more, m, iterator, span);
    match poll_run(p, less, m, iterator, span) {
        Err(_) => {},
        Ok((next, (iterator, item))) => match item {
            None => {},
            Some(item) => {
                fuel_collect(p, less, more, next, iterator, items.push(item), span);
            },
        },
    }
}

proof fn fuel_poll(p: BodyIrModule, f: nat, g: nat, m: Machine, value: ValueModel, span: HirSourceSpan)
    requires
        f <= g,
        enough(poll_run(p, f, m, value, span)),
    ensures
        poll_run(p, g, m, value, span) == poll_run(p, f, m, value, span),
    decreases f, 0int,
{
    let less = (f - 1) as nat;
    let more = (g - 1) as nat;
    match value {
        ValueModel::Generator(generator) => {
            fuel_generator(p, less, more, m, generator, span);
        },
        ValueModel::Adapter { source, callback, kind } => {
            fuel_adapter(p, less, more, m, *source, callback, kind, span);
        },
        _ => {},
    }
}

proof fn fuel_adapter(
    p: BodyIrModule,
    f: nat,
    g: nat,
    m: Machine,
    source: ValueModel,
    callback: CallableModel,
    kind: ReplacementAdapterKind,
    span: HirSourceSpan,
)
    requires
        f <= g,
        enough(adapter_poll_run(p, f, m, source, callback, kind, span)),
    ensures
        adapter_poll_run(p, g, m, source, callback, kind, span) == adapter_poll_run(
            p,
            f,
            m,
            source,
            callback,
            kind,
            span,
        ),
    decreases f, 0int,
{
    let less = (f - 1) as nat;
    let more = (g - 1) as nat;
    fuel_poll(p, less, more, m, source, span);
    match poll_run(p, less, m, source, span) {
        Err(_) => {},
        Ok((next, (source, item))) => match item {
            None => {},
            Some(item) => {
                fuel_invoke(p, less, more, next, callback, seq![Some(item)], span);
                match invoke_run(p, less, next, callback, seq![Some(item)], span) {
                    Err(_) => {},
                    Ok((after, answer)) => {
                        if kind is FilterItems && answer == ValueModel::Bool(false) {
                            fuel_adapter(p, less, more, after, source, callback, kind, span);
                        }
                    },
                }
            },
        },
    }
}

proof fn fuel_invoke(
    p: BodyIrModule,
    f: nat,
    g: nat,
    m: Machine,
    callable: CallableModel,
    supplied: Seq<Option<ValueModel>>,
    span: HirSourceSpan,
)
    requires
        f <= g,
        enough(invoke_run(p, f, m, callable, supplied, span)),
    ensures
        invoke_run(p, g, m, callable, supplied, span) == invoke_run(p, f, m, callable, supplied, span),
    decreases f, 0int,
{
    let less = (f - 1) as nat;
    let more = (g - 1) as nat;
    if !recaptured(callable.captures) {
        let env = environment(callable.captures);
        fuel_bound(p, less, more, m, callable.params@, supplied, env, env, 0, span);
        match bound_run(p, less, m, callable.params@, supplied, env, env, 0, span) {
            Err(_) => {},
            Ok((bound, locals)) => {
                fuel_frame(p, less, more, bound, callable, locals, span, "generator-adapter callback"@);
            },
        }
    }
}

proof fn fuel_generator(p: BodyIrModule, f: nat, g: nat, m: Machine, generator: GeneratorModel, span: HirSourceSpan)
    requires
        f <= g,
        enough(generator_poll_run(p, f, m, generator, span)),
    ensures
        generator_poll_run(p, g, m, generator, span) == generator_poll_run(p, f, m, generator, span),
    decreases f, 0int,
{
    if !generator.exhausted {
        fuel_resume(
            p,
            (f - 1) as nat,
            (g - 1) as nat,
            resumed_frame(m, generator),
            generator.cursors,
            span,
        );
    }
}

proof fn fuel_resume(
    p: BodyIrModule,
    f: nat,
    g: nat,
    m: Machine,
    cursors: Seq<GeneratorCursor>,
    span: HirSourceSpan,
)
    requires
        f <= g,
        enough(resume_run(p, f, m, cursors, span)),
    ensures
        resume_run(p, g, m, cursors, span) == resume_run(p, f, m, cursors, span),
    decreases f, 0int,
{
    let less = (f - 1) as nat;
    let more = (g - 1) as nat;
    if cursors.len() > 0 {
        let cursor = cursors.last();
        if cursor.next >= cursor.statements@.len() {
            if !cursor.is_loop {
                fuel_resume(p, less, more, m, cursors.drop_last(), span);
            } else if cursor.statements@.len() == 0 {
                match stepped(m, span) {
                    Err(_) => {},
                    Ok(next) => {
                        fuel_resume(p, less, more, next, moved(cursors, 0), span);
                    },
                }
            } else {
                fuel_resume(p, less, more, m, moved(cursors, 0), span);
            }
        } else {
            let statement = cursor.statements@[cursor.next as int];
            match stepped(m, statement.span) {
                Err(_) => {},
                Ok(next) => {
                    let ahead = moved(cursors, (cursor.next + 1) as usize);
                    fuel_generator_statement(p, less, more, next, ahead, statement);
                    match generator_statement_run(p, less, next, ahead, statement) {
                        Err(_) => {},
                        Ok((after, (cursors, done, item))) => {
                            if !done && item is None && after.steps < MAX_EXECUTION_STEPS {
                                fuel_resume(p, less, more, after, cursors, span);
                            }
                        },
                    }
                },
            }
        }
    }
}

proof fn fuel_generator_statement(
    p: BodyIrModule,
    f: nat,
    g: nat,
    m: Machine,
    cursors: Seq<GeneratorCursor>,
    statement: Statement,
)
    requires
        f <= g,
        enough(generator_statement_run(p, f, m, cursors, statement)),
    ensures
        generator_statement_run(p, g, m, cursors, statement) == generator_statement_run(p, f, m, cursors, statement),
    decreases f, 0int,
{
    match statement.kind {
        StatementKind::Yield { .. } => {},
        StatementKind::If { .. } => {},
        StatementKind::Loop { .. } => {},
        StatementKind::Break { .. } => {},
        StatementKind::Continue => {},
        StatementKind::Return { .. } => {},
        _ => {
            fuel_statement(p, (f - 1) as nat, (g - 1) as nat, m, statement);
        },
    }
}

/// More fuel changes nothing: a run that is not exhausted gives the same with any larger amount.
pub proof fn law_fuel_does_not_matter(p: BodyIrModule, fuel: nat, more: nat, name: Seq<char>, args: Seq<ValueModel>)
    requires
        fuel <= more,
        !(function_run(p, fuel, name, args) matches Err(halt) && halt is Exhausted),
    ensures
        function_run(p, more, name, args) == function_run(p, fuel, name, args),
{
    match first_named(p.bodies@, 0, name) {
        None => {},
        Some(body) => {
            if free_function_refusal(p, name, args) is None && args.len() <= body.params@.len() {
                let none = Map::<LocalId, ValueModel>::empty();
                let start = recorded(frame(none, 0), contents(body));
                let slots = leading_slots(args, body.params@.len());
                fuel_bound(p, fuel, more, start, body.params@, slots, none, none, 0, body.span);
                match bound_run(p, fuel, start, body.params@, slots, none, none, 0, body.span) {
                    Err(_) => {},
                    Ok((m, env)) => {
                        fuel_block(p, fuel, more, Machine { locals: env, ..m }, body.block.stmts@, 0);
                    },
                }
            }
        },
    }
}

// ---------------------------------------------------------------------------
// Evidence and step counts
// ---------------------------------------------------------------------------

/// Whether one run begins with another.
pub open spec fn begins<T>(whole: Seq<T>, start: Seq<T>) -> bool {
    start.len() <= whole.len() && whole.take(start.len() as int) == start
}

/// Whether a later state keeps all evidence of an earlier one and counts no fewer statements.
pub open spec fn grew(m: Machine, n: Machine) -> bool {
    &&& m.steps <= n.steps
    &&& begins(n.reads, m.reads)
    &&& begins(n.requirements, m.requirements)
    &&& begins(n.snapshots, m.snapshots)
}

/// Whether a run, where it gives a result, keeps all evidence and counts no fewer statements.
pub open spec fn grows<T>(m: Machine, run: Run<T>) -> bool {
    run matches Ok(done) ==> grew(m, done.0)
}

proof fn begins_more<T>(start: Seq<T>, more: Seq<T>)
    ensures
        begins(start + more, start),
{
    assert((start + more).take(start.len() as int) =~= start);
}

proof fn begins_pushed<T>(start: Seq<T>, next: T)
    ensures
        begins(start.push(next), start),
{
    assert(start.push(next).take(start.len() as int) =~= start);
}

proof fn begins_still<T>(a: Seq<T>, b: Seq<T>, c: Seq<T>)
    requires
        begins(b, a),
        begins(c, b),
    ensures
        begins(c, a),
{
    assert(c.take(a.len() as int) =~= c.take(b.len() as int).take(a.len() as int));
}

proof fn grew_same(m: Machine)
    ensures
        grew(m, m),
{
    assert(m.reads.take(m.reads.len() as int) =~= m.reads);
    assert(m.requirements.take(m.requirements.len() as int) =~= m.requirements);
    assert(m.snapshots.take(m.snapshots.len() as int) =~= m.snapshots);
}

proof fn grew_still(a: Machine, b: Machine, c: Machine)
    requires
        grew(a, b),
        grew(b, c),
    ensures
        grew(a, c),
{
    begins_still(a.reads, b.reads, c.reads);
    begins_still(a.requirements, b.requirements, c.requirements);
    begins_still(a.snapshots, b.snapshots, c.snapshots);
}

proof fn requirements_grow(
    requirements: Seq<AbiV0RuntimeRequirement>,
    more: Seq<AbiV0RuntimeRequirement>,
    from: int,
)
    ensures
        begins(requirements_with(requirements, more, from), requirements),
    decreases more.len() - from,
{
    assert(requirements.take(requirements.len() as int) =~= requirements);
    if 0 <= from < more.len() {
        if asks_for(requirements, more[from]) {
            requirements_grow(requirements, more, from + 1);
        } else {
            let pushed = requirements.push(more[from]);
            requirements_grow(pushed, more, from + 1);
            begins_pushed(requirements, more[from]);
            begins_still(requirements, pushed, requirements_with(pushed, more, from + 1));
        }
    }
}

proof fn grew_noted(m: Machine, read: PlaceOperand, span: HirSourceSpan)
    ensures
        grew(m, noted(m, read, span)),
{
    grew_same(m);
    begins_pushed(m.reads, noted(m, read, span).reads.last());
}

proof fn grew_merged(m: Machine, child: Machine, evidence: Seq<char>)
    requires
        m.steps <= child.steps,
    ensures
        grew(m, merged(m, child)),
        grew(m, evidenced(merged(m, child), evidence)),
{
    begins_more(m.reads, child.reads);
    begins_more(m.snapshots, child.snapshots);
    requirements_grow(m.requirements, child.requirements, 0);
    begins_pushed(m.snapshots + child.snapshots, evidence);
    begins_still(m.snapshots, m.snapshots + child.snapshots, (m.snapshots + child.snapshots).push(evidence));
}

proof fn grow_stepped(m: Machine, span: HirSourceSpan)
    ensures
        stepped(m, span) matches Ok(n) ==> grew(m, n),
{
    grew_same(m);
}

proof fn grow_operand(m: Machine, operand: Operand, span: HirSourceSpan)
    ensures
        grows(m, operand_run(m, operand, span)),
    decreases operand,
{
    grew_same(m);
    match operand {
        Operand::Constant(_) => {},
        Operand::Place(read) => {
            let seen = noted(m, read, span);
            grew_noted(m, read, span);
            grew_same(seen);
            match taken(seen, read, span) {
                Err(_) => {},
                Ok((next, value)) => {
                    assert(grew(seen, next));
                    grow_projected(next, value, read.place, span);
                    match projected(next, value, read.place, span) {
                        Err(_) => {},
                        Ok((after, _)) => {
                            grew_still(m, seen, next);
                            grew_still(m, next, after);
                        },
                    }
                },
            }
        },
    }
}

proof fn grow_projected(m: Machine, value: ValueModel, place: Place, span: HirSourceSpan)
    ensures
        grows(m, projected(m, value, place, span)),
    decreases place,
{
    grew_same(m);
    if place.projection@.len() == 1 {
        match place.projection@[0] {
            PlaceElem::Index(index) => {
                grow_operand(m, *index, span);
            },
            _ => {},
        }
    }
}

proof fn grow_operands(m: Machine, operands: Seq<Operand>, from: int, values: Seq<ValueModel>, span: HirSourceSpan)
    ensures
        grows(m, operands_run(m, operands, from, values, span)),
    decreases operands.len() - from,
{
    grew_same(m);
    if 0 <= from < operands.len() {
        grow_operand(m, operands[from], span);
        match operand_run(m, operands[from], span) {
            Err(_) => {},
            Ok((next, value)) => {
                grow_operands(next, operands, from + 1, values.push(value), span);
                match operands_run(next, operands, from + 1, values.push(value), span) {
                    Err(_) => {},
                    Ok((after, _)) => {
                        grew_still(m, next, after);
                    },
                }
            },
        }
    }
}

proof fn grow_two(m: Machine, left: Operand, right: Operand, span: HirSourceSpan)
    ensures
        grows(m, operand_run(m, left, span)),
        operand_run(m, left, span) matches Ok(done) ==> grows(m, operand_run(done.0, right, span)),
{
    grow_operand(m, left, span);
    match operand_run(m, left, span) {
        Err(_) => {},
        Ok((next, _)) => {
            grow_operand(next, right, span);
            match operand_run(next, right, span) {
                Err(_) => {},
                Ok((after, _)) => {
                    grew_still(m, next, after);
                },
            }
        },
    }
}

proof fn grow_rvalue(m: Machine, rvalue: Rvalue, span: HirSourceSpan)
    ensures
        grows(m, rvalue_run(m, rvalue, span)),
{
    match rvalue {
        Rvalue::Use(operand) => {
            grow_operand(m, operand, span);
        },
        Rvalue::UnaryOp(_, operand) => {
            grow_operand(m, operand, span);
        },
        Rvalue::BinaryOp(_, left, right) => {
            grow_two(m, left, right, span);
        },
        Rvalue::Aggregate(_, elements) => {
            grow_operands(m, element_operands(elements@), 0, Seq::empty(), span);
        },
        Rvalue::Closure { captured_operands, .. } => {
            grow_operands(m, captured_operands@, 0, Seq::empty(), span);
        },
        Rvalue::Generator { source, captured_operands, .. } => {
            grow_operand(m, source, span);
            match operand_run(m, source, span) {
                Err(_) => {},
                Ok((next, _)) => {
                    grow_operands(next, captured_operands@, 0, Seq::empty(), span);
                    match operands_run(next, captured_operands@, 0, Seq::empty(), span) {
                        Err(_) => {},
                        Ok((after, _)) => {
                            grew_still(m, next, after);
                        },
                    }
                },
            }
        },
        _ => {},
    }
}

proof fn grow_receiver(m: Machine, receiver: Operand, span: HirSourceSpan, no_place: Seq<char>, missing: Seq<char>)
    ensures
        grows(m, receiver_run(m, receiver, span, no_place, missing)),
{
    match receiver {
        Operand::Constant(_) => {},
        Operand::Place(read) => {
            grew_noted(m, read, span);
        },
    }
}

proof fn grow_arguments(
    m: Machine,
    arguments: Seq<BoundArgument>,
    args: Seq<Operand>,
    done: Seq<bool>,
    round: int,
    supplied: Seq<Option<ValueModel>>,
    span: HirSourceSpan,
)
    ensures
        grows(m, arguments_run(m, arguments, args, done, round, supplied, span)),
    decreases arguments.len() - round,
{
    grew_same(m);
    if 0 <= round < arguments.len() {
        match earliest(arguments, done, 0, None) {
            None => {},
            Some(at) => {
                grow_operand(m, args[at], span);
                match operand_run(m, args[at], span) {
                    Err(_) => {},
                    Ok((next, value)) => {
                        let slots = supplied.update(arguments[at].slot as int, Some(value));
                        let marks = done.update(at, true);
                        grow_arguments(next, arguments, args, marks, round + 1, slots, span);
                        match arguments_run(next, arguments, args, marks, round + 1, slots, span) {
                            Err(_) => {},
                            Ok((after, _)) => {
                                grew_still(m, next, after);
                            },
                        }
                    },
                }
            },
        }
    }
}

proof fn grow_supplied(
    m: Machine,
    params: Seq<CallableParam>,
    args: Seq<Operand>,
    binding: ArgumentBinding,
    span: HirSourceSpan,
)
    ensures
        grows(m, supplied_run(m, params, args, binding, span)),
{
    match binding {
        ArgumentBinding::UnresolvedPositional => {},
        ArgumentBinding::Resolved { arguments, .. } => {
            grow_arguments(
                m,
                arguments@,
                args,
                Seq::new(arguments@.len(), |i: int| false),
                0,
                no_values(params.len()),
                span,
            );
        },
    }
}

proof fn grow_block(p: BodyIrModule, fuel: nat, m: Machine, stmts: Seq<Statement>, from: int)
    ensures
        grows(m, block_run(p, fuel, m, stmts, from)),
    decreases fuel, stmts.len() - from,
{
    grew_same(m);
    if 0 <= from < stmts.len() && fuel > 0 {
        grow_stepped(m, stmts[from].span);
        match stepped(m, stmts[from].span) {
            Err(_) => {},
            Ok(next) => {
                grow_statement(p, (fuel - 1) as nat, next, stmts[from]);
                match statement_run(p, (fuel - 1) as nat, next, stmts[from]) {
                    Err(_) => {},
                    Ok((after, flow)) => {
                        grew_still(m, next, after);
                        if flow is Next {
                            grow_block(p, fuel, after, stmts, from + 1);
                            match block_run(p, fuel, after, stmts, from + 1) {
                                Err(_) => {},
                                Ok((end, _)) => {
                                    grew_still(m, after, end);
                                },
                            }
                        }
                    },
                }
            },
        }
    }
}

proof fn grow_sequence(
    p: BodyIrModule,
    fuel: nat,
    m: Machine,
    stmts: Seq<Statement>,
    from: int,
    complaint: Seq<char>,
)
    ensures
        grows(m, sequence_run(p, fuel, m, stmts, from, complaint)),
    decreases fuel, stmts.len() - from,
{
    grew_same(m);
    if 0 <= from < stmts.len() && fuel > 0 {
        grow_statement(p, (fuel - 1) as nat, m, stmts[from]);
        match statement_run(p, (fuel - 1) as nat, m, stmts[from]) {
            Err(_) => {},
            Ok((after, flow)) => {
                if flow is Next {
                    grow_sequence(p, fuel, after, stmts, from + 1, complaint);
                    match sequence_run(p, fuel, after, stmts, from + 1, complaint) {
                        Err(_) => {},
                        Ok((end, _)) => {
                            grew_still(m, after, end);
                        },
                    }
                }
            },
        }
    }
}

proof fn grow_statement(p: BodyIrModule, fuel: nat, m: Machine, statement: Statement)
    ensures
        grows(m, statement_run(p, fuel, m, statement)),
    decreases fuel, 0int,
{
    grew_same(m);
    if fuel > 0 {
        let span = statement.span;
        let less = (fuel - 1) as nat;
        match statement.kind {
            StatementKind::Assign { rvalue, .. } => {
                grow_rvalue(m, rvalue, span);
            },
            StatementKind::Call { destination, callee, args, .. } => {
                grow_call(p, less, m, destination, callee, args@, span);
            },
            StatementKind::If { cond, then_block, else_block } => {
                grow_operand(m, cond, span);
                match condition_run(m, cond, span) {
                    Err(_) => {},
                    Ok((next, holds)) => {
                        let stmts = if holds {
                            then_block.stmts@
                        } else {
                            match else_block {
                                Some(block) => block.stmts@,
                                None => Seq::empty(),
                            }
                        };
                        grow_block(p, less, next, stmts, 0);
                        match block_run(p, less, next, stmts, 0) {
                            Err(_) => {},
                            Ok((after, _)) => {
                                grew_still(m, next, after);
                            },
                        }
                    },
                }
            },
            StatementKind::Loop { body } => {
                grow_loop(p, less, m, body.stmts@, span);
            },
            StatementKind::Return { value } => match value {
                Some(operand) => {
                    grow_operand(m, operand, span);
                },
                None => {},
            },
            StatementKind::Assert { cond, .. } => {
                grow_operand(m, cond, span);
            },
            StatementKind::Expr { value } => {
                grow_operand(m, value, span);
            },
            StatementKind::IterNext { destination, iterator, .. } => {
                grow_iterate(p, less, m, destination, iterator, span);
            },
            _ => {},
        }
    }
}

proof fn grow_loop(p: BodyIrModule, fuel: nat, m: Machine, stmts: Seq<Statement>, span: HirSourceSpan)
    ensures
        grows(m, loop_run(p, fuel, m, stmts, span)),
    decreases fuel, 0int,
{
    if fuel > 0 {
        let less = (fuel - 1) as nat;
        grow_block(p, less, m, stmts, 0);
        match block_run(p, less, m, stmts, 0) {
            Err(_) => {},
            Ok((after, flow)) => {
                let counted = if stmts.len() == 0 {
                    Machine { steps: next_step(after.steps), ..after }
                } else {
                    after
                };
                grew_same(after);
                assert(grew(after, counted));
                grew_still(m, after, counted);
                if flow is Next || flow is Continue {
                    grow_loop(p, less, counted, stmts, span);
                    match loop_run(p, less, counted, stmts, span) {
                        Err(_) => {},
                        Ok((end, _)) => {
                            grew_still(m, counted, end);
                        },
                    }
                }
            },
        }
    }
}

proof fn grow_iterate(
    p: BodyIrModule,
    fuel: nat,
    m: Machine,
    destination: Place,
    iterator: Operand,
    span: HirSourceSpan,
)
    ensures
        grows(m, iterate_run(p, fuel, m, destination, iterator, span)),
    decreases fuel, 0int,
{
    if fuel > 0 {
        let no_place = "non-place builtin iterator"@;
        let missing = "read of an unavailable builtin iterator"@;
        grow_receiver(m, iterator, span, no_place, missing);
        match receiver_run(m, iterator, span, no_place, missing) {
            Err(_) => {},
            Ok((next, value)) => {
                grow_poll(p, (fuel - 1) as nat, next, value, span);
                match poll_run(p, (fuel - 1) as nat, next, value, span) {
                    Err(_) => {},
                    Ok((after, _)) => {
                        grew_still(m, next, after);
                    },
                }
            },
        }
    }
}

proof fn grow_call(
    p: BodyIrModule,
    fuel: nat,
    m: Machine,
    destination: Option<Place>,
    callee: Callee,
    args: Seq<ArgumentElement>,
    span: HirSourceSpan,
)
    ensures
        grows(m, call_run(p, fuel, m, destination, callee, args, span)),
    decreases fuel, 0int,
{
    if fuel > 0 {
        grow_callee(p, (fuel - 1) as nat, m, callee, element_operands(args), span);
    }
}

proof fn grow_callee(
    p: BodyIrModule,
    fuel: nat,
    m: Machine,
    callee: Callee,
    args: Seq<Operand>,
    span: HirSourceSpan,
)
    ensures
        grows(m, callee_value_run(p, fuel, m, callee, args, span)),
    decreases fuel, 0int,
{
    if fuel > 0 {
        let less = (fuel - 1) as nat;
        match callee {
            Callee::Helper(_) => {
                grow_two(m, args[0], args[1], span);
            },
            Callee::Function(CallableTarget::Named(target)) => {
                grow_operands(m, args, 0, Seq::empty(), span);
                grow_named(p, less, m, target, args, span);
            },
            Callee::Function(CallableTarget::Local(target)) => {
                grow_local(p, less, m, target, args, span);
            },
            Callee::Method(target) => {
                if target.name@ == "collect"@ {
                    grow_receiver(
                        m,
                        args[0],
                        span,
                        "non-place generator collect receiver"@,
                        "read of an unavailable generator receiver"@,
                    );
                    match collect_receiver_run(m, args[0], span) {
                        Err(_) => {},
                        Ok((next, iterator)) => {
                            grow_collect(p, less, next, iterator, Seq::empty(), span);
                            match collect_run(p, less, next, iterator, Seq::empty(), span) {
                                Err(_) => {},
                                Ok((after, _)) => {
                                    grew_still(m, next, after);
                                },
                            }
                        },
                    }
                } else {
                    grow_receiver(
                        m,
                        args[0],
                        span,
                        "non-place generator adapter receiver"@,
                        "read of an unavailable generator adapter receiver"@,
                    );
                    match adapter_receiver_run(m, args[0], span) {
                        Err(_) => {},
                        Ok((next, _)) => {
                            grow_operand(next, args[1], span);
                            match operand_run(next, args[1], span) {
                                Err(_) => {},
                                Ok((after, _)) => {
                                    grew_still(m, next, after);
                                },
                            }
                        },
                    }
                }
            },
            _ => {},
        }
    }
}

proof fn grow_local(
    p: BodyIrModule,
    fuel: nat,
    m: Machine,
    target: LocalCallableTarget,
    args: Seq<Operand>,
    span: HirSourceSpan,
)
    ensures
        grows(m, local_run(p, fuel, m, target, args, span)),
    decreases fuel, 0int,
{
    if fuel > 0 {
        let less = (fuel - 1) as nat;
        grew_noted(m, target.operand, span);
        match callee_run(m, target.operand, span) {
            Err(_) => {},
            Ok((next, callable)) => {
                assert(grew(m, next));
                grow_supplied(next, callable.params@, args, target.binding, span);
                match supplied_run(next, callable.params@, args, target.binding, span) {
                    Err(_) => {},
                    Ok((after, supplied)) => {
                        grew_still(m, next, after);
                        let env = environment(callable.captures);
                        grow_bound(p, less, after, callable.params@, supplied, env, env, 0, span);
                        match bound_run(p, less, after, callable.params@, supplied, env, env, 0, span) {
                            Err(_) => {},
                            Ok((bound, locals)) => {
                                grew_still(m, after, bound);
                                grow_frame(p, less, bound, callable, locals, span, "stored callable"@);
                                match frame_run(p, less, bound, callable, locals, span, "stored callable"@) {
                                    Err(_) => {},
                                    Ok((end, _)) => {
                                        grew_still(m, bound, end);
                                    },
                                }
                            },
                        }
                    },
                }
            },
        }
    }
}

proof fn grow_frame(
    p: BodyIrModule,
    fuel: nat,
    m: Machine,
    callable: CallableModel,
    env: Map<LocalId, ValueModel>,
    span: HirSourceSpan,
    kind: Seq<char>,
)
    ensures
        grows(m, frame_run(p, fuel, m, callable, env, span, kind)),
    decreases fuel, 0int,
{
    if fuel > 0 {
        let fresh = frame(env, m.steps);
        let complaint = "control flow in a callable expression body"@;
        grow_sequence(p, (fuel - 1) as nat, fresh, callable.body.stmts@, 0, complaint);
        match sequence_run(p, (fuel - 1) as nat, fresh, callable.body.stmts@, 0, complaint) {
            Err(_) => {},
            Ok((child, _)) => {
                grow_operand(child, outcome_of(callable.body), span);
                match operand_run(child, outcome_of(callable.body), span) {
                    Err(_) => {},
                    Ok((end, _)) => {
                        grew_merged(m, end, callable_evidence(callable, span, kind));
                    },
                }
            },
        }
    }
}

proof fn grow_named(
    p: BodyIrModule,
    fuel: nat,
    m: Machine,
    target: NamedCallableTarget,
    args: Seq<Operand>,
    span: HirSourceSpan,
)
    ensures
        grows(m, named_run(p, fuel, m, target, args, span)),
    decreases fuel, 0int,
{
    if fuel > 0 {
        let less = (fuel - 1) as nat;
        match callable_body(p, target.name@, span) {
            Err(_) => {},
            Ok(body) => {
                grow_supplied(m, body.params@, args, target.binding, span);
                match supplied_run(m, body.params@, args, target.binding, span) {
                    Err(_) => {},
                    Ok((after, supplied)) => {
                        let none = Map::<LocalId, ValueModel>::empty();
                        grow_bound(p, less, after, body.params@, supplied, none, none, 0, span);
                        match bound_run(p, less, after, body.params@, supplied, none, none, 0, span) {
                            Err(_) => {},
                            Ok((bound, env)) => {
                                grew_still(m, after, bound);
                                let fresh = recorded(frame(env, bound.steps), contents(body));
                                grow_block(p, less, fresh, body.block.stmts@, 0);
                                match block_run(p, less, fresh, body.block.stmts@, 0) {
                                    Err(_) => {},
                                    Ok((child, _)) => {
                                        grew_merged(bound, child, Seq::empty());
                                        grew_still(m, bound, merged(bound, child));
                                    },
                                }
                            },
                        }
                    },
                }
            },
        }
    }
}

proof fn grow_bound(
    p: BodyIrModule,
    fuel: nat,
    m: Machine,
    params: Seq<CallableParam>,
    supplied: Seq<Option<ValueModel>>,
    captures: Map<LocalId, ValueModel>,
    env: Map<LocalId, ValueModel>,
    from: int,
    span: HirSourceSpan,
)
    ensures
        grows(m, bound_run(p, fuel, m, params, supplied, captures, env, from, span)),
    decreases fuel, params.len() - from,
{
    grew_same(m);
    if supplied.len() == params.len() && 0 <= from < params.len() && fuel > 0 {
        grow_parameter(p, (fuel - 1) as nat, m, params[from], supplied[from], captures, span);
        match parameter_run(p, (fuel - 1) as nat, m, params[from], supplied[from], captures, span) {
            Err(_) => {},
            Ok((next, value)) => {
                let wider = env.insert(params[from].local, value);
                grow_bound(p, fuel, next, params, supplied, captures, wider, from + 1, span);
                match bound_run(p, fuel, next, params, supplied, captures, wider, from + 1, span) {
                    Err(_) => {},
                    Ok((after, _)) => {
                        grew_still(m, next, after);
                    },
                }
            },
        }
    }
}

proof fn grow_parameter(
    p: BodyIrModule,
    fuel: nat,
    m: Machine,
    parameter: CallableParam,
    supplied: Option<ValueModel>,
    captures: Map<LocalId, ValueModel>,
    span: HirSourceSpan,
)
    ensures
        grows(m, parameter_run(p, fuel, m, parameter, supplied, captures, span)),
    decreases fuel, 0int,
{
    grew_same(m);
    if fuel > 0 {
        match parameter.default {
            CallableParamDefault::Source(computation) => {
                grow_default(p, (fuel - 1) as nat, m, computation);
            },
            _ => {},
        }
    }
}

proof fn grow_default(p: BodyIrModule, fuel: nat, m: Machine, computation: DefaultComputation)
    ensures
        grows(m, default_run(p, fuel, m, computation)),
    decreases fuel, 0int,
{
    if fuel > 0 {
        let fresh = frame(Map::empty(), m.steps);
        let complaint = "control flow in a callable default computation"@;
        grow_sequence(p, (fuel - 1) as nat, fresh, computation.stmts@, 0, complaint);
        match sequence_run(p, (fuel - 1) as nat, fresh, computation.stmts@, 0, complaint) {
            Err(_) => {},
            Ok((child, _)) => {
                grow_operand(child, computation.result, computation.span);
                match operand_run(child, computation.result, computation.span) {
                    Err(_) => {},
                    Ok((end, _)) => {
                        grew_merged(m, end, default_evidence(computation));
                    },
                }
            },
        }
    }
}

proof fn grow_collect(
    p: BodyIrModule,
    fuel: nat,
    m: Machine,
    iterator: ValueModel,
    items: Seq<ValueModel>,
    span: HirSourceSpan,
)
    ensures
        grows(m, collect_run(p, fuel, m, iterator, items, span)),
    decreases fuel, 0int,
{
    if fuel > 0 {
        let less = (fuel - 1) as nat;
        grow_poll(p, less, m, iterator, span);
        match poll_run(p, less, m, iterator, span) {
            Err(_) => {},
            Ok((next, (iterator, item))) => match item {
                None => {},
                Some(item) => {
                    grow_collect(p, less, next, iterator, items.push(item), span);
                    match collect_run(p, less, next, iterator, items.push(item), span) {
                        Err(_) => {},
                        Ok((after, _)) => {
                            grew_still(m, next, after);
                        },
                    }
                },
            },
        }
    }
}

proof fn grow_poll(p: BodyIrModule, fuel: nat, m: Machine, value: ValueModel, span: HirSourceSpan)
    ensures
        grows(m, poll_run(p, fuel, m, value, span)),
    decreases fuel, 0int,
{
    grew_same(m);
    if fuel > 0 {
        let less = (fuel - 1) as nat;
        match value {
            ValueModel::Generator(generator) => {
                grow_generator(p, less, m, generator, span);
            },
            ValueModel::Adapter { source, callback, kind } => {
                grow_adapter(p, less, m, *source, callback, kind, span);
            },
            _ => {},
        }
    }
}

proof fn grow_adapter(
    p: BodyIrModule,
    fuel: nat,
    m: Machine,
    source: ValueModel,
    callback: CallableModel,
    kind: ReplacementAdapterKind,
    span: HirSourceSpan,
)
    ensures
        grows(m, adapter_poll_run(p, fuel, m, source, callback, kind, span)),
    decreases fuel, 0int,
{
    if fuel > 0 {
        let less = (fuel - 1) as nat;
        grow_poll(p, less, m, source, span);
        match poll_run(p, less, m, source, span) {
            Err(_) => {},
            Ok((next, (source, item))) => match item {
                None => {},
                Some(item) => {
                    grow_invoke(p, less, next, callback, seq![Some(item)], span);
                    match invoke_run(p, less, next, callback, seq![Some(item)], span) {
                        Err(_) => {},
                        Ok((after, _)) => {
                            grew_still(m, next, after);
                            grow_adapter(p, less, after, source, callback, kind, span);
                            match adapter_poll_run(p, less, after, source, callback, kind, span) {
                                Err(_) => {},
                                Ok((end, _)) => {
                                    grew_still(m, after, end);
                                },
                            }
                        },
                    }
                },
            },
        }
    }
}

proof fn grow_invoke(
    p: BodyIrModule,
    fuel: nat,
    m: Machine,
    callable: CallableModel,
    supplied: Seq<Option<ValueModel>>,
    span: HirSourceSpan,
)
    ensures
        grows(m, invoke_run(p, fuel, m, callable, supplied, span)),
    decreases fuel, 0int,
{
    if fuel > 0 {
        let less = (fuel - 1) as nat;
        let env = environment(callable.captures);
        grow_bound(p, less, m, callable.params@, supplied, env, env, 0, span);
        match bound_run(p, less, m, callable.params@, supplied, env, env, 0, span) {
            Err(_) => {},
            Ok((bound, locals)) => {
                grow_frame(p, less, bound, callable, locals, span, "generator-adapter callback"@);
                match frame_run(p, less, bound, callable, locals, span, "generator-adapter callback"@) {
                    Err(_) => {},
                    Ok((end, _)) => {
                        grew_still(m, bound, end);
                    },
                }
            },
        }
    }
}

proof fn grow_generator(p: BodyIrModule, fuel: nat, m: Machine, generator: GeneratorModel, span: HirSourceSpan)
    ensures
        grows(m, generator_poll_run(p, fuel, m, generator, span)),
    decreases fuel, 0int,
{
    if fuel > 0 {
        let start = resumed_frame(m, generator);
        if generator.exhausted {
            grew_merged(m, start, Seq::empty());
        } else {
            grow_resume(p, (fuel - 1) as nat, start, generator.cursors, span);
            match resume_run(p, (fuel - 1) as nat, start, generator.cursors, span) {
                Err(_) => {},
                Ok((child, _)) => {
                    grew_merged(m, child, Seq::empty());
                },
            }
        }
    }
}

proof fn grow_resume(p: BodyIrModule, fuel: nat, m: Machine, cursors: Seq<GeneratorCursor>, span: HirSourceSpan)
    ensures
        grows(m, resume_run(p, fuel, m, cursors, span)),
    decreases fuel, 0int,
{
    grew_same(m);
    if fuel > 0 && cursors.len() > 0 {
        let less = (fuel - 1) as nat;
        let cursor = cursors.last();
        if cursor.next >= cursor.statements@.len() {
            if !cursor.is_loop {
                grow_resume(p, less, m, cursors.drop_last(), span);
            } else if cursor.statements@.len() == 0 {
                grow_stepped(m, span);
                match stepped(m, span) {
                    Err(_) => {},
                    Ok(next) => {
                        grow_resume(p, less, next, moved(cursors, 0), span);
                        match resume_run(p, less, next, moved(cursors, 0), span) {
                            Err(_) => {},
                            Ok((after, _)) => {
                                grew_still(m, next, after);
                            },
                        }
                    },
                }
            } else {
                grow_resume(p, less, m, moved(cursors, 0), span);
            }
        } else {
            let statement = cursor.statements@[cursor.next as int];
            grow_stepped(m, statement.span);
            match stepped(m, statement.span) {
                Err(_) => {},
                Ok(next) => {
                    let ahead = moved(cursors, (cursor.next + 1) as usize);
                    grow_generator_statement(p, less, next, ahead, statement);
                    match generator_statement_run(p, less, next, ahead, statement) {
                        Err(_) => {},
                        Ok((after, (cursors, done, item))) => {
                            grew_still(m, next, after);
                            if !done && item is None {
                                grow_resume(p, less, after, cursors, span);
                                match resume_run(p, less, after, cursors, span) {
                                    Err(_) => {},
                                    Ok((end, _)) => {
                                        grew_still(m, after, end);
                                    },
                                }
                            }
                        },
                    }
                },
            }
        }
    }
}

proof fn grow_generator_statement(
    p: BodyIrModule,
    fuel: nat,
    m: Machine,
    cursors: Seq<GeneratorCursor>,
    statement: Statement,
)
    ensures
        grows(m, generator_statement_run(p, fuel, m, cursors, statement)),
    decreases fuel, 0int,
{
    grew_same(m);
    if fuel > 0 {
        match statement.kind {
            StatementKind::Yield { value } => {
                grow_operand(m, value, statement.span);
            },
            StatementKind::If { cond, .. } => {
                grow_operand(m, cond, statement.span);
            },
            _ => {
                grow_statement(p, (fuel - 1) as nat, m, statement);
            },
        }
    }
}

/// No statement loses evidence or statement counts: what was read, required and executed before a statement is
/// still recorded behind it, and the count never falls. Deferred work cannot reset the execution budget.
pub proof fn law_statements_keep_evidence(p: BodyIrModule, fuel: nat, m: Machine, statement: Statement)
    ensures
        statement_run(p, fuel, m, statement) matches Ok(done) ==> grew(m, done.0),
{
    grow_statement(p, fuel, m, statement);
}

/// Resuming a generator never lowers the count its caller had reached.
pub proof fn law_resumption_keeps_the_budget(
    p: BodyIrModule,
    fuel: nat,
    m: Machine,
    generator: GeneratorModel,
    span: HirSourceSpan,
)
    ensures
        generator_poll_run(p, fuel, m, generator, span) matches Ok(done) ==> grew(m, done.0) && done.1.0.steps
            >= generator.steps && done.1.0.steps >= m.steps,
{
    grow_generator(p, fuel, m, generator, span);
    if fuel > 0 && !generator.exhausted {
        grow_resume(p, (fuel - 1) as nat, resumed_frame(m, generator), generator.cursors, span);
    }
}

/// A completed execution's evidence begins with the snapshot and the requirements of the body that was entered,
/// and its value is a scalar.
pub proof fn law_entered_body_is_evidenced(p: BodyIrModule, fuel: nat, name: Seq<char>, args: Seq<ValueModel>)
    ensures
        function_run(p, fuel, name, args) matches Ok(done) ==> scalar(done.1) && (first_named(
            p.bodies@,
            0,
            name,
        ) matches Some(body) && begins(done.0.snapshots, seq![body.snapshot@]) && begins(
            done.0.requirements,
            requirements_with(Seq::empty(), body.runtime_requirements@, 0),
        )),
{
    match function_run(p, fuel, name, args) {
        Err(_) => {},
        Ok((end, value)) => match first_named(p.bodies@, 0, name) {
            None => {},
            Some(body) => {
                let none = Map::<LocalId, ValueModel>::empty();
                let start = recorded(frame(none, 0), contents(body));
                let slots = leading_slots(args, body.params@.len());
                grow_bound(p, fuel, start, body.params@, slots, none, none, 0, body.span);
                match bound_run(p, fuel, start, body.params@, slots, none, none, 0, body.span) {
                    Err(_) => {},
                    Ok((m, env)) => {
                        let entry = Machine { locals: env, ..m };
                        grow_block(p, fuel, entry, body.block.stmts@, 0);
                        assert(grew(m, entry)) by {
                            grew_same(m);
                        }
                        grew_still(start, m, entry);
                        grew_still(start, entry, end);
                        assert(start.snapshots =~= seq![body.snapshot@]);
                    },
                }
            },
        },
    }
}

// ---------------------------------------------------------------------------
// Frames
// ---------------------------------------------------------------------------

/// Binding parameters leaves the caller's locals alone.
proof fn bound_keeps_locals(
    p: BodyIrModule,
    fuel: nat,
    m: Machine,
    params: Seq<CallableParam>,
    supplied: Seq<Option<ValueModel>>,
    captures: Map<LocalId, ValueModel>,
    env: Map<LocalId, ValueModel>,
    from: int,
    span: HirSourceSpan,
)
    ensures
        bound_run(p, fuel, m, params, supplied, captures, env, from, span) matches Ok(done) ==> done.0.locals
            == m.locals,
    decreases params.len() - from,
{
    if supplied.len() == params.len() && 0 <= from < params.len() && fuel > 0 {
        match parameter_run(p, (fuel - 1) as nat, m, params[from], supplied[from], captures, span) {
            Err(_) => {},
            Ok((n, value)) => {
                assert(n.locals == m.locals);
                bound_keeps_locals(
                    p,
                    fuel,
                    n,
                    params,
                    supplied,
                    captures,
                    env.insert(params[from].local, value),
                    from + 1,
                    span,
                );
            },
        }
    }
}

/// Nothing that a nested frame does to its locals leaks into its caller: executing a callable, invoking one as a
/// callback and resuming a generator leave the caller's locals as they were.
pub proof fn law_frames_do_not_leak(
    p: BodyIrModule,
    fuel: nat,
    m: Machine,
    callable: CallableModel,
    env: Map<LocalId, ValueModel>,
    supplied: Seq<Option<ValueModel>>,
    generator: GeneratorModel,
    span: HirSourceSpan,
    kind: Seq<char>,
)
    ensures
        frame_run(p, fuel, m, callable, env, span, kind) matches Ok(done) ==> done.0.locals == m.locals,
        invoke_run(p, fuel, m, callable, supplied, span) matches Ok(done) ==> done.0.locals == m.locals,
        generator_poll_run(p, fuel, m, generator, span) matches Ok(done) ==> done.0.locals == m.locals,
{
    if fuel > 0 {
        bound_keeps_locals(
            p,
            (fuel - 1) as nat,
            m,
            callable.params@,
            supplied,
            environment(callable.captures),
            environment(callable.captures),
            0,
            span,
        );
    }
}

/// A call by name takes its arguments from the caller's locals and touches nothing else of them.
pub proof fn law_calls_only_take_arguments(
    p: BodyIrModule,
    fuel: nat,
    m: Machine,
    target: NamedCallableTarget,
    args: Seq<Operand>,
    span: HirSourceSpan,
)
    ensures
        named_run(p, fuel, m, target, args, span) matches Ok(done) ==> (callable_body(
            p,
            target.name@,
            span,
        ) matches Ok(body) && supplied_run(m, body.params@, args, target.binding, span) matches Ok(taken)
            && done.0.locals == taken.0.locals),
{
    if fuel > 0 {
        match callable_body(p, target.name@, span) {
            Err(_) => {},
            Ok(body) => match supplied_run(m, body.params@, args, target.binding, span) {
                Err(_) => {},
                Ok((n, supplied)) => {
                    bound_keeps_locals(
                        p,
                        (fuel - 1) as nat,
                        n,
                        body.params@,
                        supplied,
                        Map::empty(),
                        Map::empty(),
                        0,
                        span,
                    );
                },
            },
        }
    }
}

} // verus!
