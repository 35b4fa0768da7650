//! How values are made, and where generators go on.

use crate::body_ir::{
    AggregateKind, ArgumentElement, BinOp, Body, BodyIrModule, CallableParam, CallableParamDefault, Constant,
    HirSourceSpan, LocalId, Operand, Rvalue, Statement, StatementKind, UnOp,
};
use crate::replacement::free_function::{body_run, leading_slots};
use crate::replacement::meaning::law_control_goes_where_it_says;
use crate::replacement::profile::element_operands;
use crate::replacement::semantics::{
    aggregate_run, binary_result, block_run, bound_run, captured_env, default_run, frame, generator_poll_run,
    generator_statement_run, innermost_loop, moved, operand_run, operands_run, paired, parameter_run, recorded,
    resume_run, rvalue_run, sequence_run, stepped, unary_result, Halt, Machine,
};
use crate::replacement::value::{literal, GeneratorCursor, GeneratorModel, ValueModel};
use vstd::prelude::*;

verus! {

// ---------------------------------------------------------------------------
// Evaluation
// ---------------------------------------------------------------------------

/// Operands are evaluated from left to right, each in the state that the one before it left, and give their values in
/// that order.
pub proof fn law_operands_are_evaluated_in_order(
    m: Machine,
    operands: Seq<Operand>,
    from: int,
    done: Seq<ValueModel>,
    span: HirSourceSpan,
)
    requires
        0 <= from <= operands.len(),
    ensures
        operands_run(m, operands, from, done, span) matches Ok(given) ==> {
            &&& given.1.len() == done.len() + operands.len() - from
            &&& given.1.take(done.len() as int) == done
            &&& from < operands.len() ==> (operand_run(m, operands[from], span) matches Ok(first) && given.1[
                done.len() as int
            ] == first.1 && operands_run(first.0, operands, from + 1, done.push(first.1), span) == Ok::<_, Halt>(given))
        },
        (forall|i: int| from <= i < operands.len() ==> (#[trigger] operands[i]) is Constant) ==> (operands_run(
            m,
            operands,
            from,
            done,
            span,
        ) matches Ok(given) && given.0 == m && forall|i: int|
            from <= i < operands.len() ==> given.1[done.len() + i - from] == literal(
                (#[trigger] operands[i])->Constant_0,
            )),
    decreases operands.len() - from,
{
    if from < operands.len() {
        match operand_run(m, operands[from], span) {
            Ok((after, value)) => {
                law_operands_are_evaluated_in_order(after, operands, from + 1, done.push(value), span);
                match operands_run(after, operands, from + 1, done.push(value), span) {
                    Ok((_, values)) => {
                        assert(values.take(done.len() as int) =~= values.take((done.len() + 1) as int).take(done.len() as int));
                        assert(done.push(value).take(done.len() as int) =~= done);
                        assert(values.take((done.len() + 1) as int)[done.len() as int] == value);
                        if forall|i: int| from <= i < operands.len() ==> (#[trigger] operands[i]) is Constant {
                            assert forall|i: int| from <= i < operands.len() implies values[done.len() + i - from]
                                == literal((#[trigger] operands[i])->Constant_0) by {
                                if i == from {
                                    assert(operands[from] is Constant);
                                }
                            }
                        }
                    },
                    Err(_) => {},
                }
            },
            Err(_) => {},
        }
    } else {
        assert(done.take(done.len() as int) =~= done);
    }
}

/// A computed value is that of its operator on its operands, the left one first, and a copied value is its operand's.
pub proof fn law_operations_take_their_operands(m: Machine, a: Constant, b: Constant, op: BinOp, un: UnOp, span: HirSourceSpan)
    ensures
        rvalue_run(m, Rvalue::Use(Operand::Constant(a)), span) == Ok::<_, Halt>((m, literal(a))),
        rvalue_run(m, Rvalue::UnaryOp(un, Operand::Constant(a)), span) == unary_result(m, un, literal(a), span),
        rvalue_run(m, Rvalue::BinaryOp(op, Operand::Constant(a), Operand::Constant(b)), span) == binary_result(
            m,
            op,
            literal(a),
            literal(b),
            span,
        ),
{
}

/// A tuple of two scalars is the pair of them, in order, and a list starts at its first item.
pub proof fn law_aggregates_keep_their_order(m: Machine, elements: Seq<ArgumentElement>, span: HirSourceSpan)
    ensures
        aggregate_run(m, AggregateKind::Tuple, elements, span) matches Ok(built) ==> {
            &&& built.1 is Tuple && built.1->Tuple_0.len() == 2 && elements.len() == 2
            &&& forall|i: int|
                0 <= i < 2 && (#[trigger] elements[i] matches ArgumentElement::One(Operand::Constant(constant)))
                    && elements[1 - i] is One && elements[1 - i]->One_0 is Constant ==> built.1->Tuple_0[i] == literal(
                    elements[i]->One_0->Constant_0,
                )
        },
        aggregate_run(m, AggregateKind::List, elements, span) matches Ok(built) ==> built.1 is List
            && built.1->List_elements.len() == elements.len() && built.1->List_next == 0,
{
    let operands = element_operands(elements);
    law_operands_are_evaluated_in_order(m, operands, 0, Seq::empty(), span);
    if elements.len() == 2 && elements[0] is One && elements[1] is One && elements[0]->One_0 is Constant
        && elements[1]->One_0 is Constant {
        assert(operands[0] is Constant && operands[1] is Constant);
        assert forall|i: int| 0 <= i < operands.len() implies (#[trigger] operands[i]) is Constant by {}
        assert(operands[0] == elements[0]->One_0 && operands[1] == elements[1]->One_0);
    }
}

/// Captured values are bound to the locals that receive them, one for one, behind what was bound before.
pub proof fn law_captures_reach_their_locals(
    env: Map<LocalId, ValueModel>,
    locals: Seq<LocalId>,
    values: Seq<ValueModel>,
    from: int,
)
    requires
        0 <= from <= values.len(),
        values.len() <= locals.len(),
    ensures
        captured_env(env, locals, values, from) matches Some(bound) ==> {
            &&& forall|local: LocalId| #[trigger] env.contains_key(local) ==> bound.contains_key(local) && bound[local]
                == env[local]
            &&& forall|i: int|
                from <= i < values.len() ==> bound.contains_key(#[trigger] locals[i]) && bound[locals[i]] == values[i]
        },
        forall|i: int| 0 <= i < values.len() ==> #[trigger] paired(locals, values)[i] == (locals[i], values[i]),
    decreases values.len() - from,
{
    if from < values.len() && !env.contains_key(locals[from]) {
        let more = env.insert(locals[from], values[from]);
        law_captures_reach_their_locals(more, locals, values, from + 1);
        match captured_env(more, locals, values, from + 1) {
            Some(bound) => {
                assert(more.contains_key(locals[from]));
                assert forall|local: LocalId| #[trigger] env.contains_key(local) implies bound.contains_key(local)
                    && bound[local] == env[local] by {
                    assert(more.contains_key(local));
                }
            },
            None => {},
        }
    }
}

/// A parameter takes the value that is given; without one it takes its preset or the value that its default computes,
/// and a required parameter takes nothing.
pub proof fn law_parameters_take_what_is_given(
    p: BodyIrModule,
    fuel: nat,
    m: Machine,
    parameter: CallableParam,
    supplied: Option<ValueModel>,
    captures: Map<LocalId, ValueModel>,
    span: HirSourceSpan,
)
    requires
        fuel > 3,
    ensures
        supplied matches Some(value) ==> parameter_run(p, fuel, m, parameter, supplied, captures, span) == Ok::<_, Halt>(
            (m, value),
        ),
        supplied is None ==> (match parameter.default {
            CallableParamDefault::Required => parameter_run(p, fuel, m, parameter, supplied, captures, span) is Err,
            CallableParamDefault::PartialPreset { capture } => if captures.contains_key(capture) {
                parameter_run(p, fuel, m, parameter, supplied, captures, span) == Ok::<_, Halt>((m, captures[capture]))
            } else {
                parameter_run(p, fuel, m, parameter, supplied, captures, span) is Err
            },
            CallableParamDefault::Unsupported { .. } => parameter_run(
                p,
                fuel,
                m,
                parameter,
                supplied,
                captures,
                span,
            ) is Err,
            CallableParamDefault::Source(computation) => computation.stmts@.len() == 0 ==> (
            computation.result matches Operand::Constant(constant) ==> (parameter_run(
                p,
                fuel,
                m,
                parameter,
                supplied,
                captures,
                span,
            ) matches Ok(taken) && taken.1 == literal(constant) && taken.0.locals == m.locals)),
        }),
{
    match &parameter.default {
        CallableParamDefault::Source(computation) => {
            let less = (fuel - 1) as nat;
            assert(default_run(p, less, m, *computation) == default_run(p, less, m, *computation));
            if computation.stmts@.len() == 0 {
                assert(sequence_run(
                    p,
                    (less - 1) as nat,
                    frame(Map::empty(), m.steps),
                    computation.stmts@,
                    0,
                    "control flow in a callable default computation"@,
                ) is Ok);
            }
        },
        _ => {},
    }
}

/// A function whose body ends without a return gives the unit value, as one that returns nothing does.
pub proof fn law_functions_without_a_return_give_unit(p: BodyIrModule, fuel: nat, body: Body, args: Seq<ValueModel>)
    requires
        body.block.stmts@.len() == 0 || body.block.stmts@[0].kind == (StatementKind::Return { value: None }),
    ensures
        body_run(p, fuel, body, args) matches Ok(done) ==> done.1 is Unit,
{
    let stmts = body.block.stmts@;
    match bound_run(
        p,
        fuel,
        recorded(frame(Map::empty(), 0), body),
        body.params@,
        leading_slots(args, body.params@.len()),
        Map::empty(),
        Map::empty(),
        0,
        body.span,
    ) {
        Ok((m, env)) => {
            let inside = Machine { locals: env, ..m };
            if stmts.len() > 0 && fuel > 1 {
                match stepped(inside, stmts[0].span) {
                    Ok(counted) => law_control_goes_where_it_says(
                        p,
                        (fuel - 1) as nat,
                        counted,
                        stmts[0],
                    ),
                    Err(_) => {},
                }
            }
            assert(block_run(p, fuel, inside, stmts, 0) == block_run(p, fuel, inside, stmts, 0));
        },
        Err(_) => {},
    }
}

// ---------------------------------------------------------------------------
// Generators
// ---------------------------------------------------------------------------

/// A generator that stands at a yield gives its value and goes on behind it; one that stands at a return, or behind its
/// last statement, is exhausted.
pub proof fn law_generators_go_on_behind_their_yield(
    p: BodyIrModule,
    fuel: nat,
    m: Machine,
    cursors: Seq<GeneratorCursor>,
    span: HirSourceSpan,
)
    requires
        fuel > 2,
        cursors.len() > 0,
    ensures
        ({
            let cursor = cursors.last();
            let at = cursor.next as int;
            &&& at < cursor.statements@.len() ==> (match cursor.statements@[at].kind {
                StatementKind::Yield { value } => resume_run(p, fuel, m, cursors, span) matches Ok(given) ==> {
                    &&& !given.1.1
                    &&& given.1.2 is Some
                    &&& given.1.0 == cursors.update(
                        cursors.len() - 1,
                        GeneratorCursor { next: (at + 1) as usize, ..cursor },
                    )
                    &&& value matches Operand::Constant(constant) ==> given.1.2 == Some(literal(constant))
                        && given.0.locals == m.locals
                },
                StatementKind::Return { value: None } => resume_run(p, fuel, m, cursors, span) matches Ok(given)
                    ==> given.1.1 && given.1.2 is None,
                _ => true,
            })
            &&& at >= cursor.statements@.len() && !cursor.is_loop ==> resume_run(p, fuel, m, cursors, span)
                == resume_run(p, (fuel - 1) as nat, m, cursors.drop_last(), span)
            &&& at >= cursor.statements@.len() && cursor.is_loop && cursor.statements@.len() > 0 ==> resume_run(
                p,
                fuel,
                m,
                cursors,
                span,
            ) == resume_run(
                p,
                (fuel - 1) as nat,
                m,
                cursors.update(cursors.len() - 1, GeneratorCursor { next: 0, ..cursor }),
                span,
            )
        }),
        resume_run(p, fuel, m, Seq::empty(), span) == Ok::<_, Halt>((m, (Seq::<GeneratorCursor>::empty(), true, None::<ValueModel>))),
{
    let cursor = cursors.last();
    let at = cursor.next as int;
    if at < cursor.statements@.len() {
        let statement = cursor.statements@[at];
        match stepped(m, statement.span) {
            Ok(counted) => {
                let behind = moved(cursors, (cursor.next + 1) as usize);
                let stepping = generator_statement_run(p, (fuel - 1) as nat, counted, behind, statement);
                match &statement.kind {
                    StatementKind::Yield { value } => {
                        assert(stepping matches Ok(given) ==> given.1.0 == behind && !given.1.1 && given.1.2 is Some);
                        match value {
                            Operand::Constant(constant) => {
                                assert(operand_run(counted, *value, statement.span) == Ok::<_, Halt>(
                                    (counted, literal(*constant)),
                                ));
                                assert(stepping matches Ok(given) && given.0 == counted);
                            },
                            _ => {},
                        }
                    },
                    StatementKind::Return { value: None } => {
                        assert(stepping matches Ok(given) && given.1.1);
                    },
                    _ => {},
                }
            },
            Err(_) => {},
        }
    }
}

/// An exhausted generator gives nothing more, whatever it has left, and stays exhausted.
pub proof fn law_exhausted_generators_stay_exhausted(
    p: BodyIrModule,
    fuel: nat,
    m: Machine,
    generator: GeneratorModel,
    span: HirSourceSpan,
)
    requires
        fuel > 0,
        generator.exhausted,
    ensures
        generator_poll_run(p, fuel, m, generator, span) matches Ok(polled) && polled.1.1 is None && polled.1.0.exhausted
            && polled.1.0.locals == generator.locals,
{
}

/// Leaving or restarting a loop concerns the innermost loop that a generator has entered: of the blocks it has entered,
/// the last one that is a loop.
pub proof fn law_loops_of_generators_are_the_innermost(
    p: BodyIrModule,
    fuel: nat,
    m: Machine,
    cursors: Seq<GeneratorCursor>,
    statement: Statement,
    at: int,
)
    requires
        fuel > 0,
        0 <= at < cursors.len(),
        cursors[at].is_loop,
        forall|i: int| at < i < cursors.len() ==> !(#[trigger] cursors[i]).is_loop,
    ensures
        statement.kind == (StatementKind::Break { value: None }) ==> (generator_statement_run(
            p,
            fuel,
            m,
            cursors,
            statement,
        ) matches Ok(given) && given.0 == m && given.1.0 == cursors.take(at) && !given.1.1 && given.1.2 is None),
        statement.kind is Continue ==> (generator_statement_run(p, fuel, m, cursors, statement) matches Ok(given)
            && given.0 == m && given.1.0 == cursors.take(at).push(GeneratorCursor { next: 0, ..cursors[at] })
            && !given.1.1 && given.1.2 is None),
{
    innermost_is(cursors, cursors.len() as int, at);
}

proof fn innermost_is(cursors: Seq<GeneratorCursor>, before: int, at: int)
    requires
        0 <= at < before <= cursors.len(),
        cursors[at].is_loop,
        forall|i: int| at < i < before ==> !(#[trigger] cursors[i]).is_loop,
    ensures
        innermost_loop(cursors, before) == Some(at),
    decreases before,
{
    if before - 1 > at {
        assert(!cursors[before - 1].is_loop);
        innermost_is(cursors, before - 1, at);
    }
}

/// A conditional of a generator enters the branch that its condition chooses, and a loop enters its body, each at its
/// first statement.
pub proof fn law_generators_enter_the_chosen_block(
    p: BodyIrModule,
    fuel: nat,
    m: Machine,
    cursors: Seq<GeneratorCursor>,
    statement: Statement,
)
    requires
        fuel > 0,
    ensures
        match statement.kind {
            StatementKind::If { cond: Operand::Constant(Constant::Bool(holds)), then_block, else_block } => {
                let entered = if holds {
                    Some(then_block.stmts)
                } else {
                    match else_block {
                        Some(block) => Some(block.stmts),
                        None => None,
                    }
                };
                generator_statement_run(p, fuel, m, cursors, statement) == Ok::<_, Halt>(
                    (
                        m,
                        (
                            match entered {
                                Some(stmts) => cursors.push(
                                    GeneratorCursor { statements: stmts, next: 0, is_loop: false },
                                ),
                                None => cursors,
                            },
                            false,
                            None::<ValueModel>,
                        ),
                    ),
                )
            },
            StatementKind::Loop { body } => generator_statement_run(p, fuel, m, cursors, statement) == Ok::<_, Halt>(
                (
                    m,
                    (
                        cursors.push(GeneratorCursor { statements: body.stmts, next: 0, is_loop: true }),
                        false,
                        None::<ValueModel>,
                    ),
                ),
            ),
            _ => true,
        },
{
    match statement.kind {
        StatementKind::If { cond, .. } => {
            assert(operand_run(m, cond, statement.span) == operand_run(m, cond, statement.span));
        },
        _ => {},
    }
}

} // verus!
