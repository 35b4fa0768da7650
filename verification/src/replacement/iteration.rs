//! What iteration gives: the items of ranges and lists, as loops bind them and as `collect` gathers them.

use crate::body_ir::{BodyIrModule, HirSourceSpan, IterProtocol, LocalId, Operand, Statement, StatementKind};
use crate::replacement::semantics::{
    collect_run, iterate_run, poll_run, range_result, statement_run, FlowModel, Halt, Machine, Run,
};
use crate::replacement::value::ValueModel;
use vstd::prelude::*;

verus! {

broadcast use vstd::string::group_string_axioms;

// ---------------------------------------------------------------------------
// What a loop binds
// ---------------------------------------------------------------------------

/// The items that a loop binds to its variable in so many rounds at most, and whether it was left: the iteration step
/// is executed round by round, and what its variable holds behind a step is that round's item.
pub open spec fn bound_items(
    p: BodyIrModule,
    fuel: nat,
    m: Machine,
    step: Statement,
    variable: LocalId,
    rounds: nat,
) -> Run<(Seq<ValueModel>, bool)>
    decreases rounds,
{
    if rounds == 0 {
        Ok((m, (Seq::empty(), false)))
    } else {
        match statement_run(p, fuel, m, step) {
            Err(halt) => Err(halt),
            Ok((m, flow)) => if flow is Break {
                Ok((m, (Seq::empty(), true)))
            } else {
                match bound_items(p, fuel, m, step, variable, (rounds - 1) as nat) {
                    Err(halt) => Err(halt),
                    Ok((after, (rest, left))) => Ok((after, (seq![m.locals[variable]] + rest, left))),
                }
            },
        }
    }
}

/// Whether a statement is the iteration step of a loop over an iterator that a local holds.
pub open spec fn steps_over(step: Statement, variable: LocalId, iterator: LocalId) -> bool {
    &&& variable != iterator
    &&& match step.kind {
        StatementKind::IterNext { destination, iterator: operand, protocol } => protocol == IterProtocol::Builtin
            && destination.local == variable && destination.projection@.len() == 0 && match operand {
            Operand::Place(read) => read.place.local == iterator && read.place.projection@.len() == 0,
            Operand::Constant(_) => false,
        },
        _ => false,
    }
}

/// Whether items are the integers from one on at a distance, as far as they lie strictly before an end.
pub open spec fn counts(items: Seq<ValueModel>, next: int, end: int, step: int) -> bool {
    forall|k: int|
        0 <= k < items.len() ==> #[trigger] items[k] is Int && items[k]->Int_0 == next + k * step && (if step > 0 {
            next <= items[k]->Int_0 < end
        } else {
            end < items[k]->Int_0 <= next
        })
}

/// One execution of an iteration step is one poll of the iterator.
proof fn lemma_step(p: BodyIrModule, fuel: nat, m: Machine, step: Statement, variable: LocalId, iterator: LocalId)
    requires
        steps_over(step, variable, iterator),
        m.locals.contains_key(iterator),
        fuel >= 3,
    ensures
        match poll_run(p, (fuel - 2) as nat, m, m.locals[iterator], step.span) {
            Ok((_, (value, Some(item)))) => m.locals[iterator] is Range || m.locals[iterator] is List
                || m.locals[iterator] is CollectedGenerator ==> (statement_run(p, fuel, m, step) matches Ok(done)
                && done.1 is Next && done.0.locals == m.locals.insert(iterator, value).insert(variable, item)),
            Ok((_, (value, None))) => m.locals[iterator] is Range || m.locals[iterator] is List
                || m.locals[iterator] is CollectedGenerator ==> (statement_run(p, fuel, m, step) matches Ok(done)
                && done.1 is Break && done.0.locals == m.locals.insert(iterator, value)),
            Err(halt) => m.locals[iterator] is Range || m.locals[iterator] is List
                || m.locals[iterator] is CollectedGenerator ==> statement_run(p, fuel, m, step) == Err::<
                (Machine, FlowModel),
                Halt,
            >(halt),
        },
{
    match step.kind {
        StatementKind::IterNext { destination, iterator: operand, protocol } => {
            let held = m.locals[iterator];
            assert(statement_run(p, fuel, m, step) == iterate_run(
                p,
                (fuel - 1) as nat,
                m,
                destination,
                operand,
                step.span,
            ));
            match poll_run(p, (fuel - 2) as nat, m, held, step.span) {
                Ok((_, (value, Some(item)))) => {
                    assert(m.locals.remove(iterator).insert(iterator, value).insert(variable, item)
                        =~= m.locals.insert(iterator, value).insert(variable, item));
                },
                Ok((_, (value, None))) => {
                    assert(m.locals.remove(iterator).insert(iterator, value) =~= m.locals.insert(iterator, value));
                },
                Err(_) => {},
            }
        },
        _ => {},
    }
}

/// A loop over a range binds exactly the integers from its first one on, at its distance, that lie strictly before its
/// end, in this order: every one of them, and nothing else. It is left when there is no other, however many rounds it
/// may go.
pub proof fn law_loops_bind_the_integers_of_a_range(
    p: BodyIrModule,
    fuel: nat,
    m: Machine,
    step: Statement,
    variable: LocalId,
    iterator: LocalId,
    next: i64,
    end: i64,
    distance: i64,
    rounds: nat,
)
    requires
        steps_over(step, variable, iterator),
        m.locals.contains_key(iterator),
        m.locals[iterator] == (ValueModel::Range { next, end, step: distance }),
        distance != 0,
        fuel >= 3,
    ensures
        match bound_items(p, fuel, m, step, variable, rounds) {
            Ok((_, (items, left))) => {
                &&& counts(items, next as int, end as int, distance as int)
                &&& items.len() <= rounds
                &&& !left ==> items.len() == rounds
                &&& left ==> (if distance > 0 {
                    next + items.len() * distance >= end
                } else {
                    next + items.len() * distance <= end
                })
                &&& left && distance == 1 ==> items.len() == (if end > next {
                    end - next
                } else {
                    0
                })
            },
            Err(halt) => halt is Overflow,
        },
    decreases rounds,
{
    if rounds > 0 {
        lemma_step(p, fuel, m, step, variable, iterator);
        if (distance > 0 && next < end) || (distance < 0 && next > end) {
            if i64::MIN <= next + distance <= i64::MAX {
                let following = (next + distance) as i64;
                let after = statement_run(p, fuel, m, step)->Ok_0.0;
                law_loops_bind_the_integers_of_a_range(
                    p,
                    fuel,
                    after,
                    step,
                    variable,
                    iterator,
                    following,
                    end,
                    distance,
                    (rounds - 1) as nat,
                );
                match bound_items(p, fuel, after, step, variable, (rounds - 1) as nat) {
                    Ok((_, (rest, left))) => {
                        let items = seq![ValueModel::Int(next)] + rest;
                        assert(bound_items(p, fuel, m, step, variable, rounds)->Ok_0.1 == (items, left));
                        lemma_counts_more(rest, next as int, end as int, distance as int);
                    },
                    Err(_) => {},
                }
            }
        }
    }
}

/// The integers behind a first one.
proof fn lemma_counts_more(rest: Seq<ValueModel>, next: int, end: int, step: int)
    requires
        counts(rest, next + step, end, step),
        i64::MIN <= next <= i64::MAX,
        step > 0 ==> next < end,
        step < 0 ==> next > end,
        step != 0,
    ensures
        counts(seq![ValueModel::Int(next as i64)] + rest, next, end, step),
        (next + step) + rest.len() * step == next + (rest.len() + 1) * step,
{
    let items = seq![ValueModel::Int(next as i64)] + rest;
    assert((next + step) + rest.len() * step == next + (rest.len() + 1) * step) by (nonlinear_arith);
    assert forall|k: int| 0 <= k < items.len() implies #[trigger] items[k] is Int && items[k]->Int_0 == next + k * step
        && (if step > 0 {
        next <= items[k]->Int_0 < end
    } else {
        end < items[k]->Int_0 <= next
    }) by {
        if k == 0 {
            assert(0 * step == 0) by (nonlinear_arith);
        } else {
            assert(items[k] == rest[k - 1]);
            assert((next + step) + (k - 1) * step == next + k * step) by (nonlinear_arith);
        }
    }
}

/// Gathering a range gives exactly the integers from its first one on, at its distance, that lie strictly before its
/// end, in this order, behind what was gathered before, and leaves the machine as it was.
pub proof fn law_collecting_gathers_the_integers_of_a_range(
    p: BodyIrModule,
    fuel: nat,
    m: Machine,
    next: i64,
    end: i64,
    step: i64,
    gathered: Seq<ValueModel>,
    span: HirSourceSpan,
)
    requires
        step != 0,
    ensures
        match collect_run(p, fuel, m, ValueModel::Range { next, end, step }, gathered, span) {
            Ok((after, value)) => after == m && (value matches ValueModel::CollectedGenerator { elements, next: at }
                && at == 0 && elements.len() >= gathered.len() && elements.take(gathered.len() as int) == gathered
                && counts(elements.skip(gathered.len() as int), next as int, end as int, step as int) && (if step > 0 {
                next + (elements.len() - gathered.len()) * step >= end
            } else {
                next + (elements.len() - gathered.len()) * step <= end
            })),
            Err(halt) => halt is Overflow || halt is Exhausted,
        },
    decreases fuel,
{
    if fuel == 1 {
        assert(poll_run(p, 0, m, ValueModel::Range { next, end, step }, span) is Err);
    }
    if fuel > 1 {
        let less = (fuel - 1) as nat;
        let polled = poll_run(p, less, m, ValueModel::Range { next, end, step }, span);
        assert(polled is Err ==> polled->Err_0 is Overflow);
        if (step > 0 && next < end) || (step < 0 && next > end) {
            if i64::MIN <= next + step <= i64::MAX {
                let more = gathered.push(ValueModel::Int(next));
                law_collecting_gathers_the_integers_of_a_range(
                    p,
                    less,
                    m,
                    (next + step) as i64,
                    end,
                    step,
                    more,
                    span,
                );
                match collect_run(p, less, m, ValueModel::Range { next: (next + step) as i64, end, step }, more, span) {
                    Ok((_, ValueModel::CollectedGenerator { elements, .. })) => {
                        let rest = elements.skip(more.len() as int);
                        assert(elements.take(gathered.len() as int) =~= elements.take(more.len() as int).take(
                            gathered.len() as int,
                        ));
                        assert(more.take(gathered.len() as int) =~= gathered);
                        assert(elements[gathered.len() as int] == elements.take(
                            more.len() as int,
                        )[gathered.len() as int]);
                        assert(elements.skip(gathered.len() as int) =~= seq![ValueModel::Int(next)] + rest);
                        lemma_counts_more(rest, next as int, end as int, step as int);
                        let (fewer, count) = (elements.len() - more.len(), elements.len() - gathered.len());
                        assert(fewer == rest.len() && count == rest.len() + 1);
                        assert(fewer * step == rest.len() * step);
                        assert(count * step == (rest.len() + 1) * step);
                    },
                    _ => {},
                }
            }
        } else {
            assert(gathered.take(gathered.len() as int) =~= gathered);
            assert((gathered.len() - gathered.len()) * step == 0) by (nonlinear_arith);
        }
    }
}

/// `range` means what it says: `range(n)` counts from zero to before `n`, `range(a, b)` from `a` to before `b`, and
/// `range(a, b, s)` the same at the distance `s`, which is not zero. What a loop over it binds follows from that.
pub proof fn law_ranges_are_what_was_asked_for(
    p: BodyIrModule,
    fuel: nat,
    m: Machine,
    values: Seq<ValueModel>,
    span: HirSourceSpan,
)
    requires
        forall|i: int| 0 <= i < values.len() ==> #[trigger] values[i] is Int,
    ensures
        values.len() == 1 ==> (range_result(m, values, span) matches Ok(made) && (collect_run(
            p,
            fuel,
            m,
            made.1,
            Seq::empty(),
            span,
        ) matches Ok(done) ==> (done.1 matches ValueModel::CollectedGenerator { elements, .. } && elements.len() == (
        if values[0]->Int_0 > 0 {
            values[0]->Int_0 as int
        } else {
            0
        }) && forall|k: int| 0 <= k < elements.len() ==> #[trigger] elements[k] is Int && elements[k]->Int_0 == k))),
        values.len() == 2 ==> (range_result(m, values, span) matches Ok(made) && (collect_run(
            p,
            fuel,
            m,
            made.1,
            Seq::empty(),
            span,
        ) matches Ok(done) ==> (done.1 matches ValueModel::CollectedGenerator { elements, .. } && elements.len() == (
        if values[1]->Int_0 > values[0]->Int_0 {
            values[1]->Int_0 - values[0]->Int_0
        } else {
            0
        }) && forall|k: int|
            0 <= k < elements.len() ==> #[trigger] elements[k] is Int && elements[k]->Int_0 == values[0]->Int_0 + k))),
        values.len() == 3 && values[2]->Int_0 != 0 ==> (range_result(m, values, span) matches Ok(made) && (
        collect_run(p, fuel, m, made.1, Seq::empty(), span) matches Ok(done) ==> (
        done.1 matches ValueModel::CollectedGenerator { elements, .. } && counts(
            elements,
            values[0]->Int_0 as int,
            values[1]->Int_0 as int,
            values[2]->Int_0 as int,
        )))),
        values.len() == 3 && values[2]->Int_0 == 0 ==> range_result(m, values, span) is Err,
        values.len() == 0 || values.len() > 3 ==> range_result(m, values, span) is Err,
{
    lemma_all_integers(values, 0);
    if values.len() == 1 || values.len() == 2 || (values.len() == 3 && values[2]->Int_0 != 0) {
        let made = range_result(m, values, span)->Ok_0.1;
        match made {
            ValueModel::Range { next, end, step } => {
                law_collecting_gathers_the_integers_of_a_range(p, fuel, m, next, end, step, Seq::empty(), span);
                match collect_run(p, fuel, m, made, Seq::empty(), span) {
                    Ok((_, ValueModel::CollectedGenerator { elements, .. })) => {
                        assert(elements.skip(0) =~= elements);
                        assert forall|k: int| 0 <= k < elements.len() implies #[trigger] elements[k] is Int
                            && elements[k]->Int_0 == next + k * step by {
                            assert(elements.skip(0)[k] == elements[k]);
                        }
                        if step == 1 && elements.len() > 0 {
                            let last = elements.len() - 1;
                            assert(elements[last] is Int);
                            assert(last * step == last) by (nonlinear_arith)
                                requires
                                    step == 1,
                            ;
                        }
                    },
                    _ => {},
                }
            },
            _ => {},
        }
    }
}

proof fn lemma_all_integers(values: Seq<ValueModel>, from: int)
    requires
        forall|i: int| 0 <= i < values.len() ==> #[trigger] values[i] is Int,
    ensures
        crate::replacement::semantics::integers(values, from) is None,
    decreases values.len() - from,
{
    if 0 <= from < values.len() {
        lemma_all_integers(values, from + 1);
    }
}

/// A loop over a list, or over what was gathered, binds its items from the cursor on, one after the other, and is left
/// behind the last.
pub proof fn law_loops_bind_the_items_of_a_list(
    p: BodyIrModule,
    fuel: nat,
    m: Machine,
    step: Statement,
    variable: LocalId,
    iterator: LocalId,
    elements: Seq<ValueModel>,
    next: usize,
    gathered: bool,
    rounds: nat,
)
    requires
        steps_over(step, variable, iterator),
        m.locals.contains_key(iterator),
        m.locals[iterator] == (if gathered {
            ValueModel::CollectedGenerator { elements, next }
        } else {
            ValueModel::List { elements, next }
        }),
        next <= elements.len() <= usize::MAX,
        fuel >= 3,
    ensures
        bound_items(p, fuel, m, step, variable, rounds) matches Ok(done) && done.1.1 == (next + rounds
            > elements.len()) && done.1.0 == (if next + rounds > elements.len() {
            elements.skip(next as int)
        } else {
            elements.subrange(next as int, next + rounds)
        }),
    decreases rounds,
{
    if rounds > 0 {
        lemma_step(p, fuel, m, step, variable, iterator);
        if next < elements.len() {
            let after = statement_run(p, fuel, m, step)->Ok_0.0;
            law_loops_bind_the_items_of_a_list(
                p,
                fuel,
                after,
                step,
                variable,
                iterator,
                elements,
                (next + 1) as usize,
                gathered,
                (rounds - 1) as nat,
            );
            let rest = bound_items(p, fuel, after, step, variable, (rounds - 1) as nat)->Ok_0.1.0;
            assert(seq![elements[next as int]] + rest =~= (if next + rounds > elements.len() {
                elements.skip(next as int)
            } else {
                elements.subrange(next as int, next + rounds)
            }));
        } else {
            assert(elements.skip(next as int) =~= Seq::empty());
        }
    } else {
        assert(elements.subrange(next as int, next as int) =~= Seq::empty());
    }
}

} // verus!
