//! What operators, reads and statements mean, apart from how they are executed.

use crate::body_ir::{
    BinOp, Body, BodyIrModule, BoundArgument, CallableParam, Constant, HirSourceSpan, LocalId, Operand, OwnershipFact,
    Place, PlaceElem, PlaceOperand, Rvalue, Statement, StatementKind, UnOp,
};
use crate::replacement::error::ErrorModel;
use crate::replacement::execute::law_floor_division;
use crate::replacement::free_function::{body_run, leading_slots};
use crate::replacement::laws::law_statements_keep_evidence;
use crate::replacement::semantics::{
    adapter_poll_run, arguments_run, binary_result, block_run, bound_run, concat_run, earliest, floor_quotient,
    floor_remainder, frame, invoke_run, loop_run, next_step, operand_run, parameter_run, poll_run, projected, recorded,
    statement_run, stepped, unary_result, FlowModel, Halt, Machine, OwnershipRead, Run, MAX_EXECUTION_STEPS,
};
use crate::replacement::value::{scalar, CallableModel, ReplacementAdapterKind, ValueModel};
use vstd::prelude::*;

verus! {

broadcast use vstd::string::group_string_axioms;

// ---------------------------------------------------------------------------
// Operators
// ---------------------------------------------------------------------------

/// The integer that a run gave, where it gave one and left the machine as it was.
pub open spec fn gives_int(m: Machine, run: Run<ValueModel>, value: int) -> bool {
    run matches Ok(done) && done.0 == m && done.1 is Int && done.1->Int_0 == value
}

/// Whether a run gave a flag and left the machine as it was.
pub open spec fn gives_flag(m: Machine, run: Run<ValueModel>, flag: bool) -> bool {
    run matches Ok(done) && done.0 == m && done.1 == ValueModel::Bool(flag)
}

/// Whether a run failed, at a place, for a reason.
pub open spec fn fails<T>(run: Run<T>, detail: Seq<char>, span: HirSourceSpan) -> bool {
    run matches Err(halt) && halt == Halt::Error(ErrorModel::RuntimeFailure(detail, span))
}

/// Sums, differences and products of integers are the exact ones where the type has them, and no value otherwise. A
/// difference undoes a sum, and negation is the difference from zero.
pub proof fn law_integers_are_computed_exactly(m: Machine, a: i64, b: i64, span: HirSourceSpan)
    ensures
        ({
            let (x, y) = (ValueModel::Int(a), ValueModel::Int(b));
            let fits = |value: int| i64::MIN <= value <= i64::MAX;
            &&& fits(a + b) ==> gives_int(m, binary_result(m, BinOp::Add, x, y, span), a + b)
            &&& fits(a - b) ==> gives_int(m, binary_result(m, BinOp::Sub, x, y, span), a - b)
            &&& fits(a * b) ==> gives_int(m, binary_result(m, BinOp::Mul, x, y, span), a * b)
            &&& fits(-a) ==> gives_int(m, unary_result(m, UnOp::Neg, x, span), -a)
            &&& !fits(a + b) ==> binary_result(m, BinOp::Add, x, y, span) is Err
            &&& !fits(a - b) ==> binary_result(m, BinOp::Sub, x, y, span) is Err
            &&& !fits(a * b) ==> binary_result(m, BinOp::Mul, x, y, span) is Err
            &&& binary_result(m, BinOp::Add, x, y, span) == binary_result(m, BinOp::Add, y, x, span)
            &&& binary_result(m, BinOp::Add, x, y, span) matches Ok(sum) ==> gives_int(
                m,
                binary_result(m, BinOp::Sub, sum.1, y, span),
                a as int,
            )
            &&& unary_result(m, UnOp::Invert, x, span) matches Ok(flipped) && gives_int(
                m,
                binary_result(m, BinOp::Add, x, flipped.1, span),
                -1,
            )
        }),
{
}

/// A quotient and a remainder of integers make up the dividend, and the remainder lies between zero and the divisor on
/// the divisor's side. Dividing by zero fails by that name, whichever operator it is.
pub proof fn law_quotients_and_remainders_fit(m: Machine, a: i64, b: i64, span: HirSourceSpan)
    ensures
        ({
            let (x, y) = (ValueModel::Int(a), ValueModel::Int(b));
            let quotient = binary_result(m, BinOp::FloorDiv, x, y, span);
            let remainder = binary_result(m, BinOp::Mod, x, y, span);
            &&& b == 0 ==> fails(quotient, "division or modulo by zero"@, span) && fails(
                remainder,
                "division or modulo by zero"@,
                span,
            ) && fails(binary_result(m, BinOp::Div, x, y, span), "division or modulo by zero"@, span)
            &&& b != 0 ==> (remainder matches Ok(r) && r.0 == m && r.1 is Int && (if b > 0 {
                0 <= r.1->Int_0 < b
            } else {
                b < r.1->Int_0 <= 0
            }) && (quotient matches Ok(q) ==> q.0 == m && q.1 is Int && q.1->Int_0 * b + r.1->Int_0 == a))
            &&& b != 0 && !(a == i64::MIN && b == -1) ==> quotient is Ok
            &&& a == i64::MIN && b == -1 ==> fails(quotient, "integer division overflow"@, span)
        }),
{
    if b != 0 {
        let (q, r) = (floor_quotient(a as int, b as int), floor_remainder(a as int, b as int));
        law_floor_division(a as int, b as int);
        if !(a == i64::MIN && b == -1) {
            assert(i64::MIN <= q <= i64::MAX) by (nonlinear_arith)
                requires
                    q * b + r == a,
                    b > 0 ==> 0 <= r < b,
                    b < 0 ==> b < r <= 0,
                    b != 0,
                    i64::MIN <= a <= i64::MAX,
                    i64::MIN <= b <= i64::MAX,
                    !(a == i64::MIN && b == -1),
            ;
        }
    }
}

/// The comparisons of integers are one order: exactly one of less, equal and greater holds, the weak ones are these with
/// equality, and to compare the other way round is to ask the opposite.
pub proof fn law_comparisons_are_one_order(m: Machine, a: i64, b: i64, span: HirSourceSpan)
    ensures
        ({
            let (x, y) = (ValueModel::Int(a), ValueModel::Int(b));
            &&& gives_flag(m, binary_result(m, BinOp::Lt, x, y, span), a < b)
            &&& gives_flag(m, binary_result(m, BinOp::Eq, x, y, span), a == b)
            &&& gives_flag(m, binary_result(m, BinOp::Ne, x, y, span), a < b || b < a)
            &&& gives_flag(m, binary_result(m, BinOp::Le, x, y, span), !(b < a))
            &&& binary_result(m, BinOp::Gt, x, y, span) == binary_result(m, BinOp::Lt, y, x, span)
            &&& binary_result(m, BinOp::Ge, x, y, span) == binary_result(m, BinOp::Le, y, x, span)
        }),
{
}

/// Conjunction, disjunction and negation of flags are those of logic: a disjunction fails exactly where both negations
/// are given, and a conjunction is given exactly where both are.
pub proof fn law_flags_follow_logic(m: Machine, a: bool, b: bool, span: HirSourceSpan)
    ensures
        ({
            let (x, y) = (ValueModel::Bool(a), ValueModel::Bool(b));
            let (no_x, no_y) = (ValueModel::Bool(!a), ValueModel::Bool(!b));
            &&& gives_flag(m, unary_result(m, UnOp::Not, x, span), !a)
            &&& gives_flag(m, binary_result(m, BinOp::And, x, y, span), a && b)
            &&& gives_flag(m, binary_result(m, BinOp::Or, x, y, span), !(!a && !b))
            &&& binary_result(m, BinOp::Or, no_x, no_y, span) matches Ok(either) && unary_result(
                m,
                UnOp::Not,
                either.1,
                span,
            ) == binary_result(m, BinOp::And, x, y, span)
        }),
{
}

/// Scalars are equal exactly where they are the same, whatever their kinds, and unequal otherwise. Nothing else is
/// compared.
pub proof fn law_equality_is_sameness(m: Machine, left: ValueModel, right: ValueModel, span: HirSourceSpan)
    ensures
        scalar(left) && scalar(right) ==> gives_flag(
            m,
            binary_result(m, BinOp::Eq, left, right, span),
            left == right,
        ) && gives_flag(m, binary_result(m, BinOp::Ne, left, right, span), left != right),
        !scalar(left) || !scalar(right) ==> binary_result(m, BinOp::Eq, left, right, span) is Err && binary_result(
            m,
            BinOp::Ne,
            left,
            right,
            span,
        ) is Err,
        scalar(left) <==> left is Int || left is Bool || left is Str || left is Unit,
        !(left is Int && right is Int) ==> binary_result(m, BinOp::Add, left, right, span) is Err && binary_result(
            m,
            BinOp::Lt,
            left,
            right,
            span,
        ) is Err,
{
}

/// Two strings are concatenated, the left one first.
pub proof fn law_strings_are_concatenated(m: Machine, left: String, right: String, span: HirSourceSpan)
    ensures
        concat_run(
            m,
            seq![Operand::Constant(Constant::Str(left)), Operand::Constant(Constant::Str(right))],
            span,
        ) matches Ok(done) && done.0 == m && done.1 == ValueModel::Str(left@ + right@),
{
    let args = seq![Operand::Constant(Constant::Str(left)), Operand::Constant(Constant::Str(right))];
    assert(operand_run(m, args[0], span) is Ok);
    assert(operand_run(m, args[1], span) is Ok);
}

// ---------------------------------------------------------------------------
// Reads
// ---------------------------------------------------------------------------

/// Literals are the values they spell.
pub proof fn law_literals_are_their_values(m: Machine, number: i64, flag: bool, text: String, span: HirSourceSpan)
    ensures
        operand_run(m, Operand::Constant(Constant::Int(number)), span) == Ok::<_, Halt>((m, ValueModel::Int(number))),
        operand_run(m, Operand::Constant(Constant::Bool(flag)), span) == Ok::<_, Halt>((m, ValueModel::Bool(flag))),
        operand_run(m, Operand::Constant(Constant::Str(text)), span) == Ok::<_, Halt>((m, ValueModel::Str(text@))),
        operand_run(m, Operand::Constant(Constant::Unit), span) == Ok::<_, Halt>((m, ValueModel::Unit)),
        operand_run(m, Operand::Constant(Constant::NoneLiteral), span) == Ok::<_, Halt>((m, ValueModel::Unit)),
{
}

/// A read of a local gives what the local holds and is noted. A move takes the value out, so that every later read of
/// the local fails; any other read leaves it where it is. Only plain values are copied, and a local that holds nothing
/// is not read.
pub proof fn law_reads_own_what_they_say(m: Machine, read: PlaceOperand, later: PlaceOperand, span: HirSourceSpan)
    requires
        read.place.projection@.len() == 0,
        later.place.projection@.len() == 0,
        later.place.local == read.place.local,
    ensures
        operand_run(m, Operand::Place(read), span) matches Ok(done) ==> {
            &&& m.locals.contains_key(read.place.local)
            &&& done.1 == m.locals[read.place.local]
            &&& done.0.reads == m.reads.push(OwnershipRead { span, fact: read.fact, last_use: read.last_use })
            &&& done.0.steps == m.steps
            &&& read.fact is Move ==> done.0.locals == m.locals.remove(read.place.local) && operand_run(
                done.0,
                Operand::Place(later),
                span,
            ) is Err
            &&& !(read.fact is Move) ==> done.0.locals == m.locals
            &&& read.fact is Copy ==> done.1 is Int || done.1 is Bool || done.1 is Unit
        },
        operand_run(m, Operand::Place(read), span) is Ok <==> m.locals.contains_key(read.place.local) && !(
        read.fact is Unknown) && (read.fact is Copy ==> m.locals[read.place.local] is Int
            || m.locals[read.place.local] is Bool || m.locals[read.place.local] is Unit),
{
    match operand_run(m, Operand::Place(read), span) {
        Ok((after, _)) => {
            if read.fact is Move {
                assert(!after.locals.contains_key(read.place.local));
                assert(operand_run(after, Operand::Place(later), span) is Err);
            }
        },
        Err(_) => {},
    }
}

/// The fields of a pair are its first and its second value.
pub proof fn law_pairs_have_two_fields(
    m: Machine,
    place: Place,
    first: ValueModel,
    second: ValueModel,
    span: HirSourceSpan,
)
    requires
        m.locals.contains_key(place.local),
        m.locals[place.local] == ValueModel::Tuple(seq![first, second]),
        scalar(first) && scalar(second),
        place.projection@.len() == 1,
    ensures
        ({
            let read = PlaceOperand { place, fact: OwnershipFact::Borrow, last_use: false };
            match place.projection@[0] {
                PlaceElem::Field(field) => (field@ == "0"@ || field@ == "1"@) ==> (operand_run(
                    m,
                    Operand::Place(read),
                    span,
                ) matches Ok(done) && done.1 == (if field@ == "0"@ {
                    first
                } else {
                    second
                })),
                _ => true,
            }
        }),
{
    reveal_strlit("0");
    reveal_strlit("1");
    assert("0"@[0] != "1"@[0]);
    let pair = seq![first, second];
    assert(pair[0] == first && pair[1] == second);
    let read = PlaceOperand { place, fact: OwnershipFact::Borrow, last_use: false };
    let noted = Machine {
        reads: m.reads.push(OwnershipRead { span, fact: read.fact, last_use: read.last_use }),
        ..m
    };
    match place.projection@[0] {
        PlaceElem::Field(field) => {
            if field@ == "0"@ || field@ == "1"@ {
                assert(projected(noted, ValueModel::Tuple(pair), place, span) is Ok);
            }
        },
        _ => {},
    }
}

// ---------------------------------------------------------------------------
// Statements
// ---------------------------------------------------------------------------

/// An assignment gives its local the value and changes no other local; a drop takes the local's value away and no
/// other.
pub proof fn law_assignments_change_one_local(p: BodyIrModule, fuel: nat, m: Machine, statement: Statement)
    requires
        fuel >= 1,
    ensures
        match statement.kind {
            StatementKind::Assign { place, rvalue: Rvalue::Use(operand) } => place.projection@.len() == 0 ==> (
            match operand_run(m, operand, statement.span) {
                Ok((after, value)) => statement_run(p, fuel, m, statement) == Ok::<_, Halt>(
                    (Machine { locals: after.locals.insert(place.local, value), ..after }, FlowModel::Next),
                ),
                Err(halt) => statement_run(p, fuel, m, statement) == Err::<(Machine, FlowModel), _>(halt),
            }),
            _ => true,
        },
        statement.kind matches StatementKind::Drop { local } ==> (statement_run(p, fuel, m, statement) matches Ok(done)
            && done.1 is Next && done.0 == (Machine { locals: m.locals.remove(local), ..m })),
{
    match statement.kind {
        StatementKind::Assign { place, rvalue: Rvalue::Use(operand) } => {
            assert(operand_run(m, operand, statement.span) == operand_run(m, operand, statement.span));
        },
        _ => {},
    }
}

/// A conditional executes one of its branches: the first where its condition holds, the other, or nothing, where it
/// does not.
pub proof fn law_conditions_choose_a_branch(p: BodyIrModule, fuel: nat, m: Machine, statement: Statement)
    requires
        fuel >= 1,
    ensures
        statement.kind matches StatementKind::If {
            cond: Operand::Constant(Constant::Bool(holds)),
            then_block,
            else_block,
        } ==> statement_run(p, fuel, m, statement) == (if holds {
            block_run(p, (fuel - 1) as nat, m, then_block.stmts@, 0)
        } else {
            match else_block {
                Some(block) => block_run(p, (fuel - 1) as nat, m, block.stmts@, 0),
                None => Ok((m, FlowModel::Next)),
            }
        }),
{
    match statement.kind {
        StatementKind::If { cond, .. } => {
            assert(operand_run(m, cond, statement.span) == operand_run(m, cond, statement.span));
        },
        _ => {},
    }
}

/// An assertion that holds changes nothing; one that does not fails, and says so before its message.
pub proof fn law_assertions_hold_or_fail(p: BodyIrModule, fuel: nat, m: Machine, statement: Statement)
    requires
        fuel >= 1,
    ensures
        statement.kind matches StatementKind::Assert {
            cond: Operand::Constant(Constant::Bool(holds)),
            message,
            may_panic,
        } ==> {
            &&& holds ==> statement_run(p, fuel, m, statement) == Ok::<_, Halt>((m, FlowModel::Next))
            &&& !holds && message is None ==> fails(
                statement_run(p, fuel, m, statement),
                "assertion failed"@,
                statement.span,
            )
            &&& !holds && (message matches Some(Operand::Constant(Constant::Str(text)))) ==> fails(
                statement_run(p, fuel, m, statement),
                "assertion failed: "@ + message->Some_0->Constant_0->Str_0@,
                statement.span,
            )
        },
{
    match statement.kind {
        StatementKind::Assert { cond, message, .. } => {
            assert(operand_run(m, cond, statement.span) == operand_run(m, cond, statement.span));
            match message {
                Some(message) => {
                    assert(operand_run(m, message, statement.span) == operand_run(m, message, statement.span));
                },
                None => {},
            }
        },
        _ => {},
    }
}

/// A statement that transfers control does so where it says: a break leaves, a continue goes on, and a return leaves
/// with its value.
pub proof fn law_control_goes_where_it_says(p: BodyIrModule, fuel: nat, m: Machine, statement: Statement)
    requires
        fuel >= 1,
    ensures
        statement.kind matches StatementKind::Break { value } ==> (if value is None {
            statement_run(p, fuel, m, statement) == Ok::<_, Halt>((m, FlowModel::Break))
        } else {
            statement_run(p, fuel, m, statement) is Err
        }),
        statement.kind is Continue ==> statement_run(p, fuel, m, statement) == Ok::<_, Halt>((m, FlowModel::Continue)),
        statement.kind matches StatementKind::Return { value } ==> (match value {
            None => statement_run(p, fuel, m, statement) == Ok::<_, Halt>((m, FlowModel::Return(None))),
            Some(operand) => match operand_run(m, operand, statement.span) {
                Ok((after, value)) => statement_run(p, fuel, m, statement) == Ok::<_, Halt>(
                    (after, FlowModel::Return(Some(value))),
                ),
                Err(_) => statement_run(p, fuel, m, statement) is Err,
            },
        }),
{
}

/// A block stops at the first statement that transfers control: what stands behind it is not executed. A block whose
/// statements all go on ends by going on, and each statement counts.
pub proof fn law_blocks_stop_where_control_leaves(
    p: BodyIrModule,
    fuel: nat,
    m: Machine,
    stmts: Seq<Statement>,
    from: int,
    at: int,
)
    requires
        0 <= from <= at < stmts.len(),
        stmts[at].kind is Break || stmts[at].kind is Continue || stmts[at].kind is Return,
    ensures
        block_run(p, fuel, m, stmts, from) == block_run(p, fuel, m, stmts.take(at + 1), from),
        block_run(p, fuel, m, stmts, from) matches Ok(done) ==> !(done.1 is Next) && done.0.steps > m.steps,
    decreases at - from,
{
    let cut = stmts.take(at + 1);
    assert(cut[from] == stmts[from]);
    if fuel > 0 {
        match stepped(m, stmts[from].span) {
            Err(_) => {},
            Ok(counted) => {
                if fuel > 1 {
                    law_control_goes_where_it_says(p, (fuel - 1) as nat, counted, stmts[from]);
                    law_statements_keep_evidence(
                        p,
                        (fuel - 1) as nat,
                        counted,
                        stmts[from],
                    );
                }
                match statement_run(p, (fuel - 1) as nat, counted, stmts[from]) {
                    Err(_) => {},
                    Ok((after, flow)) => {
                        if flow is Next {
                            law_blocks_stop_where_control_leaves(p, fuel, after, stmts, from + 1, at);
                        }
                    },
                }
            },
        }
    }
}

/// A loop is left by a break or a return of its body, and by nothing else: it goes on where its body ends or continues,
/// ends by going on where its body breaks, and returns what its body returns. To the outside it never breaks or
/// continues.
pub proof fn law_loops_repeat_until_left(
    p: BodyIrModule,
    fuel: nat,
    m: Machine,
    stmts: Seq<Statement>,
    span: HirSourceSpan,
)
    requires
        fuel >= 1,
    ensures
        loop_run(p, fuel, m, stmts, span) matches Ok(done) ==> done.1 is Next || done.1 is Return,
        block_run(p, (fuel - 1) as nat, m, stmts, 0) matches Ok(round) ==> {
            &&& round.1 is Break ==> loop_run(p, fuel, m, stmts, span) == Ok::<_, Halt>((round.0, FlowModel::Next))
            &&& round.1 is Return ==> loop_run(p, fuel, m, stmts, span) == Ok::<_, Halt>(round)
            &&& (round.1 is Next || round.1 is Continue) && stmts.len() > 0 && round.0.steps < MAX_EXECUTION_STEPS
                ==> loop_run(p, fuel, m, stmts, span) == loop_run(p, (fuel - 1) as nat, round.0, stmts, span)
        },
    decreases fuel,
{
    let less = (fuel - 1) as nat;
    match block_run(p, less, m, stmts, 0) {
        Ok((after, _)) => {
            let counted = if stmts.len() == 0 {
                Machine { steps: next_step(after.steps), ..after }
            } else {
                after
            };
            if less >= 1 {
                law_loops_repeat_until_left(p, less, counted, stmts, span);
            } else {
                assert(loop_run(p, less, counted, stmts, span) is Err);
            }
        },
        Err(_) => {},
    }
}

// ---------------------------------------------------------------------------
// Lazy adapters
// ---------------------------------------------------------------------------

/// Whether an iterator, in some state of a run, gives an item for which a callable answers as it should.
pub open spec fn offers(
    p: BodyIrModule,
    callback: CallableModel,
    item: ValueModel,
    answer: ValueModel,
    span: HirSourceSpan,
) -> bool {
    exists|fuel: nat, m: Machine, source: ValueModel|
        #[trigger] poll_run(p, fuel, m, source, span) matches Ok(polled) && polled.1.1 == Some(item) && (invoke_run(
            p,
            fuel,
            polled.0,
            callback,
            seq![Some(item)],
            span,
        ) matches Ok(called) && called.1 == answer)
}

/// A mapping adapter gives what its callable answers for an item of its source; a filtering adapter gives an item of its
/// source, unchanged, for which its callable answers true. Either ends only where its source does.
pub proof fn law_adapters_map_and_filter(
    p: BodyIrModule,
    fuel: nat,
    m: Machine,
    source: ValueModel,
    callback: CallableModel,
    kind: ReplacementAdapterKind,
    span: HirSourceSpan,
)
    ensures
        adapter_poll_run(p, fuel, m, source, callback, kind, span) matches Ok(done) ==> (match done.1.1 {
            Some(given) => match kind {
                ReplacementAdapterKind::MapItems => exists|item: ValueModel| #[trigger]
                    offers(p, callback, item, given, span),
                ReplacementAdapterKind::FilterItems => offers(p, callback, given, ValueModel::Bool(true), span),
            },
            None => exists|less: nat, last: ValueModel, before: Machine|
                #[trigger] poll_run(p, less, before, last, span) matches Ok(polled) && polled.1.1 is None && polled.1.0
                    == done.1.0,
        }),
        // An item for which the callable answers true is given at once.
        fuel > 0 && kind is FilterItems ==> (match poll_run(p, (fuel - 1) as nat, m, source, span) {
            Ok((after, (rest, Some(item)))) => match invoke_run(
                p,
                (fuel - 1) as nat,
                after,
                callback,
                seq![Some(item)],
                span,
            ) {
                Ok((called, answer)) => answer == ValueModel::Bool(true) ==> adapter_poll_run(
                    p,
                    fuel,
                    m,
                    source,
                    callback,
                    kind,
                    span,
                ) == Ok::<_, Halt>((called, (rest, Some(item)))),
                Err(_) => true,
            },
            _ => true,
        }),
    decreases fuel,
{
    if fuel > 0 {
        let less = (fuel - 1) as nat;
        match poll_run(p, less, m, source, span) {
            Ok((after, (rest, Some(item)))) => match invoke_run(p, less, after, callback, seq![Some(item)], span) {
                Ok((called, answer)) => {
                    assert(offers(p, callback, item, answer, span));
                    law_adapters_map_and_filter(p, less, called, rest, callback, kind, span);
                },
                Err(_) => {},
            },
            _ => {},
        }
    }
}

// ---------------------------------------------------------------------------
// Calls
// ---------------------------------------------------------------------------

/// Every parameter whose value a call supplies holds that value in the callee's frame, and what the frame held before
/// stays.
pub proof fn law_supplied_values_reach_their_parameters(
    p: BodyIrModule,
    fuel: nat,
    m: Machine,
    params: Seq<CallableParam>,
    supplied: Seq<Option<ValueModel>>,
    captures: Map<LocalId, ValueModel>,
    env: Map<LocalId, ValueModel>,
    from: int,
    span: HirSourceSpan,
)
    requires
        0 <= from,
    ensures
        bound_run(p, fuel, m, params, supplied, captures, env, from, span) matches Ok(done) ==> {
            &&& forall|local: LocalId| #[trigger] env.contains_key(local) ==> done.1.contains_key(local)
                && done.1[local] == env[local]
            &&& forall|i: int|
                from <= i < params.len() && (#[trigger] supplied[i] is Some) ==> done.1.contains_key(params[i].local)
                    && done.1[params[i].local] == supplied[i]->Some_0
        },
    decreases params.len() - from,
{
    if supplied.len() == params.len() && from < params.len() && fuel > 0 {
        match parameter_run(p, (fuel - 1) as nat, m, params[from], supplied[from], captures, span) {
            Err(_) => {},
            Ok((after, value)) => {
                let local = params[from].local;
                if !env.contains_key(local) {
                    let more = env.insert(local, value);
                    law_supplied_values_reach_their_parameters(
                        p,
                        fuel,
                        after,
                        params,
                        supplied,
                        captures,
                        more,
                        from + 1,
                        span,
                    );
                    match bound_run(p, fuel, after, params, supplied, captures, more, from + 1, span) {
                        Ok((_, bound)) => {
                            assert(more.contains_key(local));
                            assert forall|kept: LocalId| #[trigger] env.contains_key(kept) implies bound.contains_key(
                                kept,
                            ) && bound[kept] == env[kept] by {
                                assert(more.contains_key(kept));
                            }
                        },
                        Err(_) => {},
                    }
                }
            },
        }
    }
}

/// A function that returns one of its parameters gives back the argument at that place.
pub proof fn law_functions_return_their_arguments(
    p: BodyIrModule,
    fuel: nat,
    body: Body,
    args: Seq<ValueModel>,
    at: int,
    read: PlaceOperand,
)
    requires
        0 <= at < args.len() <= body.params@.len(),
        body.block.stmts@.len() > 0,
        body.block.stmts@[0].kind == (StatementKind::Return { value: Some(Operand::Place(read)) }),
        read.place.local == body.params@[at].local,
        read.place.projection@.len() == 0,
    ensures
        body_run(p, fuel, body, args) matches Ok(done) ==> done.1 == args[at],
{
    let slots = leading_slots(args, body.params@.len());
    let start = recorded(frame(Map::empty(), 0), body);
    law_supplied_values_reach_their_parameters(
        p,
        fuel,
        start,
        body.params@,
        slots,
        Map::empty(),
        Map::empty(),
        0,
        body.span,
    );
    assert(slots[at] is Some);
    match bound_run(p, fuel, start, body.params@, slots, Map::empty(), Map::empty(), 0, body.span) {
        Err(_) => {},
        Ok((m, env)) => {
            let inside = Machine { locals: env, ..m };
            let stmts = body.block.stmts@;
            if fuel > 1 {
                match stepped(inside, stmts[0].span) {
                    Err(_) => {},
                    Ok(counted) => {
                        law_control_goes_where_it_says(p, (fuel - 1) as nat, counted, stmts[0]);
                        law_reads_own_what_they_say(counted, read, read, stmts[0].span);
                    },
                }
            }
        },
    }
}

/// Whether a slot holds what one of the arguments that are bound to it evaluates to.
pub open spec fn comes_from(
    arguments: Seq<BoundArgument>,
    args: Seq<Operand>,
    slot: int,
    value: ValueModel,
    span: HirSourceSpan,
) -> bool {
    exists|i: int, m: Machine|
        0 <= i < arguments.len() && arguments[i].slot == slot && (#[trigger] operand_run(
            m,
            args[i],
            span,
        ) matches Ok(done) && done.1 == value)
}

/// An argument goes to the slot that it is bound to, and to no other: a slot holds what it held before, or what an
/// argument that is bound to it evaluates to.
pub proof fn law_arguments_go_to_their_slots(
    m: Machine,
    arguments: Seq<BoundArgument>,
    args: Seq<Operand>,
    done: Seq<bool>,
    round: int,
    supplied: Seq<Option<ValueModel>>,
    span: HirSourceSpan,
)
    requires
        done.len() == arguments.len(),
    ensures
        arguments_run(m, arguments, args, done, round, supplied, span) matches Ok(given) ==> {
            &&& given.1.len() == supplied.len()
            &&& forall|slot: int|
                0 <= slot < supplied.len() && supplied[slot] is Some ==> #[trigger] given.1[slot] == supplied[slot]
            &&& forall|slot: int|
                0 <= slot < supplied.len() && supplied[slot] is None && (#[trigger] given.1[slot] is Some)
                    ==> comes_from(arguments, args, slot, given.1[slot]->Some_0, span)
        },
    decreases arguments.len() - round,
{
    if 0 <= round < arguments.len() {
        earliest_is_one(arguments, done, 0, None);
        match earliest(arguments, done, 0, None) {
            None => {},
            Some(at) => {
                let slot = arguments[at].slot as int;
                match operand_run(m, args[at], span) {
                    Err(_) => {},
                    Ok((after, value)) => {
                        if slot < supplied.len() && supplied[slot] is None {
                            let more = supplied.update(slot, Some(value));
                            law_arguments_go_to_their_slots(
                                after,
                                arguments,
                                args,
                                done.update(at, true),
                                round + 1,
                                more,
                                span,
                            );
                            assert(comes_from(arguments, args, slot, value, span));
                        }
                    },
                }
            },
        }
    }
}

proof fn earliest_is_one(arguments: Seq<BoundArgument>, done: Seq<bool>, from: int, best: Option<int>)
    requires
        0 <= from,
        best matches Some(b) ==> 0 <= b < arguments.len(),
    ensures
        earliest(arguments, done, from, best) matches Some(at) ==> 0 <= at < arguments.len(),
    decreases arguments.len() - from,
{
    if from < arguments.len() {
        let better = !done[from] && (match best {
            None => true,
            Some(b) => arguments[from].written_position < arguments[b].written_position,
        });
        earliest_is_one(
            arguments,
            done,
            from + 1,
            if better {
                Some(from)
            } else {
                best
            },
        );
    }
}

} // verus!
