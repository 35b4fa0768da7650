//! What a body is held to before it executes or is stored as a lazy frame.

use crate::body_ir::{Body, BodyIrModule, HirSourceSpan, LocalDecl, LocalOrigin, NamedCallableTarget};
use crate::replacement::error::{unsupported, ErrorModel, ReplacementExecutionError};
use crate::replacement::profile::{
    generator_refusal, params_refusal, refuse, statements_refusal, validate_block_profile,
    validate_callable_params_profile, validate_generator_statements_profile, verdict,
};
use crate::replacement::typing::{
    builtin_iteration_destinations, iterated_locals, listed_locals, range_iterator_locals, range_locals,
    scalar_tuple_collection_elements, tuple_locals, types_refusal, validate_collection_local_types,
};
use crate::replacement::value::{kind_of, models, scalar, value_kind, ReplacementValue, ValueModel};
use crate::text::same_text;
use std::rc::Rc;
use vstd::prelude::*;

verus! {

broadcast use vstd::string::group_string_axioms;

/// Whether two declarations spell the same user binding.
pub open spec fn same_binding(a: LocalDecl, b: LocalDecl) -> bool {
    &&& a.origin is UserBinding
    &&& b.origin is UserBinding
    &&& a.name matches Some(x)
    &&& b.name matches Some(y)
    &&& x@ == y@
}

/// Whether a declaration repeats a user binding that an earlier one spells.
pub open spec fn repeats_binding(locals: Seq<LocalDecl>, at: int) -> bool {
    exists|j: int| 0 <= j < at && same_binding(#[trigger] locals[j], locals[at])
}

/// The first refusal of a repeated user binding from a place in the run on.
pub open spec fn binding_refusal(locals: Seq<LocalDecl>, from: int) -> Option<ErrorModel>
    decreases locals.len() - from,
{
    if from < 0 || from >= locals.len() {
        None
    } else if repeats_binding(locals, from) {
        refuse(
            "repeated user binding `"@ + locals[from].name->0@
                + "` (lexical shadowing or reassignment); Body IR does not yet carry binding-equivalence facts for direct execution"@,
            locals[from].span,
        )
    } else {
        binding_refusal(locals, from + 1)
    }
}

/// Decides whether two declarations spell the same user binding.
fn spell_same_binding(a: &LocalDecl, b: &LocalDecl) -> (same: bool)
    ensures
        same == same_binding(*a, *b),
{
    match (a.origin, b.origin, &a.name, &b.name) {
        (LocalOrigin::UserBinding, LocalOrigin::UserBinding, Some(x), Some(y)) => same_text(x.as_str(), y.as_str()),
        _ => false,
    }
}

/// Refuses repeated user-binding spellings: a local alone does not tell reassignment from shadowing.
fn validate_binding_identity(body: &Body) -> (outcome: Result<(), ReplacementExecutionError>)
    ensures
        verdict(outcome) == binding_refusal(body.locals@, 0),
{
    let mut i: usize = 0;
    while i < body.locals.len()
        invariant
            i <= body.locals@.len(),
            binding_refusal(body.locals@, 0) == binding_refusal(body.locals@, i as int),
        decreases body.locals@.len() - i,
    {
        let mut j: usize = 0;
        while j < i
            invariant
                j <= i < body.locals@.len(),
                forall|k: int| 0 <= k < j ==> !same_binding(#[trigger] body.locals@[k], body.locals@[i as int]),
                binding_refusal(body.locals@, 0) == binding_refusal(body.locals@, i as int),
            decreases i - j,
        {
            if spell_same_binding(&body.locals[j], &body.locals[i]) {
                let name: &str = match &body.locals[i].name {
                    Some(name) => name.as_str(),
                    None => "",
                };
                return Err(
                    unsupported(
                        "repeated user binding `".to_owned().concat(name).concat(
                            "` (lexical shadowing or reassignment); Body IR does not yet carry binding-equivalence facts for direct execution",
                        ).as_str(),
                        body.locals[i].span,
                    ),
                );
            }
            j += 1;
        }
        i += 1;
    }
    Ok(())
}

/// The refusal of a body: every invariant that direct execution rests on.
pub open spec fn body_refusal(body: Body) -> Option<ErrorModel> {
    let stmts = body.block.stmts@;
    let iterated = iterated_locals(stmts);
    let pairs = tuple_locals(stmts).intersect(listed_locals(stmts));
    if body.is_async {
        refuse("async task body"@, body.span)
    } else {
        match binding_refusal(body.locals@, 0) {
            Some(error) => Some(error),
            None => match types_refusal(body, stmts, 0, range_locals(stmts)) {
                Some(error) => Some(error),
                None => match params_refusal(body.params@, 0) {
                    Some(error) => Some(error),
                    None => if body.yields {
                        generator_refusal(stmts, 0, iterated, pairs)
                    } else {
                        statements_refusal(stmts, 0, iterated, pairs)
                    },
                },
            },
        }
    }
}

/// Checks every direct-execution invariant of one body.
///
/// The selected entrypoint and every callee by name are held to this.
pub fn validate_direct_body_profile(body: &Body) -> (outcome: Result<(), ReplacementExecutionError>)
    ensures
        verdict(outcome) == body_refusal(*body),
{
    if body.is_async {
        return Err(unsupported("async task body", body.span));
    }
    validate_binding_identity(body)?;
    let ranges = range_iterator_locals(&body.block);
    validate_collection_local_types(body, &body.block.stmts, &ranges)?;
    let iterated = builtin_iteration_destinations(&body.block);
    let pairs = scalar_tuple_collection_elements(&body.block);
    validate_callable_params_profile(&body.params)?;
    if body.is_generator() {
        validate_generator_statements_profile(&body.block.stmts, &iterated, &pairs)
    } else {
        validate_block_profile(&body.block, &iterated, &pairs)
    }
}

/// The first body of a name from a place in the run on.
pub open spec fn first_named(bodies: Seq<Rc<Body>>, from: int, name: Seq<char>) -> Option<Rc<Body>>
    decreases bodies.len() - from,
{
    if from < 0 || from >= bodies.len() {
        None
    } else if bodies[from].name@ == name {
        Some(bodies[from])
    } else {
        first_named(bodies, from + 1, name)
    }
}

/// Finds the first body of a name.
fn find_body<'a>(module: &'a BodyIrModule, from: usize, name: &str) -> (found: Option<(usize, &'a Rc<Body>)>)
    ensures
        match found {
            Some((at, body)) => from <= at < module.bodies@.len() && first_named(
                module.bodies@,
                from as int,
                name@,
            ) == Some(*body) && (forall|k: int| from <= k < at ==> (#[trigger] module.bodies@[k]).name@ != name@)
                && module.bodies@[at as int] == *body && body.name@ == name@,
            None => first_named(module.bodies@, from as int, name@) is None,
        },
{
    let mut i: usize = from;
    while i < module.bodies.len()
        invariant
            from <= i,
            first_named(module.bodies@, from as int, name@) == first_named(module.bodies@, i as int, name@),
            forall|k: int| from <= k < i ==> (#[trigger] module.bodies@[k]).name@ != name@,
        decreases module.bodies@.len() - i,
    {
        if same_text(module.bodies[i].name.as_str(), name) {
            return Some((i, &module.bodies[i]));
        }
        i += 1;
    }
    None
}

/// Locates the requested free-function body.
pub fn named_free_function<'a>(module: &'a BodyIrModule, name: &str) -> (found: Result<
    &'a Rc<Body>,
    ReplacementExecutionError,
>)
    ensures
        match found {
            Ok(body) => first_named(module.bodies@, 0, name@) == Some(*body),
            Err(error) => first_named(module.bodies@, 0, name@) is None && error@ == ErrorModel::MissingFunction(
                name@,
            ),
        },
{
    match find_body(module, 0, name) {
        Some((_, body)) => Ok(body),
        None => Err(ReplacementExecutionError::MissingFunction { name: name.to_owned() }),
    }
}

/// Whether two bodies of a module carry the same name.
pub open spec fn ambiguous(bodies: Seq<Rc<Body>>, name: Seq<char>) -> bool {
    exists|i: int, j: int|
        0 <= i < j < bodies.len() && (#[trigger] bodies[i]).name@ == name && (#[trigger] bodies[j]).name@ == name
}

/// The body that a call by name reaches, or why it reaches none.
pub open spec fn callable_body(module: BodyIrModule, name: Seq<char>, span: HirSourceSpan) -> Result<
    Rc<Body>,
    ErrorModel,
> {
    match first_named(module.bodies@, 0, name) {
        None => Err(
            ErrorModel::Unsupported("named callable `"@ + name + "` outside this Body-IR module"@, span),
        ),
        Some(body) => if ambiguous(module.bodies@, name) {
            Err(ErrorModel::Unsupported("ambiguous named callable `"@ + name + "` in Body IR"@, span))
        } else {
            Ok(body)
        },
    }
}

/// Resolves a call by name to the one body of that name.
pub fn named_callable_body<'a>(module: &'a BodyIrModule, target: &NamedCallableTarget, span: HirSourceSpan) -> (found: Result<
    &'a Rc<Body>,
    ReplacementExecutionError,
>)
    ensures
        match found {
            Ok(body) => callable_body(*module, target.name@, span) == Ok::<Rc<Body>, ErrorModel>(*body),
            Err(error) => callable_body(*module, target.name@, span) == Err::<Rc<Body>, ErrorModel>(error@),
        },
{
    let name: &str = target.name.as_str();
    let count: usize = module.bodies.len();
    match find_body(module, 0, name) {
        None => Err(
            unsupported(
                "named callable `".to_owned().concat(name).concat("` outside this Body-IR module").as_str(),
                span,
            ),
        ),
        Some((at, body)) => match find_body(module, at + 1, name) {
            Some((again, _)) => {
                proof {
                    assert(module.bodies@[at as int].name@ == name@ && module.bodies@[again as int].name@ == name@);
                }
                Err(
                    unsupported(
                        "ambiguous named callable `".to_owned().concat(name).concat("` in Body IR").as_str(),
                        span,
                    ),
                )
            },
            None => {
                proof {
                    lemma_unnamed_behind(module.bodies@, at + 1, name@);
                }
                Ok(body)
            },
        },
    }
}

/// Where no body of a name is found from a place on, none is there.
proof fn lemma_unnamed_behind(bodies: Seq<Rc<Body>>, from: int, name: Seq<char>)
    requires
        0 <= from,
        first_named(bodies, from, name) is None,
    ensures
        forall|k: int| from <= k < bodies.len() ==> (#[trigger] bodies[k]).name@ != name,
    decreases bodies.len() - from,
{
    if from < bodies.len() {
        lemma_unnamed_behind(bodies, from + 1, name);
    }
}

/// The refusal of a module that declares a `range` of its own.
pub open spec fn range_refusal(module: BodyIrModule) -> Option<ErrorModel> {
    match first_named(module.bodies@, 0, "range"@) {
        Some(body) => refuse(
            "same-module `range` declaration; Body IR has no canonical builtin target identity"@,
            body.span,
        ),
        None => None,
    }
}

/// Refuses a module that declares a `range` of its own: the spelling would be ambiguous.
pub fn validate_unambiguous_range_builtin(module: &BodyIrModule) -> (outcome: Result<(), ReplacementExecutionError>)
    ensures
        verdict(outcome) == range_refusal(*module),
{
    match find_body(module, 0, "range") {
        Some((_, body)) => Err(
            unsupported(
                "same-module `range` declaration; Body IR has no canonical builtin target identity",
                body.span,
            ),
        ),
        None => Ok(()),
    }
}

/// The first refusal of an argument that is no scalar, from a place in the run on.
pub open spec fn arguments_refusal(args: Seq<ValueModel>, from: int, span: HirSourceSpan) -> Option<ErrorModel>
    decreases args.len() - from,
{
    if from < 0 || from >= args.len() {
        None
    } else if !scalar(args[from]) {
        refuse(kind_of(args[from]) + " argument in the scalar replacement profile"@, span)
    } else {
        arguments_refusal(args, from + 1, span)
    }
}

/// Refuses arguments that are no scalars.
pub fn validate_scalar_arguments(args: &[ReplacementValue], span: HirSourceSpan) -> (outcome: Result<
    (),
    ReplacementExecutionError,
>)
    ensures
        verdict(outcome) == arguments_refusal(models(args@), 0, span),
{
    let mut i: usize = 0;
    while i < args.len()
        invariant
            i <= args@.len(),
            arguments_refusal(models(args@), 0, span) == arguments_refusal(models(args@), i as int, span),
        decreases args@.len() - i,
    {
        proof {
            assert(models(args@)[i as int] == args@[i as int].model());
        }
        if !args[i].is_collection_scalar() {
            return Err(
                unsupported(
                    value_kind(&args[i]).to_owned().concat(" argument in the scalar replacement profile").as_str(),
                    span,
                ),
            );
        }
        i += 1;
    }
    Ok(())
}

/// Why a free function may not be executed with given arguments, or nothing where it may.
pub open spec fn free_function_refusal(module: BodyIrModule, name: Seq<char>, args: Seq<ValueModel>) -> Option<
    ErrorModel,
> {
    match first_named(module.bodies@, 0, name) {
        None => Some(ErrorModel::MissingFunction(name)),
        Some(body) => if body.yields {
            refuse("generator body"@, body.span)
        } else if args.len() > body.params@.len() {
            Some(
                ErrorModel::ArgumentCount { name, expected: body.params@.len(), actual: args.len() },
            )
        } else {
            match arguments_refusal(args, 0, body.span) {
                Some(error) => Some(error),
                None => match range_refusal(module) {
                    Some(error) => Some(error),
                    None => body_refusal(*body),
                },
            }
        },
    }
}

/// A free-function execution that was admitted to the profile.
///
/// It keeps the module, the function name and the arguments that were checked.
pub struct ValidatedFreeFunctionExecution<'module, 'args> {
    module: &'module BodyIrModule,
    name: String,
    args: &'args [ReplacementValue],
}

impl<'module, 'args> ValidatedFreeFunctionExecution<'module, 'args> {
    /// The module.
    pub closed spec fn module(self) -> BodyIrModule {
        *self.module
    }

    /// The function's name.
    pub closed spec fn name(self) -> Seq<char> {
        self.name@
    }

    /// The arguments.
    pub closed spec fn args(self) -> Seq<ValueModel> {
        models(self.args@)
    }

    /// Takes the checked parts out.
    pub(crate) fn parts(self) -> (parts: (&'module BodyIrModule, String, &'args [ReplacementValue]))
        ensures
            *parts.0 == self.module(),
            parts.1@ == self.name(),
            models(parts.2@) == self.args(),
    {
        (self.module, self.name, self.args)
    }
}

/// Checks and prepares one free function for later direct execution.
pub fn prepare_free_function_execution<'module, 'args>(
    module: &'module BodyIrModule,
    name: &str,
    args: &'args [ReplacementValue],
) -> (plan: Result<ValidatedFreeFunctionExecution<'module, 'args>, ReplacementExecutionError>)
    ensures
        match plan {
            Ok(plan) => free_function_refusal(*module, name@, models(args@)) is None && plan.module() == *module
                && plan.name() == name@ && plan.args() == models(args@),
            Err(error) => free_function_refusal(*module, name@, models(args@)) == Some(error@),
        },
{
    let body: &Rc<Body> = named_free_function(module, name)?;
    if body.is_generator() {
        return Err(unsupported("generator body", body.span));
    }
    proof {
        assert(models(args@).len() == args@.len());
    }
    if args.len() > body.params.len() {
        return Err(
            ReplacementExecutionError::ArgumentCount {
                name: name.to_owned(),
                expected: body.params.len(),
                actual: args.len(),
            },
        );
    }
    validate_scalar_arguments(args, body.span)?;
    validate_unambiguous_range_builtin(module)?;
    validate_direct_body_profile(body)?;
    Ok(ValidatedFreeFunctionExecution { module, name: name.to_owned(), args })
}

} // verus!
