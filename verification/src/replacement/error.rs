//! Refusals and runtime outcomes of the replacement executor.

use crate::body_ir::HirSourceSpan;
use crate::text::{decimal, natural_text};
use vstd::prelude::*;

verus! {

broadcast use vstd::string::group_string_axioms;

/// A visible refusal or runtime outcome from the replacement executor.
#[derive(Debug)]
pub enum ReplacementExecutionError {
    /// The requested free function was absent from the module.
    MissingFunction {
        /// The requested source-level function name.
        name: String,
    },
    /// The caller supplied more arguments than the body declares parameters.
    ArgumentCount {
        /// Function selected for execution.
        name: String,
        /// Declared parameter count.
        expected: usize,
        /// Supplied argument count.
        actual: usize,
    },
    /// A construct lies outside the profile.
    Unsupported {
        /// What the profile cannot execute.
        description: String,
        /// Where it is written.
        span: HirSourceSpan,
    },
    /// An operation reached a source-observable runtime failure.
    RuntimeFailure {
        /// What failed.
        detail: String,
        /// Where it is written.
        span: HirSourceSpan,
    },
}

/// What an executor error says.
pub enum ErrorModel {
    /// No function of that name.
    MissingFunction(Seq<char>),
    /// Too many arguments.
    ArgumentCount {
        /// Function name.
        name: Seq<char>,
        /// Declared parameter count.
        expected: nat,
        /// Supplied argument count.
        actual: nat,
    },
    /// Outside the profile.
    Unsupported(Seq<char>, HirSourceSpan),
    /// Failed at run time.
    RuntimeFailure(Seq<char>, HirSourceSpan),
}

impl View for ReplacementExecutionError {
    type V = ErrorModel;

    open spec fn view(&self) -> ErrorModel {
        match *self {
            ReplacementExecutionError::MissingFunction { name } => ErrorModel::MissingFunction(name@),
            ReplacementExecutionError::ArgumentCount { name, expected, actual } => ErrorModel::ArgumentCount {
                name: name@,
                expected: expected as nat,
                actual: actual as nat,
            },
            ReplacementExecutionError::Unsupported { description, span } => ErrorModel::Unsupported(
                description@,
                span,
            ),
            ReplacementExecutionError::RuntimeFailure { detail, span } => ErrorModel::RuntimeFailure(detail@, span),
        }
    }
}

/// The one-line explanation of an outcome.
pub open spec fn explanation(error: ErrorModel) -> Seq<char> {
    match error {
        ErrorModel::MissingFunction(name) => "replacement backend has no free function named `"@ + name
            + "` to execute"@,
        ErrorModel::ArgumentCount { name, expected, actual } => "replacement backend cannot execute `"@ + name
            + "`: expected "@ + decimal(expected) + " arguments, got "@ + decimal(actual),
        ErrorModel::Unsupported(description, span) => "replacement backend does not support "@ + description
            + " at original Incan source span "@ + decimal(span.start as nat) + ".."@ + decimal(span.end as nat),
        ErrorModel::RuntimeFailure(detail, span) =>
            "replacement backend runtime failure at original Incan source span "@ + decimal(span.start as nat)
            + ".."@ + decimal(span.end as nat) + ": "@ + detail,
    }
}

/// The stable diagnostic code of an outcome.
pub open spec fn code_of(error: ErrorModel) -> Seq<char> {
    match error {
        ErrorModel::MissingFunction(_) => "INCAN-R988-ENTRYPOINT"@,
        ErrorModel::ArgumentCount { .. } => "INCAN-R988-ENTRYPOINT"@,
        ErrorModel::Unsupported(..) => "INCAN-R988-UNSUPPORTED"@,
        ErrorModel::RuntimeFailure(..) => "INCAN-R988-RUNTIME"@,
    }
}

/// Where an outcome arose in the source, if it arose there.
pub open spec fn span_of(error: ErrorModel) -> Option<HirSourceSpan> {
    match error {
        ErrorModel::Unsupported(_, span) => Some(span),
        ErrorModel::RuntimeFailure(_, span) => Some(span),
        _ => None,
    }
}

impl ReplacementExecutionError {
    /// Constructs a refusal for a construct outside the profile.
    #[must_use]
    pub fn unsupported_profile(description: &str, span: HirSourceSpan) -> (error: Self)
        ensures
            error@ == ErrorModel::Unsupported(description@, span),
    {
        unsupported(description, span)
    }

    /// The stable diagnostic code for this outcome.
    pub fn diagnostic_code(&self) -> (code: &'static str)
        ensures
            code@ == code_of(self@),
    {
        match self {
            ReplacementExecutionError::MissingFunction { .. } => "INCAN-R988-ENTRYPOINT",
            ReplacementExecutionError::ArgumentCount { .. } => "INCAN-R988-ENTRYPOINT",
            ReplacementExecutionError::Unsupported { .. } => "INCAN-R988-UNSUPPORTED",
            ReplacementExecutionError::RuntimeFailure { .. } => "INCAN-R988-RUNTIME",
        }
    }

    /// The original source location, when this outcome arose from a body.
    pub fn primary_span(&self) -> (span: Option<HirSourceSpan>)
        ensures
            span == span_of(self@),
    {
        match self {
            ReplacementExecutionError::Unsupported { span, .. } => Some(*span),
            ReplacementExecutionError::RuntimeFailure { span, .. } => Some(*span),
            _ => None,
        }
    }

    /// Explains the outcome in one line.
    pub fn message(&self) -> (text: String)
        ensures
            text@ == explanation(self@),
    {
        match self {
            ReplacementExecutionError::MissingFunction { name } =>
                "replacement backend has no free function named `".to_owned().concat(name.as_str()).concat(
                "` to execute",
            ),
            ReplacementExecutionError::ArgumentCount { name, expected, actual } =>
                "replacement backend cannot execute `".to_owned().concat(name.as_str()).concat(
                "`: expected ",
            ).concat(natural_text(*expected as u64).as_str()).concat(" arguments, got ").concat(
                natural_text(*actual as u64).as_str(),
            ),
            ReplacementExecutionError::Unsupported { description, span } =>
                "replacement backend does not support ".to_owned().concat(description.as_str()).concat(
                " at original Incan source span ",
            ).concat(natural_text(span.start as u64).as_str()).concat("..").concat(
                natural_text(span.end as u64).as_str(),
            ),
            ReplacementExecutionError::RuntimeFailure { detail, span } =>
                "replacement backend runtime failure at original Incan source span ".to_owned().concat(
                natural_text(span.start as u64).as_str(),
            ).concat("..").concat(natural_text(span.end as u64).as_str()).concat(": ").concat(detail.as_str()),
        }
    }
}

/// Constructs a source-span-preserving refusal.
pub fn unsupported(description: &str, span: HirSourceSpan) -> (error: ReplacementExecutionError)
    ensures
        error@ == ErrorModel::Unsupported(description@, span),
{
    ReplacementExecutionError::Unsupported { description: description.to_owned(), span }
}

/// Constructs a source-span-preserving runtime failure.
pub fn runtime_failure(detail: &str, span: HirSourceSpan) -> (error: ReplacementExecutionError)
    ensures
        error@ == ErrorModel::RuntimeFailure(detail@, span),
{
    ReplacementExecutionError::RuntimeFailure { detail: detail.to_owned(), span }
}

} // verus!
