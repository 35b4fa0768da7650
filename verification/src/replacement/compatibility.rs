//! What the executor contributes to the compatibility record.

use vstd::prelude::*;

verus! {

/// A feature of the language that execution preserves.
#[derive(Debug, Clone, Copy)]
pub struct PreservedFeature {
    /// The name of the feature.
    pub feature: &'static str,
    /// What is preserved.
    pub summary: &'static str,
    /// The file that checks it.
    pub checker_path: &'static str,
    /// The function that checks it.
    pub checker: &'static str,
    /// The function that lowers it.
    pub lowering: &'static str,
    /// The function that executes it.
    pub execution: &'static str,
}

/// A requirement on the implementation.
#[derive(Debug, Clone, Copy)]
pub struct ImplementationRequirement {
    /// The name of the requirement.
    pub requirement: &'static str,
    /// What is required.
    pub statement: &'static str,
    /// What meets it.
    pub owner: &'static str,
    /// What shows that it is met.
    pub evidence: &'static str,
    /// Why it is no feature of the language.
    pub rationale: &'static str,
}

/// A feature with a requirement that it rests on.
#[derive(Debug, Clone, Copy)]
pub struct FeatureRequirementLink {
    /// The name of the feature.
    pub feature: &'static str,
    /// The name of the requirement.
    pub requirement: &'static str,
}

/// What a part of the compiler contributes.
#[derive(Debug)]
pub struct ReplacementCompatibilityContribution {
    /// The name of the contribution.
    pub identity: &'static str,
    /// The file that it stands for.
    pub source_path: &'static str,
    /// The function that gives it.
    pub source_symbol: &'static str,
    /// The features.
    pub features: Vec<PreservedFeature>,
    /// The requirements.
    pub requirements: Vec<ImplementationRequirement>,
    /// The links between them.
    pub links: Vec<FeatureRequirementLink>,
}

impl ReplacementCompatibilityContribution {
    /// Whether the contribution has a feature.
    pub open spec fn has_feature(self, name: Seq<char>) -> bool {
        exists|i: int| 0 <= i < self.features@.len() && (#[trigger] self.features@[i]).feature@ == name
    }

    /// Whether the contribution has a requirement.
    pub open spec fn has_requirement(self, name: Seq<char>) -> bool {
        exists|i: int| 0 <= i < self.requirements@.len() && (#[trigger] self.requirements@[i]).requirement@ == name
    }

    /// Whether every link joins a feature and a requirement of the contribution.
    pub open spec fn is_linked(self) -> bool {
        forall|i: int|
            0 <= i < self.links@.len() ==> self.has_feature((#[trigger] self.links@[i]).feature@)
                && self.has_requirement(self.links@[i].requirement@)
    }
}

/// The record of direct execution of scalars and control flow.
pub fn replacement_compatibility_direct_execution_contribution() -> (contribution:
    ReplacementCompatibilityContribution)
    ensures
        contribution.identity@ == "backend.replacement.bounded-scalar-control"@,
        contribution.source_path@ == "src/backend/replacement/mod.rs"@,
        contribution.source_symbol@ == "fn replacement_compatibility_direct_execution_contribution"@,
        contribution.features@ == seq![
            PreservedFeature {
                feature: "language.control-flow",
                summary: "Bounded scalar conditionals, loops, returns, assertions, and range iteration execute directly with explicit receipts.",
                checker_path: "src/frontend/typechecker/check_expr/control_flow.rs",
                checker: "fn check_if_expr",
                lowering: "fn lower_if",
                execution: "fn execute_loop",
            },
            PreservedFeature {
                feature: "language.numeric-and-scalar",
                summary: "Bounded scalar arithmetic, comparisons, boolean operators, and strings execute directly from Body IR.",
                checker_path: "src/frontend/typechecker/check_expr/ops.rs",
                checker: "fn check_binary",
                lowering: "fn lower_binary",
                execution: "fn evaluate_binary",
            },
        ],
        contribution.requirements@ == seq![
            ImplementationRequirement {
                requirement: "control.normalized-flow",
                statement: "Branches, loops, returns, assertions, and breaks execute from normalized Body IR.",
                owner: "Body IR lowering and replacement evaluator",
                evidence: "replacement-body-v0 corpus",
                rationale: "Normalized control nodes are implementation vocabulary.",
            },
            ImplementationRequirement {
                requirement: "runtime.scalar-values",
                statement: "Scalars, strings, operators, and conversions preserve checked type and failure behavior.",
                owner: "Body IR operands/rvalues and replacement evaluator",
                evidence: "replacement-body-v0 scalar corpus",
                rationale: "Scalar representation is an internal evaluator mechanism.",
            },
        ],
        contribution.links@ == seq![
            FeatureRequirementLink { feature: "language.control-flow", requirement: "control.normalized-flow" },
            FeatureRequirementLink { feature: "language.numeric-and-scalar", requirement: "runtime.scalar-values" },
        ],
        contribution.is_linked(),
{
    let contribution = ReplacementCompatibilityContribution {
        identity: "backend.replacement.bounded-scalar-control",
        source_path: "src/backend/replacement/mod.rs",
        source_symbol: "fn replacement_compatibility_direct_execution_contribution",
        features: vec![
            PreservedFeature {
                feature: "language.control-flow",
                summary: "Bounded scalar conditionals, loops, returns, assertions, and range iteration execute directly with explicit receipts.",
                checker_path: "src/frontend/typechecker/check_expr/control_flow.rs",
                checker: "fn check_if_expr",
                lowering: "fn lower_if",
                execution: "fn execute_loop",
            },
            PreservedFeature {
                feature: "language.numeric-and-scalar",
                summary: "Bounded scalar arithmetic, comparisons, boolean operators, and strings execute directly from Body IR.",
                checker_path: "src/frontend/typechecker/check_expr/ops.rs",
                checker: "fn check_binary",
                lowering: "fn lower_binary",
                execution: "fn evaluate_binary",
            },
        ],
        requirements: vec![
            ImplementationRequirement {
                requirement: "control.normalized-flow",
                statement: "Branches, loops, returns, assertions, and breaks execute from normalized Body IR.",
                owner: "Body IR lowering and replacement evaluator",
                evidence: "replacement-body-v0 corpus",
                rationale: "Normalized control nodes are implementation vocabulary.",
            },
            ImplementationRequirement {
                requirement: "runtime.scalar-values",
                statement: "Scalars, strings, operators, and conversions preserve checked type and failure behavior.",
                owner: "Body IR operands/rvalues and replacement evaluator",
                evidence: "replacement-body-v0 scalar corpus",
                rationale: "Scalar representation is an internal evaluator mechanism.",
            },
        ],
        links: vec![
            FeatureRequirementLink { feature: "language.control-flow", requirement: "control.normalized-flow" },
            FeatureRequirementLink { feature: "language.numeric-and-scalar", requirement: "runtime.scalar-values" },
        ],
    };
    proof {
        assert forall|i: int| 0 <= i < contribution.links@.len() implies contribution.has_feature(
            (#[trigger] contribution.links@[i]).feature@,
        ) && contribution.has_requirement(contribution.links@[i].requirement@) by {
            assert(contribution.features@[i].feature@ == contribution.links@[i].feature@);
            assert(contribution.requirements@[i].requirement@ == contribution.links@[i].requirement@);
        }
    }
    contribution
}

} // verus!
