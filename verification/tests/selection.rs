//! Declared selections, executions and their receipts.

use incan_backend::selection::{
    digest_output, finalize_receipt, resolve_execution, select_backend, BackendExecutionReceipt, BackendKind,
    BackendSelection, BackendSelectionError, CompatibilityProfile, FallbackOutcome, FallbackPolicy, SelectionReason,
    ShadowComparisonState, LEGACY_BACKEND_REVISION,
};

fn refuse_selection(requested: BackendKind, explicit: bool) -> BackendSelection {
    select_backend(requested, explicit, false, "sha256:source", FallbackPolicy::Refuse)
}

#[test]
fn declared_legacy_capability_selection_is_explicit() -> Result<(), BackendSelectionError> {
    let selection = refuse_selection(BackendKind::Legacy, false);
    assert_eq!(selection.selected_backend, BackendKind::Legacy);
    assert_eq!(selection.selection_reason, SelectionReason::Default);
    assert_eq!(selection.compatibility_profile, CompatibilityProfile::Full);
    assert_eq!(selection.implementation_revision, LEGACY_BACKEND_REVISION);
    selection.verify_identity()?;

    let executed = resolve_execution(&selection, true)?;
    assert_eq!(executed, BackendKind::Legacy);

    let receipt = finalize_receipt(
        &selection,
        executed,
        "sha256:output",
        ShadowComparisonState::NotRequested,
        1,
    );
    assert_eq!(receipt.fallback_outcome, FallbackOutcome::NotNeeded);
    assert_eq!(receipt.executed_backend, BackendKind::Legacy);
    receipt.verify_identity()?;
    Ok(())
}

#[test]
fn replacement_selection_refuses_visibly_when_unavailable() {
    let selection = refuse_selection(BackendKind::Replacement, true);
    assert_eq!(selection.selection_reason, SelectionReason::ExplicitRequest);
    assert_eq!(selection.compatibility_profile, CompatibilityProfile::Partial);

    let Err(error) = resolve_execution(&selection, false) else {
        panic!("replacement backend is not implemented yet; selection must be refused");
    };
    match error {
        BackendSelectionError::Refused { backend, .. } => assert_eq!(backend, BackendKind::Replacement),
        other => panic!("expected Refused, got {other:?}"),
    }
}

#[test]
fn fallback_refusal_never_produces_a_receipt() {
    let selection = refuse_selection(BackendKind::Replacement, true);
    assert!(resolve_execution(&selection, false).is_err());
}

#[test]
fn declared_fallback_is_recorded_explicitly() -> Result<(), BackendSelectionError> {
    let selection = select_backend(
        BackendKind::Replacement,
        true,
        false,
        "sha256:source",
        FallbackPolicy::AllowTo(BackendKind::Legacy),
    );
    let executed = resolve_execution(&selection, false)?;
    assert_eq!(executed, BackendKind::Legacy);

    let receipt = finalize_receipt(
        &selection,
        executed,
        "sha256:output",
        ShadowComparisonState::NotRequested,
        1,
    );
    assert_eq!(
        receipt.fallback_outcome,
        FallbackOutcome::Declared {
            from: BackendKind::Replacement,
            to: BackendKind::Legacy,
        }
    );
    receipt.verify_identity()?;
    Ok(())
}

#[test]
fn declared_fallback_to_an_unavailable_target_still_refuses() {
    let selection = select_backend(
        BackendKind::Replacement,
        true,
        false,
        "sha256:source",
        FallbackPolicy::AllowTo(BackendKind::Replacement),
    );
    let Err(error) = resolve_execution(&selection, false) else {
        panic!("a fallback target that is itself unavailable must still be refused");
    };
    match error {
        BackendSelectionError::Refused { backend, .. } => assert_eq!(backend, BackendKind::Replacement),
        other => panic!("expected Refused, got {other:?}"),
    }
}

#[test]
fn shadow_comparison_unavailability_is_recorded_not_skipped() -> Result<(), BackendSelectionError> {
    let selection = select_backend(BackendKind::Legacy, true, true, "sha256:source", FallbackPolicy::Refuse);
    assert!(selection.shadow_requested);

    let executed = resolve_execution(&selection, true)?;
    let shadow_comparison = ShadowComparisonState::Unavailable {
        reason: "replacement backend not implemented yet (#653)".to_string(),
    };
    let receipt = finalize_receipt(&selection, executed, "sha256:output", shadow_comparison.clone(), 1);
    assert_eq!(receipt.shadow_comparison, shadow_comparison);
    receipt.verify_identity()?;
    Ok(())
}

#[test]
fn mismatched_receipt_identity_is_detected() -> Result<(), BackendSelectionError> {
    let selection = refuse_selection(BackendKind::Legacy, false);
    let mut receipt = finalize_receipt(
        &selection,
        BackendKind::Legacy,
        "sha256:output",
        ShadowComparisonState::NotRequested,
        1,
    );
    receipt.verify_identity()?;

    receipt.output_identity = "sha256:tampered".to_string();
    let Err(error) = receipt.verify_identity() else {
        panic!("tampered output identity must be detected");
    };
    assert!(matches!(error, BackendSelectionError::ReceiptIdentityMismatch { .. }));
    Ok(())
}

#[test]
fn every_changed_field_of_a_receipt_shows() {
    let selection = refuse_selection(BackendKind::Legacy, false);
    let receipt = || {
        finalize_receipt(
            &selection,
            BackendKind::Legacy,
            "sha256:output",
            ShadowComparisonState::NotRequested,
            1,
        )
    };
    assert!(receipt().verify_identity().is_ok());
    let recorded = receipt().identity;
    let mismatched = |changed: BackendExecutionReceipt| match changed.verify_identity() {
        Err(BackendSelectionError::ReceiptIdentityMismatch { expected, .. }) => expected == changed.identity,
        _ => false,
    };
    let mut changed = receipt();
    changed.compiler_version = "0.0.0\nLegacy".to_string();
    assert!(mismatched(changed));
    let mut changed = receipt();
    changed.executed_backend = BackendKind::Replacement;
    assert!(mismatched(changed));
    let mut changed = receipt();
    changed.shadow_comparison = ShadowComparisonState::Unavailable {
        reason: "none".to_string(),
    };
    assert!(mismatched(changed));
    let mut changed = receipt();
    changed.fallback_outcome = FallbackOutcome::Declared {
        from: BackendKind::Replacement,
        to: BackendKind::Legacy,
    };
    assert!(mismatched(changed));
    let mut changed = receipt();
    changed.diagnostic_contract_version = 2;
    assert!(mismatched(changed));
    let mut changed = receipt();
    changed.output_identity = "sha256:output\n".to_string();
    assert!(mismatched(changed));
    let mut changed = receipt();
    changed.identity = recorded + "0";
    assert!(mismatched(changed));
    let mut changed = receipt();
    changed.selection = refuse_selection(BackendKind::Legacy, true);
    assert!(mismatched(changed));
    let mut changed = receipt();
    changed.selection.source_identity = "sha256:other".to_string();
    assert!(matches!(
        changed.verify_identity(),
        Err(BackendSelectionError::SelectionIdentityMismatch { .. })
    ));
}

#[test]
fn mismatched_selection_identity_is_detected() {
    let mut selection = refuse_selection(BackendKind::Legacy, false);
    selection.source_identity = "sha256:different-source".to_string();
    let Err(error) = selection.verify_identity() else {
        panic!("tampered source identity must be detected");
    };
    assert!(matches!(error, BackendSelectionError::SelectionIdentityMismatch { .. }));
}

#[test]
fn foreign_schema_versions_are_refused() {
    let mut selection = refuse_selection(BackendKind::Legacy, false);
    let mut receipt = finalize_receipt(
        &selection,
        BackendKind::Legacy,
        "sha256:output",
        ShadowComparisonState::NotRequested,
        1,
    );
    selection.schema_version = 9;
    let Err(error) = selection.verify_identity() else {
        panic!("a foreign schema must be refused");
    };
    assert_eq!(error.message(), "unsupported backend-selection schema version 9; expected 1");
    receipt.schema_version = 7;
    let Err(error) = receipt.verify_identity() else {
        panic!("a foreign schema must be refused");
    };
    assert_eq!(
        error.message(),
        "unsupported backend-execution-receipt schema version 7; expected 1"
    );
}

#[test]
fn refusals_say_what_was_selected() {
    let selection = refuse_selection(BackendKind::Replacement, true);
    let Err(error) = resolve_execution(&selection, false) else {
        panic!("an unavailable backend must be refused");
    };
    let message = error.message();
    assert!(message.starts_with("backend `Replacement` was selected but cannot execute yet ("), "{message}");
    assert!(
        message.ends_with(
            "); fallback policy is `refuse`, so the build stops instead of silently running another backend"
        ),
        "{message}"
    );
}

#[test]
fn output_identities_are_tagged_digests() {
    let identity = digest_output(&["a", "b"]);
    assert!(identity.starts_with("sha256:"), "{identity}");
    assert_eq!(identity.len(), "sha256:".len() + 64);
    assert!(identity["sha256:".len()..].chars().all(|c| c.is_ascii_hexdigit() && !c.is_ascii_uppercase()));
    assert_eq!(identity, digest_output(&["a", "b"]));
    assert_ne!(identity, digest_output(&["b", "a"]));
    assert_ne!(digest_output(&["ab"]), digest_output(&["a", "b"]));
}
