use paccat_core::policy::{SigLevel, SIG_PACKAGE, SIG_PACKAGE_OPTIONAL};
use paccat_core::verify::{
    signature_acceptable, verify_error_text, verify_packages, verify_plan, ArchiveCheck,
    VerifyAction, VerifyError,
};

fn policy(bits: u32) -> SigLevel {
    SigLevel { bits }
}

#[test]
fn no_signature_required_accepts_without_touching_files() {
    // A policy without the package bit accepts any non-empty list at once.
    let p = policy(0);
    let outcomes = vec![
        ArchiveCheck::SigRejected,
        ArchiveCheck::LoadFailed,
        ArchiveCheck::SigMissing,
    ];
    assert_eq!(verify_packages(p, &outcomes), Ok(()));
    // The driver is told to stop before the first file is ever loaded.
    assert_eq!(verify_plan(p, 3, 0), VerifyAction::Accept);
}

#[test]
fn optional_bit_tolerates_missing_signatures() {
    let p = policy(SIG_PACKAGE | SIG_PACKAGE_OPTIONAL);
    // A missing signature aborts nothing; later files are still judged.
    let outcomes = vec![
        ArchiveCheck::SigMissing,
        ArchiveCheck::SigValid,
        ArchiveCheck::SigMissing,
    ];
    assert_eq!(verify_packages(p, &outcomes), Ok(()));
}

#[test]
fn missing_signature_fatal_without_optional_bit() {
    let p = policy(SIG_PACKAGE);
    let outcomes = vec![
        ArchiveCheck::SigValid,
        ArchiveCheck::SigMissing,
        ArchiveCheck::SigValid,
    ];
    // Fails naming the second file; the third is never reached.
    assert_eq!(
        verify_packages(p, &outcomes),
        Err(VerifyError::SignatureFailed { index: 1 })
    );
}

#[test]
fn rejected_signature_fatal_even_with_optional_bit() {
    let p = policy(SIG_PACKAGE | SIG_PACKAGE_OPTIONAL);
    let outcomes = vec![ArchiveCheck::SigValid, ArchiveCheck::SigRejected];
    assert_eq!(
        verify_packages(p, &outcomes),
        Err(VerifyError::SignatureFailed { index: 1 })
    );
}

#[test]
fn load_failure_is_reported_as_such() {
    let p = policy(SIG_PACKAGE);
    let outcomes = vec![ArchiveCheck::LoadFailed];
    assert_eq!(
        verify_packages(p, &outcomes),
        Err(VerifyError::LoadFailed { index: 0 })
    );
}

#[test]
fn empty_list_succeeds_under_any_policy() {
    assert_eq!(verify_packages(policy(SIG_PACKAGE), &vec![]), Ok(()));
    assert_eq!(verify_packages(policy(0), &vec![]), Ok(()));
}

#[test]
fn plan_walks_files_in_order_when_signatures_required() {
    let p = policy(SIG_PACKAGE);
    assert_eq!(verify_plan(p, 2, 0), VerifyAction::CheckFile { index: 0 });
    assert_eq!(verify_plan(p, 2, 1), VerifyAction::CheckFile { index: 1 });
    assert_eq!(verify_plan(p, 2, 2), VerifyAction::Accept);
}

#[test]
fn acceptance_of_single_outcomes() {
    let strict = policy(SIG_PACKAGE);
    let lenient = policy(SIG_PACKAGE | SIG_PACKAGE_OPTIONAL);
    assert!(signature_acceptable(strict, ArchiveCheck::SigValid));
    assert!(!signature_acceptable(strict, ArchiveCheck::SigMissing));
    assert!(signature_acceptable(lenient, ArchiveCheck::SigMissing));
    assert!(!signature_acceptable(lenient, ArchiveCheck::SigRejected));
    assert!(!signature_acceptable(lenient, ArchiveCheck::LoadFailed));
}

#[test]
fn verification_failure_names_the_file() {
    assert_eq!(
        verify_error_text("pkg-1.0-1-x86_64.pkg.tar.zst"),
        "failed to verify package pkg-1.0-1-x86_64.pkg.tar.zst"
    );
}
