use vstd::prelude::*;
use vstd::string::StringExecFns;
use crate::policy::SigLevel;

verus! {

/// Outcome of loading one archive from disk and checking its embedded
/// signature. The load and the check are disk and keyring work done outside
/// this crate; every decision that depends on the outcome is made here.
#[derive(Clone, Copy, PartialEq, Eq, Structural, Debug)]
pub enum ArchiveCheck {
    /// The file could not be loaded as a package archive at all.
    LoadFailed,
    /// The archive carries a signature and it checked out.
    SigValid,
    /// The archive carries no signature.
    SigMissing,
    /// The signature is present but invalid, or its key is untrusted or
    /// revoked.
    SigRejected,
}

/// Why verification of a file list stopped, naming the offending file by
/// its position in the list.
#[derive(Clone, Copy, PartialEq, Eq, Structural, Debug)]
pub enum VerifyError {
    LoadFailed { index: usize },
    SignatureFailed { index: usize },
}

impl VerifyError {
    pub open spec fn index(self) -> usize {
        match self {
            VerifyError::LoadFailed { index } => index,
            VerifyError::SignatureFailed { index } => index,
        }
    }
}

/// A policy that demands signatures accepts exactly a valid signature, or a
/// missing one where the policy's optional bit tolerates that.
pub open spec fn accepts(policy: SigLevel, c: ArchiveCheck) -> bool {
    c is SigValid || (c is SigMissing && policy.spec_tolerates_missing())
}

/// Every outcome strictly before position `i` is acceptable.
pub open spec fn all_accepted_before(policy: SigLevel, outcomes: Seq<ArchiveCheck>, i: int) -> bool {
    forall|j: int| 0 <= j < i ==> accepts(policy, outcomes[j])
}

/// Verification of a whole file list succeeds: either the policy never
/// demanded package signatures, or every single outcome is acceptable.
pub open spec fn verify_ok(policy: SigLevel, outcomes: Seq<ArchiveCheck>) -> bool {
    !policy.spec_requires_package() || forall|i: int|
        0 <= i < outcomes.len() ==> accepts(policy, outcomes[i])
}

/// Verification stops exactly at position `i`: the policy demands
/// signatures, everything before `i` was acceptable, and `i` is not.
pub open spec fn fails_at(policy: SigLevel, outcomes: Seq<ArchiveCheck>, i: int) -> bool {
    &&& policy.spec_requires_package()
    &&& 0 <= i < outcomes.len()
    &&& !accepts(policy, outcomes[i])
    &&& all_accepted_before(policy, outcomes, i)
}

/// The error reported for a stop at position `i`.
pub open spec fn error_at(outcomes: Seq<ArchiveCheck>, i: int) -> VerifyError {
    if outcomes[i] is LoadFailed {
        VerifyError::LoadFailed { index: i as usize }
    } else {
        VerifyError::SignatureFailed { index: i as usize }
    }
}

/// Decides whether one check outcome lets verification continue.
pub fn signature_acceptable(policy: SigLevel, c: ArchiveCheck) -> (r: bool)
    ensures
        r == accepts(policy, c),
{
    match c {
        ArchiveCheck::SigValid => true,
        ArchiveCheck::SigMissing => policy.tolerates_missing(),
        _ => false,
    }
}

/// What a driver working through a list of `total` files should do once the
/// first `checked` files have been accepted: stop checking (and accept the
/// whole list), or load and check the next file. A policy that does not
/// demand package signatures accepts at once, before any file is touched.
#[derive(Clone, Copy, PartialEq, Eq, Structural, Debug)]
pub enum VerifyAction {
    Accept,
    CheckFile { index: usize },
}

pub fn verify_plan(policy: SigLevel, total: usize, checked: usize) -> (a: VerifyAction)
    requires
        checked <= total,
    ensures
        a is Accept <==> (!policy.spec_requires_package() || checked == total),
        a matches VerifyAction::CheckFile { index } ==> index == checked,
{
    if !policy.requires_package() || checked == total {
        VerifyAction::Accept
    } else {
        VerifyAction::CheckFile { index: checked }
    }
}

/// Runs the whole verification decision over the outcomes of checking each
/// file, in list order: succeeds when the policy is satisfied on all of
/// them, and otherwise reports the first unacceptable file, which is also
/// the last one a lazy driver ever has to check.
pub fn verify_packages(policy: SigLevel, outcomes: &Vec<ArchiveCheck>) -> (r: Result<
    (),
    VerifyError,
>)
    ensures
        r is Ok <==> verify_ok(policy, outcomes@),
        r matches Err(e) ==> fails_at(policy, outcomes@, e.index() as int) && e == error_at(
            outcomes@,
            e.index() as int,
        ),
{
    if !policy.requires_package() {
        return Ok(());
    }
    let mut i: usize = 0;
    while i < outcomes.len()
        invariant
            i <= outcomes@.len(),
            policy.spec_requires_package(),
            all_accepted_before(policy, outcomes@, i as int),
        decreases outcomes@.len() - i,
    {
        let c = outcomes[i];
        if !signature_acceptable(policy, c) {
            let e = match c {
                ArchiveCheck::LoadFailed => VerifyError::LoadFailed { index: i },
                _ => VerifyError::SignatureFailed { index: i },
            };
            return Err(e);
        }
        i = i + 1;
    }
    Ok(())
}

/// The diagnostic for a file whose verification failed, naming it verbatim.
pub fn verify_error_text(file: &str) -> (r: String)
    ensures
        r@ == "failed to verify package "@ + file@,
{
    let mut out = "failed to verify package ".to_owned();
    out.append(file);
    out
}

/// Law: a policy that does not demand package signatures lets any list of
/// files through, whatever checking them would have reported; together with
/// `verify_plan`, which accepts at once for such a policy, no file is ever
/// loaded.
pub proof fn lemma_verify_no_signature_required(policy: SigLevel, outcomes: Seq<ArchiveCheck>)
    requires
        !policy.spec_requires_package(),
    ensures
        verify_ok(policy, outcomes),
{
}

/// Law: under a policy that demands signatures but tolerates missing ones,
/// a file without a signature never stops verification — no position with a
/// missing signature is a stopping point — and a list in which every file
/// checks out valid or merely missing succeeds as a whole.
pub proof fn lemma_verify_missing_tolerated(policy: SigLevel, outcomes: Seq<ArchiveCheck>)
    requires
        policy.spec_requires_package(),
        policy.spec_tolerates_missing(),
    ensures
        forall|j: int| fails_at(policy, outcomes, j) ==> !(outcomes[j] is SigMissing),
        (forall|i: int|
            0 <= i < outcomes.len() ==> outcomes[i] is SigValid || outcomes[i] is SigMissing)
            ==> verify_ok(policy, outcomes),
{
}

/// Law: under a policy that demands signatures and does not tolerate
/// missing ones, the first file whose signature is missing is exactly where
/// verification stops — it fails there, and at no other position, so no
/// later file in the list is ever checked.
pub proof fn lemma_verify_missing_fatal(policy: SigLevel, outcomes: Seq<ArchiveCheck>, i: int)
    requires
        policy.spec_requires_package(),
        !policy.spec_tolerates_missing(),
        0 <= i < outcomes.len(),
        outcomes[i] is SigMissing,
        all_accepted_before(policy, outcomes, i),
    ensures
        fails_at(policy, outcomes, i),
        forall|j: int| fails_at(policy, outcomes, j) ==> j == i,
{
    assert forall|j: int| fails_at(policy, outcomes, j) implies j == i by {
        if j < i {
            assert(accepts(policy, outcomes[j]));
        } else if j > i {
            assert(accepts(policy, outcomes[i]));
        }
    }
}

} // verus!
