//! The validation engine: pure, deterministic admission rules that every peer
//! re-runs on every create, modify or delete it receives. The verdict depends
//! only on the operation's declared content, the cryptographic signer set,
//! and the membership registry's answer for the claimed teacher — no clock,
//! no local state, no randomness — so every peer reaches the same verdict.
//!
//! The membership answer itself comes over the authorization bridge, a
//! synchronous cross-trust-domain call that only the host can make; the rules
//! here take that answer as a value and fail closed on every bridge failure.

use vstd::prelude::*;

use crate::Address;
use crate::course::{Course, CourseView};
use crate::errors::{BridgeError, ValidationError};
use crate::links::{Link, LinkType};

verus! {

/// The longest admissible course title, counted in characters.
pub const MAX_TITLE_LEN: usize = 50;

/// An operation on a course record, as a validating peer sees it. A modify
/// carries both the record it supersedes and the revision; records are
/// immutable, so the revision lives at a new address.
pub enum Operation {
    Create { revision: Course },
    Modify { original: Course, revision: Course },
    Delete { original: Course },
}

/// The mathematical value of an operation.
#[verifier::ext_equal]
pub enum OperationView {
    Create { revision: CourseView },
    Modify { original: CourseView, revision: CourseView },
    Delete { original: CourseView },
}

impl View for Operation {
    type V = OperationView;

    open spec fn view(&self) -> OperationView {
        match self {
            Operation::Create { revision } => OperationView::Create { revision: revision@ },
            Operation::Modify { original, revision } => OperationView::Modify {
                original: original@,
                revision: revision@,
            },
            Operation::Delete { original } => OperationView::Delete { original: original@ },
        }
    }
}

/// Whether a title is within bounds.
pub open spec fn spec_title_ok(title: Seq<char>) -> bool {
    title.len() <= MAX_TITLE_LEN
}

/// Whether the membership registry confirmed the identity. Any bridge failure,
/// and any answer other than a confirmed `true`, counts as unconfirmed:
/// validation fails closed, never open.
pub open spec fn spec_membership_confirmed(answer: Result<bool, BridgeError>) -> bool {
    answer == Ok::<bool, BridgeError>(true)
}

/// The verdict on a create: the title must be within bounds, the course must
/// credit one of its own signers as teacher (self-authorship), and the
/// membership registry must confirm that teacher.
pub open spec fn spec_validate_create(
    revision: CourseView,
    signers: Seq<Address>,
    membership: Result<bool, BridgeError>,
) -> Result<(), ValidationError> {
    if !spec_title_ok(revision.title) {
        Err(ValidationError::TitleTooLong)
    } else if !signers.contains(revision.teacher_address) {
        Err(ValidationError::UnauthorizedSigner)
    } else if !spec_membership_confirmed(membership) {
        Err(ValidationError::UnverifiedMember)
    } else {
        Ok(())
    }
}

/// The verdict on a modify: the title must be within bounds, ownership is
/// immutable across revisions, and only the current owner may sign. Membership
/// is not re-verified: it was proven at creation time.
pub open spec fn spec_validate_modify(
    original: CourseView,
    revision: CourseView,
    signers: Seq<Address>,
) -> Result<(), ValidationError> {
    if !spec_title_ok(revision.title) {
        Err(ValidationError::TitleTooLong)
    } else if revision.teacher_address != original.teacher_address {
        Err(ValidationError::OwnerChanged)
    } else if !signers.contains(original.teacher_address) {
        Err(ValidationError::UnauthorizedSigner)
    } else {
        Ok(())
    }
}

/// The verdict on a delete: only the owning teacher may sign.
pub open spec fn spec_validate_delete(
    original: CourseView,
    signers: Seq<Address>,
) -> Result<(), ValidationError> {
    if !signers.contains(original.teacher_address) {
        Err(ValidationError::UnauthorizedSigner)
    } else {
        Ok(())
    }
}

/// The verdict on any operation, given its signer set and the membership
/// answer for the claimed teacher (consulted only on create).
pub open spec fn spec_validate(
    op: OperationView,
    signers: Seq<Address>,
    membership: Result<bool, BridgeError>,
) -> Result<(), ValidationError> {
    match op {
        OperationView::Create { revision } => spec_validate_create(revision, signers, membership),
        OperationView::Modify { original, revision } => spec_validate_modify(
            original,
            revision,
            signers,
        ),
        OperationView::Delete { original } => spec_validate_delete(original, signers),
    }
}

/// Whether a signer set contains an identity.
fn signers_contain(signers: &Vec<Address>, who: Address) -> (r: bool)
    ensures
        r == signers@.contains(who),
{
    let n = signers.len();
    let mut i: usize = 0;
    while i < n
        invariant
            i <= n,
            n == signers.len(),
            forall|j: int| 0 <= j < i ==> signers@[j] != who,
        decreases n - i,
    {
        if signers[i] == who {
            return true;
        }
        i = i + 1;
    }
    false
}

/// Admits a title of at most `MAX_TITLE_LEN` characters and nothing longer.
pub fn validate_course_title(title: &String) -> (r: Result<(), ValidationError>)
    ensures
        r == if spec_title_ok(title@) {
            Ok::<(), ValidationError>(())
        } else {
            Err::<(), ValidationError>(ValidationError::TitleTooLong)
        },
{
    if title.as_str().unicode_len() > MAX_TITLE_LEN {
        Err(ValidationError::TitleTooLong)
    } else {
        Ok(())
    }
}

/// Validates a create against a signer set and the membership answer.
pub fn validate_create(
    revision: &Course,
    signers: &Vec<Address>,
    membership: &Result<bool, BridgeError>,
) -> (r: Result<(), ValidationError>)
    ensures
        r == spec_validate_create(revision@, signers@, *membership),
{
    if let Err(e) = validate_course_title(&revision.title) {
        return Err(e);
    }
    if !signers_contain(signers, revision.teacher_address) {
        return Err(ValidationError::UnauthorizedSigner);
    }
    match membership {
        Ok(true) => Ok(()),
        _ => Err(ValidationError::UnverifiedMember),
    }
}

/// Validates a modify against a signer set.
pub fn validate_modify(original: &Course, revision: &Course, signers: &Vec<Address>) -> (r: Result<
    (),
    ValidationError,
>)
    ensures
        r == spec_validate_modify(original@, revision@, signers@),
{
    if let Err(e) = validate_course_title(&revision.title) {
        return Err(e);
    }
    if revision.teacher_address != original.teacher_address {
        return Err(ValidationError::OwnerChanged);
    }
    if !signers_contain(signers, original.teacher_address) {
        return Err(ValidationError::UnauthorizedSigner);
    }
    Ok(())
}

/// Validates a delete against a signer set.
pub fn validate_delete(original: &Course, signers: &Vec<Address>) -> (r: Result<
    (),
    ValidationError,
>)
    ensures
        r == spec_validate_delete(original@, signers@),
{
    if !signers_contain(signers, original.teacher_address) {
        return Err(ValidationError::UnauthorizedSigner);
    }
    Ok(())
}

/// Decides admission of an operation, given the set of identities that signed
/// it and the membership registry's answer for the claimed teacher. Every
/// validating peer runs this with the same inputs and reaches the same
/// verdict.
pub fn validate(
    op: &Operation,
    signers: &Vec<Address>,
    membership: &Result<bool, BridgeError>,
) -> (r: Result<(), ValidationError>)
    ensures
        r == spec_validate(op@, signers@, *membership),
{
    match op {
        Operation::Create { revision } => validate_create(revision, signers, membership),
        Operation::Modify { original, revision } => validate_modify(original, revision, signers),
        Operation::Delete { original } => validate_delete(original, signers),
    }
}

/// Link validation is deliberately permissive: every edge of every one of the
/// four link types is admitted, whoever signed it. Known policy gap kept
/// as designed: nothing prevents an identity from enrolling another identity
/// as a student.
pub fn validate_link(link: &Link, signers: &Vec<Address>) -> (r: Result<(), ValidationError>)
    ensures
        r == Ok::<(), ValidationError>(()),
{
    let _ = link;
    let _ = signers;
    Ok(())
}

/// Agent registration is admitted unconditionally: any identity may join the
/// record space.
pub fn validate_agent(agent: Address) -> (r: Result<(), ValidationError>)
    ensures
        r == Ok::<(), ValidationError>(()),
{
    let _ = agent;
    Ok(())
}

} // verus!
