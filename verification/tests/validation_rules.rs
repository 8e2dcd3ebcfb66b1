use courses::course::Course;
use courses::errors::{BridgeError, ValidationError};
use courses::links::{Link, LinkType};
use courses::validation::{validate, validate_agent, validate_course_title, validate_link, Operation};

fn course(title: &str, owner: u64) -> Course {
    Course::new(title.to_string(), owner, 1000)
}

#[test]
fn title_at_bound_is_admitted() {
    let title = "x".repeat(50);
    assert_eq!(validate_course_title(&title), Ok(()));
}

#[test]
fn title_over_bound_is_rejected() {
    let title = "x".repeat(51);
    assert_eq!(validate_course_title(&title), Err(ValidationError::TitleTooLong));
}

#[test]
fn title_bound_counts_characters_not_bytes() {
    // 50 multi-byte characters are within the bound even though the byte
    // length is far over it.
    let ok_title: String = std::iter::repeat('\u{20ac}').take(50).collect();
    assert!(ok_title.len() > 50);
    assert_eq!(validate_course_title(&ok_title), Ok(()));
    let long_title: String = std::iter::repeat('\u{20ac}').take(51).collect();
    assert_eq!(validate_course_title(&long_title), Err(ValidationError::TitleTooLong));
}

#[test]
fn create_requires_self_authorship() {
    let op = Operation::Create { revision: course("Algebra 101", 7) };
    let verdict = validate(&op, &vec![8, 9], &Ok(true));
    assert_eq!(verdict, Err(ValidationError::UnauthorizedSigner));
}

#[test]
fn create_fails_closed_on_every_bridge_outcome() {
    for answer in [Ok(false), Err(BridgeError::Unreachable), Err(BridgeError::Malformed)] {
        let op = Operation::Create { revision: course("Algebra 101", 7) };
        let verdict = validate(&op, &vec![7], &answer);
        assert_eq!(verdict, Err(ValidationError::UnverifiedMember));
    }
}

#[test]
fn create_admits_confirmed_member() {
    let op = Operation::Create { revision: course("Algebra 101", 7) };
    assert_eq!(validate(&op, &vec![7], &Ok(true)), Ok(()));
}

#[test]
fn long_title_rejected_before_signer_checks() {
    let title = "x".repeat(51);
    let op = Operation::Create { revision: course(&title, 7) };
    // Neither self-authored nor a confirmed member: the title still decides.
    let verdict = validate(&op, &vec![8], &Ok(false));
    assert_eq!(verdict, Err(ValidationError::TitleTooLong));
    let op = Operation::Modify { original: course("Algebra 101", 7), revision: course(&title, 7) };
    assert_eq!(validate(&op, &vec![8], &Ok(true)), Err(ValidationError::TitleTooLong));
}

#[test]
fn modify_rejects_owner_change_even_when_original_owner_signs() {
    let op = Operation::Modify {
        original: course("Algebra 101", 7),
        revision: course("Algebra 101", 8),
    };
    let verdict = validate(&op, &vec![7], &Ok(true));
    assert_eq!(verdict, Err(ValidationError::OwnerChanged));
}

#[test]
fn modify_requires_owner_signature() {
    let op = Operation::Modify {
        original: course("Algebra 101", 7),
        revision: course("Algebra 102", 7),
    };
    assert_eq!(validate(&op, &vec![8], &Ok(true)), Err(ValidationError::UnauthorizedSigner));
    let op = Operation::Modify {
        original: course("Algebra 101", 7),
        revision: course("Algebra 102", 7),
    };
    assert_eq!(validate(&op, &vec![7], &Ok(true)), Ok(()));
}

#[test]
fn modify_does_not_consult_membership() {
    let op = Operation::Modify {
        original: course("Algebra 101", 7),
        revision: course("Algebra 102", 7),
    };
    // Even an unreachable registry does not block a modify.
    assert_eq!(validate(&op, &vec![7], &Err(BridgeError::Unreachable)), Ok(()));
}

#[test]
fn delete_admits_only_owner() {
    let op = Operation::Delete { original: course("Algebra 101", 7) };
    assert_eq!(validate(&op, &vec![8], &Ok(true)), Err(ValidationError::UnauthorizedSigner));
    let op = Operation::Delete { original: course("Algebra 101", 7) };
    assert_eq!(validate(&op, &vec![7], &Ok(true)), Ok(()));
}

#[test]
fn link_validation_is_permissive() {
    // Known policy gap kept as designed: any identity may record any edge,
    // including enrolling another identity.
    let link = Link {
        address: 90,
        base: 8,
        target: 42,
        link_type: LinkType::StudentEnrolledInCourse,
        tag: String::new(),
    };
    assert_eq!(validate_link(&link, &vec![7]), Ok(()));
}

#[test]
fn agent_validation_is_permissive() {
    assert_eq!(validate_agent(7), Ok(()));
}
