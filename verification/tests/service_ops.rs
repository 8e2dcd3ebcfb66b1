use courses::anchor::anchor_address;
use courses::course::Record;
use courses::errors::{BridgeError, ServiceError, StoreError, ValidationError};
use courses::service::CourseService;

const TEACHER: u64 = 1001;
const OTHER: u64 = 1002;
const STUDENT: u64 = 1003;

fn member_ok() -> Result<bool, BridgeError> {
    Ok(true)
}

fn title_of(service: &CourseService, address: u64) -> Option<String> {
    match service.get_entry(address) {
        Some(Record::Course(c)) => Some(c.title),
        _ => None,
    }
}

#[test]
fn create_update_scenario() {
    let mut service = CourseService::new();
    let a = service
        .create_course(TEACHER, "Algebra 101".to_string(), 1000, member_ok())
        .expect("a valid teacher creates an 11-character course");
    let b = service
        .update_course(TEACHER, "Algebra 102".to_string(), Vec::new(), a)
        .expect("the owner updates the course");
    assert_ne!(a, b);
    assert_eq!(title_of(&service, b), Some("Algebra 102".to_string()));
    let verdict = service.update_course(OTHER, "Algebra 103".to_string(), Vec::new(), a);
    assert_eq!(verdict, Err(ServiceError::Validation(ValidationError::UnauthorizedSigner)));
}

#[test]
fn create_fails_closed_without_membership() {
    let mut service = CourseService::new();
    for answer in [Ok(false), Err(BridgeError::Unreachable), Err(BridgeError::Malformed)] {
        let verdict = service.create_course(TEACHER, "Algebra 101".to_string(), 1000, answer);
        assert_eq!(verdict, Err(ServiceError::Validation(ValidationError::UnverifiedMember)));
    }
    // Nothing was listed by the failed attempts.
    assert_eq!(service.list(), Vec::<u64>::new());
}

#[test]
fn long_title_fails_create_and_update_regardless_of_signer() {
    let mut service = CourseService::new();
    let long = "x".repeat(51);
    let verdict = service.create_course(TEACHER, long.clone(), 1000, Ok(false));
    assert_eq!(verdict, Err(ServiceError::Validation(ValidationError::TitleTooLong)));
    let a = service
        .create_course(TEACHER, "Algebra 101".to_string(), 1000, member_ok())
        .unwrap();
    let verdict = service.update_course(OTHER, long, Vec::new(), a);
    assert_eq!(verdict, Err(ServiceError::Validation(ValidationError::TitleTooLong)));
}

#[test]
fn listing_counts_every_successful_create() {
    let mut service = CourseService::new();
    let a = service.create_course(TEACHER, "Algebra 101".to_string(), 1000, member_ok()).unwrap();
    let b = service.create_course(OTHER, "Biology 201".to_string(), 1001, member_ok()).unwrap();
    let c = service.create_course(TEACHER, "Chemistry 301".to_string(), 1002, member_ok()).unwrap();
    assert_eq!(service.list(), vec![a, b, c]);
    // A failed create and an enrolment leave the listing unchanged.
    let _ = service.create_course(OTHER, "x".repeat(51), 1003, member_ok());
    service.enrol_in_course(STUDENT, a).unwrap();
    assert_eq!(service.list(), vec![a, b, c]);
    // Updates produce sibling revisions, not new listings.
    service.update_course(TEACHER, "Algebra 102".to_string(), Vec::new(), a).unwrap();
    assert_eq!(service.list(), vec![a, b, c]);
}

#[test]
fn ownership_queries_follow_the_teacher() {
    let mut service = CourseService::new();
    let a = service.create_course(TEACHER, "Algebra 101".to_string(), 1000, member_ok()).unwrap();
    let b = service.create_course(OTHER, "Biology 201".to_string(), 1001, member_ok()).unwrap();
    assert_eq!(service.get_my_courses(TEACHER), vec![a]);
    assert_eq!(service.get_my_courses(OTHER), vec![b]);
    assert_eq!(service.get_my_courses(STUDENT), Vec::<u64>::new());
}

#[test]
fn enrolment_round_trip() {
    let mut service = CourseService::new();
    let a = service.create_course(TEACHER, "Algebra 101".to_string(), 1000, member_ok()).unwrap();
    service.enrol_in_course(STUDENT, a).expect("enrolment in a live course succeeds");
    assert_eq!(service.get_students(a), vec![STUDENT]);
    assert_eq!(service.get_my_enrolled_courses(STUDENT), vec![a]);
}

#[test]
fn duplicate_enrolments_are_kept() {
    // No uniqueness constraint on edges: the same triple twice yields two
    // distinct link records.
    let mut service = CourseService::new();
    let a = service.create_course(TEACHER, "Algebra 101".to_string(), 1000, member_ok()).unwrap();
    let first = service.enrol_in_course(STUDENT, a).unwrap();
    let second = service.enrol_in_course(STUDENT, a).unwrap();
    assert_ne!(first, second);
    assert_eq!(service.get_students(a), vec![STUDENT, STUDENT]);
}

#[test]
fn enrolment_in_a_dead_course_leaves_a_dangling_edge() {
    // The enrolment pair is not atomic: the student's edge is added first and
    // stays when the inverse edge cannot be added.
    let mut service = CourseService::new();
    let missing = 424242;
    let verdict = service.enrol_in_course(STUDENT, missing);
    assert_eq!(verdict, Err(ServiceError::Store(StoreError::NotFound)));
    assert_eq!(service.get_my_enrolled_courses(STUDENT), vec![missing]);
    assert_eq!(service.get_students(missing), Vec::<u64>::new());
}

#[test]
fn delete_admits_only_the_teacher() {
    let mut service = CourseService::new();
    let a = service.create_course(TEACHER, "Algebra 101".to_string(), 1000, member_ok()).unwrap();
    let verdict = service.delete_course(OTHER, a);
    assert_eq!(verdict, Err(ServiceError::Validation(ValidationError::UnauthorizedSigner)));
    assert_eq!(service.delete_course(TEACHER, a), Ok(a));
}

#[test]
fn deletion_cascades_over_the_link_graph() {
    let mut service = CourseService::new();
    let a = service.create_course(TEACHER, "Algebra 101".to_string(), 1000, member_ok()).unwrap();
    let b = service.create_course(TEACHER, "Biology 201".to_string(), 1001, member_ok()).unwrap();
    service.enrol_in_course(STUDENT, a).unwrap();
    service.enrol_in_course(STUDENT, b).unwrap();
    assert_eq!(service.delete_course(TEACHER, a), Ok(a));
    // The course lists no students and no student still references it.
    assert_eq!(service.get_students(a), Vec::<u64>::new());
    assert_eq!(service.get_my_enrolled_courses(STUDENT), vec![b]);
    // The ownership edge and the listing edge fell with it.
    assert_eq!(service.get_my_courses(TEACHER), vec![b]);
    assert_eq!(service.list(), vec![b]);
    // The record is tombstoned, not erased into another value.
    assert!(service.get_entry(a).is_none());
    assert_eq!(title_of(&service, b), Some("Biology 201".to_string()));
}

#[test]
fn missing_records_surface_not_found() {
    let mut service = CourseService::new();
    let missing = 424242;
    assert_eq!(
        service.update_course(TEACHER, "Algebra 101".to_string(), Vec::new(), missing),
        Err(ServiceError::Store(StoreError::NotFound))
    );
    assert_eq!(service.delete_course(TEACHER, missing), Err(ServiceError::Store(StoreError::NotFound)));
    assert!(service.get_entry(missing).is_none());
}

#[test]
fn deleting_an_unlisted_revision_reports_not_found() {
    // An updated revision has no enumeration edge of its own; deleting it
    // fails on that edge's removal and changes nothing.
    let mut service = CourseService::new();
    let a = service.create_course(TEACHER, "Algebra 101".to_string(), 1000, member_ok()).unwrap();
    let b = service.update_course(TEACHER, "Algebra 102".to_string(), Vec::new(), a).unwrap();
    assert_eq!(service.delete_course(TEACHER, b), Err(ServiceError::Store(StoreError::NotFound)));
    assert_eq!(title_of(&service, b), Some("Algebra 102".to_string()));
}

#[test]
fn sibling_revisions_stay_live() {
    // Two updates against the same prior address: the system records both
    // revisions and resolves nothing; consumers pick their own policy.
    let mut service = CourseService::new();
    let a = service.create_course(TEACHER, "Algebra 101".to_string(), 1000, member_ok()).unwrap();
    let b = service.update_course(TEACHER, "Algebra 102".to_string(), Vec::new(), a).unwrap();
    let c = service.update_course(TEACHER, "Algebra 103".to_string(), Vec::new(), a).unwrap();
    assert_ne!(b, c);
    assert_eq!(title_of(&service, a), Some("Algebra 101".to_string()));
    assert_eq!(title_of(&service, b), Some("Algebra 102".to_string()));
    assert_eq!(title_of(&service, c), Some("Algebra 103".to_string()));
}

#[test]
fn update_preserves_owner_and_creation_time() {
    let mut service = CourseService::new();
    let a = service.create_course(TEACHER, "Algebra 101".to_string(), 1000, member_ok()).unwrap();
    let b = service
        .update_course(TEACHER, "Algebra 102".to_string(), vec![77, 78], a)
        .unwrap();
    match service.get_entry(b) {
        Some(Record::Course(c)) => {
            assert_eq!(c.teacher_address, TEACHER);
            assert_eq!(c.timestamp, 1000);
            assert_eq!(c.modules, vec![77, 78]);
        }
        _ => panic!("the revision is a live course record"),
    }
}

#[test]
fn anchor_is_deterministic_and_retrievable() {
    assert_eq!(anchor_address(), anchor_address());
    let mut service = CourseService::new();
    assert!(service.get_entry(anchor_address()).is_none());
    service.create_course(TEACHER, "Algebra 101".to_string(), 1000, member_ok()).unwrap();
    assert!(matches!(service.get_entry(anchor_address()), Some(Record::Anchor)));
}
