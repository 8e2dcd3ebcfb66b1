use courses::course::{anchor_entry, Course, Record};

#[test]
fn course_constructors_carry_their_fields() {
    let c = Course::new("Algebra 101".to_string(), 7, 1000);
    assert_eq!(c.title, "Algebra 101");
    assert_eq!(c.teacher_address, 7);
    assert_eq!(c.modules, Vec::<u64>::new());
    assert_eq!(c.timestamp, 1000);

    let d = Course::from("Biology 201".to_string(), 8, 2000, vec![31, 32]);
    assert_eq!(d.title, "Biology 201");
    assert_eq!(d.teacher_address, 8);
    assert_eq!(d.modules, vec![31, 32]);
    assert_eq!(d.timestamp, 2000);
}

#[test]
fn a_course_commits_as_a_course_record() {
    let c = Course::new("Algebra 101".to_string(), 7, 1000);
    match c.entry() {
        Record::Course(cc) => {
            assert_eq!(cc.title, "Algebra 101");
            assert_eq!(cc.teacher_address, 7);
        }
        Record::Anchor => panic!("a course record, not the anchor"),
    }
    assert!(matches!(anchor_entry(), Record::Anchor));
}
