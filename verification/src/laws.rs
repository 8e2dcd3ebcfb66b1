//! The laws the library states of itself: admission rules of the validation
//! engine quantified over all inputs, and the behaviour of the link graph
//! under enrolment and deletion. Each proof function is a statement; its doc
//! comment says it in words.

use vstd::prelude::*;

use crate::Address;
use crate::anchor::ANCHOR_ADDRESS;
use crate::course::CourseView;
use crate::errors::{BridgeError, ValidationError};
use crate::links::{
    LinkType, LinkView, TagFilter, TypeFilter, link_matches, links_matching, purge_links,
};
use crate::service::{
    course_listing, enrolled_courses_of, enrolled_link, has_student_link, students_of,
};
use crate::validation::{
    spec_membership_confirmed, spec_title_ok, spec_validate_create, spec_validate_delete,
    spec_validate_modify,
};

verus! {

/// A self-signed create with a title within bounds is admitted exactly when
/// the membership registry confirms the teacher, and fails as an unverified
/// member otherwise — bridge failures included, since validation fails
/// closed.
pub proof fn lemma_create_admission(
    revision: CourseView,
    signers: Seq<Address>,
    membership: Result<bool, BridgeError>,
)
    requires
        spec_title_ok(revision.title),
        signers.contains(revision.teacher_address),
    ensures
        spec_membership_confirmed(membership) ==> spec_validate_create(
            revision,
            signers,
            membership,
        ) == Ok::<(), ValidationError>(()),
        !spec_membership_confirmed(membership) ==> spec_validate_create(
            revision,
            signers,
            membership,
        ) == Err::<(), ValidationError>(ValidationError::UnverifiedMember),
{
}

/// A title over the bound is rejected as too long by create and modify alike,
/// whoever signed and whatever the registry answered.
pub proof fn lemma_long_title_rejected(
    original: CourseView,
    revision: CourseView,
    signers: Seq<Address>,
    membership: Result<bool, BridgeError>,
)
    requires
        !spec_title_ok(revision.title),
    ensures
        spec_validate_create(revision, signers, membership) == Err::<(), ValidationError>(
            ValidationError::TitleTooLong,
        ),
        spec_validate_modify(original, revision, signers) == Err::<(), ValidationError>(
            ValidationError::TitleTooLong,
        ),
{
}

/// A revision that changes the owning teacher is rejected, even when the
/// original owner signed it.
pub proof fn lemma_owner_immutable(
    original: CourseView,
    revision: CourseView,
    signers: Seq<Address>,
)
    requires
        spec_title_ok(revision.title),
        revision.teacher_address != original.teacher_address,
    ensures
        spec_validate_modify(original, revision, signers) == Err::<(), ValidationError>(
            ValidationError::OwnerChanged,
        ),
{
}

/// A delete is admitted exactly when the owning teacher is among the signers;
/// any other signer set fails as unauthorized.
pub proof fn lemma_delete_requires_owner(original: CourseView, signers: Seq<Address>)
    ensures
        signers.contains(original.teacher_address) ==> spec_validate_delete(original, signers)
            == Ok::<(), ValidationError>(()),
        !signers.contains(original.teacher_address) ==> spec_validate_delete(original, signers)
            == Err::<(), ValidationError>(ValidationError::UnauthorizedSigner),
{
}

/// A fresh peer lists no courses.
pub proof fn lemma_listing_starts_empty()
    ensures
        course_listing(Seq::<LinkView>::empty()) == Seq::<Address>::empty(),
{
}

/// Edges of any other type leave the global listing unchanged. Together with
/// the create step (each successful create extends the listing by exactly its
/// new address, see `create_course`), a peer that observed N successful
/// creates and any number of enrolments lists exactly N addresses.
pub proof fn lemma_listing_ignores_other_links(links: Seq<LinkView>, l: LinkView)
    requires
        l.link_type != LinkType::AnchorListsCourse,
    ensures
        course_listing(links.push(l)) == course_listing(links),
{
    assert(links.push(l).drop_last() =~= links);
    assert(!link_matches(
        l,
        ANCHOR_ADDRESS,
        TypeFilter::Exactly(LinkType::AnchorListsCourse),
        TagFilter::Any,
    ));
}

/// Enrolment round-trip: after the two edges an enrolment adds, the course
/// lists the student, and the student's enrolled courses list the course.
pub proof fn lemma_enrolment_round_trip(
    links: Seq<LinkView>,
    e_addr: Address,
    h_addr: Address,
    student: Address,
    course: Address,
)
    ensures
        students_of(
            links.push(enrolled_link(e_addr, student, course)).push(
                has_student_link(h_addr, course, student),
            ),
            course,
        ).contains(student),
        enrolled_courses_of(
            links.push(enrolled_link(e_addr, student, course)).push(
                has_student_link(h_addr, course, student),
            ),
            student,
        ).contains(course),
{
    let el = enrolled_link(e_addr, student, course);
    let hl = has_student_link(h_addr, course, student);
    let s1 = links.push(el);
    let s2 = s1.push(hl);
    assert(s2.drop_last() =~= s1);
    assert(s1.drop_last() =~= links);
    assert(students_of(s2, course) == students_of(s1, course).push(student));
    let st = students_of(s2, course);
    assert(st[st.len() - 1] == student);
    assert(enrolled_courses_of(s1, student) == enrolled_courses_of(links, student).push(course));
    assert(enrolled_courses_of(s2, student) == enrolled_courses_of(s1, student));
    let en = enrolled_courses_of(s2, student);
    assert(en[en.len() - 1] == course);
}

/// No query from the purged address matches anything: a purge drops every
/// edge based there.
proof fn lemma_purged_base_empty(links: Seq<LinkView>, a: Address, tf: TypeFilter, gf: TagFilter)
    ensures
        links_matching(purge_links(links, a), a, tf, gf) == Seq::<Address>::empty(),
    decreases links.len(),
{
    if links.len() == 0 {
    } else {
        lemma_purged_base_empty(links.drop_last(), a, tf, gf);
        if links.last().base == a || links.last().target == a {
        } else {
            let p0 = purge_links(links.drop_last(), a);
            assert(p0.push(links.last()).drop_last() =~= p0);
            assert(!link_matches(links.last(), a, tf, gf));
        }
    }
}

/// No query over the purged edge set ever returns the purged address: a purge
/// drops every edge targeting it.
proof fn lemma_purged_never_targets(
    links: Seq<LinkView>,
    a: Address,
    base: Address,
    tf: TypeFilter,
    gf: TagFilter,
)
    ensures
        !links_matching(purge_links(links, a), base, tf, gf).contains(a),
    decreases links.len(),
{
    if links.len() == 0 {
    } else {
        lemma_purged_never_targets(links.drop_last(), a, base, tf, gf);
        if links.last().base == a || links.last().target == a {
        } else {
            let p0 = purge_links(links.drop_last(), a);
            let p = p0.push(links.last());
            assert(p.drop_last() =~= p0);
            let m0 = links_matching(p0, base, tf, gf);
            if link_matches(links.last(), base, tf, gf) {
                let m = m0.push(links.last().target);
                assert(links_matching(p, base, tf, gf) == m);
                assert forall|k: int| 0 <= k < m.len() implies m[k] != a by {
                    if k < m0.len() {
                        assert(m0[k] == m[k]);
                        assert(!m0.contains(a));
                    }
                }
                assert(!m.contains(a));
            }
        }
    }
}

/// Deletion cascade: after the purge that accompanies a course's tombstone,
/// the course lists no students, and no student's enrolled courses still
/// reference the course.
pub proof fn lemma_deletion_cascade(links: Seq<LinkView>, course: Address)
    ensures
        students_of(purge_links(links, course), course) == Seq::<Address>::empty(),
        forall|student: Address|
            !(#[trigger] enrolled_courses_of(purge_links(links, course), student)).contains(course),
{
    lemma_purged_base_empty(
        links,
        course,
        TypeFilter::Exactly(LinkType::CourseHasStudent),
        TagFilter::Any,
    );
    assert forall|student: Address|
        !(#[trigger] enrolled_courses_of(purge_links(links, course), student)).contains(
            course,
        ) by {
        lemma_purged_never_targets(
            links,
            course,
            student,
            TypeFilter::Exactly(LinkType::StudentEnrolledInCourse),
            TagFilter::Any,
        );
    }
}

} // verus!
