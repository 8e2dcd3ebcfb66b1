//! The course service: one peer's orchestration of the record store, the link
//! index and the validation engine. Every operation runs sequentially on this
//! peer; other peers re-validate the same operations independently when they
//! receive them, with the same deterministic rules.

use vstd::prelude::*;

use crate::Address;
use crate::anchor::{ANCHOR_ADDRESS, anchor_address};
use crate::course::{Course, CourseView, Record, RecordView};
use crate::errors::{BridgeError, ServiceError, StoreError};
use crate::links::{
    Link, LinkIndex, LinkType, LinkView, TagFilter, TypeFilter, first_named, link_matches,
    links_matching, purge_links,
};
use crate::store::{RecordStore, StoreView};
use crate::validation::{
    spec_validate_create, spec_validate_delete, spec_validate_modify, validate_create,
    validate_delete, validate_modify,
};

verus! {

/// The mathematical value of one peer's whole state: its record store and its
/// link index.
#[verifier::ext_equal]
pub struct ServiceView {
    pub store: StoreView,
    pub links: Seq<LinkView>,
}

impl ServiceView {
    /// Well-formedness of the peer state.
    pub open spec fn wf(self) -> bool {
        self.store.wf()
    }
}

/// All globally enumerable courses: the targets of the anchor's out-edges, in
/// the order this peer observed them.
pub open spec fn course_listing(links: Seq<LinkView>) -> Seq<Address> {
    links_matching(
        links,
        ANCHOR_ADDRESS,
        TypeFilter::Exactly(LinkType::AnchorListsCourse),
        TagFilter::Any,
    )
}

/// The courses a teacher owns, in insertion order.
pub open spec fn courses_of_teacher(links: Seq<LinkView>, teacher: Address) -> Seq<Address> {
    links_matching(links, teacher, TypeFilter::Exactly(LinkType::TeacherOwnsCourse), TagFilter::Any)
}

/// The courses a student has enrolled in, in insertion order.
pub open spec fn enrolled_courses_of(links: Seq<LinkView>, student: Address) -> Seq<Address> {
    links_matching(
        links,
        student,
        TypeFilter::Exactly(LinkType::StudentEnrolledInCourse),
        TagFilter::Any,
    )
}

/// The students a course lists, in insertion order.
pub open spec fn students_of(links: Seq<LinkView>, course: Address) -> Seq<Address> {
    links_matching(links, course, TypeFilter::Exactly(LinkType::CourseHasStudent), TagFilter::Any)
}

/// The edge a create adds from the teacher to the new course.
pub open spec fn teacher_link(addr: Address, teacher: Address, course: Address) -> LinkView {
    LinkView {
        address: addr,
        base: teacher,
        target: course,
        link_type: LinkType::TeacherOwnsCourse,
        tag: Seq::empty(),
    }
}

/// The edge a create adds from the anchor to the new course.
pub open spec fn anchor_link(addr: Address, course: Address) -> LinkView {
    LinkView {
        address: addr,
        base: ANCHOR_ADDRESS,
        target: course,
        link_type: LinkType::AnchorListsCourse,
        tag: Seq::empty(),
    }
}

/// The edge an enrolment adds from the student to the course.
pub open spec fn enrolled_link(addr: Address, student: Address, course: Address) -> LinkView {
    LinkView {
        address: addr,
        base: student,
        target: course,
        link_type: LinkType::StudentEnrolledInCourse,
        tag: Seq::empty(),
    }
}

/// The inverse edge an enrolment adds from the course to the student.
pub open spec fn has_student_link(addr: Address, course: Address, student: Address) -> LinkView {
    LinkView {
        address: addr,
        base: course,
        target: student,
        link_type: LinkType::CourseHasStudent,
        tag: Seq::empty(),
    }
}

/// The record a lookup finds at an address: the anchor at its reserved
/// address once committed, otherwise the live course record there.
pub open spec fn spec_entry_at(v: ServiceView, a: Address) -> Option<RecordView> {
    if a == ANCHOR_ADDRESS && v.store.anchor_present {
        Some(RecordView::Anchor)
    } else {
        match v.store.live_course_at(a) {
            Option::Some(c) => Some(RecordView::Course(c)),
            Option::None => None,
        }
    }
}

/// Purging an edge set after removing one edge that touches the purged
/// address comes to the same edge set as purging directly.
proof fn lemma_purge_after_remove(s: Seq<LinkView>, i: int, a: Address)
    requires
        0 <= i < s.len(),
        s[i].base == a || s[i].target == a,
    ensures
        purge_links(s.remove(i), a) == purge_links(s, a),
    decreases s.len(),
{
    if i == s.len() - 1 {
        assert(s.remove(i) =~= s.drop_last());
    } else {
        assert(s.remove(i).drop_last() =~= s.drop_last().remove(i));
        assert(s.remove(i).last() == s.last());
        lemma_purge_after_remove(s.drop_last(), i, a);
    }
}

/// One peer's course service.
pub struct CourseService {
    store: RecordStore,
    links: LinkIndex,
}

impl View for CourseService {
    type V = ServiceView;

    closed spec fn view(&self) -> ServiceView {
        ServiceView { store: self.store@, links: self.links@ }
    }
}

impl CourseService {
    /// Well-formedness of the peer state (see `ServiceView::wf`).
    pub open spec fn wf(self) -> bool {
        self@.wf()
    }

    /// A fresh peer: empty store, empty link index, anchor not yet committed.
    pub fn new() -> (r: Self)
        ensures
            r.wf(),
            r@.links == Seq::<LinkView>::empty(),
            r@.store.courses == Seq::<(Address, CourseView)>::empty(),
            r@.store.tombstoned == Seq::<Address>::empty(),
            r@.store.supersedes == Seq::<(Address, Address)>::empty(),
            !r@.store.anchor_present,
            r@.store.next_address == ANCHOR_ADDRESS + 1,
    {
        CourseService { store: RecordStore::new(), links: LinkIndex::new() }
    }

    /// Creates a course: ensures the anchor (idempotently), validates the new
    /// record as every receiving peer will — self-authorship, membership
    /// (fail closed), title bound — then commits it and adds the ownership
    /// edge and the anchor's enumeration edge. Returns the new course's
    /// address; each successful create extends the global listing by exactly
    /// that address.
    ///
    /// `membership` is the authorization bridge's answer for `caller`; the
    /// host obtains it before submitting the operation.
    pub fn create_course(
        &mut self,
        caller: Address,
        title: String,
        timestamp: u64,
        membership: Result<bool, BridgeError>,
    ) -> (r: Result<Address, ServiceError>)
        requires
            old(self).wf(),
        ensures
            final(self).wf(),
            ({
                let cv = CourseView {
                    title: title@,
                    teacher_address: caller,
                    modules: Seq::<Address>::empty(),
                    timestamp,
                };
                let verdict = spec_validate_create(cv, seq![caller], membership);
                let room = old(self)@.store.next_address + 3 <= Address::MAX;
                let c_addr = old(self)@.store.next_address;
                &&& (!room ==> r == Err::<Address, ServiceError>(
                    ServiceError::Store(StoreError::AddressCollision),
                ) && final(self)@ == old(self)@)
                &&& (room && verdict is Err ==> r == Err::<Address, ServiceError>(
                    ServiceError::Validation(verdict->Err_0),
                ) && final(self)@ == (ServiceView {
                    store: old(self)@.store.with_anchor(),
                    links: old(self)@.links,
                }))
                &&& (room && verdict is Ok ==> {
                    &&& r == Ok::<Address, ServiceError>(c_addr)
                    &&& final(self)@.store == (StoreView {
                        courses: old(self)@.store.courses.push((c_addr, cv)),
                        anchor_present: true,
                        next_address: (c_addr + 3) as Address,
                        ..old(self)@.store
                    })
                    &&& final(self)@.links == old(self)@.links.push(
                        teacher_link((c_addr + 1) as Address, caller, c_addr),
                    ).push(anchor_link((c_addr + 2) as Address, c_addr))
                    &&& course_listing(final(self)@.links) == course_listing(
                        old(self)@.links,
                    ).push(c_addr)
                })
            }),
    {
        if !self.store.has_room(3) {
            return Err(ServiceError::Store(StoreError::AddressCollision));
        }
        let ghost tv = title@;
        self.store.commit_anchor();
        let course = Course::new(title, caller, timestamp);
        let mut signers: Vec<Address> = Vec::new();
        signers.push(caller);
        proof {
            assert(signers@ =~= seq![caller]);
        }
        match validate_create(&course, &signers, &membership) {
            Result::Err(e) => {
                proof {
                    assert(self@ =~= ServiceView {
                        store: old(self)@.store.with_anchor(),
                        links: old(self)@.links,
                    });
                }
                return Err(ServiceError::Validation(e));
            },
            Result::Ok(()) => {},
        }
        let c_addr = self.store.commit_course(course);
        let t_addr = self.store.allocate_address();
        self.links.add_link(
            Link {
                address: t_addr,
                base: caller,
                target: c_addr,
                link_type: LinkType::TeacherOwnsCourse,
                tag: String::new(),
            },
        );
        let a_addr = self.store.allocate_address();
        self.links.add_link(
            Link {
                address: a_addr,
                base: anchor_address(),
                target: c_addr,
                link_type: LinkType::AnchorListsCourse,
                tag: String::new(),
            },
        );
        proof {
            let cv = CourseView {
                title: tv,
                teacher_address: caller,
                modules: Seq::<Address>::empty(),
                timestamp,
            };
            assert(self@.store =~= StoreView {
                courses: old(self)@.store.courses.push((c_addr, cv)),
                anchor_present: true,
                next_address: (c_addr + 3) as Address,
                ..old(self)@.store
            });
            let l0 = old(self)@.links;
            let tl = teacher_link(t_addr, caller, c_addr);
            let al = anchor_link(a_addr, c_addr);
            assert(self@.links =~= l0.push(tl).push(al));
            assert(l0.push(tl).drop_last() =~= l0);
            assert(l0.push(tl).push(al).drop_last() =~= l0.push(tl));
            assert(l0.push(tl).last() == tl);
            assert(l0.push(tl).push(al).last() == al);
            assert(link_matches(
                al,
                ANCHOR_ADDRESS,
                TypeFilter::Exactly(LinkType::AnchorListsCourse),
                TagFilter::Any,
            ));
            assert(!link_matches(
                tl,
                ANCHOR_ADDRESS,
                TypeFilter::Exactly(LinkType::AnchorListsCourse),
                TagFilter::Any,
            ));
            assert(course_listing(l0.push(tl)) == course_listing(l0));
            assert(course_listing(l0.push(tl).push(al)) == course_listing(l0.push(tl)).push(c_addr));
        }
        Ok(c_addr)
    }

    /// Updates a course: fetches the live record, builds a revision that
    /// preserves the owner and the creation time, validates it as a modify —
    /// ownership immutable, owner's signature required, title bound — and
    /// commits the revision as a brand-new record at a new address with a
    /// provenance entry back to the prior address. The prior record stays
    /// live: two updates against the same address leave sibling revisions,
    /// and callers resolve such conflicts themselves.
    pub fn update_course(
        &mut self,
        caller: Address,
        title: String,
        modules: Vec<Address>,
        course_address: Address,
    ) -> (r: Result<Address, ServiceError>)
        requires
            old(self).wf(),
        ensures
            final(self).wf(),
            ({
                let prior = old(self)@.store.live_course_at(course_address);
                &&& (prior is None ==> r == Err::<Address, ServiceError>(
                    ServiceError::Store(StoreError::NotFound),
                ) && final(self)@ == old(self)@)
                &&& (prior matches Some(pv) ==> {
                    let cv = CourseView {
                        title: title@,
                        teacher_address: pv.teacher_address,
                        modules: modules@,
                        timestamp: pv.timestamp,
                    };
                    let verdict = spec_validate_modify(pv, cv, seq![caller]);
                    let room = old(self)@.store.next_address < Address::MAX;
                    let n_addr = old(self)@.store.next_address;
                    &&& (verdict is Err ==> r == Err::<Address, ServiceError>(
                        ServiceError::Validation(verdict->Err_0),
                    ) && final(self)@ == old(self)@)
                    &&& (verdict is Ok && !room ==> r == Err::<Address, ServiceError>(
                        ServiceError::Store(StoreError::AddressCollision),
                    ) && final(self)@ == old(self)@)
                    &&& (verdict is Ok && room ==> {
                        &&& r == Ok::<Address, ServiceError>(n_addr)
                        &&& final(self)@.store == (StoreView {
                            courses: old(self)@.store.courses.push((n_addr, cv)),
                            supersedes: old(self)@.store.supersedes.push(
                                (n_addr, course_address),
                            ),
                            next_address: (n_addr + 1) as Address,
                            ..old(self)@.store
                        })
                        &&& final(self)@.links == old(self)@.links
                    })
                })
            }),
    {
        let prior = match self.store.get_live_course(course_address) {
            Option::None => {
                return Err(ServiceError::Store(StoreError::NotFound));
            },
            Option::Some(c) => c,
        };
        let ghost tv = title@;
        let ghost mv = modules@;
        let revision = Course::from(title, prior.teacher_address, prior.timestamp, modules);
        let mut signers: Vec<Address> = Vec::new();
        signers.push(caller);
        proof {
            assert(signers@ =~= seq![caller]);
        }
        match validate_modify(&prior, &revision, &signers) {
            Result::Err(e) => {
                return Err(ServiceError::Validation(e));
            },
            Result::Ok(()) => {},
        }
        if !self.store.has_room(1) {
            return Err(ServiceError::Store(StoreError::AddressCollision));
        }
        let n_addr = self.store.commit_course(revision);
        self.store.record_supersedes(n_addr, course_address);
        proof {
            let pv = old(self)@.store.live_course_at(course_address)->Some_0;
            let cv = CourseView {
                title: tv,
                teacher_address: pv.teacher_address,
                modules: mv,
                timestamp: pv.timestamp,
            };
            assert(self@.store =~= StoreView {
                courses: old(self)@.store.courses.push((n_addr, cv)),
                supersedes: old(self)@.store.supersedes.push((n_addr, course_address)),
                next_address: (n_addr + 1) as Address,
                ..old(self)@.store
            });
        }
        Ok(n_addr)
    }

    /// Deletes a course: only the owning teacher's signature admits it. The
    /// anchor's enumeration edge is removed, and the tombstone cascades over
    /// the link graph: every student's enrollment edge to this course, the
    /// course's own student edges, and the ownership edge all go with it. The
    /// record's value is not erased, only its visibility.
    pub fn delete_course(&mut self, caller: Address, course_address: Address) -> (r: Result<
        Address,
        ServiceError,
    >)
        requires
            old(self).wf(),
        ensures
            final(self).wf(),
            ({
                let prior = old(self)@.store.live_course_at(course_address);
                let listed = first_named(
                    old(self)@.links,
                    ANCHOR_ADDRESS,
                    course_address,
                    LinkType::AnchorListsCourse,
                    Seq::<char>::empty(),
                );
                &&& (prior is None ==> r == Err::<Address, ServiceError>(
                    ServiceError::Store(StoreError::NotFound),
                ) && final(self)@ == old(self)@)
                &&& (prior matches Some(pv) ==> {
                    let verdict = spec_validate_delete(pv, seq![caller]);
                    &&& (verdict is Err ==> r == Err::<Address, ServiceError>(
                        ServiceError::Validation(verdict->Err_0),
                    ) && final(self)@ == old(self)@)
                    &&& (verdict is Ok && listed is None ==> r == Err::<Address, ServiceError>(
                        ServiceError::Store(StoreError::NotFound),
                    ) && final(self)@ == old(self)@)
                    &&& (verdict is Ok && listed is Some ==> {
                        &&& r == Ok::<Address, ServiceError>(course_address)
                        &&& final(self)@.links == purge_links(old(self)@.links, course_address)
                        &&& final(self)@.store == (StoreView {
                            tombstoned: old(self)@.store.tombstoned.push(course_address),
                            ..old(self)@.store
                        })
                    })
                })
            }),
    {
        let prior = match self.store.get_live_course(course_address) {
            Option::None => {
                return Err(ServiceError::Store(StoreError::NotFound));
            },
            Option::Some(c) => c,
        };
        let mut signers: Vec<Address> = Vec::new();
        signers.push(caller);
        proof {
            assert(signers@ =~= seq![caller]);
        }
        match validate_delete(&prior, &signers) {
            Result::Err(e) => {
                return Err(ServiceError::Validation(e));
            },
            Result::Ok(()) => {},
        }
        let tag = String::new();
        match self.links.remove_link(
            anchor_address(),
            course_address,
            LinkType::AnchorListsCourse,
            &tag,
        ) {
            Result::Err(e) => {
                return Err(ServiceError::Store(e));
            },
            Result::Ok(()) => {},
        }
        proof {
            let listed = first_named(
                old(self)@.links,
                ANCHOR_ADDRESS,
                course_address,
                LinkType::AnchorListsCourse,
                Seq::<char>::empty(),
            );
            crate::links::lemma_first_named_valid(
                old(self)@.links,
                ANCHOR_ADDRESS,
                course_address,
                LinkType::AnchorListsCourse,
                Seq::<char>::empty(),
            );
            lemma_purge_after_remove(old(self)@.links, listed->Some_0, course_address);
        }
        self.links.purge(course_address);
        self.store.tombstone(course_address);
        proof {
            assert(self@.store =~= StoreView {
                tombstoned: old(self)@.store.tombstoned.push(course_address),
                ..old(self)@.store
            });
        }
        Ok(course_address)
    }

    /// All globally enumerable course addresses, in the order this peer
    /// observed their creation.
    pub fn list(&self) -> (r: Vec<Address>)
        ensures
            r@ == course_listing(self@.links),
    {
        self.links.get_links(
            anchor_address(),
            &TypeFilter::Exactly(LinkType::AnchorListsCourse),
            &TagFilter::Any,
        )
    }

    /// The courses the calling teacher owns.
    pub fn get_my_courses(&self, caller: Address) -> (r: Vec<Address>)
        ensures
            r@ == courses_of_teacher(self@.links, caller),
    {
        self.links.get_links(
            caller,
            &TypeFilter::Exactly(LinkType::TeacherOwnsCourse),
            &TagFilter::Any,
        )
    }

    /// The courses the calling student has enrolled in.
    pub fn get_my_enrolled_courses(&self, caller: Address) -> (r: Vec<Address>)
        ensures
            r@ == enrolled_courses_of(self@.links, caller),
    {
        self.links.get_links(
            caller,
            &TypeFilter::Exactly(LinkType::StudentEnrolledInCourse),
            &TagFilter::Any,
        )
    }

    /// The students a course lists.
    pub fn get_students(&self, course_address: Address) -> (r: Vec<Address>)
        ensures
            r@ == students_of(self@.links, course_address),
    {
        self.links.get_links(
            course_address,
            &TypeFilter::Exactly(LinkType::CourseHasStudent),
            &TagFilter::Any,
        )
    }

    /// Enrols the caller in a course: adds the student's enrollment edge and
    /// then the course's inverse student edge, in that order. The pair is not
    /// atomic: when the course is not live the first edge has already been
    /// added and stays — a known inconsistency kept as designed, with no
    /// compensating removal.
    pub fn enrol_in_course(&mut self, caller: Address, course_address: Address) -> (r: Result<
        Address,
        ServiceError,
    >)
        requires
            old(self).wf(),
        ensures
            final(self).wf(),
            ({
                let room = old(self)@.store.next_address + 2 <= Address::MAX;
                let live = old(self)@.store.live_course_at(course_address) is Some;
                let e_addr = old(self)@.store.next_address;
                &&& (!room ==> r == Err::<Address, ServiceError>(
                    ServiceError::Store(StoreError::AddressCollision),
                ) && final(self)@ == old(self)@)
                &&& (room && !live ==> {
                    &&& r == Err::<Address, ServiceError>(ServiceError::Store(StoreError::NotFound))
                    &&& final(self)@.links == old(self)@.links.push(
                        enrolled_link(e_addr, caller, course_address),
                    )
                    &&& final(self)@.store == (StoreView {
                        next_address: (e_addr + 1) as Address,
                        ..old(self)@.store
                    })
                })
                &&& (room && live ==> {
                    &&& r == Ok::<Address, ServiceError>((e_addr + 1) as Address)
                    &&& final(self)@.links == old(self)@.links.push(
                        enrolled_link(e_addr, caller, course_address),
                    ).push(has_student_link((e_addr + 1) as Address, course_address, caller))
                    &&& final(self)@.store == (StoreView {
                        next_address: (e_addr + 2) as Address,
                        ..old(self)@.store
                    })
                })
            }),
    {
        if !self.store.has_room(2) {
            return Err(ServiceError::Store(StoreError::AddressCollision));
        }
        let e_addr = self.store.allocate_address();
        self.links.add_link(
            Link {
                address: e_addr,
                base: caller,
                target: course_address,
                link_type: LinkType::StudentEnrolledInCourse,
                tag: String::new(),
            },
        );
        let live = match self.store.get_live_course(course_address) {
            Option::None => false,
            Option::Some(_) => true,
        };
        if !live {
            return Err(ServiceError::Store(StoreError::NotFound));
        }
        let h_addr = self.store.allocate_address();
        self.links.add_link(
            Link {
                address: h_addr,
                base: course_address,
                target: caller,
                link_type: LinkType::CourseHasStudent,
                tag: String::new(),
            },
        );
        Ok(h_addr)
    }

    /// The record at an address: the anchor at its reserved address once
    /// committed, otherwise the live course record there, if any.
    pub fn get_entry(&self, address: Address) -> (r: Option<Record>)
        ensures
            match r {
                Option::Some(rec) => spec_entry_at(self@, address) == Some(rec@),
                Option::None => spec_entry_at(self@, address) is None,
            },
    {
        if address == anchor_address() && self.store.anchor_present() {
            return Some(Record::Anchor);
        }
        match self.store.get_live_course(address) {
            Option::Some(c) => Some(Record::Course(c)),
            Option::None => None,
        }
    }
}

} // verus!
