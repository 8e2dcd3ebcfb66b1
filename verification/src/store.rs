//! One peer's view of the content-addressed record store: immutable course
//! records keyed by address, the singleton anchor, tombstones, and the
//! provenance chain that "modify" leaves behind. Addresses are opaque; this
//! model hands out fresh ones strictly above the reserved anchor address, so
//! distinct records never collide.

use vstd::prelude::*;

use crate::Address;
use crate::anchor::ANCHOR_ADDRESS;
use crate::course::{Course, CourseView};
use crate::errors::StoreError;

verus! {

/// A committed course record together with its content address.
pub struct CourseRecord {
    pub address: Address,
    pub course: Course,
}

/// The mathematical value of one peer's store.
#[verifier::ext_equal]
pub struct StoreView {
    /// Committed course records, oldest first, keyed by address.
    pub courses: Seq<(Address, CourseView)>,
    /// Addresses whose records have been tombstoned: the value is not erased,
    /// only its visibility.
    pub tombstoned: Seq<Address>,
    /// Provenance: each pair is (revision address, superseded address).
    pub supersedes: Seq<(Address, Address)>,
    /// Whether the singleton anchor record has been committed.
    pub anchor_present: bool,
    /// The next fresh address this peer's store will hand out.
    pub next_address: Address,
}

/// The course record stored at `a`, if any. Addresses are unique in a
/// well-formed store, so at most one record matches.
pub open spec fn course_at(courses: Seq<(Address, CourseView)>, a: Address) -> Option<CourseView>
    decreases courses.len(),
{
    if courses.len() == 0 {
        None
    } else if courses.last().0 == a {
        Some(courses.last().1)
    } else {
        course_at(courses.drop_last(), a)
    }
}

impl StoreView {
    /// Well-formedness: record addresses grow strictly (so they are unique)
    /// and sit strictly between the reserved anchor address and the next
    /// fresh address.
    pub open spec fn wf(self) -> bool {
        &&& forall|i: int, j: int|
            0 <= i < j < self.courses.len() ==> self.courses[i].0 < self.courses[j].0
        &&& forall|i: int|
            0 <= i < self.courses.len() ==> ANCHOR_ADDRESS < #[trigger] self.courses[i].0
                < self.next_address
        &&& ANCHOR_ADDRESS < self.next_address
    }

    /// The store after the anchor is ensured present.
    pub open spec fn with_anchor(self) -> StoreView {
        StoreView { anchor_present: true, ..self }
    }

    /// The live record at `a`: present, and not tombstoned.
    pub open spec fn live_course_at(self, a: Address) -> Option<CourseView> {
        if self.tombstoned.contains(a) {
            None
        } else {
            course_at(self.courses, a)
        }
    }
}

/// One peer's content-addressed record store.
pub struct RecordStore {
    courses: Vec<CourseRecord>,
    tombstoned: Vec<Address>,
    supersedes: Vec<(Address, Address)>,
    anchor_present: bool,
    next_address: Address,
}

impl View for RecordStore {
    type V = StoreView;

    closed spec fn view(&self) -> StoreView {
        StoreView {
            courses: self.courses@.map_values(|r: CourseRecord| (r.address, r.course@)),
            tombstoned: self.tombstoned@,
            supersedes: self.supersedes@,
            anchor_present: self.anchor_present,
            next_address: self.next_address,
        }
    }
}

impl RecordStore {
    /// Well-formedness of the store (see `StoreView::wf`).
    pub open spec fn wf(self) -> bool {
        self@.wf()
    }

    /// An empty store: no records, no tombstones, anchor not yet committed.
    pub fn new() -> (r: Self)
        ensures
            r@ == (StoreView {
                courses: Seq::<(Address, CourseView)>::empty(),
                tombstoned: Seq::<Address>::empty(),
                supersedes: Seq::<(Address, Address)>::empty(),
                anchor_present: false,
                next_address: (ANCHOR_ADDRESS + 1) as Address,
            }),
            r.wf(),
    {
        let r = RecordStore {
            courses: Vec::new(),
            tombstoned: Vec::new(),
            supersedes: Vec::new(),
            anchor_present: false,
            next_address: ANCHOR_ADDRESS + 1,
        };
        proof {
            assert(r@ =~= StoreView {
                courses: Seq::<(Address, CourseView)>::empty(),
                tombstoned: Seq::<Address>::empty(),
                supersedes: Seq::<(Address, Address)>::empty(),
                anchor_present: false,
                next_address: (ANCHOR_ADDRESS + 1) as Address,
            });
        }
        r
    }

    /// Whether the store can still hand out `n` more fresh addresses.
    pub fn has_room(&self, n: u64) -> (r: bool)
        ensures
            r == (self@.next_address + n <= Address::MAX),
    {
        self.next_address <= Address::MAX - n
    }

    /// Commits the anchor record: a no-op if it is already present. Every
    /// peer computes the same anchor address.
    pub fn commit_anchor(&mut self) -> (r: Address)
        ensures
            final(self)@ == old(self)@.with_anchor(),
            r == ANCHOR_ADDRESS,
            old(self).wf() ==> final(self).wf(),
    {
        self.anchor_present = true;
        proof {
            assert(self@ =~= old(self)@.with_anchor());
        }
        ANCHOR_ADDRESS
    }

    /// Commits a course record at a fresh address and returns that address.
    pub fn commit_course(&mut self, course: Course) -> (r: Address)
        requires
            old(self).wf(),
            old(self)@.next_address < Address::MAX,
        ensures
            final(self).wf(),
            r == old(self)@.next_address,
            final(self)@ == (StoreView {
                courses: old(self)@.courses.push((r, course@)),
                next_address: (old(self)@.next_address + 1) as Address,
                ..old(self)@
            }),
    {
        let addr = self.next_address;
        let ghost cv = course@;
        self.courses.push(CourseRecord { address: addr, course });
        self.next_address = addr + 1;
        proof {
            assert(self@.courses =~= old(self)@.courses.push((addr, cv)));
            assert(self@ =~= StoreView {
                courses: old(self)@.courses.push((addr, cv)),
                next_address: (old(self)@.next_address + 1) as Address,
                ..old(self)@
            });
        }
        addr
    }

    /// Hands out a fresh address for a link record.
    pub fn allocate_address(&mut self) -> (r: Address)
        requires
            old(self).wf(),
            old(self)@.next_address < Address::MAX,
        ensures
            final(self).wf(),
            r == old(self)@.next_address,
            final(self)@ == (StoreView {
                next_address: (old(self)@.next_address + 1) as Address,
                ..old(self)@
            }),
    {
        let addr = self.next_address;
        self.next_address = addr + 1;
        proof {
            assert(self@ =~= StoreView {
                next_address: (old(self)@.next_address + 1) as Address,
                ..old(self)@
            });
        }
        addr
    }

    /// Whether the record at `a` has been tombstoned.
    pub fn is_tombstoned(&self, a: Address) -> (r: bool)
        ensures
            r == self@.tombstoned.contains(a),
    {
        let n = self.tombstoned.len();
        let mut i: usize = 0;
        while i < n
            invariant
                i <= n,
                n == self.tombstoned.len(),
                forall|j: int| 0 <= j < i ==> self@.tombstoned[j] != a,
            decreases n - i,
        {
            if self.tombstoned[i] == a {
                return true;
            }
            i = i + 1;
        }
        false
    }

    /// The course record committed at `a`, tombstoned or not.
    pub fn get_course(&self, a: Address) -> (r: Option<Course>)
        ensures
            match r {
                Option::Some(c) => course_at(self@.courses, a) == Some(c@),
                Option::None => course_at(self@.courses, a) is None,
            },
    {
        let n = self.courses.len();
        let mut i: usize = n;
        proof {
            assert(self@.courses.take(n as int) =~= self@.courses);
        }
        while i > 0
            invariant
                i <= n,
                n == self.courses.len(),
                course_at(self@.courses, a) == course_at(self@.courses.take(i as int), a),
            decreases i,
        {
            proof {
                assert(self@.courses.take(i as int).last() == self@.courses[i - 1]);
                assert(self@.courses.take(i as int).drop_last() =~= self@.courses.take(i - 1));
            }
            if self.courses[i - 1].address == a {
                return Some(self.courses[i - 1].course.clone());
            }
            i = i - 1;
        }
        None
    }

    /// The live record at `a`: the course if present and not tombstoned.
    pub fn get_live_course(&self, a: Address) -> (r: Option<Course>)
        ensures
            match r {
                Option::Some(c) => self@.live_course_at(a) == Some(c@),
                Option::None => self@.live_course_at(a) is None,
            },
    {
        if self.is_tombstoned(a) {
            None
        } else {
            self.get_course(a)
        }
    }

    /// Whether the anchor record has been committed.
    pub fn anchor_present(&self) -> (r: bool)
        ensures
            r == self@.anchor_present,
    {
        self.anchor_present
    }

    /// Marks the record at `a` tombstoned. The value is not erased; it only
    /// stops being live.
    pub fn tombstone(&mut self, a: Address)
        ensures
            final(self)@ == (StoreView { tombstoned: old(self)@.tombstoned.push(a), ..old(self)@ }),
            old(self).wf() ==> final(self).wf(),
    {
        self.tombstoned.push(a);
        proof {
            assert(self@ =~= StoreView { tombstoned: old(self)@.tombstoned.push(a), ..old(self)@ });
        }
    }

    /// Records that the revision at `fresh` supersedes the record at `prior`.
    pub fn record_supersedes(&mut self, fresh: Address, prior: Address)
        ensures
            final(self)@ == (StoreView {
                supersedes: old(self)@.supersedes.push((fresh, prior)),
                ..old(self)@
            }),
            old(self).wf() ==> final(self).wf(),
    {
        self.supersedes.push((fresh, prior));
        proof {
            assert(self@ =~= StoreView {
                supersedes: old(self)@.supersedes.push((fresh, prior)),
                ..old(self)@
            });
        }
    }
}

} // verus!
