//! The course record: an immutable, content-addressed value. A "modify" never
//! rewrites a record in place; it produces a brand-new record at a new address
//! whose provenance the store keeps separately.

use vstd::prelude::*;

use crate::Address;

verus! {

/// A course record as every peer sees it.
pub struct Course {
    /// Display title; validation bounds its length.
    pub title: String,
    /// The owning teacher's identity. Immutable across revisions.
    pub teacher_address: Address,
    /// Addresses of related records (course modules); free-form for the rules.
    pub modules: Vec<Address>,
    /// Caller-supplied creation time. Preserved across revisions.
    pub timestamp: u64,
}

/// The mathematical value of a course record.
#[verifier::ext_equal]
pub struct CourseView {
    pub title: Seq<char>,
    pub teacher_address: Address,
    pub modules: Seq<Address>,
    pub timestamp: u64,
}

impl View for Course {
    type V = CourseView;

    open spec fn view(&self) -> CourseView {
        CourseView {
            title: self.title@,
            teacher_address: self.teacher_address,
            modules: self.modules@,
            timestamp: self.timestamp,
        }
    }
}

impl Course {
    /// A fresh course with no related records yet.
    pub fn new(title: String, owner: Address, timestamp: u64) -> (r: Self)
        ensures
            r@ == (CourseView {
                title: title@,
                teacher_address: owner,
                modules: Seq::<Address>::empty(),
                timestamp,
            }),
    {
        let c = Course { title, teacher_address: owner, modules: Vec::new(), timestamp };
        proof {
            assert(c@ =~= CourseView {
                title: c.title@,
                teacher_address: owner,
                modules: Seq::<Address>::empty(),
                timestamp,
            });
        }
        c
    }

    /// A course revision with an explicit list of related records.
    pub fn from(title: String, owner: Address, timestamp: u64, modules: Vec<Address>) -> (r: Self)
        ensures
            r@ == (CourseView { title: title@, teacher_address: owner, modules: modules@, timestamp }),
    {
        Course { title, teacher_address: owner, modules, timestamp }
    }

    /// The record value this course commits to the store.
    pub fn entry(&self) -> (r: Record)
        ensures
            r@ == RecordView::Course(self@),
    {
        Record::Course(self.clone())
    }
}

/// Copies a list of addresses element by element.
fn copy_addresses(v: &Vec<Address>) -> (r: Vec<Address>)
    ensures
        r@ == v@,
{
    let mut r: Vec<Address> = Vec::new();
    let mut i: usize = 0;
    while i < v.len()
        invariant
            i <= v.len(),
            r@ == v@.take(i as int),
        decreases v.len() - i,
    {
        r.push(v[i]);
        i = i + 1;
        proof {
            assert(v@.take(i as int) =~= v@.take(i as int - 1).push(v@[i as int - 1]));
        }
    }
    proof {
        assert(v@.take(v@.len() as int) =~= v@);
    }
    r
}

impl Clone for Course {
    /// A clone carries the same record value.
    fn clone(&self) -> (r: Self)
        ensures
            r@ == self@,
    {
        Course {
            title: self.title.clone(),
            teacher_address: self.teacher_address,
            modules: copy_addresses(&self.modules),
            timestamp: self.timestamp,
        }
    }
}

/// A value the content-addressed store can hold: a course record, or the
/// opaque singleton anchor used only as a link base.
pub enum Record {
    Course(Course),
    Anchor,
}

/// The mathematical value of a stored record.
#[verifier::ext_equal]
pub enum RecordView {
    Course(CourseView),
    Anchor,
}

impl View for Record {
    type V = RecordView;

    open spec fn view(&self) -> RecordView {
        match self {
            Record::Course(c) => RecordView::Course(c@),
            Record::Anchor => RecordView::Anchor,
        }
    }
}

/// The anchor record: an opaque fixed value carrying no business data.
pub fn anchor_entry() -> (r: Record)
    ensures
        r@ == RecordView::Anchor,
{
    Record::Anchor
}

} // verus!
