//! The link index: directed, typed edges between content-addressed values.
//! Edges are kept in insertion order, duplicates are allowed (adding the same
//! triple twice yields two distinct link records), and queries filter by base
//! address, link type and tag, each filter either exact or "match any".

use vstd::prelude::*;

use crate::Address;

verus! {

/// The closed set of relationship kinds between addresses.
#[derive(Clone, Copy, Debug, PartialEq, Eq, Structural)]
pub enum LinkType {
    /// identity -> course: the teacher owns the course.
    TeacherOwnsCourse,
    /// identity -> course: the student enrolled in the course.
    StudentEnrolledInCourse,
    /// course -> identity: the course lists the student.
    CourseHasStudent,
    /// anchor -> course: the course is globally enumerable.
    AnchorListsCourse,
}

/// A link-type filter for queries: exact match, or match any.
#[derive(Clone, Copy, Debug, PartialEq, Eq, Structural)]
pub enum TypeFilter {
    Exactly(LinkType),
    Any,
}

/// A tag filter for queries: exact match, or match any.
pub enum TagFilter {
    Exactly(String),
    Any,
}

/// A replicated edge. The address is the link record's own content address;
/// the annotation tag is free-form and unused by the current rules.
pub struct Link {
    pub address: Address,
    pub base: Address,
    pub target: Address,
    pub link_type: LinkType,
    pub tag: String,
}

/// The mathematical value of an edge.
#[verifier::ext_equal]
pub struct LinkView {
    pub address: Address,
    pub base: Address,
    pub target: Address,
    pub link_type: LinkType,
    pub tag: Seq<char>,
}

impl View for Link {
    type V = LinkView;

    open spec fn view(&self) -> LinkView {
        LinkView {
            address: self.address,
            base: self.base,
            target: self.target,
            link_type: self.link_type,
            tag: self.tag@,
        }
    }
}

/// Whether a link answers a query for edges from `base` under both filters.
pub open spec fn link_matches(l: LinkView, base: Address, tf: TypeFilter, gf: TagFilter) -> bool {
    &&& l.base == base
    &&& match tf {
        TypeFilter::Exactly(t) => l.link_type == t,
        TypeFilter::Any => true,
    }
    &&& match gf {
        TagFilter::Exactly(t) => l.tag == t@,
        TagFilter::Any => true,
    }
}

/// The targets of all links from `base` that pass both filters, in insertion
/// order.
pub open spec fn links_matching(s: Seq<LinkView>, base: Address, tf: TypeFilter, gf: TagFilter) -> Seq<
    Address,
>
    decreases s.len(),
{
    if s.len() == 0 {
        Seq::empty()
    } else {
        let rest = links_matching(s.drop_last(), base, tf, gf);
        if link_matches(s.last(), base, tf, gf) {
            rest.push(s.last().target)
        } else {
            rest
        }
    }
}

/// Whether a link is the one a removal names: base, target, type and tag all
/// exact.
pub open spec fn removal_names(l: LinkView, base: Address, target: Address, lt: LinkType, tag: Seq<char>) -> bool {
    l.base == base && l.target == target && l.link_type == lt && l.tag == tag
}

/// The position of the first link a removal names, if any.
pub open spec fn first_named(s: Seq<LinkView>, base: Address, target: Address, lt: LinkType, tag: Seq<char>) -> Option<
    int,
>
    decreases s.len(),
{
    if s.len() == 0 {
        None
    } else if removal_names(s[0], base, target, lt, tag) {
        Some(0)
    } else {
        match first_named(s.skip(1), base, target, lt, tag) {
            Option::None => None,
            Option::Some(i) => Some(i + 1),
        }
    }
}

/// The edge set after every link touching `a` (as base or as target) is gone.
pub open spec fn purge_links(s: Seq<LinkView>, a: Address) -> Seq<LinkView>
    decreases s.len(),
{
    if s.len() == 0 {
        Seq::empty()
    } else {
        let rest = purge_links(s.drop_last(), a);
        if s.last().base == a || s.last().target == a {
            rest
        } else {
            rest.push(s.last())
        }
    }
}

/// A first named position is a position of `s`, and the link there is the
/// named one.
pub proof fn lemma_first_named_valid(s: Seq<LinkView>, base: Address, target: Address, lt: LinkType, tag: Seq<char>)
    requires
        first_named(s, base, target, lt, tag) is Some,
    ensures
        ({
            let i = first_named(s, base, target, lt, tag)->Some_0;
            &&& 0 <= i < s.len()
            &&& removal_names(s[i], base, target, lt, tag)
        }),
    decreases s.len(),
{
    if s.len() == 0 {
    } else if removal_names(s[0], base, target, lt, tag) {
    } else {
        lemma_first_named_valid(s.skip(1), base, target, lt, tag);
        let j = first_named(s.skip(1), base, target, lt, tag)->Some_0;
        assert(s.skip(1)[j] == s[j + 1]);
    }
}

/// If a prefix of `s` holds no named link and position `i` does, then `i` is
/// the first named position in all of `s`.
proof fn lemma_first_named_at(s: Seq<LinkView>, base: Address, target: Address, lt: LinkType, tag: Seq<char>, i: int)
    requires
        0 <= i < s.len(),
        removal_names(s[i], base, target, lt, tag),
        forall|j: int| 0 <= j < i ==> !removal_names(s[j], base, target, lt, tag),
    ensures
        first_named(s, base, target, lt, tag) == Some(i),
    decreases i,
{
    if i == 0 {
    } else {
        assert(!removal_names(s[0], base, target, lt, tag));
        lemma_first_named_at(s.skip(1), base, target, lt, tag, i - 1);
    }
}

/// If no link in `s` is the named one, no position is first.
proof fn lemma_first_named_none(s: Seq<LinkView>, base: Address, target: Address, lt: LinkType, tag: Seq<char>)
    requires
        forall|j: int| 0 <= j < s.len() ==> !removal_names(s[j], base, target, lt, tag),
    ensures
        first_named(s, base, target, lt, tag) is None,
    decreases s.len(),
{
    if s.len() == 0 {
    } else {
        lemma_first_named_none(s.skip(1), base, target, lt, tag);
    }
}

/// The typed, directed edge index of one peer. Insertion order is the order
/// this peer observed; no uniqueness of triples is enforced.
pub struct LinkIndex {
    links: Vec<Link>,
}

impl View for LinkIndex {
    type V = Seq<LinkView>;

    closed spec fn view(&self) -> Seq<LinkView> {
        self.links@.map_values(|l: Link| l@)
    }
}

impl LinkIndex {
    /// An index with no edges.
    pub fn new() -> (r: Self)
        ensures
            r@ == Seq::<LinkView>::empty(),
    {
        let r = LinkIndex { links: Vec::new() };
        proof {
            assert(r@ =~= Seq::<LinkView>::empty());
        }
        r
    }

    /// Records one more edge. Duplicates of an existing triple are kept:
    /// adding twice yields two link records.
    pub fn add_link(&mut self, l: Link) -> (r: Address)
        ensures
            final(self)@ == old(self)@.push(l@),
            r == l@.address,
    {
        let ghost lv = l@;
        let addr = l.address;
        self.links.push(l);
        proof {
            assert(self@ =~= old(self)@.push(lv));
        }
        addr
    }

    /// All targets of edges from `base` passing both filters, in insertion
    /// order.
    pub fn get_links(&self, base: Address, tf: &TypeFilter, gf: &TagFilter) -> (r: Vec<Address>)
        ensures
            r@ == links_matching(self@, base, *tf, *gf),
    {
        let mut r: Vec<Address> = Vec::new();
        let n = self.links.len();
        let mut i: usize = 0;
        while i < n
            invariant
                i <= n,
                n == self.links.len(),
                r@ == links_matching(self@.take(i as int), base, *tf, *gf),
            decreases n - i,
        {
            let l = &self.links[i];
            let base_hit = l.base == base;
            let type_hit = match tf {
                TypeFilter::Exactly(t) => l.link_type == *t,
                TypeFilter::Any => true,
            };
            let tag_hit = match gf {
                TagFilter::Exactly(t) => l.tag == *t,
                TagFilter::Any => true,
            };
            if base_hit && type_hit && tag_hit {
                r.push(l.target);
            }
            proof {
                assert(self@.take(i + 1).drop_last() =~= self@.take(i as int));
                assert(self@.take(i + 1).last() == self@[i as int]);
            }
            i = i + 1;
        }
        proof {
            assert(self@.take(n as int) =~= self@);
        }
        r
    }

    /// Removes the first edge that matches base, target, type and tag all
    /// exactly; reports `NotFound` and leaves the index unchanged when no
    /// edge matches.
    pub fn remove_link(&mut self, base: Address, target: Address, lt: LinkType, tag: &String) -> (r: Result<
        (),
        crate::errors::StoreError,
    >)
        ensures
            match first_named(old(self)@, base, target, lt, tag@) {
                Option::Some(i) => r is Ok && final(self)@ == old(self)@.remove(i),
                Option::None => r == Err::<(), crate::errors::StoreError>(
                    crate::errors::StoreError::NotFound,
                ) && final(self)@ == old(self)@,
            },
    {
        let n = self.links.len();
        let mut i: usize = 0;
        while i < n
            invariant
                i <= n,
                n == self.links.len(),
                *self == *old(self),
                forall|j: int| 0 <= j < i ==> !removal_names(self@[j], base, target, lt, tag@),
            decreases n - i,
        {
            let l = &self.links[i];
            if l.base == base && l.target == target && l.link_type == lt && l.tag == *tag {
                proof {
                    lemma_first_named_at(self@, base, target, lt, tag@, i as int);
                }
                self.links.remove(i);
                proof {
                    assert(self@ =~= old(self)@.remove(i as int));
                }
                return Ok(());
            }
            i = i + 1;
        }
        proof {
            lemma_first_named_none(self@, base, target, lt, tag@);
        }
        Err(crate::errors::StoreError::NotFound)
    }

    /// Drops every edge that has `a` as base or as target: the cascade that
    /// accompanies a tombstone.
    pub fn purge(&mut self, a: Address)
        ensures
            final(self)@ == purge_links(old(self)@, a),
    {
        let mut kept: Vec<Link> = Vec::new();
        let n = self.links.len();
        let mut i: usize = 0;
        while i < n
            invariant
                i <= n,
                n == self.links.len(),
                *self == *old(self),
                kept@.map_values(|l: Link| l@) == purge_links(self@.take(i as int), a),
            decreases n - i,
        {
            let l = &self.links[i];
            if !(l.base == a || l.target == a) {
                let copy = Link {
                    address: l.address,
                    base: l.base,
                    target: l.target,
                    link_type: l.link_type,
                    tag: l.tag.clone(),
                };
                kept.push(copy);
            }
            proof {
                assert(self@.take(i + 1).drop_last() =~= self@.take(i as int));
                assert(self@.take(i + 1).last() == self@[i as int]);
                assert(kept@.map_values(|l: Link| l@) =~= purge_links(self@.take(i + 1), a));
            }
            i = i + 1;
        }
        proof {
            assert(self@.take(n as int) =~= self@);
        }
        self.links = kept;
    }
}

} // verus!
