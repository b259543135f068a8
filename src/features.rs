//! Feature tags: the configurations under which a declaration was observed.

use vstd::prelude::*;

verus! {

/// A set of feature tags, kept in the order in which they were first added.
pub struct Features {
    tags: Vec<String>,
}

/// The tags of `a`, then those of `b` that `a` lacks, in order.
pub open spec fn merged(a: Seq<Seq<char>>, b: Seq<Seq<char>>) -> Seq<Seq<char>>
    decreases b.len(),
{
    if b.len() == 0 {
        a
    } else {
        let m = merged(a, b.drop_last());
        if m.contains(b.last()) {
            m
        } else {
            m.push(b.last())
        }
    }
}

/// Whether two tag lists share a tag.
pub open spec fn overlap(a: Seq<Seq<char>>, b: Seq<Seq<char>>) -> bool {
    exists|i: int, j: int| 0 <= i < a.len() && 0 <= j < b.len() && #[trigger] a[i] == #[trigger] b[j]
}

pub proof fn lemma_merged(a: Seq<Seq<char>>, b: Seq<Seq<char>>)
    requires
        a.no_duplicates(),
    ensures
        merged(a, b).no_duplicates(),
        merged(a, b).to_set() == a.to_set() + b.to_set(),
        a.len() <= merged(a, b).len(),
        merged(a, b).subrange(0, a.len() as int) == a,
    decreases b.len(),
{
    if b.len() > 0 {
        lemma_merged(a, b.drop_last());
        let m = merged(a, b.drop_last());
        assert(b.to_set() =~= b.drop_last().to_set().insert(b.last())) by {
            assert forall|x| b.to_set().contains(x) implies b.drop_last().to_set().insert(
                b.last(),
            ).contains(x) by {
                let k = choose|k: int| 0 <= k < b.len() && b[k] == x;
                if k < b.len() - 1 {
                    assert(b.drop_last()[k] == x);
                }
            }
            assert forall|x| b.drop_last().to_set().insert(b.last()).contains(x) implies b.to_set().contains(x) by {
                if x != b.last() {
                    let k = choose|k: int| 0 <= k < b.drop_last().len() && b.drop_last()[k] == x;
                    assert(b[k] == x);
                }
            }
        }
        if !m.contains(b.last()) {
            assert(m.push(b.last()).to_set() =~= m.to_set().insert(b.last())) by {
                m.lemma_push_to_set_commute(b.last());
            }
            assert(m.push(b.last()).subrange(0, a.len() as int) =~= m.subrange(0, a.len() as int));
        } else {
            assert(m.to_set().contains(b.last()));
        }
        assert(merged(a, b).to_set() =~= a.to_set() + b.to_set());
    }
}

impl View for Features {
    type V = Seq<Seq<char>>;

    closed spec fn view(&self) -> Seq<Seq<char>> {
        self.tags@.map_values(|t: String| t@)
    }
}

impl Features {
    /// No tag appears twice.
    pub open spec fn wf(&self) -> bool {
        self@.no_duplicates()
    }

    /// The empty set of tags.
    pub fn new() -> (r: Features)
        ensures
            r@ == Seq::<Seq<char>>::empty(),
            r.wf(),
    {
        let r = Features { tags: Vec::new() };
        assert(r@ =~= Seq::<Seq<char>>::empty());
        r
    }

    /// The set holding `tag` alone.
    pub fn from_tag(tag: String) -> (r: Features)
        ensures
            r@ == seq![tag@],
            r.wf(),
    {
        let mut tags = Vec::new();
        tags.push(tag);
        let r = Features { tags };
        assert(r@ =~= seq![tag@]);
        r
    }

    /// How many tags the set holds.
    pub fn len(&self) -> (r: usize)
        ensures
            r == self@.len(),
    {
        self.tags.len()
    }

    /// The tag at position `i`, in the order of first addition.
    pub fn tag(&self, i: usize) -> (r: &str)
        requires
            i < self@.len(),
        ensures
            r@ == self@[i as int],
    {
        self.tags[i].as_str()
    }

    /// Whether `tag` is in the set.
    pub fn contains(&self, tag: &str) -> (r: bool)
        ensures
            r == self@.contains(tag@),
    {
        let mut i: usize = 0;
        while i < self.tags.len()
            invariant
                i <= self@.len(),
                self@.len() == self.tags@.len(),
                forall|k: int| 0 <= k < i ==> self@[k] != tag@,
            decreases self.tags@.len() - i,
        {
            assert(self@[i as int] == self.tags@[i as int]@);
            if crate::text::same_text(self.tags[i].as_str(), tag) {
                assert(self@[i as int] == tag@);
                return true;
            }
            i = i + 1;
        }
        false
    }

    /// Whether the two sets share a tag.
    pub fn overlaps(&self, other: &Features) -> (r: bool)
        ensures
            r == overlap(self@, other@),
    {
        let mut j: usize = 0;
        while j < other.len()
            invariant
                j <= other@.len(),
                forall|jj: int| 0 <= jj < j ==> !self@.contains(#[trigger] other@[jj]),
            decreases other@.len() - j,
        {
            if self.contains(other.tag(j)) {
                let ghost i = choose|i: int| 0 <= i < self@.len() && self@[i] == other@[j as int];
                assert(self@[i] == other@[j as int]);
                return true;
            }
            j = j + 1;
        }
        assert forall|i: int, jj: int| 0 <= i < self@.len() && 0 <= jj < other@.len() implies #[trigger] self@[i]
            != #[trigger] other@[jj] by {
            assert(!self@.contains(other@[jj]));
        }
        false
    }

    /// Adds the tags of `other` that the set lacks, in their order.
    pub fn union_with(&mut self, other: &Features)
        requires
            old(self).wf(),
        ensures
            final(self)@ == merged(old(self)@, other@),
            final(self).wf(),
    {
        let ghost start = self@;
        let mut j: usize = 0;
        while j < other.len()
            invariant
                j <= other@.len(),
                self@ == merged(start, other@.subrange(0, j as int)),
                start.no_duplicates(),
            decreases other@.len() - j,
        {
            let ghost pre = other@.subrange(0, j as int);
            let ghost next = other@.subrange(0, j + 1);
            assert(next.drop_last() =~= pre);
            if !self.contains(other.tag(j)) {
                let t = String::from_str(other.tag(j));
                self.tags.push(t);
                assert(self@ =~= merged(start, pre).push(other@[j as int]));
            }
            j = j + 1;
        }
        assert(other@.subrange(0, j as int) =~= other@);
        proof {
            lemma_merged(start, other@);
        }
    }

    /// A copy of the set.
    pub fn duplicate(&self) -> (r: Features)
        ensures
            r@ == self@,
    {
        let mut tags: Vec<String> = Vec::new();
        let mut i: usize = 0;
        while i < self.tags.len()
            invariant
                i <= self.tags@.len(),
                tags@.len() == i,
                forall|k: int| 0 <= k < i ==> #[trigger] tags@[k]@ == self.tags@[k]@,
            decreases self.tags@.len() - i,
        {
            tags.push(self.tags[i].clone());
            i = i + 1;
        }
        let r = Features { tags };
        assert(r@ =~= self@);
        r
    }
}

} // verus!
