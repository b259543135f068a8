//! The output collection: declarations keyed by header and name, merged
//! across feature configurations, and the text emitted for each header.

use vstd::prelude::*;
use crate::features::{Features, lemma_merged, merged, overlap};
use crate::text::same_text;

verus! {

/// One declaration as it will be emitted, with the feature tags under which
/// it was observed and where it was observed.
pub struct OutputItem {
    name: String,
    header: String,
    features: Features,
    decl: String,
    annots: Vec<String>,
}

/// The mathematical value of an `OutputItem`.
pub struct Entry {
    pub name: Seq<char>,
    pub header: Seq<char>,
    pub features: Seq<Seq<char>>,
    pub decl: Seq<char>,
    pub annots: Seq<Seq<char>>,
}

impl View for OutputItem {
    type V = Entry;

    closed spec fn view(&self) -> Entry {
        Entry {
            name: self.name@,
            header: self.header@,
            features: self.features@,
            decl: self.decl@,
            annots: self.annots@.map_values(|a: String| a@),
        }
    }
}

impl OutputItem {
    pub fn name(&self) -> (r: &str)
        ensures
            r@ == self@.name,
    {
        self.name.as_str()
    }

    pub fn header(&self) -> (r: &str)
        ensures
            r@ == self@.header,
    {
        self.header.as_str()
    }

    pub fn features(&self) -> (r: &Features)
        ensures
            r@ == self@.features,
    {
        &self.features
    }

    pub fn decl(&self) -> (r: &str)
        ensures
            r@ == self@.decl,
    {
        self.decl.as_str()
    }

    pub fn annotation_count(&self) -> (r: usize)
        ensures
            r == self@.annots.len(),
    {
        self.annots.len()
    }
}

/// Two declarations under one header and name that differ in text and share a
/// feature tag; `existing` is the position of the one already collected.
#[derive(PartialEq, Eq, Structural, Clone, Copy, Debug)]
pub struct ConflictingDeclaration {
    pub existing: usize,
}

/// All collected declarations, in the order in which each was first observed;
/// alternatives of one name stand together.
pub struct OutputItems {
    items: Vec<OutputItem>,
}

pub open spec fn same_key(e: Entry, header: Seq<char>, name: Seq<char>) -> bool {
    e.header == header && e.name == name
}

/// The last position of an entry under `header` and `name`, or -1.
pub open spec fn last_key_pos(es: Seq<Entry>, header: Seq<char>, name: Seq<char>) -> int
    decreases es.len(),
{
    if es.len() == 0 {
        -1
    } else if same_key(es.last(), header, name) {
        es.len() - 1
    } else {
        last_key_pos(es.drop_last(), header, name)
    }
}

/// The last position of an entry under `header` and `name` with the text
/// `decl`, or -1.
pub open spec fn decl_pos(es: Seq<Entry>, header: Seq<char>, name: Seq<char>, decl: Seq<char>) -> int
    decreases es.len(),
{
    if es.len() == 0 {
        -1
    } else if same_key(es.last(), header, name) && es.last().decl == decl {
        es.len() - 1
    } else {
        decl_pos(es.drop_last(), header, name, decl)
    }
}

/// Whether an entry under `header` and `name` has another text and shares a
/// tag with `features`.
pub open spec fn conflicts_at(es: Seq<Entry>, i: int, header: Seq<char>, name: Seq<char>, features: Seq<Seq<char>>, decl: Seq<char>) -> bool {
    0 <= i < es.len() && same_key(es[i], header, name) && es[i].decl != decl && overlap(
        es[i].features,
        features,
    )
}

pub open spec fn has_conflict(es: Seq<Entry>, header: Seq<char>, name: Seq<char>, features: Seq<Seq<char>>, decl: Seq<char>) -> bool {
    exists|i: int| conflicts_at(es, i, header, name, features, decl)
}

/// The collection after adding a declaration: `None` on a conflict; else the
/// same text under the same key takes the union of the tags and one more
/// annotation, and a new text stands after the last one of its key, or at the
/// end.
pub open spec fn added(es: Seq<Entry>, name: Seq<char>, header: Seq<char>, features: Seq<Seq<char>>, decl: Seq<char>, annot: Seq<char>) -> Option<Seq<Entry>> {
    if has_conflict(es, header, name, features, decl) {
        None
    } else if decl_pos(es, header, name, decl) >= 0 {
        let i = decl_pos(es, header, name, decl);
        Some(
            es.update(
                i,
                Entry {
                    features: merged(es[i].features, features),
                    annots: es[i].annots.push(annot),
                    ..es[i]
                },
            ),
        )
    } else {
        let e = Entry { name, header, features, decl, annots: seq![annot] };
        if last_key_pos(es, header, name) >= 0 {
            Some(es.insert(last_key_pos(es, header, name) + 1, e))
        } else {
            Some(es.push(e))
        }
    }
}

proof fn lemma_pos_bounds(es: Seq<Entry>, header: Seq<char>, name: Seq<char>, decl: Seq<char>)
    ensures
        -1 <= last_key_pos(es, header, name) < es.len(),
        last_key_pos(es, header, name) >= 0 ==> same_key(es[last_key_pos(es, header, name)], header, name),
        -1 <= decl_pos(es, header, name, decl) < es.len(),
        decl_pos(es, header, name, decl) >= 0 ==> same_key(es[decl_pos(es, header, name, decl)], header, name)
            && es[decl_pos(es, header, name, decl)].decl == decl,
        decl_pos(es, header, name, decl) < 0 ==> forall|k: int| 0 <= k < es.len() ==> !(same_key(#[trigger] es[k], header, name) && es[k].decl == decl),
        last_key_pos(es, header, name) < 0 ==> forall|k: int| 0 <= k < es.len() ==> !same_key(#[trigger] es[k], header, name),
    decreases es.len(),
{
    if es.len() > 0 {
        lemma_pos_bounds(es.drop_last(), header, name, decl);
        assert forall|k: int| 0 <= k < es.len() - 1 implies #[trigger] es[k] == es.drop_last()[k] by {}
    }
}

/// `feature="t"` for each tag, separated by `, `.
pub open spec fn feature_list(tags: Seq<Seq<char>>) -> Seq<char>
    decreases tags.len(),
{
    if tags.len() == 0 {
        Seq::empty()
    } else if tags.len() == 1 {
        "feature=\""@ + tags[0] + "\""@
    } else {
        feature_list(tags.drop_last()) + ", feature=\""@ + tags.last() + "\""@
    }
}

/// The predicate that gates an item on its tags: none for no tag, one
/// feature for one tag, any of them for several.
pub open spec fn gate(tags: Seq<Seq<char>>) -> Seq<char> {
    if tags.len() == 0 {
        Seq::empty()
    } else if tags.len() == 1 {
        "#[cfg("@ + feature_list(tags) + ")] "@
    } else {
        "#[cfg(any("@ + feature_list(tags) + "))] "@
    }
}

/// The annotations, separated by `, `.
pub open spec fn annots_text(a: Seq<Seq<char>>) -> Seq<char>
    decreases a.len(),
{
    if a.len() == 0 {
        Seq::empty()
    } else if a.len() == 1 {
        a[0]
    } else {
        annots_text(a.drop_last()) + ", "@ + a.last()
    }
}

/// The line emitted for one entry.
pub open spec fn entry_text(e: Entry) -> Seq<char> {
    gate(e.features) + e.decl + " /* "@ + annots_text(e.annots) + " */\n"@
}

/// The text emitted for `header`: the lines of its entries, in order.
pub open spec fn header_text(es: Seq<Entry>, header: Seq<char>) -> Seq<char>
    decreases es.len(),
{
    if es.len() == 0 {
        Seq::empty()
    } else {
        header_text(es.drop_last(), header) + if es.last().header == header {
            entry_text(es.last())
        } else {
            Seq::empty()
        }
    }
}

/// The headers of the entries, each once, in order of first appearance.
pub open spec fn header_list(es: Seq<Entry>) -> Seq<Seq<char>>
    decreases es.len(),
{
    if es.len() == 0 {
        Seq::empty()
    } else {
        let m = header_list(es.drop_last());
        if m.contains(es.last().header) {
            m
        } else {
            m.push(es.last().header)
        }
    }
}

fn push_str(out: &mut String, s: &str)
    ensures
        final(out)@ == old(out)@ + s@,
{
    out.append(s);
}

fn push_gate(out: &mut String, tags: &Features)
    ensures
        final(out)@ == old(out)@ + gate(tags@),
{
    let n = tags.len();
    if n == 0 {
        assert(old(out)@ + gate(tags@) =~= old(out)@);
        return;
    }
    let ghost start = out@;
    if n == 1 {
        push_str(out, "#[cfg(");
    } else {
        push_str(out, "#[cfg(any(");
    }
    let ghost mid = out@;
    let mut i: usize = 0;
    while i < n
        invariant
            n == tags@.len(),
            i <= n,
            out@ == mid + feature_list(tags@.subrange(0, i as int)),
        decreases n - i,
    {
        if i == 0 {
            push_str(out, "feature=\"");
        } else {
            push_str(out, ", feature=\"");
        }
        push_str(out, tags.tag(i));
        push_str(out, "\"");
        let ghost next = tags@.subrange(0, i + 1);
        assert(next.drop_last() =~= tags@.subrange(0, i as int));
        if i == 0 {
            assert(tags@.subrange(0, 0) =~= Seq::<Seq<char>>::empty());
            assert(next.len() == 1);
        }
        assert(out@ =~= mid + feature_list(next));
        i = i + 1;
    }
    assert(tags@.subrange(0, n as int) =~= tags@);
    if n == 1 {
        push_str(out, ")] ");
    } else {
        push_str(out, "))] ");
    }
    assert(out@ =~= start + gate(tags@));
}

fn push_entry(out: &mut String, e: &OutputItem)
    ensures
        final(out)@ == old(out)@ + entry_text(e@),
{
    let ghost start = out@;
    push_gate(out, &e.features);
    push_str(out, e.decl.as_str());
    push_str(out, " /* ");
    let ghost mid = out@;
    let ghost a = e@.annots;
    let mut i: usize = 0;
    while i < e.annots.len()
        invariant
            a == e@.annots,
            a.len() == e.annots@.len(),
            i <= a.len(),
            out@ == mid + annots_text(a.subrange(0, i as int)),
        decreases a.len() - i,
    {
        if i > 0 {
            push_str(out, ", ");
        }
        push_str(out, e.annots[i].as_str());
        let ghost next = a.subrange(0, i + 1);
        assert(next.drop_last() =~= a.subrange(0, i as int));
        assert(next.last() == e.annots@[i as int]@);
        if i == 0 {
            assert(a.subrange(0, 0) =~= Seq::<Seq<char>>::empty());
            assert(next.len() == 1);
        }
        assert(out@ =~= mid + annots_text(next));
        i = i + 1;
    }
    assert(a.subrange(0, i as int) =~= a);
    push_str(out, " */\n");
    assert(out@ =~= start + entry_text(e@));
}

impl View for OutputItems {
    type V = Seq<Entry>;

    closed spec fn view(&self) -> Seq<Entry> {
        self.items@.map_values(|e: OutputItem| e@)
    }
}

/// Alternatives: two texts under one header and name never share a tag, so
/// no configuration enables both.
pub open spec fn alternatives_disjoint(es: Seq<Entry>) -> bool {
    forall|x: Entry, y: Entry|
        #![trigger es.contains(x), es.contains(y)]
        es.contains(x) && es.contains(y) && same_key(x, y.header, y.name) && x.decl != y.decl ==> !overlap(
            x.features,
            y.features,
        )
}

pub open spec fn tags_unique(es: Seq<Entry>) -> bool {
    forall|i: int| 0 <= i < es.len() ==> (#[trigger] es[i]).features.no_duplicates()
}

proof fn lemma_overlap_merged(a: Seq<Seq<char>>, b: Seq<Seq<char>>, x: Seq<Seq<char>>)
    requires
        a.no_duplicates(),
        !overlap(a, x),
        !overlap(b, x),
    ensures
        !overlap(merged(a, b), x),
        !overlap(x, merged(a, b)),
{
    lemma_merged(a, b);
    let m = merged(a, b);
    assert forall|i: int, j: int| 0 <= i < m.len() && 0 <= j < x.len() implies #[trigger] m[i] != #[trigger] x[j] by {
        assert(m.to_set().contains(m[i]));
        if a.to_set().contains(m[i]) {
            let k = choose|k: int| 0 <= k < a.len() && a[k] == m[i];
            assert(a[k] != x[j]);
        } else {
            let k = choose|k: int| 0 <= k < b.len() && b[k] == m[i];
            assert(b[k] != x[j]);
        }
    }
}

proof fn lemma_overlap_symmetric(a: Seq<Seq<char>>, b: Seq<Seq<char>>)
    ensures
        overlap(a, b) == overlap(b, a),
{
    if overlap(a, b) {
        let (i, j) = choose|i: int, j: int| 0 <= i < a.len() && 0 <= j < b.len() && a[i] == b[j];
        assert(b[j] == a[i]);
    }
    if overlap(b, a) {
        let (i, j) = choose|i: int, j: int| 0 <= i < b.len() && 0 <= j < a.len() && b[i] == a[j];
        assert(a[j] == b[i]);
    }
}

/// Every collection that `added` gives keeps alternatives apart and tags
/// free of repeats.
pub proof fn lemma_added_keeps_invariants(
    es: Seq<Entry>,
    name: Seq<char>,
    header: Seq<char>,
    features: Seq<Seq<char>>,
    decl: Seq<char>,
    annot: Seq<char>,
)
    requires
        alternatives_disjoint(es),
        tags_unique(es),
        features.no_duplicates(),
        added(es, name, header, features, decl, annot) is Some,
    ensures
        alternatives_disjoint(added(es, name, header, features, decl, annot).unwrap()),
        tags_unique(added(es, name, header, features, decl, annot).unwrap()),
{
    let m = added(es, name, header, features, decl, annot).unwrap();
    lemma_pos_bounds(es, header, name, decl);
    // An entry under the key with another text shares no tag with `features`.
    assert forall|y: Entry| es.contains(y) && same_key(y, header, name) && y.decl != decl implies !overlap(
        y.features,
        features,
    ) && !overlap(features, y.features) by {
        let k = choose|k: int| 0 <= k < es.len() && es[k] == y;
        assert(!conflicts_at(es, k, header, name, features, decl));
        lemma_overlap_symmetric(y.features, features);
    }
    if decl_pos(es, header, name, decl) >= 0 {
        let p = decl_pos(es, header, name, decl);
        let old_e = es[p];
        let e = Entry { features: merged(old_e.features, features), annots: old_e.annots.push(annot), ..old_e };
        assert(m == es.update(p, e));
        assert(es.contains(old_e));
        lemma_merged(old_e.features, features);
        assert forall|z: Entry| m.contains(z) implies es.contains(z) || z == e by {
            let k = choose|k: int| 0 <= k < m.len() && m[k] == z;
            if k != p {
                assert(es[k] == z);
            }
        }
        assert forall|x: Entry, y: Entry|
            #![trigger m.contains(x), m.contains(y)]
            m.contains(x) && m.contains(y) && same_key(x, y.header, y.name) && x.decl != y.decl implies !overlap(
                x.features,
                y.features,
            ) by {
            if x == e && y != e {
                assert(es.contains(y));
                assert(!overlap(old_e.features, y.features));
                lemma_overlap_merged(old_e.features, features, y.features);
            } else if y == e && x != e {
                assert(es.contains(x));
                lemma_overlap_symmetric(x.features, old_e.features);
                lemma_overlap_merged(old_e.features, features, x.features);
            }
        }
        assert forall|i: int| 0 <= i < m.len() implies (#[trigger] m[i]).features.no_duplicates() by {
            if i != p {
                assert(m[i] == es[i]);
            }
        }
    } else {
        let e = Entry { name, header, features, decl, annots: seq![annot] };
        let q = if last_key_pos(es, header, name) >= 0 { last_key_pos(es, header, name) + 1 } else { es.len() as int };
        assert(m == es.insert(q, e)) by {
            if last_key_pos(es, header, name) < 0 {
                assert(es.push(e) =~= es.insert(es.len() as int, e));
            }
        }
        assert forall|z: Entry| m.contains(z) implies es.contains(z) || z == e by {
            let k = choose|k: int| 0 <= k < m.len() && m[k] == z;
            if k < q {
                assert(es[k] == z);
            } else if k > q {
                assert(es[k - 1] == z);
            }
        }
        assert forall|x: Entry, y: Entry|
            #![trigger m.contains(x), m.contains(y)]
            m.contains(x) && m.contains(y) && same_key(x, y.header, y.name) && x.decl != y.decl implies !overlap(
                x.features,
                y.features,
            ) by {
            if x == e && y != e {
                assert(es.contains(y));
            } else if y == e && x != e {
                assert(es.contains(x));
            }
        }
        assert forall|i: int| 0 <= i < m.len() implies (#[trigger] m[i]).features.no_duplicates() by {
            if i < q {
                assert(m[i] == es[i]);
            } else if i > q {
                assert(m[i] == es[i - 1]);
            }
        }
    }
}

impl OutputItems {
    /// Every entry's tags are free of repeats, and alternatives of one
    /// header and name share no tag.
    pub open spec fn wf(&self) -> bool {
        &&& tags_unique(self@)
        &&& alternatives_disjoint(self@)
    }

    /// An empty collection.
    pub fn new() -> (r: OutputItems)
        ensures
            r@ == Seq::<Entry>::empty(),
            r.wf(),
    {
        let r = OutputItems { items: Vec::new() };
        assert(r@ =~= Seq::<Entry>::empty());
        assert(alternatives_disjoint(r@));
        r
    }

    /// How many entries the collection holds.
    pub fn len(&self) -> (r: usize)
        ensures
            r == self@.len(),
    {
        self.items.len()
    }

    /// The entry at position `i`.
    pub fn item(&self, i: usize) -> (r: &OutputItem)
        requires
            i < self@.len(),
        ensures
            r@ == self@[i as int],
    {
        &self.items[i]
    }

    fn key_is(&self, i: usize, header: &str, name: &str) -> (r: bool)
        requires
            i < self@.len(),
        ensures
            r == same_key(self@[i as int], header@, name@),
    {
        same_text(self.items[i].header.as_str(), header) && same_text(self.items[i].name.as_str(), name)
    }

    /// Looks for a conflict with the declaration, and for the positions that
    /// `added` reads.
    fn scan(&self, header: &str, name: &str, features: &Features, decl: &str) -> (r: Result<
        (Option<usize>, Option<usize>),
        ConflictingDeclaration,
    >)
        ensures
            match r {
                Ok((last, same)) => {
                    &&& !has_conflict(self@, header@, name@, features@, decl@)
                    &&& match last {
                        Some(p) => last_key_pos(self@, header@, name@) == p,
                        None => last_key_pos(self@, header@, name@) == -1,
                    }
                    &&& match same {
                        Some(p) => decl_pos(self@, header@, name@, decl@) == p,
                        None => decl_pos(self@, header@, name@, decl@) == -1,
                    }
                },
                Err(c) => conflicts_at(self@, c.existing as int, header@, name@, features@, decl@),
            },
    {
        let ghost es = self@;
        let mut i: usize = 0;
        let mut last: Option<usize> = None;
        let mut same: Option<usize> = None;
        while i < self.items.len()
            invariant
                es == self@,
                i <= es.len(),
                es.len() == self.items@.len(),
                forall|k: int| 0 <= k < i ==> !conflicts_at(es, k, header@, name@, features@, decl@),
                match last {
                    Some(p) => last_key_pos(es.subrange(0, i as int), header@, name@) == p,
                    None => last_key_pos(es.subrange(0, i as int), header@, name@) == -1,
                },
                match same {
                    Some(p) => decl_pos(es.subrange(0, i as int), header@, name@, decl@) == p,
                    None => decl_pos(es.subrange(0, i as int), header@, name@, decl@) == -1,
                },
            decreases es.len() - i,
        {
            let ghost pre = es.subrange(0, i as int);
            let ghost next = es.subrange(0, i + 1);
            assert(next.drop_last() =~= pre);
            assert(next.last() == es[i as int]);
            if self.key_is(i, header, name) {
                let it = &self.items[i];
                assert(it@ == es[i as int]);
                let same_decl = same_text(it.decl.as_str(), decl);
                if !same_decl && it.features.overlaps(features) {
                    return Err(ConflictingDeclaration { existing: i });
                }
                last = Some(i);
                if same_decl {
                    same = Some(i);
                }
            }
            i = i + 1;
        }
        assert(es.subrange(0, i as int) =~= es);
        Ok((last, same))
    }

    /// Adds a declaration observed under `features`: merged into an equal
    /// declaration under the same header and name, kept as an alternative
    /// where the tags are disjoint from those of every other text, refused
    /// otherwise.
    pub fn add_header_item(
        &mut self,
        name: String,
        header: String,
        features: Features,
        decl: String,
        annot: String,
    ) -> (r: Result<(), ConflictingDeclaration>)
        requires
            old(self).wf(),
            features.wf(),
        ensures
            final(self).wf(),
            match r {
                Ok(()) => added(old(self)@, name@, header@, features@, decl@, annot@) == Some(final(self)@),
                Err(c) => added(old(self)@, name@, header@, features@, decl@, annot@).is_none()
                    && final(self)@ == old(self)@
                    && conflicts_at(old(self)@, c.existing as int, header@, name@, features@, decl@),
            },
    {
        let ghost es = self@;
        proof {
            lemma_pos_bounds(es, header@, name@, decl@);
        }
        let (last, same) = match self.scan(header.as_str(), name.as_str(), &features, decl.as_str()) {
            Ok(found) => found,
            Err(c) => {
                return Err(c);
            },
        };
        match same {
            Some(p) => {
                let mut e = self.items.remove(p);
                proof {
                    assert(e@ == es[p as int]);
                    lemma_merged(e.features@, features@);
                }
                e.features.union_with(&features);
                e.annots.push(annot);
                let ghost ev = e@;
                self.items.insert(p, e);
                assert(ev.annots =~= es[p as int].annots.push(annot@));
                assert(self@ =~= es.update(p as int, ev));
            },
            None => {
                let mut annots = Vec::new();
                annots.push(annot);
                let e = OutputItem { name, header, features, decl, annots };
                assert(e@.annots =~= seq![annot@]);
                let ghost ev = e@;
                match last {
                    Some(p) => {
                        let n = self.items.len();
                        assert(p < n);
                        self.items.insert(p + 1, e);
                        assert(self@ =~= es.insert(p + 1, ev));
                    },
                    None => {
                        self.items.push(e);
                        assert(self@ =~= es.push(ev));
                    },
                }
            },
        }
        proof {
            lemma_added_keeps_invariants(es, name@, header@, features@, decl@, annot@);
        }
        Ok(())
    }

    /// The text of the output file for `header`.
    pub fn emit(&self, header: &str) -> (r: String)
        ensures
            r@ == header_text(self@, header@),
    {
        let ghost es = self@;
        let mut out = String::new();
        let mut i: usize = 0;
        while i < self.items.len()
            invariant
                es == self@,
                es.len() == self.items@.len(),
                i <= es.len(),
                out@ == header_text(es.subrange(0, i as int), header@),
            decreases es.len() - i,
        {
            let ghost next = es.subrange(0, i + 1);
            assert(next.drop_last() =~= es.subrange(0, i as int));
            assert(next.last() == self.items@[i as int]@);
            if same_text(self.items[i].header.as_str(), header) {
                push_entry(&mut out, &self.items[i]);
            }
            assert(out@ =~= header_text(next, header@));
            i = i + 1;
        }
        assert(es.subrange(0, i as int) =~= es);
        out
    }

    /// The headers that have entries, each once, in order of first
    /// observation.
    pub fn headers(&self) -> (r: Vec<String>)
        ensures
            r@.map_values(|h: String| h@) == header_list(self@),
    {
        let ghost es = self@;
        let mut out: Vec<String> = Vec::new();
        let mut i: usize = 0;
        while i < self.items.len()
            invariant
                es == self@,
                es.len() == self.items@.len(),
                i <= es.len(),
                out@.map_values(|h: String| h@) == header_list(es.subrange(0, i as int)),
            decreases es.len() - i,
        {
            let ghost next = es.subrange(0, i + 1);
            assert(next.drop_last() =~= es.subrange(0, i as int));
            assert(next.last() == self.items@[i as int]@);
            let h = self.items[i].header.as_str();
            let mut seen = false;
            let mut j: usize = 0;
            while j < out.len()
                invariant
                    j <= out@.len(),
                    seen == exists|k: int| 0 <= k < j && (#[trigger] out@[k])@ == h@,
                decreases out@.len() - j,
            {
                if same_text(out[j].as_str(), h) {
                    seen = true;
                }
                j = j + 1;
            }
            let ghost m = out@.map_values(|x: String| x@);
            assert(seen == m.contains(h@)) by {
                if seen {
                    let k = choose|k: int| 0 <= k < j && (#[trigger] out@[k])@ == h@;
                    assert(m[k] == h@);
                }
                if m.contains(h@) {
                    let k = choose|k: int| 0 <= k < m.len() && m[k] == h@;
                    assert(out@[k]@ == h@);
                }
            }
            if !seen {
                out.push(String::from_str(h));
                assert(out@.map_values(|x: String| x@) =~= m.push(h@));
            }
            i = i + 1;
        }
        assert(es.subrange(0, i as int) =~= es);
        out
    }
}

pub proof fn lemma_first_add(es: Seq<Entry>, name: Seq<char>, header: Seq<char>, features: Seq<Seq<char>>, decl: Seq<char>, annot: Seq<char>)
    requires
        last_key_pos(es, header, name) < 0,
    ensures
        added(es, name, header, features, decl, annot) == Some(
            es.push(Entry { name, header, features, decl, annots: seq![annot] }),
        ),
{
    lemma_pos_bounds(es, header, name, decl);
    assert(!has_conflict(es, header, name, features, decl));
}

proof fn lemma_second_add(es: Seq<Entry>, name: Seq<char>, header: Seq<char>, f1: Seq<Seq<char>>, f2: Seq<Seq<char>>, decl: Seq<char>, a1: Seq<char>, a2: Seq<char>)
    requires
        last_key_pos(es, header, name) < 0,
    ensures
        ({
            let m1 = es.push(Entry { name, header, features: f1, decl, annots: seq![a1] });
            added(m1, name, header, f2, decl, a2) == Some(
                es.push(Entry { name, header, features: merged(f1, f2), decl, annots: seq![a1, a2] }),
            )
        }),
{
    let m1 = es.push(Entry { name, header, features: f1, decl, annots: seq![a1] });
    lemma_pos_bounds(es, header, name, decl);
    assert forall|i: int| !conflicts_at(m1, i, header, name, f2, decl) by {
        if 0 <= i < es.len() {
            assert(m1[i] == es[i]);
        }
    }
    assert(decl_pos(m1, header, name, decl) == es.len());
    assert(seq![a1].push(a2) =~= seq![a1, a2]);
    assert(m1.update(es.len() as int, Entry { name, header, features: merged(f1, f2), decl, annots: seq![a1, a2] }) =~= es.push(Entry { name, header, features: merged(f1, f2), decl, annots: seq![a1, a2] }));
}

/// Submitting the same declaration twice, under the same header, name and
/// tags, gives one entry, whose set of tags is the one given.
pub proof fn lemma_add_twice(
    es: Seq<Entry>,
    name: Seq<char>,
    header: Seq<char>,
    features: Seq<Seq<char>>,
    decl: Seq<char>,
    a1: Seq<char>,
    a2: Seq<char>,
)
    requires
        features.no_duplicates(),
        last_key_pos(es, header, name) < 0,
    ensures
        added(es, name, header, features, decl, a1) is Some,
        ({
            let m1 = added(es, name, header, features, decl, a1).unwrap();
            let m2 = added(m1, name, header, features, decl, a2);
            &&& m2 is Some
            &&& m2.unwrap().len() == es.len() + 1
            &&& m2.unwrap().subrange(0, es.len() as int) == es
            &&& m2.unwrap().last().name == name
            &&& m2.unwrap().last().header == header
            &&& m2.unwrap().last().decl == decl
            &&& m2.unwrap().last().features.to_set() == features.to_set()
        }),
{
    lemma_first_add(es, name, header, features, decl, a1);
    lemma_second_add(es, name, header, features, features, decl, a1, a2);
    lemma_merged(features, features);
    let m2 = es.push(Entry { name, header, features: merged(features, features), decl, annots: seq![a1, a2] });
    assert(m2.subrange(0, es.len() as int) =~= es);
    assert(features.to_set() + features.to_set() =~= features.to_set());
}

/// A declaration observed under tag `a` and then, unchanged, under another
/// tag `b` is one entry gated on both, `a` first.
pub proof fn lemma_merge_configurations(
    es: Seq<Entry>,
    name: Seq<char>,
    header: Seq<char>,
    decl: Seq<char>,
    a: Seq<char>,
    b: Seq<char>,
    a1: Seq<char>,
    a2: Seq<char>,
)
    requires
        a != b,
        last_key_pos(es, header, name) < 0,
    ensures
        added(es, name, header, seq![a], decl, a1) is Some,
        ({
            let m1 = added(es, name, header, seq![a], decl, a1).unwrap();
            let m2 = added(m1, name, header, seq![b], decl, a2);
            &&& m2 is Some
            &&& m2.unwrap().len() == es.len() + 1
            &&& m2.unwrap().last().decl == decl
            &&& m2.unwrap().last().features == seq![a, b]
        }),
{
    lemma_first_add(es, name, header, seq![a], decl, a1);
    lemma_second_add(es, name, header, seq![a], seq![b], decl, a1, a2);
    assert(seq![b].drop_last() =~= Seq::<Seq<char>>::empty());
    assert(!seq![a].contains(b)) by {
        if seq![a].contains(b) {
            let k = choose|k: int| 0 <= k < 1 && seq![a][k] == b;
            assert(k == 0);
        }
    }
    assert(merged(seq![a], Seq::<Seq<char>>::empty()) == seq![a]);
    assert(seq![b].last() == b);
    assert(merged(seq![a], seq![b]) == seq![a].push(b));
    assert(seq![a].push(b) =~= seq![a, b]);
}

/// An entry observed under one tag only is gated on that tag alone; one
/// observed under two is gated on either.
pub proof fn lemma_gates(a: Seq<char>, b: Seq<char>)
    ensures
        gate(seq![a]) == "#[cfg("@ + "feature=\""@ + a + "\""@ + ")] "@,
        gate(seq![a, b]) == "#[cfg(any("@ + "feature=\""@ + a + "\""@ + ", feature=\""@ + b + "\""@
            + "))] "@,
{
    let two = seq![a, b];
    assert(two.drop_last() =~= seq![a]);
    assert(feature_list(seq![a]) == "feature=\""@ + a + "\""@);
    assert(feature_list(two) == feature_list(seq![a]) + ", feature=\""@ + b + "\""@);
}

} // verus!
