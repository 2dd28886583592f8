//! The spatial index: a bounding-volume hierarchy over the boxes of entities.
//!
//! A tree is built once from a list of entries and is never changed
//! afterwards. A query walks only the parts of the tree whose boxes the
//! queried box meets.

use evenio::entity::EntityId;
use vstd::prelude::*;
use vstd::seq_lib::{lemma_multiset_commutative, to_multiset_build, to_multiset_contains};

use crate::aabb::{Aabb, Vec3, lemma_miss_outer_miss_inner};

verus! {

/// `EntityId` of evenio: the identifier of an entity in a world. Nothing is
/// claimed of it. It is taken from the caller and handed back with what a
/// query finds, and never looked into.
#[verifier::external_type_specification]
#[verifier::external_body]
pub struct ExEntityId(EntityId);

/// At most this many entries are kept in a leaf.
pub const LEAF_SIZE: usize = 8;

/// An entity and the box it fills.
#[derive(Clone, Copy, Debug)]
pub struct LookupData {
    /// The entity.
    pub id: EntityId,
    /// The box that the entity fills.
    pub aabb: Aabb,
}

/// One of the three axes.
#[derive(Clone, Copy, Debug, PartialEq, Eq, Structural)]
enum Axis {
    X,
    Y,
    Z,
}

/// The coordinate by which entries are ordered along `axis`: where the box
/// begins.
spec fn key_along(entry: LookupData, axis: Axis) -> i64 {
    match axis {
        Axis::X => entry.aabb.min.x,
        Axis::Y => entry.aabb.min.y,
        Axis::Z => entry.aabb.min.z,
    }
}

/// Whether the entries stand in ascending order along `axis`.
spec fn sorted_along(entries: Seq<LookupData>, axis: Axis) -> bool {
    forall|i: int, j: int|
        0 <= i <= j < entries.len() ==> key_along(entries[i], axis) <= key_along(
            entries[j],
            axis,
        )
}

/// The test that a query for `query` applies to each entry.
pub open spec fn hits(query: Aabb) -> spec_fn(LookupData) -> bool {
    |entry: LookupData| entry.aabb.intersects(query)
}

/// The coordinate by which entries are ordered along `axis`.
fn key_of(entry: &LookupData, axis: Axis) -> (key: i64)
    ensures
        key == key_along(*entry, axis),
{
    match axis {
        Axis::X => entry.aabb.min.x,
        Axis::Y => entry.aabb.min.y,
        Axis::Z => entry.aabb.min.z,
    }
}

/// Merges two sorted runs into one: each entry of either, as often as the
/// two hold it, in ascending order along `axis`. Of entries with the same
/// key those of `left` come first.
fn merge_along(left: &Vec<LookupData>, right: &Vec<LookupData>, axis: Axis) -> (merged: Vec<
    LookupData,
>)
    requires
        sorted_along(left@, axis),
        sorted_along(right@, axis),
        left@.len() + right@.len() <= usize::MAX,
    ensures
        merged@.to_multiset() == left@.to_multiset().add(right@.to_multiset()),
        sorted_along(merged@, axis),
{
    broadcast use vstd::multiset::group_multiset_axioms;

    let mut merged: Vec<LookupData> = Vec::new();
    let mut i: usize = 0;
    let mut j: usize = 0;
    proof {
        left@.take(0).to_multiset_ensures();
        right@.take(0).to_multiset_ensures();
        merged@.to_multiset_ensures();
        assert(merged@.to_multiset() =~= left@.take(0).to_multiset().add(
            right@.take(0).to_multiset(),
        ));
    }
    while i < left.len() || j < right.len()
        invariant
            0 <= i <= left@.len(),
            0 <= j <= right@.len(),
            sorted_along(left@, axis),
            sorted_along(right@, axis),
            sorted_along(merged@, axis),
            merged@.to_multiset() == left@.take(i as int).to_multiset().add(
                right@.take(j as int).to_multiset(),
            ),
            forall|k: int|
                0 <= k < merged@.len() && i < left@.len() ==> key_along(#[trigger] merged@[k], axis)
                    <= key_along(left@[i as int], axis),
            forall|k: int|
                0 <= k < merged@.len() && j < right@.len() ==> key_along(
                    #[trigger] merged@[k],
                    axis,
                ) <= key_along(right@[j as int], axis),
        decreases left@.len() - i + right@.len() - j,
    {
        let ghost before = merged@;
        let from_left = j >= right.len() || (i < left.len() && key_of(&left[i], axis) <= key_of(
            &right[j],
            axis,
        ));
        if from_left {
            proof {
                assert(left@.take(i + 1) == left@.take(i as int).push(left@[i as int]));
                to_multiset_build(left@.take(i as int), left@[i as int]);
                to_multiset_build(before, left@[i as int]);
                assert(before.push(left@[i as int]).to_multiset() =~= left@.take(
                    i + 1,
                ).to_multiset().add(right@.take(j as int).to_multiset()));
            }
            merged.push(left[i]);
            i = i + 1;
        } else {
            proof {
                assert(right@.take(j + 1) == right@.take(j as int).push(right@[j as int]));
                to_multiset_build(right@.take(j as int), right@[j as int]);
                to_multiset_build(before, right@[j as int]);
                assert(before.push(right@[j as int]).to_multiset() =~= left@.take(
                    i as int,
                ).to_multiset().add(right@.take(j + 1).to_multiset()));
            }
            merged.push(right[j]);
            j = j + 1;
        }
    }
    proof {
        assert(left@.take(left@.len() as int) == left@);
        assert(right@.take(right@.len() as int) == right@);
    }
    merged
}

/// Sorts by merging: the result holds the entries that were given, each as
/// often as before, in ascending order along `axis`.
fn sort_along(entries: Vec<LookupData>, axis: Axis) -> (sorted: Vec<LookupData>)
    ensures
        sorted@.to_multiset() == entries@.to_multiset(),
        sorted_along(sorted@, axis),
    decreases entries@.len(),
{
    if entries.len() <= 1 {
        return entries;
    }
    let ghost all = entries@;
    let mut left = entries;
    let mid = left.len() / 2;
    let right = left.split_off(mid);
    proof {
        assert(all == left@ + right@);
        lemma_multiset_commutative(left@, right@);
    }
    let left = sort_along(left, axis);
    let right = sort_along(right, axis);
    proof {
        left@.to_multiset_ensures();
        right@.to_multiset_ensures();
        all.to_multiset_ensures();
    }
    merge_along(&left, &right, axis)
}

/// The axis along which `aabb` is longest; the earlier axis wins a tie.
fn longest_axis(aabb: &Aabb) -> (axis: Axis)
    ensures
        axis == Axis::X ==> aabb.width() >= aabb.height() && aabb.width() >= aabb.max.z
            - aabb.min.z,
        axis == Axis::Y ==> aabb.height() > aabb.width() && aabb.height() >= aabb.max.z
            - aabb.min.z,
        axis == Axis::Z ==> aabb.max.z - aabb.min.z > aabb.width() && aabb.max.z - aabb.min.z
            > aabb.height(),
{
    let dx: i128 = aabb.max.x as i128 - aabb.min.x as i128;
    let dy: i128 = aabb.max.y as i128 - aabb.min.y as i128;
    let dz: i128 = aabb.max.z as i128 - aabb.min.z as i128;
    if dx >= dy && dx >= dz {
        Axis::X
    } else if dy >= dz {
        Axis::Y
    } else {
        Axis::Z
    }
}

/// The smallest box that holds the boxes of the first `n` entries; a box of
/// one point at the origin where `n` is zero.
spec fn hull_of(entries: Seq<LookupData>, n: int) -> Aabb
    decreases n,
{
    if n <= 0 {
        Aabb { min: Vec3 { x: 0, y: 0, z: 0 }, max: Vec3 { x: 0, y: 0, z: 0 } }
    } else if n == 1 {
        entries[0].aabb
    } else {
        hull_of(entries, n - 1).hull(entries[n - 1].aabb)
    }
}

/// The hull of the first `n` entries holds the box of each of them.
proof fn lemma_hull_encloses(entries: Seq<LookupData>, n: int, i: int)
    requires
        0 <= i < n <= entries.len(),
    ensures
        hull_of(entries, n).encloses(entries[i].aabb),
    decreases n,
{
    if n > 1 && i < n - 1 {
        lemma_hull_encloses(entries, n - 1, i);
    }
}

/// The smallest box that holds the boxes of all `entries`.
fn bounds_of(entries: &Vec<LookupData>) -> (aabb: Aabb)
    ensures
        aabb == hull_of(entries@, entries@.len() as int),
        forall|i: int| 0 <= i < entries@.len() ==> aabb.encloses(#[trigger] entries@[i].aabb),
{
    let mut aabb = Aabb { min: Vec3::zero(), max: Vec3::zero() };
    let mut i: usize = 0;
    while i < entries.len()
        invariant
            0 <= i <= entries@.len(),
            aabb == hull_of(entries@, i as int),
        decreases entries@.len() - i,
    {
        if i == 0 {
            aabb = entries[i].aabb;
        } else {
            aabb = aabb.union(&entries[i].aabb);
        }
        i = i + 1;
    }
    proof {
        assert forall|i: int| 0 <= i < entries@.len() implies aabb.encloses(
            #[trigger] entries@[i].aabb,
        ) by {
            lemma_hull_encloses(entries@, entries@.len() as int, i);
        }
    }
    aabb
}

/// How high a tree over `n` entries is at most: a leaf takes up to
/// `LEAF_SIZE` entries, and a branch halves what it is given.
pub open spec fn height_bound(n: nat) -> nat
    decreases n,
{
    if n <= LEAF_SIZE {
        0
    } else {
        1 + height_bound((n - n / 2) as nat)
    }
}

/// More entries never make for a lower bound on the height.
proof fn lemma_height_bound_grows(fewer: nat, more: nat)
    requires
        fewer <= more,
    ensures
        height_bound(fewer) <= height_bound(more),
    decreases more,
{
    if fewer > LEAF_SIZE {
        lemma_height_bound_grows((fewer - fewer / 2) as nat, (more - more / 2) as nat);
    }
}

/// A node of the tree, with the box that holds everything below it.
enum Node {
    Leaf { aabb: Aabb, items: Vec<LookupData> },
    Branch { aabb: Aabb, left: Box<Node>, right: Box<Node> },
}

impl Node {
    /// The box of the node.
    spec fn bounds(&self) -> Aabb {
        match self {
            Node::Leaf { aabb, .. } => *aabb,
            Node::Branch { aabb, .. } => *aabb,
        }
    }

    /// The entries below the node, from left to right.
    spec fn entries(&self) -> Seq<LookupData>
        decreases self,
    {
        match self {
            Node::Leaf { items, .. } => items@,
            Node::Branch { left, right, .. } => left.entries() + right.entries(),
        }
    }

    /// The number of branches on the longest way down from the node.
    spec fn height(&self) -> nat
        decreases self,
    {
        match self {
            Node::Leaf { .. } => 0,
            Node::Branch { left, right, .. } => if left.height() >= right.height() {
                1 + left.height()
            } else {
                1 + right.height()
            },
        }
    }

    /// The number of entries in the fullest leaf below the node.
    spec fn largest_leaf(&self) -> nat
        decreases self,
    {
        match self {
            Node::Leaf { items, .. } => items@.len(),
            Node::Branch { left, right, .. } => if left.largest_leaf() >= right.largest_leaf() {
                left.largest_leaf()
            } else {
                right.largest_leaf()
            },
        }
    }

    /// The box of a leaf holds the box of each of its entries, and the box
    /// of a branch holds the boxes of its two children.
    spec fn wf(&self) -> bool
        decreases self,
    {
        match self {
            Node::Leaf { aabb, items } => forall|i: int|
                0 <= i < items@.len() ==> aabb.encloses(#[trigger] items@[i].aabb),
            Node::Branch { aabb, left, right } => {
                &&& left.wf()
                &&& right.wf()
                &&& aabb.encloses(left.bounds())
                &&& aabb.encloses(right.bounds())
            },
        }
    }

    /// The box of a node holds the box of every entry below it.
    proof fn lemma_bounds_enclose(&self, i: int)
        requires
            self.wf(),
            0 <= i < self.entries().len(),
        ensures
            self.bounds().encloses(self.entries()[i].aabb),
        decreases self,
    {
        match self {
            Node::Leaf { .. } => {},
            Node::Branch { left, right, .. } => {
                if i < left.entries().len() {
                    left.lemma_bounds_enclose(i);
                } else {
                    right.lemma_bounds_enclose(i - left.entries().len());
                }
            },
        }
    }

    /// A query that misses the box of a node finds nothing below it.
    proof fn lemma_miss_finds_nothing(&self, query: Aabb)
        requires
            self.wf(),
            !self.bounds().intersects(query),
        ensures
            self.entries().filter(hits(query)) == Seq::<LookupData>::empty(),
    {
        let found = self.entries().filter(hits(query));
        if found.len() > 0 {
            let entry = found[0];
            assert(found.contains(entry));
            self.entries().lemma_filter_pred(hits(query), 0);
            self.entries().lemma_filter_contains_rev(hits(query), entry);
            let i = choose|i: int| 0 <= i < self.entries().len() && self.entries()[i] == entry;
            self.lemma_bounds_enclose(i);
            lemma_miss_outer_miss_inner(query, self.bounds(), entry.aabb);
        }
    }

    /// The box of the node.
    fn aabb(&self) -> (aabb: &Aabb)
        ensures
            *aabb == self.bounds(),
    {
        match self {
            Node::Leaf { aabb, .. } => aabb,
            Node::Branch { aabb, .. } => aabb,
        }
    }

    /// The tree over `entries`: a leaf for a few, else the halves of the
    /// entries in their order along the longest axis of their hull.
    fn build(entries: Vec<LookupData>) -> (node: Node)
        ensures
            node.wf(),
            node.entries().to_multiset() == entries@.to_multiset(),
            node.height() <= height_bound(entries@.len()),
            node.largest_leaf() <= LEAF_SIZE,
        decreases entries@.len(),
    {
        let aabb = bounds_of(&entries);
        if entries.len() <= LEAF_SIZE {
            return Node::Leaf { aabb, items: entries };
        }
        let axis = longest_axis(&aabb);
        let ghost given = entries@;
        let mut left_entries = sort_along(entries, axis);
        let ghost sorted = left_entries@;
        proof {
            sorted.to_multiset_ensures();
            given.to_multiset_ensures();
        }
        let mid = left_entries.len() / 2;
        let right_entries = left_entries.split_off(mid);
        proof {
            assert(sorted == left_entries@ + right_entries@);
            lemma_multiset_commutative(left_entries@, right_entries@);
        }
        let left = Node::build(left_entries);
        let right = Node::build(right_entries);
        proof {
            lemma_multiset_commutative(left.entries(), right.entries());
            lemma_height_bound_grows((given.len() / 2) as nat, (given.len() - given.len() / 2) as nat);
        }
        let aabb = left.aabb().union(right.aabb());
        Node::Branch { aabb, left: Box::new(left), right: Box::new(right) }
    }

    /// Appends to `found` the entries below the node whose boxes `query`
    /// meets, from left to right.
    fn collect(&self, query: &Aabb, found: &mut Vec<LookupData>)
        requires
            self.wf(),
        ensures
            final(found)@ == old(found)@ + self.entries().filter(hits(*query)),
        decreases self,
    {
        if !self.aabb().collides(query) {
            proof {
                self.lemma_miss_finds_nothing(*query);
            }
            return ;
        }
        match self {
            Node::Leaf { items, .. } => {
                let mut i: usize = 0;
                while i < items.len()
                    invariant
                        0 <= i <= items@.len(),
                        found@ == old(found)@ + items@.take(i as int).filter(hits(*query)),
                    decreases items@.len() - i,
                {
                    proof {
                        let seen = items@.take(i as int);
                        assert(items@.take(i + 1) == seen.push(items@[i as int]));
                        seen.lemma_filter_push(items@[i as int], hits(*query));
                    }
                    if items[i].aabb.collides(query) {
                        found.push(items[i]);
                    }
                    i = i + 1;
                }
                assert(items@.take(items@.len() as int) == items@);
            },
            Node::Branch { left, right, .. } => {
                left.collect(query, found);
                right.collect(query, found);
                proof {
                    Seq::filter_distributes_over_add(
                        left.entries(),
                        right.entries(),
                        hits(*query),
                    );
                }
            },
        }
    }
}

/// A bounding-volume hierarchy. It is built in one go and then only read.
pub struct Bvh {
    root: Node,
}

impl Bvh {
    /// The entries of the tree, in the order in which a query meets them.
    pub closed spec fn entries(&self) -> Seq<LookupData> {
        self.root.entries()
    }

    /// Every box in the tree holds what lies below it.
    #[verifier::type_invariant]
    spec fn inv(self) -> bool {
        self.root.wf()
    }

    /// The number of branches on the longest way from the root to a leaf.
    pub closed spec fn height(&self) -> nat {
        self.root.height()
    }

    /// The number of entries in the fullest leaf of the tree.
    pub closed spec fn largest_leaf(&self) -> nat {
        self.root.largest_leaf()
    }

    /// The tree that holds exactly `entries`, each as often as it is given.
    /// The entries are halved along the longest axis of their hull until
    /// `LEAF_SIZE` or fewer are left: no leaf holds more than that, and the
    /// tree is as low as halving makes it.
    pub fn build(entries: Vec<LookupData>) -> (bvh: Bvh)
        ensures
            bvh.entries().to_multiset() == entries@.to_multiset(),
            bvh.height() <= height_bound(entries@.len()),
            bvh.largest_leaf() <= LEAF_SIZE,
    {
        Bvh { root: Node::build(entries) }
    }

    /// The entries whose boxes overlap or touch `aabb`: every such entry
    /// once for each time the tree holds it, and no other.
    pub fn query(&self, aabb: &Aabb) -> (found: Vec<LookupData>)
        ensures
            found@ == self.entries().filter(hits(*aabb)),
    {
        proof {
            use_type_invariant(self);
        }
        let mut found: Vec<LookupData> = Vec::new();
        self.root.collect(aabb, &mut found);
        found
    }
}

impl Default for Bvh {
    /// The tree that holds nothing.
    fn default() -> (bvh: Bvh)
        ensures
            bvh.entries() == Seq::<LookupData>::empty(),
            bvh.height() == 0,
            bvh.largest_leaf() == 0,
    {
        let items: Vec<LookupData> = Vec::new();
        Bvh {
            root: Node::Leaf {
                aabb: Aabb { min: Vec3::zero(), max: Vec3::zero() },
                items,
            },
        }
    }
}

/// Filtering keeps each entry that passes as often as it occurs and drops
/// every other.
pub proof fn lemma_filter_keeps_hits(entries: Seq<LookupData>, query: Aabb, entry: LookupData)
    ensures
        entries.filter(hits(query)).to_multiset().count(entry) == if entry.aabb.intersects(
            query,
        ) {
            entries.to_multiset().count(entry)
        } else {
            0
        },
    decreases entries.len(),
{
    broadcast use vstd::multiset::group_multiset_axioms;

    entries.to_multiset_ensures();
    if entries.len() == 0 {
        entries.lemma_filter_len(hits(query));
        entries.filter(hits(query)).to_multiset_ensures();
    } else {
        let front = entries.drop_last();
        let last = entries.last();
        lemma_filter_keeps_hits(front, query, entry);
        assert(entries == front.push(last));
        front.lemma_filter_push(last, hits(query));
        to_multiset_build(front, last);
        if hits(query)(last) {
            to_multiset_build(front.filter(hits(query)), last);
        }
    }
}

/// The entities that `entries` speaks of.
pub open spec fn ids_of(entries: Seq<LookupData>) -> Set<EntityId> {
    Set::new(|id: EntityId| exists|i: int| 0 <= i < entries.len() && entries[i].id == id)
}

/// A query on a tree that was built from `entries` finds each entry whose
/// box overlaps or touches the queried box exactly as often as it was given,
/// and finds nothing else. So the entities that it finds are exactly those
/// that were given with such a box.
pub proof fn lemma_query_finds_exactly_the_hits(
    entries: Seq<LookupData>,
    bvh: Bvh,
    query: Aabb,
    found: Seq<LookupData>,
)
    requires
        bvh.entries().to_multiset() == entries.to_multiset(),
        found == bvh.entries().filter(hits(query)),
    ensures
        forall|entry: LookupData|
            #[trigger] found.to_multiset().count(entry) == if entry.aabb.intersects(query) {
                entries.to_multiset().count(entry)
            } else {
                0
            },
        ids_of(found) == ids_of(entries.filter(hits(query))),
{
    let wanted = entries.filter(hits(query));
    assert forall|entry: LookupData|
        #[trigger] found.to_multiset().count(entry) == if entry.aabb.intersects(query) {
            entries.to_multiset().count(entry)
        } else {
            0
        } by {
        lemma_filter_keeps_hits(bvh.entries(), query, entry);
    }
    assert forall|entry: LookupData| found.contains(entry) <==> wanted.contains(entry) by {
        lemma_filter_keeps_hits(entries, query, entry);
        to_multiset_contains(found, entry);
        to_multiset_contains(wanted, entry);
        assert(found.to_multiset().count(entry) == wanted.to_multiset().count(entry));
    }
    assert forall|id: EntityId| ids_of(found).contains(id) implies ids_of(wanted).contains(id) by {
        let j = choose|j: int| 0 <= j < found.len() && found[j].id == id;
        assert(found.contains(found[j]));
        let i = choose|i: int| 0 <= i < wanted.len() && wanted[i] == found[j];
        assert(wanted[i].id == id);
    }
    assert forall|id: EntityId| ids_of(wanted).contains(id) implies ids_of(found).contains(id) by {
        let i = choose|i: int| 0 <= i < wanted.len() && wanted[i].id == id;
        assert(wanted.contains(wanted[i]));
        let j = choose|j: int| 0 <= j < found.len() && found[j] == wanted[i];
        assert(found[j].id == id);
    }
    assert(ids_of(found) =~= ids_of(wanted));
}

} // verus!
