//! The scene tree and its structural metrics.
//!
//! A scene is a tree of nodes. Each node may declare a `type`, carries named
//! numeric parameters, and reaches its children through the three singular
//! slots `a`, `b` and `child` and through the ordered `children` list. The
//! metrics walk the tree in pre-order: the node itself, then `a`, `b`,
//! `child`, then every element of `children` in order.

use vstd::prelude::*;
use crate::text::str_eq;

verus! {

/// Bit pattern of the binary64 value `1.0`, the radius of a sphere that
/// declares none.
pub const UNIT_BITS: u64 = 0x3FF0_0000_0000_0000;

/// Bit pattern of the binary64 value `0.5`, the half extent of a box along
/// each axis.
pub const HALF_BITS: u64 = 0x3FE0_0000_0000_0000;

/// What a node declares as its `type`.
pub enum TypeTag {
    /// The node has no `type` entry at all.
    Missing,
    /// The node has a `type` entry that is not text.
    Unnamed,
    /// The node has a textual `type`.
    Named(String),
}

/// One numeric parameter of a node. `bits` is the IEEE-754 binary64 bit
/// pattern of the value; this crate moves the pattern around and never
/// computes with it.
pub struct Param {
    pub name: String,
    pub bits: u64,
}

/// One node of a scene tree. A node owns its children exclusively, so a
/// scene is always a finite tree.
pub struct SceneNode {
    pub tag: TypeTag,
    pub params: Vec<Param>,
    pub a: Option<Box<SceneNode>>,
    pub b: Option<Box<SceneNode>>,
    pub child: Option<Box<SceneNode>>,
    pub children: Vec<SceneNode>,
}

/// The name a node is handled under: its textual type, and `Sphere` when it
/// declares none.
pub open spec fn dispatch_name(tag: TypeTag) -> Seq<char> {
    match tag {
        TypeTag::Named(s) => s@,
        _ => "Sphere"@,
    }
}

/// The value of the first parameter called `name`, if there is one.
pub open spec fn find_param(params: Seq<Param>, name: Seq<char>) -> Option<u64>
    decreases params.len(),
{
    if params.len() == 0 {
        None
    } else if params[0].name@ == name {
        Some(params[0].bits)
    } else {
        find_param(params.drop_first(), name)
    }
}

/// The radius a node asks for: its `radius` parameter, and one when it has
/// none.
pub open spec fn radius_of(t: SceneNode) -> u64 {
    match find_param(t.params@, "radius"@) {
        Some(bits) => bits,
        None => UNIT_BITS,
    }
}

/// The larger of two naturals.
pub open spec fn max_nat(x: nat, y: nat) -> nat {
    if x >= y {
        x
    } else {
        y
    }
}

/// Number of nodes reachable from `t`, `t` included.
pub open spec fn node_count(t: SceneNode) -> nat
    decreases t, 1nat,
{
    1 + slot_count(t.a) + slot_count(t.b) + slot_count(t.child) + count_all(t.children@)
}

/// Number of nodes under an optional slot: zero when the slot is empty.
pub open spec fn slot_count(slot: Option<Box<SceneNode>>) -> nat
    decreases slot, 0nat,
{
    match slot {
        Some(n) => node_count(*n),
        None => 0,
    }
}

/// Sum of `node_count` over a list of nodes.
pub open spec fn count_all(s: Seq<SceneNode>) -> nat
    decreases s, 0nat,
{
    if s.len() == 0 {
        0
    } else {
        count_all(s.drop_last()) + node_count(s.last())
    }
}

/// Height of the tree rooted at `t`: one for a leaf, otherwise one more than
/// the deepest child.
pub open spec fn depth(t: SceneNode) -> nat
    decreases t, 1nat,
{
    1 + max_nat(
        max_nat(slot_depth(t.a), slot_depth(t.b)),
        max_nat(slot_depth(t.child), max_depth(t.children@)),
    )
}

/// Depth under an optional slot: zero when the slot is empty.
pub open spec fn slot_depth(slot: Option<Box<SceneNode>>) -> nat
    decreases slot, 0nat,
{
    match slot {
        Some(n) => depth(*n),
        None => 0,
    }
}

/// Largest `depth` in a list of nodes: zero for the empty list.
pub open spec fn max_depth(s: Seq<SceneNode>) -> nat
    decreases s, 0nat,
{
    if s.len() == 0 {
        0
    } else {
        max_nat(max_depth(s.drop_last()), depth(s.last()))
    }
}

/// The textual types found in the tree, in pre-order, duplicates included.
/// Nodes without a textual type contribute nothing.
pub open spec fn node_types(t: SceneNode) -> Seq<Seq<char>>
    decreases t, 1nat,
{
    own_type(t.tag) + slot_types(t.a) + slot_types(t.b) + slot_types(t.child) + types_all(
        t.children@,
    )
}

/// The node's own contribution to `node_types`.
pub open spec fn own_type(tag: TypeTag) -> Seq<Seq<char>> {
    match tag {
        TypeTag::Named(s) => seq![s@],
        _ => Seq::empty(),
    }
}

/// The types under an optional slot.
pub open spec fn slot_types(slot: Option<Box<SceneNode>>) -> Seq<Seq<char>>
    decreases slot, 0nat,
{
    match slot {
        Some(n) => node_types(*n),
        None => Seq::empty(),
    }
}

/// The types under a list of nodes, list order first.
pub open spec fn types_all(s: Seq<SceneNode>) -> Seq<Seq<char>>
    decreases s, 0nat,
{
    if s.len() == 0 {
        Seq::empty()
    } else {
        types_all(s.drop_last()) + node_types(s.last())
    }
}

/// Whether `t` has no child in any slot and an empty `children` list.
pub open spec fn is_leaf(t: SceneNode) -> bool {
    t.a is None && t.b is None && t.child is None && t.children@.len() == 0
}

/// An optional slot as a list: one node when filled, none when empty.
pub open spec fn slot_nodes(slot: Option<Box<SceneNode>>) -> Seq<SceneNode> {
    match slot {
        Some(n) => seq![*n],
        None => Seq::empty(),
    }
}

/// The children of `t` that are present, in visiting order: `a`, `b`,
/// `child`, then the elements of `children`.
pub open spec fn present_children(t: SceneNode) -> Seq<SceneNode> {
    slot_nodes(t.a) + slot_nodes(t.b) + slot_nodes(t.child) + t.children@
}

/// `count_all` of a concatenation is the sum over its two parts, `max_depth`
/// the larger of the two, `types_all` the concatenation.
pub proof fn lemma_lists_concat(x: Seq<SceneNode>, y: Seq<SceneNode>)
    ensures
        count_all(x + y) == count_all(x) + count_all(y),
        max_depth(x + y) == max_nat(max_depth(x), max_depth(y)),
        types_all(x + y) == types_all(x) + types_all(y),
    decreases y.len(),
{
    if y.len() == 0 {
        assert(x + y =~= x);
        assert(types_all(x) + types_all(y) =~= types_all(x));
    } else {
        lemma_lists_concat(x, y.drop_last());
        assert((x + y).drop_last() =~= x + y.drop_last());
        assert((x + y).last() == y.last());
        assert(types_all(x) + types_all(y.drop_last()) + node_types(y.last()) =~= types_all(x)
            + (types_all(y.drop_last()) + node_types(y.last())));
    }
}

proof fn lemma_slot_as_list(slot: Option<Box<SceneNode>>)
    ensures
        count_all(slot_nodes(slot)) == slot_count(slot),
        max_depth(slot_nodes(slot)) == slot_depth(slot),
        types_all(slot_nodes(slot)) == slot_types(slot),
{
    match slot {
        Some(n) => {
            let s = slot_nodes(slot);
            assert(s.drop_last() =~= Seq::<SceneNode>::empty());
            assert(s.last() == *n);
            assert(count_all(s.drop_last()) == 0);
            assert(max_depth(s.drop_last()) == 0);
            assert(types_all(s.drop_last()) =~= Seq::<Seq<char>>::empty());
            assert(Seq::<Seq<char>>::empty() + node_types(*n) =~= node_types(*n));
        },
        None => {},
    }
}

/// Each metric of a node is its own share plus the metric over its present
/// children: the count is one more than the sum of the children's counts,
/// the depth one more than the deepest child (zero when there is none), and
/// the types are the node's own followed by those of each child in order.
pub proof fn lemma_metrics_over_children(t: SceneNode)
    ensures
        node_count(t) == 1 + count_all(present_children(t)),
        depth(t) == 1 + max_depth(present_children(t)),
        node_types(t) == own_type(t.tag) + types_all(present_children(t)),
{
    let sa = slot_nodes(t.a);
    let sb = slot_nodes(t.b);
    let sc = slot_nodes(t.child);
    lemma_slot_as_list(t.a);
    lemma_slot_as_list(t.b);
    lemma_slot_as_list(t.child);
    lemma_lists_concat(sa, sb);
    lemma_lists_concat(sa + sb, sc);
    lemma_lists_concat(sa + sb + sc, t.children@);
    assert(own_type(t.tag) + (slot_types(t.a) + slot_types(t.b) + slot_types(t.child) + types_all(
        t.children@,
    )) =~= node_types(t));
}

/// `max_depth` is a maximum: no element is deeper, and a non-empty list
/// holds an element of exactly that depth.
pub proof fn lemma_max_depth_is_max(s: Seq<SceneNode>)
    ensures
        forall|i: int| 0 <= i < s.len() ==> depth(#[trigger] s[i]) <= max_depth(s),
        s.len() > 0 ==> exists|i: int| 0 <= i < s.len() && depth(#[trigger] s[i]) == max_depth(s),
        s.len() == 0 ==> max_depth(s) == 0,
    decreases s.len(),
{
    if s.len() > 0 {
        let head = s.drop_last();
        lemma_max_depth_is_max(head);
        assert forall|i: int| 0 <= i < s.len() implies depth(#[trigger] s[i]) <= max_depth(s) by {
            if i < head.len() {
                assert(s[i] == head[i]);
            }
        }
        if max_depth(s) == depth(s.last()) {
            assert(depth(s[s.len() - 1]) == max_depth(s));
        } else {
            let k = choose|k: int| 0 <= k < head.len() && depth(#[trigger] head[k]) == max_depth(head);
            assert(s[k] == head[k]);
            assert(depth(s[k]) == max_depth(s));
        }
    }
}

/// A tree has at least one node, and a leaf has exactly one node and depth
/// one.
pub proof fn lemma_leaf_metrics(t: SceneNode)
    ensures
        node_count(t) >= 1,
        depth(t) >= 1,
        is_leaf(t) ==> node_count(t) == 1 && depth(t) == 1,
{
    if is_leaf(t) {
        assert(t.children@ =~= Seq::<SceneNode>::empty());
    }
}

/// The depth of a node is one more than the largest depth among its present
/// children, and one when it has none.
pub proof fn lemma_depth_recurrence(t: SceneNode)
    ensures
        present_children(t).len() == 0 ==> depth(t) == 1,
        forall|i: int|
            0 <= i < present_children(t).len() ==> depth(#[trigger] present_children(t)[i]) + 1
                <= depth(t),
        present_children(t).len() > 0 ==> exists|i: int|
            0 <= i < present_children(t).len() && depth(t) == 1 + depth(
                #[trigger] present_children(t)[i],
            ),
{
    lemma_metrics_over_children(t);
    lemma_max_depth_is_max(present_children(t));
}

/// Counting a prefix of a list never exceeds counting the whole list.
pub proof fn lemma_count_all_prefix(s: Seq<SceneNode>, i: int)
    requires
        0 <= i <= s.len(),
    ensures
        count_all(s.take(i)) <= count_all(s),
    decreases s.len(),
{
    if i == s.len() {
        assert(s.take(i) =~= s);
    } else {
        lemma_count_all_prefix(s.drop_last(), i);
        assert(s.drop_last().take(i) =~= s.take(i));
    }
}

/// The deepest node of a prefix is no deeper than the deepest of the list.
pub proof fn lemma_max_depth_prefix(s: Seq<SceneNode>, i: int)
    requires
        0 <= i <= s.len(),
    ensures
        max_depth(s.take(i)) <= max_depth(s),
    decreases s.len(),
{
    if i == s.len() {
        assert(s.take(i) =~= s);
    } else {
        lemma_max_depth_prefix(s.drop_last(), i);
        assert(s.drop_last().take(i) =~= s.take(i));
    }
}

/// Every tree is at most as deep as it has nodes, and a list of trees is at
/// most as deep as it has nodes in all.
pub proof fn lemma_depth_le_count(t: SceneNode)
    ensures
        1 <= depth(t) <= node_count(t),
    decreases t, 1nat,
{
    lemma_slot_depth_le_count(t.a);
    lemma_slot_depth_le_count(t.b);
    lemma_slot_depth_le_count(t.child);
    lemma_max_depth_le_count(t.children@);
}

proof fn lemma_slot_depth_le_count(slot: Option<Box<SceneNode>>)
    ensures
        slot_depth(slot) <= slot_count(slot),
    decreases slot, 0nat,
{
    match slot {
        Some(n) => lemma_depth_le_count(*n),
        None => {},
    }
}

proof fn lemma_max_depth_le_count(s: Seq<SceneNode>)
    ensures
        max_depth(s) <= count_all(s),
    decreases s, 0nat,
{
    if s.len() > 0 {
        lemma_max_depth_le_count(s.drop_last());
        lemma_depth_le_count(s.last());
    }
}

/// Whether the node declares a `type`, textual or not.
pub fn has_type(t: &SceneNode) -> (r: bool)
    ensures
        r == !(t.tag is Missing),
{
    match &t.tag {
        TypeTag::Missing => false,
        _ => true,
    }
}

/// The name the node is handled under.
pub fn node_name(t: &SceneNode) -> (name: &str)
    ensures
        name@ == dispatch_name(t.tag),
{
    match &t.tag {
        TypeTag::Named(s) => s.as_str(),
        _ => "Sphere",
    }
}

/// Looks up a numeric parameter by name.
pub fn numeric_param(t: &SceneNode, name: &str) -> (r: Option<u64>)
    ensures
        r == find_param(t.params@, name@),
{
    let mut i: usize = 0;
    assert(t.params@.skip(0) =~= t.params@);
    while i < t.params.len()
        invariant
            i <= t.params.len(),
            find_param(t.params@, name@) == find_param(t.params@.skip(i as int), name@),
        decreases t.params.len() - i,
    {
        let ghost rest = t.params@.skip(i as int);
        assert(rest[0] == t.params@[i as int]);
        assert(rest.drop_first() =~= t.params@.skip(i + 1));
        if str_eq(t.params[i].name.as_str(), name) {
            return Some(t.params[i].bits);
        }
        i = i + 1;
    }
    None
}

/// The radius the node asks for, as binary64 bits.
pub fn radius_bits(t: &SceneNode) -> (bits: u64)
    ensures
        bits == radius_of(*t),
{
    match numeric_param(t, "radius") {
        Some(bits) => bits,
        None => UNIT_BITS,
    }
}

/// Number of nodes in the tree rooted at `t`.
pub fn count_nodes(t: &SceneNode) -> (c: usize)
    requires
        node_count(*t) <= usize::MAX,
    ensures
        c == node_count(*t),
        c >= 1,
    decreases *t,
{
    let mut c: usize = 1;
    if let Some(n) = &t.a {
        c = c + count_nodes(n);
    }
    if let Some(n) = &t.b {
        c = c + count_nodes(n);
    }
    if let Some(n) = &t.child {
        c = c + count_nodes(n);
    }
    let ghost head = c as nat;
    let mut i: usize = 0;
    while i < t.children.len()
        invariant
            i <= t.children.len(),
            head == 1 + slot_count(t.a) + slot_count(t.b) + slot_count(t.child),
            c == head + count_all(t.children@.take(i as int)),
            node_count(*t) <= usize::MAX,
        decreases t.children.len() - i,
    {
        proof {
            lemma_count_all_prefix(t.children@, i + 1);
            assert(t.children@.take(i + 1).drop_last() =~= t.children@.take(i as int));
        }
        c = c + count_nodes(&t.children[i]);
        i = i + 1;
    }
    assert(t.children@.take(i as int) =~= t.children@);
    c
}

fn checked_slot_count(slot: &Option<Box<SceneNode>>) -> (r: Option<usize>)
    ensures
        match r {
            Some(n) => n == slot_count(*slot),
            None => slot_count(*slot) > usize::MAX,
        },
    decreases *slot, 0nat,
{
    match slot {
        Some(n) => checked_count_nodes(n),
        None => Some(0),
    }
}

/// Number of nodes in the tree rooted at `t`, where that number fits the
/// machine word, and `None` where it does not.
pub fn checked_count_nodes(t: &SceneNode) -> (r: Option<usize>)
    ensures
        match r {
            Some(n) => n == node_count(*t),
            None => node_count(*t) > usize::MAX,
        },
    decreases *t, 1nat,
{
    let a = match checked_slot_count(&t.a) {
        Some(n) => n,
        None => {
            return None;
        },
    };
    let b = match checked_slot_count(&t.b) {
        Some(n) => n,
        None => {
            return None;
        },
    };
    let child = match checked_slot_count(&t.child) {
        Some(n) => n,
        None => {
            return None;
        },
    };
    let mut c: usize = match a.checked_add(1) {
        Some(s) => s,
        None => {
            return None;
        },
    };
    c = match c.checked_add(b) {
        Some(s) => s,
        None => {
            return None;
        },
    };
    c = match c.checked_add(child) {
        Some(s) => s,
        None => {
            return None;
        },
    };
    let ghost head = c as nat;
    let mut i: usize = 0;
    while i < t.children.len()
        invariant
            i <= t.children.len(),
            head == 1 + slot_count(t.a) + slot_count(t.b) + slot_count(t.child),
            c == head + count_all(t.children@.take(i as int)),
        decreases t.children.len() - i,
    {
        proof {
            lemma_count_all_prefix(t.children@, i + 1);
            assert(t.children@.take(i + 1).drop_last() =~= t.children@.take(i as int));
        }
        let k = match checked_count_nodes(&t.children[i]) {
            Some(n) => n,
            None => {
                return None;
            },
        };
        c = match c.checked_add(k) {
            Some(s) => s,
            None => {
                return None;
            },
        };
        i = i + 1;
    }
    assert(t.children@.take(i as int) =~= t.children@);
    Some(c)
}

/// Depth of the tree rooted at `t`.
pub fn tree_depth(t: &SceneNode) -> (d: usize)
    requires
        depth(*t) <= usize::MAX,
    ensures
        d == depth(*t),
        d >= 1,
    decreases *t,
{
    let mut mx: usize = 0;
    if let Some(n) = &t.a {
        let d = tree_depth(n);
        if d > mx {
            mx = d;
        }
    }
    if let Some(n) = &t.b {
        let d = tree_depth(n);
        if d > mx {
            mx = d;
        }
    }
    if let Some(n) = &t.child {
        let d = tree_depth(n);
        if d > mx {
            mx = d;
        }
    }
    let ghost head = mx as nat;
    let mut i: usize = 0;
    while i < t.children.len()
        invariant
            i <= t.children.len(),
            head == max_nat(max_nat(slot_depth(t.a), slot_depth(t.b)), slot_depth(t.child)),
            mx == max_nat(head, max_depth(t.children@.take(i as int))),
            depth(*t) <= usize::MAX,
        decreases t.children.len() - i,
    {
        proof {
            lemma_max_depth_prefix(t.children@, i + 1);
            assert(t.children@.take(i + 1).drop_last() =~= t.children@.take(i as int));
        }
        let d = tree_depth(&t.children[i]);
        if d > mx {
            mx = d;
        }
        i = i + 1;
    }
    assert(t.children@.take(i as int) =~= t.children@);
    1 + mx
}

/// The view of each string of a list, in order.
pub open spec fn views(v: Seq<String>) -> Seq<Seq<char>> {
    v.map_values(|s: String| s@)
}

proof fn lemma_views_push(v: Seq<String>, s: String)
    ensures
        views(v.push(s)) == views(v) + seq![s@],
{
    assert(views(v.push(s)) =~= views(v) + seq![s@]);
}

proof fn lemma_concat_assoc(x: Seq<Seq<char>>, y: Seq<Seq<char>>, z: Seq<Seq<char>>)
    ensures
        (x + y) + z == x + (y + z),
        x + Seq::<Seq<char>>::empty() == x,
        Seq::<Seq<char>>::empty() + x == x,
{
    assert((x + y) + z =~= x + (y + z));
    assert(x + Seq::<Seq<char>>::empty() =~= x);
    assert(Seq::<Seq<char>>::empty() + x =~= x);
}

fn push_slot_types(slot: &Option<Box<SceneNode>>, out: &mut Vec<String>)
    ensures
        views(final(out)@) == views(old(out)@) + slot_types(*slot),
    decreases *slot, 0nat,
{
    match slot {
        Some(n) => {
            push_types(n, out);
        },
        None => {
            proof {
                lemma_concat_assoc(views(out@), Seq::empty(), Seq::empty());
            }
        },
    }
}

/// Appends the textual types of the tree rooted at `t` to `out`, in
/// pre-order.
fn push_types(t: &SceneNode, out: &mut Vec<String>)
    ensures
        views(final(out)@) == views(old(out)@) + node_types(*t),
    decreases *t, 1nat,
{
    let ghost before = views(out@);
    match &t.tag {
        TypeTag::Named(s) => {
            proof {
                lemma_views_push(out@, *s);
            }
            out.push(s.clone());
        },
        _ => {
            proof {
                lemma_concat_assoc(before, Seq::empty(), Seq::empty());
            }
        },
    }
    let ghost own = own_type(t.tag);
    let ghost sa = slot_types(t.a);
    let ghost sb = slot_types(t.b);
    let ghost sc = slot_types(t.child);
    assert(views(out@) == before + own);
    push_slot_types(&t.a, out);
    push_slot_types(&t.b, out);
    push_slot_types(&t.child, out);
    let ghost prefix = before + own + sa + sb + sc;
    assert(views(out@) == prefix);
    let mut i: usize = 0;
    proof {
        assert(t.children@.take(0) =~= Seq::<SceneNode>::empty());
        lemma_concat_assoc(prefix, Seq::empty(), Seq::empty());
    }
    while i < t.children.len()
        invariant
            i <= t.children.len(),
            views(out@) == prefix + types_all(t.children@.take(i as int)),
        decreases t.children.len() - i,
    {
        proof {
            let done = t.children@.take(i + 1);
            assert(done.drop_last() =~= t.children@.take(i as int));
            assert(done.last() == t.children@[i as int]);
            lemma_concat_assoc(
                prefix,
                types_all(t.children@.take(i as int)),
                node_types(t.children@[i as int]),
            );
        }
        push_types(&t.children[i], out);
        i = i + 1;
    }
    proof {
        assert(t.children@.take(i as int) =~= t.children@);
        let all = types_all(t.children@);
        lemma_concat_assoc(before, own, sa);
        lemma_concat_assoc(before, own + sa, sb);
        lemma_concat_assoc(before, own + sa + sb, sc);
        lemma_concat_assoc(before, own + sa + sb + sc, all);
    }
}

/// The textual types of the tree rooted at `t`, in pre-order, duplicates
/// included.
pub fn collect_types(t: &SceneNode) -> (v: Vec<String>)
    ensures
        views(v@) == node_types(*t),
{
    let mut v: Vec<String> = Vec::new();
    assert(views(v@) =~= Seq::<Seq<char>>::empty());
    push_types(t, &mut v);
    proof {
        lemma_concat_assoc(node_types(*t), Seq::empty(), Seq::empty());
    }
    v
}

} // verus!
