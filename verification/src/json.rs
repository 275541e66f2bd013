//! Scene descriptions as generic nested values, and how a scene tree is
//! read from one.
//!
//! A node is read from any value. An object gives the node its `type`, its
//! numeric `params`, a child for each of the members `a`, `b` and `child`
//! that it has, and a child for each element of the array `children`.
//! Every other value, and every member of another shape, gives nothing: a
//! number, say, is a node without a type and without children.

use vstd::prelude::*;
use crate::scene::{
    count_all, depth, dispatch_name, find_param, is_leaf, lemma_leaf_metrics, max_depth, node_count,
    node_types, own_type, radius_of, slot_count, slot_depth, slot_types, types_all, Param,
    SceneNode, TypeTag,
};
use crate::eval::field_of;
use crate::text::str_eq;

verus! {

/// A generic nested value. A number is held as the bit pattern of its
/// binary64 value. An object is the list of its members, each a key and a
/// value.
pub enum Json {
    Null,
    Bool(bool),
    Number(u64),
    Text(String),
    Array(Vec<Json>),
    Object(Vec<(String, Json)>),
}

/// The value of the first member called `key` in a list of members.
pub open spec fn find_member(members: Seq<(String, Json)>, key: Seq<char>) -> Option<Json>
    decreases members.len(),
{
    if members.len() == 0 {
        None
    } else if members[0].0@ == key {
        Some(members[0].1)
    } else {
        find_member(members.drop_first(), key)
    }
}

/// The member `key` of `j`: `None` where `j` is no object or has no such
/// member.
pub open spec fn member(j: Json, key: Seq<char>) -> Option<Json> {
    match j {
        Json::Object(members) => find_member(members@, key),
        _ => None,
    }
}

/// The elements of `j` where it is an array, and no elements otherwise.
pub open spec fn elements(j: Option<Json>) -> Seq<Json> {
    match j {
        Some(Json::Array(items)) => items@,
        _ => Seq::empty(),
    }
}

/// The numeric members of a list of members, in order, each as its name and
/// its bits.
pub open spec fn numeric_members(members: Seq<(String, Json)>) -> Seq<(Seq<char>, u64)>
    decreases members.len(),
{
    if members.len() == 0 {
        Seq::empty()
    } else {
        let head = numeric_members(members.drop_last());
        match members.last().1 {
            Json::Number(bits) => head.push((members.last().0@, bits)),
            _ => head,
        }
    }
}

/// The numeric parameters that `j` declares: the numeric members of its
/// member `params`, where that is an object.
pub open spec fn declared_params(j: Json) -> Seq<(Seq<char>, u64)> {
    match member(j, "params"@) {
        Some(Json::Object(members)) => numeric_members(members@),
        _ => Seq::empty(),
    }
}

/// A list of parameters as pairs of name and bits.
pub open spec fn param_views(params: Seq<Param>) -> Seq<(Seq<char>, u64)> {
    params.map_values(|p: Param| (p.name@, p.bits))
}

/// Whether `tag` is what `j` declares as its type.
pub open spec fn tag_matches(tag: TypeTag, j: Json) -> bool {
    match member(j, "type"@) {
        None => tag is Missing,
        Some(Json::Text(name)) => tag matches TypeTag::Named(s) && s@ == name@,
        Some(_) => tag is Unnamed,
    }
}

/// Whether the node `n` is the scene that `j` describes.
pub open spec fn represents(n: SceneNode, j: Json) -> bool
    decreases n, 1nat,
{
    &&& tag_matches(n.tag, j)
    &&& param_views(n.params@) == declared_params(j)
    &&& slot_represents(n.a, member(j, "a"@))
    &&& slot_represents(n.b, member(j, "b"@))
    &&& slot_represents(n.child, member(j, "child"@))
    &&& n.children@.len() == elements(member(j, "children"@)).len()
    &&& forall|i: int|
        0 <= i < n.children@.len() ==> represents(
            #[trigger] n.children@[i],
            elements(member(j, "children"@))[i],
        )
}

/// Whether a slot is filled exactly when the member is there, with the
/// scene that the member describes.
pub open spec fn slot_represents(slot: Option<Box<SceneNode>>, j: Option<Json>) -> bool
    decreases slot, 0nat,
{
    match slot {
        Some(n) => j matches Some(c) && represents(*n, c),
        None => j is None,
    }
}

/// The member `key` of `j`.
pub fn get<'a>(j: &'a Json, key: &str) -> (r: Option<&'a Json>)
    ensures
        match r {
            Some(v) => member(*j, key@) == Some(*v),
            None => member(*j, key@) is None,
        },
{
    match j {
        Json::Object(members) => {
            let mut i: usize = 0;
            assert(members@.skip(0) =~= members@);
            while i < members.len()
                invariant
                    i <= members.len(),
                    member(*j, key@) == find_member(members@, key@),
                    find_member(members@, key@) == find_member(members@.skip(i as int), key@),
                decreases members.len() - i,
            {
                let ghost rest = members@.skip(i as int);
                assert(rest[0] == members@[i as int]);
                assert(rest.drop_first() =~= members@.skip(i + 1));
                if str_eq(members[i].0.as_str(), key) {
                    assert(find_member(rest, key@) == Some(rest[0].1));
                    return Some(&members[i].1);
                }
                i = i + 1;
            }
            None
        },
        _ => None,
    }
}

/// A member that is found is the value of one of the members.
pub proof fn lemma_found_member(members: Seq<(String, Json)>, key: Seq<char>)
    ensures
        find_member(members, key) matches Some(c) ==> exists|i: int|
            0 <= i < members.len() && (#[trigger] members[i]).1 == c && members[i].0@ == key,
    decreases members.len(),
{
    if members.len() > 0 && members[0].0@ != key {
        let rest = members.drop_first();
        lemma_found_member(rest, key);
        if let Some(c) = find_member(rest, key) {
            let i = choose|i: int| 0 <= i < rest.len() && (#[trigger] rest[i]).1 == c && rest[i].0@ == key;
            assert(members[i + 1] == rest[i]);
        }
    }
}

proof fn lemma_member_is_smaller(j: Json, key: Seq<char>)
    ensures
        member(j, key) matches Some(c) ==> decreases_to!(j => c),
{
    if let Json::Object(members) = j {
        lemma_found_member(members@, key);
        if let Some(c) = find_member(members@, key) {
            let i = choose|i: int|
                0 <= i < members@.len() && (#[trigger] members@[i]).1 == c && members@[i].0@ == key;
            assert(decreases_to!(j => members));
            assert(decreases_to!(members => members@));
            assert(decreases_to!(members@ => members@[i]));
            assert(decreases_to!(members@[i] => members@[i].1));
        }
    }
}

fn read_tag(j: &Json) -> (tag: TypeTag)
    ensures
        tag_matches(tag, *j),
{
    match get(j, "type") {
        None => TypeTag::Missing,
        Some(Json::Text(name)) => TypeTag::Named(name.clone()),
        Some(_) => TypeTag::Unnamed,
    }
}

fn read_params(j: &Json) -> (params: Vec<Param>)
    ensures
        param_views(params@) == declared_params(*j),
{
    let mut params: Vec<Param> = Vec::new();
    assert(param_views(params@) =~= Seq::empty());
    match get(j, "params") {
        Some(Json::Object(members)) => {
            let mut i: usize = 0;
            assert(members@.take(0) =~= Seq::<(String, Json)>::empty());
            while i < members.len()
                invariant
                    i <= members.len(),
                    param_views(params@) == numeric_members(members@.take(i as int)),
                decreases members.len() - i,
            {
                let ghost done = members@.take(i + 1);
                assert(done.drop_last() =~= members@.take(i as int));
                assert(done.last() == members@[i as int]);
                match &members[i].1 {
                    Json::Number(bits) => {
                        let ghost before = params@;
                        params.push(Param { name: members[i].0.clone(), bits: *bits });
                        assert(param_views(params@) =~= param_views(before).push(
                            (members@[i as int].0@, *bits),
                        ));
                    },
                    _ => {},
                }
                i = i + 1;
            }
            assert(members@.take(i as int) =~= members@);
        },
        _ => {},
    }
    params
}

fn read_slot(j: &Json, key: &str) -> (slot: Option<Box<SceneNode>>)
    ensures
        slot_represents(slot, member(*j, key@)),
    decreases *j, 0nat,
{
    proof {
        lemma_member_is_smaller(*j, key@);
    }
    match get(j, key) {
        Some(c) => Some(Box::new(parse_scene(c))),
        None => None,
    }
}

/// Reads the scene that `j` describes.
pub fn parse_scene(j: &Json) -> (n: SceneNode)
    ensures
        represents(n, *j),
    decreases *j, 1nat,
{
    let tag = read_tag(j);
    let params = read_params(j);
    let a = read_slot(j, "a");
    let b = read_slot(j, "b");
    let child = read_slot(j, "child");
    let mut children: Vec<SceneNode> = Vec::new();
    proof {
        lemma_member_is_smaller(*j, "children"@);
    }
    match get(j, "children") {
        Some(Json::Array(items)) => {
            let mut i: usize = 0;
            while i < items.len()
                invariant
                    i <= items.len(),
                    children@.len() == i,
                    decreases_to!(*j => *items),
                    forall|k: int| 0 <= k < i ==> represents(#[trigger] children@[k], items@[k]),
                decreases items.len() - i,
            {
                let node = parse_scene(&items[i]);
                children.push(node);
                i = i + 1;
            }
        },
        _ => {},
    }
    SceneNode { tag, params, a, b, child, children }
}

/// A value without any of the members `a`, `b` and `child`, and without
/// elements in an array `children`, describes a leaf.
pub proof fn lemma_leaf_value(n: SceneNode, j: Json)
    requires
        represents(n, j),
        member(j, "a"@) is None,
        member(j, "b"@) is None,
        member(j, "child"@) is None,
        elements(member(j, "children"@)).len() == 0,
    ensures
        is_leaf(n),
        node_count(n) == 1,
        depth(n) == 1,
{
    assert(slot_represents(n.a, member(j, "a"@)));
    assert(slot_represents(n.b, member(j, "b"@)));
    assert(slot_represents(n.child, member(j, "child"@)));
    assert(n.children@ =~= Seq::<SceneNode>::empty());
    lemma_leaf_metrics(n);
}

/// The metrics of a scene are those of the value it was read from: two
/// nodes that stand for the same value have the same number of nodes, the
/// same depth and the same types.
pub proof fn lemma_metrics_of_value(n1: SceneNode, n2: SceneNode, j: Json)
    requires
        represents(n1, j),
        represents(n2, j),
    ensures
        node_count(n1) == node_count(n2),
        depth(n1) == depth(n2),
        node_types(n1) == node_types(n2),
    decreases n1, 1nat,
{
    lemma_metrics_of_slot(n1.a, n2.a, member(j, "a"@));
    lemma_metrics_of_slot(n1.b, n2.b, member(j, "b"@));
    lemma_metrics_of_slot(n1.child, n2.child, member(j, "child"@));
    lemma_metrics_of_list(n1.children@, n2.children@, elements(member(j, "children"@)));
    assert(own_type(n1.tag) == own_type(n2.tag));
}

proof fn lemma_param_of_views(p1: Seq<Param>, p2: Seq<Param>, name: Seq<char>)
    requires
        param_views(p1) == param_views(p2),
    ensures
        find_param(p1, name) == find_param(p2, name),
    decreases p1.len(),
{
    assert(p1.len() == param_views(p1).len());
    assert(p2.len() == param_views(p2).len());
    if p1.len() > 0 {
        assert(param_views(p1)[0] == (p1[0].name@, p1[0].bits));
        assert(param_views(p2)[0] == (p2[0].name@, p2[0].bits));
        assert(param_views(p1.drop_first()) =~= param_views(p1).drop_first());
        assert(param_views(p2.drop_first()) =~= param_views(p2).drop_first());
        lemma_param_of_views(p1.drop_first(), p2.drop_first(), name);
    }
}

/// The field of a scene is that of the value it was read from: two nodes
/// that stand for the same value are evaluated as the same field.
pub proof fn lemma_field_of_value(n1: SceneNode, n2: SceneNode, j: Json)
    requires
        represents(n1, j),
        represents(n2, j),
    ensures
        field_of(n1) == field_of(n2),
    decreases n1,
{
    assert(dispatch_name(n1.tag) == dispatch_name(n2.tag));
    lemma_param_of_views(n1.params@, n2.params@, "radius"@);
    assert(radius_of(n1) == radius_of(n2));
    assert(slot_represents(n1.a, member(j, "a"@)));
    assert(slot_represents(n2.a, member(j, "a"@)));
    assert(slot_represents(n1.b, member(j, "b"@)));
    assert(slot_represents(n2.b, member(j, "b"@)));
    match (n1.a, n1.b) {
        (Some(a1), Some(b1)) => {
            lemma_field_of_value(*a1, *n2.a->0, member(j, "a"@)->0);
            lemma_field_of_value(*b1, *n2.b->0, member(j, "b"@)->0);
        },
        _ => {},
    }
}

proof fn lemma_metrics_of_slot(
    s1: Option<Box<SceneNode>>,
    s2: Option<Box<SceneNode>>,
    j: Option<Json>,
)
    requires
        slot_represents(s1, j),
        slot_represents(s2, j),
    ensures
        slot_count(s1) == slot_count(s2),
        slot_depth(s1) == slot_depth(s2),
        slot_types(s1) == slot_types(s2),
    decreases s1, 0nat,
{
    match s1 {
        Some(n1) => {
            lemma_metrics_of_value(*n1, *s2->0, j->0);
        },
        None => {},
    }
}

proof fn lemma_metrics_of_list(l1: Seq<SceneNode>, l2: Seq<SceneNode>, items: Seq<Json>)
    requires
        l1.len() == items.len(),
        l2.len() == items.len(),
        forall|i: int| 0 <= i < l1.len() ==> represents(#[trigger] l1[i], items[i]),
        forall|i: int| 0 <= i < l2.len() ==> represents(#[trigger] l2[i], items[i]),
    ensures
        count_all(l1) == count_all(l2),
        max_depth(l1) == max_depth(l2),
        types_all(l1) == types_all(l2),
    decreases l1, 0nat,
{
    if l1.len() > 0 {
        let last = l1.len() - 1;
        assert(represents(l1[last], items[last]));
        assert(represents(l2[last], items[last]));
        lemma_metrics_of_value(l1.last(), l2.last(), items.last());
        assert forall|i: int| 0 <= i < l1.drop_last().len() implies represents(
            #[trigger] l1.drop_last()[i],
            items.drop_last()[i],
        ) by {
            assert(l1.drop_last()[i] == l1[i]);
        }
        assert forall|i: int| 0 <= i < l2.drop_last().len() implies represents(
            #[trigger] l2.drop_last()[i],
            items.drop_last()[i],
        ) by {
            assert(l2.drop_last()[i] == l2[i]);
        }
        lemma_metrics_of_list(l1.drop_last(), l2.drop_last(), items.drop_last());
    }
}

} // verus!
