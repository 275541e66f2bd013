//! Validation of a scene tree, and what a tree must have to be compiled.

use vstd::prelude::*;
use crate::error::EngineError;
use crate::scene::{
    collect_types, count_nodes, depth, has_type, lemma_depth_le_count, node_count, node_types,
    tree_depth, views, SceneNode,
};

verus! {

/// The report of a validation: the verdict, the three metrics of the tree,
/// and one text per rule that the tree breaks.
pub struct ValidateResp {
    pub valid: bool,
    pub node_count: usize,
    pub depth: usize,
    pub node_types: Vec<String>,
    pub errors: Vec<String>,
}

/// The report of a compilation that went through.
pub struct CompileResp {
    pub success: bool,
    pub node_count: usize,
    pub depth: usize,
}

/// The errors of a tree: one for a root without a `type`, none otherwise.
pub open spec fn root_errors(tree: SceneNode) -> Seq<Seq<char>> {
    if tree.tag is Missing {
        seq!["Root missing 'type'"@]
    } else {
        Seq::empty()
    }
}

/// Validates a tree. A tree is valid exactly when its root declares a
/// `type`; the metrics are computed and reported either way.
pub fn validate(tree: &SceneNode) -> (resp: ValidateResp)
    requires
        node_count(*tree) <= usize::MAX,
    ensures
        resp.valid == !(tree.tag is Missing),
        resp.valid == (resp.errors@.len() == 0),
        resp.node_count == node_count(*tree),
        resp.depth == depth(*tree),
        views(resp.node_types@) == node_types(*tree),
        views(resp.errors@) == root_errors(*tree),
        !resp.valid ==> resp.errors@.len() == 1,
{
    proof {
        lemma_depth_le_count(*tree);
    }
    let nc = count_nodes(tree);
    let d = tree_depth(tree);
    let nt = collect_types(tree);
    let mut errors: Vec<String> = Vec::new();
    if !has_type(tree) {
        errors.push(String::from_str("Root missing 'type'"));
    }
    assert(views(errors@) =~= root_errors(*tree));
    let valid = errors.len() == 0;
    ValidateResp { valid, node_count: nc, depth: d, node_types: nt, errors }
}

/// Compiles a tree: turns down a root without a `type`, and otherwise
/// reports the size and the depth of the tree.
pub fn compile(tree: &SceneNode) -> (r: Result<CompileResp, EngineError>)
    requires
        node_count(*tree) <= usize::MAX,
    ensures
        tree.tag is Missing <==> r is Err,
        r matches Err(e) ==> e is MissingType,
        r matches Ok(resp) ==> {
            &&& resp.success
            &&& resp.node_count == node_count(*tree)
            &&& resp.depth == depth(*tree)
        },
{
    if !has_type(tree) {
        return Err(EngineError::MissingType);
    }
    proof {
        lemma_depth_le_count(*tree);
    }
    Ok(CompileResp { success: true, node_count: count_nodes(tree), depth: tree_depth(tree) })
}

} // verus!
