//! What carrying out a plan does to the destination, as mathematics.
//!
//! A tree is a map from paths to what lies there. Each step of a plan either
//! makes sure of a directory or writes a file, and what it does at one path
//! never depends on what lies at another. From this follow the two things
//! that a caller relies on: a copy takes nothing away, and doing it a second
//! time changes nothing.

use crate::text::is_path_prefix;
use crate::tree::{copy_plan, Entry, Step};
use vstd::prelude::*;

verus! {

/// What lies at a path.
pub enum Node {
    Directory,
    File { content: Seq<u8> },
}

/// What lies at `path` in `tree`, if anything.
pub open spec fn node_at(tree: Map<Seq<Seq<char>>, Node>, path: Seq<Seq<char>>) -> Option<Node> {
    if tree.dom().contains(path) {
        Some(tree[path])
    } else {
        None
    }
}

/// The bytes of the file at `path` in `tree`; none where there is no file.
pub open spec fn content_at(tree: Map<Seq<Seq<char>>, Node>, path: Seq<Seq<char>>) -> Seq<u8> {
    match node_at(tree, path) {
        Some(Node::File { content }) => content,
        _ => Seq::empty(),
    }
}

/// What lies at `path` after a step, given what lay there before.
///
/// Making sure of a directory puts a directory at each of its ancestors and
/// at itself where nothing is, and leaves alone what is there. Copying a file
/// puts the bytes of the source at the destination unless a directory is
/// there, and touches no other path.
pub open spec fn node_after_step(
    source: Map<Seq<Seq<char>>, Node>,
    step: Step,
    path: Seq<Seq<char>>,
    before: Option<Node>,
) -> Option<Node> {
    match step {
        Step::CreateDirectory { destination } => if is_path_prefix(path, destination) && before
            is None {
            Some(Node::Directory)
        } else {
            before
        },
        Step::CopyFile { source: from, destination } => if path == destination && before != Some(
            Node::Directory,
        ) {
            Some(Node::File { content: content_at(source, from) })
        } else {
            before
        },
    }
}

/// What lies at `path` after the steps of a plan, in order.
pub open spec fn node_after(
    source: Map<Seq<Seq<char>>, Node>,
    plan: Seq<Step>,
    path: Seq<Seq<char>>,
    before: Option<Node>,
) -> Option<Node>
    decreases plan.len(),
{
    if plan.len() == 0 {
        before
    } else {
        node_after_step(
            source,
            plan.last(),
            path,
            node_after(source, plan.drop_last(), path, before),
        )
    }
}

/// The destination after the steps of a plan were carried out on it.
pub open spec fn tree_after(
    source: Map<Seq<Seq<char>>, Node>,
    plan: Seq<Step>,
    tree: Map<Seq<Seq<char>>, Node>,
) -> Map<Seq<Seq<char>>, Node> {
    Map::new(
        |path: Seq<Seq<char>>| node_after(source, plan, path, node_at(tree, path)) is Some,
        |path: Seq<Seq<char>>| node_after(source, plan, path, node_at(tree, path))->0,
    )
}

/// The bytes that the last copy to `path` in the plan writes, if the plan
/// copies anything there.
pub open spec fn last_write(
    source: Map<Seq<Seq<char>>, Node>,
    plan: Seq<Step>,
    path: Seq<Seq<char>>,
) -> Option<Seq<u8>>
    decreases plan.len(),
{
    if plan.len() == 0 {
        None
    } else {
        match plan.last() {
            Step::CopyFile { source: from, destination } if destination == path => Some(
                content_at(source, from),
            ),
            _ => last_write(source, plan.drop_last(), path),
        }
    }
}

/// What a plan does at one path, case by case: a directory stays a directory;
/// a file stays a file, with the bytes of the last copy to it if there is
/// one and its own if not; and where nothing was, there is afterwards
/// nothing, a directory, or a file with the bytes of the last copy.
pub proof fn lemma_node_after_by_case(
    source: Map<Seq<Seq<char>>, Node>,
    plan: Seq<Step>,
    path: Seq<Seq<char>>,
    before: Option<Node>,
)
    ensures
        before == Some(Node::Directory) ==> node_after(source, plan, path, before) == before,
        before matches Some(Node::File { content }) ==> node_after(source, plan, path, before)
            == Some(
            Node::File {
                content: match last_write(source, plan, path) {
                    Some(written) => written,
                    None => content,
                },
            },
        ),
        before is None ==> {
            ||| node_after(source, plan, path, before) is None
            ||| node_after(source, plan, path, before) == Some(Node::Directory)
            ||| (last_write(source, plan, path) matches Some(written) && node_after(
                source,
                plan,
                path,
                before,
            ) == Some(Node::File { content: written }))
        },
    decreases plan.len(),
{
    if plan.len() > 0 {
        lemma_node_after_by_case(source, plan.drop_last(), path, before);
    }
}

/// A copy takes nothing away. Whatever the plan, and however far it was
/// carried out before it stopped, every path that was there before is there
/// afterwards, and every directory is still a directory: none is removed,
/// replaced by a file, or emptied.
pub proof fn lemma_copy_keeps_what_is_there(
    source: Map<Seq<Seq<char>>, Node>,
    plan: Seq<Step>,
    completed: int,
    tree: Map<Seq<Seq<char>>, Node>,
    path: Seq<Seq<char>>,
)
    requires
        0 <= completed <= plan.len(),
        tree.dom().contains(path),
    ensures
        tree_after(source, plan.take(completed), tree).dom().contains(path),
        tree[path] == Node::Directory ==> tree_after(source, plan.take(completed), tree)[path]
            == Node::Directory,
        tree[path] is File ==> tree_after(source, plan.take(completed), tree)[path] is File,
{
    lemma_node_after_by_case(source, plan.take(completed), path, node_at(tree, path));
}

/// Doing a copy a second time changes nothing: with the same source and the
/// same plan, the destination after two runs is, path by path and byte by
/// byte, the destination after one.
pub proof fn lemma_copy_twice_is_copy_once(
    source: Map<Seq<Seq<char>>, Node>,
    plan: Seq<Step>,
    tree: Map<Seq<Seq<char>>, Node>,
)
    ensures
        tree_after(source, plan, tree_after(source, plan, tree)) == tree_after(source, plan, tree),
{
    let once = tree_after(source, plan, tree);
    let twice = tree_after(source, plan, once);
    assert forall|path: Seq<Seq<char>>|
        node_after(source, plan, path, node_at(once, path)) == node_at(once, path) by {
        let before = node_at(tree, path);
        lemma_node_after_by_case(source, plan, path, before);
        lemma_node_after_by_case(source, plan, path, node_at(once, path));
        assert(node_at(once, path) == node_after(source, plan, path, before));
    }
    assert forall|path: Seq<Seq<char>>| node_at(twice, path) == node_at(once, path) by {
        assert(node_after(source, plan, path, node_at(once, path)) == node_at(once, path));
    }
    assert(twice =~= once) by {
        assert forall|path: Seq<Seq<char>>|
            twice.dom().contains(path) == once.dom().contains(path) by {
            assert(node_at(twice, path) == node_at(once, path));
        }
        assert forall|path: Seq<Seq<char>>| twice.dom().contains(path) implies twice[path]
            == once[path] by {
            assert(node_at(twice, path) == node_at(once, path));
        }
    }
}

/// Copying the contents of a directory into another never removes or
/// empties a directory that was at the destination before, nor anything in
/// it: this is [`lemma_copy_keeps_what_is_there`] for the plan that
/// [`crate::tree::copy_dir_contents`] makes, carried out in full or in part.
pub proof fn lemma_copy_dir_contents_keeps_directories(
    source: Map<Seq<Seq<char>>, Node>,
    src_dir: Seq<Seq<char>>,
    dst_dir: Seq<Seq<char>>,
    entries: Seq<Entry>,
    completed: int,
    tree: Map<Seq<Seq<char>>, Node>,
    directory: Seq<Seq<char>>,
    inside: Seq<Seq<char>>,
)
    requires
        0 <= completed <= copy_plan(src_dir, dst_dir, entries).len(),
        node_at(tree, directory) == Some(Node::Directory),
        tree.dom().contains(inside),
        is_path_prefix(directory, inside),
    ensures
        ({
            let after = tree_after(
                source,
                copy_plan(src_dir, dst_dir, entries).take(completed),
                tree,
            );
            &&& node_at(after, directory) == Some(Node::Directory)
            &&& after.dom().contains(inside)
        }),
{
    let plan = copy_plan(src_dir, dst_dir, entries);
    lemma_copy_keeps_what_is_there(source, plan, completed, tree, directory);
    lemma_copy_keeps_what_is_there(source, plan, completed, tree, inside);
}

} // verus!
