//! Depth-bounded directory listing, for diagnostics on a locator miss.
//!
//! When no candidate exists, the supervisor records the contents of the
//! anchor directories for postmortem inspection, bounded to a fixed small
//! depth so that the traversal cannot run away into a large or cyclic tree.
//! The tree to list is handed in as a value — one snapshot of names read by
//! the host — and the listing is a pure pre-order walk of it.

use vstd::prelude::*;

verus! {

/// The recursion bound: entries nested more than this many levels below
/// the listed directory are not recorded.
pub const MAX_LIST_DEPTH: usize = 3;

/// One node of a directory tree: its name, whether it is a directory, and
/// its children (only a directory has any).
pub struct FsTree {
    pub name: String,
    pub is_dir: bool,
    pub children: Vec<FsTree>,
}

/// One recorded entry: the entry's name and the nesting level it was seen
/// at, starting at zero for the listed directory's own entries.
pub struct ListedEntry {
    pub name: String,
    pub depth: usize,
}

impl View for ListedEntry {
    type V = (Seq<char>, nat);

    open spec fn view(&self) -> (Seq<char>, nat) {
        (self.name@, self.depth as nat)
    }
}

impl DeepView for ListedEntry {
    type V = (Seq<char>, nat);

    open spec fn deep_view(&self) -> (Seq<char>, nat) {
        self.view()
    }
}

/// The pre-order listing of the entries `nodes` at nesting level `depth`:
/// nothing once `depth` passes the bound, otherwise each entry followed by
/// the listing of its children one level deeper.
pub open spec fn spec_listing(nodes: Seq<FsTree>, depth: nat) -> Seq<(Seq<char>, nat)>
    decreases nodes,
{
    if depth > MAX_LIST_DEPTH as nat || nodes.len() == 0 {
        Seq::<(Seq<char>, nat)>::empty()
    } else {
        let last = nodes.last();
        spec_listing(nodes.subrange(0, nodes.len() - 1), depth) + seq![(last.name@, depth)] + (
        if last.is_dir {
            spec_listing(last.children@, depth + 1)
        } else {
            Seq::<(Seq<char>, nat)>::empty()
        })
    }
}

/// List the children of `node` at nesting level `depth`, appending to
/// `out`: each entry is recorded, and a directory entry's own children
/// follow it, one level deeper, until the depth bound cuts the walk off.
pub fn list_tree(node: &FsTree, depth: usize, out: &mut Vec<ListedEntry>)
    ensures
        final(out).deep_view() == old(out).deep_view() + spec_listing(
            node.children@,
            depth as nat,
        ),
    decreases *node,
{
    if depth > MAX_LIST_DEPTH {
        proof {
            assert(final(out).deep_view() =~= old(out).deep_view() + spec_listing(
                node.children@,
                depth as nat,
            ));
        }
        return ;
    }
    let ghost base = out.deep_view();
    let mut i: usize = 0;
    while i < node.children.len()
        invariant
            i <= node.children@.len(),
            depth as nat <= MAX_LIST_DEPTH as nat,
            out.deep_view() == base + spec_listing(
                node.children@.subrange(0, i as int),
                depth as nat,
            ),
        decreases node.children@.len() - i,
    {
        let ghost prefix = node.children@.subrange(0, i as int);
        let child = &node.children[i];
        out.push(ListedEntry { name: child.name.clone(), depth });
        proof {
            assert(out.deep_view() =~= base + spec_listing(prefix, depth as nat) + seq![
                (child.name@, depth as nat),
            ]);
        }
        if child.is_dir {
            proof {
                assert(decreases_to!(*node => *child));
            }
            list_tree(child, depth + 1, out);
        }
        proof {
            let next_prefix = node.children@.subrange(0, i as int + 1);
            assert(next_prefix.subrange(0, next_prefix.len() - 1) =~= prefix);
            assert(next_prefix.last() == node.children@[i as int]);
            assert(spec_listing(next_prefix, depth as nat) == spec_listing(prefix, depth as nat)
                + seq![(child.name@, depth as nat)] + (if child.is_dir {
                spec_listing(child.children@, depth as nat + 1)
            } else {
                Seq::<(Seq<char>, nat)>::empty()
            }));
            assert(out.deep_view() =~= base + spec_listing(next_prefix, depth as nat));
        }
        i += 1;
    }
    proof {
        assert(node.children@.subrange(0, node.children@.len() as int) =~= node.children@);
    }
}

/// Law: the bounded walk never records an entry past the fixed bound —
/// every recorded entry lies at a nesting level between the level the walk
/// started at and `MAX_LIST_DEPTH`, however deep the tree itself goes.
pub proof fn lemma_listing_depth_bounded(nodes: Seq<FsTree>, depth: nat)
    ensures
        forall|k: int|
            0 <= k < spec_listing(nodes, depth).len() ==> depth <= (
            #[trigger] spec_listing(nodes, depth)[k]).1 <= MAX_LIST_DEPTH as nat,
    decreases nodes,
{
    if depth > MAX_LIST_DEPTH as nat || nodes.len() == 0 {
    } else {
        let last = nodes.last();
        let prefix = nodes.subrange(0, nodes.len() - 1);
        let before = spec_listing(prefix, depth);
        let below = if last.is_dir {
            spec_listing(last.children@, depth + 1)
        } else {
            Seq::<(Seq<char>, nat)>::empty()
        };
        lemma_listing_depth_bounded(prefix, depth);
        if last.is_dir {
            lemma_listing_depth_bounded(last.children@, depth + 1);
        }
        assert(spec_listing(nodes, depth) == before + seq![(last.name@, depth)] + below);
        assert forall|k: int| 0 <= k < spec_listing(nodes, depth).len() implies depth <= (
        #[trigger] spec_listing(nodes, depth)[k]).1 <= MAX_LIST_DEPTH as nat by {
            if k < before.len() {
                assert(spec_listing(nodes, depth)[k] == before[k]);
            } else if k == before.len() {
                assert(spec_listing(nodes, depth)[k] == (last.name@, depth));
            } else {
                assert(spec_listing(nodes, depth)[k] == below[k - before.len() - 1]);
            }
        }
    }
}

} // verus!
