//! The query engine's selection rule: of the top-level nodes of a document,
//! only those carrying a non-empty identifier are reported, in document
//! order. Bounding-box coordinates arrive in thousandths of a pixel, as
//! computed at the host boundary, and pass through unchanged.

use vstd::prelude::*;

verus! {

/// One reported node: its identifier and its stroke-inclusive bounding box,
/// with each coordinate in thousandths of a pixel.
#[derive(Clone, PartialEq, Eq, Debug)]
pub struct QueryNode {
    pub id: String,
    pub x_milli: i64,
    pub y_milli: i64,
    pub width_milli: i64,
    pub height_milli: i64,
}

/// Whether a node is reported: only nodes with a non-empty identifier are.
pub open spec fn reported(n: QueryNode) -> bool {
    n.id@.len() > 0
}

/// An exact copy of a node.
fn duplicate_node(n: &QueryNode) -> (r: QueryNode)
    ensures
        r == *n,
{
    QueryNode {
        id: n.id.clone(),
        x_milli: n.x_milli,
        y_milli: n.y_milli,
        width_milli: n.width_milli,
        height_milli: n.height_milli,
    }
}

/// Keeps exactly the nodes with a non-empty identifier, in their given
/// order: the query result for the top-level nodes of a document.
pub fn filter_identified(nodes: &Vec<QueryNode>) -> (r: Vec<QueryNode>)
    ensures
        r@ == nodes@.filter(|n: QueryNode| reported(n)),
{
    let mut out: Vec<QueryNode> = Vec::new();
    let mut i: usize = 0;
    proof {
        assert(nodes@.take(0int).filter(|n: QueryNode| reported(n)) =~= Seq::<QueryNode>::empty())
            by {
            reveal(Seq::filter);
        }
    }
    while i < nodes.len()
        invariant
            i <= nodes@.len(),
            out@ == nodes@.take(i as int).filter(|n: QueryNode| reported(n)),
        decreases nodes@.len() - i,
    {
        proof {
            let pred = |n: QueryNode| reported(n);
            assert(nodes@.take(i + 1int) =~= nodes@.take(i as int).push(nodes@[i as int]));
            nodes@.take(i as int).lemma_filter_push(nodes@[i as int], pred);
            assert(nodes@.take(i as int).push(nodes@[i as int]).filter(pred) == if pred(
                nodes@[i as int],
            ) {
                nodes@.take(i as int).filter(pred).push(nodes@[i as int])
            } else {
                nodes@.take(i as int).filter(pred)
            });
        }
        let n = &nodes[i];
        if !n.id.as_str().is_empty() {
            out.push(duplicate_node(n));
        }
        i = i + 1;
    }
    proof {
        assert(nodes@.take(nodes@.len() as int) =~= nodes@);
    }
    out
}

} // verus!
