//! Requirements: edges of a knowledge graph, from a topic to a topic that
//! needs it.

use vstd::prelude::*;

verus! {

/// A requirement of graph `knowledge_graph_id`: `source` must be known before
/// `destination`. `id` is absent until the database assigns one.
#[derive(Debug, PartialEq, Eq, Structural)]
pub struct Requirement {
    pub source: i64,
    pub destination: i64,
    pub knowledge_graph_id: u128,
    pub id: Option<i64>,
}

impl Clone for Requirement {
    fn clone(&self) -> (r: Self)
        ensures
            r == *self,
    {
        Requirement {
            source: self.source,
            destination: self.destination,
            knowledge_graph_id: self.knowledge_graph_id,
            id: self.id,
        }
    }
}

/// The edges of `reqs` as `(source, destination)` pairs, in order.
pub open spec fn edge_pairs(reqs: Seq<Requirement>) -> Seq<(i64, i64)> {
    reqs.map_values(|r: Requirement| (r.source, r.destination))
}

impl Requirement {
    /// The `(source, destination)` pair of each requirement, in order.
    pub fn pairs(reqs: &Vec<Requirement>) -> (r: Vec<(i64, i64)>)
        ensures
            r@ == edge_pairs(reqs@),
            r.len() == reqs.len(),
            forall|k: int|
                0 <= k < reqs.len() ==> #[trigger] r@[k].0 == reqs@[k].source && r@[k].1 == reqs@[k].destination,
    {
        let mut out: Vec<(i64, i64)> = Vec::new();
        for i in 0..reqs.len()
            invariant
                out@ == edge_pairs(reqs@.take(i as int)),
        {
            out.push((reqs[i].source, reqs[i].destination));
            assert(reqs@.take(i + 1) =~= reqs@.take(i as int).push(reqs@[i as int]));
        }
        assert(reqs@.take(reqs.len() as int) =~= reqs@);
        proof {
            lemma_edge_pairs(reqs@);
        }
        out
    }
}

/// A requirement is shown as the pair of its source and its destination, in
/// that order, one pair per requirement in the same order.
pub proof fn lemma_edge_pairs(reqs: Seq<Requirement>)
    ensures
        edge_pairs(reqs).len() == reqs.len(),
        forall|k: int|
            0 <= k < reqs.len() ==> #[trigger] edge_pairs(reqs)[k].0 == reqs[k].source && edge_pairs(reqs)[k].1
                == reqs[k].destination,
{
}

} // verus!
