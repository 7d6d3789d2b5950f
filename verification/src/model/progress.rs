//! Progress: the topics of a graph that a user has marked as learnt.

use vstd::prelude::*;

verus! {

/// User `user_id` has learnt topic `topic` of graph `knowledge_graph_id`.
#[derive(Debug, PartialEq, Eq, Structural, Clone, Copy)]
pub struct Progress {
    pub user_id: i64,
    pub knowledge_graph_id: u128,
    pub topic: i64,
}

/// The topics of the progress records `ps`, in order.
pub open spec fn progress_topics(ps: Seq<Progress>) -> Seq<i64> {
    ps.map_values(|p: Progress| p.topic)
}

impl Progress {
    /// The topic of each progress record, in order.
    pub fn topics(ps: &Vec<Progress>) -> (r: Vec<i64>)
        ensures
            r@ == progress_topics(ps@),
            r.len() == ps.len(),
            forall|k: int| 0 <= k < ps.len() ==> #[trigger] r@[k] == ps@[k].topic,
    {
        let mut out: Vec<i64> = Vec::new();
        for i in 0..ps.len()
            invariant
                out@ == progress_topics(ps@.take(i as int)),
        {
            out.push(ps[i].topic);
            assert(ps@.take(i + 1) =~= ps@.take(i as int).push(ps@[i as int]));
        }
        assert(ps@.take(ps.len() as int) =~= ps@);
        proof {
            lemma_progress_topics(ps@);
        }
        out
    }
}

/// The progress shown is the topic of each progress record, one per record, in
/// the same order.
pub proof fn lemma_progress_topics(ps: Seq<Progress>)
    ensures
        progress_topics(ps).len() == ps.len(),
        forall|k: int| 0 <= k < ps.len() ==> #[trigger] progress_topics(ps)[k] == ps[k].topic,
{
}

} // verus!
