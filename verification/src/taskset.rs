//! The core-affinity allocator.
//!
//! Built once per run from the host's CPU topology, the allocator hands out
//! core ids one at a time, in an order fixed by the interleaving policy, and
//! never hands out the same core twice.  When the eligible cores are spent
//! it reports exhaustion instead of repeating or inventing an id.

use vstd::prelude::*;

use crate::errors::ExhaustedError;

verus! {

/// One logical CPU of the remote host.
#[derive(Clone, Copy, Debug, PartialEq, Eq, Structural)]
pub struct CpuInfo {
    /// The logical id, as the kernel numbers it.
    pub id: usize,
    /// The NUMA node the CPU belongs to.
    pub node: usize,
    /// Whether this is the first hyperthread of its physical core.
    pub primary: bool,
}

/// How the allocator walks the topology.
#[derive(Clone, Copy, Debug, PartialEq, Eq, Structural)]
pub enum Interleaving {
    /// Node by node, ascending; within a node in the given order.
    Sequential,
    /// In the given order, ignoring nodes.
    Simple,
}

/// Whether the elements of `s` are pairwise distinct.
pub open spec fn distinct_seq<A>(s: Seq<A>) -> bool {
    forall|i: int, j: int| 0 <= i < j < s.len() ==> s[i] != s[j]
}

/// Whether the CPUs of `s` carry pairwise distinct ids.
pub open spec fn distinct_ids(s: Seq<CpuInfo>) -> bool {
    forall|i: int, j: int| 0 <= i < j < s.len() ==> s[i].id != s[j].id
}

/// Whether the policy may hand out `c`.
pub open spec fn spec_eligible(c: CpuInfo, skip_hyperthreads: bool) -> bool {
    !skip_hyperthreads || c.primary
}

/// The ids of a CPU list, in order.
pub open spec fn ids_of(s: Seq<CpuInfo>) -> Seq<usize> {
    s.map_values(|c: CpuInfo| c.id)
}

/// The eligible CPUs of node `n`, in the given order.
pub open spec fn node_cpus(s: Seq<CpuInfo>, skip_hyperthreads: bool, n: int) -> Seq<CpuInfo> {
    s.filter(|c: CpuInfo| spec_eligible(c, skip_hyperthreads) && c.node == n)
}

/// The largest node number of `s`, or `-1` when `s` is empty.
pub open spec fn max_node(s: Seq<CpuInfo>) -> int
    decreases s.len(),
{
    if s.len() == 0 {
        -1
    } else if s.last().node > max_node(s.drop_last()) {
        s.last().node as int
    } else {
        max_node(s.drop_last())
    }
}

/// The eligible core ids of every node below `bound`, node by node.
pub open spec fn order_up_to(s: Seq<CpuInfo>, skip_hyperthreads: bool, bound: int) -> Seq<usize>
    decreases bound,
{
    if bound <= 0 {
        Seq::empty()
    } else {
        order_up_to(s, skip_hyperthreads, bound - 1) + ids_of(
            node_cpus(s, skip_hyperthreads, bound - 1),
        )
    }
}

/// The order in which the allocator hands out cores.
pub open spec fn policy_order(
    s: Seq<CpuInfo>,
    interleaving: Interleaving,
    skip_hyperthreads: bool,
) -> Seq<usize> {
    match interleaving {
        Interleaving::Sequential => order_up_to(s, skip_hyperthreads, max_node(s) + 1),
        Interleaving::Simple => ids_of(s.filter(|c: CpuInfo| spec_eligible(c, skip_hyperthreads))),
    }
}

/// A non-empty CPU list has a CPU carrying the largest node number.
proof fn lemma_max_node_source(s: Seq<CpuInfo>)
    ensures
        s.len() > 0 ==> exists|i: int| 0 <= i < s.len() && (#[trigger] s[i]).node == max_node(s),
    decreases s.len(),
{
    if s.len() > 0 {
        let d = s.drop_last();
        lemma_max_node_source(d);
        if s.last().node > max_node(d) {
            assert(s[s.len() - 1].node == max_node(s));
        } else {
            let i = choose|i: int| 0 <= i < d.len() && (#[trigger] d[i]).node == max_node(d);
            assert(s[i].node == max_node(s));
        }
    }
}

/// Every element a filter keeps stands somewhere in the source.
proof fn lemma_filter_source(s: Seq<CpuInfo>, pred: spec_fn(CpuInfo) -> bool, i: int)
    requires
        0 <= i < s.filter(pred).len(),
    ensures
        exists|m: int| 0 <= m < s.len() && s[m] == s.filter(pred)[i],
    decreases s.len(),
{
    reveal_with_fuel(Seq::<_>::filter, 2);
    if s.len() > 0 {
        let d = s.drop_last();
        if pred(s.last()) {
            if i < d.filter(pred).len() {
                lemma_filter_source(d, pred, i);
                let m = choose|m: int| 0 <= m < d.len() && d[m] == d.filter(pred)[i];
                assert(s[m] == s.filter(pred)[i]);
            } else {
                assert(s[s.len() - 1] == s.filter(pred)[i]);
            }
        } else {
            lemma_filter_source(d, pred, i);
            let m = choose|m: int| 0 <= m < d.len() && d[m] == d.filter(pred)[i];
            assert(s[m] == s.filter(pred)[i]);
        }
    }
}

/// Filtering keeps ids pairwise distinct.
proof fn lemma_filter_distinct_ids(s: Seq<CpuInfo>, pred: spec_fn(CpuInfo) -> bool)
    requires
        distinct_ids(s),
    ensures
        distinct_ids(s.filter(pred)),
    decreases s.len(),
{
    reveal_with_fuel(Seq::<_>::filter, 2);
    if s.len() > 0 {
        let d = s.drop_last();
        assert(distinct_ids(d)) by {
            assert forall|i: int, j: int| 0 <= i < j < d.len() implies d[i].id != d[j].id by {
                assert(s[i].id != s[j].id);
            }
        }
        lemma_filter_distinct_ids(d, pred);
        if pred(s.last()) {
            assert forall|i: int, j: int|
                0 <= i < j < s.filter(pred).len() implies s.filter(pred)[i].id != s.filter(
                pred,
            )[j].id by {
                if j < d.filter(pred).len() {
                } else {
                    assert(s.filter(pred)[j] == s.last());
                    lemma_filter_source(d, pred, i);
                    let m = choose|m: int| 0 <= m < d.len() && d[m] == d.filter(pred)[i];
                    assert(s[m].id != s[s.len() - 1].id);
                }
            }
        }
    }
}

/// Whether some CPU of `s` carries `id` on a node below `bound`.
pub open spec fn id_on_node_below(s: Seq<CpuInfo>, id: usize, bound: int) -> bool {
    exists|m: int| 0 <= m < s.len() && (#[trigger] s[m]).id == id && s[m].node < bound
}

/// Whether some CPU of `s` carries `id` on node `n`.
pub open spec fn id_on_node(s: Seq<CpuInfo>, id: usize, n: int) -> bool {
    exists|m: int| 0 <= m < s.len() && (#[trigger] s[m]).id == id && s[m].node == n
}

/// Distinctness and node bounds of the node-by-node order.
#[verifier::rlimit(60)]
proof fn lemma_order_up_to_distinct(s: Seq<CpuInfo>, skip_hyperthreads: bool, bound: int)
    requires
        distinct_ids(s),
    ensures
        distinct_seq(order_up_to(s, skip_hyperthreads, bound)),
        forall|i: int|
            #![trigger order_up_to(s, skip_hyperthreads, bound)[i]]
            0 <= i < order_up_to(s, skip_hyperthreads, bound).len() ==> id_on_node_below(
                s,
                order_up_to(s, skip_hyperthreads, bound)[i],
                bound,
            ),
    decreases bound,
{
    broadcast use vstd::prelude::Seq::lemma_filter_pred;

    if bound > 0 {
        lemma_order_up_to_distinct(s, skip_hyperthreads, bound - 1);
        let a = order_up_to(s, skip_hyperthreads, bound - 1);
        let b = ids_of(node_cpus(s, skip_hyperthreads, bound - 1));
        let nc = node_cpus(s, skip_hyperthreads, bound - 1);
        lemma_filter_distinct_ids(
            s,
            |c: CpuInfo| spec_eligible(c, skip_hyperthreads) && c.node == bound - 1,
        );
        // Each id of this node's slice comes from a CPU of this node.
        assert forall|j: int| #![trigger b[j]] 0 <= j < b.len() implies id_on_node(
            s,
            b[j],
            bound - 1,
        ) by {
            lemma_filter_source(
                s,
                |c: CpuInfo| spec_eligible(c, skip_hyperthreads) && c.node == bound - 1,
                j,
            );
            let m = choose|m: int| 0 <= m < s.len() && s[m] == nc[j];
            assert(nc[j].node == bound - 1);
            assert(b[j] == nc[j].id);
            assert(s[m].id == b[j] && s[m].node == bound - 1);
        }
        // The slice itself is duplicate-free.
        assert(distinct_seq(b)) by {
            assert forall|i: int, j: int| 0 <= i < j < b.len() implies b[i] != b[j] by {
                assert(b[i] == nc[i].id && b[j] == nc[j].id);
            }
        }
        // Ids never repeat across nodes: a repeated id would be one CPU on
        // two different nodes.
        let whole = order_up_to(s, skip_hyperthreads, bound);
        assert(whole == a + b);
        assert forall|i: int, j: int| 0 <= i < j < whole.len() implies whole[i] != whole[j] by {
            if i < a.len() && j >= a.len() {
                assert(whole[i] == a[i] && whole[j] == b[j - a.len()]);
                if whole[i] == whole[j] {
                    assert(id_on_node_below(s, a[i], bound - 1));
                    assert(id_on_node(s, b[j - a.len()], bound - 1));
                    let m1 = choose|m: int|
                        0 <= m < s.len() && (#[trigger] s[m]).id == a[i] && s[m].node < bound - 1;
                    let m2 = choose|m: int|
                        0 <= m < s.len() && (#[trigger] s[m]).id == b[j - a.len()] && s[m].node
                            == bound - 1;
                    assert(m1 != m2);
                    assert(s[m1].id != s[m2].id);
                }
            } else if j < a.len() {
                assert(whole[i] == a[i] && whole[j] == a[j]);
            } else {
                assert(whole[i] == b[i - a.len()] && whole[j] == b[j - a.len()]);
            }
        }
        assert forall|i: int|
            #![trigger order_up_to(s, skip_hyperthreads, bound)[i]]
            0 <= i < order_up_to(s, skip_hyperthreads, bound).len() implies id_on_node_below(
            s,
            order_up_to(s, skip_hyperthreads, bound)[i],
            bound,
        ) by {
            if i < a.len() {
                assert(id_on_node_below(s, a[i], bound - 1));
                let m = choose|m: int|
                    0 <= m < s.len() && (#[trigger] s[m]).id == a[i] && s[m].node < bound - 1;
                assert(s[m].id == whole[i] && s[m].node < bound);
            } else {
                assert(id_on_node(s, b[i - a.len()], bound - 1));
                let m = choose|m: int|
                    0 <= m < s.len() && (#[trigger] s[m]).id == b[i - a.len()] && s[m].node == bound
                        - 1;
                assert(s[m].id == whole[i] && s[m].node < bound);
            }
        }
    } else {
        assert(order_up_to(s, skip_hyperthreads, bound) =~= Seq::<usize>::empty());
    }
}

/// The policy order never repeats a core id.
pub proof fn lemma_policy_order_distinct(
    s: Seq<CpuInfo>,
    interleaving: Interleaving,
    skip_hyperthreads: bool,
)
    requires
        distinct_ids(s),
    ensures
        distinct_seq(policy_order(s, interleaving, skip_hyperthreads)),
{
    match interleaving {
        Interleaving::Sequential => {
            lemma_order_up_to_distinct(s, skip_hyperthreads, max_node(s) + 1);
        },
        Interleaving::Simple => {
            let pred = |c: CpuInfo| spec_eligible(c, skip_hyperthreads);
            lemma_filter_distinct_ids(s, pred);
            let b = ids_of(s.filter(pred));
            assert forall|i: int, j: int| 0 <= i < j < b.len() implies b[i] != b[j] by {
                assert(b[i] == s.filter(pred)[i].id && b[j] == s.filter(pred)[j].id);
            }
        },
    }
}

/// The allocator: the eligible cores in policy order, and how many have
/// been handed out.
pub struct TasksetCtx {
    order: Vec<usize>,
    pos: usize,
}

impl TasksetCtx {
    /// The cores the allocator may hand out, in order.
    pub closed spec fn cores(self) -> Seq<usize> {
        self.order@
    }

    /// How many cores have been handed out.
    pub closed spec fn next_idx(self) -> int {
        self.pos as int
    }

    #[verifier::type_invariant]
    closed spec fn wf(self) -> bool {
        &&& self.pos <= self.order@.len()
        &&& distinct_seq(self.order@)
    }

    /// An allocator over cores `0` to `n - 1`, in that order.
    pub fn simple(n: usize) -> (r: TasksetCtx)
        ensures
            r.cores() == Seq::new(n as nat, |i: int| i as usize),
            r.next_idx() == 0,
            distinct_seq(r.cores()),
    {
        let mut order: Vec<usize> = Vec::new();
        let mut i: usize = 0;
        while i < n
            invariant
                0 <= i <= n,
                order@ =~= Seq::new(i as nat, |k: int| k as usize),
            decreases n - i,
        {
            order.push(i);
            proof {
                assert(order@ =~= Seq::new(i as nat + 1, |k: int| k as usize));
            }
            i = i + 1;
        }
        proof {
            assert(distinct_seq(order@));
        }
        TasksetCtx { order, pos: 0 }
    }

    /// An allocator over the given topology, honoring the interleaving
    /// policy and the hyperthread-skip rule.
    #[verifier::loop_isolation(false)]
    #[verifier::rlimit(60)]
    pub fn from_topology(
        cpus: &Vec<CpuInfo>,
        interleaving: Interleaving,
        skip_hyperthreads: bool,
    ) -> (r: TasksetCtx)
        requires
            distinct_ids(cpus@),
            forall|i: int| 0 <= i < cpus@.len() ==> (#[trigger] cpus@[i]).node < usize::MAX,
        ensures
            r.cores() == policy_order(cpus@, interleaving, skip_hyperthreads),
            r.next_idx() == 0,
            distinct_seq(r.cores()),
    {
        let mut order: Vec<usize> = Vec::new();
        match interleaving {
            Interleaving::Simple => {
                let mut m: usize = 0;
                while m < cpus.len()
                    invariant
                        0 <= m <= cpus@.len(),
                        order@ == ids_of(
                            cpus@.take(m as int).filter(
                                |c: CpuInfo| spec_eligible(c, skip_hyperthreads),
                            ),
                        ),
                    decreases cpus@.len() - m,
                {
                    let c = cpus[m];
                    let ghost prev = order@;
                    if !skip_hyperthreads || c.primary {
                        order.push(c.id);
                    }
                    proof {
                        broadcast use vstd::prelude::Seq::lemma_filter_push;

                        assert(cpus@.take(m as int + 1) =~= cpus@.take(m as int).push(
                            cpus@[m as int],
                        ));
                        assert(order@ =~= ids_of(
                            cpus@.take(m as int + 1).filter(
                                |c: CpuInfo| spec_eligible(c, skip_hyperthreads),
                            ),
                        ));
                    }
                    m = m + 1;
                }
                proof {
                    assert(cpus@.take(cpus@.len() as int) =~= cpus@);
                }
            },
            Interleaving::Sequential => {
                // The largest node number present.
                let mut maxn: usize = 0;
                let mut any: bool = false;
                let mut m: usize = 0;
                while m < cpus.len()
                    invariant
                        0 <= m <= cpus@.len(),
                        any <==> m > 0,
                        any ==> maxn as int == max_node(cpus@.take(m as int)),
                    decreases cpus@.len() - m,
                {
                    let c = cpus[m];
                    proof {
                        assert(cpus@.take(m as int + 1).drop_last() =~= cpus@.take(m as int));
                        assert(cpus@.take(m as int + 1).last() == cpus@[m as int]);
                        if m == 0 {
                            assert(cpus@.take(0).len() == 0);
                            assert(max_node(cpus@.take(0)) == -1);
                        }
                        assert(max_node(cpus@.take(m as int + 1)) == if cpus@[m as int].node
                            > max_node(cpus@.take(m as int)) {
                            cpus@[m as int].node as int
                        } else {
                            max_node(cpus@.take(m as int))
                        });
                    }
                    if !any || c.node > maxn {
                        maxn = c.node;
                    }
                    any = true;
                    m = m + 1;
                }
                proof {
                    assert(cpus@.take(cpus@.len() as int) =~= cpus@);
                }
                if !any {
                    proof {
                        assert(order@ =~= order_up_to(
                            cpus@,
                            skip_hyperthreads,
                            max_node(cpus@) + 1,
                        ));
                    }
                } else {
                    // Some CPU carries `maxn`, so `maxn + 1` fits the word.
                    proof {
                        lemma_max_node_source(cpus@);
                    }
                    let bound: usize = maxn + 1;
                    // Walk the nodes in ascending order.
                    let mut n: usize = 0;
                    while n < bound
                        invariant
                            0 <= n <= bound,
                            bound == max_node(cpus@) + 1,
                            order@ == order_up_to(cpus@, skip_hyperthreads, n as int),
                        decreases bound - n,
                    {
                        let mut m: usize = 0;
                        while m < cpus.len()
                            invariant
                                0 <= m <= cpus@.len(),
                                order@ == order_up_to(cpus@, skip_hyperthreads, n as int) + ids_of(
                                    cpus@.take(m as int).filter(
                                        |c: CpuInfo|
                                            spec_eligible(c, skip_hyperthreads) && c.node
                                                == n as int,
                                    ),
                                ),
                            decreases cpus@.len() - m,
                        {
                            let c = cpus[m];
                            if (!skip_hyperthreads || c.primary) && c.node == n {
                                order.push(c.id);
                            }
                            proof {
                                broadcast use vstd::prelude::Seq::lemma_filter_push;

                                assert(cpus@.take(m as int + 1) =~= cpus@.take(m as int).push(
                                    cpus@[m as int],
                                ));
                                assert(order@ =~= order_up_to(cpus@, skip_hyperthreads, n as int)
                                    + ids_of(
                                    cpus@.take(m as int + 1).filter(
                                        |c: CpuInfo|
                                            spec_eligible(c, skip_hyperthreads) && c.node
                                                == n as int,
                                    ),
                                ));
                            }
                            m = m + 1;
                        }
                        proof {
                            assert(cpus@.take(cpus@.len() as int) =~= cpus@);
                            assert(order@ =~= order_up_to(
                                cpus@,
                                skip_hyperthreads,
                                n as int + 1,
                            ));
                        }
                        n = n + 1;
                    }
                }
            },
        }
        proof {
            lemma_policy_order_distinct(cpus@, interleaving, skip_hyperthreads);
        }
        TasksetCtx { order, pos: 0 }
    }

    /// Hand out the next unused core, or report exhaustion; a core is never
    /// handed out twice.
    pub fn next(&mut self) -> (r: Result<usize, ExhaustedError>)
        ensures
            r is Ok <==> old(self).next_idx() < old(self).cores().len(),
            final(self).cores() == old(self).cores(),
            r is Ok ==> r->Ok_0 == old(self).cores()[old(self).next_idx()]
                && final(self).next_idx() == old(self).next_idx() + 1,
            r is Err ==> final(self).next_idx() == old(self).next_idx(),
    {
        proof {
            use_type_invariant(&*self);
        }
        if self.pos < self.order.len() {
            let c = self.order[self.pos];
            self.pos = self.pos + 1;
            Ok(c)
        } else {
            Err(ExhaustedError)
        }
    }

    /// Hand out the next `n` cores at once, or report exhaustion.
    pub fn take_cores(&mut self, n: usize) -> (r: Result<Vec<usize>, ExhaustedError>)
        ensures
            r is Ok <==> old(self).next_idx() + n <= old(self).cores().len(),
            final(self).cores() == old(self).cores(),
            r is Ok ==> r->Ok_0@ == old(self).cores().subrange(
                old(self).next_idx(),
                old(self).next_idx() + n,
            ) && final(self).next_idx() == old(self).next_idx() + n,
    {
        proof {
            use_type_invariant(&*self);
        }
        let mut out: Vec<usize> = Vec::new();
        let mut i: usize = 0;
        while i < n
            invariant
                0 <= i <= n,
                self.cores() == old(self).cores(),
                self.next_idx() == old(self).next_idx() + i,
                old(self).next_idx() + i <= old(self).cores().len(),
                out@ =~= old(self).cores().subrange(
                    old(self).next_idx(),
                    old(self).next_idx() + i,
                ),
            decreases n - i,
        {
            match self.next() {
                Ok(c) => {
                    out.push(c);
                    proof {
                        assert(out@ =~= old(self).cores().subrange(
                            old(self).next_idx(),
                            old(self).next_idx() + i + 1,
                        ));
                    }
                },
                Err(e) => {
                    return Err(e);
                },
            }
            i = i + 1;
        }
        Ok(out)
    }

}

/// Draws at two different positions of one duplicate-free order are two
/// different cores: the allocator never hands out the same core twice.
pub proof fn lemma_draws_distinct(cores: Seq<usize>, i: int, j: int)
    requires
        distinct_seq(cores),
        0 <= i < cores.len(),
        0 <= j < cores.len(),
        i != j,
    ensures
        cores[i] != cores[j],
{
}

} // verus!
