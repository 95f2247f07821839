use vstd::prelude::*;

verus! {

/// `i` is the winning bid among `costs`: it is a bid, no bid is cheaper, and
/// every bid before it is dearer, so the first of equal bids wins.
pub open spec fn is_cheapest(costs: Seq<Option<u32>>, i: int) -> bool {
    &&& 0 <= i < costs.len()
    &&& costs[i] is Some
    &&& forall|j: int| 0 <= j < costs.len() && costs[j] is Some
        ==> costs[i]->Some_0 <= costs[j]->Some_0
    &&& forall|j: int| 0 <= j < i && costs[j] is Some
        ==> costs[i]->Some_0 < costs[j]->Some_0
}

/// Some entry of `costs` is a bid.
pub open spec fn has_bid(costs: Seq<Option<u32>>) -> bool {
    exists|j: int| 0 <= j < costs.len() && costs[j] is Some
}

/// The winning index among the first `n` entries of `costs`, if any bids.
pub open spec fn cheapest_prefix(costs: Seq<Option<u32>>, n: nat) -> Option<int>
    decreases n,
{
    if n == 0 {
        None
    } else {
        let best = cheapest_prefix(costs, (n - 1) as nat);
        let k = n - 1;
        match costs[k] {
            None => best,
            Some(c) => match best {
                Some(b) if costs[b]->Some_0 <= c => Some(b),
                _ => Some(k),
            },
        }
    }
}

/// The index of the winning bid, or `None` where nothing was bid.
pub open spec fn cheapest(costs: Seq<Option<u32>>) -> Option<int> {
    cheapest_prefix(costs, costs.len())
}

proof fn lemma_cheapest_prefix(costs: Seq<Option<u32>>, n: nat)
    requires
        n <= costs.len(),
    ensures
        cheapest_prefix(costs, n) is None <==> !has_bid(costs.subrange(0, n as int)),
        cheapest_prefix(costs, n) matches Some(i) ==> is_cheapest(costs.subrange(0, n as int), i),
    decreases n,
{
    let pre = costs.subrange(0, n as int);
    if n > 0 {
        let k = n - 1;
        lemma_cheapest_prefix(costs, k as nat);
        let short = costs.subrange(0, k as int);
        assert forall|j: int| 0 <= j < k implies pre[j] == short[j] by {}
        assert(pre[k as int] == costs[k as int]);
        if has_bid(pre) {
            let j = choose|j: int| 0 <= j < pre.len() && pre[j] is Some;
            if j < k {
                assert(short[j] is Some);
            }
        }
        if let Some(b) = cheapest_prefix(costs, k as nat) {
            assert(short[b] is Some);
            assert(pre[b] is Some);
        }
    }
}

/// Every index that meets `is_cheapest` is the one that `cheapest` names.
pub proof fn lemma_cheapest_unique(costs: Seq<Option<u32>>, i: int)
    requires
        is_cheapest(costs, i),
    ensures
        cheapest(costs) == Some(i),
{
    lemma_cheapest_spec(costs);
    let k = cheapest(costs)->Some_0;
    if k < i {
        assert(costs[i]->Some_0 < costs[k]->Some_0);
    } else if i < k {
        assert(costs[k]->Some_0 < costs[i]->Some_0);
    }
}

/// `cheapest` picks a winning bid, and is `None` exactly where no entry bids.
pub proof fn lemma_cheapest_spec(costs: Seq<Option<u32>>)
    ensures
        cheapest(costs) is None <==> !has_bid(costs),
        cheapest(costs) matches Some(i) ==> is_cheapest(costs, i),
{
    lemma_cheapest_prefix(costs, costs.len());
    assert(costs.subrange(0, costs.len() as int) =~= costs);
}

/// The index of the cheapest bid in `costs`, the first of equal ones, or
/// `None` where no entry bids.
pub fn select_cheapest(costs: &Vec<Option<u32>>) -> (r: Option<usize>)
    ensures
        r is None <==> !has_bid(costs@),
        r matches Some(i) ==> is_cheapest(costs@, i as int),
        r matches Some(i) ==> cheapest(costs@) == Some(i as int),
        r is None ==> cheapest(costs@) is None,
{
    let mut best: Option<usize> = None;
    let mut k: usize = 0;
    while k < costs.len()
        invariant
            k <= costs.len(),
            best matches Some(b) ==> cheapest_prefix(costs@, k as nat) == Some(b as int),
            best is None ==> cheapest_prefix(costs@, k as nat) is None,
        decreases costs.len() - k,
    {
        match costs[k] {
            None => {},
            Some(c) => {
                match best {
                    Some(b) => {
                        proof {
                            lemma_cheapest_prefix(costs@, k as nat);
                        }
                        let cb = costs[b];
                        match cb {
                            Some(x) => {
                                if c < x {
                                    best = Some(k);
                                }
                            },
                            None => {},
                        }
                    },
                    None => {
                        best = Some(k);
                    },
                }
            },
        }
        k = k + 1;
    }
    proof {
        lemma_cheapest_spec(costs@);
    }
    best
}

} // verus!
