use vstd::prelude::*;

verus! {

/// Number of subintervals of the composite Simpson rule that evaluates the
/// regularized incomplete Beta function.
pub const SIMPSON_INTERVALS: u64 = 1000;

/// Weight of node `i` of the composite Simpson rule over `n` subintervals:
/// 1 at both ends, 4 at odd nodes, 2 at even interior nodes.
pub open spec fn simpson_weight(i: int, n: int) -> int {
    if i == 0 || i == n {
        1
    } else if i % 2 == 1 {
        4
    } else {
        2
    }
}

/// Sum of the weights of nodes `0..k`.
pub open spec fn weight_sum(n: int, k: int) -> int
    decreases k,
{
    if k <= 0 {
        0
    } else {
        weight_sum(n, k - 1) + simpson_weight(k - 1, n)
    }
}

/// The weights of nodes `0..=n` of the composite Simpson rule over `n`
/// subintervals; the integral of `f` over `[0, x]` is approximated by
/// `x / (3 n)` times the weighted sum of `f(x i / n)`.
pub fn simpson_weights(n: u64) -> (r: Vec<u64>)
    requires
        n < u64::MAX,
    ensures
        r@.len() == n + 1,
        forall|i: int| 0 <= i <= n ==> r@[i] == simpson_weight(i, n as int),
{
    let mut v: Vec<u64> = Vec::new();
    let mut i: u64 = 0;
    while i <= n
        invariant
            n < u64::MAX,
            i <= n + 1,
            v@.len() == i,
            forall|j: int| 0 <= j < i ==> v@[j] == simpson_weight(j, n as int),
        decreases n + 1 - i,
    {
        let w: u64 = if i == 0 || i == n {
            1
        } else if i % 2 == 1 {
            4
        } else {
            2
        };
        v.push(w);
        i = i + 1;
    }
    v
}

proof fn lemma_odd_prefix_sum(n: int, m: int)
    requires
        n % 2 == 0,
        0 <= m,
        2 * m < n,
    ensures
        weight_sum(n, 2 * m + 1) == 1 + 6 * m,
    decreases m,
{
    if m > 0 {
        lemma_odd_prefix_sum(n, m - 1);
        assert(weight_sum(n, 2 * m) == weight_sum(n, 2 * m - 1) + simpson_weight(2 * m - 1, n));
        assert(weight_sum(n, 2 * m + 1) == weight_sum(n, 2 * m) + simpson_weight(2 * m, n));
        assert((2 * m - 1) % 2 == 1);
        assert((2 * m) % 2 == 0);
    } else {
        assert(weight_sum(n, 1) == weight_sum(n, 0) + simpson_weight(0, n));
    }
}

/// Over an even number `n` of subintervals the Simpson weights add up to
/// `3 n`, so the rule integrates a constant exactly.
pub proof fn lemma_simpson_weights_sum(n: int)
    requires
        n >= 2,
        n % 2 == 0,
    ensures
        weight_sum(n, n + 1) == 3 * n,
{
    lemma_odd_prefix_sum(n, (n - 2) / 2);
    assert(weight_sum(n, n) == weight_sum(n, n - 1) + simpson_weight(n - 1, n));
    assert(weight_sum(n, n + 1) == weight_sum(n, n) + simpson_weight(n, n));
    assert((n - 1) % 2 == 1);
}

} // verus!
