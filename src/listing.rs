use vstd::prelude::*;

verus! {

/// Places one more index into an order that runs from the largest key down;
/// it goes after every index whose key is not smaller, so equal keys keep the
/// order of insertion.
pub open spec fn insert_desc(order: Seq<usize>, keys: Seq<i64>, x: usize) -> Seq<usize>
    decreases order.len(),
{
    if order.len() == 0 {
        seq![x]
    } else if keys[order[0] as int] < keys[x as int] {
        seq![x] + order
    } else {
        seq![order[0]] + insert_desc(order.drop_first(), keys, x)
    }
}

/// The indices `0..n`, ordered by key from the largest down, ties in index
/// order.
pub open spec fn desc_order(keys: Seq<i64>, n: nat) -> Seq<usize>
    decreases n,
{
    if n == 0 {
        Seq::empty()
    } else {
        insert_desc(desc_order(keys, (n - 1) as nat), keys, (n - 1) as usize)
    }
}

proof fn lemma_insert_at(order: Seq<usize>, keys: Seq<i64>, x: usize, p: int)
    requires
        0 <= p <= order.len(),
        forall|j: int| 0 <= j < p ==> !(keys[order[j] as int] < keys[x as int]),
        p < order.len() ==> keys[order[p] as int] < keys[x as int],
    ensures
        insert_desc(order, keys, x) == order.insert(p, x),
    decreases order.len(),
{
    if order.len() == 0 {
        assert(order.insert(p, x) =~= seq![x]);
    } else if p == 0 {
        assert(order.insert(p, x) =~= seq![x] + order);
    } else {
        let rest = order.drop_first();
        assert forall|j: int| 0 <= j < p - 1 implies !(keys[rest[j] as int] < keys[x as int]) by {
            assert(rest[j] == order[j + 1]);
        }
        lemma_insert_at(rest, keys, x, p - 1);
        assert(order.insert(p, x) =~= seq![order[0]] + rest.insert(p - 1, x));
    }
}

/// The indices of `keys`, ordered by key from the largest down, ties in index
/// order.
pub fn order_desc(keys: &Vec<i64>) -> (r: Vec<usize>)
    ensures
        r@ == desc_order(keys@, keys@.len()),
{
    let mut out: Vec<usize> = Vec::new();
    let mut i: usize = 0;
    while i < keys.len()
        invariant
            i <= keys@.len(),
            out@ == desc_order(keys@, i as nat),
            out@.len() == i,
        decreases keys@.len() - i,
    {
        proof {
            lemma_desc_order_len(keys@, i as nat);
        }
        let mut p: usize = 0;
        while p < out.len() && !(keys[out[p]] < keys[i])
            invariant
                p <= out@.len(),
                out@.len() == i,
                i < keys@.len(),
                forall|j: int| 0 <= j < out@.len() ==> out@[j] < i,
                forall|j: int| 0 <= j < p ==> !(keys@[out@[j] as int] < keys@[i as int]),
            decreases out@.len() - p,
        {
            p = p + 1;
        }
        proof {
            lemma_insert_at(out@, keys@, i, p as int);
        }
        out.insert(p, i);
        i = i + 1;
    }
    out
}

/// Every index of an order is below `n`, and there are `n` of them.
pub proof fn lemma_desc_order_len(keys: Seq<i64>, n: nat)
    ensures
        desc_order(keys, n).len() == n,
        forall|j: int| 0 <= j < n ==> (#[trigger] desc_order(keys, n)[j]) < n,
    decreases n,
{
    if n > 0 {
        lemma_desc_order_len(keys, (n - 1) as nat);
        lemma_insert_members(desc_order(keys, (n - 1) as nat), keys, (n - 1) as usize, n);
    }
}

proof fn lemma_insert_members(order: Seq<usize>, keys: Seq<i64>, x: usize, n: nat)
    requires
        x < n,
        forall|j: int| 0 <= j < order.len() ==> order[j] < n,
    ensures
        insert_desc(order, keys, x).len() == order.len() + 1,
        forall|j: int|
            0 <= j < order.len() + 1 ==> (#[trigger] insert_desc(order, keys, x)[j]) < n,
    decreases order.len(),
{
    if order.len() > 0 && !(keys[order[0] as int] < keys[x as int]) {
        lemma_insert_members(order.drop_first(), keys, x, n);
        let r = insert_desc(order, keys, x);
        assert forall|j: int| 0 <= j < order.len() + 1 implies r[j] < n by {
            if j > 0 {
                assert(r[j] == insert_desc(order.drop_first(), keys, x)[j - 1]);
            }
        }
    }
}

/// The rows that a page shows, as `[start, end)` over `n` rows: a page size
/// below zero shows every row from the offset on, and an offset below zero
/// counts as zero.
pub open spec fn page_bounds(n: int, page: int, limit: int) -> (int, int) {
    let offset = if (page - 1) * limit < 0 {
        0
    } else {
        (page - 1) * limit
    };
    let start = if offset < n {
        offset
    } else {
        n
    };
    let end = if limit < 0 || start + limit > n {
        n
    } else {
        start + limit
    };
    (start, end)
}

/// The page of `n` rows to show, for a 1-based page number and a page size.
pub fn page_range(n: usize, page: i64, limit: i64) -> (r: (usize, usize))
    ensures
        r.0 as int == page_bounds(n as int, page as int, limit as int).0,
        r.1 as int == page_bounds(n as int, page as int, limit as int).1,
        r.0 <= r.1 <= n,
{
    let p = page as i128 - 1;
    let l = limit as i128;
    assert(-0x4000_0000_0000_0000_8000_0000_0000_0000i128 <= p * l
        <= 0x4000_0000_0000_0000_8000_0000_0000_0000i128) by (nonlinear_arith)
        requires
            -0x8000_0000_0000_0001i128 <= p <= 0x7fff_ffff_ffff_fffei128,
            -0x8000_0000_0000_0000i128 <= l <= 0x7fff_ffff_ffff_ffffi128,
    {
        if p >= 0 && l >= 0 {
            assert(p * l <= 0x8000_0000_0000_0001i128 * l);
        } else if p >= 0 {
            assert(p * l >= p * -0x8000_0000_0000_0000i128);
        } else if l >= 0 {
            assert(p * l >= -0x8000_0000_0000_0001i128 * l);
        } else {
            assert(p * l <= -0x8000_0000_0000_0001i128 * l);
        }
    }
    let prod = p * l;
    let offset: i128 = if prod < 0 {
        0
    } else {
        prod
    };
    let start: usize = if offset < n as i128 {
        offset as usize
    } else {
        n
    };
    let end: usize = if limit < 0 || start as i128 + l > n as i128 {
        n
    } else {
        (start as i128 + l) as usize
    };
    (start, end)
}

} // verus!
