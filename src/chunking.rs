//! Splitting a list of ids into bulk queries of at most `CHUNK_SIZE` ids,
//! each written as the comma-separated list the bulk endpoint takes.

use vstd::prelude::*;

verus! {

/// The largest number of ids the bulk endpoint takes in one query.
pub const CHUNK_SIZE: usize = 200;

/// The number of chunks `n` ids make: `ceil(n / CHUNK_SIZE)`.
pub open spec fn chunk_count(n: nat) -> nat {
    if n % 200 == 0 {
        n / 200
    } else {
        n / 200 + 1
    }
}

/// The `k`-th chunk of `ids`: positions `200 * k` up to the next multiple of
/// 200, or the end.
pub open spec fn chunk_at<T>(ids: Seq<T>, k: int) -> Seq<T> {
    let lo = 200 * k;
    let hi = if 200 * k + 200 <= ids.len() { 200 * k + 200 } else { ids.len() as int };
    ids.subrange(lo, hi)
}

/// The chunks of `ids`, in order.
pub open spec fn chunks_of<T>(ids: Seq<T>) -> Seq<Seq<T>> {
    Seq::new(chunk_count(ids.len()), |k: int| chunk_at(ids, k))
}

/// The items of `s` separated by commas.
pub open spec fn comma_joined(s: Seq<Seq<char>>) -> Seq<char>
    decreases s.len(),
{
    if s.len() == 0 {
        Seq::empty()
    } else if s.len() == 1 {
        s[0]
    } else {
        comma_joined(s.drop_last()) + ","@ + s.last()
    }
}

/// The texts of a list of strings.
pub open spec fn texts(ids: Seq<String>) -> Seq<Seq<char>> {
    ids.map_values(|s: String| s@)
}

proof fn lemma_chunk_count(n: int, k: int)
    requires
        0 <= k,
        200 * k < n,
    ensures
        n <= 200 * k + 200 ==> chunk_count(n as nat) == k + 1,
        n > 200 * k + 200 ==> chunk_count(n as nat) > k + 1,
{
    let q = n / 200;
    let r = n % 200;
    assert(n == 200 * q + r && 0 <= r < 200) by (nonlinear_arith)
        requires
            q == n / 200,
            r == n % 200,
            n > 0,
    ;
    assert(k <= q) by (nonlinear_arith)
        requires
            n == 200 * q + r,
            0 <= r < 200,
            200 * k < n,
    ;
    if n <= 200 * k + 200 {
        assert(q == k || (q == k + 1 && r == 0)) by (nonlinear_arith)
            requires
                n == 200 * q + r,
                0 <= r < 200,
                200 * k < n,
                n <= 200 * k + 200,
        ;
    } else {
        assert(q >= k + 1) by (nonlinear_arith)
            requires
                n == 200 * q + r,
                0 <= r < 200,
                n > 200 * k + 200,
        ;
        if q == k + 1 {
            assert(r > 0);
        }
    }
}

proof fn lemma_chunk_bounds(n: int, k: int)
    requires
        0 <= n,
        0 <= k,
    ensures
        k < chunk_count(n as nat) <==> 200 * k < n,
        200 * chunk_count(n as nat) >= n,
{
    let q = n / 200;
    let r = n % 200;
    assert(n == 200 * q + r && 0 <= r < 200) by (nonlinear_arith)
        requires
            q == n / 200,
            r == n % 200,
            n >= 0,
    ;
    if r == 0 {
        assert(k < q <==> 200 * k < n) by (nonlinear_arith)
            requires
                n == 200 * q,
        ;
    } else {
        assert(k < q + 1 <==> 200 * k < n) by (nonlinear_arith)
            requires
                n == 200 * q + r,
                0 < r < 200,
        ;
    }
}

proof fn lemma_chunk_prefix<T>(ids: Seq<T>, m: int)
    requires
        0 <= m <= chunk_count(ids.len()),
    ensures
        chunks_of(ids).take(m).flatten() =~= ids.take(
            if 200 * m <= ids.len() { 200 * m } else { ids.len() as int },
        ),
    decreases m,
{
    let c = chunks_of(ids);
    if m == 0 {
        assert(c.take(0) =~= Seq::<Seq<T>>::empty());
    } else {
        lemma_chunk_prefix(ids, m - 1);
        lemma_chunk_bounds(ids.len() as int, m - 1);
        assert(c.take(m) =~= c.take(m - 1).push(c[m - 1]));
        c.take(m - 1).lemma_flatten_push(c[m - 1]);
    }
}

/// Chunking loses, repeats and reorders nothing: there are
/// `ceil(n / CHUNK_SIZE)` chunks, each holds between one and `CHUNK_SIZE`
/// ids, and the chunks in order concatenate back to the input. So when the
/// input has no repeated id, no id is in two chunks.
pub proof fn lemma_chunks_partition<T>(ids: Seq<T>)
    ensures
        chunks_of(ids).len() == chunk_count(ids.len()),
        forall|k: int|
            0 <= k < chunks_of(ids).len() ==> 0 < (#[trigger] chunks_of(ids)[k]).len() <= 200,
        chunks_of(ids).flatten() == ids,
{
    let c = chunks_of(ids);
    let n = ids.len() as int;
    assert forall|k: int| 0 <= k < c.len() implies 0 < (#[trigger] c[k]).len() <= 200 by {
        lemma_chunk_bounds(n, k);
    }
    lemma_chunk_bounds(n, 0);
    lemma_chunk_prefix(ids, c.len() as int);
    assert(c.take(c.len() as int) =~= c);
    assert(ids.take(n) =~= ids);
}

/// Concatenates the ids, separated by commas (`1,2,3,4`), in chunks of
/// `CHUNK_SIZE`: one string per bulk query, in the order the ids came.
pub fn join_ids(ids: &[String]) -> (r: Vec<String>)
    ensures
        r@.len() == chunk_count(ids@.len() as nat),
        forall|k: int|
            0 <= k < r@.len() ==> #[trigger] r@[k]@ == comma_joined(chunk_at(texts(ids@), k)),
{
    let n = ids.len();
    let mut result: Vec<String> = Vec::new();
    let mut start: usize = 0;
    let ghost all = texts(ids@);
    while start < n
        invariant
            n == ids@.len(),
            all == texts(ids@),
            start <= n,
            start < n ==> start == 200 * result@.len(),
            start < n ==> result@.len() < chunk_count(n as nat),
            start >= n ==> result@.len() == chunk_count(n as nat),
            forall|k: int|
                0 <= k < result@.len() ==> #[trigger] result@[k]@ == comma_joined(chunk_at(all, k)),
        decreases n - start,
    {
        let end: usize = if n - start > CHUNK_SIZE { start + CHUNK_SIZE } else { n };
        let ghost k = result@.len() as int;
        proof {
            lemma_chunk_count(n as int, k);
        }
        let mut query = String::new();
        query.append(ids[start].as_str());
        assert(all.subrange(start as int, start as int + 1) =~= seq![all[start as int]]);
        let mut i: usize = start + 1;
        while i < end
            invariant
                n == ids@.len(),
                all == texts(ids@),
                start < i <= end <= n,
                query@ == comma_joined(all.subrange(start as int, i as int)),
            decreases end - i,
        {
            query.append(",");
            query.append(ids[i].as_str());
            assert(all.subrange(start as int, i + 1).drop_last() =~= all.subrange(
                start as int,
                i as int,
            ));
            i = i + 1;
        }
        assert(chunk_at(all, k) =~= all.subrange(start as int, end as int));
        result.push(query);
        start = end;
    }
    result
}

} // verus!
