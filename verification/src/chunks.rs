//! Cutting a list into chunks of bounded size, as the full node's multi-get
//! calls need it, and putting the answers together again.

use vstd::prelude::*;
use vstd::seq_lib::*;
use crate::errors::IndexerError;

verus! {

/// Largest number of items asked of the full node in one multi-get call.
pub const MULTI_GET_CHUNK_SIZE: usize = 500;

/// `items` cut into chunks of `size` items, the last of which holds what
/// remains. An empty list has no chunks.
pub open spec fn chunked<T>(items: Seq<T>, size: int) -> Seq<Seq<T>>
    decreases items.len(),
{
    if size <= 0 || items.len() == 0 {
        Seq::empty()
    } else if items.len() <= size {
        seq![items]
    } else {
        seq![items.take(size)] + chunked(items.skip(size), size)
    }
}

/// The lists that `chunks` hold, in order.
pub open spec fn chunk_views<T>(chunks: Seq<Vec<T>>) -> Seq<Seq<T>> {
    chunks.map_values(|c: Vec<T>| c@)
}

/// The chunks of a list are not empty and hold `size` items each, but for
/// the last, which may hold fewer; there are as many of them as the length
/// of the list divided by `size`, rounded up; and one after the other they
/// are the list.
pub proof fn lemma_chunked<T>(items: Seq<T>, size: int)
    requires
        size > 0,
    ensures
        chunked(items, size).flatten() == items,
        chunked(items, size).len() == (items.len() + size - 1) / size,
        forall|k: int|
            0 <= k < chunked(items, size).len() ==> 1 <= (#[trigger] chunked(items, size)[k]).len()
                <= size,
        forall|k: int|
            0 <= k < chunked(items, size).len() - 1 ==> (#[trigger] chunked(items, size)[k]).len()
                == size,
        forall|k: int|
            0 <= k < chunked(items, size).len() ==> #[trigger] chunked(items, size)[k]
                == items.subrange(
                k * size,
                if (k + 1) * size <= items.len() {
                    (k + 1) * size
                } else {
                    items.len() as int
                },
            ),
    decreases items.len(),
{
    let chunks = chunked(items, size);
    if items.len() == 0 {
        assert(chunks.flatten() =~= items);
        assert((items.len() + size - 1) / size == 0) by (nonlinear_arith)
            requires
                items.len() == 0,
                size > 0,
        ;
    } else if items.len() <= size {
        assert(chunks =~= seq![items]);
        chunks.lemma_flatten_one_element();
        assert((items.len() + size - 1) / size == 1) by (nonlinear_arith)
            requires
                0 < items.len() <= size,
        ;
        assert(chunks[0] =~= items.subrange(0, items.len() as int));
        assert(0 * size == 0) by (nonlinear_arith);
        assert(1 * size == size) by (nonlinear_arith);
    } else {
        let rest = items.skip(size);
        let tail = chunked(rest, size);
        lemma_chunked(rest, size);
        lemma_flatten_concat(seq![items.take(size)], tail);
        seq![items.take(size)].lemma_flatten_one_element();
        assert(chunks.flatten() =~= items);
        assert((items.len() + size - 1) / size == (items.len() - size + size - 1) / size + 1)
            by (nonlinear_arith)
            requires
                size > 0,
        ;
        assert forall|k: int| 0 <= k < chunks.len() implies #[trigger] chunks[k] == items.subrange(
            k * size,
            if (k + 1) * size <= items.len() {
                (k + 1) * size
            } else {
                items.len() as int
            },
        ) && 1 <= chunks[k].len() <= size && (k < chunks.len() - 1 ==> chunks[k].len() == size) by {
            if k == 0 {
                assert(0 * size == 0) by (nonlinear_arith);
                assert(1 * size == size) by (nonlinear_arith);
                assert(chunks[0] =~= items.subrange(0, size));
            } else {
                assert(chunks[k] == tail[k - 1]);
                assert((k - 1) * size + size == k * size) by (nonlinear_arith);
                assert(k * size + size == (k + 1) * size) by (nonlinear_arith);
                assert((k - 1) * size >= 0) by (nonlinear_arith)
                    requires
                        k >= 1,
                        size > 0,
                ;
                let q = (rest.len() + size - 1) / size;
                assert(q * size <= rest.len() + size - 1) by (nonlinear_arith)
                    requires
                        q == (rest.len() + size - 1) / size,
                        size > 0,
                ;
                assert((k - 1) * size < rest.len()) by (nonlinear_arith)
                    requires
                        1 <= k <= q,
                        q * size <= rest.len() + size - 1,
                        size > 0,
                ;
                let hi = if k * size <= rest.len() {
                    k * size
                } else {
                    rest.len() as int
                };
                assert(tail[k - 1] == rest.subrange((k - 1) * size, hi));
                assert(rest.subrange((k - 1) * size, hi) =~= items.subrange(
                    k * size,
                    hi + size,
                ));
            }
        }
    }
}

/// Cuts `items` into chunks of `size` items.
pub fn split_chunks<T: Copy>(items: &Vec<T>, size: usize) -> (r: Vec<Vec<T>>)
    requires
        size > 0,
    ensures
        chunk_views(r@) == chunked(items@, size as int),
{
    let mut out: Vec<Vec<T>> = Vec::new();
    let mut start: usize = 0;
    assert(items@.skip(0) =~= items@);
    assert(chunk_views(out@) =~= Seq::<Seq<T>>::empty());
    while start < items.len()
        invariant
            size > 0,
            start <= items.len(),
            chunk_views(out@) + chunked(items@.skip(start as int), size as int) == chunked(
                items@,
                size as int,
            ),
        decreases items.len() - start,
    {
        let end: usize = if items.len() - start <= size {
            items.len()
        } else {
            start + size
        };
        let mut chunk: Vec<T> = Vec::new();
        let mut i: usize = start;
        while i < end
            invariant
                start <= i <= end <= items.len(),
                chunk@ == items@.subrange(start as int, i as int),
            decreases end - i,
        {
            chunk.push(items[i]);
            assert(chunk@ =~= items@.subrange(start as int, i + 1));
            i += 1;
        }
        proof {
            let rest = items@.skip(start as int);
            if rest.len() <= size {
                assert(chunk@ =~= rest);
                assert(items@.skip(end as int) =~= Seq::<T>::empty());
                assert(chunked(items@.skip(end as int), size as int) =~= Seq::<Seq<T>>::empty());
            } else {
                assert(chunk@ =~= rest.take(size as int));
                assert(rest.skip(size as int) =~= items@.skip(end as int));
            }
            assert(chunk_views(out@.push(chunk)) =~= chunk_views(out@).push(chunk@));
            assert(chunk_views(out@).push(chunk@) + chunked(items@.skip(end as int), size as int)
                =~= chunk_views(out@) + chunked(rest, size as int));
        }
        out.push(chunk);
        start = end;
    }
    assert(items@.skip(start as int) =~= Seq::<T>::empty());
    assert(chunk_views(out@) + Seq::<Seq<T>>::empty() =~= chunk_views(out@));
    out
}

/// The first failure among `chunks`, if any of them failed.
pub open spec fn first_failure<T>(chunks: Seq<Result<Vec<T>, IndexerError>>) -> Option<
    IndexerError,
>
    decreases chunks.len(),
{
    if chunks.len() == 0 {
        None
    } else {
        match first_failure(chunks.drop_last()) {
            Some(e) => Some(e),
            None => match chunks.last() {
                Err(e) => Some(e),
                Ok(_) => None,
            },
        }
    }
}

/// The items of one answer; a failed answer has none.
pub open spec fn answer_items<T>(chunk: Result<Vec<T>, IndexerError>) -> Seq<T> {
    match chunk {
        Ok(items) => items@,
        Err(_) => Seq::empty(),
    }
}

/// What the answers `chunks` to the calls for the chunks of a list give
/// together: the first failure if one of the calls failed, or else the items
/// of all the answers, in the order of the calls.
pub open spec fn collected<T>(chunks: Seq<Result<Vec<T>, IndexerError>>) -> Result<
    Seq<T>,
    IndexerError,
> {
    match first_failure(chunks) {
        Some(e) => Err(e),
        None => Ok(chunks.flat_map(|chunk: Result<Vec<T>, IndexerError>| answer_items(chunk))),
    }
}

/// A failure among the first `n` answers is the first failure of all.
proof fn lemma_first_failure_stays<T>(chunks: Seq<Result<Vec<T>, IndexerError>>, n: int)
    requires
        0 <= n <= chunks.len(),
        first_failure(chunks.take(n)) is Some,
    ensures
        first_failure(chunks) == first_failure(chunks.take(n)),
    decreases chunks.len() - n,
{
    if n < chunks.len() {
        assert(chunks.take(n + 1).drop_last() =~= chunks.take(n));
        lemma_first_failure_stays(chunks, n + 1);
    } else {
        assert(chunks.take(n) =~= chunks);
    }
}

/// Puts the answers to the calls for the chunks of a list together: the
/// items of all of them in order, or the first failure.
pub fn collect_chunks<T>(chunks: Vec<Result<Vec<T>, IndexerError>>) -> (r: Result<
    Vec<T>,
    IndexerError,
>)
    ensures
        match r {
            Ok(items) => collected(chunks@) == Ok::<Seq<T>, IndexerError>(items@),
            Err(e) => collected(chunks@) == Err::<Seq<T>, IndexerError>(e),
        },
{
    let mut out: Vec<T> = Vec::new();
    let ghost all = chunks@;
    let ghost f = |chunk: Result<Vec<T>, IndexerError>| answer_items(chunk);
    assert(out@ =~= all.take(0).flat_map(f));
    for chunk in it: chunks
        invariant
            it.seq() == all,
            f == |chunk: Result<Vec<T>, IndexerError>| answer_items(chunk),
            first_failure(all.take(it.index() as int)) is None,
            out@ == all.take(it.index() as int).flat_map(f),
    {
        proof {
            all.lemma_flat_map_take_append(f, it.index() as int);
            assert(all.take(it.index() + 1).drop_last() =~= all.take(it.index() as int));
        }
        match chunk {
            Ok(items) => {
                let mut items = items;
                out.append(&mut items);
            },
            Err(e) => {
                proof {
                    lemma_first_failure_stays(all, it.index() + 1);
                }
                return Err(e);
            },
        }
    }
    assert(all.take(all.len() as int) =~= all);
    Ok(out)
}

} // verus!
