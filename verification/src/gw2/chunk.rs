//! Splitting id lists into the batches that one request each carries.
use vstd::prelude::*;

verus! {

/// The most ids that one request carries.
pub const MAX_IDS_PER_REQUEST: usize = 200;

/// `ids` cut from the front into pieces of `MAX_IDS_PER_REQUEST`, the last
/// one holding what is left.
pub open spec fn id_chunks<A>(ids: Seq<A>) -> Seq<Seq<A>>
    decreases ids.len(),
{
    if ids.len() == 0 {
        seq![]
    } else if ids.len() <= 200 {
        seq![ids]
    } else {
        seq![ids.take(200)] + id_chunks(ids.skip(200))
    }
}

/// The id lists of the requests that one call sends: the whole list where
/// it holds at most `MAX_IDS_PER_REQUEST` ids (the empty list included),
/// its chunks otherwise.
pub open spec fn id_batches<A>(ids: Seq<A>) -> Seq<Seq<A>> {
    if ids.len() <= 200 {
        seq![ids]
    } else {
        id_chunks(ids)
    }
}

/// The chunks of `ids`, in order.
pub fn chunk_ids(ids: &Vec<String>) -> (res: Vec<Vec<String>>)
    ensures
        res@.map_values(|c: Vec<String>| c@) == id_chunks(ids@),
{
    let n = ids.len();
    let mut res: Vec<Vec<String>> = Vec::new();
    let mut i: usize = 0;
    assert(ids@.skip(0) =~= ids@);
    while i < n
        invariant
            n == ids@.len(),
            i <= n,
            id_chunks(ids@) == res@.map_values(|c: Vec<String>| c@) + id_chunks(ids@.skip(i as int)),
        decreases n - i,
    {
        let end: usize = if n - i <= MAX_IDS_PER_REQUEST {
            n
        } else {
            i + MAX_IDS_PER_REQUEST
        };
        let mut chunk: Vec<String> = Vec::new();
        let mut k: usize = i;
        while k < end
            invariant
                n == ids@.len(),
                i <= k <= end <= n,
                chunk@ == ids@.subrange(i as int, k as int),
            decreases end - k,
        {
            chunk.push(ids[k].clone());
            assert(ids@.subrange(i as int, k + 1) =~= ids@.subrange(i as int, k as int).push(
                ids@[k as int],
            ));
            k = k + 1;
        }
        let ghost rest = ids@.skip(i as int);
        let ghost before = res@;
        res.push(chunk);
        assert(res@.map_values(|c: Vec<String>| c@) =~= before.map_values(|c: Vec<String>| c@).push(
            ids@.subrange(i as int, end as int),
        ));
        if n - i <= MAX_IDS_PER_REQUEST {
            assert(rest =~= ids@.subrange(i as int, end as int));
            assert(ids@.skip(end as int) =~= Seq::<String>::empty());
            assert(id_chunks(rest) == seq![rest]);
        } else {
            assert(rest.take(200) =~= ids@.subrange(i as int, end as int));
            assert(rest.skip(200) =~= ids@.skip(end as int));
        }
        i = end;
    }
    assert(ids@.skip(n as int) =~= Seq::<String>::empty());
    assert(res@.map_values(|c: Vec<String>| c@) + Seq::<Seq<String>>::empty() =~= res@.map_values(
        |c: Vec<String>| c@,
    ));
    res
}

/// Concatenating the chunks of a list gives the list back.
pub proof fn lemma_id_chunks_flatten<A>(ids: Seq<A>)
    ensures
        id_chunks(ids).flatten() == ids,
    decreases ids.len(),
{
    if ids.len() == 0 {
        assert(id_chunks(ids).flatten() =~= ids);
    } else if ids.len() <= 200 {
        seq![ids].lemma_flatten_one_element();
    } else {
        lemma_id_chunks_flatten(ids.skip(200));
        let rest = id_chunks(ids.skip(200));
        assert((seq![ids.take(200)] + rest).drop_first() =~= rest);
        assert(ids.take(200) + ids.skip(200) =~= ids);
    }
}

/// Every chunk holds at least one and at most `MAX_IDS_PER_REQUEST` ids, and
/// every chunk but the last holds exactly `MAX_IDS_PER_REQUEST`.
pub proof fn lemma_id_chunks_sizes<A>(ids: Seq<A>)
    ensures
        forall|i: int|
            0 <= i < id_chunks(ids).len() ==> 1 <= #[trigger] id_chunks(ids)[i].len() <= 200,
        forall|i: int| 0 <= i < id_chunks(ids).len() - 1 ==> #[trigger] id_chunks(ids)[i].len() == 200,
        id_chunks(ids).len() == (ids.len() + 199) / 200,
    decreases ids.len(),
{
    if ids.len() > 200 {
        lemma_id_chunks_sizes(ids.skip(200));
        let rest = id_chunks(ids.skip(200));
        assert forall|i: int| 0 < i < id_chunks(ids).len() implies #[trigger] id_chunks(ids)[i]
            == rest[i - 1] by {}
    }
}

/// The batches of one call cover the id list in order, each holds at most
/// `MAX_IDS_PER_REQUEST` ids, a list of at most `MAX_IDS_PER_REQUEST` ids is
/// sent whole in one request, and a longer one in as many requests as it
/// takes, none of them empty.
pub proof fn lemma_id_batches<A>(ids: Seq<A>)
    ensures
        id_batches(ids).flatten() == ids,
        forall|i: int| 0 <= i < id_batches(ids).len() ==> #[trigger] id_batches(ids)[i].len() <= 200,
        ids.len() <= 200 ==> id_batches(ids) == seq![ids],
        ids.len() > 200 ==> id_batches(ids).len() == (ids.len() + 199) / 200 && forall|i: int|
            0 <= i < id_batches(ids).len() ==> #[trigger] id_batches(ids)[i].len() >= 1,
{
    lemma_id_chunks_flatten(ids);
    lemma_id_chunks_sizes(ids);
    if ids.len() <= 200 {
        seq![ids].lemma_flatten_one_element();
    }
}

} // verus!
