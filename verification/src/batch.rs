//! The batch partitioner and executor: a batch is split into contiguous
//! chunks — at most one per configured worker — each chunk is processed
//! strictly in order, and the chunk outputs are recombined positionally,
//! so that the response order always mirrors the request order.

use vstd::prelude::*;
use crate::dispatch::{Registry, is_processed, process_request};
use crate::rpc::{Request, Response, id_ok};

verus! {

/// The concatenation of a sequence of sequences, in order.
pub open spec fn concat_of<T>(parts: Seq<Seq<T>>) -> Seq<T>
    decreases parts.len(),
{
    if parts.len() == 0 {
        Seq::empty()
    } else {
        concat_of(parts.drop_last()) + parts.last()
    }
}

pub proof fn lemma_concat_push<T>(parts: Seq<Seq<T>>, p: Seq<T>)
    ensures
        concat_of(parts.push(p)) == concat_of(parts) + p,
{
    assert(parts.push(p).drop_last() =~= parts);
    assert(parts.push(p).last() == p);
}

/// Concatenations of pointwise-related chunk sequences are pointwise
/// related: positional recombination loses no pairing.
pub proof fn lemma_concat_zip<A, B>(xs: Seq<Seq<A>>, ys: Seq<Seq<B>>, rel: spec_fn(A, B) -> bool)
    requires
        xs.len() == ys.len(),
        forall|k: int| 0 <= k < xs.len() ==> #[trigger] ys[k].len() == xs[k].len(),
        forall|k: int, i: int|
            0 <= k < xs.len() && 0 <= i < xs[k].len() ==> #[trigger] rel(xs[k][i], ys[k][i]),
    ensures
        concat_of(ys).len() == concat_of(xs).len(),
        forall|i: int|
            0 <= i < concat_of(xs).len() ==> #[trigger] rel(concat_of(xs)[i], concat_of(ys)[i]),
    decreases xs.len(),
{
    if xs.len() > 0 {
        lemma_concat_zip(xs.drop_last(), ys.drop_last(), rel);
        let nx = concat_of(xs.drop_last()).len() as int;
        assert forall|i: int|
            0 <= i < concat_of(xs).len() implies #[trigger] rel(
            concat_of(xs)[i],
            concat_of(ys)[i],
        ) by {
            if i < nx {
                assert(rel(concat_of(xs.drop_last())[i], concat_of(ys.drop_last())[i]));
            } else {
                assert(concat_of(xs)[i] == xs.last()[i - nx]);
                assert(concat_of(ys)[i] == ys.last()[i - nx]);
                assert(rel(xs[xs.len() - 1][i - nx], ys[ys.len() - 1][i - nx]));
            }
        }
    }
}

/// The size chunks are cut to: the batch length divided by the worker
/// count, rounded up.
pub open spec fn chunk_target(n: int, workers: int) -> int {
    if n == 0 {
        0
    } else {
        (n - 1) / workers + 1
    }
}

/// Split the batch into contiguous chunks in order: every chunk but the
/// last has exactly the target size, the last is never empty, and there
/// are never more chunks than workers.
pub fn partition(requests: Vec<Request>, workers: usize) -> (chunks: Vec<Vec<Request>>)
    requires
        workers >= 1,
    ensures
        concat_of(chunks@.map_values(|c: Vec<Request>| c@)) == requests@,
        chunks@.len() <= workers,
        requests@.len() == 0 ==> chunks@.len() == 0,
        forall|k: int| 0 <= k < chunks@.len() ==> 1 <= #[trigger] chunks@[k]@.len(),
        forall|k: int|
            0 <= k < chunks@.len() ==> #[trigger] chunks@[k]@.len() <= chunk_target(
                requests@.len() as int,
                workers as int,
            ),
        forall|k: int|
            0 <= k < chunks@.len() - 1 ==> #[trigger] chunks@[k]@.len() == chunk_target(
                requests@.len() as int,
                workers as int,
            ),
{
    let ghost orig = requests@;
    let mut chunks: Vec<Vec<Request>> = Vec::new();
    let n = requests.len();
    if n == 0 {
        proof {
            assert(chunks@.map_values(|c: Vec<Request>| c@) =~= Seq::<Seq<Request>>::empty());
        }
        return chunks;
    }
    let c = (n - 1) / workers + 1;
    proof {
        assert(c == chunk_target(orig.len() as int, workers as int));
        vstd::arithmetic::div_mod::lemma_fundamental_div_mod((n - 1) as int, workers as int);
        vstd::arithmetic::div_mod::lemma_mod_bound((n - 1) as int, workers as int);
        assert(c * workers >= n) by (nonlinear_arith)
            requires
                c == (n - 1) as int / workers as int + 1,
                (n - 1) as int == workers * ((n - 1) as int / workers as int) + (n - 1) as int
                    % workers as int,
                0 <= ((n - 1) as int % (workers as int)),
                ((n - 1) as int % (workers as int)) < (workers as int);
    }
    let mut rest = requests;
    proof {
        assert(chunks@.map_values(|x: Vec<Request>| x@) =~= Seq::<Seq<Request>>::empty());
        assert(concat_of(chunks@.map_values(|x: Vec<Request>| x@)) + rest@ =~= orig);
        assert(chunks@.len() * c == 0);
    }
    while rest.len() > c
        invariant
            1 <= c,
            c * workers >= orig.len(),
            c == chunk_target(orig.len() as int, workers as int),
            rest@.len() >= 1,
            concat_of(chunks@.map_values(|x: Vec<Request>| x@)) + rest@ == orig,
            forall|k: int| 0 <= k < chunks@.len() ==> #[trigger] chunks@[k]@.len() == c,
            chunks@.len() * c + rest@.len() == orig.len(),
        decreases rest@.len(),
    {
        let ghost chunks0 = chunks@;
        let ghost rest0 = rest@;
        let tail = rest.split_off(c);
        chunks.push(rest);
        rest = tail;
        proof {
            lemma_concat_push(chunks0.map_values(|x: Vec<Request>| x@), chunks@[chunks@.len() - 1]@);
            assert(chunks@.map_values(|x: Vec<Request>| x@) =~= chunks0.map_values(
                |x: Vec<Request>| x@,
            ).push(chunks@[chunks@.len() - 1]@));
            assert(concat_of(chunks@.map_values(|x: Vec<Request>| x@)) + rest@ =~= orig);
            assert((chunks0.len() + 1) * c == chunks0.len() * c + c) by (nonlinear_arith);
        }
    }
    let ghost chunks0 = chunks@;
    chunks.push(rest);
    proof {
        lemma_concat_push(chunks0.map_values(|x: Vec<Request>| x@), chunks@[chunks@.len() - 1]@);
        assert(chunks@.map_values(|x: Vec<Request>| x@) =~= chunks0.map_values(
            |x: Vec<Request>| x@,
        ).push(chunks@[chunks@.len() - 1]@));
        assert(concat_of(chunks@.map_values(|x: Vec<Request>| x@)) =~= orig);
        assert(chunks0.len() * c < orig.len());
        assert(chunks0.len() < workers) by (nonlinear_arith)
            requires
                chunks0.len() * c < orig.len(),
                c * workers >= orig.len(),
                c >= 1,
                workers >= 1;
    }
    chunks
}

/// Process one chunk strictly in order, one response per request.
pub fn process_chunk(chunk: &Vec<Request>, registry: &Registry, now_secs: u64) -> (out: Vec<
    Response,
>)
    ensures
        out@.len() == chunk@.len(),
        forall|i: int|
            0 <= i < chunk@.len() ==> is_processed(chunk@[i], *registry, now_secs, #[trigger] out@[i]),
{
    let mut out: Vec<Response> = Vec::new();
    let mut i: usize = 0;
    while i < chunk.len()
        invariant
            i <= chunk@.len(),
            out@.len() == i,
            forall|j: int|
                0 <= j < i ==> is_processed(chunk@[j], *registry, now_secs, #[trigger] out@[j]),
        decreases chunk@.len() - i,
    {
        let response = process_request(&chunk[i], registry, now_secs);
        out.push(response);
        i = i + 1;
    }
    out
}

/// Concatenate the chunk outputs in chunk order — never in completion
/// order.
pub fn join_chunks(parts: Vec<Vec<Response>>) -> (out: Vec<Response>)
    ensures
        out@ == concat_of(parts@.map_values(|p: Vec<Response>| p@)),
{
    let ghost orig = parts@;
    let mut parts = parts;
    let mut stack: Vec<Vec<Response>> = Vec::new();
    while parts.len() > 0
        invariant
            parts@ == orig.take(parts@.len() as int),
            stack@.len() + parts@.len() == orig.len(),
            forall|k: int|
                0 <= k < stack@.len() ==> #[trigger] stack@[k] == orig[orig.len() - 1 - k],
        decreases parts@.len(),
    {
        let p = parts.pop().unwrap();
        proof {
            assert(orig.take(parts@.len() as int + 1).subrange(0, parts@.len() as int) =~= orig.take(
                parts@.len() as int,
            ));
            assert(orig.take(parts@.len() as int + 1)[parts@.len() as int] == orig[parts@.len() as int]);
        }
        stack.push(p);
    }
    let mut out: Vec<Response> = Vec::new();
    proof {
        assert(orig.take(0) =~= Seq::<Vec<Response>>::empty());
        assert(orig.take(0).map_values(|p: Vec<Response>| p@) =~= Seq::<Seq<Response>>::empty());
    }
    while stack.len() > 0
        invariant
            stack@.len() <= orig.len(),
            forall|k: int|
                0 <= k < stack@.len() ==> #[trigger] stack@[k] == orig[orig.len() - 1 - k],
            out@ == concat_of(
                orig.take(orig.len() - stack@.len()).map_values(|p: Vec<Response>| p@),
            ),
        decreases stack@.len(),
    {
        let ghost done = orig.len() - stack@.len();
        let mut p = stack.pop().unwrap();
        proof {
            assert(p == orig[done]);
        }
        out.append(&mut p);
        proof {
            lemma_concat_push(
                orig.take(done).map_values(|x: Vec<Response>| x@),
                orig[done]@,
            );
            assert(orig.take(done + 1).map_values(|x: Vec<Response>| x@) =~= orig.take(
                done,
            ).map_values(|x: Vec<Response>| x@).push(orig[done]@));
        }
    }
    proof {
        assert(orig.take(orig.len() as int) =~= orig);
    }
    out
}

/// Run a whole batch: partition, process every chunk in order, and
/// recombine the outputs positionally. One response per request, each
/// the processing outcome of the request at the same position.
pub fn process_batch(
    requests: Vec<Request>,
    registry: &Registry,
    workers: usize,
    now_secs: u64,
) -> (out: Vec<Response>)
    requires
        workers >= 1,
    ensures
        out@.len() == requests@.len(),
        forall|i: int|
            0 <= i < requests@.len() ==> is_processed(
                requests@[i],
                *registry,
                now_secs,
                #[trigger] out@[i],
            ),
{
    let ghost orig = requests@;
    let chunks = partition(requests, workers);
    let ghost csq = chunks@.map_values(|c: Vec<Request>| c@);
    let mut outputs: Vec<Vec<Response>> = Vec::new();
    let mut k: usize = 0;
    while k < chunks.len()
        invariant
            k <= chunks@.len(),
            csq == chunks@.map_values(|c: Vec<Request>| c@),
            outputs@.len() == k,
            forall|j: int| 0 <= j < k ==> #[trigger] outputs@[j]@.len() == csq[j].len(),
            forall|j: int, i: int|
                0 <= j < k && 0 <= i < csq[j].len() ==> is_processed(
                    csq[j][i],
                    *registry,
                    now_secs,
                    #[trigger] outputs@[j]@[i],
                ),
        decreases chunks@.len() - k,
    {
        let chunk_out = process_chunk(&chunks[k], registry, now_secs);
        outputs.push(chunk_out);
        k = k + 1;
    }
    let out = join_chunks(outputs);
    proof {
        let rel = |req: Request, resp: Response| is_processed(req, *registry, now_secs, resp);
        let rsq = outputs@.map_values(|p: Vec<Response>| p@);
        lemma_concat_zip(csq, rsq, rel);
        assert(concat_of(csq) == orig);
        assert forall|i: int| 0 <= i < orig.len() implies is_processed(
            orig[i],
            *registry,
            now_secs,
            #[trigger] out@[i],
        ) by {
            assert(rel(concat_of(csq)[i], concat_of(rsq)[i]));
        }
    }
    out
}

/// Order preservation: whatever the worker count and whatever order the
/// chunks completed in, response `i` answers request `i`, so for a batch
/// of well-shaped ids the output id order equals the input id order.
pub proof fn lemma_order_preserved(
    requests: Seq<Request>,
    registry: Registry,
    now_secs: u64,
    out: Seq<Response>,
)
    requires
        out.len() == requests.len(),
        forall|i: int|
            0 <= i < requests.len() ==> is_processed(requests[i], registry, now_secs, #[trigger] out[i]),
        forall|i: int| 0 <= i < requests.len() ==> id_ok(#[trigger] requests[i].id),
    ensures
        forall|i: int| 0 <= i < requests.len() ==> #[trigger] out[i].id == requests[i].id,
{
}

} // verus!
