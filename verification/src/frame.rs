//! Grouping the samples of all channels into one frame.
use vstd::prelude::*;

verus! {

/// The frame that the samples read for its channels, in order, make: when
/// a read ended the stream or failed, the last such read decides, the end
/// giving no frame and a failure its error; otherwise all the samples in
/// order.
pub open spec fn spec_frame<S, E>(reads: Seq<Option<Result<S, E>>>) -> Option<Result<Seq<S>, E>>
    decreases reads.len(),
{
    if reads.len() == 0 {
        Some(Ok(Seq::empty()))
    } else {
        match reads.last() {
            None => None,
            Some(Err(e)) => Some(Err(e)),
            Some(Ok(x)) => match spec_frame(reads.drop_last()) {
                Some(Ok(v)) => Some(Ok(v.push(x))),
                other => other,
            },
        }
    }
}

/// Assembles one frame from the samples read for its channels (see
/// `spec_frame`).
pub fn assemble_frame<S, E>(reads: Vec<Option<Result<S, E>>>) -> (res: Option<Result<Vec<S>, E>>)
    ensures
        match spec_frame(reads@) {
            None => res is None,
            Some(Err(e)) => res == Some(Err::<Vec<S>, E>(e)),
            Some(Ok(v)) => res matches Some(Ok(w)) && w@ == v,
        },
        forall|i: int|
            #![trigger reads@[i]]
            0 <= i < reads@.len() && reads@[i] is Some && reads@[i]->0 is Err && (forall|j: int|
                i < j < reads@.len() ==> reads@[j] is Some && reads@[j]->0 is Ok) ==> res
                == Some(Err::<Vec<S>, E>(reads@[i]->0->Err_0)),
        forall|i: int|
            #![trigger reads@[i]]
            0 <= i < reads@.len() && reads@[i] is None && (forall|j: int|
                i < j < reads@.len() ==> reads@[j] is Some && reads@[j]->0 is Ok) ==> res is None,
        (forall|i: int| 0 <= i < reads@.len() ==> reads@[i] is Some && reads@[i]->0 is Ok) ==> (
        res matches Some(Ok(w)) && w@.len() == reads@.len() && forall|i: int|
            0 <= i < reads@.len() ==> reads@[i] == Some(Ok::<S, E>(w@[i]))),
{
    let ghost all = reads@;
    proof {
        lemma_frame_complete(all);
        assert forall|i: int|
            #![trigger all[i]]
            0 <= i < all.len() && !(all[i] is Some && all[i]->0 is Ok) && (forall|j: int|
                i < j < all.len() ==> all[j] is Some && all[j]->0 is Ok) implies (all[i] is None
            ==> spec_frame(all) is None) && (all[i] is Some ==> spec_frame(all) == Some(
            Err::<Seq<S>, E>(all[i]->0->Err_0))) by {
            lemma_last_shortfall_decides(all, i);
        }
    }
    let n = reads.len();
    let mut rest = reads;
    let mut reversed: Vec<Option<Result<S, E>>> = Vec::new();
    while rest.len() > 0
        invariant
            all.len() == n,
            rest@ == all.take(rest.len() as int),
            reversed.len() + rest.len() == n,
            forall|i: int| 0 <= i < reversed.len() ==> reversed@[i] == all[n - 1 - i],
        decreases rest.len(),
    {
        let item = rest.pop().unwrap();
        reversed.push(item);
        assert(rest@ =~= all.take(rest.len() as int));
    }
    let mut state: Option<Result<Vec<S>, E>> = Some(Ok(Vec::new()));
    assert(all.take(0) =~= Seq::<Option<Result<S, E>>>::empty());
    while reversed.len() > 0
        invariant
            all.len() == n,
            reversed.len() <= n,
            forall|i: int| 0 <= i < reversed.len() ==> reversed@[i] == all[n - 1 - i],
            match spec_frame(all.take(n - reversed.len())) {
                None => state is None,
                Some(Err(e)) => state == Some(Err::<Vec<S>, E>(e)),
                Some(Ok(v)) => state matches Some(Ok(w)) && w@ == v,
            },
        decreases reversed.len(),
    {
        let k: usize = n - reversed.len();
        let item = reversed.pop().unwrap();
        assert(item == all[k as int]);
        assert(all.take(k + 1).drop_last() =~= all.take(k as int));
        assert(all.take(k + 1).last() == all[k as int]);
        state = match item {
            None => None,
            Some(Err(e)) => Some(Err(e)),
            Some(Ok(x)) => match state {
                Some(Ok(mut v)) => {
                    v.push(x);
                    Some(Ok(v))
                },
                other => other,
            },
        };
    }
    assert(all.take(n as int) =~= all);
    state
}

/// A frame is produced exactly when every channel's read gave a sample,
/// and it then holds those samples in channel order.
pub proof fn lemma_frame_complete<S, E>(reads: Seq<Option<Result<S, E>>>)
    ensures
        (forall|i: int| 0 <= i < reads.len() ==> reads[i] is Some && reads[i]->0 is Ok) <==> (
        spec_frame(reads) matches Some(Ok(_))),
        spec_frame(reads) matches Some(Ok(v)) ==> v.len() == reads.len() && forall|i: int|
            0 <= i < reads.len() ==> reads[i] == Some(Ok::<S, E>(v[i])),
    decreases reads.len(),
{
    if reads.len() > 0 {
        let prefix = reads.drop_last();
        lemma_frame_complete(prefix);
        assert forall|i: int| 0 <= i < prefix.len() implies prefix[i] == reads[i] by {}
        if spec_frame(reads) matches Some(Ok(v)) {
            assert(spec_frame(prefix) matches Some(Ok(_)));
        }
    }
}

/// The reads made for the frame that starts at sample `start` of a stream
/// of `samples` followed by its end: one per channel, a sample while the
/// stream lasts and the end after.
pub open spec fn stream_reads<S, E>(samples: Seq<S>, start: int, channels: nat) -> Seq<
    Option<Result<S, E>>,
> {
    Seq::new(
        channels,
        |i: int|
            if start + i < samples.len() {
                Some(Ok(samples[start + i]))
            } else {
                None
            },
    )
}

/// Over a whole stream of `n` samples and `channels` channels, frame `k`
/// (made of reads `k * channels` to `k * channels + channels - 1`) holds
/// those samples in order while they all exist, that is for `k < n /
/// channels`; the first frame that would run past the end is no frame, so
/// the stream gives `n / channels` frames and the last `n % channels`
/// samples are dropped.
pub proof fn lemma_frames_of_stream<S, E>(samples: Seq<S>, channels: nat, k: nat)
    requires
        channels > 0,
    ensures
        ({
            let n = samples.len() as int;
            let c = channels as int;
            let start = k * c;
            &&& (k < n / c <==> start + c <= n)
            &&& k < n / c ==> spec_frame(stream_reads::<S, E>(samples, start, channels)) == Some(
                Ok::<Seq<S>, E>(samples.subrange(start, start + c)),
            )
            &&& k == n / c ==> spec_frame(stream_reads::<S, E>(samples, start, channels)) is None
        }),
{
    let n = samples.len() as int;
    let c = channels as int;
    let ki = k as int;
    assert((ki + 1) * c == ki * c + c) by (nonlinear_arith);
    assert(ki < n / c <==> (ki + 1) * c <= n) by (nonlinear_arith)
        requires
            c > 0,
            ki >= 0,
            n >= 0,
    {
        if ki < n / c {
            assert(ki + 1 <= n / c);
            assert((ki + 1) * c <= (n / c) * c);
            assert((n / c) * c <= n);
        } else {
            assert(n / c <= ki);
            assert(n < (n / c) * c + c);
            assert((n / c) * c + c <= ki * c + c);
        }
    }
    let reads = stream_reads::<S, E>(samples, ki * c, channels);
    lemma_frame_complete(reads);
    if ki < n / c {
        assert forall|i: int| 0 <= i < reads.len() implies reads[i] is Some && reads[i]->0 is Ok by {}
        let v = spec_frame(reads)->0->Ok_0;
        assert(v =~= samples.subrange(ki * c, ki * c + c)) by {
            assert forall|i: int| 0 <= i < c implies v[i] == samples[ki * c + i] by {
                assert(reads[i] == Some(Ok::<S, E>(v[i])));
            }
        }
    }
    if ki == n / c {
        assert(reads.last() is None);
    }
}

/// The last read of a frame that did not give a sample decides the frame,
/// whatever the reads before it gave: if it ended the stream there is no
/// frame, and if it failed the frame is that read's error.
pub proof fn lemma_last_shortfall_decides<S, E>(reads: Seq<Option<Result<S, E>>>, i: int)
    requires
        0 <= i < reads.len(),
        !(reads[i] is Some && reads[i]->0 is Ok),
        forall|j: int| i < j < reads.len() ==> reads[j] is Some && reads[j]->0 is Ok,
    ensures
        reads[i] is None ==> spec_frame(reads) is None,
        reads[i] is Some ==> spec_frame(reads) == Some(Err::<Seq<S>, E>(reads[i]->0->Err_0)),
    decreases reads.len(),
{
    if i < reads.len() - 1 {
        let prefix = reads.drop_last();
        assert(prefix[i] == reads[i]);
        assert forall|j: int| i < j < prefix.len() implies prefix[j] is Some && prefix[j]->0 is Ok by {
            assert(prefix[j] == reads[j]);
        }
        lemma_last_shortfall_decides(prefix, i);
        assert(reads.last() is Some && reads.last()->0 is Ok);
    }
}

} // verus!
