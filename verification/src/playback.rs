//! The queue of samples waiting to be played through the voice processor.
//!
//! Samples are held by their IEEE-754 bit pattern (`f32::to_bits`), so the
//! queue never does arithmetic on them; silence is the pattern of `0.0`.

use vstd::prelude::*;

verus! {

/// Bit pattern of the `f32` sample `0.0`.
pub const SILENCE: u32 = 0;

/// `n` samples of silence.
pub open spec fn silence_seq(n: nat) -> Seq<u32> {
    Seq::new(n, |i: int| SILENCE)
}

/// What a render of `n` samples takes out of the queued samples `queued`:
/// the oldest samples first, then silence once the queue runs dry.
pub open spec fn rendered(queued: Seq<u32>, n: nat) -> Seq<u32> {
    if n <= queued.len() {
        queued.take(n as int)
    } else {
        queued + silence_seq((n - queued.len()) as nat)
    }
}

/// What stays queued after a render of `n` samples.
pub open spec fn remaining(queued: Seq<u32>, n: nat) -> Seq<u32> {
    if n <= queued.len() {
        queued.skip(n as int)
    } else {
        Seq::empty()
    }
}

/// Samples handed to the speaker, oldest first.
pub struct PlaybackQueue {
    samples: std::collections::VecDeque<u32>,
}

impl View for PlaybackQueue {
    type V = Seq<u32>;

    closed spec fn view(&self) -> Seq<u32> {
        self.samples@
    }
}

impl PlaybackQueue {
    /// An empty queue with room reserved for `capacity` samples.
    pub fn with_capacity(capacity: usize) -> (q: PlaybackQueue)
        ensures
            q@ == Seq::<u32>::empty(),
    {
        PlaybackQueue { samples: std::collections::VecDeque::with_capacity(capacity) }
    }

    /// Number of samples waiting.
    pub fn len(&self) -> (n: usize)
        ensures
            n == self@.len(),
    {
        self.samples.len()
    }

    /// Queues `chunk` behind what is already waiting.
    pub fn extend(&mut self, chunk: Vec<u32>)
        requires
            old(self)@.len() + chunk@.len() <= usize::MAX,
        ensures
            final(self)@ == old(self)@ + chunk@,
    {
        let n = chunk.len();
        let mut i: usize = 0;
        while i < n
            invariant
                n == chunk@.len(),
                i <= n,
                self@ == old(self)@ + chunk@.take(i as int),
            decreases n - i,
        {
            self.samples.push_back(chunk[i]);
            proof {
                assert(chunk@.take(i as int + 1) == chunk@.take(i as int).push(chunk@[i as int]));
            }
            i += 1;
        }
        proof {
            assert(chunk@.take(n as int) == chunk@);
        }
    }

    /// Fills an output buffer of `n` samples: each slot takes the oldest
    /// waiting sample, or silence once none is left.
    pub fn render(&mut self, n: usize) -> (out: Vec<u32>)
        ensures
            out@ == rendered(old(self)@, n as nat),
            final(self)@ == remaining(old(self)@, n as nat),
    {
        let mut out: Vec<u32> = Vec::with_capacity(n);
        let mut i: usize = 0;
        while i < n
            invariant
                i <= n,
                out@ == rendered(old(self)@, i as nat),
                self@ == remaining(old(self)@, i as nat),
            decreases n - i,
        {
            let next = self.samples.pop_front();
            let sample = match next {
                Some(s) => s,
                None => SILENCE,
            };
            out.push(sample);
            proof {
                let q = old(self)@;
                if i + 1 <= q.len() {
                    assert(q.take(i as int + 1) == q.take(i as int).push(q[i as int]));
                    assert(q.skip(i as int + 1) == q.skip(i as int).subrange(1, q.skip(i as int).len() as int));
                } else {
                    assert(rendered(q, (i + 1) as nat) == rendered(q, i as nat).push(SILENCE));
                }
            }
            i += 1;
        }
        out
    }
}

/// An output buffer of `n` samples of silence, played when the queue is
/// busy elsewhere at the moment the speaker asks for samples.
pub fn silence(n: usize) -> (out: Vec<u32>)
    ensures
        out@ == silence_seq(n as nat),
{
    let mut out: Vec<u32> = Vec::with_capacity(n);
    let mut i: usize = 0;
    while i < n
        invariant
            i <= n,
            out@ == silence_seq(i as nat),
        decreases n - i,
    {
        out.push(SILENCE);
        proof {
            assert(silence_seq((i + 1) as nat) == silence_seq(i as nat).push(SILENCE));
        }
        i += 1;
    }
    out
}

/// A render always fills the whole output buffer: exactly `n` samples come out.
pub proof fn lemma_render_fills_buffer(queued: Seq<u32>, n: nat)
    ensures
        rendered(queued, n).len() == n,
        remaining(queued, n).len() == if n <= queued.len() { queued.len() - n } else { 0 },
{
}

/// Rendering `m` samples and then `n` more plays the same samples, and leaves
/// the same queue, as one render of `m + n`: the size of the speaker's
/// requests does not change what is heard.
pub proof fn lemma_render_split(queued: Seq<u32>, m: nat, n: nat)
    ensures
        rendered(queued, m) + rendered(remaining(queued, m), n) == rendered(queued, m + n),
        remaining(remaining(queued, m), n) == remaining(queued, m + n),
{
    let first = rendered(queued, m);
    let rest = remaining(queued, m);
    if m <= queued.len() {
        if m + n <= queued.len() {
            assert(first + rest.take(n as int) =~= queued.take((m + n) as int));
            assert(rest.skip(n as int) =~= queued.skip((m + n) as int));
        } else {
            assert(first + (rest + silence_seq((n - rest.len()) as nat))
                =~= queued + silence_seq((m + n - queued.len()) as nat));
        }
    } else {
        assert(rest =~= Seq::<u32>::empty());
        assert(first + silence_seq(n) =~= queued + silence_seq((m + n - queued.len()) as nat));
    }
}

/// Whatever is queued plays back in the order it was queued, behind what was
/// already waiting, with nothing lost, repeated or reordered: rendering as
/// many samples as are waiting gives back exactly the waiting samples and
/// the queued chunk, and empties the queue.
pub proof fn lemma_queued_samples_play_in_order(waiting: Seq<u32>, chunk: Seq<u32>)
    ensures
        rendered(waiting + chunk, waiting.len()) == waiting,
        remaining(waiting + chunk, waiting.len()) == chunk,
        rendered(waiting + chunk, waiting.len() + chunk.len()) == waiting + chunk,
        remaining(waiting + chunk, waiting.len() + chunk.len()) == Seq::<u32>::empty(),
{
    let all = waiting + chunk;
    assert(all.take(waiting.len() as int) =~= waiting);
    assert(all.skip(waiting.len() as int) =~= chunk);
    assert(all.take(all.len() as int) =~= all);
    assert(all.skip(all.len() as int) =~= Seq::<u32>::empty());
}

/// Once the queue is empty, every render is silence and the queue stays empty.
pub proof fn lemma_empty_queue_renders_silence(n: nat)
    ensures
        rendered(Seq::<u32>::empty(), n) == silence_seq(n),
        remaining(Seq::<u32>::empty(), n) == Seq::<u32>::empty(),
{
    if n == 0 {
        assert(Seq::<u32>::empty().take(0) =~= silence_seq(0));
    } else {
        assert(Seq::<u32>::empty() + silence_seq(n) =~= silence_seq(n));
    }
}


/// What happens to the queue, in the order it happens: a chunk is queued,
/// the speaker asks for samples, or the speaker asks while the queue is busy
/// elsewhere (and gets silence).
pub ghost enum PlaybackEvent {
    Enqueue(Seq<u32>),
    Render(nat),
    Busy(nat),
}

/// The queue after one event.
pub open spec fn queue_after(queued: Seq<u32>, event: PlaybackEvent) -> Seq<u32> {
    match event {
        PlaybackEvent::Enqueue(chunk) => queued + chunk,
        PlaybackEvent::Render(n) => remaining(queued, n),
        PlaybackEvent::Busy(_) => queued,
    }
}

/// The queued samples one event takes out of the queue.
pub open spec fn taken_by(queued: Seq<u32>, event: PlaybackEvent) -> Seq<u32> {
    match event {
        PlaybackEvent::Render(n) => if n <= queued.len() { queued.take(n as int) } else { queued },
        _ => Seq::empty(),
    }
}

/// The samples the speaker gets for one event.
pub open spec fn heard_by(queued: Seq<u32>, event: PlaybackEvent) -> Seq<u32> {
    match event {
        PlaybackEvent::Enqueue(_) => Seq::empty(),
        PlaybackEvent::Render(n) => rendered(queued, n),
        PlaybackEvent::Busy(n) => silence_seq(n),
    }
}

/// How many samples the speaker asks for in one event.
pub open spec fn requested_by(event: PlaybackEvent) -> nat {
    match event {
        PlaybackEvent::Enqueue(_) => 0,
        PlaybackEvent::Render(n) => n,
        PlaybackEvent::Busy(n) => n,
    }
}

/// The queue after a sequence of events, starting from `start`.
pub open spec fn queue_after_all(start: Seq<u32>, events: Seq<PlaybackEvent>) -> Seq<u32>
    decreases events.len(),
{
    if events.len() == 0 {
        start
    } else {
        queue_after(queue_after_all(start, events.drop_last()), events.last())
    }
}

/// Every chunk queued by the events, in order.
pub open spec fn enqueued_all(events: Seq<PlaybackEvent>) -> Seq<u32>
    decreases events.len(),
{
    if events.len() == 0 {
        Seq::empty()
    } else {
        enqueued_all(events.drop_last()) + match events.last() {
            PlaybackEvent::Enqueue(chunk) => chunk,
            _ => Seq::empty(),
        }
    }
}

/// Every queued sample the events took out and played, in order.
pub open spec fn played_all(start: Seq<u32>, events: Seq<PlaybackEvent>) -> Seq<u32>
    decreases events.len(),
{
    if events.len() == 0 {
        Seq::empty()
    } else {
        played_all(start, events.drop_last())
            + taken_by(queue_after_all(start, events.drop_last()), events.last())
    }
}

/// Everything the speaker got, in order.
pub open spec fn heard_all(start: Seq<u32>, events: Seq<PlaybackEvent>) -> Seq<u32>
    decreases events.len(),
{
    if events.len() == 0 {
        Seq::empty()
    } else {
        heard_all(start, events.drop_last())
            + heard_by(queue_after_all(start, events.drop_last()), events.last())
    }
}

/// Total samples the speaker asked for.
pub open spec fn requested_all(events: Seq<PlaybackEvent>) -> nat
    decreases events.len(),
{
    if events.len() == 0 {
        0
    } else {
        requested_all(events.drop_last()) + requested_by(events.last())
    }
}

/// Each request is answered with the queued samples it takes, oldest first,
/// followed by silence up to the size asked for.
pub proof fn lemma_heard_is_played_then_silence(queued: Seq<u32>, event: PlaybackEvent)
    ensures
        heard_by(queued, event) == taken_by(queued, event)
            + silence_seq((requested_by(event) - taken_by(queued, event).len()) as nat),
        taken_by(queued, event).len() <= requested_by(event),
{
    match event {
        PlaybackEvent::Enqueue(_) => {
            assert(silence_seq(0) =~= Seq::<u32>::empty());
            assert(Seq::<u32>::empty() + silence_seq(0) =~= Seq::<u32>::empty());
        },
        PlaybackEvent::Render(n) => {
            if n <= queued.len() {
                assert(silence_seq(0) =~= Seq::<u32>::empty());
                assert(queued.take(n as int) + silence_seq(0) =~= queued.take(n as int));
            }
        },
        PlaybackEvent::Busy(n) => {
            assert(Seq::<u32>::empty() + silence_seq(n) =~= silence_seq(n));
        },
    }
}

/// However queueing and speaker requests interleave, and whether or not some
/// requests find the queue busy: the samples played so far followed by the
/// samples still waiting are exactly the samples that were waiting at the
/// start followed by every queued chunk, in order. No queued sample is lost,
/// repeated or reordered; it is either played or still waiting. The speaker
/// gets exactly as many samples as it asked for, each request answered as
/// [`lemma_heard_is_played_then_silence`] says.
pub proof fn lemma_interleaved_playback(start: Seq<u32>, events: Seq<PlaybackEvent>)
    ensures
        played_all(start, events) + queue_after_all(start, events) == start + enqueued_all(events),
        heard_all(start, events).len() == requested_all(events),
    decreases events.len(),
{
    if events.len() > 0 {
        let prev = events.drop_last();
        let e = events.last();
        lemma_interleaved_playback(start, prev);
        let q = queue_after_all(start, prev);
        lemma_heard_is_played_then_silence(q, e);
        lemma_render_fills_buffer(q, requested_by(e));
        match e {
            PlaybackEvent::Enqueue(chunk) => {
                assert(played_all(start, events) =~= played_all(start, prev));
                assert(queue_after_all(start, events) == q + chunk);
                assert(enqueued_all(events) == enqueued_all(prev) + chunk);
                assert((played_all(start, prev) + q) + chunk =~= played_all(start, prev) + (q + chunk));
                assert((start + enqueued_all(prev)) + chunk =~= start + (enqueued_all(prev) + chunk));
            },
            PlaybackEvent::Render(n) => {
                assert(taken_by(q, e) + remaining(q, n) =~= q);
                assert(played_all(start, events) + queue_after_all(start, events)
                    =~= (played_all(start, prev) + q));
                assert(enqueued_all(events) =~= enqueued_all(prev));
            },
            PlaybackEvent::Busy(n) => {
                assert(played_all(start, events) + queue_after_all(start, events)
                    =~= (played_all(start, prev) + q));
                assert(enqueued_all(events) =~= enqueued_all(prev));
            },
        }
    } else {
        assert(played_all(start, events) + queue_after_all(start, events) =~= start + enqueued_all(events));
    }
}


/// Sample by sample: a render of `n` samples gives, at each position, the
/// sample waiting there if there is one and silence (the bits of `0.0`)
/// otherwise; what stays queued is what was waiting after the first `n`.
pub proof fn lemma_render_pointwise(queued: Seq<u32>, n: nat)
    ensures
        SILENCE == 0,
        silence_seq(n).len() == n,
        forall|i: int| 0 <= i < n ==> #[trigger] silence_seq(n)[i] == 0u32,
        rendered(queued, n).len() == n,
        forall|i: int| 0 <= i < n ==> #[trigger] rendered(queued, n)[i]
            == if i < queued.len() { queued[i] } else { 0u32 },
        remaining(queued, n).len() == if n <= queued.len() { queued.len() - n } else { 0 },
        forall|i: int| 0 <= i < remaining(queued, n).len() ==> #[trigger] remaining(queued, n)[i]
            == queued[i + n],
{
}

} // verus!
