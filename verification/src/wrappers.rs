//! Various wrappers and helper structs.
//!
//! The types here wrap streams, sinks and references and hold the state of the
//! coroutine-aware iteration and sending built on them. The waiting itself is done by the
//! caller, who hands the outcome of each wait to the methods here.

use vstd::prelude::*;

use vstd::std_specs::iter::IteratorSpec;

use crate::errors::Dropped;
use crate::poll::{Async, AsyncSink};

verus! {

/// The outcome of waiting for one item of a stream: the item (or `None` at the end of the
/// stream) with the stream given back, or the stream's error with the stream given back; or
/// `Err(Dropped)` when the executor went away and took the stream with it.
pub type StreamStep<I, E, S> = Result<Result<(Option<I>, S), (E, S)>, Dropped>;

/// An iterator through a stream that reports a vanished executor as `Err(Dropped)` instead of
/// panicking.
///
/// It wraps a stream and allows iterating through it; the stream is taken out for each wait
/// and put back when the wait ends.
pub struct CleanupIterator<S>(Option<S>);

/// What one step of a cleanup iterator yields, and the stream it keeps afterwards, given the
/// outcome of the wait (or `None` when the stream was already lost).
pub open spec fn cleanup_step<I, E, S>(resolved: Option<StreamStep<I, E, S>>) -> (
    Option<Result<Result<I, E>, Dropped>>,
    Option<S>,
) {
    match resolved {
        None => (Some(Err(Dropped)), None),
        Some(Ok(Ok((None, stream)))) => (None, Some(stream)),
        Some(Ok(Ok((Some(item), stream)))) => (Some(Ok(Ok(item))), Some(stream)),
        Some(Ok(Err((err, stream)))) => (Some(Ok(Err(err))), Some(stream)),
        Some(Err(Dropped)) => (Some(Err(Dropped)), None),
    }
}

impl<S> CleanupIterator<S> {
    /// The stream held, or `None` once it got lost with the executor.
    pub closed spec fn stream(self) -> Option<S> {
        self.0
    }

    /// A constructor.
    pub fn new(stream: S) -> (r: Self)
        ensures
            r.stream() == Some(stream),
    {
        CleanupIterator(Some(stream))
    }

    /// Extracts the stream inside.
    ///
    /// Returns `Err(Dropped)` if the stream got lost when the executor got dropped while
    /// iterating.
    pub fn into_inner(self) -> (r: Result<S, Dropped>)
        ensures
            match self.stream() {
                Some(s) => r == Ok::<S, Dropped>(s),
                None => r == Err::<S, Dropped>(Dropped),
            },
    {
        match self.0 {
            Some(s) => Ok(s),
            None => Err(Dropped),
        }
    }

    /// Takes the stream out for the wait of the next step (`None` when it was lost before).
    pub fn take_stream(&mut self) -> (r: Option<S>)
        ensures
            r == old(self).stream(),
            final(self).stream() is None,
    {
        self.0.take()
    }

    /// Finishes a step of the iteration with the outcome of the wait, `None` meaning the stream
    /// was already lost and there was nothing to wait on.
    ///
    /// Yields the item or the stream's error and keeps the stream given back; the end of the
    /// stream yields `None`. A vanished executor yields `Err(Dropped)` and the stream stays lost.
    pub fn advance<I, E>(&mut self, resolved: Option<StreamStep<I, E, S>>) -> (r: Option<
        Result<Result<I, E>, Dropped>,
    >)
        requires
            old(self).stream() is None,
        ensures
            (r, final(self).stream()) == cleanup_step(resolved),
    {
        match resolved {
            None => Some(Err(Dropped)),
            Some(Ok(Ok((None, stream)))) => {
                self.0 = Some(stream);
                None
            },
            Some(Ok(Ok((Some(item), stream)))) => {
                self.0 = Some(stream);
                Some(Ok(Ok(item)))
            },
            Some(Ok(Err((err, stream)))) => {
                self.0 = Some(stream);
                Some(Ok(Err(err)))
            },
            Some(Err(Dropped)) => Some(Err(Dropped)),
        }
    }
}

/// The items a cleanup iterator holding `stream` yields over several steps, where `waits` are
/// the outcomes the waits would have (a lost stream is not waited on, its outcome is unused).
pub open spec fn cleanup_steps<I, E, S>(stream: Option<S>, waits: Seq<StreamStep<I, E, S>>) -> Seq<
    Option<Result<Result<I, E>, Dropped>>,
>
    decreases waits.len(),
{
    if waits.len() == 0 {
        Seq::empty()
    } else {
        let resolved = match stream {
            Some(_) => Some(waits[0]),
            None => None,
        };
        let (item, kept) = cleanup_step(resolved);
        seq![item] + cleanup_steps(kept, waits.drop_first())
    }
}

/// A step that yields `Err(Dropped)` loses the stream, and once the stream is lost every
/// further step yields `Err(Dropped)` (never `None`) without waiting on anything (with no
/// stream, `into_inner` gives `Err(Dropped)` as well).
pub proof fn lemma_lost_stream_stays_lost<I, E, S>(
    resolved: Option<StreamStep<I, E, S>>,
    waits: Seq<StreamStep<I, E, S>>,
)
    ensures
        cleanup_step(resolved).0 == Some(Err::<Result<I, E>, Dropped>(Dropped)) ==> cleanup_step(
            resolved,
        ).1 is None,
        cleanup_step::<I, E, S>(None) == (
            Some(Err::<Result<I, E>, Dropped>(Dropped)),
            None::<S>,
        ),
        cleanup_steps::<I, E, S>(None, waits).len() == waits.len(),
        forall|k: int|
            0 <= k < waits.len() ==> #[trigger] cleanup_steps::<I, E, S>(None, waits)[k] == Some(
                Err::<Result<I, E>, Dropped>(Dropped),
            ),
    decreases waits.len(),
{
    if waits.len() > 0 {
        lemma_lost_stream_stays_lost::<I, E, S>(None, waits.drop_first());
        let rest = cleanup_steps::<I, E, S>(None, waits.drop_first());
        assert(cleanup_steps::<I, E, S>(None, waits) == seq![
            Some(Err::<Result<I, E>, Dropped>(Dropped)),
        ] + rest);
    }
}

/// An iterator through the successful items of a stream; it wraps a cleanup iterator.
pub struct OkIterator<I>(I);

impl<I> OkIterator<I> {
    /// The wrapped iterator.
    pub closed spec fn inner(self) -> I {
        self.0
    }

    /// A constructor.
    pub fn new(inner: I) -> (r: Self)
        ensures
            r.inner() == inner,
    {
        OkIterator(inner)
    }

    /// Accesses the wrapped iterator mutably, to draw its next item.
    pub fn inner_mut(&mut self) -> (r: &mut I)
        ensures
            *r == old(self).inner(),
            final(self).inner() == *final(r),
    {
        &mut self.0
    }

    /// Extracts the `CleanupIterator` inside.
    pub fn into_inner(self) -> (r: I)
        ensures
            r == self.inner(),
    {
        self.0
    }
}

/// What the iterator through successful items yields for an item of the cleanup iterator:
/// successful items pass, the end of the stream and its first error end the iteration, and a
/// vanished executor is an `Err(Dropped)` the caller unwinds with.
pub fn ok_item<T, E>(next: Option<Result<Result<T, E>, Dropped>>) -> (r: Result<
    Option<T>,
    Dropped,
>)
    ensures
        next is None ==> r == Ok::<Option<T>, Dropped>(None),
        next matches Some(Ok(Ok(t))) ==> r == Ok::<Option<T>, Dropped>(Some(t)),
        next matches Some(Ok(Err(_))) ==> r == Ok::<Option<T>, Dropped>(None),
        next matches Some(Err(_)) ==> r == Err::<Option<T>, Dropped>(Dropped),
{
    match next {
        None => Ok(None),
        Some(Ok(Ok(t))) => Ok(Some(t)),
        Some(Ok(Err(_))) => Ok(None),
        Some(Err(_)) => Err(Dropped),
    }
}

/// An iterator through the results (items and errors) of a stream; it wraps a cleanup
/// iterator.
pub struct ResultIterator<I>(I);

impl<I> ResultIterator<I> {
    /// The wrapped iterator.
    pub closed spec fn inner(self) -> I {
        self.0
    }

    /// A constructor.
    pub fn new(inner: I) -> (r: Self)
        ensures
            r.inner() == inner,
    {
        ResultIterator(inner)
    }

    /// Accesses the wrapped iterator mutably, to draw its next item.
    pub fn inner_mut(&mut self) -> (r: &mut I)
        ensures
            *r == old(self).inner(),
            final(self).inner() == *final(r),
    {
        &mut self.0
    }

    /// Extracts the `CleanupIterator` inside.
    pub fn into_inner(self) -> (r: I)
        ensures
            r == self.inner(),
    {
        self.0
    }
}

/// What the iterator through results yields for an item of the cleanup iterator: items and
/// errors pass, the end of the stream ends the iteration, and a vanished executor is an
/// `Err(Dropped)` the caller unwinds with.
pub fn result_item<T, E>(next: Option<Result<Result<T, E>, Dropped>>) -> (r: Result<
    Option<Result<T, E>>,
    Dropped,
>)
    ensures
        next is None ==> r == Ok::<Option<Result<T, E>>, Dropped>(None),
        next matches Some(Ok(item)) ==> r == Ok::<Option<Result<T, E>>, Dropped>(Some(item)),
        next matches Some(Err(_)) ==> r == Err::<Option<Result<T, E>>, Dropped>(Dropped),
{
    match next {
        None => Ok(None),
        Some(Ok(item)) => Ok(Some(item)),
        Some(Err(_)) => Err(Dropped),
    }
}

/// A future that extracts one item from a stream.
///
/// It borrows the stream mutably and allows taking one item out of it. Unlike consuming the
/// stream into a future, this does not consume the stream.
pub struct StreamExtractor<'a, S: 'a>(&'a mut S);

impl<'a, S: 'a> StreamExtractor<'a, S> {
    /// The borrowed stream.
    pub closed spec fn stream(self) -> S {
        *self.0
    }

    /// A constructor.
    pub fn new(stream: &'a mut S) -> (r: Self)
        ensures
            r.stream() == *old(stream),
    {
        StreamExtractor(stream)
    }

    /// The borrowed stream, to be polled for its next item.
    pub fn stream_mut(&mut self) -> (r: &mut S)
        ensures
            *r == old(self).stream(),
            final(self).stream() == *final(r),
    {
        &mut *self.0
    }
}

/// The items a sink sender still has to deliver, in order: the handed-back item (if any),
/// then what the iterator has left.
pub open spec fn outstanding<V>(held: Option<V>, rest: Seq<V>) -> Seq<V> {
    match held {
        Some(v) => seq![v] + rest,
        None => rest,
    }
}

/// The items a sink accepts while a sender offers `queue` and the sink answers each offer with
/// `accepts` (true: accepted; false: the item is handed back and offered again next).
pub open spec fn accepted_items<V>(queue: Seq<V>, accepts: Seq<bool>) -> Seq<V>
    decreases accepts.len(),
{
    if accepts.len() == 0 || queue.len() == 0 {
        Seq::empty()
    } else if accepts[0] {
        seq![queue[0]] + accepted_items(queue.drop_first(), accepts.drop_first())
    } else {
        accepted_items(queue, accepts.drop_first())
    }
}

/// How many offers the sink accepts.
pub open spec fn acceptances(accepts: Seq<bool>) -> nat
    decreases accepts.len(),
{
    if accepts.len() == 0 {
        0
    } else {
        (if accepts[0] {
            1nat
        } else {
            0nat
        }) + acceptances(accepts.drop_first())
    }
}

/// Handing back the item just drawn puts it in front of the outstanding items again, so the
/// outstanding items are as they were before it was drawn.
pub proof fn lemma_handed_back_restores<V>(queue: Seq<V>)
    requires
        queue.len() > 0,
    ensures
        outstanding(Some(queue[0]), queue.drop_first()) == queue,
{
    assert(seq![queue[0]] + queue.drop_first() =~= queue);
}

/// The sink gets the items in the order they are outstanding, each once: what it accepted is
/// always a prefix of them, and once it accepted as many offers as there are items, it got
/// exactly all of them.
pub proof fn lemma_items_delivered_in_order<V>(queue: Seq<V>, accepts: Seq<bool>)
    ensures
        accepted_items(queue, accepts).len() <= queue.len(),
        accepted_items(queue, accepts) == queue.take(accepted_items(queue, accepts).len() as int),
        acceptances(accepts) >= queue.len() ==> accepted_items(queue, accepts) == queue,
    decreases accepts.len(),
{
    if accepts.len() == 0 || queue.len() == 0 {
        assert(queue.take(0) =~= Seq::<V>::empty());
        if queue.len() == 0 {
            assert(queue =~= Seq::<V>::empty());
        }
    } else if accepts[0] {
        let rest = queue.drop_first();
        lemma_items_delivered_in_order(rest, accepts.drop_first());
        let got = accepted_items(rest, accepts.drop_first());
        assert(accepted_items(queue, accepts) == seq![queue[0]] + got);
        assert(seq![queue[0]] + rest.take(got.len() as int) =~= queue.take(got.len() as int + 1));
        if acceptances(accepts) >= queue.len() {
            assert(seq![queue[0]] + rest =~= queue);
        }
    } else {
        lemma_items_delivered_in_order(queue, accepts.drop_first());
    }
}

/// One offer of a sender to its sink, over the outstanding items: the first one is drawn and
/// offered; an accepted item is gone, a handed-back one is outstanding again in front.
pub open spec fn offer_step<V>(before: Seq<V>, accepted: bool, after: Seq<V>) -> bool {
    &&& before.len() > 0
    &&& after == if accepted {
        before.drop_first()
    } else {
        before
    }
}

/// The items delivered over a run of offers, where `queues[i]` is outstanding before offer `i`.
pub open spec fn delivered<V>(queues: Seq<Seq<V>>, accepts: Seq<bool>) -> Seq<V>
    decreases accepts.len(),
{
    if accepts.len() == 0 {
        Seq::empty()
    } else {
        (if accepts[0] {
            seq![queues[0][0]]
        } else {
            Seq::empty()
        }) + delivered(queues.drop_first(), accepts.drop_first())
    }
}

/// Drawing an item with `next` and handing the sink's answer to `accept` is one offer: by
/// their contracts, `next` draws the first outstanding item and leaves the rest outstanding,
/// and `accept` leaves nothing held on acceptance and holds the handed-back item otherwise.
pub proof fn lemma_next_then_accept_is_offer<V>(
    queue: Seq<V>,
    drawn: V,
    rest: Seq<V>,
    held_after: Option<V>,
)
    requires
        queue.len() > 0,
        drawn == queue[0],
        rest == queue.drop_first(),
        held_after is None || held_after == Some(drawn),
    ensures
        offer_step(queue, held_after is None, outstanding(held_after, rest)),
{
    if held_after is Some {
        lemma_handed_back_restores(queue);
    }
}

/// A run of offers delivers to the sink exactly `accepted_items` of what was outstanding at the
/// start: in order, each item once.
pub proof fn lemma_offers_deliver_in_order<V>(queues: Seq<Seq<V>>, accepts: Seq<bool>)
    requires
        queues.len() == accepts.len() + 1,
        forall|i: int|
            0 <= i < accepts.len() ==> #[trigger] offer_step(queues[i], accepts[i], queues[i + 1]),
    ensures
        delivered(queues, accepts) == accepted_items(queues[0], accepts),
    decreases accepts.len(),
{
    if accepts.len() > 0 {
        let tail_q = queues.drop_first();
        let tail_a = accepts.drop_first();
        assert forall|i: int| 0 <= i < tail_a.len() implies #[trigger] offer_step(
            tail_q[i],
            tail_a[i],
            tail_q[i + 1],
        ) by {
            let j = i + 1;
            assert(offer_step(queues[j], accepts[j], queues[j + 1]));
            assert(tail_q[i] == queues[j] && tail_a[i] == accepts[j] && tail_q[i + 1] == queues[j + 1]);
        }
        lemma_offers_deliver_in_order(tail_q, tail_a);
        assert(offer_step(queues[0], accepts[0], queues[1]));
    }
}

/// A future sending a sequence of items into a sink.
///
/// This borrows a sink and sends the provided items (from an iterator) into it. An item the sink
/// hands back (because it is full) is kept and offered again before any further item.
#[verifier::reject_recursive_types(V)]
pub struct SinkSender<'a, V, S: 'a, I: Iterator<Item = V>> {
    sink: &'a mut S,
    iter: Option<I>,
    value: Option<V>,
}

impl<'a, V, S: 'a, I: Iterator<Item = V>> SinkSender<'a, V, S, I> {
    /// The borrowed sink.
    pub closed spec fn sink(self) -> S {
        *self.sink
    }

    /// The iterator still to be drawn from, or `None` once it ran out.
    pub closed spec fn source(self) -> Option<I> {
        self.iter
    }

    /// The item the sink handed back, to be offered again first.
    pub closed spec fn held(self) -> Option<V> {
        self.value
    }

    /// A constructor, sending the items of `iter` into `sink`.
    pub fn new(sink: &'a mut S, iter: I) -> (r: Self)
        ensures
            r.sink() == *old(sink),
            r.source() == Some(iter),
            r.held() is None,
    {
        SinkSender { sink, iter: Some(iter), value: None }
    }

    /// The borrowed sink, to offer items to and flush.
    pub fn sink_mut(&mut self) -> (r: &mut S)
        ensures
            *r == old(self).sink(),
            final(self).sink() == *final(r),
            final(self).source() == old(self).source(),
            final(self).held() == old(self).held(),
    {
        &mut *self.sink
    }

    /// Pulls the next value to offer to the sink.
    ///
    /// An item handed back earlier comes first. Otherwise the iterator is asked, unless it
    /// already ran out; once it yields nothing it is never asked again.
    pub fn next(&mut self) -> (r: Option<V>)
        ensures
            final(self).sink() == old(self).sink(),
            final(self).held() is None,
            old(self).held() is Some ==> r == old(self).held() && final(self).source()
                == old(self).source(),
            old(self).held() is None && old(self).source() is None ==> r is None
                && final(self).source() is None,
            old(self).held() is None && old(self).source() is Some ==> (r is None
                <==> final(self).source() is None),
            old(self).source() matches Some(it) ==> (it.obeys_prophetic_iter_laws() ==> ({
                let queue = outstanding(old(self).held(), it.remaining());
                if queue.len() > 0 {
                    &&& r == Some(queue[0])
                    &&& final(self).source() matches Some(rest) && rest.obeys_prophetic_iter_laws()
                        && outstanding(final(self).held(), rest.remaining()) == queue.drop_first()
                } else {
                    r is None && final(self).source() is None
                }
            })),
            old(self).held() is None ==> (old(self).source() matches Some(it) ==> (
            it.obeys_prophetic_iter_laws() ==> if it.remaining().len() > 0 {
                &&& r == Some(it.remaining()[0])
                &&& final(self).source() matches Some(rest) && rest.remaining()
                    == it.remaining().drop_first()
            } else {
                r is None
            })),
    {
        if self.value.is_some() {
            return self.value.take();
        }
        let result = match &mut self.iter {
            Some(it) => it.next(),
            None => None,
        };
        if result.is_none() {
            self.iter = None;
        }
        result
    }

    /// Handles the sink's answer to an offered item.
    ///
    /// `None` means the item was accepted and sending goes on. An item the sink hands back is
    /// kept to be offered first next time and the sending waits (`NotReady`); an error of the
    /// sink ends the sending with that error.
    pub fn accept<E>(&mut self, answer: Result<AsyncSink<V>, E>) -> (r: Option<Result<Async<()>, E>>)
        requires
            old(self).held() is None,
        ensures
            final(self).sink() == old(self).sink(),
            final(self).source() == old(self).source(),
            answer == Ok::<AsyncSink<V>, E>(AsyncSink::Ready) ==> r is None && final(self).held() is None,
            answer matches Ok(AsyncSink::NotReady(v)) ==> r == Some(Ok::<Async<()>, E>(Async::NotReady))
                && final(self).held() == Some(v),
            answer matches Err(e) ==> r == Some(Err::<Async<()>, E>(e)) && final(self).held() is None,
    {
        match answer {
            Err(e) => Some(Err(e)),
            Ok(AsyncSink::NotReady(returned)) => {
                self.value = Some(returned);
                Some(Ok(Async::NotReady))
            },
            Ok(AsyncSink::Ready) => None,
        }
    }
}

} // verus!
