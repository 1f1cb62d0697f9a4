use corona::errors::Dropped;
use corona::io::BlockingWrapper;
use corona::poll::{Async, AsyncSink};
use corona::wrappers::{
    ok_item, result_item, CleanupIterator, OkIterator, ResultIterator, SinkSender, StreamExtractor,
    StreamStep,
};

/// A finite stream of results, driven by hand: each wait gives the next entry.
type Items = Vec<Result<u32, ()>>;

fn wait_next(mut stream: Items) -> StreamStep<u32, (), Items> {
    if stream.is_empty() {
        Ok(Ok((None, stream)))
    } else {
        match stream.remove(0) {
            Ok(item) => Ok(Ok((Some(item), stream))),
            Err(e) => Ok(Err((e, stream))),
        }
    }
}

fn cleanup_next(it: &mut CleanupIterator<Items>) -> Option<Result<Result<u32, ()>, Dropped>> {
    let resolved = it.take_stream().map(wait_next);
    it.advance(resolved)
}

fn sum_ok(items: Items) -> u32 {
    let mut it = OkIterator::new(CleanupIterator::new(items));
    let mut sum = 0;
    while let Some(v) = ok_item(cleanup_next(it.inner_mut())).unwrap() {
        sum += v;
    }
    sum
}

fn sum_results(items: Items) -> u32 {
    let mut it = ResultIterator::new(CleanupIterator::new(items));
    let mut sum = 0;
    while let Some(r) = result_item(cleanup_next(it.inner_mut())).unwrap() {
        if let Ok(v) = r {
            sum += v;
        }
    }
    sum
}

#[test]
fn iter_ok() {
    assert_eq!(42, sum_ok(vec![Ok(42)]));
}

#[test]
fn iter_ok_many() {
    // Terminates at the first error.
    assert_eq!(42, sum_ok(vec![Ok(42), Err(()), Ok(100)]));
}

#[test]
fn iter_result() {
    // Skips the errors.
    assert_eq!(42, sum_results(vec![Ok(12), Err(()), Ok(30)]));
}

#[test]
fn cleanup_iterator_walks_stream() {
    let mut it = CleanupIterator::new(vec![Ok(1), Err(()), Ok(2)]);
    assert_eq!(cleanup_next(&mut it), Some(Ok(Ok(1))));
    assert_eq!(cleanup_next(&mut it), Some(Ok(Err(()))));
    assert_eq!(cleanup_next(&mut it), Some(Ok(Ok(2))));
    assert_eq!(cleanup_next(&mut it), None);
    assert_eq!(it.into_inner(), Ok(vec![]));
}

#[test]
fn lost_stream_stays_lost() {
    let mut it = CleanupIterator::new(vec![Ok(1u32)]);
    let taken = it.take_stream();
    assert!(taken.is_some());
    assert_eq!(it.advance::<u32, ()>(Some(Err(Dropped))), Some(Err(Dropped)));
    for _ in 0..3 {
        assert_eq!(cleanup_next(&mut it), Some(Err(Dropped)));
    }
    assert_eq!(it.into_inner(), Err(Dropped));
}

#[test]
fn dropped_executor_asks_for_unwinding() {
    assert_eq!(ok_item::<u32, ()>(Some(Err(Dropped))), Err(Dropped));
    assert_eq!(result_item::<u32, ()>(Some(Err(Dropped))), Err(Dropped));
    assert_eq!(result_item::<u32, ()>(Some(Ok(Err(())))), Ok(Some(Err(()))));
    assert_eq!(ok_item::<u32, ()>(None), Ok(None));
}

#[test]
fn wrappers_give_back_inner() {
    let ok = OkIterator::new(5u8);
    assert_eq!(ok.into_inner(), 5);
    let res = ResultIterator::new("x");
    assert_eq!(res.into_inner(), "x");
}

/// Taking items out of a stream through an extractor does not consume the stream. The stream
/// here is a plain vector reached through the extractor, standing for the poll of a stream.
#[test]
fn stream_extract() {
    let mut s: Items = vec![Ok(42)];
    {
        let mut extractor = StreamExtractor::new(&mut s);
        let stream = extractor.stream_mut();
        assert_eq!(stream.remove(0), Ok(42));
    }
    assert!(s.is_empty());
    {
        let mut extractor = StreamExtractor::new(&mut s);
        assert!(extractor.stream_mut().is_empty());
    }
}

fn drain(sender: &mut SinkSender<u32, Vec<u32>, std::vec::IntoIter<u32>>, capacity: usize) -> Async<()> {
    while let Some(value) = sender.next() {
        let answer: Result<AsyncSink<u32>, ()> = if sender.sink_mut().len() < capacity {
            sender.sink_mut().push(value);
            Ok(AsyncSink::Ready)
        } else {
            Ok(AsyncSink::NotReady(value))
        };
        if let Some(stop) = sender.accept(answer) {
            return stop.unwrap();
        }
    }
    Async::Ready(())
}

/// Everything fits into the sink right away. The offers are made by `drain` above, which drives
/// the sender's `next` and `accept` the way the poll of the sending future does.
#[test]
fn sink_sender() {
    let data = vec![1, 2, 3];
    let mut sink = Vec::new();
    {
        let mut sender = SinkSender::new(&mut sink, data.clone().into_iter());
        assert_eq!(drain(&mut sender, 10), Async::Ready(()));
        assert_eq!(sender.next(), None);
    }
    assert_eq!(data, sink);
}

/// Not everything fits: the item that did not fit is sent first on the next attempt (offers
/// made by `drain`, as the poll of the sending future makes them).
#[test]
fn async_sink_sender() {
    let mut sink = Vec::new();
    let mut received = Vec::new();
    {
        let mut sender = SinkSender::new(&mut sink, vec![1, 2, 3].into_iter());
        loop {
            let state = drain(&mut sender, 1);
            received.append(sender.sink_mut());
            if state == Async::Ready(()) {
                break;
            }
        }
    }
    assert_eq!(vec![1, 2, 3], received);
}

#[test]
fn sink_error_aborts() {
    let mut sink: Vec<u32> = Vec::new();
    let mut sender = SinkSender::new(&mut sink, vec![1, 2].into_iter());
    let first = sender.next().unwrap();
    assert_eq!(first, 1);
    assert_eq!(sender.accept(Err::<AsyncSink<u32>, &str>("broken")), Some(Err("broken")));
    // The item is not kept; sending would go on with the next one.
    assert_eq!(sender.next(), Some(2));
}

#[test]
fn handed_back_item_is_offered_first() {
    let mut sink: Vec<u32> = Vec::new();
    let mut sender = SinkSender::new(&mut sink, vec![7, 8].into_iter());
    let v = sender.next().unwrap();
    assert_eq!(sender.accept::<()>(Ok(AsyncSink::NotReady(v))), Some(Ok(Async::NotReady)));
    assert_eq!(sender.next(), Some(7));
    assert_eq!(sender.next(), Some(8));
    assert_eq!(sender.next(), None);
    assert_eq!(sender.next(), None);
}

#[test]
fn blocking_wrapper_accessors() {
    let mut wrapper = BlockingWrapper::new(vec![1u8]);
    assert_eq!(wrapper.inner(), &vec![1u8]);
    wrapper.inner_mut().push(2);
    assert_eq!(wrapper.clone().into_inner(), vec![1, 2]);
    let from: BlockingWrapper<u8> = BlockingWrapper::from(3);
    assert_eq!(from, BlockingWrapper::new(3));
    assert_eq!(from.into_inner(), 3);
}
