use slim_futures::async_iter::and_then_async::AndThenAsync;
use slim_futures::async_iter::filter_async::FilterAsync;
use slim_futures::async_iter::filter_map_async::FilterMapAsync;
use slim_futures::async_iter::flat_map_async::{FlatMapAsync, FlatMapAsyncStep};
use slim_futures::async_iter::map_async::MapAsync;
use slim_futures::async_iter::map_err_async::MapErrAsync;
use slim_futures::async_iter::map_ok_async::MapOkAsync;
use slim_futures::async_iter::map_while_async::MapWhileAsync;
use slim_futures::async_iter::or_else_async::OrElseAsync;
use slim_futures::async_iter::scan_async::ScanAsync;
use slim_futures::async_iter::skip_while_async::SkipWhileAsync;
use slim_futures::async_iter::take_while_async::TakeWhileAsync;
use slim_futures::poll::{Poll, Step};

/// An async iterator over a list that is always ready.
#[derive(Clone)]
struct Items<T> {
    items: Vec<T>,
    next: usize,
}

impl<T: Clone> Items<T> {
    fn new(items: Vec<T>) -> Self {
        Items { items, next: 0 }
    }

    fn poll_next(&mut self) -> Poll<Option<T>> {
        if self.next < self.items.len() {
            self.next += 1;
            Poll::Ready(Some(self.items[self.next - 1].clone()))
        } else {
            Poll::Ready(None)
        }
    }
}

fn range(start: u32, end: u32) -> Items<u32> {
    Items::new((start..end).collect())
}

/// A future that is pending for `delay` polls, then ready with its value.
#[derive(Clone)]
struct Soon<T> {
    value: Option<T>,
    delay: u32,
}

impl<T> Soon<T> {
    fn now(value: T) -> Self {
        Soon { value: Some(value), delay: 0 }
    }

    fn later(value: T) -> Self {
        Soon { value: Some(value), delay: 1 }
    }

    fn poll(&mut self) -> Poll<T> {
        if self.delay > 0 {
            self.delay -= 1;
            Poll::Pending
        } else {
            Poll::Ready(self.value.take().expect("polled after completion"))
        }
    }
}

/// What the driver is asked to do.
enum Act {
    Resume,
    Iter,
    Held,
}

/// Runs one poll of a combinator, where `act` starts the poll or polls the
/// underlying iterator or the held future and hands the answer on.
fn one_poll<C, R>(c: &mut C, act: &mut impl FnMut(&mut C, Act) -> Step<R>) -> Poll<R> {
    let mut step = act(c, Act::Resume);
    loop {
        step = match step {
            Step::PollIter => act(c, Act::Iter),
            Step::PollHeld => act(c, Act::Held),
            Step::Finish(answer) => return answer,
        };
    }
}

/// Collects the items of an async iterator, polling again after `Pending`;
/// also counts the polls answered `Pending`.
fn collect<C, T>(c: &mut C, mut act: impl FnMut(&mut C, Act) -> Step<Option<T>>) -> (Vec<T>, usize) {
    let mut out = Vec::new();
    let mut pending = 0;
    loop {
        match one_poll(c, &mut act) {
            Poll::Ready(Some(x)) => out.push(x),
            Poll::Ready(None) => return (out, pending),
            Poll::Pending => pending += 1,
        }
    }
}

fn map_fn(x: u32) -> Soon<u64> {
    Soon::now(u64::from(x) * 10)
}

fn map_fn_later(x: u32) -> Soon<u64> {
    Soon::later(u64::from(x) * 10)
}

fn collect_map_async(mut iter: MapAsync<Items<u32>, fn(u32) -> Soon<u64>, Soon<u64>>) -> (Vec<u64>, usize) {
    collect(&mut iter, |c, act| match act {
        Act::Resume => c.resume(),
        Act::Iter => {
            let polled = c.iter_mut().poll_next();
            c.on_iter(polled)
        },
        Act::Held => {
            let polled = c.held_mut().poll();
            c.on_held(polled)
        },
    })
}

#[test]
fn test_map_async() {
    let iter = MapAsync::new(range(0, 10), map_fn as fn(u32) -> Soon<u64>);
    assert_eq!(collect_map_async(iter).0, [0, 10, 20, 30, 40, 50, 60, 70, 80, 90]);
}

#[test]
fn test_map_async_clone() {
    let iter = MapAsync::new(range(0, 10), map_fn as fn(u32) -> Soon<u64>);
    let iter_2 = iter.clone();
    assert_eq!(collect_map_async(iter).0, [0, 10, 20, 30, 40, 50, 60, 70, 80, 90]);
    assert_eq!(collect_map_async(iter_2).0, [0, 10, 20, 30, 40, 50, 60, 70, 80, 90]);
}

#[test]
fn map_async_keeps_a_pending_future_until_it_is_ready() {
    let iter = MapAsync::new(range(0, 3), map_fn_later as fn(u32) -> Soon<u64>);
    assert_eq!(collect_map_async(iter), (vec![0, 10, 20], 3));
    let mut held = MapAsync::new(range(0, 3), map_fn_later as fn(u32) -> Soon<u64>);
    let polled = held.iter_mut().poll_next();
    assert_eq!(held.on_iter::<u32, u64>(polled), Step::PollHeld);
    assert_eq!(held.size_hint((2, Some(2))), (3, Some(3)));
    assert!(held.is_terminated(true, false) == false);
}

fn collect_filter_async<P: FnMut(&u32) -> Soon<bool>>(mut iter: FilterAsync<Items<u32>, P, u32, Soon<bool>>) -> Vec<u32> {
    collect(&mut iter, |c, act| match act {
        Act::Resume => c.resume(),
        Act::Iter => {
            let polled = c.iter_mut().poll_next();
            c.on_iter(polled)
        },
        Act::Held => {
            let polled = c.held_mut().poll();
            c.on_held(polled)
        },
    }).0
}

#[test]
fn test_filter_async() {
    let iter = FilterAsync::new(range(0, 10), |x: &u32| Soon::now(*x % 2 == 0));
    assert_eq!(collect_filter_async(iter), [0, 2, 4, 6, 8]);
}

#[test]
fn test_filter_async_clone() {
    let iter = FilterAsync::new(range(0, 10), |x: &u32| Soon::later(*x % 2 == 0));
    let iter_2 = iter.clone();
    assert_eq!(collect_filter_async(iter), [0, 2, 4, 6, 8]);
    assert_eq!(collect_filter_async(iter_2), [0, 2, 4, 6, 8]);
}

fn filter_map_fn(x: u32) -> Soon<Option<u32>> {
    Soon::now((x % 2 == 0).then_some(x * 10))
}

fn collect_filter_map_async(
    mut iter: FilterMapAsync<Items<u32>, fn(u32) -> Soon<Option<u32>>, Soon<Option<u32>>>,
) -> Vec<u32> {
    collect(&mut iter, |c, act| match act {
        Act::Resume => c.resume(),
        Act::Iter => {
            let polled = c.iter_mut().poll_next();
            c.on_iter(polled)
        },
        Act::Held => {
            let polled = c.held_mut().poll();
            c.on_held(polled)
        },
    }).0
}

#[test]
fn test_filter_map_async() {
    let iter = FilterMapAsync::new(range(0, 10), filter_map_fn as fn(u32) -> Soon<Option<u32>>);
    assert_eq!(collect_filter_map_async(iter), [0, 20, 40, 60, 80]);
}

#[test]
fn test_filter_map_async_clone() {
    let iter = FilterMapAsync::new(range(0, 10), filter_map_fn as fn(u32) -> Soon<Option<u32>>);
    let iter_2 = iter.clone();
    assert_eq!(collect_filter_map_async(iter), [0, 20, 40, 60, 80]);
    assert_eq!(collect_filter_map_async(iter_2), [0, 20, 40, 60, 80]);
}

fn map_while_async_fn(x: u32) -> Soon<Option<u32>> {
    Soon::now((x < 5).then_some(x * 10))
}

fn collect_map_while_async(
    mut iter: MapWhileAsync<Items<u32>, fn(u32) -> Soon<Option<u32>>, Soon<Option<u32>>>,
) -> Vec<u32> {
    collect(&mut iter, |c, act| match act {
        Act::Resume => c.resume(),
        Act::Iter => {
            let polled = c.iter_mut().poll_next();
            c.on_iter(polled)
        },
        Act::Held => {
            let polled = c.held_mut().poll();
            c.on_held(polled)
        },
    }).0
}

#[test]
fn test_map_while_async() {
    let iter = MapWhileAsync::new(range(0, 10), map_while_async_fn as fn(u32) -> Soon<Option<u32>>);
    assert_eq!(collect_map_while_async(iter), [0, 10, 20, 30, 40]);
}

#[test]
fn test_map_while_async_clone() {
    let iter = MapWhileAsync::new(range(0, 10), map_while_async_fn as fn(u32) -> Soon<Option<u32>>);
    let iter_2 = iter.clone();
    assert_eq!(collect_map_while_async(iter), [0, 10, 20, 30, 40]);
    assert_eq!(collect_map_while_async(iter_2), [0, 10, 20, 30, 40]);
}

fn collect_skip_while_async<F: FnMut(&u32) -> Soon<bool>>(
    mut iter: SkipWhileAsync<Items<u32>, F, u32, Soon<bool>>,
) -> Vec<u32> {
    collect(&mut iter, |c, act| match act {
        Act::Resume => c.resume(),
        Act::Iter => {
            let polled = c.iter_mut().poll_next();
            c.on_iter(polled)
        },
        Act::Held => {
            let polled = c.held_mut().poll();
            c.on_held(polled)
        },
    }).0
}

#[test]
fn test_skip_while_async() {
    let iter = SkipWhileAsync::new(range(0, 10), |x: &u32| Soon::now(*x < 5));
    assert_eq!(collect_skip_while_async(iter), [5, 6, 7, 8, 9]);
}

#[test]
fn test_skip_while_async_clone() {
    let iter = SkipWhileAsync::new(range(0, 10), |x: &u32| Soon::later(*x < 5));
    let iter_2 = iter.clone();
    assert_eq!(collect_skip_while_async(iter), [5, 6, 7, 8, 9]);
    assert_eq!(collect_skip_while_async(iter_2), [5, 6, 7, 8, 9]);
}

fn collect_take_while_async<P: FnMut(&u32) -> Soon<bool>>(
    mut iter: TakeWhileAsync<Items<u32>, P, u32, Soon<bool>>,
) -> Vec<u32> {
    collect(&mut iter, |c, act| match act {
        Act::Resume => c.resume(),
        Act::Iter => {
            let polled = c.iter_mut().poll_next();
            c.on_iter(polled)
        },
        Act::Held => {
            let polled = c.held_mut().poll();
            c.on_held(polled)
        },
    }).0
}

#[test]
fn test_take_while_async() {
    let iter = TakeWhileAsync::new(range(0, 10), |x: &u32| Soon::now(*x < 5));
    assert_eq!(collect_take_while_async(iter), [0, 1, 2, 3, 4]);
}

#[test]
fn test_take_while_async_clone() {
    let iter = TakeWhileAsync::new(range(0, 10), |x: &u32| Soon::later(*x < 5));
    let iter_2 = iter.clone();
    assert_eq!(collect_take_while_async(iter), [0, 1, 2, 3, 4]);
    assert_eq!(collect_take_while_async(iter_2), [0, 1, 2, 3, 4]);
}

fn scan_async_fn(state: &mut u32, item: u32) -> Soon<Option<u64>> {
    *state += item;
    Soon::now((*state < 10).then_some(u64::from(*state)))
}

fn collect_scan_async(
    mut iter: ScanAsync<Items<u32>, u32, fn(&mut u32, u32) -> Soon<Option<u64>>, Soon<Option<u64>>>,
) -> Vec<u64> {
    collect(&mut iter, |c, act| match act {
        Act::Resume => c.resume(),
        Act::Iter => {
            let polled = c.iter_mut().poll_next();
            c.on_iter(polled)
        },
        Act::Held => {
            let polled = c.held_mut().poll();
            c.on_held(polled)
        },
    }).0
}

#[test]
fn test_scan_async() {
    let iter = ScanAsync::new(range(0, 10), 0, scan_async_fn as fn(&mut u32, u32) -> Soon<Option<u64>>);
    assert_eq!(collect_scan_async(iter), [0, 1, 3, 6]);
}

#[test]
fn test_scan_async_clone() {
    let iter = ScanAsync::new(range(0, 10), 0, scan_async_fn as fn(&mut u32, u32) -> Soon<Option<u64>>);
    let iter_2 = iter.clone();
    assert_eq!(collect_scan_async(iter), [0, 1, 3, 6]);
    assert_eq!(collect_scan_async(iter_2), [0, 1, 3, 6]);
}

fn results() -> Items<Result<u32, u32>> {
    Items::new(vec![Ok(2), Ok(3), Err(5), Err(7), Ok(11), Ok(13)])
}

fn and_then_async_fn(x: u32) -> Soon<Result<u64, u32>> {
    if x < 12 {
        Soon::now(Ok(u64::from(x * 100)))
    } else {
        Soon::now(Err(x * 1000))
    }
}

type AndThenIter = AndThenAsync<Items<Result<u32, u32>>, fn(u32) -> Soon<Result<u64, u32>>, Soon<Result<u64, u32>>>;

fn collect_and_then_async(mut iter: AndThenIter) -> Vec<Result<u64, u32>> {
    collect(&mut iter, |c, act| match act {
        Act::Resume => c.resume(),
        Act::Iter => {
            let polled = c.iter_mut().poll_next();
            c.on_iter(polled)
        },
        Act::Held => {
            let polled = c.held_mut().poll();
            c.on_held(polled)
        },
    }).0
}

#[test]
fn test_and_then_async() {
    let iter = AndThenAsync::new(results(), and_then_async_fn as fn(u32) -> Soon<Result<u64, u32>>);
    assert_eq!(collect_and_then_async(iter), [Ok(200), Ok(300), Err(5), Err(7), Ok(1100), Err(13000)]);
}

#[test]
fn test_and_then_async_clone() {
    let iter = AndThenAsync::new(results(), and_then_async_fn as fn(u32) -> Soon<Result<u64, u32>>);
    let iter_2 = iter.clone();
    assert_eq!(collect_and_then_async(iter), [Ok(200), Ok(300), Err(5), Err(7), Ok(1100), Err(13000)]);
    assert_eq!(collect_and_then_async(iter_2), [Ok(200), Ok(300), Err(5), Err(7), Ok(1100), Err(13000)]);
}

fn or_else_async_fn(x: u32) -> Soon<Result<u32, u64>> {
    if x < 7 {
        Soon::now(Ok(x * 100))
    } else {
        Soon::now(Err(u64::from(x * 1000)))
    }
}

type OrElseIter = OrElseAsync<Items<Result<u32, u32>>, fn(u32) -> Soon<Result<u32, u64>>, Soon<Result<u32, u64>>>;

fn collect_or_else_async(mut iter: OrElseIter) -> Vec<Result<u32, u64>> {
    collect(&mut iter, |c, act| match act {
        Act::Resume => c.resume(),
        Act::Iter => {
            let polled = c.iter_mut().poll_next();
            c.on_iter(polled)
        },
        Act::Held => {
            let polled = c.held_mut().poll();
            c.on_held(polled)
        },
    }).0
}

#[test]
fn test_or_else_async() {
    let iter = OrElseAsync::new(results(), or_else_async_fn as fn(u32) -> Soon<Result<u32, u64>>);
    assert_eq!(collect_or_else_async(iter), [Ok(2), Ok(3), Ok(500), Err(7000), Ok(11), Ok(13)]);
}

#[test]
fn test_or_else_async_clone() {
    let iter = OrElseAsync::new(results(), or_else_async_fn as fn(u32) -> Soon<Result<u32, u64>>);
    let iter_2 = iter.clone();
    assert_eq!(collect_or_else_async(iter), [Ok(2), Ok(3), Ok(500), Err(7000), Ok(11), Ok(13)]);
    assert_eq!(collect_or_else_async(iter_2), [Ok(2), Ok(3), Ok(500), Err(7000), Ok(11), Ok(13)]);
}

fn times_100(x: u32) -> Soon<u64> {
    Soon::later(u64::from(x * 100))
}

fn collect_map_ok_async(
    mut iter: MapOkAsync<Items<Result<u32, u32>>, fn(u32) -> Soon<u64>, Soon<u64>>,
) -> Vec<Result<u64, u32>> {
    collect(&mut iter, |c, act| match act {
        Act::Resume => c.resume(),
        Act::Iter => {
            let polled = c.iter_mut().poll_next();
            c.on_iter(polled)
        },
        Act::Held => {
            let polled = c.held_mut().poll();
            c.on_held(polled)
        },
    }).0
}

#[test]
fn test_map_ok_async() {
    let iter = MapOkAsync::new(results(), times_100 as fn(u32) -> Soon<u64>);
    assert_eq!(collect_map_ok_async(iter), [Ok(200), Ok(300), Err(5), Err(7), Ok(1100), Ok(1300)]);
}

#[test]
fn test_map_ok_async_clone() {
    let iter = MapOkAsync::new(results(), times_100 as fn(u32) -> Soon<u64>);
    let iter_2 = iter.clone();
    assert_eq!(collect_map_ok_async(iter), [Ok(200), Ok(300), Err(5), Err(7), Ok(1100), Ok(1300)]);
    assert_eq!(collect_map_ok_async(iter_2), [Ok(200), Ok(300), Err(5), Err(7), Ok(1100), Ok(1300)]);
}

fn collect_map_err_async(
    mut iter: MapErrAsync<Items<Result<u32, u32>>, fn(u32) -> Soon<u64>, Soon<u64>>,
) -> Vec<Result<u32, u64>> {
    collect(&mut iter, |c, act| match act {
        Act::Resume => c.resume(),
        Act::Iter => {
            let polled = c.iter_mut().poll_next();
            c.on_iter(polled)
        },
        Act::Held => {
            let polled = c.held_mut().poll();
            c.on_held(polled)
        },
    }).0
}

#[test]
fn test_map_err_async() {
    let iter = MapErrAsync::new(results(), times_100 as fn(u32) -> Soon<u64>);
    assert_eq!(collect_map_err_async(iter), [Ok(2), Ok(3), Err(500), Err(700), Ok(11), Ok(13)]);
}

#[test]
fn test_map_err_async_clone() {
    let iter = MapErrAsync::new(results(), times_100 as fn(u32) -> Soon<u64>);
    let iter_2 = iter.clone();
    assert_eq!(collect_map_err_async(iter), [Ok(2), Ok(3), Err(500), Err(700), Ok(11), Ok(13)]);
    assert_eq!(collect_map_err_async(iter_2), [Ok(2), Ok(3), Err(500), Err(700), Ok(11), Ok(13)]);
}

/// A sub-iterator counting down from its number.
#[derive(Clone)]
struct Countdown(u32);

impl Countdown {
    fn poll_next(&mut self) -> Poll<Option<u32>> {
        Poll::Ready(if self.0 == 0 {
            None
        } else {
            self.0 -= 1;
            Some(self.0)
        })
    }
}

fn flat_map_async_fn(n: u32) -> Soon<Countdown> {
    Soon::later(Countdown(n))
}

type FlatMapAsyncIter = FlatMapAsync<Items<u32>, fn(u32) -> Soon<Countdown>, Soon<Countdown>, Countdown>;

fn collect_flat_map_async(mut iter: FlatMapAsyncIter) -> Vec<u32> {
    let mut out = Vec::new();
    loop {
        let mut step = iter.resume();
        let answer = loop {
            step = match step {
                FlatMapAsyncStep::PollIter => {
                    let polled = iter.iter_mut().poll_next();
                    iter.on_iter(polled)
                },
                FlatMapAsyncStep::PollFuture => {
                    let polled = iter.future_mut().poll();
                    iter.on_future(polled)
                },
                FlatMapAsyncStep::PollSub => {
                    let polled = iter.sub_mut().poll_next();
                    iter.on_sub(polled)
                },
                FlatMapAsyncStep::Finish(answer) => break answer,
            };
        };
        match answer {
            Poll::Ready(Some(x)) => out.push(x),
            Poll::Ready(None) => return out,
            Poll::Pending => {},
        }
    }
}

#[test]
fn test_flat_map_async() {
    let iter = FlatMapAsync::new(range(0, 6), flat_map_async_fn as fn(u32) -> Soon<Countdown>);
    assert_eq!(collect_flat_map_async(iter), [0, 1, 0, 2, 1, 0, 3, 2, 1, 0, 4, 3, 2, 1, 0]);
}

#[test]
fn test_flat_map_async_clone() {
    let iter = FlatMapAsync::new(range(0, 6), flat_map_async_fn as fn(u32) -> Soon<Countdown>);
    let iter_2 = iter.clone();
    assert_eq!(collect_flat_map_async(iter), [0, 1, 0, 2, 1, 0, 3, 2, 1, 0, 4, 3, 2, 1, 0]);
    assert_eq!(collect_flat_map_async(iter_2), [0, 1, 0, 2, 1, 0, 3, 2, 1, 0, 4, 3, 2, 1, 0]);
}

#[test]
fn flat_map_async_terminates_with_what_it_holds() {
    let mut iter = FlatMapAsync::new(range(0, 2), flat_map_async_fn as fn(u32) -> Soon<Countdown>);
    assert!(iter.is_terminated(true, false, false));
    let polled = iter.iter_mut().poll_next();
    assert_eq!(iter.on_iter::<u32, u32>(polled), FlatMapAsyncStep::PollFuture);
    assert!(!iter.is_terminated(true, false, true));
    let polled = iter.future_mut().poll();
    assert_eq!(iter.on_future::<u32>(polled), FlatMapAsyncStep::Finish(Poll::Pending));
    let polled = iter.future_mut().poll();
    assert_eq!(iter.on_future::<u32>(polled), FlatMapAsyncStep::PollSub);
    assert!(iter.is_terminated(false, false, true));
}

fn option_to_result<T>(value: Option<T>) -> Result<T, ()> {
    value.ok_or(())
}

#[test]
fn test_map_ok_async_with_option() {
    let items = vec![Some(2), Some(3), None, None, Some(5), Some(7)];
    let mut iter = MapOkAsync::new(
        Items::new(items.into_iter().map(option_to_result).collect()),
        times_100 as fn(u32) -> Soon<u64>,
    );
    let out = collect(&mut iter, |c, act| match act {
        Act::Resume => c.resume(),
        Act::Iter => {
            let polled = c.iter_mut().poll_next();
            c.on_iter(polled)
        },
        Act::Held => {
            let polled = c.held_mut().poll();
            c.on_held(polled)
        },
    }).0;
    let out: Vec<Option<u64>> = out.into_iter().map(Result::ok).collect();
    assert_eq!(out, [Some(200), Some(300), None, None, Some(500), Some(700)]);
}

#[test]
fn test_or_else_async_with_option() {
    let mut iter = OrElseAsync::new(results(), |x: u32| Soon::now(option_to_result((x < 7).then_some(x * 100))));
    let out = collect(&mut iter, |c, act| match act {
        Act::Resume => c.resume(),
        Act::Iter => {
            let polled = c.iter_mut().poll_next();
            c.on_iter(polled)
        },
        Act::Held => {
            let polled = c.held_mut().poll();
            c.on_held(polled)
        },
    }).0;
    let out: Vec<Option<u32>> = out.into_iter().map(Result::ok).collect();
    assert_eq!(out, [Some(2), Some(3), Some(500), None, Some(11), Some(13)]);
}
