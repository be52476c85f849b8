use slim_futures::async_iter::filter::{Filter, Find};
use slim_futures::async_iter::filter_map::{FilterMap, FindMap};
use slim_futures::async_iter::flat_map::FlatMap;
use slim_futures::async_iter::flatten::{flatten_size_hint, Flatten};
use slim_futures::async_iter::fuse::Fuse;
use slim_futures::async_iter::inspect::Inspect;
use slim_futures::async_iter::map::MapIter;
use slim_futures::async_iter::map_while::MapWhile;
use slim_futures::async_iter::scan::Scan;
use slim_futures::async_iter::skip_while::SkipWhile;
use slim_futures::async_iter::take_while::TakeWhile;
use slim_futures::async_iter::try_flatten::TryFlatten;
use slim_futures::async_iter::zip::{Zip, ZipStep};
use slim_futures::poll::{Poll, Step};

/// An async iterator over a list that is always ready.
#[derive(Clone)]
struct Items<T> {
    items: Vec<T>,
    next: usize,
}

impl<T: Clone> Items<T> {
    fn new(items: Vec<T>) -> Self {
        Items { items, next: 0 }
    }

    fn poll_next(&mut self) -> Poll<Option<T>> {
        if self.next < self.items.len() {
            self.next += 1;
            Poll::Ready(Some(self.items[self.next - 1].clone()))
        } else {
            Poll::Ready(None)
        }
    }

    fn hint(&self) -> (usize, Option<usize>) {
        let left = self.items.len() - self.next;
        (left, Some(left))
    }
}

fn range(start: u32, end: u32) -> Items<u32> {
    Items::new((start..end).collect())
}

/// Counts down from `n`, then ends; answers `None` again when polled after that.
#[derive(Clone)]
struct Countdown(u32);

impl Countdown {
    fn poll_next(&mut self) -> Poll<Option<u32>> {
        let item = self.0.checked_sub(1);
        if let Some(item) = item {
            self.0 = item;
        }
        Poll::Ready(item)
    }
}

/// Polls a stepping combinator through one poll, where `poll_iter` polls
/// the underlying iterator and hands the answer on.
fn one_poll<R>(mut poll_iter: impl FnMut() -> Step<R>) -> Poll<R> {
    loop {
        match poll_iter() {
            Step::PollIter => continue,
            Step::PollHeld => panic!("nothing is held"),
            Step::Finish(answer) => return answer,
        }
    }
}

/// Collects the answers of polls until the first `None`.
fn collect<T>(mut poll: impl FnMut() -> Poll<Option<T>>) -> Vec<T> {
    let mut out = Vec::new();
    loop {
        match poll() {
            Poll::Ready(Some(x)) => out.push(x),
            Poll::Ready(None) => return out,
            Poll::Pending => panic!("always ready"),
        }
    }
}

fn collect_filter<P: FnMut(&u32) -> bool>(mut f: Filter<Items<u32>, P>) -> Vec<u32> {
    collect(|| one_poll(|| {
        let polled = f.iter_mut().poll_next();
        f.on_iter(polled)
    }))
}

#[test]
fn test_filter() {
    let iter = Filter::new(range(0, 10), |x: &u32| *x % 2 == 0);
    assert_eq!(collect_filter(iter), [0, 2, 4, 6, 8]);
}

#[test]
fn test_filter_clone() {
    let iter = Filter::new(range(0, 10), |x: &u32| *x % 2 == 0);
    let iter_2 = iter.clone();
    assert_eq!(collect_filter(iter), [0, 2, 4, 6, 8]);
    assert_eq!(collect_filter(iter_2), [0, 2, 4, 6, 8]);
}

#[test]
fn filter_passes_pending_on_and_bounds_the_hint() {
    let mut iter = Filter::new(range(0, 10), |x: &u32| *x > 100);
    assert_eq!(iter.on_iter(Poll::<Option<u32>>::Pending), Step::Finish(Poll::Pending));
    assert_eq!(iter.size_hint((3, Some(7))), (0, Some(7)));
    assert_eq!(collect_filter(iter), Vec::<u32>::new());
}

fn run_find<P: FnMut(&u32) -> bool>(mut f: Find<Items<u32>, P>) -> Option<u32> {
    match one_poll(|| {
        let polled = f.iter_mut().poll_next();
        f.on_iter(polled)
    }) {
        Poll::Ready(answer) => answer,
        Poll::Pending => panic!("always ready"),
    }
}

#[test]
fn test_find() {
    assert_eq!(run_find(Find::new(Items::new(vec![2, 3, 5]), |x: &u32| *x > 2)), Some(3));
}

#[test]
fn test_find_fail() {
    assert!(run_find(Find::new(Items::new(vec![2, 3, 5]), |x: &u32| *x < 1)).is_none());
}

#[test]
fn test_find_clone() {
    let future = Find::new(Items::new(vec![2, 3, 5]), |x: &u32| *x > 2);
    let future_2 = future.clone();
    assert_eq!(run_find(future), Some(3));
    assert_eq!(run_find(future_2), Some(3));
}

fn map_fn(x: u32) -> u64 {
    u64::from(x) * 10
}

fn collect_map(mut f: MapIter<Items<u32>, fn(u32) -> u64>) -> Vec<u64> {
    collect(|| {
        let polled = f.iter_mut().poll_next();
        f.on_iter(polled)
    })
}

#[test]
fn test_map() {
    let iter = MapIter::new(range(0, 10), map_fn as fn(u32) -> u64);
    assert_eq!(collect_map(iter), [0, 10, 20, 30, 40, 50, 60, 70, 80, 90]);
}

#[test]
fn test_map_clone() {
    let iter = MapIter::new(range(0, 10), map_fn as fn(u32) -> u64);
    let iter_2 = iter.clone();
    assert_eq!(collect_map(iter), [0, 10, 20, 30, 40, 50, 60, 70, 80, 90]);
    assert_eq!(collect_map(iter_2), [0, 10, 20, 30, 40, 50, 60, 70, 80, 90]);
}

fn filter_map_fn(x: u32) -> Option<u32> {
    (x % 2 == 0).then_some(x * 10)
}

fn collect_filter_map(mut f: FilterMap<Items<u32>, fn(u32) -> Option<u32>>) -> Vec<u32> {
    collect(|| one_poll(|| {
        let polled = f.iter_mut().poll_next();
        f.on_iter(polled)
    }))
}

#[test]
fn test_filter_map() {
    let iter = FilterMap::new(range(0, 10), filter_map_fn as fn(u32) -> Option<u32>);
    assert_eq!(collect_filter_map(iter), [0, 20, 40, 60, 80]);
}

#[test]
fn test_filter_map_clone() {
    let iter = FilterMap::new(range(0, 10), filter_map_fn as fn(u32) -> Option<u32>);
    let iter_2 = iter.clone();
    assert_eq!(collect_filter_map(iter), [0, 20, 40, 60, 80]);
    assert_eq!(collect_filter_map(iter_2), [0, 20, 40, 60, 80]);
}

fn find_3_then_mul_10(x: u32) -> Option<u64> {
    (x == 3).then_some(u64::from(x) * 10)
}

fn find_7_then_mul_10(x: u32) -> Option<u64> {
    (x == 7).then_some(u64::from(x) * 10)
}

fn run_find_map(mut f: FindMap<Items<u32>, fn(u32) -> Option<u64>>) -> Option<u64> {
    match one_poll(|| {
        let polled = f.iter_mut().poll_next();
        f.on_iter(polled)
    }) {
        Poll::Ready(answer) => answer,
        Poll::Pending => panic!("always ready"),
    }
}

#[test]
fn test_find_map() {
    let future = FindMap::new(Items::new(vec![2, 3, 5]), find_3_then_mul_10 as fn(u32) -> Option<u64>);
    assert_eq!(run_find_map(future), Some(30));
}

#[test]
fn test_find_map_fail() {
    let future = FindMap::new(Items::new(vec![2, 3, 5]), find_7_then_mul_10 as fn(u32) -> Option<u64>);
    assert!(run_find_map(future).is_none());
}

#[test]
fn test_find_map_clone() {
    let future = FindMap::new(Items::new(vec![2, 3, 5]), find_3_then_mul_10 as fn(u32) -> Option<u64>);
    let future_2 = future.clone();
    assert_eq!(run_find_map(future), Some(30));
    assert_eq!(run_find_map(future_2), Some(30));
}

fn collect_take_while<F: FnMut(&u32) -> bool>(mut f: TakeWhile<Items<u32>, F>) -> Vec<u32> {
    collect(|| {
        let polled = f.iter_mut().poll_next();
        f.on_iter(polled)
    })
}

#[test]
fn test_take_while() {
    let iter = TakeWhile::new(range(0, 10), |x: &u32| *x < 5);
    assert_eq!(collect_take_while(iter), [0, 1, 2, 3, 4]);
}

#[test]
fn test_take_while_clone() {
    let iter = TakeWhile::new(range(0, 10), |x: &u32| *x < 5);
    let iter_2 = iter.clone();
    assert_eq!(collect_take_while(iter), [0, 1, 2, 3, 4]);
    assert_eq!(collect_take_while(iter_2), [0, 1, 2, 3, 4]);
}

#[test]
fn take_while_is_not_fused() {
    let mut iter = TakeWhile::new(Items::new(vec![1, 9, 2]), |x: &u32| *x < 5);
    let mut poll = || {
        let polled = iter.iter_mut().poll_next();
        iter.on_iter(polled)
    };
    assert_eq!(poll(), Poll::Ready(Some(1)));
    assert_eq!(poll(), Poll::Ready(None));
    assert_eq!(poll(), Poll::Ready(Some(2)));
}

fn map_while_fn(x: u32) -> Option<u32> {
    (x < 5).then_some(x * 10)
}

fn collect_map_while(mut f: MapWhile<Items<u32>, fn(u32) -> Option<u32>>) -> Vec<u32> {
    collect(|| {
        let polled = f.iter_mut().poll_next();
        f.on_iter(polled)
    })
}

#[test]
fn test_map_while() {
    let iter = MapWhile::new(range(0, 10), map_while_fn as fn(u32) -> Option<u32>);
    assert_eq!(collect_map_while(iter), [0, 10, 20, 30, 40]);
}

#[test]
fn test_map_while_clone() {
    let iter = MapWhile::new(range(0, 10), map_while_fn as fn(u32) -> Option<u32>);
    let iter_2 = iter.clone();
    assert_eq!(collect_map_while(iter), [0, 10, 20, 30, 40]);
    assert_eq!(collect_map_while(iter_2), [0, 10, 20, 30, 40]);
}

#[test]
fn test_inspect() {
    let mut result = Vec::new();
    let out = {
        let mut iter = Inspect::new(Items::new(vec![2, 3, 5]), |x: &u32| result.push(*x));
        collect(|| {
            let polled = iter.iter_mut().poll_next();
            iter.on_iter(polled)
        })
    };
    assert_eq!(out, [2, 3, 5]);
    assert_eq!(result, [2, 3, 5]);
}

fn scan_fn(state: &mut u32, item: u32) -> Option<u64> {
    *state += item;
    (*state < 10).then_some(u64::from(*state))
}

fn collect_scan(mut f: Scan<Items<u32>, u32, fn(&mut u32, u32) -> Option<u64>>) -> Vec<u64> {
    collect(|| {
        let polled = f.iter_mut().poll_next();
        f.on_iter(polled)
    })
}

#[test]
fn test_scan() {
    let iter = Scan::new(range(0, 10), 0, scan_fn as fn(&mut u32, u32) -> Option<u64>);
    assert_eq!(collect_scan(iter), [0, 1, 3, 6]);
}

#[test]
fn test_scan_clone() {
    let iter = Scan::new(range(0, 10), 0, scan_fn as fn(&mut u32, u32) -> Option<u64>);
    let iter_2 = iter.clone();
    assert_eq!(collect_scan(iter), [0, 1, 3, 6]);
    assert_eq!(collect_scan(iter_2), [0, 1, 3, 6]);
}

fn collect_skip_while<F: FnMut(&u32) -> bool>(mut f: SkipWhile<Items<u32>, F>) -> Vec<u32> {
    collect(|| one_poll(|| {
        let polled = f.iter_mut().poll_next();
        f.on_iter(polled)
    }))
}

#[test]
fn test_skip_while() {
    let iter = SkipWhile::new(range(0, 10), |x: &u32| *x < 5);
    assert_eq!(collect_skip_while(iter), [5, 6, 7, 8, 9]);
}

#[test]
fn test_skip_while_clone() {
    let iter = SkipWhile::new(range(0, 10), |x: &u32| *x < 5);
    let iter_2 = iter.clone();
    assert_eq!(collect_skip_while(iter), [5, 6, 7, 8, 9]);
    assert_eq!(collect_skip_while(iter_2), [5, 6, 7, 8, 9]);
}

#[test]
fn skip_while_stops_skipping_for_good() {
    let iter = SkipWhile::new(Items::new(vec![1, 2, 7, 1, 8]), |x: &u32| *x < 5);
    assert_eq!(iter.size_hint((5, Some(5))), (0, Some(5)));
    assert_eq!(collect_skip_while(iter), [7, 1, 8]);
}

fn next_fused(iter: &mut Fuse<Countdown>) -> Poll<Option<u32>> {
    match iter.resume::<u32>() {
        Step::PollIter => {
            let polled = iter.iter_mut().poll_next();
            iter.on_iter(polled)
        },
        Step::Finish(answer) => answer,
        Step::PollHeld => panic!("nothing is held"),
    }
}

#[test]
fn test_fuse() {
    let mut iter = Fuse::new(Countdown(4));
    assert!(!iter.is_terminated());
    assert_eq!(next_fused(&mut iter), Poll::Ready(Some(3)));
    assert!(!iter.is_terminated());
    assert_eq!(next_fused(&mut iter), Poll::Ready(Some(2)));
    assert!(!iter.is_terminated());
    assert_eq!(next_fused(&mut iter), Poll::Ready(Some(1)));
    assert!(!iter.is_terminated());
    assert_eq!(next_fused(&mut iter), Poll::Ready(Some(0)));
    assert!(!iter.is_terminated());
    assert_eq!(next_fused(&mut iter), Poll::Ready(None));
    assert!(iter.is_terminated());
    assert_eq!(next_fused(&mut iter), Poll::Ready(None));
}

#[test]
fn test_fuse_clone() {
    let mut iter = Fuse::new(Countdown(4));
    let mut iter_2 = iter.clone();
    assert_eq!(collect(|| next_fused(&mut iter)), [3, 2, 1, 0]);
    assert_eq!(collect(|| next_fused(&mut iter_2)), [3, 2, 1, 0]);
}

#[test]
fn fuse_answers_none_forever_and_hints_nothing_left() {
    let mut iter = Fuse::new(Countdown(1));
    assert_eq!(iter.size_hint((1, Some(1))), (1, Some(1)));
    assert_eq!(next_fused(&mut iter), Poll::Ready(Some(0)));
    assert_eq!(next_fused(&mut iter), Poll::Ready(None));
    for _ in 0..3 {
        assert_eq!(next_fused(&mut iter), Poll::Ready(None));
    }
    assert_eq!(iter.size_hint((9, None)), (0, Some(0)));
}

fn collect_zip<TA: Clone, TB: Clone>(mut zip: Zip<Items<TA>, Items<TB>, TA, TB>) -> Vec<(TA, TB)> {
    collect(|| {
        let mut step = zip.resume();
        loop {
            step = match step {
                ZipStep::PollLeft => {
                    let polled = zip.left_mut().poll_next();
                    zip.on_left(polled)
                },
                ZipStep::PollRight => {
                    let polled = zip.right_mut().poll_next();
                    zip.on_right(polled)
                },
                ZipStep::Finish(answer) => return answer,
            };
        }
    })
}

#[test]
fn test_zip() {
    let iter_1 = Zip::new(range(0, 3), range(10, 20));
    let iter_2 = Zip::new(range(10, 20), range(0, 3));
    assert_eq!(collect_zip(iter_1), [(0, 10), (1, 11), (2, 12)]);
    assert_eq!(collect_zip(iter_2), [(10, 0), (11, 1), (12, 2)]);
}

#[test]
fn test_zip_clone() {
    let iter_1 = Zip::new(range(0, 3), range(10, 20));
    let iter_1_clone = iter_1.clone();
    let iter_2 = Zip::new(range(10, 20), range(0, 3));
    let iter_2_clone = iter_2.clone();
    assert_eq!(collect_zip(iter_1), [(0, 10), (1, 11), (2, 12)]);
    assert_eq!(collect_zip(iter_1_clone), [(0, 10), (1, 11), (2, 12)]);
    assert_eq!(collect_zip(iter_2), [(10, 0), (11, 1), (12, 2)]);
    assert_eq!(collect_zip(iter_2_clone), [(10, 0), (11, 1), (12, 2)]);
}

#[test]
fn zip_holds_an_item_while_the_other_side_is_pending() {
    let mut zip: Zip<(), (), u32, u32> = Zip::new((), ());
    assert_eq!(zip.resume(), ZipStep::PollLeft);
    assert_eq!(zip.on_left(Poll::Ready(Some(1))), ZipStep::PollRight);
    assert_eq!(zip.on_right(Poll::Pending), ZipStep::Finish(Poll::Pending));
    assert_eq!(zip.size_hint((2, Some(4)), (5, Some(6))), (3, Some(5)));
    assert!(zip.is_terminated(true, false) == false);
    assert_eq!(zip.resume(), ZipStep::PollRight);
    assert_eq!(zip.on_right(Poll::Ready(Some(7))), ZipStep::Finish(Poll::Ready(Some((1, 7)))));
    assert_eq!(zip.on_left(Poll::Pending), ZipStep::PollRight);
    assert_eq!(zip.on_right(Poll::Ready(Some(8))), ZipStep::PollLeft);
    assert_eq!(zip.size_hint((2, None), (5, Some(6))), (2, Some(7)));
    assert_eq!(zip.on_left(Poll::Ready(Some(2))), ZipStep::Finish(Poll::Ready(Some((2, 8)))));
    assert_eq!(zip.on_left(Poll::Ready(None)), ZipStep::Finish(Poll::Ready(None)));
}

fn collect_flatten(mut f: Flatten<Items<Items<u32>>, Items<u32>>) -> Vec<u32> {
    collect(|| {
        let mut step = f.resume();
        loop {
            step = match step {
                Step::PollIter => {
                    let polled = f.iter_mut().poll_next();
                    f.on_iter(polled)
                },
                Step::PollHeld => {
                    let polled = f.held_mut().poll_next();
                    f.on_held(polled)
                },
                Step::Finish(answer) => return answer,
            };
        }
    })
}

fn flatten_input() -> Items<Items<u32>> {
    Items::new(vec![
        Items::new(vec![]),
        Items::new(vec![2]),
        Items::new(vec![3, 5]),
        Items::new(vec![7, 11, 13]),
    ])
}

#[test]
fn test_flatten() {
    assert_eq!(collect_flatten(Flatten::new(flatten_input())), [2, 3, 5, 7, 11, 13]);
}

#[test]
fn test_flatten_clone() {
    let iter = Flatten::new(flatten_input());
    let iter_2 = iter.clone();
    assert_eq!(collect_flatten(iter), [2, 3, 5, 7, 11, 13]);
    assert_eq!(collect_flatten(iter_2), [2, 3, 5, 7, 11, 13]);
}

#[test]
fn flatten_hints() {
    assert_eq!(flatten_size_hint((0, Some(0)), None), (0, Some(0)));
    assert_eq!(flatten_size_hint((2, Some(3)), None), (0, None));
    assert_eq!(flatten_size_hint((0, Some(0)), Some((2, Some(4)))), (2, Some(4)));
    assert_eq!(flatten_size_hint((1, None), Some((2, Some(4)))), (2, None));
    let mut iter = Flatten::new(flatten_input());
    assert_eq!(iter.size_hint(iter.iter_ref().hint(), (9, Some(9))), (0, None));
    assert!(!iter.is_terminated(false, true));
    let polled = iter.iter_mut().poll_next();
    assert_eq!(iter.on_iter::<u32>(polled), Step::PollHeld);
    assert!(iter.is_terminated(false, true));
    assert_eq!(iter.size_hint((0, Some(0)), (0, Some(0))), (0, Some(0)));
}

/// A sub-iterator counting down from its number.
fn flat_map_fn(n: u32) -> Countdown {
    Countdown(n)
}

fn collect_flat_map(mut f: FlatMap<Items<u32>, fn(u32) -> Countdown, Countdown>) -> Vec<u32> {
    collect(|| {
        let mut step = f.resume();
        loop {
            step = match step {
                Step::PollIter => {
                    let polled = f.iter_mut().poll_next();
                    f.on_iter(polled)
                },
                Step::PollHeld => {
                    let polled = f.held_mut().poll_next();
                    f.on_held(polled)
                },
                Step::Finish(answer) => return answer,
            };
        }
    })
}

#[test]
fn test_flat_map() {
    let iter = FlatMap::new(range(0, 6), flat_map_fn as fn(u32) -> Countdown);
    assert_eq!(collect_flat_map(iter), [0, 1, 0, 2, 1, 0, 3, 2, 1, 0, 4, 3, 2, 1, 0]);
}

#[test]
fn test_flat_map_clone() {
    let iter = FlatMap::new(range(0, 6), flat_map_fn as fn(u32) -> Countdown);
    let iter_2 = iter.clone();
    assert_eq!(collect_flat_map(iter), [0, 1, 0, 2, 1, 0, 3, 2, 1, 0, 4, 3, 2, 1, 0]);
    assert_eq!(collect_flat_map(iter_2), [0, 1, 0, 2, 1, 0, 3, 2, 1, 0, 4, 3, 2, 1, 0]);
}

type Fallible = Items<Result<u32, u32>>;

fn collect_try_flatten(mut f: TryFlatten<Items<Result<Fallible, u32>>, Fallible>) -> Vec<Result<u32, u32>> {
    collect(|| {
        let mut step = f.resume();
        loop {
            step = match step {
                Step::PollIter => {
                    let polled = f.iter_mut().poll_next();
                    f.on_iter(polled)
                },
                Step::PollHeld => {
                    let polled = f.held_mut().poll_next();
                    f.on_held(polled)
                },
                Step::Finish(answer) => return answer,
            };
        }
    })
}

fn try_flatten_input() -> Items<Result<Fallible, u32>> {
    Items::new(vec![
        Ok(Items::new(vec![Ok(2), Err(3)])),
        Err(5),
        Ok(Items::new(vec![Ok(7), Err(11), Ok(13)])),
    ])
}

#[test]
fn test_try_flatten() {
    assert_eq!(
        collect_try_flatten(TryFlatten::new(try_flatten_input())),
        [Ok(2), Err(3), Err(5), Ok(7), Err(11), Ok(13)],
    );
}

#[test]
fn test_try_flatten_clone() {
    let iter = TryFlatten::new(try_flatten_input());
    let iter_2 = iter.clone();
    assert_eq!(collect_try_flatten(iter), [Ok(2), Err(3), Err(5), Ok(7), Err(11), Ok(13)]);
    assert_eq!(collect_try_flatten(iter_2), [Ok(2), Err(3), Err(5), Ok(7), Err(11), Ok(13)]);
}

#[test]
fn test_inspect_clone() {
    let result = std::sync::Mutex::new(Vec::new());
    let mut iter = Inspect::new(Items::new(vec![2, 3, 5]), |x: &u32| result.lock().unwrap().push(*x));
    let mut iter_2 = iter.clone();
    let out = collect(|| {
        let polled = iter.iter_mut().poll_next();
        iter.on_iter(polled)
    });
    assert_eq!(out, [2, 3, 5]);
    assert_eq!(*result.lock().unwrap(), [2, 3, 5]);
    let out_2 = collect(|| {
        let polled = iter_2.iter_mut().poll_next();
        iter_2.on_iter(polled)
    });
    assert_eq!(out_2, [2, 3, 5]);
    assert_eq!(*result.lock().unwrap(), [2, 3, 5, 2, 3, 5]);
}
