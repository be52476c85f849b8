use core::ops::ControlFlow;
use slim_futures::and_then::AndThen;
use slim_futures::assert_future::assert_future;
use slim_futures::async_iter::all::{All, Any};
use slim_futures::async_iter::all_async::AllAsync;
use slim_futures::async_iter::any_async::AnyAsync;
use slim_futures::async_iter::find_async::FindAsync;
use slim_futures::async_iter::find_map_async::FindMapAsync;
use slim_futures::async_iter::fold_async::FoldAsync;
use slim_futures::async_iter::getters::{clone_value, copy_value, take_value};
use slim_futures::async_iter::for_each_async::ForEachAsync;
use slim_futures::async_iter::reduce::Reduce;
use slim_futures::async_iter::reduce_async::ReduceAsync;
use slim_futures::async_iter::try_fold::{Fold, TryFold};
use slim_futures::async_iter::try_fold_async::TryFoldAsync;
use slim_futures::async_iter::try_for_each::TryForEach;
use slim_futures::async_iter::try_for_each_async::TryForEachAsync;
use slim_futures::async_slim_map::{AsyncSlimMap, SlimMapStep};
use slim_futures::poll::{Poll, Step};

/// An async iterator over a list that is always ready.
#[derive(Clone)]
struct Items<T> {
    items: Vec<T>,
    next: usize,
}

impl<T: Clone> Items<T> {
    fn new(items: Vec<T>) -> Self {
        Items { items, next: 0 }
    }

    fn poll_next(&mut self) -> Poll<Option<T>> {
        if self.next < self.items.len() {
            self.next += 1;
            Poll::Ready(Some(self.items[self.next - 1].clone()))
        } else {
            Poll::Ready(None)
        }
    }
}

fn primes() -> Items<u32> {
    Items::new(vec![2, 3, 5])
}

/// A future that is pending for `delay` polls, then ready with its value.
#[derive(Clone)]
struct Soon<T> {
    value: Option<T>,
    delay: u32,
}

impl<T> Soon<T> {
    fn now(value: T) -> Self {
        Soon { value: Some(value), delay: 0 }
    }

    fn later(value: T) -> Self {
        Soon { value: Some(value), delay: 1 }
    }

    fn poll(&mut self) -> Poll<T> {
        if self.delay > 0 {
            self.delay -= 1;
            Poll::Pending
        } else {
            Poll::Ready(self.value.take().expect("polled after completion"))
        }
    }
}

/// What the driver is asked to do.
enum Act {
    Resume,
    Iter,
    Held,
}

/// Polls a future made of steps until it is ready; also counts the polls
/// answered `Pending`.
fn block_on<C, R>(c: &mut C, mut act: impl FnMut(&mut C, Act) -> Step<R>) -> (R, usize) {
    let mut pending = 0;
    loop {
        let mut step = act(c, Act::Resume);
        let answer = loop {
            step = match step {
                Step::PollIter => act(c, Act::Iter),
                Step::PollHeld => act(c, Act::Held),
                Step::Finish(answer) => break answer,
            };
        };
        match answer {
            Poll::Ready(r) => return (r, pending),
            Poll::Pending => pending += 1,
        }
    }
}

fn run_sync<C, R>(c: &mut C, mut on_item: impl FnMut(&mut C) -> Step<R>) -> R {
    block_on(c, |c, act| match act {
        Act::Resume | Act::Iter => on_item(c),
        Act::Held => panic!("nothing is held"),
    }).0
}

fn accumulate(state: u64, item: u32) -> u64 {
    state * u64::from(item)
}

#[test]
fn test_fold() {
    let mut future = Fold::new(primes(), 1_u64, copy_value as fn(&mut u64) -> u64, accumulate as fn(u64, u32) -> u64);
    let out = run_sync(&mut future, |c| {
        let polled = c.iter_mut().poll_next();
        c.on_iter(polled)
    });
    assert_eq!(out, 30_u64);
}

#[test]
fn test_fold_clone() {
    let mut future = Fold::new(primes(), 1_u64, copy_value as fn(&mut u64) -> u64, accumulate as fn(u64, u32) -> u64);
    let mut future_2 = future.clone();
    for f in [&mut future, &mut future_2] {
        let out = run_sync(f, |c| {
            let polled = c.iter_mut().poll_next();
            c.on_iter(polled)
        });
        assert_eq!(out, 30_u64);
    }
}

#[test]
fn test_fold_by_take_value() {
    let mut future = Fold::new(primes(), Vec::new(), take_value::<Vec<u32>>, |mut acc: Vec<u32>, item: u32| {
        acc.push(item * 10);
        acc
    });
    let out = run_sync(&mut future, |c| {
        let polled = c.iter_mut().poll_next();
        c.on_iter(polled)
    });
    assert_eq!(out, vec![20, 30, 50]);
}

#[test]
fn test_fold_async_by_clone_value() {
    let mut future = FoldAsync::new(primes(), String::from("x"), clone_value::<String>, |acc: String, item: u32| {
        Soon::later(format!("{acc}{item}"))
    });
    let out = block_on(&mut future, |c, act| match act {
        Act::Resume => c.resume(),
        Act::Iter => {
            let polled = c.iter_mut().poll_next();
            c.on_iter(polled)
        },
        Act::Held => {
            let polled = c.held_mut().poll();
            c.on_held(polled)
        },
    });
    assert_eq!(out, (String::from("x235"), 3));
}

#[test]
fn test_try_fold_async_by_take_value() {
    let mut future = TryFoldAsync::new(primes(), Vec::new(), take_value::<Vec<u32>>, |mut acc: Vec<u32>, item: u32| {
        acc.push(item);
        Soon::now(if item < 5 { ControlFlow::Continue(acc) } else { ControlFlow::Break(acc.len()) })
    });
    let out = block_on(&mut future, |c, act| match act {
        Act::Resume => c.resume(),
        Act::Iter => {
            let polled = c.iter_mut().poll_next();
            c.on_iter(polled)
        },
        Act::Held => {
            let polled = c.held_mut().poll();
            c.on_held(polled)
        },
    }).0;
    assert_eq!(out, ControlFlow::Break(3));
}

fn accumulate_1(state: u64, item: u32) -> ControlFlow<u32, u64> {
    ControlFlow::Continue(state * u64::from(item))
}

#[test]
fn test_try_fold() {
    let mut future = TryFold::new(primes(), 1_u64, accumulate_1 as fn(u64, u32) -> ControlFlow<u32, u64>);
    let out = run_sync(&mut future, |c| {
        let polled = c.iter_mut().poll_next();
        c.on_iter(polled)
    });
    assert_eq!(out, ControlFlow::Continue(30_u64));
}

#[test]
fn test_try_fold_error() {
    let mut counter = 0;
    let out = {
        let mut future = TryFold::new(primes(), 1_u64, |state: u64, item: u32| {
            if counter < 2 {
                counter += 1;
                ControlFlow::Continue(state * u64::from(item))
            } else {
                ControlFlow::Break(7)
            }
        });
        run_sync(&mut future, |c| {
            let polled = c.iter_mut().poll_next();
            c.on_iter(polled)
        })
    };
    assert_eq!(out, ControlFlow::Break(7));
    assert_eq!(counter, 2);
}

#[test]
fn test_try_fold_clone() {
    let mut future = TryFold::new(primes(), 1_u64, accumulate_1 as fn(u64, u32) -> ControlFlow<u32, u64>);
    let mut future_2 = future.clone();
    for f in [&mut future, &mut future_2] {
        let out = run_sync(f, |c| {
            let polled = c.iter_mut().poll_next();
            c.on_iter(polled)
        });
        assert_eq!(out, ControlFlow::Continue(30_u64));
    }
}

fn add(lhs: u32, rhs: u32) -> u32 {
    lhs + rhs
}

fn run_reduce(mut future: Reduce<Items<u32>, u32, fn(u32, u32) -> u32>) -> Option<u32> {
    run_sync(&mut future, |c| {
        let polled = c.iter_mut().poll_next();
        c.on_iter(polled)
    })
}

#[test]
fn test_reduce() {
    assert_eq!(run_reduce(Reduce::new(primes(), add as fn(u32, u32) -> u32)), Some(10));
}

#[test]
fn test_reduce_empty() {
    assert_eq!(run_reduce(Reduce::new(Items::new(vec![]), add as fn(u32, u32) -> u32)), None);
}

#[test]
fn test_reduce_clone() {
    let future = Reduce::new(primes(), add as fn(u32, u32) -> u32);
    let future_2 = future.clone();
    assert_eq!(run_reduce(future), Some(10));
    assert_eq!(run_reduce(future_2), Some(10));
}

#[test]
fn reduce_of_one_item_is_that_item() {
    assert_eq!(run_reduce(Reduce::new(Items::new(vec![4]), add as fn(u32, u32) -> u32)), Some(4));
}

fn less_than_10(x: u32) -> bool {
    x < 10
}

fn equals_2(x: u32) -> bool {
    x == 2
}

fn run_all(mut future: All<Items<u32>, fn(u32) -> bool>) -> bool {
    run_sync(&mut future, |c| {
        let polled = c.iter_mut().poll_next();
        c.on_iter(polled)
    })
}

#[test]
fn test_all() {
    assert!(run_all(All::new(primes(), less_than_10 as fn(u32) -> bool)));
}

#[test]
fn test_all_fail() {
    assert!(!run_all(All::new(primes(), equals_2 as fn(u32) -> bool)));
}

#[test]
fn test_all_clone() {
    let future = All::new(primes(), less_than_10 as fn(u32) -> bool);
    let future_2 = future.clone();
    assert!(run_all(future));
    assert!(run_all(future_2));
}

fn greater_than_2(x: u32) -> bool {
    x > 2
}

fn equals_10(x: u32) -> bool {
    x == 10
}

fn run_any(mut future: Any<Items<u32>, fn(u32) -> bool>) -> bool {
    run_sync(&mut future, |c| {
        let polled = c.iter_mut().poll_next();
        c.on_iter(polled)
    })
}

#[test]
fn test_any() {
    assert!(run_any(Any::new(primes(), greater_than_2 as fn(u32) -> bool)));
}

#[test]
fn test_any_fail() {
    assert!(!run_any(Any::new(primes(), equals_10 as fn(u32) -> bool)));
}

#[test]
fn test_any_clone() {
    let future = Any::new(primes(), greater_than_2 as fn(u32) -> bool);
    let future_2 = future.clone();
    assert!(run_any(future));
    assert!(run_any(future_2));
}

#[test]
fn all_and_any_of_no_items() {
    assert!(run_all(All::new(Items::new(vec![]), equals_2 as fn(u32) -> bool)));
    assert!(!run_any(Any::new(Items::new(vec![]), greater_than_2 as fn(u32) -> bool)));
}

#[test]
fn test_try_for_each() {
    let mut result = Vec::new();
    let out = {
        let mut future = TryForEach::new(primes(), |x: u32| {
            result.push(x);
            ControlFlow::<(), ()>::Continue(())
        });
        run_sync(&mut future, |c| {
            let polled = c.iter_mut().poll_next();
            c.on_iter(polled)
        })
    };
    assert_eq!(out, ControlFlow::Continue(()));
    assert_eq!(result, [2, 3, 5]);
}

#[test]
fn test_try_for_each_fail() {
    let mut result = Vec::new();
    let out = {
        let mut future = TryForEach::new(primes(), |x: u32| {
            if x < 5 {
                result.push(x);
                ControlFlow::Continue(())
            } else {
                ControlFlow::Break(())
            }
        });
        run_sync(&mut future, |c| {
            let polled = c.iter_mut().poll_next();
            c.on_iter(polled)
        })
    };
    assert_eq!(out, ControlFlow::Break(()));
    assert_eq!(result, [2, 3]);
}

fn async_accumulate(state: u64, item: u32) -> Soon<u64> {
    Soon::later(state * u64::from(item))
}

fn run_fold_async(mut future: FoldAsync<Items<u32>, u64, fn(&mut u64) -> u64, fn(u64, u32) -> Soon<u64>, Soon<u64>>) -> (u64, usize) {
    block_on(&mut future, |c, act| match act {
        Act::Resume => c.resume(),
        Act::Iter => {
            let polled = c.iter_mut().poll_next();
            c.on_iter(polled)
        },
        Act::Held => {
            let polled = c.held_mut().poll();
            c.on_held(polled)
        },
    })
}

#[test]
fn test_fold_async() {
    let future = FoldAsync::new(primes(), 1_u64, copy_value as fn(&mut u64) -> u64, async_accumulate as fn(u64, u32) -> Soon<u64>);
    assert_eq!(run_fold_async(future), (30_u64, 3));
}

#[test]
fn test_fold_async_clone() {
    let future = FoldAsync::new(primes(), 1_u64, copy_value as fn(&mut u64) -> u64, async_accumulate as fn(u64, u32) -> Soon<u64>);
    let future_2 = future.clone();
    assert_eq!(run_fold_async(future).0, 30_u64);
    assert_eq!(run_fold_async(future_2).0, 30_u64);
}

fn try_accumulate(state: u64, item: u32) -> Soon<ControlFlow<u32, u64>> {
    Soon::now(ControlFlow::Continue(state * u64::from(item)))
}

type TryFoldAsyncFuture = TryFoldAsync<Items<u32>, u64, fn(&mut u64) -> u64, fn(u64, u32) -> Soon<ControlFlow<u32, u64>>, Soon<ControlFlow<u32, u64>>>;

fn run_try_fold_async(mut future: TryFoldAsyncFuture) -> ControlFlow<u32, u64> {
    block_on(&mut future, |c, act| match act {
        Act::Resume => c.resume(),
        Act::Iter => {
            let polled = c.iter_mut().poll_next();
            c.on_iter(polled)
        },
        Act::Held => {
            let polled = c.held_mut().poll();
            c.on_held(polled)
        },
    }).0
}

#[test]
fn test_try_fold_async() {
    let future = TryFoldAsync::new(primes(), 1_u64, copy_value as fn(&mut u64) -> u64, try_accumulate as fn(u64, u32) -> Soon<ControlFlow<u32, u64>>);
    assert_eq!(run_try_fold_async(future), ControlFlow::Continue(30_u64));
}

#[test]
fn test_try_fold_async_error() {
    let mut counter = 0;
    let out = {
        let mut future = TryFoldAsync::new(primes(), 1_u64, copy_value::<u64>, |state: u64, item: u32| {
            if counter < 2 {
                counter += 1;
                Soon::now(ControlFlow::Continue(state * u64::from(item)))
            } else {
                Soon::now(ControlFlow::Break(7))
            }
        });
        block_on(&mut future, |c, act| match act {
            Act::Resume => c.resume(),
            Act::Iter => {
                let polled = c.iter_mut().poll_next();
                c.on_iter(polled)
            },
            Act::Held => {
                let polled = c.held_mut().poll();
                c.on_held(polled)
            },
        }).0
    };
    assert_eq!(out, ControlFlow::Break(7));
    assert_eq!(counter, 2);
}

#[test]
fn test_try_fold_async_clone() {
    let future = TryFoldAsync::new(primes(), 1_u64, copy_value as fn(&mut u64) -> u64, try_accumulate as fn(u64, u32) -> Soon<ControlFlow<u32, u64>>);
    let future_2 = future.clone();
    assert_eq!(run_try_fold_async(future), ControlFlow::Continue(30_u64));
    assert_eq!(run_try_fold_async(future_2), ControlFlow::Continue(30_u64));
}

#[test]
fn test_for_each_async() {
    let mut result = Vec::new();
    {
        let mut future = ForEachAsync::new(primes(), |x: u32| {
            result.push(x);
            Soon::later(())
        });
        let ((), pending) = block_on(&mut future, |c, act| match act {
            Act::Resume => c.resume(),
            Act::Iter => {
                let polled = c.iter_mut().poll_next();
                c.on_iter(polled)
            },
            Act::Held => {
                let polled = c.held_mut().poll();
                c.on_held(polled)
            },
        });
        assert_eq!(pending, 3);
    }
    assert_eq!(result, [2, 3, 5]);
}

#[test]
fn test_try_for_each_async() {
    let mut result = Vec::new();
    let out = {
        let mut future = TryForEachAsync::new(primes(), |x: u32| {
            result.push(x);
            Soon::now(ControlFlow::<(), ()>::Continue(()))
        });
        block_on(&mut future, |c, act| match act {
            Act::Resume => c.resume(),
            Act::Iter => {
                let polled = c.iter_mut().poll_next();
                c.on_iter(polled)
            },
            Act::Held => {
                let polled = c.held_mut().poll();
                c.on_held(polled)
            },
        }).0
    };
    assert_eq!(out, ControlFlow::Continue(()));
    assert_eq!(result, [2, 3, 5]);
}

#[test]
fn test_try_for_each_async_fail() {
    let mut result = Vec::new();
    let out = {
        let mut future = TryForEachAsync::new(primes(), |x: u32| {
            if x < 5 {
                result.push(x);
                Soon::now(ControlFlow::Continue(()))
            } else {
                Soon::now(ControlFlow::Break(()))
            }
        });
        block_on(&mut future, |c, act| match act {
            Act::Resume => c.resume(),
            Act::Iter => {
                let polled = c.iter_mut().poll_next();
                c.on_iter(polled)
            },
            Act::Held => {
                let polled = c.held_mut().poll();
                c.on_held(polled)
            },
        }).0
    };
    assert_eq!(out, ControlFlow::Break(()));
    assert_eq!(result, [2, 3]);
}

fn run_all_async(mut future: AllAsync<Items<u32>, fn(u32) -> Soon<bool>, Soon<bool>>) -> bool {
    block_on(&mut future, |c, act| match act {
        Act::Resume => c.resume(),
        Act::Iter => {
            let polled = c.iter_mut().poll_next();
            c.on_iter(polled)
        },
        Act::Held => {
            let polled = c.held_mut().poll();
            c.on_held(polled)
        },
    }).0
}

fn async_less_than_10(x: u32) -> Soon<bool> {
    Soon::later(x < 10)
}

fn async_equals_2(x: u32) -> Soon<bool> {
    Soon::now(x == 2)
}

#[test]
fn test_all_async() {
    assert!(run_all_async(AllAsync::new(primes(), async_less_than_10 as fn(u32) -> Soon<bool>)));
}

#[test]
fn test_all_async_fail() {
    assert!(!run_all_async(AllAsync::new(primes(), async_equals_2 as fn(u32) -> Soon<bool>)));
}

#[test]
fn test_all_async_clone() {
    let future = AllAsync::new(primes(), async_less_than_10 as fn(u32) -> Soon<bool>);
    let future_2 = future.clone();
    assert!(run_all_async(future));
    assert!(run_all_async(future_2));
}

fn run_any_async(mut future: AnyAsync<Items<u32>, fn(u32) -> Soon<bool>, Soon<bool>>) -> bool {
    block_on(&mut future, |c, act| match act {
        Act::Resume => c.resume(),
        Act::Iter => {
            let polled = c.iter_mut().poll_next();
            c.on_iter(polled)
        },
        Act::Held => {
            let polled = c.held_mut().poll();
            c.on_held(polled)
        },
    }).0
}

fn async_greater_than_2(x: u32) -> Soon<bool> {
    Soon::later(x > 2)
}

fn async_equals_10(x: u32) -> Soon<bool> {
    Soon::now(x == 10)
}

#[test]
fn test_any_async() {
    assert!(run_any_async(AnyAsync::new(primes(), async_greater_than_2 as fn(u32) -> Soon<bool>)));
}

#[test]
fn test_any_async_fail() {
    assert!(!run_any_async(AnyAsync::new(primes(), async_equals_10 as fn(u32) -> Soon<bool>)));
}

#[test]
fn test_any_async_clone() {
    let future = AnyAsync::new(primes(), async_greater_than_2 as fn(u32) -> Soon<bool>);
    let future_2 = future.clone();
    assert!(run_any_async(future));
    assert!(run_any_async(future_2));
}

fn run_find_async<P: FnMut(&u32) -> Soon<bool>>(mut future: FindAsync<Items<u32>, P, u32, Soon<bool>>) -> Option<u32> {
    block_on(&mut future, |c, act| match act {
        Act::Resume => c.resume(),
        Act::Iter => {
            let polled = c.iter_mut().poll_next();
            c.on_iter(polled)
        },
        Act::Held => {
            let polled = c.held_mut().poll();
            c.on_held(polled)
        },
    }).0
}

#[test]
fn test_find_async() {
    assert_eq!(run_find_async(FindAsync::new(primes(), |x: &u32| Soon::now(*x > 2))), Some(3));
}

#[test]
fn test_find_async_fail() {
    assert!(run_find_async(FindAsync::new(primes(), |x: &u32| Soon::later(*x < 1))).is_none());
}

#[test]
fn test_find_async_clone() {
    let future = FindAsync::new(primes(), |x: &u32| Soon::later(*x > 2));
    let future_2 = future.clone();
    assert_eq!(run_find_async(future), Some(3));
    assert_eq!(run_find_async(future_2), Some(3));
}

fn find_3_then_mul_10(x: u32) -> Soon<Option<u64>> {
    Soon::now((x == 3).then_some(u64::from(x) * 10))
}

fn find_7_then_mul_10(x: u32) -> Soon<Option<u64>> {
    Soon::later((x == 7).then_some(u64::from(x) * 10))
}

fn run_find_map_async(
    mut future: FindMapAsync<Items<u32>, fn(u32) -> Soon<Option<u64>>, Soon<Option<u64>>>,
) -> Option<u64> {
    block_on(&mut future, |c, act| match act {
        Act::Resume => c.resume(),
        Act::Iter => {
            let polled = c.iter_mut().poll_next();
            c.on_iter(polled)
        },
        Act::Held => {
            let polled = c.held_mut().poll();
            c.on_held(polled)
        },
    }).0
}

#[test]
fn test_find_map_async() {
    let future = FindMapAsync::new(primes(), find_3_then_mul_10 as fn(u32) -> Soon<Option<u64>>);
    assert_eq!(run_find_map_async(future), Some(30));
}

#[test]
fn test_find_map_async_fail() {
    let future = FindMapAsync::new(primes(), find_7_then_mul_10 as fn(u32) -> Soon<Option<u64>>);
    assert!(run_find_map_async(future).is_none());
}

#[test]
fn test_find_map_async_clone() {
    let future = FindMapAsync::new(primes(), find_3_then_mul_10 as fn(u32) -> Soon<Option<u64>>);
    let future_2 = future.clone();
    assert_eq!(run_find_map_async(future), Some(30));
    assert_eq!(run_find_map_async(future_2), Some(30));
}

fn async_add(lhs: u32, rhs: u32) -> Soon<u32> {
    Soon::later(lhs + rhs)
}

fn run_reduce_async(mut future: ReduceAsync<Items<u32>, u32, fn(u32, u32) -> Soon<u32>, Soon<u32>>) -> Option<u32> {
    block_on(&mut future, |c, act| match act {
        Act::Resume => c.resume(),
        Act::Iter => {
            let polled = c.iter_mut().poll_next();
            c.on_iter(polled)
        },
        Act::Held => {
            let polled = c.held_mut().poll();
            c.on_held(polled)
        },
    }).0
}

#[test]
fn test_reduce_async() {
    assert_eq!(run_reduce_async(ReduceAsync::new(primes(), async_add as fn(u32, u32) -> Soon<u32>)), Some(10));
}

#[test]
fn test_reduce_async_empty() {
    let future = ReduceAsync::new(Items::new(vec![]), async_add as fn(u32, u32) -> Soon<u32>);
    assert_eq!(run_reduce_async(future), None);
}

#[test]
fn test_reduce_async_single() {
    let future = ReduceAsync::new(Items::new(vec![2]), async_add as fn(u32, u32) -> Soon<u32>);
    assert_eq!(run_reduce_async(future), Some(2));
}

#[test]
fn test_reduce_async_clone() {
    let future = ReduceAsync::new(primes(), async_add as fn(u32, u32) -> Soon<u32>);
    let future_2 = future.clone();
    assert_eq!(run_reduce_async(future), Some(10));
    assert_eq!(run_reduce_async(future_2), Some(10));
}

#[test]
fn reduce_async_is_terminated_by_what_it_waits_on() {
    let mut future = ReduceAsync::new(primes(), async_add as fn(u32, u32) -> Soon<u32>);
    assert!(future.is_terminated(true, false));
    let polled = future.iter_mut().poll_next();
    assert_eq!(future.on_iter(polled), Step::PollIter);
    let polled = future.iter_mut().poll_next();
    assert_eq!(future.on_iter(polled), Step::PollHeld);
    assert!(!future.is_terminated(true, false));
    assert_eq!(future.resume(), Step::PollHeld);
}

fn and_then_fn(x: u32) -> Result<u64, u32> {
    if x < 12 {
        Ok(u64::from(x) * 100)
    } else {
        Err(x * 1000)
    }
}

#[test]
fn and_then_future_chains_after_success_only() {
    let mut ok = AndThen::new(Soon::later(Ok::<u32, u32>(3)), and_then_fn as fn(u32) -> Result<u64, u32>);
    let polled = ok.fut_mut().poll();
    assert_eq!(ok.on_fut(polled), Poll::Pending);
    let polled = ok.fut_mut().poll();
    assert_eq!(ok.on_fut(polled), Poll::Ready(Ok(300)));
    let mut failing = AndThen::new(Soon::now(Ok::<u32, u32>(13)), and_then_fn as fn(u32) -> Result<u64, u32>);
    let polled = failing.fut_mut().poll();
    assert_eq!(failing.on_fut(polled), Poll::Ready(Err(13000)));
    let mut failed = AndThen::new(Soon::now(Err::<u32, u32>(5)), and_then_fn as fn(u32) -> Result<u64, u32>);
    let polled = failed.fut_mut().poll();
    assert_eq!(failed.on_fut(polled), Poll::Ready(Err(5)));
    assert!(failed.is_terminated(true));
}

fn to_second(x: u32) -> Soon<u64> {
    Soon::later(u64::from(x) + 1)
}

#[test]
fn async_slim_map_awaits_the_mapped_future() {
    let mut future: AsyncSlimMap<Soon<u32>, fn(u32) -> Soon<u64>, Soon<u64>> =
        AsyncSlimMap::new(Soon::later(41), to_second as fn(u32) -> Soon<u64>);
    let mut pending = 0;
    assert!(!future.is_terminated(true));
    let out = loop {
        let mut step = future.resume();
        let answer = loop {
            step = match step {
                SlimMapStep::PollFirst => {
                    let polled = future.first_mut().poll();
                    future.on_first(polled)
                },
                SlimMapStep::PollSecond => {
                    let polled = future.second_mut().poll();
                    SlimMapStep::Finish(future.on_second(polled))
                },
                SlimMapStep::Finish(answer) => break answer,
            };
        };
        match answer {
            Poll::Ready(x) => break x,
            Poll::Pending => pending += 1,
        }
    };
    assert_eq!(out, 42);
    assert_eq!(pending, 2);
    assert!(future.is_terminated(false));
}

/// A future that is ready at once with its number.
struct Number(u32);

impl core::future::Future for Number {
    type Output = u32;

    fn poll(self: core::pin::Pin<&mut Self>, _: &mut core::task::Context<'_>) -> core::task::Poll<u32> {
        core::task::Poll::Ready(self.0)
    }
}

#[test]
fn assert_future_hands_the_future_back() {
    let future = assert_future::<_, u32>(Number(7));
    assert_eq!(future.0, 7);
}

#[test]
fn test_for_each_async_clone() {
    let result = std::sync::Mutex::new(Vec::new());
    let mut future = ForEachAsync::new(primes(), |x: u32| {
        result.lock().unwrap().push(x);
        Soon::now(())
    });
    let mut future_2 = future.clone();
    for (f, expected) in [(&mut future, vec![2, 3, 5]), (&mut future_2, vec![2, 3, 5, 2, 3, 5])] {
        block_on(f, |c, act| match act {
            Act::Resume => c.resume(),
            Act::Iter => {
                let polled = c.iter_mut().poll_next();
                c.on_iter(polled)
            },
            Act::Held => {
                let polled = c.held_mut().poll();
                c.on_held(polled)
            },
        });
        assert_eq!(*result.lock().unwrap(), expected);
    }
}

#[test]
fn test_try_for_each_clone() {
    let result = std::sync::Mutex::new(Vec::new());
    let mut future = TryForEach::new(primes(), |x: u32| {
        result.lock().unwrap().push(x);
        ControlFlow::<(), ()>::Continue(())
    });
    let mut future_2 = future.clone();
    for (f, expected) in [(&mut future, vec![2, 3, 5]), (&mut future_2, vec![2, 3, 5, 2, 3, 5])] {
        let out = run_sync(f, |c| {
            let polled = c.iter_mut().poll_next();
            c.on_iter(polled)
        });
        assert_eq!(out, ControlFlow::Continue(()));
        assert_eq!(*result.lock().unwrap(), expected);
    }
}

#[test]
fn test_try_for_each_async_clone() {
    let result = std::sync::Mutex::new(Vec::new());
    let mut future = TryForEachAsync::new(primes(), |x: u32| {
        result.lock().unwrap().push(x);
        Soon::later(ControlFlow::<(), ()>::Continue(()))
    });
    let mut future_2 = future.clone();
    for (f, expected) in [(&mut future, vec![2, 3, 5]), (&mut future_2, vec![2, 3, 5, 2, 3, 5])] {
        let out = block_on(f, |c, act| match act {
            Act::Resume => c.resume(),
            Act::Iter => {
                let polled = c.iter_mut().poll_next();
                c.on_iter(polled)
            },
            Act::Held => {
                let polled = c.held_mut().poll();
                c.on_held(polled)
            },
        }).0;
        assert_eq!(out, ControlFlow::Continue(()));
        assert_eq!(*result.lock().unwrap(), expected);
    }
}

#[test]
fn test_try_fold_async_with_option() {
    let mut future = TryFoldAsync::new(primes(), 1_u64, copy_value::<u64>, |state: u64, item: u32| {
        Soon::now(match Some(state * u64::from(item)) {
            Some(value) => ControlFlow::Continue(value),
            None => ControlFlow::Break(()),
        })
    });
    let out = block_on(&mut future, |c, act| match act {
        Act::Resume => c.resume(),
        Act::Iter => {
            let polled = c.iter_mut().poll_next();
            c.on_iter(polled)
        },
        Act::Held => {
            let polled = c.held_mut().poll();
            c.on_held(polled)
        },
    }).0;
    let out = match out {
        ControlFlow::Continue(value) => Some(value),
        ControlFlow::Break(()) => None,
    };
    assert_eq!(out, Some(30_u64));
}
