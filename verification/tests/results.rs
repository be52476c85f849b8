use slim_futures::async_iter::and_then::AndThen;
use slim_futures::async_iter::err_into::{ErrInto, OkInto};
use slim_futures::async_iter::inspect_ok::InspectOk;
use slim_futures::async_iter::map_err::MapErr;
use slim_futures::async_iter::map_ok::MapOk;
use slim_futures::async_iter::or_else::OrElse;
use slim_futures::poll::Poll;

/// An async iterator over a list that is always ready.
#[derive(Clone)]
struct Items<T> {
    items: Vec<T>,
    next: usize,
}

impl<T: Clone> Items<T> {
    fn new(items: Vec<T>) -> Self {
        Items { items, next: 0 }
    }

    fn poll_next(&mut self) -> Poll<Option<T>> {
        if self.next < self.items.len() {
            self.next += 1;
            Poll::Ready(Some(self.items[self.next - 1].clone()))
        } else {
            Poll::Ready(None)
        }
    }
}

/// Collects the answers of polls until the first `None`.
fn collect<T>(mut poll: impl FnMut() -> Poll<Option<T>>) -> Vec<T> {
    let mut out = Vec::new();
    loop {
        match poll() {
            Poll::Ready(Some(x)) => out.push(x),
            Poll::Ready(None) => return out,
            Poll::Pending => panic!("always ready"),
        }
    }
}

fn mixed() -> Items<Result<u32, u32>> {
    Items::new(vec![Ok(2), Ok(3), Err(5), Err(7), Ok(11), Ok(13)])
}

fn and_then_fn(x: u32) -> Result<u64, u64> {
    if x < 12 {
        Ok(u64::from(x * 100))
    } else {
        Err(u64::from(x * 1000))
    }
}

type Converted = Vec<Result<u64, u64>>;

fn collect_and_then(mut f: AndThen<Items<Result<u32, u64>>, fn(u32) -> Result<u64, u64>>) -> Converted {
    collect(|| {
        let polled = f.iter_mut().poll_next();
        f.on_iter(polled)
    })
}

fn and_then_input() -> Items<Result<u32, u64>> {
    Items::new(vec![Ok(2), Ok(3), Err(5), Err(7), Ok(11), Ok(13)])
}

#[test]
fn test_and_then() {
    let iter = AndThen::new(and_then_input(), and_then_fn as fn(u32) -> Result<u64, u64>);
    assert_eq!(collect_and_then(iter), [Ok(200), Ok(300), Err(5), Err(7), Ok(1100), Err(13000)]);
}

#[test]
fn test_and_then_clone() {
    let iter = AndThen::new(and_then_input(), and_then_fn as fn(u32) -> Result<u64, u64>);
    let iter_2 = iter.clone();
    assert_eq!(collect_and_then(iter), [Ok(200), Ok(300), Err(5), Err(7), Ok(1100), Err(13000)]);
    assert_eq!(collect_and_then(iter_2), [Ok(200), Ok(300), Err(5), Err(7), Ok(1100), Err(13000)]);
}

fn or_else_fn(x: u32) -> Result<u64, u64> {
    if x < 7 {
        Ok(u64::from(x * 100))
    } else {
        Err(u64::from(x * 1000))
    }
}

fn collect_or_else(mut f: OrElse<Items<Result<u64, u32>>, fn(u32) -> Result<u64, u64>>) -> Converted {
    collect(|| {
        let polled = f.iter_mut().poll_next();
        f.on_iter(polled)
    })
}

fn or_else_input() -> Items<Result<u64, u32>> {
    Items::new(vec![Ok(2), Ok(3), Err(5), Err(7), Ok(11), Ok(13)])
}

#[test]
fn test_or_else() {
    let iter = OrElse::new(or_else_input(), or_else_fn as fn(u32) -> Result<u64, u64>);
    assert_eq!(collect_or_else(iter), [Ok(2), Ok(3), Ok(500), Err(7000), Ok(11), Ok(13)]);
}

#[test]
fn test_or_else_clone() {
    let iter = OrElse::new(or_else_input(), or_else_fn as fn(u32) -> Result<u64, u64>);
    let iter_2 = iter.clone();
    assert_eq!(collect_or_else(iter), [Ok(2), Ok(3), Ok(500), Err(7000), Ok(11), Ok(13)]);
    assert_eq!(collect_or_else(iter_2), [Ok(2), Ok(3), Ok(500), Err(7000), Ok(11), Ok(13)]);
}

fn times_100(x: u32) -> u64 {
    u64::from(x * 100)
}

fn collect_map_ok(mut f: MapOk<Items<Result<u32, u32>>, fn(u32) -> u64>) -> Vec<Result<u64, u32>> {
    collect(|| {
        let polled = f.iter_mut().poll_next();
        f.on_iter(polled)
    })
}

#[test]
fn test_map_ok() {
    let iter = MapOk::new(mixed(), times_100 as fn(u32) -> u64);
    assert_eq!(collect_map_ok(iter), [Ok(200), Ok(300), Err(5), Err(7), Ok(1100), Ok(1300)]);
}

#[test]
fn test_map_ok_clone() {
    let iter = MapOk::new(mixed(), times_100 as fn(u32) -> u64);
    let iter_2 = iter.clone();
    assert_eq!(collect_map_ok(iter), [Ok(200), Ok(300), Err(5), Err(7), Ok(1100), Ok(1300)]);
    assert_eq!(collect_map_ok(iter_2), [Ok(200), Ok(300), Err(5), Err(7), Ok(1100), Ok(1300)]);
}

fn collect_map_err(mut f: MapErr<Items<Result<u32, u32>>, fn(u32) -> u64>) -> Vec<Result<u32, u64>> {
    collect(|| {
        let polled = f.iter_mut().poll_next();
        f.on_iter(polled)
    })
}

#[test]
fn test_map_err() {
    let iter = MapErr::new(mixed(), times_100 as fn(u32) -> u64);
    assert_eq!(collect_map_err(iter), [Ok(2), Ok(3), Err(500), Err(700), Ok(11), Ok(13)]);
}

#[test]
fn test_map_err_clone() {
    let iter = MapErr::new(mixed(), times_100 as fn(u32) -> u64);
    let iter_2 = iter.clone();
    assert_eq!(collect_map_err(iter), [Ok(2), Ok(3), Err(500), Err(700), Ok(11), Ok(13)]);
    assert_eq!(collect_map_err(iter_2), [Ok(2), Ok(3), Err(500), Err(700), Ok(11), Ok(13)]);
}

#[test]
fn test_inspect_ok() {
    let mut result = Vec::new();
    let out = {
        let mut iter = InspectOk::new(
            Items::new(vec![Ok::<u32, u32>(2), Err(3), Ok(5)]),
            |x: &u32| result.push(*x),
        );
        collect(|| {
            let polled = iter.iter_mut().poll_next();
            iter.on_iter(polled)
        })
    };
    assert_eq!(out, [Ok(2), Err(3), Ok(5)]);
    assert_eq!(result, [2, 5]);
}

fn short_mixed() -> Items<Result<u32, u32>> {
    Items::new(vec![Ok(2), Err(3), Ok(5), Err(7)])
}

fn collect_err_into(mut f: ErrInto<Items<Result<u32, u32>>>) -> Vec<Result<u32, Option<u32>>> {
    collect(|| {
        let polled = f.iter_mut().poll_next();
        f.on_iter(polled)
    })
}

#[test]
fn test_err_into() {
    let iter = ErrInto::new(short_mixed());
    assert_eq!(collect_err_into(iter), [Ok(2), Err(Some(3)), Ok(5), Err(Some(7))]);
}

#[test]
fn test_err_into_clone() {
    let iter = ErrInto::new(short_mixed());
    let iter_2 = iter.clone();
    assert_eq!(collect_err_into(iter), [Ok(2), Err(Some(3)), Ok(5), Err(Some(7))]);
    assert_eq!(collect_err_into(iter_2), [Ok(2), Err(Some(3)), Ok(5), Err(Some(7))]);
}

fn collect_ok_into(mut f: OkInto<Items<Result<u32, u32>>>) -> Vec<Result<Option<u32>, u32>> {
    collect(|| {
        let polled = f.iter_mut().poll_next();
        f.on_iter(polled)
    })
}

#[test]
fn test_ok_into() {
    let iter = OkInto::new(short_mixed());
    assert_eq!(collect_ok_into(iter), [Ok(Some(2)), Err(3), Ok(Some(5)), Err(7)]);
}

#[test]
fn test_ok_into_clone() {
    let iter = OkInto::new(short_mixed());
    let iter_2 = iter.clone();
    assert_eq!(collect_ok_into(iter), [Ok(Some(2)), Err(3), Ok(Some(5)), Err(7)]);
    assert_eq!(collect_ok_into(iter_2), [Ok(Some(2)), Err(3), Ok(Some(5)), Err(7)]);
}

#[test]
fn result_combinators_pass_pending_and_the_end_on() {
    let mut iter = MapOk::new(mixed(), times_100 as fn(u32) -> u64);
    assert_eq!(iter.on_iter(Poll::<Option<Result<u32, u32>>>::Pending), Poll::Pending);
    assert_eq!(iter.on_iter(Poll::<Option<Result<u32, u32>>>::Ready(None)), Poll::Ready(None));
}

#[test]
fn test_inspect_ok_clone() {
    let result = std::sync::Mutex::new(Vec::new());
    let mut iter = InspectOk::new(
        Items::new(vec![Ok::<u32, u32>(2), Err(3), Ok(5)]),
        |x: &u32| result.lock().unwrap().push(*x),
    );
    let mut iter_2 = iter.clone();
    let out = collect(|| {
        let polled = iter.iter_mut().poll_next();
        iter.on_iter(polled)
    });
    assert_eq!(out, [Ok(2), Err(3), Ok(5)]);
    assert_eq!(*result.lock().unwrap(), [2, 5]);
    let out_2 = collect(|| {
        let polled = iter_2.iter_mut().poll_next();
        iter_2.on_iter(polled)
    });
    assert_eq!(out_2, [Ok(2), Err(3), Ok(5)]);
    assert_eq!(*result.lock().unwrap(), [2, 5, 2, 5]);
}
