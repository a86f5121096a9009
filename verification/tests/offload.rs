//! Runs the bridge end to end: real worker threads, a real one-shot
//! completion channel and a real resource pool produce the outcomes, and
//! the library's verified decisions map them to what the caller sees.

use async_diesel::{complete, resolve_poll, AsyncError, ChannelPoll, PollOutcome};
use futures_channel::oneshot::{channel, Receiver};
use std::sync::atomic::{AtomicBool, Ordering};
use std::sync::Arc;
use std::time::{Duration, Instant};
use threadpool::ThreadPool;

/// A resource manager that always hands out a working (unit) resource.
#[derive(Debug)]
struct DummyManager;

impl r2d2::ManageConnection for DummyManager {
    type Connection = ();
    type Error = std::io::Error;

    fn connect(&self) -> Result<(), std::io::Error> {
        Ok(())
    }

    fn is_valid(&self, _conn: &mut ()) -> Result<(), std::io::Error> {
        Ok(())
    }

    fn has_broken(&self, _conn: &mut ()) -> bool {
        false
    }
}

/// A lifecycle hook that rejects every resource handed out.
#[derive(Debug)]
struct RejectAll;

impl r2d2::CustomizeConnection<(), std::io::Error> for RejectAll {
    fn on_acquire(&self, _conn: &mut ()) -> Result<(), std::io::Error> {
        Err(std::io::Error::new(std::io::ErrorKind::Other, "rejected by hook"))
    }
}

/// One observation of the completion channel, as the offload future's poll
/// would see it.
fn observe<T>(rx: &mut Receiver<T>) -> ChannelPoll<T> {
    match rx.try_recv() {
        Ok(None) => ChannelPoll::Pending,
        Ok(Some(v)) => ChannelPoll::Received(v),
        Err(_) => ChannelPoll::Dropped,
    }
}

/// Observes the channel until it settles, as an executor would keep
/// polling the future until it resolves.
fn settle<T>(rx: &mut Receiver<T>) -> ChannelPoll<T> {
    let deadline = Instant::now() + Duration::from_secs(15);
    loop {
        match observe(rx) {
            ChannelPoll::Pending => {
                assert!(Instant::now() < deadline, "the worker never settled the channel");
                std::hint::spin_loop();
            }
            settled => return settled,
        }
    }
}

fn wait_for(flag: &AtomicBool) {
    let deadline = Instant::now() + Duration::from_secs(15);
    while !flag.load(Ordering::SeqCst) {
        assert!(Instant::now() < deadline, "the worker never reached this point");
        std::hint::spin_loop();
    }
}

#[test]
fn a_unit_of_work_resolves_exactly_once_with_its_value() {
    let workers = ThreadPool::new(2);
    let pool = r2d2::Pool::builder()
        .max_size(1)
        .build_unchecked(DummyManager);
    let (tx, mut rx) = channel::<Result<i32, AsyncError<String>>>();

    let pool_for_worker = pool.clone();
    workers.execute(move || {
        let step = match pool_for_worker.get() {
            Ok(_conn) => Ok(Ok(7)),
            Err(e) => Err(e),
        };
        let _ = tx.send(complete(step));
    });

    let settled = settle(&mut rx);
    assert!(!matches!(settled, ChannelPoll::Pending));
    match resolve_poll(settled) {
        PollOutcome::Ready(Ok(v)) => assert_eq!(v, 7),
        _ => panic!("the future must resolve to the unit's own value"),
    }
}

#[test]
fn a_panicking_unit_resolves_to_canceled_and_the_pool_survives() {
    let workers = ThreadPool::new(1);

    let (tx, mut rx) = channel::<Result<i32, AsyncError<String>>>();
    workers.execute(move || {
        let _sender = tx;
        panic!("worker exploded");
    });
    let polled = resolve_poll(settle(&mut rx));
    assert!(matches!(polled, PollOutcome::Ready(Err(AsyncError::Canceled))));

    let (tx2, mut rx2) = channel::<Result<i32, AsyncError<String>>>();
    workers.execute(move || {
        let _ = tx2.send(complete(Ok(Ok(5))));
    });
    match resolve_poll(settle(&mut rx2)) {
        PollOutcome::Ready(Ok(v)) => assert_eq!(v, 5),
        _ => panic!("an independent unit after a panic must still succeed"),
    }
}

#[test]
fn dropping_the_future_does_not_stop_the_worker_or_leak_the_resource() {
    let workers = ThreadPool::new(1);
    let pool = r2d2::Pool::builder()
        .max_size(1)
        .build_unchecked(DummyManager);

    let acquired = Arc::new(AtomicBool::new(false));
    let proceed = Arc::new(AtomicBool::new(false));
    let send_failed = Arc::new(AtomicBool::new(false));
    let finished = Arc::new(AtomicBool::new(false));

    let (tx, rx) = channel::<Result<i32, AsyncError<String>>>();
    let pool_for_worker = pool.clone();
    let (acquired2, proceed2, send_failed2, finished2) =
        (acquired.clone(), proceed.clone(), send_failed.clone(), finished.clone());
    workers.execute(move || {
        let conn = pool_for_worker.get().expect("the pool has a free resource");
        acquired2.store(true, Ordering::SeqCst);
        let deadline = Instant::now() + Duration::from_secs(15);
        while !proceed2.load(Ordering::SeqCst) && Instant::now() < deadline {
            std::hint::spin_loop();
        }
        if tx.send(complete(Ok(Ok(1)))).is_err() {
            send_failed2.store(true, Ordering::SeqCst);
        }
        drop(conn);
        finished2.store(true, Ordering::SeqCst);
    });

    wait_for(&acquired);
    drop(rx);
    proceed.store(true, Ordering::SeqCst);
    wait_for(&finished);

    assert!(send_failed.load(Ordering::SeqCst), "the abandoned send must fail, not block");
    pool.get_timeout(Duration::from_secs(5))
        .expect("the worker must have returned the resource to the pool");
}

#[test]
fn a_second_unit_waits_for_the_single_resource() {
    let workers = ThreadPool::new(2);
    let pool = r2d2::Pool::builder()
        .max_size(1)
        .build_unchecked(DummyManager);

    let acquired = Arc::new(AtomicBool::new(false));
    let released = Arc::new(AtomicBool::new(false));

    let (tx1, mut rx1) = channel::<Result<i32, AsyncError<String>>>();
    let pool1 = pool.clone();
    let (acquired1, released1) = (acquired.clone(), released.clone());
    workers.execute(move || {
        let step = match pool1.get() {
            Ok(conn) => {
                acquired1.store(true, Ordering::SeqCst);
                let until = Instant::now() + Duration::from_millis(50);
                while Instant::now() < until {
                    std::hint::spin_loop();
                }
                released1.store(true, Ordering::SeqCst);
                drop(conn);
                Ok(Ok(1))
            }
            Err(e) => Err(e),
        };
        let _ = tx1.send(complete(step));
    });

    wait_for(&acquired);

    // The second unit records whether the first had already released the
    // single resource at the moment its own checkout succeeded.
    let (tx2, mut rx2) = channel::<Result<bool, AsyncError<String>>>();
    let pool2 = pool.clone();
    let released2 = released.clone();
    workers.execute(move || {
        let step = match pool2.get() {
            Ok(_conn) => Ok(Ok(released2.load(Ordering::SeqCst))),
            Err(e) => Err(e),
        };
        let _ = tx2.send(complete(step));
    });

    match resolve_poll(settle(&mut rx2)) {
        PollOutcome::Ready(Ok(first_had_released)) => assert!(
            first_had_released,
            "the second unit must not run before the first releases the resource"
        ),
        _ => panic!("the second unit must eventually acquire and resolve"),
    }
    match resolve_poll(settle(&mut rx1)) {
        PollOutcome::Ready(Ok(v)) => assert_eq!(v, 1),
        _ => panic!("the first unit must resolve with its own value"),
    }
}

#[test]
fn an_exhausted_pool_reports_timeout_within_its_bound() {
    let pool = r2d2::Pool::builder()
        .max_size(1)
        .connection_timeout(Duration::from_millis(100))
        .build_unchecked(DummyManager);

    let guard = pool.get().expect("the first checkout succeeds");
    let err = pool.get().err().expect("a pool at capacity must fail within its bound");
    let sent = complete::<i32, String>(Err(err));
    assert!(matches!(sent, Err(AsyncError::Timeout(_))));

    drop(guard);
    pool.get().expect("a released resource can be checked out again");
}

#[test]
fn a_rejecting_acquire_hook_surfaces_as_timeout_never_execute() {
    let pool = r2d2::Pool::builder()
        .max_size(1)
        .connection_timeout(Duration::from_millis(100))
        .connection_customizer(Box::new(RejectAll))
        .build_unchecked(DummyManager);

    let err = pool.get().err().expect("a hook that rejects everything fails every checkout");
    let sent = complete::<i32, String>(Err(err));
    assert!(matches!(sent, Err(AsyncError::Timeout(_))));
    assert!(!matches!(sent, Err(AsyncError::Execute(_))));
}
