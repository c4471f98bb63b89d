use std::future::Future;
use std::sync::{Arc, Condvar, Mutex};
use std::task::{Context, Poll, Wake, Waker};

use rust_async::park::{new_park, Park};

/// A thread parker built on the library's wake-up token.
struct Parker(Mutex<Park>, Condvar);

impl Parker {
    fn new() -> Arc<Parker> {
        Arc::new(Parker(Mutex::new(new_park()), Condvar::new()))
    }

    fn park(&self) {
        let mut token = self.0.lock().unwrap();
        while !token.park() {
            token = self.1.wait(token).unwrap();
        }
    }

    fn unpark(&self) {
        self.0.lock().unwrap().unpark();
        self.1.notify_one();
    }
}

impl Wake for Parker {
    fn wake(self: Arc<Self>) {
        self.unpark();
    }
}

/// Polls the future to completion, parking between polls.
fn block_on<F: Future>(future: F) -> F::Output {
    let mut future = Box::pin(future);
    let park = Parker::new();
    let waker = Waker::from(park.clone());
    let mut cx = Context::from_waker(&waker);
    loop {
        match future.as_mut().poll(&mut cx) {
            Poll::Ready(val) => return val,
            Poll::Pending => park.park(),
        }
    }
}

#[test]
fn test_block_on() {
    let answer = block_on(async { 42 });

    assert_eq!(42, answer);
}

#[test]
fn should_not_deadlock() {
    let park = Parker::new();
    let park_cloned = park.clone();
    // the unpark comes before the park; the park must not wait
    park_cloned.unpark();
    park.park();
}

#[test]
fn unpark_before_park_lets_it_through() {
    let mut park = new_park();
    park.unpark();
    assert!(park.park());
}

#[test]
fn fresh_park_waits() {
    let mut park = new_park();
    assert!(!park.runnable());
    assert!(!park.park());
    assert!(!park.runnable());
}

#[test]
fn unparks_do_not_accumulate() {
    let mut park = new_park();
    park.unpark();
    park.unpark();
    assert!(park.runnable());
    assert!(park.park());
    assert!(!park.park());
}
