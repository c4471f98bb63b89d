use std::future::Future;
use std::pin::Pin;
use std::sync::mpsc;
use std::task::{Context, Poll, Waker};

use rust_async::executor::{
    new_executor_spawner, Executor, RunStep, SpawnStep, Spawner, Task, MAX_QUEUED_TASKS,
};

type BoxFuture = Pin<Box<dyn Future<Output = ()> + Send + 'static>>;

static GREETING: &str = "hello";

fn boxed(f: impl Future<Output = ()> + Send + 'static) -> BoxFuture {
    Box::pin(f)
}

/// Polls every ready task once until the run loop says to stop.
fn run_to_end(ex: &mut Executor<Task<BoxFuture>>) -> usize {
    let mut polled = 0;
    loop {
        match ex.run() {
            RunStep::Poll(task) => {
                let Task { mut future, spawner } = task;
                let waker = Waker::noop();
                let mut cx = Context::from_waker(&waker);
                let _ = future.as_mut().poll(&mut cx);
                spawner.release(ex);
                polled += 1;
            }
            RunStep::Wait => panic!("a spawner is still alive"),
            RunStep::Stop => return polled,
        }
    }
}

#[test]
fn the_answer_is_42() {
    let (mut executor, spawner) = new_executor_spawner();
    let step = spawner.spawn(
        &mut executor,
        boxed(async {
            assert_eq!(42, 42);
        }),
    );
    assert!(matches!(step, SpawnStep::Queued));
    spawner.release(&mut executor);
    assert_eq!(run_to_end(&mut executor), 1);
}

#[test]
fn test_async_communicate_by_channel() {
    let (mut executor, spawner) = new_executor_spawner();

    let (sender, receiver) = mpsc::channel::<String>();
    let first = spawner.spawn(
        &mut executor,
        boxed(async move {
            let _ = sender.send(GREETING.to_owned());
        }),
    );
    let second = spawner.spawn(
        &mut executor,
        boxed(async move {
            let received = receiver.recv().unwrap();
            assert_eq!(GREETING, received);
        }),
    );
    assert!(matches!(first, SpawnStep::Queued));
    assert!(matches!(second, SpawnStep::Queued));

    spawner.release(&mut executor);
    assert_eq!(run_to_end(&mut executor), 2);
}

#[test]
fn fresh_executor_has_one_spawner_and_no_task() {
    let (executor, _spawner) = new_executor_spawner::<u32>();
    assert_eq!(executor.len(), 0);
    assert_eq!(executor.spawner_count(), 1);
    assert!(executor.is_open());
}

#[test]
fn run_waits_while_a_spawner_lives_and_stops_after() {
    let (mut executor, spawner) = new_executor_spawner::<u32>();
    assert!(matches!(executor.run(), RunStep::Wait));
    spawner.release(&mut executor);
    assert_eq!(executor.spawner_count(), 0);
    assert!(matches!(executor.run(), RunStep::Stop));
}

#[test]
fn tasks_run_in_the_order_queued() {
    let (mut executor, spawner) = new_executor_spawner::<u32>();
    for i in 0..5u32 {
        assert!(matches!(spawner.spawn_task(&mut executor, i), SpawnStep::Queued));
    }
    assert_eq!(executor.len(), 5);
    for i in 0..5u32 {
        match executor.run() {
            RunStep::Poll(t) => assert_eq!(t, i),
            _ => panic!("expected a task"),
        }
    }
    assert!(matches!(executor.run(), RunStep::Wait));
}

#[test]
fn queued_tasks_run_before_stop() {
    let (mut executor, spawner) = new_executor_spawner::<u32>();
    assert!(matches!(spawner.spawn_task(&mut executor, 7), SpawnStep::Queued));
    spawner.release(&mut executor);
    assert!(matches!(executor.run(), RunStep::Poll(7)));
    assert!(matches!(executor.run(), RunStep::Stop));
}

#[test]
fn spawned_task_carries_a_spawner() {
    let (mut executor, spawner) = new_executor_spawner::<Task<u32>>();
    assert!(matches!(spawner.spawn(&mut executor, 3), SpawnStep::Queued));
    assert_eq!(executor.spawner_count(), 2);
    spawner.release(&mut executor);
    match executor.run() {
        RunStep::Poll(task) => {
            assert_eq!(task.future, 3);
            // the task's own spawner keeps the run going
            assert!(matches!(executor.run(), RunStep::Wait));
            task.spawner.release(&mut executor);
        }
        _ => panic!("expected a task"),
    }
    assert!(matches!(executor.run(), RunStep::Stop));
}

#[test]
fn clone_then_release_restores_the_count() {
    let (mut executor, spawner) = new_executor_spawner::<u32>();
    let second: Spawner = spawner.clone_handle(&mut executor);
    assert_eq!(executor.spawner_count(), 2);
    second.release(&mut executor);
    assert_eq!(executor.spawner_count(), 1);
}

#[test]
fn full_queue_hands_the_task_back_until_a_poll() {
    let (mut executor, spawner) = new_executor_spawner::<usize>();
    for i in 0..MAX_QUEUED_TASKS {
        assert!(matches!(spawner.spawn_task(&mut executor, i), SpawnStep::Queued));
    }
    assert_eq!(executor.len(), MAX_QUEUED_TASKS);
    assert!(matches!(spawner.spawn_task(&mut executor, 99), SpawnStep::Full(99)));
    assert_eq!(executor.len(), MAX_QUEUED_TASKS);
    assert!(matches!(executor.run(), RunStep::Poll(0)));
    assert!(matches!(spawner.spawn_task(&mut executor, 99), SpawnStep::Queued));
}

#[test]
fn closed_executor_discards_queued_tasks() {
    let (mut executor, spawner) = new_executor_spawner::<u32>();
    assert!(matches!(spawner.spawn_task(&mut executor, 1), SpawnStep::Queued));
    assert!(matches!(spawner.spawn_task(&mut executor, 2), SpawnStep::Queued));
    let discarded = executor.close();
    assert_eq!(discarded.into_iter().collect::<Vec<_>>(), vec![1, 2]);
    assert!(!executor.is_open());
    assert_eq!(executor.len(), 0);
    assert_eq!(executor.spawner_count(), 1);
    spawner.release(&mut executor);
    assert!(matches!(executor.run(), RunStep::Stop));
}

#[test]
fn woken_task_is_queued_again_behind_others() {
    let (mut executor, spawner) = new_executor_spawner::<Task<u32>>();
    assert!(matches!(spawner.spawn(&mut executor, 1), SpawnStep::Queued));
    let first = match executor.run() {
        RunStep::Poll(task) => task,
        _ => panic!("expected a task"),
    };
    assert!(matches!(spawner.spawn(&mut executor, 2), SpawnStep::Queued));
    // waking the first task queues its future again, with a spawner of its own
    assert!(matches!(first.spawner.spawn(&mut executor, first.future), SpawnStep::Queued));
    first.spawner.release(&mut executor);
    let order: Vec<u32> = (0..2)
        .map(|_| match executor.run() {
            RunStep::Poll(task) => {
                let f = task.future;
                task.spawner.release(&mut executor);
                f
            }
            _ => panic!("expected a task"),
        })
        .collect();
    assert_eq!(order, vec![2, 1]);
    spawner.release(&mut executor);
    assert!(matches!(executor.run(), RunStep::Stop));
}
