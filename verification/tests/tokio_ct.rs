// What is tried here:
//
// - a     TokioCt  handed to a function that takes `impl Spawn`
// - a    &TokioCt  handed to a function that takes `&impl Spawn`
// - a    &TokioCt  handed to a function that takes `impl Spawn`
// - a    &TokioCt  handed to a function that takes `impl Spawn + Clone`
// - an Arc<TokioCt> handed to a function that takes `impl Spawn`
// - a     TokioCt  handed to a function that takes `impl SpawnHandle`
// - an Arc<TokioCt> handed to a function that takes `impl SpawnHandle`
// - a    &TokioCt  handed to a function that takes `&dyn SpawnHandle`
// - the same for `LocalSpawn` and `LocalSpawnHandle`, with `Rc` for `Arc`
// - spawning before `block_on` runs
// - a detached task keeps running
// - a thousand tasks at once

use async_executors::LocalSpawnHandle;
use async_executors::LocalSpawnHandleExt;
use async_executors::SpawnHandle;
use async_executors::SpawnHandleExt;
use async_executors::TokioCt;
use futures::channel::mpsc;
use futures::channel::mpsc::Sender;
use futures::channel::oneshot;
use futures::task::LocalSpawn;
use futures::task::LocalSpawnExt;
use futures::task::Spawn;
use futures::task::SpawnExt;
use futures::SinkExt;
use futures::StreamExt;
use std::future::Future;
use std::rc::Rc;
use std::sync::Arc;
use tokio::runtime::Builder;

/// Blocks on the future. No test here runs inside a runtime.
trait Run {
    fn run<F: Future>(&mut self, f: F) -> F::Output;
}

impl Run for TokioCt {
    fn run<F: Future>(&mut self, f: F) -> F::Output {
        self.block_on(f).ok().expect("this thread is inside no runtime")
    }
}

fn current_thread() -> TokioCt {
    TokioCt::try_from(&mut Builder::new_current_thread()).expect("create tokio current thread")
}

async fn sum(a: u8, b: u8, mut tx: Sender<u8>) {
    tx.send(a + b).await.expect("send on tx");
}

async fn sum_local(a: u8, b: u8, mut tx: Sender<u8>) {
    // Keeps the task on its thread.
    let bound = Rc::new(b);
    tx.send(a + *bound).await.expect("send on tx");
}

async fn sum_handle(a: u8, b: u8) -> u8 {
    a + b
}

async fn sum_handle_local(a: u8, b: u8) -> Rc<u8> {
    Rc::new(a + b)
}

fn increment(a: u8, exec: impl Spawn, tx: Sender<u8>) {
    exec.spawn(sum(a, 1, tx)).expect("spawn");
}

fn increment_ref(a: u8, exec: &impl Spawn, tx: Sender<u8>) {
    exec.spawn(sum(a, 1, tx)).expect("spawn");
}

fn increment_clone(a: u8, exec: impl Spawn + Clone, tx: Sender<u8>) {
    let second = exec.clone();
    drop(exec);
    second.spawn(sum(a, 1, tx)).expect("spawn");
}

fn increment_local(a: u8, exec: impl LocalSpawn, tx: Sender<u8>) {
    exec.spawn_local(sum_local(a, 1, tx)).expect("spawn");
}

fn increment_ref_local(a: u8, exec: &impl LocalSpawn, tx: Sender<u8>) {
    exec.spawn_local(sum_local(a, 1, tx)).expect("spawn");
}

fn increment_clone_local(a: u8, exec: impl LocalSpawn + Clone, tx: Sender<u8>) {
    let second = exec.clone();
    drop(exec);
    second.spawn_local(sum_local(a, 1, tx)).expect("spawn");
}

async fn increment_spawn_handle(a: u8, exec: impl SpawnHandle<u8>) -> u8 {
    exec.spawn_handle(sum_handle(a, 1)).expect("spawn").await
}

async fn increment_spawn_handle_os(a: u8, exec: &dyn SpawnHandle<u8>) -> u8 {
    exec.spawn_handle(sum_handle(a, 1)).expect("spawn").await
}

async fn increment_spawn_handle_local(a: u8, exec: impl LocalSpawnHandle<Rc<u8>>) -> Rc<u8> {
    exec.spawn_handle_local(sum_handle_local(a, 1)).expect("spawn").await
}

async fn increment_spawn_handle_local_os(a: u8, exec: &dyn LocalSpawnHandle<Rc<u8>>) -> Rc<u8> {
    exec.spawn_handle_local(sum_handle_local(a, 1)).expect("spawn").await
}

#[test]
fn tokio_ct_spawn() {
    let (tx, mut rx) = mpsc::channel(1);
    let mut exec = current_thread();
    let ex2 = exec.clone();

    let res = exec.run(async {
        increment(4, ex2, tx);

        rx.next().await.expect("Some")
    });

    assert_eq!(5u8, res);
}

#[test]
fn tokio_ct_spawn_ref() {
    let (tx, mut rx) = mpsc::channel(1);
    let mut exec = current_thread();
    let ex2 = exec.clone();

    let res = exec.run(async {
        increment_ref(4, &ex2, tx);

        rx.next().await.expect("Some")
    });

    assert_eq!(5u8, res);
}

#[test]
fn tokio_ct_spawn_with_ref() {
    let (tx, mut rx) = mpsc::channel(1);
    let mut exec = current_thread();
    let ex2 = exec.clone();

    let res = exec.run(async {
        increment(4, &ex2, tx);

        rx.next().await.expect("Some")
    });

    assert_eq!(5u8, res);
}

#[test]
fn tokio_ct_spawn_clone_with_ref() {
    let (tx, mut rx) = mpsc::channel(1);
    let mut exec = current_thread();
    let ex2 = exec.clone();

    let res = exec.run(async {
        increment_clone(4, &ex2, tx);

        rx.next().await.expect("Some")
    });

    assert_eq!(5u8, res);
}

#[test]
#[allow(clippy::arc_with_non_send_sync)]
fn tokio_ct_spawn_clone_with_arc() {
    let (tx, mut rx) = mpsc::channel(1);
    let mut exec = current_thread();
    let ex2 = exec.clone();

    let res = exec.run(async {
        increment_clone(4, Arc::new(ex2), tx);

        rx.next().await.expect("Some")
    });

    assert_eq!(5u8, res);
}

#[test]
fn tokio_ct_spawn_handle() {
    let mut exec = current_thread();
    let ex2 = exec.clone();

    let res = exec.run(increment_spawn_handle(4, ex2));

    assert_eq!(5u8, res);
}

#[test]
#[allow(clippy::arc_with_non_send_sync)]
fn tokio_ct_spawn_handle_arc() {
    let mut exec = current_thread();
    let ex2 = exec.clone();

    let res = exec.run(increment_spawn_handle(4, Arc::new(ex2)));

    assert_eq!(5u8, res);
}

#[test]
fn tokio_ct_spawn_handle_os() {
    let mut exec = current_thread();
    let ex2 = exec.clone();

    let result = exec.run(increment_spawn_handle_os(4, &ex2));

    assert_eq!(5u8, result);
}

#[test]
fn spawn_handle_many() {
    let mut exec = current_thread();

    let _result = exec.run(async move {
        let amount = 1000;
        let mut rxs = Vec::with_capacity(amount);

        for i in 0..amount {
            let (mut tx, rx) = mpsc::channel(3);

            rxs.push(rx.fold(0, |_, i| futures::future::ready(i)));

            tokio::task::spawn_local(async move {
                tx.send(i).await.unwrap();
            });
        }

        futures::future::join_all(rxs).await;
    });
}

#[test]
fn tokio_ct_spawn_local() {
    let (tx, mut rx) = mpsc::channel(1);
    let mut exec = current_thread();
    let ex2 = exec.clone();

    let res = exec.run(async {
        increment_local(4, ex2, tx);

        rx.next().await.expect("Some")
    });

    assert_eq!(5u8, res);
}

#[test]
fn tokio_ct_spawn_ref_local() {
    let (tx, mut rx) = mpsc::channel(1);
    let mut exec = current_thread();
    let ex2 = exec.clone();

    let res = exec.run(async {
        increment_ref_local(4, &ex2, tx);

        rx.next().await.expect("Some")
    });

    assert_eq!(5u8, res);
}

#[test]
fn tokio_ct_spawn_with_ref_local() {
    let (tx, mut rx) = mpsc::channel(1);
    let mut exec = current_thread();
    let ex2 = exec.clone();

    let res = exec.run(async {
        increment_local(4, &ex2, tx);

        rx.next().await.expect("Some")
    });

    assert_eq!(5u8, res);
}

#[test]
fn tokio_ct_spawn_clone_with_ref_local() {
    let (tx, mut rx) = mpsc::channel(1);
    let mut exec = current_thread();
    let ex2 = exec.clone();

    let res = exec.run(async {
        increment_clone_local(4, &ex2, tx);

        rx.next().await.expect("Some")
    });

    assert_eq!(5u8, res);
}

#[test]
fn tokio_ct_spawn_clone_with_rc_local() {
    let (tx, mut rx) = mpsc::channel(1);
    let mut exec = current_thread();
    let ex2 = exec.clone();

    let res = exec.run(async {
        increment_clone_local(4, Rc::new(ex2), tx);

        rx.next().await.expect("Some")
    });

    assert_eq!(5u8, res);
}

#[test]
fn tokio_ct_spawn_handle_local() {
    let mut exec = current_thread();
    let ex2 = exec.clone();

    let res = exec.run(increment_spawn_handle_local(4, ex2));

    assert_eq!(5u8, *res);
}

#[test]
fn tokio_ct_spawn_handle_rc_local() {
    let mut exec = current_thread();
    let ex2 = exec.clone();

    let res = exec.run(increment_spawn_handle_local(4, Rc::new(ex2)));

    assert_eq!(5u8, *res);
}

#[test]
fn tokio_ct_spawn_handle_local_os() {
    let mut exec = current_thread();
    let ex2 = exec.clone();

    let result = exec.run(increment_spawn_handle_os(4, &ex2));

    assert_eq!(5u8, result);
}

#[test]
fn tokio_ct_spawn_handle_local_behind_a_pointer_without_a_type() {
    let mut exec = current_thread();
    let ex2 = exec.clone();

    let result = exec.run(increment_spawn_handle_local_os(4, &ex2));

    assert_eq!(5u8, *result);
}

#[test]
fn spawn_outside_block_on() {
    let (mut tx, mut rx) = mpsc::channel(1);
    let mut exec = current_thread();

    exec.spawn(async move {
        tx.send("hello").await.expect("send hello");
    })
    .expect("spawn");

    let result = exec.run(async move { rx.next().await.expect("receive hello") });

    assert_eq!("hello", result);
}

#[test]
fn tokio_ct_join_handle_detach() {
    let mut exec = current_thread();

    let (in_tx, in_rx) = oneshot::channel();
    let (out_tx, out_rx) = oneshot::channel();

    let handle = exec
        .spawn_handle(async move {
            let content = in_rx.await.expect("receive on in");

            out_tx.send(content).expect("send on out");
        })
        .expect("spawn task");

    // This moves the handle out and drops it.
    handle.detach();

    exec.run(async move {
        in_tx.send(5u8).expect("send on in");

        assert_eq!(out_rx.await, Ok(5));
    });
}
