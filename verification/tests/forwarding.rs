// An engine behind a box, a shared pointer or a reference spawns exactly as the
// engine itself does: it takes what the engine takes and refuses what the
// engine refuses.

use async_executors::lifecycle::Backing;
use async_executors::lifecycle::Lifecycle;
use async_executors::LocalSpawnHandle;
use async_executors::LocalSpawnHandleExt;
use async_executors::SpawnHandle;
use async_executors::SpawnHandleExt;
use async_executors::TaskHandle;
use futures::executor::LocalPool;
use futures::executor::LocalSpawner;
use futures::task::SpawnError;
use std::rc::Rc;
use std::sync::Arc;

fn through<S: SpawnHandle<u8>>(exec: S, out: u8) -> Result<TaskHandle<u8>, SpawnError> {
    exec.spawn_handle(async move { out })
}

fn through_local<S: LocalSpawnHandle<Rc<u8>>>(exec: S, out: u8) -> Result<TaskHandle<Rc<u8>>, SpawnError> {
    exec.spawn_handle_local(async move { Rc::new(out) })
}

fn taken(r: Result<TaskHandle<u8>, SpawnError>, pool: &mut LocalPool) -> u8 {
    let handle = r.expect("spawn");
    assert_eq!(handle.state(), Lifecycle::submit(Backing::RemoteHandle));
    pool.run_until(handle)
}

fn taken_local(r: Result<TaskHandle<Rc<u8>>, SpawnError>, pool: &mut LocalPool) -> u8 {
    let handle = r.expect("spawn");
    assert_eq!(handle.state(), Lifecycle::submit(Backing::RemoteHandle));
    *pool.run_until(handle)
}

fn refused<Out>(r: Result<TaskHandle<Out>, SpawnError>) -> bool {
    matches!(&r, Err(error) if error.is_shutdown())
}

fn gone() -> LocalSpawner {
    LocalPool::new().spawner()
}

#[test]
fn the_engine_itself() {
    let mut pool = LocalPool::new();
    assert_eq!(taken(through(pool.spawner(), 1), &mut pool), 1);
    assert!(refused(through(gone(), 1)));
}

#[test]
fn behind_a_box() {
    let mut pool = LocalPool::new();
    assert_eq!(taken(through(Box::new(pool.spawner()), 2), &mut pool), 2);
    assert!(refused(through(Box::new(gone()), 2)));
}

#[test]
fn behind_an_arc() {
    let mut pool = LocalPool::new();
    assert_eq!(taken(through(Arc::new(pool.spawner()), 3), &mut pool), 3);
    assert!(refused(through(Arc::new(gone()), 3)));
}

#[test]
fn behind_an_rc() {
    let mut pool = LocalPool::new();
    assert_eq!(taken(through(Rc::new(pool.spawner()), 4), &mut pool), 4);
    assert!(refused(through(Rc::new(gone()), 4)));
}

#[test]
fn behind_a_reference() {
    let mut pool = LocalPool::new();
    let spawner = pool.spawner();
    assert_eq!(taken(through(&spawner, 5), &mut pool), 5);
    assert!(refused(through(&gone(), 5)));
}

#[test]
fn behind_a_mutable_reference() {
    let mut pool = LocalPool::new();
    let mut spawner = pool.spawner();
    assert_eq!(taken(through(&mut spawner, 6), &mut pool), 6);
    assert!(refused(through(&mut gone(), 6)));
}

#[test]
fn behind_a_box_without_a_type() {
    let mut pool = LocalPool::new();
    let erased: Box<dyn SpawnHandle<u8>> = Box::new(pool.spawner());
    assert_eq!(taken(through(erased, 7), &mut pool), 7);
    let erased: Box<dyn SpawnHandle<u8>> = Box::new(gone());
    assert!(refused(through(erased, 7)));
}

#[test]
fn behind_pointers_in_pointers() {
    let mut pool = LocalPool::new();
    assert_eq!(taken(through(Arc::new(Box::new(&pool.spawner())), 8), &mut pool), 8);
    assert!(refused(through(Rc::new(&mut Box::new(gone())), 8)));
}

#[test]
fn local_the_engine_itself() {
    let mut pool = LocalPool::new();
    assert_eq!(taken_local(through_local(pool.spawner(), 1), &mut pool), 1);
    assert!(refused(through_local(gone(), 1)));
}

#[test]
fn local_behind_a_box() {
    let mut pool = LocalPool::new();
    assert_eq!(taken_local(through_local(Box::new(pool.spawner()), 2), &mut pool), 2);
    assert!(refused(through_local(Box::new(gone()), 2)));
}

#[test]
fn local_behind_an_arc() {
    let mut pool = LocalPool::new();
    assert_eq!(taken_local(through_local(Arc::new(pool.spawner()), 3), &mut pool), 3);
    assert!(refused(through_local(Arc::new(gone()), 3)));
}

#[test]
fn local_behind_an_rc() {
    let mut pool = LocalPool::new();
    assert_eq!(taken_local(through_local(Rc::new(pool.spawner()), 4), &mut pool), 4);
    assert!(refused(through_local(Rc::new(gone()), 4)));
}

#[test]
fn local_behind_a_reference() {
    let mut pool = LocalPool::new();
    let spawner = pool.spawner();
    assert_eq!(taken_local(through_local(&spawner, 5), &mut pool), 5);
    assert!(refused(through_local(&gone(), 5)));
}

#[test]
fn local_behind_a_mutable_reference() {
    let mut pool = LocalPool::new();
    let mut spawner = pool.spawner();
    assert_eq!(taken_local(through_local(&mut spawner, 6), &mut pool), 6);
    assert!(refused(through_local(&mut gone(), 6)));
}
