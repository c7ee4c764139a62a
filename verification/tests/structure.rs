// What the types are, as far as the compiler decides it: which of them may
// cross threads, and which capabilities each engine has.

use async_executors::AsyncStd;
use async_executors::Bindgen;
use async_executors::LocalSpawnHandle;
use async_executors::SpawnHandle;
use async_executors::TaskHandle;
use async_executors::TokioCt;
use async_executors::TokioHandle;
use async_executors::TokioTp;
use futures::executor::LocalSpawner;
use futures::executor::ThreadPool;
use futures::task::LocalSpawn;
use futures::task::Spawn;
use std::future::Future;
use std::rc::Rc;
use std::sync::Arc;

// A type has `some_item` through exactly one of the impls below as long as it
// is neither `Send` nor `Sync`. If it is either, two impls fit, and naming the
// item without saying which one no longer compiles.
trait AmbiguousIfCrossing<A> {
    fn some_item() {}
}

struct IfSend;

struct IfSync;

impl<T: ?Sized> AmbiguousIfCrossing<()> for T {}

impl<T: ?Sized + Send> AmbiguousIfCrossing<IfSend> for T {}

impl<T: ?Sized + Sync> AmbiguousIfCrossing<IfSync> for T {}

fn crosses_threads<T: Send + Sync>() {}

fn sendable<T: Send>() {}

fn spawns<T: Spawn>() {}

fn spawns_local<T: LocalSpawn>() {}

fn spawns_for_a_handle<T: SpawnHandle<u8> + ?Sized>() {}

fn spawns_local_for_a_handle<T: LocalSpawnHandle<Rc<u8>> + ?Sized>() {}

fn awaitable<T: Future<Output = u8> + Unpin>() {}

#[test]
fn tokio_ct_stays_on_its_thread() {
    let _ = <TokioCt as AmbiguousIfCrossing<_>>::some_item;
}

#[test]
fn the_other_engines_cross_threads() {
    crosses_threads::<TokioTp>();
    crosses_threads::<TokioHandle>();
    crosses_threads::<AsyncStd>();
    crosses_threads::<Bindgen>();
}

#[test]
fn a_handle_goes_where_its_output_can_go() {
    sendable::<TaskHandle<u8>>();
    awaitable::<TaskHandle<u8>>();
    let _ = <TaskHandle<Rc<u8>> as AmbiguousIfCrossing<_>>::some_item;
}

#[test]
fn every_engine_spawns() {
    spawns::<TokioCt>();
    spawns::<TokioTp>();
    spawns::<TokioHandle>();
    spawns::<AsyncStd>();
    spawns_local::<TokioCt>();
    spawns_local::<AsyncStd>();
}

#[test]
fn every_engine_spawns_for_a_handle() {
    spawns_for_a_handle::<TokioCt>();
    spawns_for_a_handle::<TokioTp>();
    spawns_for_a_handle::<TokioHandle>();
    spawns_for_a_handle::<AsyncStd>();
    spawns_for_a_handle::<LocalSpawner>();
    spawns_for_a_handle::<ThreadPool>();
    spawns_local_for_a_handle::<TokioCt>();
    spawns_local_for_a_handle::<AsyncStd>();
    spawns_local_for_a_handle::<LocalSpawner>();
}

#[test]
fn every_ownership_spawns_for_a_handle() {
    spawns_for_a_handle::<Box<ThreadPool>>();
    spawns_for_a_handle::<Arc<ThreadPool>>();
    spawns_for_a_handle::<Rc<ThreadPool>>();
    spawns_for_a_handle::<&ThreadPool>();
    spawns_for_a_handle::<&mut ThreadPool>();
    spawns_for_a_handle::<dyn SpawnHandle<u8>>();
    spawns_for_a_handle::<Box<dyn SpawnHandle<u8>>>();
    spawns_for_a_handle::<Arc<dyn SpawnHandle<u8> + Send + Sync>>();
    spawns_local_for_a_handle::<Box<TokioCt>>();
    spawns_local_for_a_handle::<Arc<TokioCt>>();
    spawns_local_for_a_handle::<Rc<TokioCt>>();
    spawns_local_for_a_handle::<&TokioCt>();
    spawns_local_for_a_handle::<&mut TokioCt>();
    spawns_local_for_a_handle::<dyn LocalSpawnHandle<Rc<u8>>>();
    spawns_local_for_a_handle::<Rc<dyn LocalSpawnHandle<Rc<u8>>>>();
}

#[test]
fn bindgen_is_one_token() {
    assert_eq!(Bindgen::new(), Bindgen);
    assert_eq!(Bindgen::new(), Bindgen::default());
    let token = Bindgen::new();
    let copy = token;
    assert_eq!(token, copy);
    assert_eq!(std::mem::size_of::<Bindgen>(), 0);
}

#[test]
fn bindgen_says_what_it_is() {
    assert_eq!(Bindgen::new().name(), "WASM Bindgen executor");
    assert_eq!(format!("{:?}", Bindgen::new()), "WASM Bindgen executor");
}
