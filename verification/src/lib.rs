//! Spawning asynchronous work on any of several engines through one interface,
//! with a task handle that can be awaited, detached, or dropped to cancel.
//!
//! The engines are a tokio runtime driven from one thread ([`TokioCt`]), a
//! tokio runtime with worker threads ([`TokioTp`], [`TokioHandle`]), the pool
//! of async-std ([`AsyncStd`]), and the two pools of futures (`LocalSpawner`,
//! `ThreadPool`). Each of them spawns through `Spawn` and `LocalSpawn` of
//! futures where it can, and through [`SpawnHandle`] and [`LocalSpawnHandle`]
//! for a [`TaskHandle`]. So does an engine behind a box, a shared pointer or a
//! reference. For the microtask queue of a hosting page there is the token
//! [`Bindgen`]; the call of the host is left to the code around the library.
//!
//! What a handle does when it is awaited, detached or dropped is decided in
//! [`lifecycle`], on plain values, and proved there. How a task is tied to its
//! handle is in [`remote_handle`]: an adapter for another engine gets from
//! there the wrapped task to submit and the handle to return. The handle and
//! the adapters carry the decisions out on the engines; the calls into the
//! engines are the part that is taken on trust.

pub mod async_std_pool;
pub mod bindgen;
pub mod lifecycle;
pub mod local_spawn_handle;
mod outside;
pub mod remote_handle;
pub mod spawn_handle;
pub mod task_handle;
pub mod tokio_ct;
pub mod tokio_tp;

pub use async_std_pool::AsyncStd;
pub use bindgen::Bindgen;
pub use local_spawn_handle::LocalSpawnHandle;
pub use local_spawn_handle::LocalSpawnHandleExt;
pub use spawn_handle::SpawnHandle;
pub use spawn_handle::SpawnHandleExt;
pub use task_handle::TaskHandle;
pub use tokio_ct::TokioCt;
pub use tokio_tp::TokioHandle;
pub use tokio_tp::TokioTp;
