use futures::executor::block_on;
use sea_streamer::{spawn_blocking, spawn_task, JoinError};

#[test]
fn no_task_can_be_spawned() {
    assert_eq!(block_on(spawn_task(async { 1 })), Err(JoinError));
    assert_eq!(spawn_task(async { "x" }).into_inner(), Err(JoinError));
}

#[test]
fn no_blocking_task_can_be_spawned() {
    let joined = spawn_blocking(|| -> u8 { panic!("this is never run") });
    assert_eq!(block_on(joined), Err(JoinError));
}

#[test]
fn the_error_asks_for_a_runtime() {
    assert_eq!(JoinError.message(), "Please enable a runtime");
}
