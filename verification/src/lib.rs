//! A small task runtime: the decisions of its executor, spawners, wakers and
//! futures, each as a verified state machine over plain values.

pub mod delay;
pub mod event_token;
pub mod executor;
pub mod park;
pub mod reactor;
pub mod spawn_blocking;
pub mod udp_socket;
