//! Supervision of external command-line tools on behalf of a host application:
//! the lifecycle of one subprocess (spawn, run, crash, back-off, respawn,
//! terminal failure or stop), the adapters built on it, and the small
//! collaborators around them (pane notifications, a frame animation).

pub mod text;
pub mod integrations;
pub mod data;
pub mod notification;
pub mod bus;
pub mod animation;
