//! What the timer backends compute and decide.

pub mod answers;
pub mod fd;
pub mod kqueue;
pub mod one_shot;
pub mod periodic_timer;
pub mod timerfd;
pub mod windows;
