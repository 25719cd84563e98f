//! Spin locks, channels and reference-counted handles.
//!
//! What threads share lies at an address of a [`Memory`], and locks, channels, channel ends and
//! counted handles point to it. Each atomic update is one step. An operation is a sequence of
//! steps, which are public too, so that the steps of several threads can be taken in any order. The
//! `laws` modules prove what holds in every order.

pub mod arc_type_safe_oneshot_channel;
pub mod arc_with_weak_pointers;
pub mod basic_arc;
pub mod basic_blocking_channel;
pub mod basic_channel;
pub mod basic_one_shot_channel;
pub mod memory;
pub mod message_cell;
pub mod spin_lock;
pub mod type_safe_oneshot_channel_ref;

pub use crate::basic_channel::BasicChannel;
pub use crate::memory::Memory;
pub use crate::spin_lock::{DataSpinLock, MinimalSpinLock, SpinLockGuard};
