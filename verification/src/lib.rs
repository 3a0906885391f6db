//! A single-use channel: one value, handed once from one sender to one
//! receiver.
//!
//! The value travels through a [`Mailbox`], a three-state machine whose
//! transitions and laws are proved here. The handles share one mailbox behind
//! a lock and announce its filling through an atomic flag: the sender fills
//! the mailbox and then stores the flag with release ordering; a receiver
//! loads the flag with acquire ordering and only then drains the mailbox.
//!
//! No handle ever waits for the lock. A try that finds it busy comes back
//! with what it was given, and the caller decides whether to try again.

pub mod channel;
pub mod laws;
pub mod mailbox;
mod sync;

pub use channel::create_single_use_channel;
pub use channel::ControlBlock;
pub use channel::SingleUseChannel;
pub use channel::SingleUseReceiver;
pub use channel::SingleUseSender;
pub use channel::TryRecvVal;
pub use channel::TrySendVal;
pub use mailbox::Event;
pub use mailbox::Mailbox;
