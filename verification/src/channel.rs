//! The channel and its two handles.

use crate::mailbox::Mailbox;
use crate::sync::contents;
use crate::sync::hold;
use std::sync::atomic::AtomicBool;
use std::sync::atomic::Ordering;
use std::sync::Arc;
use std::sync::Mutex;
use vstd::prelude::*;

verus! {

/// What the handles of one channel share: the mailbox behind a lock, and the
/// flag that announces its filling.
///
/// Other threads change both behind shared references, so a control block
/// says nothing about its state: it only tells one channel from another.
#[verifier::reject_recursive_types(T)]
pub struct ControlBlock<T: Send> {
    ready: AtomicBool,
    mailbox: Mutex<Mailbox<T>>,
}

/// A channel that was not split yet. Nothing can be sent or received through
/// it: `split_channel` turns it into the pair of handles.
pub struct SingleUseChannel<T: Send> {
    mailbox: Mailbox<T>,
}

/// The right to send one value. It cannot be duplicated, and the send that
/// gets through uses it up.
#[verifier::reject_recursive_types(T)]
pub struct SingleUseSender<T: Send> {
    shared: Arc<ControlBlock<T>>,
}

/// The right to receive the value. It can be duplicated, but only one of the
/// duplicates may take the value.
#[verifier::reject_recursive_types(T)]
pub struct SingleUseReceiver<T: Send> {
    shared: Arc<ControlBlock<T>>,
}

/// What a receive that does not wait comes back with.
#[verifier::reject_recursive_types(T)]
pub enum TryRecvVal<T: Send> {
    /// Nothing was there to take: the receiver comes back for another try.
    Fail(SingleUseReceiver<T>),
    /// The value, moved out of the channel.
    Received(T),
}

/// What a send that does not wait comes back with.
#[verifier::reject_recursive_types(T)]
pub enum TrySendVal<T: Send> {
    /// The mailbox was busy: the sender and the value come back for another
    /// try.
    Fail(SingleUseSender<T>, T),
    /// The value is in the mailbox and the flag is up.
    Sent,
}

impl<T: Send> View for SingleUseChannel<T> {
    type V = Mailbox<T>;

    /// The mailbox that the handles will share.
    closed spec fn view(&self) -> Mailbox<T> {
        self.mailbox
    }
}

/// Makes a channel whose mailbox is not ready and holds nothing.
#[inline(always)]
pub fn create_single_use_channel<T: Send>() -> (channel: SingleUseChannel<T>)
    ensures
        channel@ == Mailbox::<T>::EmptyUnready,
{
    SingleUseChannel { mailbox: Mailbox::new() }
}

impl<T: Send> SingleUseChannel<T> {
    /// Moves the channel into shared ownership and returns the two handles to
    /// it: both lead to the same control block.
    #[inline(always)]
    pub fn split_channel(self) -> (pair: (SingleUseSender<T>, SingleUseReceiver<T>))
        ensures
            pair.0.block() == pair.1.block(),
    {
        let ready = AtomicBool::new(self.mailbox.is_ready());
        let shared = Arc::new(ControlBlock { ready, mailbox: Mutex::new(self.mailbox) });
        (SingleUseSender { shared: shared.clone() }, SingleUseReceiver { shared })
    }
}

impl<T: Send> SingleUseSender<T> {
    /// The control block that this handle leads to.
    pub closed spec fn block(&self) -> ControlBlock<T> {
        *self.shared
    }

    /// What a send comes back with once it has tried: nothing more to do if
    /// the mailbox took the value, else the sender itself and the value.
    pub open spec fn verdict(self, leftover: Option<T>) -> TrySendVal<T> {
        match leftover {
            Some(value) => TrySendVal::Fail(self, value),
            None => TrySendVal::Sent,
        }
    }

    /// Turns what the mailbox left over into the result of a send.
    pub fn settle(self, leftover: Option<T>) -> (outcome: TrySendVal<T>)
        ensures
            outcome == self.verdict(leftover),
    {
        match leftover {
            Some(value) => TrySendVal::Fail(self, value),
            None => TrySendVal::Sent,
        }
    }

    /// Tries once, without waiting. Deposits `val` in the mailbox, then raises
    /// the flag with release ordering, so that whoever sees the flag up also
    /// sees the value. Needs no receiver: with none left, the value is
    /// destroyed together with the control block. Where the mailbox is busy,
    /// nothing is deposited, the flag stays as it is, and this same sender
    /// comes back with `val`.
    #[inline(always)]
    pub fn try_send(self, val: T) -> (outcome: TrySendVal<T>)
        ensures
            outcome matches TrySendVal::Fail(sender, value) ==> sender == self && value == val,
    {
        let leftover = {
            match hold(&self.shared.mailbox) {
                Some(guard) => {
                    let mut guard = guard;
                    contents(&mut guard).deposit(val);
                    None
                },
                None => Some(val),
            }
        };
        if leftover.is_none() {
            self.shared.ready.store(true, Ordering::Release);
        }
        self.settle(leftover)
    }
}

impl<T: Send> SingleUseReceiver<T> {
    /// The control block that this handle leads to.
    pub closed spec fn block(&self) -> ControlBlock<T> {
        *self.shared
    }

    /// What a receive comes back with once it has looked: the value if the
    /// mailbox handed one over, else the receiver itself.
    pub open spec fn verdict(self, drained: Option<T>) -> TryRecvVal<T> {
        match drained {
            Some(value) => TryRecvVal::Received(value),
            None => TryRecvVal::Fail(self),
        }
    }

    /// Turns what was drained from the mailbox into the result of a receive.
    pub fn settle(self, drained: Option<T>) -> (outcome: TryRecvVal<T>)
        ensures
            outcome == self.verdict(drained),
    {
        match drained {
            Some(value) => TryRecvVal::Received(value),
            None => TryRecvVal::Fail(self),
        }
    }

    /// Looks once, without waiting. Loads the flag with acquire ordering; if
    /// it is up and the mailbox is not busy, drains the mailbox. Comes back
    /// with the value, or, where none was there to take, with this same
    /// receiver.
    #[inline(always)]
    pub fn try_recv(self) -> (outcome: TryRecvVal<T>)
        ensures
            outcome matches TryRecvVal::Fail(receiver) ==> receiver == self,
    {
        if self.shared.ready.load(Ordering::Acquire) {
            let drained = {
                match hold(&self.shared.mailbox) {
                    Some(guard) => {
                        let mut guard = guard;
                        contents(&mut guard).drain()
                    },
                    None => None,
                }
            };
            self.settle(drained)
        } else {
            TryRecvVal::Fail(self)
        }
    }
}

impl<T: Send> Clone for SingleUseReceiver<T> {
    /// Another handle to the same control block.
    fn clone(&self) -> (twin: Self)
        ensures
            twin == *self,
    {
        SingleUseReceiver { shared: self.shared.clone() }
    }
}

} // verus!
