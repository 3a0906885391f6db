//! The mailbox: the slot for the one value, together with its readiness.

use vstd::prelude::*;

verus! {

/// The state of a channel's control block.
///
/// Readiness and the slot are one value, so that a mailbox that is not ready
/// cannot hold anything: the flag is up exactly from the deposit on, and the
/// slot is full exactly between the deposit and the drain.
pub enum Mailbox<T> {
    /// Nothing was sent yet: not ready, slot empty.
    EmptyUnready,
    /// The value was sent and waits in the slot: ready, slot full.
    FilledReady(T),
    /// The value was sent and taken: ready, slot empty again.
    EmptyReady,
}

/// What can happen to a mailbox while handles to it are alive.
pub enum Event<T> {
    /// The sender deposits a value.
    Deposit(T),
    /// A receiver tries to drain the slot.
    Drain,
}

impl<T> Mailbox<T> {
    /// Whether the readiness flag is up.
    pub open spec fn ready(self) -> bool {
        !(self is EmptyUnready)
    }

    /// What the slot holds. A drain hands exactly this to the receiver, and
    /// tearing the mailbox down destroys exactly this.
    pub open spec fn slot(self) -> Option<T> {
        match self {
            Mailbox::FilledReady(value) => Some(value),
            _ => None,
        }
    }

    /// The mailbox after `value` was deposited.
    pub open spec fn sent(self, value: T) -> Self {
        Mailbox::FilledReady(value)
    }

    /// The mailbox after a drain: a full slot is emptied and the flag stays
    /// up; an empty mailbox is left as it is.
    pub open spec fn received(self) -> Self {
        match self {
            Mailbox::FilledReady(_) => Mailbox::EmptyReady,
            other => other,
        }
    }

    /// The mailbox after one event.
    pub open spec fn step(self, event: Event<T>) -> Self {
        match event {
            Event::Deposit(value) => self.sent(value),
            Event::Drain => self.received(),
        }
    }

    /// What one event hands to a receiver.
    pub open spec fn handed(self, event: Event<T>) -> Option<T> {
        match event {
            Event::Deposit(_) => None,
            Event::Drain => self.slot(),
        }
    }

    /// The mailbox after the events of `trace`, first to last.
    pub open spec fn run(self, trace: Seq<Event<T>>) -> Self
        decreases trace.len(),
    {
        if trace.len() == 0 {
            self
        } else {
            self.run(trace.drop_last()).step(trace.last())
        }
    }

    /// The values that the events of `trace` hand to receivers, in order.
    pub open spec fn deliveries(self, trace: Seq<Event<T>>) -> Seq<T>
        decreases trace.len(),
    {
        if trace.len() == 0 {
            Seq::empty()
        } else {
            let before = self.deliveries(trace.drop_last());
            match self.run(trace.drop_last()).handed(trace.last()) {
                Some(value) => before.push(value),
                None => before,
            }
        }
    }

    /// A fresh mailbox: not ready, slot empty.
    pub fn new() -> (mailbox: Self)
        ensures
            mailbox == Mailbox::<T>::EmptyUnready,
    {
        Mailbox::EmptyUnready
    }

    /// Reads the readiness flag.
    pub fn is_ready(&self) -> (flag: bool)
        ensures
            flag == self.ready(),
    {
        match self {
            Mailbox::EmptyUnready => false,
            _ => true,
        }
    }

    /// Moves `value` into the slot and raises the flag.
    pub fn deposit(&mut self, value: T)
        ensures
            *final(self) == old(self).sent(value),
    {
        *self = Mailbox::FilledReady(value);
    }

    /// Moves the value out of the slot, if there is one. The flag is never
    /// lowered.
    pub fn drain(&mut self) -> (taken: Option<T>)
        ensures
            taken == old(self).slot(),
            *final(self) == old(self).received(),
    {
        if self.is_ready() {
            let mut state = Mailbox::EmptyReady;
            std::mem::swap(self, &mut state);
            match state {
                Mailbox::FilledReady(value) => Some(value),
                _ => None,
            }
        } else {
            None
        }
    }
}

/// How many deposits `trace` holds.
pub open spec fn deposits<T>(trace: Seq<Event<T>>) -> nat
    decreases trace.len(),
{
    if trace.len() == 0 {
        0
    } else if trace.last() is Deposit {
        deposits(trace.drop_last()) + 1
    } else {
        deposits(trace.drop_last())
    }
}

/// The value of the latest deposit in `trace`, if it holds one.
pub open spec fn deposited<T>(trace: Seq<Event<T>>) -> Option<T>
    decreases trace.len(),
{
    if trace.len() == 0 {
        None
    } else {
        match trace.last() {
            Event::Deposit(value) => Some(value),
            Event::Drain => deposited(trace.drop_last()),
        }
    }
}

} // verus!
