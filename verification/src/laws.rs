//! What holds of every history of a mailbox.
//!
//! A history is a trace of events that starts at the fresh mailbox. The sender
//! cannot be duplicated and sending uses it up, so a history of a channel
//! holds at most one deposit; receivers can be duplicated, so it may hold any
//! number of drains, before the deposit and after it.

use crate::mailbox::deposited;
use crate::mailbox::deposits;
use crate::mailbox::Event;
use crate::mailbox::Mailbox;
use vstd::prelude::*;

verus! {

/// The mailbox that every channel starts with.
pub open spec fn fresh<T>() -> Mailbox<T> {
    Mailbox::EmptyUnready
}

/// What teardown destroys: the value that is still in the slot, if any.
pub open spec fn torn_down<T>(mailbox: Mailbox<T>) -> Seq<T> {
    match mailbox.slot() {
        Some(value) => seq![value],
        None => Seq::empty(),
    }
}

/// Where a history can lead. With no deposit the mailbox is still fresh and
/// nothing was delivered. With one deposit, of `v`, either `v` waits in the
/// slot and nothing was delivered, or the slot is empty again and `v` is all
/// that was delivered.
pub proof fn lemma_reachable<T>(trace: Seq<Event<T>>)
    requires
        deposits(trace) <= 1,
    ensures
        deposits(trace) == 0 ==> {
            &&& deposited(trace) is None
            &&& fresh::<T>().run(trace) == Mailbox::<T>::EmptyUnready
            &&& fresh::<T>().deliveries(trace) == Seq::<T>::empty()
        },
        deposits(trace) == 1 ==> {
            &&& deposited(trace) matches Some(v)
            &&& {
                ||| {
                    &&& fresh::<T>().run(trace) == Mailbox::FilledReady(v)
                    &&& fresh::<T>().deliveries(trace) == Seq::<T>::empty()
                }
                ||| {
                    &&& fresh::<T>().run(trace) == Mailbox::<T>::EmptyReady
                    &&& fresh::<T>().deliveries(trace) == seq![v]
                }
            }
        },
    decreases trace.len(),
{
    if trace.len() > 0 {
        let before = trace.drop_last();
        lemma_reachable(before);
        if deposits(trace) == 1 && !(trace.last() is Deposit) {
            let v = deposited(before)->0;
            if fresh::<T>().run(before) == Mailbox::FilledReady(v) {
                assert(Seq::<T>::empty().push(v) == seq![v]);
            }
        }
    }
}

/// One-shot delivery: whatever a receiver is handed is the value that was
/// deposited, and no second value is ever handed out.
pub proof fn lemma_delivers_what_was_sent<T>(trace: Seq<Event<T>>, i: int)
    requires
        deposits(trace) <= 1,
        0 <= i < fresh::<T>().deliveries(trace).len(),
    ensures
        fresh::<T>().deliveries(trace).len() == 1,
        deposited(trace) == Some(fresh::<T>().deliveries(trace)[i]),
{
    lemma_reachable(trace);
}

/// A deposit followed at once by a drain hands over the deposited value,
/// whatever the mailbox held before.
pub proof fn lemma_deposit_then_drain<T>(mailbox: Mailbox<T>, value: T)
    ensures
        mailbox.sent(value).slot() == Some(value),
        mailbox.sent(value).received() == Mailbox::<T>::EmptyReady,
{
}

/// Nothing is delivered before the deposit: a history without a deposit
/// hands no value to any receiver, however often they try.
pub proof fn lemma_nothing_before_deposit<T>(trace: Seq<Event<T>>)
    requires
        deposits(trace) == 0,
    ensures
        fresh::<T>().deliveries(trace).len() == 0,
{
    lemma_reachable(trace);
}

/// The readiness flag is raised by the deposit and by nothing else, and it
/// is never lowered.
pub proof fn lemma_ready_is_monotone<T>(mailbox: Mailbox<T>, event: Event<T>)
    ensures
        mailbox.ready() ==> mailbox.step(event).ready(),
        !mailbox.ready() && mailbox.step(event).ready() ==> event is Deposit,
        mailbox.slot() is Some ==> mailbox.ready(),
{
}

/// A deposited value leaves the mailbox exactly once: it is either delivered
/// to a receiver or destroyed at teardown, never both and never neither.
pub proof fn lemma_value_leaves_once<T>(trace: Seq<Event<T>>)
    requires
        deposits(trace) == 1,
    ensures
        deposited(trace) matches Some(v) && fresh::<T>().deliveries(trace) + torn_down(
            fresh::<T>().run(trace),
        ) == seq![v],
{
    lemma_reachable(trace);
    let v = deposited(trace)->0;
    assert(Seq::<T>::empty() + seq![v] == seq![v]);
    assert(seq![v] + Seq::<T>::empty() == seq![v]);
}

/// Without a deposit the slot is never filled, so teardown finds nothing to
/// destroy.
pub proof fn lemma_unsent_stays_empty<T>(trace: Seq<Event<T>>)
    requires
        deposits(trace) == 0,
    ensures
        fresh::<T>().run(trace) == Mailbox::<T>::EmptyUnready,
        torn_down(fresh::<T>().run(trace)) == Seq::<T>::empty(),
{
    lemma_reachable(trace);
}

/// A value that was deposited and never delivered is still in the slot when
/// the mailbox is torn down, and is destroyed there, once.
pub proof fn lemma_undelivered_is_torn_down<T>(trace: Seq<Event<T>>)
    requires
        deposits(trace) == 1,
        fresh::<T>().deliveries(trace).len() == 0,
    ensures
        deposited(trace) matches Some(v) && torn_down(fresh::<T>().run(trace)) == seq![v],
{
    lemma_reachable(trace);
}

} // verus!
