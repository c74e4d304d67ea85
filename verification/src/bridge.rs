//! The callback bridge: one native push-callback turned into an ordered,
//! cancellable sequence of items.
//!
//! One `StreamBridge` stands for one (tracker, stream kind) slot. The native
//! side registers a callback for the slot (`prepare_open` checks exclusivity,
//! the driver makes the native connect call, `complete_open` records the
//! handler); every native invocation of the callback becomes one `dispatch_*`
//! call; the consumer takes items with `poll_next` in exactly the order they
//! were dispatched. Closing the slot hands the driver the handler id to
//! disconnect, exactly once, however often closing is repeated.

use vstd::prelude::*;
use std::collections::VecDeque;
use crate::error::NuitrackError;

verus! {

/// One stream slot: the registration state of its native callback and the
/// items dispatched but not yet consumed, in dispatch order.
pub struct StreamBridge<T> {
    handler_id: Option<u64>,
    queue: VecDeque<Result<T, NuitrackError>>,
    consumer_attached: bool,
}

/// The pending items after dispatching `items` onto a slot whose pending
/// sequence was `p`: every item appended as a success, in order.
pub open spec fn enqueue_all<T>(
    p: Seq<Result<T, NuitrackError>>,
    items: Seq<T>,
) -> Seq<Result<T, NuitrackError>> {
    p + items.map_values(|v: T| Result::<T, NuitrackError>::Ok(v))
}

impl<T> StreamBridge<T> {
    /// Whether a native callback registration is live for this slot.
    pub closed spec fn is_open(&self) -> bool {
        self.handler_id is Some
    }

    /// The handler id of the live registration, if any.
    pub closed spec fn handler(&self) -> Option<u64> {
        self.handler_id
    }

    /// The items dispatched by the native side and not yet consumed, oldest
    /// first.
    pub closed spec fn pending(&self) -> Seq<Result<T, NuitrackError>> {
        self.queue@
    }

    /// Whether the consumer half is still alive. When it is not, dispatched
    /// items are discarded silently, as they are by a channel whose receiver
    /// was dropped.
    pub closed spec fn consumer_attached(&self) -> bool {
        self.consumer_attached
    }

    /// A fresh slot: no registration, nothing pending, no consumer.
    pub fn new() -> (r: StreamBridge<T>)
        ensures
            !r.is_open(),
            r.pending() =~= Seq::<Result<T, NuitrackError>>::empty(),
            !r.consumer_attached(),
    {
        StreamBridge { handler_id: None, queue: VecDeque::new(), consumer_attached: false }
    }

    /// The exclusivity check made before any native connect call: a slot with
    /// a live registration refuses a second one. Only when this returns `Ok`
    /// may the driver call the native connect function for this slot.
    pub fn prepare_open(&self) -> (r: Result<(), NuitrackError>)
        ensures
            r is Ok <==> !self.is_open(),
            r matches Err(e) ==> e is OperationFailed,
    {
        if self.handler_id.is_some() {
            Err(NuitrackError::OperationFailed("stream already initialized for this slot".to_owned()))
        } else {
            Ok(())
        }
    }

    /// Records a registration that the native connect call acknowledged with
    /// `handler_id`. The slot starts a fresh stream: empty, with a live
    /// consumer.
    pub fn complete_open(&mut self, handler_id: u64)
        requires
            !old(self).is_open(),
        ensures
            final(self).is_open(),
            final(self).handler() == Some(handler_id),
            final(self).pending() =~= Seq::<Result<T, NuitrackError>>::empty(),
            final(self).consumer_attached(),
    {
        self.handler_id = Some(handler_id);
        self.queue = VecDeque::new();
        self.consumer_attached = true;
    }

    /// One native callback invocation whose payload needed conversion:
    /// `Some` is the converted item, `None` a null or invalid native object,
    /// delivered to the consumer as an error item rather than dropped, so the
    /// consumer is informed instead of silently starved. With no live
    /// registration or no consumer, the item is discarded; that is the normal
    /// disconnection race during shutdown, not an error.
    pub fn dispatch_converted(&mut self, payload: Option<T>)
        ensures
            final(self).is_open() == old(self).is_open(),
            final(self).handler() == old(self).handler(),
            final(self).consumer_attached() == old(self).consumer_attached(),
            old(self).is_open() && old(self).consumer_attached() ==> {
                &&& final(self).pending().len() == old(self).pending().len() + 1
                &&& final(self).pending().drop_last() =~= old(self).pending()
                &&& match payload {
                    Option::Some(v) => final(self).pending().last() == Result::<
                        T,
                        NuitrackError,
                    >::Ok(v),
                    Option::None => final(self).pending().last() matches Err(e) && e matches
                        NuitrackError::OperationFailed(m) && m@
                        == "native payload was null or invalid"@,
                }
            },
            !(old(self).is_open() && old(self).consumer_attached()) ==> final(self).pending()
                =~= old(self).pending(),
    {
        if self.handler_id.is_some() && self.consumer_attached {
            match payload {
                Option::Some(v) => self.queue.push_back(Ok(v)),
                Option::None => self.queue.push_back(
                    Err(
                        NuitrackError::OperationFailed(
                            "native payload was null or invalid".to_owned(),
                        ),
                    ),
                ),
            }
        }
    }

    /// One native callback invocation carrying a direct scalar payload that
    /// needs no conversion; otherwise exactly `dispatch_converted` with a
    /// present payload.
    pub fn dispatch_item(&mut self, item: T)
        ensures
            final(self).is_open() == old(self).is_open(),
            final(self).handler() == old(self).handler(),
            final(self).consumer_attached() == old(self).consumer_attached(),
            old(self).is_open() && old(self).consumer_attached() ==> final(self).pending()
                =~= old(self).pending().push(Result::<T, NuitrackError>::Ok(item)),
            !(old(self).is_open() && old(self).consumer_attached()) ==> final(self).pending()
                =~= old(self).pending(),
    {
        if self.handler_id.is_some() && self.consumer_attached {
            self.queue.push_back(Ok(item));
        }
    }

    /// Dispatches a whole numbered run of direct items, in order.
    pub fn dispatch_run(&mut self, items: Vec<T>)
        ensures
            final(self).is_open() == old(self).is_open(),
            final(self).handler() == old(self).handler(),
            final(self).consumer_attached() == old(self).consumer_attached(),
            old(self).is_open() && old(self).consumer_attached() ==> final(self).pending()
                =~= enqueue_all(old(self).pending(), items@),
            !(old(self).is_open() && old(self).consumer_attached()) ==> final(self).pending()
                =~= old(self).pending(),
    {
        let open_and_attached = self.handler_id.is_some() && self.consumer_attached;
        let mut items = items;
        let ghost all = items@;
        while items.len() > 0
            invariant
                open_and_attached == (self.is_open() && self.consumer_attached()),
                self.is_open() == old(self).is_open(),
                self.handler() == old(self).handler(),
                self.consumer_attached() == old(self).consumer_attached(),
                items@.len() <= all.len(),
                items@ =~= all.skip(all.len() - items@.len()),
                open_and_attached ==> self.pending() =~= enqueue_all(
                    old(self).pending(),
                    all.take(all.len() - items@.len()),
                ),
                !open_and_attached ==> self.pending() =~= old(self).pending(),
            decreases items@.len(),
        {
            let ghost done = all.len() - items@.len();
            let item = items.remove(0);
            proof {
                assert(all.skip(done).drop_first() =~= all.skip(done + 1));
                assert(item == all[done]);
                assert(all.take(done).push(item) =~= all.take(done + 1));
            }
            self.dispatch_item(item);
            proof {
                if open_and_attached {
                    assert(enqueue_all(old(self).pending(), all.take(done)).push(
                        Result::<T, NuitrackError>::Ok(item),
                    ) =~= enqueue_all(old(self).pending(), all.take(done + 1)));
                }
            }
        }
        proof {
            assert(all.take(all.len() as int) =~= all);
        }
    }

    /// Takes the oldest pending item, if any. `None` with a live registration
    /// means "nothing yet"; `None` on a closed slot with nothing pending
    /// means the stream has ended.
    pub fn poll_next(&mut self) -> (r: Option<Result<T, NuitrackError>>)
        ensures
            final(self).is_open() == old(self).is_open(),
            final(self).handler() == old(self).handler(),
            final(self).consumer_attached() == old(self).consumer_attached(),
            old(self).pending().len() > 0 ==> {
                &&& r == Some(old(self).pending()[0])
                &&& final(self).pending() =~= old(self).pending().drop_first()
            },
            old(self).pending().len() == 0 ==> r is None && final(self).pending() =~= old(
                self,
            ).pending(),
    {
        self.queue.pop_front()
    }

    /// Takes every pending item, oldest first.
    pub fn drain(&mut self) -> (r: Vec<Result<T, NuitrackError>>)
        ensures
            final(self).is_open() == old(self).is_open(),
            final(self).handler() == old(self).handler(),
            final(self).consumer_attached() == old(self).consumer_attached(),
            r@ =~= old(self).pending(),
            final(self).pending() =~= Seq::<Result<T, NuitrackError>>::empty(),
    {
        let mut out: Vec<Result<T, NuitrackError>> = Vec::new();
        loop
            invariant
                self.is_open() == old(self).is_open(),
                self.handler() == old(self).handler(),
                self.consumer_attached() == old(self).consumer_attached(),
                out@ + self.pending() =~= old(self).pending(),
            decreases self.pending().len(),
        {
            match self.queue.pop_front() {
                Option::Some(item) => {
                    out.push(item);
                },
                Option::None => {
                    proof {
                        assert(out@ =~= out@ + self.pending());
                    }
                    return out;
                },
            }
        }
    }

    /// The consumer half was dropped: pending items are discarded and later
    /// dispatches are silently ignored, as with a closed channel receiver.
    pub fn drop_consumer(&mut self)
        ensures
            final(self).is_open() == old(self).is_open(),
            final(self).handler() == old(self).handler(),
            !final(self).consumer_attached(),
            final(self).pending() =~= Seq::<Result<T, NuitrackError>>::empty(),
    {
        self.consumer_attached = false;
        self.queue.clear();
    }

    /// Ends the registration and returns the handler id the driver must pass
    /// to the native disconnect call — present exactly when a registration
    /// was live, so repeating the call never asks for a second disconnect.
    /// Items already dispatched stay pending for the consumer to drain.
    pub fn close_stream(&mut self) -> (r: Option<u64>)
        ensures
            r == old(self).handler(),
            !final(self).is_open(),
            final(self).pending() =~= old(self).pending(),
            final(self).consumer_attached() == old(self).consumer_attached(),
    {
        self.handler_id.take()
    }
}

/// Order preservation: a run of items dispatched onto an open, empty slot is
/// pending in exactly the dispatched order, each item once, none lost, none
/// reordered, and each a success. Together with the contract of `drain` (it
/// returns the pending sequence) and of `poll_next` (it takes the head), the
/// consumer observes exactly the dispatched sequence.
pub proof fn lemma_order_preservation<T>(items: Seq<T>)
    ensures
        enqueue_all(Seq::<Result<T, NuitrackError>>::empty(), items).len() == items.len(),
        forall|i: int|
            0 <= i < items.len() ==> enqueue_all(Seq::<Result<T, NuitrackError>>::empty(), items)[i]
                == Result::<T, NuitrackError>::Ok(items[i]),
{
}

} // verus!
