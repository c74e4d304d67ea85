//! The generic tracker: one native module instance together with the stream
//! slots its modality declares.
//!
//! The per-modality trackers of the wrapper all repeat one pattern; this type
//! is that pattern once, driven by the number of declared stream kinds
//! instead of generated per modality. Slot `0` is the modality's first
//! declared stream kind, slot `1` the second, and so on.

use vstd::prelude::*;
use crate::bridge::StreamBridge;
use crate::config::ModuleHandle;
use crate::error::NuitrackError;

verus! {

/// A native module instance plus one `StreamBridge` per declared stream kind.
pub struct Tracker<T> {
    module: ModuleHandle,
    streams: Vec<StreamBridge<T>>,
}

/// The handler ids of the open slots of `slots`, in slot order: what one
/// teardown must disconnect, each exactly once.
pub open spec fn open_handlers<T>(slots: Seq<StreamBridge<T>>) -> Seq<u64>
    decreases slots.len(),
{
    if slots.len() == 0 {
        Seq::empty()
    } else {
        open_handlers(slots.drop_last()) + match slots.last().handler() {
            Option::Some(id) => seq![id],
            Option::None => Seq::empty(),
        }
    }
}

impl<T> Tracker<T> {
    /// The native module this tracker owns.
    pub closed spec fn module(&self) -> ModuleHandle {
        self.module
    }

    /// The stream slots, in declaration order.
    pub closed spec fn slots(&self) -> Seq<StreamBridge<T>> {
        self.streams@
    }

    /// A tracker for a freshly created native module with `stream_count`
    /// declared stream kinds, none of them open.
    pub fn new(module: ModuleHandle, stream_count: usize) -> (r: Tracker<T>)
        ensures
            r.module() == module,
            r.slots().len() == stream_count,
            forall|i: int|
                0 <= i < stream_count ==> !(#[trigger] r.slots()[i]).is_open() && r.slots()[i].pending()
                    =~= Seq::<Result<T, NuitrackError>>::empty(),
    {
        let mut streams: Vec<StreamBridge<T>> = Vec::new();
        let mut i: usize = 0;
        while i < stream_count
            invariant
                i <= stream_count,
                streams@.len() == i,
                forall|k: int|
                    0 <= k < i ==> !(#[trigger] streams@[k]).is_open() && streams@[k].pending()
                        =~= Seq::<Result<T, NuitrackError>>::empty(),
            decreases stream_count - i,
        {
            streams.push(StreamBridge::new());
            i += 1;
        }
        Tracker { module, streams }
    }

    /// A copy of the module handle, for the driver's native calls.
    pub fn module_handle(&self) -> (r: ModuleHandle)
        ensures
            r == self.module(),
    {
        self.module
    }

    /// How many stream kinds this tracker declares.
    pub fn stream_count(&self) -> (r: usize)
        ensures
            r == self.slots().len(),
    {
        self.streams.len()
    }

    /// The exclusivity check of one slot, made before any native connect
    /// call; see `StreamBridge::prepare_open`.
    pub fn prepare_open(&self, slot: usize) -> (r: Result<(), NuitrackError>)
        requires
            slot < self.slots().len(),
        ensures
            r is Ok <==> !self.slots()[slot as int].is_open(),
            r matches Err(e) ==> e is OperationFailed,
    {
        self.streams[slot].prepare_open()
    }

    /// Records the acknowledged registration of one slot; see
    /// `StreamBridge::complete_open`.
    pub fn complete_open(&mut self, slot: usize, handler_id: u64)
        requires
            slot < old(self).slots().len(),
            !old(self).slots()[slot as int].is_open(),
        ensures
            final(self).module() == old(self).module(),
            final(self).slots().len() == old(self).slots().len(),
            forall|j: int|
                0 <= j < old(self).slots().len() && j != slot ==> final(self).slots()[j] == old(
                    self,
                ).slots()[j],
            final(self).slots()[slot as int].is_open(),
            final(self).slots()[slot as int].handler() == Some(handler_id),
            final(self).slots()[slot as int].pending() =~= Seq::<
                Result<T, NuitrackError>,
            >::empty(),
            final(self).slots()[slot as int].consumer_attached(),
    {
        let mut bridge = self.streams.remove(slot);
        bridge.complete_open(handler_id);
        self.streams.insert(slot, bridge);
    }

    /// One native callback invocation for one slot, with a payload whose
    /// conversion may have failed; see `StreamBridge::dispatch_converted`.
    pub fn dispatch_converted(&mut self, slot: usize, payload: Option<T>)
        requires
            slot < old(self).slots().len(),
        ensures
            final(self).module() == old(self).module(),
            final(self).slots().len() == old(self).slots().len(),
            forall|j: int|
                0 <= j < old(self).slots().len() && j != slot ==> final(self).slots()[j] == old(
                    self,
                ).slots()[j],
            final(self).slots()[slot as int].is_open() == old(self).slots()[slot as int].is_open(),
            final(self).slots()[slot as int].handler() == old(self).slots()[slot as int].handler(),
            final(self).slots()[slot as int].consumer_attached() == old(self).slots()[
                slot as int
            ].consumer_attached(),
            old(self).slots()[slot as int].is_open() && old(self).slots()[
                slot as int
            ].consumer_attached() ==> {
                &&& final(self).slots()[slot as int].pending().len() == old(self).slots()[
                    slot as int
                ].pending().len() + 1
                &&& final(self).slots()[slot as int].pending().drop_last() =~= old(self).slots()[
                    slot as int
                ].pending()
                &&& match payload {
                    Option::Some(v) => final(self).slots()[slot as int].pending().last()
                        == Result::<T, NuitrackError>::Ok(v),
                    Option::None => final(self).slots()[slot as int].pending().last() matches Err(e)
                        && e is OperationFailed,
                }
            },
            !(old(self).slots()[slot as int].is_open() && old(self).slots()[
                slot as int
            ].consumer_attached()) ==> final(self).slots()[slot as int].pending() =~= old(
                self,
            ).slots()[slot as int].pending(),
    {
        let mut bridge = self.streams.remove(slot);
        bridge.dispatch_converted(payload);
        self.streams.insert(slot, bridge);
    }

    /// One native callback invocation for one slot carrying a direct item;
    /// see `StreamBridge::dispatch_item`.
    pub fn dispatch_item(&mut self, slot: usize, item: T)
        requires
            slot < old(self).slots().len(),
        ensures
            final(self).module() == old(self).module(),
            final(self).slots().len() == old(self).slots().len(),
            forall|j: int|
                0 <= j < old(self).slots().len() && j != slot ==> final(self).slots()[j] == old(
                    self,
                ).slots()[j],
            final(self).slots()[slot as int].is_open() == old(self).slots()[slot as int].is_open(),
            final(self).slots()[slot as int].handler() == old(self).slots()[slot as int].handler(),
            final(self).slots()[slot as int].consumer_attached() == old(self).slots()[
                slot as int
            ].consumer_attached(),
            old(self).slots()[slot as int].is_open() && old(self).slots()[
                slot as int
            ].consumer_attached() ==> final(self).slots()[slot as int].pending() =~= old(
                self,
            ).slots()[slot as int].pending().push(Result::<T, NuitrackError>::Ok(item)),
            !(old(self).slots()[slot as int].is_open() && old(self).slots()[
                slot as int
            ].consumer_attached()) ==> final(self).slots()[slot as int].pending() =~= old(
                self,
            ).slots()[slot as int].pending(),
    {
        let mut bridge = self.streams.remove(slot);
        bridge.dispatch_item(item);
        self.streams.insert(slot, bridge);
    }

    /// Takes the oldest pending item of one slot; see
    /// `StreamBridge::poll_next`.
    pub fn poll_next(&mut self, slot: usize) -> (r: Option<Result<T, NuitrackError>>)
        requires
            slot < old(self).slots().len(),
        ensures
            final(self).module() == old(self).module(),
            final(self).slots().len() == old(self).slots().len(),
            forall|j: int|
                0 <= j < old(self).slots().len() && j != slot ==> final(self).slots()[j] == old(
                    self,
                ).slots()[j],
            final(self).slots()[slot as int].is_open() == old(self).slots()[slot as int].is_open(),
            final(self).slots()[slot as int].handler() == old(self).slots()[slot as int].handler(),
            final(self).slots()[slot as int].consumer_attached() == old(self).slots()[
                slot as int
            ].consumer_attached(),
            old(self).slots()[slot as int].pending().len() > 0 ==> {
                &&& r == Some(old(self).slots()[slot as int].pending()[0])
                &&& final(self).slots()[slot as int].pending() =~= old(self).slots()[
                    slot as int
                ].pending().drop_first()
            },
            old(self).slots()[slot as int].pending().len() == 0 ==> r is None
                && final(self).slots()[slot as int].pending() =~= old(self).slots()[
                slot as int
            ].pending(),
    {
        let mut bridge = self.streams.remove(slot);
        let r = bridge.poll_next();
        self.streams.insert(slot, bridge);
        r
    }

    /// Ends one slot's registration and returns the handler id to
    /// disconnect, present exactly when the slot was open; see
    /// `StreamBridge::close_stream`.
    pub fn close_stream(&mut self, slot: usize) -> (r: Option<u64>)
        requires
            slot < old(self).slots().len(),
        ensures
            final(self).module() == old(self).module(),
            final(self).slots().len() == old(self).slots().len(),
            forall|j: int|
                0 <= j < old(self).slots().len() && j != slot ==> final(self).slots()[j] == old(
                    self,
                ).slots()[j],
            r == old(self).slots()[slot as int].handler(),
            !final(self).slots()[slot as int].is_open(),
            final(self).slots()[slot as int].pending() =~= old(self).slots()[
                slot as int
            ].pending(),
    {
        let mut bridge = self.streams.remove(slot);
        let r = bridge.close_stream();
        self.streams.insert(slot, bridge);
        r
    }

    /// Teardown, as a drop of the tracker performs it: every open slot is
    /// closed and its handler id returned, in slot order, each exactly once.
    /// The driver makes one native disconnect call per returned id, so
    /// connect and disconnect calls balance.
    pub fn close_all(&mut self) -> (r: Vec<u64>)
        ensures
            final(self).module() == old(self).module(),
            final(self).slots().len() == old(self).slots().len(),
            r@ =~= open_handlers(old(self).slots()),
            forall|j: int|
                0 <= j < old(self).slots().len() ==> !(#[trigger] final(self).slots()[j]).is_open(),
    {
        let mut out: Vec<u64> = Vec::new();
        let mut i: usize = 0;
        while i < self.streams.len()
            invariant
                self.module() == old(self).module(),
                self.slots().len() == old(self).slots().len(),
                i <= self.slots().len(),
                forall|j: int|
                    i <= j < old(self).slots().len() ==> #[trigger] self.slots()[j] == old(
                        self,
                    ).slots()[j],
                forall|j: int| 0 <= j < i ==> !(#[trigger] self.slots()[j]).is_open(),
                out@ =~= open_handlers(old(self).slots().take(i as int)),
            decreases self.slots().len() - i,
        {
            let maybe_id = self.close_stream(i);
            proof {
                let prefix = old(self).slots().take(i as int);
                let next = old(self).slots().take(i + 1);
                assert(next.drop_last() =~= prefix);
                assert(next.last() == old(self).slots()[i as int]);
            }
            match maybe_id {
                Option::Some(id) => {
                    out.push(id);
                },
                Option::None => {},
            }
            i += 1;
        }
        proof {
            assert(old(self).slots().take(old(self).slots().len() as int) =~= old(self).slots());
        }
        out
    }
}

} // verus!
