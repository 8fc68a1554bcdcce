//! The listener registry: every inbound message is handed to every consumer
//! that is registered at the time.
//!
//! A consumer registers and gets a handle. The registry keeps one inbox per
//! handle, appends each published message to all of them, and hands the
//! messages of an inbox out again one at a time, oldest first. A consumer that
//! is done deregisters, which drops its inbox.

use crate::message::{message_views, TxtMessage, TxtMessageView};
use std::collections::VecDeque;
use vstd::prelude::*;

verus! {

/// What a [`ListenerRegistry`] is, as mathematical values.
pub struct RegistryView {
    /// For each registered handle, the messages published to it and not yet
    /// received, oldest first.
    pub inboxes: Map<u64, Seq<TxtMessageView>>,
    /// How many handles have been given out so far.
    pub issued: nat,
}

impl RegistryView {
    /// Handles are given out in increasing order, so every registered handle
    /// lies below the count of handles given out.
    pub open spec fn wf(self) -> bool {
        forall|handle: u64| #[trigger] self.inboxes.dom().contains(handle) ==> handle < self.issued
    }
}

/// The inboxes after `message` is published: every inbox gets it at the end.
pub open spec fn published(
    inboxes: Map<u64, Seq<TxtMessageView>>,
    message: TxtMessageView,
) -> Map<u64, Seq<TxtMessageView>> {
    inboxes.map_values(|pending: Seq<TxtMessageView>| pending.push(message))
}

/// The inboxes after `messages` are published one after the other.
pub open spec fn published_all(
    inboxes: Map<u64, Seq<TxtMessageView>>,
    messages: Seq<TxtMessageView>,
) -> Map<u64, Seq<TxtMessageView>>
    decreases messages.len(),
{
    if messages.len() == 0 {
        inboxes
    } else {
        published(published_all(inboxes, messages.drop_last()), messages.last())
    }
}

/// Every consumer that is registered while a run of messages is published
/// gets all of them, in the order of publication, behind what it already had
/// to read. Nobody is added or dropped on the way.
pub proof fn lemma_published_in_order(
    inboxes: Map<u64, Seq<TxtMessageView>>,
    messages: Seq<TxtMessageView>,
)
    ensures
        published_all(inboxes, messages).dom() == inboxes.dom(),
        forall|handle: u64| #[trigger]
            inboxes.dom().contains(handle) ==> published_all(inboxes, messages)[handle]
                == inboxes[handle] + messages,
    decreases messages.len(),
{
    if messages.len() == 0 {
        assert forall|handle: u64| #[trigger] inboxes.dom().contains(handle) implies inboxes[handle]
            + messages == inboxes[handle] by {
            assert(inboxes[handle] + messages =~= inboxes[handle]);
        }
    } else {
        let front = messages.drop_last();
        lemma_published_in_order(inboxes, front);
        let earlier = published_all(inboxes, front);
        assert(published_all(inboxes, messages).dom() =~= inboxes.dom());
        assert forall|handle: u64| #[trigger] inboxes.dom().contains(handle) implies published_all(
            inboxes,
            messages,
        )[handle] == inboxes[handle] + messages by {
            assert(earlier.dom().contains(handle));
            assert((inboxes[handle] + front).push(messages.last()) =~= inboxes[handle] + messages);
        }
    }
}

struct Listener {
    handle: u64,
    inbox: VecDeque<TxtMessage>,
}

spec fn has_handle(listeners: Seq<Listener>, handle: u64) -> bool {
    exists|i: int| 0 <= i < listeners.len() && (#[trigger] listeners[i]).handle == handle
}

spec fn slot_of(listeners: Seq<Listener>, handle: u64) -> int {
    choose|i: int| 0 <= i < listeners.len() && (#[trigger] listeners[i]).handle == handle
}

spec fn handles_distinct(listeners: Seq<Listener>) -> bool {
    forall|i: int, j: int|
        0 <= i < j < listeners.len() ==> (#[trigger] listeners[i]).handle != (
        #[trigger] listeners[j]).handle
}

spec fn handles_below(listeners: Seq<Listener>, issued: u64) -> bool {
    forall|i: int| 0 <= i < listeners.len() ==> (#[trigger] listeners[i]).handle < issued
}

spec fn inboxes_of(listeners: Seq<Listener>) -> Map<u64, Seq<TxtMessageView>> {
    Map::new(
        |handle: u64| has_handle(listeners, handle),
        |handle: u64| message_views(listeners[slot_of(listeners, handle)].inbox@),
    )
}

proof fn lemma_slot(listeners: Seq<Listener>, i: int)
    requires
        handles_distinct(listeners),
        0 <= i < listeners.len(),
    ensures
        has_handle(listeners, listeners[i].handle),
        slot_of(listeners, listeners[i].handle) == i,
        inboxes_of(listeners)[listeners[i].handle] == message_views(listeners[i].inbox@),
{
    let handle = listeners[i].handle;
    let slot = slot_of(listeners, handle);
    assert(0 <= slot < listeners.len() && listeners[slot].handle == handle);
    if slot < i {
        assert(listeners[slot].handle != listeners[i].handle);
    } else if i < slot {
        assert(listeners[i].handle != listeners[slot].handle);
    }
}

proof fn lemma_count(listeners: Seq<Listener>)
    requires
        handles_distinct(listeners),
    ensures
        inboxes_of(listeners).dom().finite(),
        inboxes_of(listeners).dom().len() == listeners.len(),
    decreases listeners.len(),
{
    let handles = inboxes_of(listeners).dom();
    if listeners.len() == 0 {
        assert(handles =~= Set::<u64>::empty());
    } else {
        let front = listeners.drop_last();
        let last = listeners.last();
        assert forall|i: int| 0 <= i < front.len() implies #[trigger] front[i] == listeners[i] by {}
        lemma_count(front);
        assert(!has_handle(front, last.handle)) by {
            if has_handle(front, last.handle) {
                let k = slot_of(front, last.handle);
                assert(listeners[k].handle == last.handle);
            }
        }
        assert forall|handle: u64| has_handle(listeners, handle) == (handle == last.handle
            || has_handle(front, handle)) by {
            if has_handle(listeners, handle) {
                let k = slot_of(listeners, handle);
                if k < front.len() {
                    assert(front[k].handle == handle);
                }
            }
            if has_handle(front, handle) {
                let k = slot_of(front, handle);
                assert(listeners[k].handle == handle);
            }
            if handle == last.handle {
                assert(listeners[listeners.len() - 1].handle == handle);
            }
        }
        assert(handles =~= inboxes_of(front).dom().insert(last.handle));
    }
}

/// Where in `listeners` the consumer with the handle `handle` stands.
fn position(listeners: &Vec<Listener>, handle: u64) -> (found: Option<usize>)
    ensures
        match found {
            Some(i) => i < listeners@.len() && listeners@[i as int].handle == handle,
            None => !has_handle(listeners@, handle),
        },
{
    let mut i: usize = 0;
    while i < listeners.len()
        invariant
            i <= listeners@.len(),
            forall|j: int| 0 <= j < i ==> (#[trigger] listeners@[j]).handle != handle,
        decreases listeners@.len() - i,
    {
        if listeners[i].handle == handle {
            return Some(i);
        }
        i += 1;
    }
    None
}

/// The consumers of the inbound stream and what each of them has yet to read.
pub struct ListenerRegistry {
    listeners: Vec<Listener>,
    issued: u64,
}

impl View for ListenerRegistry {
    type V = RegistryView;

    closed spec fn view(&self) -> RegistryView {
        RegistryView { inboxes: inboxes_of(self.listeners@), issued: self.issued as nat }
    }
}

impl ListenerRegistry {
    #[verifier::type_invariant]
    spec fn well_formed(self) -> bool {
        &&& handles_distinct(self.listeners@)
        &&& handles_below(self.listeners@, self.issued)
    }

    /// A registry without consumers.
    pub fn new() -> (registry: ListenerRegistry)
        ensures
            registry@.inboxes == Map::<u64, Seq<TxtMessageView>>::empty(),
            registry@.issued == 0,
    {
        let registry = ListenerRegistry { listeners: Vec::new(), issued: 0 };
        assert(registry@.inboxes =~= Map::<u64, Seq<TxtMessageView>>::empty());
        registry
    }

    /// How many handles have been given out so far. Every registry is well
    /// formed.
    pub fn issued(&self) -> (issued: u64)
        ensures
            issued == self@.issued,
            self@.wf(),
    {
        proof {
            use_type_invariant(self);
            assert forall|handle: u64| #[trigger]
                self@.inboxes.dom().contains(handle) implies handle < self@.issued by {
                let k = slot_of(self.listeners@, handle);
                assert(self.listeners@[k].handle == handle);
            }
        }
        self.issued
    }

    /// Registers a new consumer and returns its handle. The new inbox is empty:
    /// the consumer sees what is published from now on. Handles are never
    /// given out twice; once all of them are used up nothing is registered.
    pub fn register(&mut self) -> (handle: Option<u64>)
        ensures
            match handle {
                Some(handle) => {
                    &&& old(self)@.issued < u64::MAX
                    &&& handle == old(self)@.issued
                    &&& !old(self)@.inboxes.dom().contains(handle)
                    &&& final(self)@.issued == old(self)@.issued + 1
                    &&& final(self)@.inboxes == old(self)@.inboxes.insert(handle, Seq::empty())
                },
                None => old(self)@.issued == u64::MAX && final(self)@ == old(self)@,
            },
    {
        proof {
            use_type_invariant(&*self);
        }
        if self.issued == u64::MAX {
            return None;
        }
        let handle = self.issued;
        let ghost before = self.listeners@;
        let mut listeners: Vec<Listener> = Vec::new();
        std::mem::swap(&mut self.listeners, &mut listeners);
        listeners.push(Listener { handle, inbox: VecDeque::new() });
        self.issued = handle + 1;
        std::mem::swap(&mut self.listeners, &mut listeners);
        proof {
            let after = self.listeners@;
            let last = before.len() as int;
            assert(after[last].handle == handle);
            assert(!has_handle(before, handle)) by {
                if has_handle(before, handle) {
                    let k = slot_of(before, handle);
                    assert(before[k].handle < handle);
                }
            }
            assert forall|other: u64| has_handle(after, other) == (other == handle || has_handle(
                before,
                other,
            )) by {
                if has_handle(after, other) {
                    let k = slot_of(after, other);
                    if k < last {
                        assert(before[k].handle == other);
                    }
                }
                if has_handle(before, other) {
                    let k = slot_of(before, other);
                    assert(after[k].handle == other);
                }
            }
            assert forall|other: u64| has_handle(before, other) implies inboxes_of(after)[other]
                == inboxes_of(before)[other] by {
                let k = slot_of(before, other);
                lemma_slot(before, k);
                assert(after[k] == before[k]);
                lemma_slot(after, k);
            }
            lemma_slot(after, last);
            assert(message_views(after[last].inbox@) =~= Seq::<TxtMessageView>::empty());
            assert(inboxes_of(after) =~= inboxes_of(before).insert(handle, Seq::empty()));
        }
        Some(handle)
    }

    /// Whether `handle` belongs to a registered consumer.
    pub fn is_registered(&self, handle: u64) -> (registered: bool)
        ensures
            registered == self@.inboxes.dom().contains(handle),
    {
        position(&self.listeners, handle).is_some()
    }

    /// How many consumers are registered.
    pub fn listener_count(&self) -> (count: usize)
        ensures
            count == self@.inboxes.dom().len(),
            self@.inboxes.dom().finite(),
    {
        proof {
            use_type_invariant(self);
            lemma_count(self.listeners@);
        }
        self.listeners.len()
    }

    /// How many messages wait in the inbox of `handle`, if it is registered.
    pub fn pending(&self, handle: u64) -> (waiting: Option<usize>)
        ensures
            match waiting {
                Some(n) => self@.inboxes.dom().contains(handle) && n == self@.inboxes[handle].len(),
                None => !self@.inboxes.dom().contains(handle),
            },
    {
        proof {
            use_type_invariant(self);
        }
        match position(&self.listeners, handle) {
            Some(i) => {
                proof {
                    lemma_slot(self.listeners@, i as int);
                }
                Some(self.listeners[i].inbox.len())
            },
            None => None,
        }
    }

    /// Removes the consumer with the handle `handle` together with whatever
    /// it has not read. Says whether there was such a consumer.
    pub fn deregister(&mut self, handle: u64) -> (removed: bool)
        ensures
            removed == old(self)@.inboxes.dom().contains(handle),
            final(self)@.inboxes == old(self)@.inboxes.remove(handle),
            final(self)@.issued == old(self)@.issued,
    {
        proof {
            use_type_invariant(&*self);
        }
        let ghost before = self.listeners@;
        match position(&self.listeners, handle) {
            Some(i) => {
                let mut listeners: Vec<Listener> = Vec::new();
                std::mem::swap(&mut self.listeners, &mut listeners);
                listeners.remove(i);
                std::mem::swap(&mut self.listeners, &mut listeners);
                proof {
                    let after = self.listeners@;
                    let gone = i as int;
                    assert forall|k: int| 0 <= k < after.len() implies #[trigger] after[k] == before[if k
                        < gone {
                        k
                    } else {
                        k + 1
                    }] by {}
                    assert forall|other: u64| has_handle(after, other) == (other != handle
                        && has_handle(before, other)) by {
                        if has_handle(after, other) {
                            let k = slot_of(after, other);
                            let origin = if k < gone {
                                k
                            } else {
                                k + 1
                            };
                            assert(before[origin].handle == other);
                            if other == handle {
                                lemma_slot(before, origin);
                                lemma_slot(before, gone);
                            }
                        }
                        if other != handle && has_handle(before, other) {
                            let k = slot_of(before, other);
                            let target = if k < gone {
                                k
                            } else {
                                k - 1
                            };
                            assert(after[target].handle == other);
                        }
                    }
                    assert forall|other: u64| has_handle(after, other) implies inboxes_of(
                        after,
                    )[other] == inboxes_of(before)[other] by {
                        let k = slot_of(after, other);
                        let origin = if k < gone {
                            k
                        } else {
                            k + 1
                        };
                        assert(after[k] == before[origin]);
                        lemma_slot(after, k);
                        lemma_slot(before, origin);
                    }
                    assert(inboxes_of(after) =~= inboxes_of(before).remove(handle));
                }
                true
            },
            None => {
                assert(inboxes_of(before) =~= inboxes_of(before).remove(handle));
                false
            },
        }
    }

    /// Takes the oldest message out of the inbox of `handle`. There is none if
    /// the inbox is empty or the handle is not registered.
    pub fn receive(&mut self, handle: u64) -> (message: Option<TxtMessage>)
        ensures
            final(self)@.issued == old(self)@.issued,
            match message {
                Some(message) => {
                    &&& old(self)@.inboxes.dom().contains(handle)
                    &&& old(self)@.inboxes[handle].len() > 0
                    &&& message@ == old(self)@.inboxes[handle][0]
                    &&& final(self)@.inboxes == old(self)@.inboxes.insert(
                        handle,
                        old(self)@.inboxes[handle].drop_first(),
                    )
                },
                None => {
                    &&& final(self)@ == old(self)@
                    &&& old(self)@.inboxes.dom().contains(handle) ==> old(self)@.inboxes[handle].len()
                        == 0
                },
            },
    {
        proof {
            use_type_invariant(&*self);
        }
        let ghost before = self.listeners@;
        let slot = match position(&self.listeners, handle) {
            Some(slot) => slot,
            None => {
                return None;
            },
        };
        proof {
            lemma_slot(before, slot as int);
        }
        let mut listeners: Vec<Listener> = Vec::new();
        std::mem::swap(&mut self.listeners, &mut listeners);
        let message = listeners[slot].inbox.pop_front();
        std::mem::swap(&mut self.listeners, &mut listeners);
        proof {
            let after = self.listeners@;
            assert forall|other: u64| has_handle(after, other) == has_handle(before, other) by {
                if has_handle(after, other) {
                    let k = slot_of(after, other);
                    assert(before[k].handle == other);
                }
                if has_handle(before, other) {
                    let k = slot_of(before, other);
                    assert(after[k].handle == other);
                }
            }
            lemma_slot(after, slot as int);
            assert forall|other: u64| has_handle(before, other) && other != handle implies inboxes_of(
                after,
            )[other] == inboxes_of(before)[other] by {
                let k = slot_of(before, other);
                lemma_slot(before, k);
                assert(after[k] == before[k]);
                lemma_slot(after, k);
            }
            if message is Some {
                assert(message_views(after[slot as int].inbox@) =~= message_views(
                    before[slot as int].inbox@,
                ).drop_first());
                assert(inboxes_of(after) =~= inboxes_of(before).insert(
                    handle,
                    inboxes_of(before)[handle].drop_first(),
                ));
            } else {
                assert(after[slot as int].inbox@ =~= before[slot as int].inbox@);
                assert(inboxes_of(after) =~= inboxes_of(before));
            }
        }
        message
    }

    /// Publishes `message`: every registered consumer gets a copy at the end
    /// of its inbox.
    pub fn publish(&mut self, message: &TxtMessage)
        ensures
            final(self)@.inboxes == published(old(self)@.inboxes, message@),
            final(self)@.issued == old(self)@.issued,
    {
        proof {
            use_type_invariant(&*self);
        }
        let ghost before = self.listeners@;
        let mut listeners: Vec<Listener> = Vec::new();
        std::mem::swap(&mut self.listeners, &mut listeners);
        let count = listeners.len();
        let mut i: usize = 0;
        while i < count
            invariant
                i <= count,
                count == listeners@.len(),
                count == before.len(),
                forall|j: int|
                    0 <= j < count ==> (#[trigger] listeners@[j]).handle == before[j].handle,
                forall|j: int|
                    0 <= j < i ==> message_views((#[trigger] listeners@[j]).inbox@)
                        == message_views(before[j].inbox@).push(message@),
                forall|j: int|
                    i <= j < count ==> (#[trigger] listeners@[j]).inbox@ == before[j].inbox@,
            decreases count - i,
        {
            let ghost inbox_before = listeners@[i as int].inbox@;
            listeners[i].inbox.push_back(message.clone());
            assert(message_views(listeners@[i as int].inbox@) =~= message_views(inbox_before).push(
                message@,
            ));
            i += 1;
        }
        std::mem::swap(&mut self.listeners, &mut listeners);
        proof {
            let after = self.listeners@;
            assert forall|handle: u64| has_handle(after, handle) == has_handle(before, handle) by {
                if has_handle(after, handle) {
                    let k = slot_of(after, handle);
                    assert(before[k].handle == handle);
                }
                if has_handle(before, handle) {
                    let k = slot_of(before, handle);
                    assert(after[k].handle == handle);
                }
            }
            assert forall|handle: u64| has_handle(before, handle) implies inboxes_of(after)[handle]
                == inboxes_of(before)[handle].push(message@) by {
                let k = slot_of(before, handle);
                lemma_slot(before, k);
                assert(after[k].handle == handle);
                lemma_slot(after, k);
            }
            assert(inboxes_of(after) =~= published(inboxes_of(before), message@));
        }
    }
}

} // verus!
