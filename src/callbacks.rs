//! The callback registry and dispatch bridge: which handler each native event
//! goes to, the decoding of the event's raw payload into an independent value,
//! and the removal of one-shot registrations once they have fired.
//!
//! Handlers are named by a token of the caller's choosing; the caller keeps the
//! closures and invokes the ones that a dispatch names.
use vstd::prelude::*;
use crate::networking::{
    session_request_of, P2PSessionRequest, P2P_SESSION_REQUEST_ID, P2P_SESSION_REQUEST_SIZE,
};
use crate::utils::{
    gamepad_dismissal_of, FloatingGamepadTextInputDismissed, GamepadTextInputDismissed,
    FLOATING_GAMEPAD_TEXT_INPUT_DISMISSED_ID, FLOATING_GAMEPAD_TEXT_INPUT_DISMISSED_SIZE,
    GAMEPAD_TEXT_INPUT_DISMISSED_ID, GAMEPAD_TEXT_INPUT_DISMISSED_SIZE,
};

verus! {

/// A native event, decoded.
#[derive(Clone, Copy, Debug, PartialEq, Eq, Structural)]
pub enum Event {
    P2PSessionRequest(P2PSessionRequest),
    GamepadTextInputDismissed(GamepadTextInputDismissed),
    FloatingGamepadTextInputDismissed(FloatingGamepadTextInputDismissed),
}

/// The payload size that the decoder of event `id` reads, for the events that
/// have a decoder.
pub open spec fn payload_size_of(id: i32) -> Option<nat> {
    if id == P2P_SESSION_REQUEST_ID {
        Some(P2P_SESSION_REQUEST_SIZE as nat)
    } else if id == GAMEPAD_TEXT_INPUT_DISMISSED_ID {
        Some(GAMEPAD_TEXT_INPUT_DISMISSED_SIZE as nat)
    } else if id == FLOATING_GAMEPAD_TEXT_INPUT_DISMISSED_ID {
        Some(FLOATING_GAMEPAD_TEXT_INPUT_DISMISSED_SIZE as nat)
    } else {
        None
    }
}

/// The event that a native payload of event `id` decodes to.
pub open spec fn event_of(id: i32, raw: Seq<u8>) -> Event
    recommends
        payload_size_of(id) is Some,
{
    if id == P2P_SESSION_REQUEST_ID {
        Event::P2PSessionRequest(session_request_of(raw))
    } else if id == GAMEPAD_TEXT_INPUT_DISMISSED_ID {
        Event::GamepadTextInputDismissed(gamepad_dismissal_of(raw))
    } else {
        Event::FloatingGamepadTextInputDismissed(FloatingGamepadTextInputDismissed)
    }
}

/// The payload size that the decoder of event `id` reads, or `None` for an
/// event that has no decoder.
pub fn payload_size(id: i32) -> (r: Option<usize>)
    ensures
        r matches Some(n) ==> payload_size_of(id) == Some(n as nat),
        r is None <==> payload_size_of(id) is None,
{
    if id == P2P_SESSION_REQUEST_ID {
        Some(P2P_SESSION_REQUEST_SIZE)
    } else if id == GAMEPAD_TEXT_INPUT_DISMISSED_ID {
        Some(GAMEPAD_TEXT_INPUT_DISMISSED_SIZE)
    } else if id == FLOATING_GAMEPAD_TEXT_INPUT_DISMISSED_ID {
        Some(FLOATING_GAMEPAD_TEXT_INPUT_DISMISSED_SIZE)
    } else {
        None
    }
}

/// Decodes a native payload of event `id` into an independent value; `None`
/// where the event has no decoder or the payload is shorter than it reads.
pub fn decode_event(id: i32, raw: &[u8]) -> (r: Option<Event>)
    ensures
        r is Some <==> (payload_size_of(id) matches Some(n) && raw@.len() >= n),
        r matches Some(e) ==> e == event_of(id, raw@),
{
    match payload_size(id) {
        None => None,
        Some(n) => {
            if raw.len() < n {
                None
            } else if id == P2P_SESSION_REQUEST_ID {
                Some(Event::P2PSessionRequest(P2PSessionRequest::from_raw(raw)))
            } else if id == GAMEPAD_TEXT_INPUT_DISMISSED_ID {
                Some(Event::GamepadTextInputDismissed(GamepadTextInputDismissed::from_raw(raw)))
            } else {
                Some(
                    Event::FloatingGamepadTextInputDismissed(
                        FloatingGamepadTextInputDismissed::from_raw(raw),
                    ),
                )
            }
        },
    }
}

/// One registration: the event it waits for, the payload size it was
/// registered with, whether it stays after firing, and its handler's token.
#[derive(Clone, Copy, Debug, PartialEq, Eq, Structural)]
pub struct CallbackEntry {
    pub id: i32,
    pub size: usize,
    pub persistent: bool,
    pub handler: u64,
}

/// The registrations that a dispatch of event `id` fires, in registration order.
pub open spec fn fired(s: Seq<CallbackEntry>, id: i32) -> Seq<CallbackEntry>
    decreases s.len(),
{
    if s.len() == 0 {
        Seq::empty()
    } else {
        let r = fired(s.drop_last(), id);
        if s.last().id == id {
            r.push(s.last())
        } else {
            r
        }
    }
}

/// Whether a dispatch of event `id` removes the registration `e`: it is a
/// one-shot registration for that event.
pub open spec fn consumed_by(e: CallbackEntry, id: i32) -> bool {
    e.id == id && !e.persistent
}

/// The registrations that remain after a dispatch of event `id`, in order.
pub open spec fn kept(s: Seq<CallbackEntry>, id: i32) -> Seq<CallbackEntry>
    decreases s.len(),
{
    if s.len() == 0 {
        Seq::empty()
    } else {
        let r = kept(s.drop_last(), id);
        if consumed_by(s.last(), id) {
            r
        } else {
            r.push(s.last())
        }
    }
}

/// What one dispatch hands back: the decoded event, and the registrations
/// whose handlers are to be invoked with it, in registration order.
pub struct Dispatch {
    pub event: Event,
    pub handlers: Vec<CallbackEntry>,
}

/// The table of registered handlers.
pub struct CallbackRegistry {
    entries: Vec<CallbackEntry>,
}

impl View for CallbackRegistry {
    type V = Seq<CallbackEntry>;

    closed spec fn view(&self) -> Seq<CallbackEntry> {
        self.entries@
    }
}

impl CallbackRegistry {
    /// Every registration waits for an event that has a decoder, with the
    /// payload size that decoder reads.
    pub open spec fn wf(&self) -> bool {
        forall|i: int|
            0 <= i < self@.len() ==> payload_size_of(#[trigger] self@[i].id) == Some(
                self@[i].size as nat,
            )
    }

    /// An empty registry.
    pub fn new() -> (r: CallbackRegistry)
        ensures
            r.wf(),
            r@ == Seq::<CallbackEntry>::empty(),
    {
        CallbackRegistry { entries: Vec::new() }
    }

    /// The registrations, in registration order.
    pub fn entries(&self) -> (r: &[CallbackEntry])
        ensures
            r@ == self@,
    {
        self.entries.as_slice()
    }

    /// Registers `handler` for event `id`. The expected payload size must be
    /// the one that the event's decoder reads: any other is a defect of the
    /// caller, ruled out here.
    pub fn register(&mut self, id: i32, size: usize, persistent: bool, handler: u64)
        requires
            old(self).wf(),
            payload_size_of(id) == Some(size as nat),
        ensures
            final(self).wf(),
            final(self)@ == old(self)@.push(CallbackEntry { id, size, persistent, handler }),
    {
        self.entries.push(CallbackEntry { id, size, persistent, handler });
    }

    /// Dispatches a native event: decodes its payload, names the handlers it
    /// goes to, and removes the one-shot registrations among them. An event
    /// that cannot be decoded leaves the registry as it was.
    pub fn dispatch(&mut self, id: i32, raw: &[u8]) -> (r: Option<Dispatch>)
        requires
            old(self).wf(),
        ensures
            final(self).wf(),
            r is Some <==> (payload_size_of(id) matches Some(n) && raw@.len() >= n),
            r matches Some(d) ==> {
                &&& d.event == event_of(id, raw@)
                &&& d.handlers@ == fired(old(self)@, id)
                &&& final(self)@ == kept(old(self)@, id)
            },
            r is None ==> final(self)@ == old(self)@,
    {
        let event = match decode_event(id, raw) {
            None => {
                return None;
            },
            Some(e) => e,
        };
        let ghost s = self@;
        let mut handlers: Vec<CallbackEntry> = Vec::new();
        let mut rest: Vec<CallbackEntry> = Vec::new();
        let mut i: usize = 0;
        while i < self.entries.len()
            invariant
                self@ == s,
                0 <= i <= s.len(),
                handlers@ == fired(s.take(i as int), id),
                rest@ == kept(s.take(i as int), id),
                forall|j: int|
                    0 <= j < rest@.len() ==> payload_size_of(#[trigger] rest@[j].id) == Some(
                        rest@[j].size as nat,
                    ),
                forall|j: int|
                    0 <= j < s.len() ==> payload_size_of(#[trigger] s[j].id) == Some(
                        s[j].size as nat,
                    ),
            decreases s.len() - i,
        {
            let e = self.entries[i];
            proof {
                assert(s.take(i + 1).drop_last() =~= s.take(i as int));
                assert(s.take(i + 1).last() == e);
            }
            if e.id == id {
                handlers.push(e);
            }
            if !(e.id == id && !e.persistent) {
                rest.push(e);
            }
            i = i + 1;
        }
        assert(s.take(i as int) =~= s);
        self.entries = rest;
        Some(Dispatch { event, handlers })
    }
}

/// A dispatch of an event for which nothing is registered fires nothing and
/// keeps every registration.
pub proof fn lemma_unregistered_event(s: Seq<CallbackEntry>, id: i32)
    requires
        forall|j: int| 0 <= j < s.len() ==> (#[trigger] s[j]).id != id,
    ensures
        fired(s, id) == Seq::<CallbackEntry>::empty(),
        kept(s, id) == s,
    decreases s.len(),
{
    if s.len() > 0 {
        lemma_unregistered_event(s.drop_last(), id);
        assert(s.drop_last().push(s.last()) =~= s);
    }
}

/// Where every registration for an event is persistent, a dispatch of that
/// event keeps the registry as it was.
pub proof fn lemma_persistent_kept(s: Seq<CallbackEntry>, id: i32)
    requires
        forall|j: int| 0 <= j < s.len() && (#[trigger] s[j]).id == id ==> s[j].persistent,
    ensures
        kept(s, id) == s,
    decreases s.len(),
{
    if s.len() > 0 {
        lemma_persistent_kept(s.drop_last(), id);
        assert(s.drop_last().push(s.last()) =~= s);
    }
}

/// After a dispatch of an event, no one-shot registration for it remains, so a
/// second dispatch of the same event removes nothing more.
pub proof fn lemma_one_shots_removed(s: Seq<CallbackEntry>, id: i32)
    ensures
        forall|j: int|
            0 <= j < kept(s, id).len() ==> !consumed_by(#[trigger] kept(s, id)[j], id),
        kept(kept(s, id), id) == kept(s, id),
    decreases s.len(),
{
    if s.len() > 0 {
        lemma_one_shots_removed(s.drop_last(), id);
    }
    let k = kept(s, id);
    assert forall|j: int| 0 <= j < k.len() && (#[trigger] k[j]).id == id implies k[j].persistent by {
        assert(!consumed_by(k[j], id));
    }
    lemma_persistent_kept(k, id);
}

/// A one-shot handler registered for an event that had no other registration
/// fires on the first dispatch of that event, alone, and is then gone: the
/// registry is as before it was registered, and a second dispatch fires nothing.
pub proof fn lemma_one_shot_fires_once(s: Seq<CallbackEntry>, e: CallbackEntry)
    requires
        !e.persistent,
        forall|j: int| 0 <= j < s.len() ==> (#[trigger] s[j]).id != e.id,
    ensures
        fired(s.push(e), e.id) == seq![e],
        kept(s.push(e), e.id) == s,
        fired(kept(s.push(e), e.id), e.id) == Seq::<CallbackEntry>::empty(),
{
    lemma_unregistered_event(s, e.id);
    assert(s.push(e).drop_last() =~= s);
    assert(Seq::<CallbackEntry>::empty().push(e) =~= seq![e]);
}

/// A persistent handler registered for an event that had no other registration
/// fires, alone, on every dispatch of that event, and stays registered: each
/// dispatch finds the registry as the one before left it.
pub proof fn lemma_persistent_fires_each_time(s: Seq<CallbackEntry>, p: CallbackEntry)
    requires
        p.persistent,
        forall|j: int| 0 <= j < s.len() ==> (#[trigger] s[j]).id != p.id,
    ensures
        fired(s.push(p), p.id) == seq![p],
        kept(s.push(p), p.id) == s.push(p),
{
    lemma_unregistered_event(s, p.id);
    assert(s.push(p).drop_last() =~= s);
    assert(Seq::<CallbackEntry>::empty().push(p) =~= seq![p]);
}

} // verus!
