//! The observer registry: which managed-runtime callbacks listen to which
//! kind of sharing event, and when the shared native subscription is taken
//! out and given back.
//!
//! Registration policy: one native subscription is shared by all observers.
//! It is taken out when the first observer is added while none is active, and
//! given back when an unregistration removes the last observer. A new
//! observer replaces any observer of the same event kind, so at most one
//! observer per kind is held.
//!
//! The native subscribe and unsubscribe calls are made by the embedding layer
//! while it holds the registry's lock: it asks `needs_subscription` or
//! `needs_unsubscription` whether the call is due, makes it if so, and hands
//! the reported status to `register` or `unregister`.

use vstd::prelude::*;
use crate::bridge;
use crate::client::{SharingClient, status_result};
use crate::native;

verus! {

/// Opaque reference to a managed-runtime callback. Two registrations of the
/// same callback carry equal handles.
#[derive(Clone, Copy, Debug, PartialEq, Eq, Structural)]
pub struct CallbackHandle {
    pub id: u64,
}

/// A callback together with the kind of event it listens to.
#[derive(Clone, Copy, Debug, PartialEq, Eq, Structural)]
pub enum CallbackFlavor {
    SharingStateChange(CallbackHandle),
    InterfaceSharingStateChange(CallbackHandle),
    SharingUpstreamChange(CallbackHandle),
}

/// Kind of sharing event.
#[derive(Clone, Copy, Debug, PartialEq, Eq, Structural)]
pub enum SharingEventType {
    EventSharingStateChange,
    EventInterfaceSharingStateChange,
    EventSharingUpstreamChange,
}

impl CallbackFlavor {
    pub open spec fn kind(self) -> SharingEventType {
        match self {
            CallbackFlavor::SharingStateChange(_) => SharingEventType::EventSharingStateChange,
            CallbackFlavor::InterfaceSharingStateChange(_) => {
                SharingEventType::EventInterfaceSharingStateChange
            },
            CallbackFlavor::SharingUpstreamChange(_) => {
                SharingEventType::EventSharingUpstreamChange
            },
        }
    }

    pub open spec fn handle(self) -> CallbackHandle {
        match self {
            CallbackFlavor::SharingStateChange(h) => h,
            CallbackFlavor::InterfaceSharingStateChange(h) => h,
            CallbackFlavor::SharingUpstreamChange(h) => h,
        }
    }

    /// The kind of event this callback listens to.
    pub fn event_type(&self) -> (r: SharingEventType)
        ensures
            r == self.kind(),
    {
        match self {
            CallbackFlavor::SharingStateChange(_) => SharingEventType::EventSharingStateChange,
            CallbackFlavor::InterfaceSharingStateChange(_) => {
                SharingEventType::EventInterfaceSharingStateChange
            },
            CallbackFlavor::SharingUpstreamChange(_) => {
                SharingEventType::EventSharingUpstreamChange
            },
        }
    }

    /// The callback itself.
    pub fn callback(&self) -> (r: CallbackHandle)
        ensures
            r == self.handle(),
    {
        match self {
            CallbackFlavor::SharingStateChange(h) => *h,
            CallbackFlavor::InterfaceSharingStateChange(h) => *h,
            CallbackFlavor::SharingUpstreamChange(h) => *h,
        }
    }
}

/// `s` without its observers of kind `k`, in order.
pub open spec fn without_kind(s: Seq<CallbackFlavor>, k: SharingEventType) -> Seq<CallbackFlavor>
    decreases s.len(),
{
    if s.len() == 0 {
        s
    } else {
        let rest = without_kind(s.drop_last(), k);
        if s.last().kind() == k {
            rest
        } else {
            rest.push(s.last())
        }
    }
}

/// `s` without the entries equal to `c`, in order.
pub open spec fn without(s: Seq<CallbackFlavor>, c: CallbackFlavor) -> Seq<CallbackFlavor>
    decreases s.len(),
{
    if s.len() == 0 {
        s
    } else {
        let rest = without(s.drop_last(), c);
        if s.last() == c {
            rest
        } else {
            rest.push(s.last())
        }
    }
}

/// Callbacks of the observers of kind `k` in `s`, in order.
pub open spec fn handles_of_kind(s: Seq<CallbackFlavor>, k: SharingEventType) -> Seq<
    CallbackHandle,
>
    decreases s.len(),
{
    if s.len() == 0 {
        Seq::empty()
    } else {
        let rest = handles_of_kind(s.drop_last(), k);
        if s.last().kind() == k {
            rest.push(s.last().handle())
        } else {
            rest
        }
    }
}

/// What an unregistration leaves: without the given callback, or without
/// every observer of `event` when no callback is given.
pub open spec fn removed(
    s: Seq<CallbackFlavor>,
    callback_ref: Option<CallbackFlavor>,
    event: SharingEventType,
) -> Seq<CallbackFlavor> {
    match callback_ref {
        Some(c) => without(s, c),
        None => without_kind(s, event),
    }
}

/// What a registration of `c` leaves: `c` replaces the observers of its kind.
pub open spec fn added(s: Seq<CallbackFlavor>, c: CallbackFlavor) -> Seq<CallbackFlavor> {
    without_kind(s, c.kind()).push(c)
}

/// Abstract state of a registry.
pub struct RegistryState {
    /// Observers, in registration order, which is the dispatch order.
    pub entries: Seq<CallbackFlavor>,
    /// Whether the shared native subscription is active.
    pub subscribed: bool,
}

impl RegistryState {
    /// At most one observer per kind, and no observer without an active
    /// native subscription.
    pub open spec fn wf(self) -> bool {
        &&& forall|k: SharingEventType| #[trigger] handles_of_kind(self.entries, k).len() <= 1
        &&& !self.subscribed ==> self.entries.len() == 0
    }

    /// A registration must first take out the native subscription.
    pub open spec fn subscribe_due(self) -> bool {
        !self.subscribed
    }

    /// An unregistration must give back the native subscription: it removes
    /// the last observer.
    pub open spec fn unsubscribe_due(
        self,
        callback_ref: Option<CallbackFlavor>,
        event: SharingEventType,
    ) -> bool {
        &&& self.subscribed
        &&& self.entries.len() > 0
        &&& removed(self.entries, callback_ref, event).len() == 0
    }

    /// State after a successful registration of `c`.
    pub open spec fn registered(self, c: CallbackFlavor) -> RegistryState {
        RegistryState { entries: added(self.entries, c), subscribed: true }
    }

    /// State after an unregistration; `torn_down` tells whether the native
    /// subscription was given back.
    pub open spec fn unregistered(
        self,
        callback_ref: Option<CallbackFlavor>,
        event: SharingEventType,
        torn_down: bool,
    ) -> RegistryState {
        RegistryState {
            entries: removed(self.entries, callback_ref, event),
            subscribed: self.subscribed && !torn_down,
        }
    }
}

/// The payload of an event and the callbacks it is to be delivered to, in
/// order.
pub struct Dispatch<T> {
    pub payload: T,
    pub targets: Vec<CallbackHandle>,
}

/// The observer registry.
pub struct Register {
    entries: Vec<CallbackFlavor>,
    subscribed: bool,
}

impl View for Register {
    type V = RegistryState;

    closed spec fn view(&self) -> RegistryState {
        RegistryState { entries: self.entries@, subscribed: self.subscribed }
    }
}

proof fn lemma_handles_push(s: Seq<CallbackFlavor>, c: CallbackFlavor, k: SharingEventType)
    ensures
        handles_of_kind(s.push(c), k) == (if c.kind() == k {
            handles_of_kind(s, k).push(c.handle())
        } else {
            handles_of_kind(s, k)
        }),
{
    assert(s.push(c).drop_last() =~= s);
}

proof fn lemma_without_kind_push(s: Seq<CallbackFlavor>, c: CallbackFlavor, k: SharingEventType)
    ensures
        without_kind(s.push(c), k) == (if c.kind() == k {
            without_kind(s, k)
        } else {
            without_kind(s, k).push(c)
        }),
{
    assert(s.push(c).drop_last() =~= s);
}

proof fn lemma_without_push(s: Seq<CallbackFlavor>, c: CallbackFlavor, d: CallbackFlavor)
    ensures
        without(s.push(d), c) == (if d == c {
            without(s, c)
        } else {
            without(s, c).push(d)
        }),
{
    assert(s.push(d).drop_last() =~= s);
}

/// Removing the observers of kind `k` empties that kind and leaves the others.
proof fn lemma_without_kind_handles(s: Seq<CallbackFlavor>, k: SharingEventType, k2: SharingEventType)
    ensures
        handles_of_kind(without_kind(s, k), k2) == (if k2 == k {
            Seq::<CallbackHandle>::empty()
        } else {
            handles_of_kind(s, k2)
        }),
    decreases s.len(),
{
    if s.len() > 0 {
        let x = s.drop_last();
        let c = s.last();
        lemma_without_kind_handles(x, k, k2);
        if c.kind() != k {
            lemma_handles_push(without_kind(x, k), c, k2);
        }
    }
}

/// Removing entries never adds observers to a kind.
proof fn lemma_without_handles_len(s: Seq<CallbackFlavor>, c: CallbackFlavor, k: SharingEventType)
    ensures
        handles_of_kind(without(s, c), k).len() <= handles_of_kind(s, k).len(),
    decreases s.len(),
{
    if s.len() > 0 {
        let x = s.drop_last();
        let d = s.last();
        lemma_without_handles_len(x, c, k);
        if d != c {
            lemma_handles_push(without(x, c), d, k);
        }
    }
}

proof fn lemma_without_kind_idempotent(s: Seq<CallbackFlavor>, k: SharingEventType)
    ensures
        without_kind(without_kind(s, k), k) == without_kind(s, k),
    decreases s.len(),
{
    if s.len() > 0 {
        let x = s.drop_last();
        let c = s.last();
        lemma_without_kind_idempotent(x, k);
        if c.kind() != k {
            lemma_without_kind_push(without_kind(x, k), c, k);
        }
    }
}

proof fn lemma_without_absent(s: Seq<CallbackFlavor>, c: CallbackFlavor)
    requires
        !s.contains(c),
    ensures
        without(s, c) == s,
    decreases s.len(),
{
    if s.len() > 0 {
        let x = s.drop_last();
        assert(!x.contains(c)) by {
            if x.contains(c) {
                let i = choose|i: int| 0 <= i < x.len() && x[i] == c;
                assert(s[i] == c);
            }
        }
        assert(s[s.len() - 1] != c);
        lemma_without_absent(x, c);
        assert(x.push(s.last()) =~= s);
    }
}

proof fn lemma_removed_empty(s: Seq<CallbackFlavor>, callback_ref: Option<CallbackFlavor>, event: SharingEventType)
    requires
        s.len() == 0,
    ensures
        removed(s, callback_ref, event) == s,
{
}

proof fn lemma_added_wf(s: Seq<CallbackFlavor>, c: CallbackFlavor)
    requires
        forall|k: SharingEventType| #[trigger] handles_of_kind(s, k).len() <= 1,
    ensures
        forall|k: SharingEventType| #[trigger] handles_of_kind(added(s, c), k).len() <= 1,
{
    assert forall|k: SharingEventType| #[trigger] handles_of_kind(added(s, c), k).len() <= 1 by {
        lemma_without_kind_handles(s, c.kind(), k);
        lemma_handles_push(without_kind(s, c.kind()), c, k);
    }
}

proof fn lemma_removed_wf(s: Seq<CallbackFlavor>, callback_ref: Option<CallbackFlavor>, event: SharingEventType)
    requires
        forall|k: SharingEventType| #[trigger] handles_of_kind(s, k).len() <= 1,
    ensures
        forall|k: SharingEventType| #[trigger] handles_of_kind(removed(s, callback_ref, event), k).len() <= 1,
{
    assert forall|k: SharingEventType| #[trigger] handles_of_kind(removed(s, callback_ref, event), k).len() <= 1 by {
        match callback_ref {
            Some(c) => lemma_without_handles_len(s, c, k),
            None => lemma_without_kind_handles(s, event, k),
        }
    }
}

fn retain_other_kinds(entries: &Vec<CallbackFlavor>, k: SharingEventType) -> (r: Vec<CallbackFlavor>)
    ensures
        r@ == without_kind(entries@, k),
{
    let mut kept: Vec<CallbackFlavor> = Vec::new();
    let mut i: usize = 0;
    while i < entries.len()
        invariant
            0 <= i <= entries.len(),
            kept@ == without_kind(entries@.subrange(0, i as int), k),
        decreases entries.len() - i,
    {
        let c = entries[i];
        proof {
            assert(entries@.subrange(0, i as int + 1).drop_last() =~= entries@.subrange(0, i as int));
        }
        if c.event_type() != k {
            kept.push(c);
        }
        i += 1;
    }
    proof {
        assert(entries@.subrange(0, entries@.len() as int) =~= entries@);
    }
    kept
}

fn retain_others(entries: &Vec<CallbackFlavor>, callback: CallbackFlavor) -> (r: Vec<CallbackFlavor>)
    ensures
        r@ == without(entries@, callback),
{
    let mut kept: Vec<CallbackFlavor> = Vec::new();
    let mut i: usize = 0;
    while i < entries.len()
        invariant
            0 <= i <= entries.len(),
            kept@ == without(entries@.subrange(0, i as int), callback),
        decreases entries.len() - i,
    {
        let c = entries[i];
        proof {
            assert(entries@.subrange(0, i as int + 1).drop_last() =~= entries@.subrange(0, i as int));
        }
        if c != callback {
            kept.push(c);
        }
        i += 1;
    }
    proof {
        assert(entries@.subrange(0, entries@.len() as int) =~= entries@);
    }
    kept
}

fn remaining(
    entries: &Vec<CallbackFlavor>,
    callback_ref: Option<CallbackFlavor>,
    event: SharingEventType,
) -> (r: Vec<CallbackFlavor>)
    ensures
        r@ == removed(entries@, callback_ref, event),
{
    match callback_ref {
        Some(c) => retain_others(entries, c),
        None => retain_other_kinds(entries, event),
    }
}

fn targets_of_kind(entries: &Vec<CallbackFlavor>, k: SharingEventType) -> (r: Vec<CallbackHandle>)
    ensures
        r@ == handles_of_kind(entries@, k),
{
    let mut targets: Vec<CallbackHandle> = Vec::new();
    let mut i: usize = 0;
    while i < entries.len()
        invariant
            0 <= i <= entries.len(),
            targets@ == handles_of_kind(entries@.subrange(0, i as int), k),
        decreases entries.len() - i,
    {
        let c = entries[i];
        proof {
            assert(entries@.subrange(0, i as int + 1).drop_last() =~= entries@.subrange(0, i as int));
        }
        if c.event_type() == k {
            targets.push(c.callback());
        }
        i += 1;
    }
    proof {
        assert(entries@.subrange(0, entries@.len() as int) =~= entries@);
    }
    targets
}

impl Register {
    /// An empty registry with no native subscription.
    pub fn new() -> (r: Register)
        ensures
            r@.entries == Seq::<CallbackFlavor>::empty(),
            !r@.subscribed,
            r@.wf(),
    {
        Register { entries: Vec::new(), subscribed: false }
    }

    /// Whether a registration must first take out the native subscription.
    pub fn needs_subscription(&self) -> (r: bool)
        ensures
            r == self@.subscribe_due(),
    {
        !self.subscribed
    }

    /// Whether this unregistration must give back the native subscription.
    pub fn needs_unsubscription(
        &self,
        callback_ref: Option<CallbackFlavor>,
        event: SharingEventType,
    ) -> (r: bool)
        ensures
            r == self@.unsubscribe_due(callback_ref, event),
    {
        if !self.subscribed || self.entries.len() == 0 {
            return false;
        }
        let rest = remaining(&self.entries, callback_ref, event);
        rest.len() == 0
    }

    /// Adds `callback`, replacing the observer of its kind if there is one.
    ///
    /// `subscribe_status` is the status reported by the native subscribe
    /// call, which is made exactly when `needs_subscription` holds. A failed
    /// subscription is reported as its status and leaves the registry as it
    /// was.
    pub fn register(&mut self, callback: CallbackFlavor, subscribe_status: Option<i32>) -> (r:
        Result<(), i32>)
        requires
            old(self)@.wf(),
            subscribe_status is Some <==> old(self)@.subscribe_due(),
        ensures
            final(self)@.wf(),
            r == (match subscribe_status {
                Some(status) => status_result(status, ()),
                None => Ok(()),
            }),
            r is Ok ==> final(self)@ == old(self)@.registered(callback),
            r is Err ==> final(self)@ == old(self)@,
    {
        if let Some(status) = subscribe_status {
            match SharingClient::register_sharing_observer(status) {
                Ok(()) => {},
                Err(code) => {
                    return Err(code);
                },
            }
        }
        let mut entries = retain_other_kinds(&self.entries, callback.event_type());
        entries.push(callback);
        proof {
            lemma_added_wf(self@.entries, callback);
            assert(entries@ == added(self@.entries, callback));
        }
        *self = Register { entries, subscribed: true };
        proof {
            assert(self@.entries == added(old(self)@.entries, callback));
        }
        Ok(())
    }

    /// Removes `callback_ref`'s entry, or every observer of `event` when no
    /// callback is given. Removing what is not registered changes nothing
    /// and is no error.
    ///
    /// `unsubscribe_status` is the status reported by the native unsubscribe
    /// call, which is made exactly when `needs_unsubscription` holds. The
    /// entries are removed whatever it reported; a failed unsubscription is
    /// reported as its status and leaves the subscription marked active.
    pub fn unregister(
        &mut self,
        callback_ref: Option<CallbackFlavor>,
        event: SharingEventType,
        unsubscribe_status: Option<i32>,
    ) -> (r: Result<(), i32>)
        requires
            old(self)@.wf(),
            unsubscribe_status is Some <==> old(self)@.unsubscribe_due(callback_ref, event),
        ensures
            final(self)@.wf(),
            r == (match unsubscribe_status {
                Some(status) => status_result(status, ()),
                None => Ok(()),
            }),
            final(self)@ == old(self)@.unregistered(
                callback_ref,
                event,
                unsubscribe_status is Some && r is Ok,
            ),
    {
        let entries = remaining(&self.entries, callback_ref, event);
        proof {
            lemma_removed_wf(self@.entries, callback_ref, event);
            if self@.entries.len() == 0 {
                lemma_removed_empty(self@.entries, callback_ref, event);
            }
        }
        let result = match unsubscribe_status {
            Some(status) => SharingClient::unregister_sharing_observer(status),
            None => Ok(()),
        };
        let subscribed = self.subscribed && !(unsubscribe_status.is_some() && result.is_ok());
        *self = Register { entries, subscribed };
        result
    }

    /// Whether `callback` is currently registered.
    pub fn is_registered(&self, callback: CallbackFlavor) -> (r: bool)
        ensures
            r == self@.entries.contains(callback),
    {
        let mut i: usize = 0;
        while i < self.entries.len()
            invariant
                0 <= i <= self.entries.len(),
                forall|j: int| 0 <= j < i ==> self.entries@[j] != callback,
            decreases self.entries.len() - i,
        {
            if self.entries[i] == callback {
                return true;
            }
            i += 1;
        }
        false
    }

    /// Delivery of a sharing-state change to the observers of that kind.
    pub fn on_sharing_state_change(&self, is_running: bool) -> (r: Dispatch<bool>)
        ensures
            r.payload == is_running,
            r.targets@ == handles_of_kind(
                self@.entries,
                SharingEventType::EventSharingStateChange,
            ),
    {
        let targets = targets_of_kind(&self.entries, SharingEventType::EventSharingStateChange);
        Dispatch { payload: is_running, targets }
    }

    /// Delivery of an interface-sharing-state change to the observers of that
    /// kind. A native record with enumeration values unknown to this binding
    /// means that the two are out of step; it is excluded here.
    pub fn on_interface_sharing_state_change(&self, info: native::InterfaceSharingStateInfo) -> (r:
        Dispatch<bridge::InterfaceSharingStateInfo>)
        requires
            info.is_mapped(),
        ensures
            r.payload.matches_native(&info),
            r.targets@ == handles_of_kind(
                self@.entries,
                SharingEventType::EventInterfaceSharingStateChange,
            ),
    {
        let targets = targets_of_kind(
            &self.entries,
            SharingEventType::EventInterfaceSharingStateChange,
        );
        Dispatch { payload: info.to_public().unwrap(), targets }
    }

    /// Delivery of an upstream change to the observers of that kind.
    pub fn on_sharing_upstream_change(&self, net_handle: native::NetHandle) -> (r: Dispatch<
        bridge::NetHandle,
    >)
        ensures
            r.payload.net_id == net_handle.net_id,
            r.targets@ == handles_of_kind(
                self@.entries,
                SharingEventType::EventSharingUpstreamChange,
            ),
    {
        let targets = targets_of_kind(&self.entries, SharingEventType::EventSharingUpstreamChange);
        Dispatch { payload: bridge::NetHandle::from(net_handle), targets }
    }
}

/// Entry point of the native notification source for sharing-state changes.
pub fn execute_sharing_state_changed(register: &Register, is_running: bool) -> (r: Dispatch<bool>)
    ensures
        r.payload == is_running,
        r.targets@ == handles_of_kind(register@.entries, SharingEventType::EventSharingStateChange),
{
    register.on_sharing_state_change(is_running)
}

/// Entry point of the native notification source for interface-sharing-state
/// changes.
pub fn execute_interface_sharing_state_change(
    register: &Register,
    info: native::InterfaceSharingStateInfo,
) -> (r: Dispatch<bridge::InterfaceSharingStateInfo>)
    requires
        info.is_mapped(),
    ensures
        r.payload.matches_native(&info),
        r.targets@ == handles_of_kind(
            register@.entries,
            SharingEventType::EventInterfaceSharingStateChange,
        ),
{
    register.on_interface_sharing_state_change(info)
}

/// Entry point of the native notification source for upstream changes.
pub fn execute_sharing_upstream_change(register: &Register, net_handle: native::NetHandle) -> (r:
    Dispatch<bridge::NetHandle>)
    ensures
        r.payload.net_id == net_handle.net_id,
        r.targets@ == handles_of_kind(
            register@.entries,
            SharingEventType::EventSharingUpstreamChange,
        ),
{
    register.on_sharing_upstream_change(net_handle)
}

/// Registering a callback replaces the observer of its kind: after two
/// registrations of the same kind only the second callback listens to that
/// kind, the other kinds are untouched, registering the same callback twice
/// leaves the registry as one registration did, and the second registration
/// does not subscribe again.
pub proof fn lemma_register_replaces(m: RegistryState, c1: CallbackFlavor, c2: CallbackFlavor)
    requires
        m.wf(),
        c1.kind() == c2.kind(),
    ensures
        handles_of_kind(m.registered(c1).registered(c2).entries, c2.kind()) == seq![c2.handle()],
        forall|k: SharingEventType|
            k != c2.kind() ==> #[trigger] handles_of_kind(m.registered(c1).registered(c2).entries, k)
                == handles_of_kind(m.entries, k),
        m.registered(c1).registered(c1) == m.registered(c1),
        !m.registered(c1).subscribe_due(),
{
    let k = c1.kind();
    let s1 = added(m.entries, c1);
    let s2 = added(s1, c2);
    lemma_without_kind_handles(s1, k, k);
    lemma_handles_push(without_kind(s1, k), c2, k);
    assert(handles_of_kind(s2, k) =~= seq![c2.handle()]);
    assert forall|k2: SharingEventType| k2 != c2.kind() implies #[trigger] handles_of_kind(s2, k2)
        == handles_of_kind(m.entries, k2) by {
        lemma_without_kind_handles(s1, k, k2);
        lemma_handles_push(without_kind(s1, k), c2, k2);
        lemma_without_kind_handles(m.entries, k, k2);
        lemma_handles_push(without_kind(m.entries, k), c1, k2);
    }
    lemma_without_kind_push(without_kind(m.entries, k), c1, k);
    lemma_without_kind_idempotent(m.entries, k);
}

/// Unregistering a callback that is not registered succeeds without a native
/// call and leaves every observer in place.
pub proof fn lemma_unregister_unknown_is_noop(
    m: RegistryState,
    c: CallbackFlavor,
    event: SharingEventType,
)
    requires
        m.wf(),
        !m.entries.contains(c),
    ensures
        removed(m.entries, Some(c), event) == m.entries,
        !m.unsubscribe_due(Some(c), event),
        m.unregistered(Some(c), event, false) == m,
{
    lemma_without_absent(m.entries, c);
}

/// Unregistering with no callback removes every observer of the event kind
/// and leaves the observers of the other kinds as they were.
pub proof fn lemma_unregister_all_of_kind(m: RegistryState, event: SharingEventType)
    requires
        m.wf(),
    ensures
        handles_of_kind(removed(m.entries, None, event), event).len() == 0,
        forall|i: int|
            0 <= i < removed(m.entries, None, event).len() ==> (#[trigger] removed(
                m.entries,
                None,
                event,
            )[i]).kind() != event,
        forall|k: SharingEventType|
            k != event ==> #[trigger] handles_of_kind(removed(m.entries, None, event), k)
                == handles_of_kind(m.entries, k),
{
    lemma_without_kind_handles(m.entries, event, event);
    lemma_without_kind_excludes(m.entries, event);
    assert forall|k: SharingEventType| k != event implies #[trigger] handles_of_kind(
        removed(m.entries, None, event),
        k,
    ) == handles_of_kind(m.entries, k) by {
        lemma_without_kind_handles(m.entries, event, k);
    }
}

proof fn lemma_without_kind_excludes(s: Seq<CallbackFlavor>, k: SharingEventType)
    ensures
        forall|i: int|
            0 <= i < without_kind(s, k).len() ==> (#[trigger] without_kind(s, k)[i]).kind() != k,
    decreases s.len(),
{
    if s.len() > 0 {
        lemma_without_kind_excludes(s.drop_last(), k);
    }
}

/// The shared native subscription is taken out only when none is active and
/// given back only by the unregistration that removes the last observer:
/// after a registration no second subscription is due, and after the
/// subscription is given back no further unsubscription is due until the
/// next registration, which takes it out again. No observer is held without
/// an active subscription.
pub proof fn lemma_subscription_balanced(
    m: RegistryState,
    c: CallbackFlavor,
    callback_ref: Option<CallbackFlavor>,
    event: SharingEventType,
)
    requires
        m.wf(),
    ensures
        m.subscribe_due() ==> m.entries.len() == 0,
        !m.registered(c).subscribe_due(),
        m.registered(c).wf(),
        m.unsubscribe_due(callback_ref, event) <==> (m.subscribed && m.entries.len() > 0
            && removed(m.entries, callback_ref, event).len() == 0),
        m.unsubscribe_due(callback_ref, event) ==> ({
            let n = m.unregistered(callback_ref, event, true);
            &&& n.wf()
            &&& n.entries.len() == 0
            &&& n.subscribe_due()
            &&& forall|cb: Option<CallbackFlavor>, ev: SharingEventType|
                !#[trigger] n.unsubscribe_due(cb, ev)
        }),
{
    lemma_added_wf(m.entries, c);
    lemma_removed_wf(m.entries, callback_ref, event);
}

/// An event is delivered to every observer of its kind and only to
/// observers of its kind.
pub proof fn lemma_dispatch_reaches_kind(s: Seq<CallbackFlavor>, k: SharingEventType)
    ensures
        forall|i: int|
            0 <= i < s.len() && (#[trigger] s[i]).kind() == k ==> handles_of_kind(s, k).contains(
                s[i].handle(),
            ),
        forall|h: CallbackHandle|
            #[trigger] handles_of_kind(s, k).contains(h) ==> exists|i: int|
                0 <= i < s.len() && (#[trigger] s[i]).kind() == k && s[i].handle() == h,
    decreases s.len(),
{
    if s.len() > 0 {
        let x = s.drop_last();
        let c = s.last();
        let hx = handles_of_kind(x, k);
        let hs = handles_of_kind(s, k);
        lemma_dispatch_reaches_kind(x, k);
        assert forall|i: int| 0 <= i < s.len() && (#[trigger] s[i]).kind() == k implies hs.contains(
            s[i].handle(),
        ) by {
            if i < s.len() - 1 {
                assert(x[i] == s[i]);
                let j = choose|j: int| 0 <= j < hx.len() && hx[j] == x[i].handle();
                assert(hs[j] == hx[j]);
            } else {
                assert(hs[hs.len() - 1] == c.handle());
            }
        }
        assert forall|h: CallbackHandle| #[trigger] hs.contains(h) implies exists|i: int|
            0 <= i < s.len() && (#[trigger] s[i]).kind() == k && s[i].handle() == h by {
            let j = choose|j: int| 0 <= j < hs.len() && hs[j] == h;
            if c.kind() == k && j == hs.len() - 1 {
                assert(s[s.len() - 1].kind() == k);
            } else {
                assert(hx[j] == h);
                assert(hx.contains(h));
                let i = choose|i: int| 0 <= i < x.len() && (#[trigger] x[i]).kind() == k && x[i].handle() == h;
                assert(s[i] == x[i]);
            }
        }
    }
}

} // verus!
