//! Journal listeners: the capability trait, and the ordered list that fans
//! entries out to them.

use vstd::prelude::*;
use crate::journal::entry::KJournalEntry;

verus! {

/// True when a listener whose interest mask is `mask` matches an entry of
/// severity `sev`: the two masks share at least one bit. Matching is always
/// bitwise AND with a non-zero result, never equality.
pub open spec fn sev_match(mask: u8, sev: u8) -> bool {
    mask & sev != 0
}

/// The listeners after `entry` was broadcast to `ls`: each listener whose
/// mask matches the entry's severity is notified, every other listener is
/// left untouched.
pub open spec fn spec_notify_all<L: KJournalListener>(ls: Seq<L>, entry: KJournalEntry) -> Seq<
    L,
> {
    Seq::new(
        ls.len(),
        |i: int|
            if sev_match(ls[i].severity_spec(), entry.sev()) {
                ls[i].notified_spec(entry)
            } else {
                ls[i]
            },
    )
}

/// A listener whose mask is zero matches no entry, so a broadcast never
/// touches it.
pub proof fn lemma_zero_mask_never_notified<L: KJournalListener>(
    ls: Seq<L>,
    entry: KJournalEntry,
    i: int,
)
    requires
        0 <= i < ls.len(),
        ls[i].severity_spec() == 0,
    ensures
        spec_notify_all(ls, entry)[i] == ls[i],
{
    assert(0u8 & entry.sev() == 0) by (bit_vector);
}

/// Implementing this trait permits listening to a journal.
///
/// Listeners are notified of new journal entries according to the severity
/// mask they listen to. Each listener carries an identity handle, a number
/// that stands for the listener itself: two listeners with the same
/// configuration but different handles are distinct registrations, and a
/// well-formed list never holds two listeners with the same handle.
pub trait KJournalListener: Sized {
    /// The severity mask the listener listens to. Left unconstrained
    /// unless the implementation says what it is.
    open spec fn severity_spec(&self) -> u8 {
        arbitrary()
    }

    /// The listener's identity handle. Left unconstrained unless the
    /// implementation says what it is.
    open spec fn id_spec(&self) -> u64 {
        arbitrary()
    }

    /// The listener's state after it was notified of `entry`. Left
    /// unconstrained unless the implementation says what it is.
    open spec fn notified_spec(&self, entry: KJournalEntry) -> Self {
        arbitrary()
    }

    /// Notification of a new entry, with a reference to it. Notification
    /// never changes the listener's identity nor its mask.
    fn notify(&mut self, entry: &KJournalEntry)
        ensures
            *final(self) == old(self).notified_spec(*entry),
            final(self).id_spec() == old(self).id_spec(),
            final(self).severity_spec() == old(self).severity_spec(),
    ;

    /// Set the severity mask the listener will listen to.
    fn set_severity(&mut self, severity: u8)
        ensures
            final(self).severity_spec() == severity,
            final(self).id_spec() == old(self).id_spec(),
    ;

    /// Get the severity mask the listener is listening to.
    fn get_severity(&self) -> (r: u8)
        ensures
            r == self.severity_spec(),
    ;

    /// Get the listener's identity handle.
    fn get_id(&self) -> (r: u64)
        ensures
            r == self.id_spec(),
    ;
}

/// Enumeration of possible [`KJournalListenerList`] errors.
#[derive(Debug, Clone, Copy, PartialEq, Eq)]
pub enum KJournalListenerListError {
    /// Happens when adding a listener whose identity is already registered.
    ListenerAlreadyExists,

    /// Happens when removing a listener whose identity is not registered.
    ListenerNotFound,
}

/// Ordered list of listeners listening to the journal, located by identity.
pub struct KJournalListenerList<L: KJournalListener> {
    /// Registered listeners, in registration order.
    listeners: Vec<L>,
}

impl<L: KJournalListener> View for KJournalListenerList<L> {
    type V = Seq<L>;

    closed spec fn view(&self) -> Seq<L> {
        self.listeners@
    }
}

impl<L: KJournalListener> KJournalListenerList<L> {
    /// Well-formed list: no two registered listeners share an identity
    /// handle. Constructors establish it and every method preserves it.
    pub open spec fn wf(&self) -> bool {
        forall|i: int, j: int|
            0 <= i < j < self@.len() ==> self@[i].id_spec() != self@[j].id_spec()
    }

    /// Create a new, empty listener list.
    pub fn new() -> (r: KJournalListenerList<L>)
        ensures
            r@ == Seq::<L>::empty(),
            r.wf(),
    {
        let listeners: Vec<L> = Vec::new();
        KJournalListenerList { listeners }
    }

    /// Notify the listeners of a new entry: each listener whose severity
    /// mask matches the entry's severity is notified, in registration
    /// order; every other listener is skipped entirely.
    pub fn notify(&mut self, entry: &KJournalEntry)
        requires
            old(self).wf(),
        ensures
            final(self)@ == spec_notify_all(old(self)@, *entry),
            final(self).wf(),
    {
        let n = self.listeners.len();
        let mut i: usize = 0;
        while i < n
            invariant
                i <= n,
                n == self.listeners@.len(),
                n == old(self)@.len(),
                forall|k: int| 0 <= k < i ==> self.listeners@[k] == #[trigger] spec_notify_all(
                    old(self)@,
                    *entry,
                )[k],
                forall|k: int| i <= k < n ==> self.listeners@[k] == old(self)@[k],
                forall|k: int|
                    0 <= k < n ==> #[trigger] self.listeners@[k].id_spec()
                        == old(self)@[k].id_spec(),
                old(self).wf(),
            decreases n - i,
        {
            if self.listeners[i].get_severity() & entry.get_severity() > 0 {
                self.listeners[i].notify(entry);
            }
            i = i + 1;
        }
        proof {
            assert(self@ =~= spec_notify_all(old(self)@, *entry));
        }
    }

    /// Add a listener to the list, at the end of the registration order.
    ///
    /// Returns `Ok` with the index of the new listener, or
    /// `Err(ListenerAlreadyExists)`, the list unchanged, when a listener
    /// with the same identity is already registered.
    pub fn add_listener(&mut self, listener: L) -> (r: Result<usize, KJournalListenerListError>)
        requires
            old(self).wf(),
        ensures
            final(self).wf(),
            r matches Ok(idx) ==> idx == old(self)@.len() && final(self)@ == old(self)@.push(
                listener,
            ) && (forall|k: int|
                0 <= k < old(self)@.len() ==> old(self)@[k].id_spec() != listener.id_spec()),
            r matches Err(e) ==> e == KJournalListenerListError::ListenerAlreadyExists
                && final(self)@ == old(self)@ && (exists|k: int|
                0 <= k < old(self)@.len() && old(self)@[k].id_spec() == listener.id_spec()),
    {
        match self.get_listener_index(&listener) {
            Some(_) => Err(KJournalListenerListError::ListenerAlreadyExists),
            None => {
                let idx = self.listeners.len();
                self.listeners.push(listener);
                Ok(idx)
            },
        }
    }

    /// Remove a listener from the list by identity.
    ///
    /// Returns `Ok` with the index the listener held, or
    /// `Err(ListenerNotFound)`, the list unchanged, when no listener with
    /// that identity is registered.
    pub fn remove_listener(&mut self, listener: &L) -> (r: Result<
        usize,
        KJournalListenerListError,
    >)
        requires
            old(self).wf(),
        ensures
            final(self).wf(),
            r matches Ok(idx) ==> 0 <= idx < old(self)@.len() && old(self)@[idx as int].id_spec()
                == listener.id_spec() && final(self)@ == old(self)@.remove(idx as int),
            r matches Err(e) ==> e == KJournalListenerListError::ListenerNotFound && final(self)@
                == old(self)@ && (forall|k: int|
                0 <= k < old(self)@.len() ==> old(self)@[k].id_spec() != listener.id_spec()),
    {
        match self.get_listener_index(listener) {
            Some(idx) => {
                self.listeners.remove(idx);
                Ok(idx)
            },
            None => Err(KJournalListenerListError::ListenerNotFound),
        }
    }

    /// Get the count of registered listeners.
    pub fn count(&self) -> (r: usize)
        ensures
            r == self@.len(),
    {
        self.listeners.len()
    }

    /// Clear the list of listeners, without notifying any of them.
    pub fn clear(&mut self)
        ensures
            final(self)@ == Seq::<L>::empty(),
            final(self).wf(),
    {
        self.listeners.clear();
    }

    /// Get the index of the listener with the given identity, if one is
    /// registered.
    fn get_listener_index(&self, listener: &L) -> (r: Option<usize>)
        ensures
            r matches Some(idx) ==> 0 <= idx < self@.len() && self@[idx as int].id_spec()
                == listener.id_spec(),
            r is None ==> forall|k: int|
                0 <= k < self@.len() ==> self@[k].id_spec() != listener.id_spec(),
    {
        let id = listener.get_id();
        let n = self.listeners.len();
        let mut i: usize = 0;
        while i < n
            invariant
                i <= n,
                n == self@.len(),
                id == listener.id_spec(),
                forall|k: int| 0 <= k < i ==> self@[k].id_spec() != listener.id_spec(),
            decreases n - i,
        {
            if self.listeners[i].get_id() == id {
                return Some(i);
            }
            i = i + 1;
        }
        None
    }
}

} // verus!
