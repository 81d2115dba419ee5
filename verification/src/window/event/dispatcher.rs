//! Dispatch of window events to multiple receivers, newest receiver first.

use vstd::prelude::*;
use crate::window::event::KEvent;
use crate::window::KWindowError;

verus! {

/// Receive window events from the dispatcher and handle them if needed.
///
/// Each receiver carries an identity handle, a number that stands for the
/// receiver itself: two receivers with the same configuration but
/// different handles are distinct, and a dispatcher never holds two
/// receivers with the same handle.
pub trait KEventReceiver: Sized {
    /// The receiver's identity handle. Left unconstrained unless the
    /// implementation says what it is.
    open spec fn id_spec(&self) -> u64 {
        arbitrary()
    }

    /// Whether the receiver is enabled. Left unconstrained unless the
    /// implementation says what it is.
    open spec fn enabled_spec(&self) -> bool {
        arbitrary()
    }

    /// Whether the receiver handles `event` when it receives it. Left
    /// unconstrained unless the implementation says what it is.
    open spec fn handles_spec(&self, event: KEvent) -> bool {
        arbitrary()
    }

    /// Get the receiver's identity handle.
    fn get_id(&self) -> (r: u64)
        ensures
            r == self.id_spec(),
    ;

    /// Returns whether the receiver is enabled and ready to receive
    /// events. A disabled receiver receives none.
    fn is_enabled(&self) -> (r: bool)
        ensures
            r == self.enabled_spec(),
    ;

    /// Receive an event from the dispatcher.
    ///
    /// Returns `true` when the event was handled, which prevents older
    /// receivers from seeing it, and `false` otherwise, handing it to the
    /// next receiver.
    fn receive(&self, event: &KEvent) -> (r: bool)
        ensures
            r == self.handles_spec(*event),
    ;
}

/// True when `i` is the position of the receiver of `rs` that handles
/// `event`: the newest enabled receiver, counted from the end of the
/// list, that handles it.
pub open spec fn spec_handler_index<R: KEventReceiver>(rs: Seq<R>, event: KEvent, i: int) -> bool {
    &&& 0 <= i < rs.len()
    &&& rs[i].enabled_spec() && rs[i].handles_spec(event)
    &&& forall|j: int| i < j < rs.len() ==> !(rs[j].enabled_spec() && rs[j].handles_spec(event))
}

/// Dispatch window events to multiple receivers.
///
/// Receivers stand in a stack: dispatch starts from the most recently
/// added receiver and walks towards the oldest, so that a recent receiver
/// can mask events for the older ones.
pub struct KEventDispatcher<R: KEventReceiver> {
    /// Receivers, oldest first; dispatch walks them from the end.
    receivers: Vec<R>,
}

impl<R: KEventReceiver> KEventDispatcher<R> {
    /// Well-formed dispatcher: no two receivers share an identity handle.
    /// Constructors establish it and every method preserves it.
    pub open spec fn wf(&self) -> bool {
        forall|i: int, j: int|
            0 <= i < j < self.receivers_view().len() ==> self.receivers_view()[i].id_spec()
                != self.receivers_view()[j].id_spec()
    }

    /// The dispatcher's receivers, oldest first.
    pub closed spec fn receivers_view(&self) -> Seq<R> {
        self.receivers@
    }

    /// Create a new dispatcher without any receiver.
    pub fn new() -> (r: KEventDispatcher<R>)
        ensures
            r.receivers_view() == Seq::<R>::empty(),
            r.wf(),
    {
        let receivers: Vec<R> = Vec::new();
        KEventDispatcher { receivers }
    }

    /// Add a receiver to the dispatcher; it becomes the newest and is
    /// served first.
    ///
    /// Returns `Ok` with the index of the new receiver, or
    /// `Err(ReceiverAlreadyExists)`, the dispatcher unchanged, when a
    /// receiver with the same identity is already in the list.
    pub fn add_receiver(&mut self, receiver: R) -> (r: Result<usize, KWindowError>)
        requires
            old(self).wf(),
        ensures
            final(self).wf(),
            r matches Ok(idx) ==> idx == old(self).receivers_view().len() && final(self).receivers_view() == old(self).receivers_view().push(receiver) && (forall|k: int|
                0 <= k < old(self).receivers_view().len() ==> old(self).receivers_view()[k].id_spec() != receiver.id_spec()),
            r matches Err(e) ==> e == KWindowError::ReceiverAlreadyExists && final(self).receivers_view() == old(self).receivers_view() && (exists|k: int|
                0 <= k < old(self).receivers_view().len() && old(self).receivers_view()[k].id_spec() == receiver.id_spec()),
    {
        match self.get_receiver_index(&receiver) {
            Some(_) => Err(KWindowError::ReceiverAlreadyExists),
            None => {
                let idx = self.receivers.len();
                self.receivers.push(receiver);
                Ok(idx)
            },
        }
    }

    /// Remove a receiver from the dispatcher by identity.
    ///
    /// Returns `Ok` with the index the receiver held, or
    /// `Err(ReceiverNotFound)`, the dispatcher unchanged, when no receiver
    /// with that identity is in the list.
    pub fn remove_receiver(&mut self, receiver: &R) -> (r: Result<usize, KWindowError>)
        requires
            old(self).wf(),
        ensures
            final(self).wf(),
            r matches Ok(idx) ==> 0 <= idx < old(self).receivers_view().len() && old(self).receivers_view()[idx as int].id_spec() == receiver.id_spec() && final(self).receivers_view() == old(self).receivers_view().remove(idx as int),
            r matches Err(e) ==> e == KWindowError::ReceiverNotFound && final(self).receivers_view() == old(self).receivers_view() && (forall|k: int|
                0 <= k < old(self).receivers_view().len() ==> old(self).receivers_view()[k].id_spec() != receiver.id_spec()),
    {
        match self.get_receiver_index(receiver) {
            Some(idx) => {
                self.receivers.remove(idx);
                Ok(idx)
            },
            None => Err(KWindowError::ReceiverNotFound),
        }
    }

    /// Get the count of receivers in the dispatcher.
    pub fn count(&self) -> (r: usize)
        ensures
            r == self.receivers_view().len(),
    {
        self.receivers.len()
    }

    /// Dispatch one event: enabled receivers see it from the newest to
    /// the oldest until one handles it.
    ///
    /// Returns the index of the receiver that handled the event, or
    /// `None` when no enabled receiver handled it.
    pub fn dispatch_event(&self, event: &KEvent) -> (r: Option<usize>)
        ensures
            r matches Some(i) ==> spec_handler_index(self.receivers_view(), *event, i as int),
            r is None ==> forall|j: int|
                0 <= j < self.receivers_view().len() ==> !(
                self.receivers_view()[j].enabled_spec()
                    && self.receivers_view()[j].handles_spec(*event)),
    {
        let n = self.receivers.len();
        let mut k: usize = n;
        while k > 0
            invariant
                k <= n,
                n == self.receivers_view().len(),
                forall|j: int|
                    k <= j < n ==> !(self.receivers_view()[j].enabled_spec()
                        && self.receivers_view()[j].handles_spec(*event)),
            decreases k,
        {
            k = k - 1;
            if self.receivers[k].is_enabled() {
                if self.receivers[k].receive(event) {
                    return Some(k);
                }
            }
        }
        None
    }

    /// Get the index of the receiver with the given identity, if one is
    /// in the list.
    fn get_receiver_index(&self, receiver: &R) -> (r: Option<usize>)
        ensures
            r matches Some(idx) ==> 0 <= idx < self.receivers_view().len()
                && self.receivers_view()[idx as int].id_spec() == receiver.id_spec(),
            r is None ==> forall|k: int|
                0 <= k < self.receivers_view().len() ==> self.receivers_view()[k].id_spec()
                    != receiver.id_spec(),
    {
        let id = receiver.get_id();
        let n = self.receivers.len();
        let mut k: usize = 0;
        while k < n
            invariant
                k <= n,
                n == self.receivers_view().len(),
                id == receiver.id_spec(),
                forall|j: int|
                    0 <= j < k ==> self.receivers_view()[j].id_spec() != receiver.id_spec(),
            decreases n - k,
        {
            if self.receivers[k].get_id() == id {
                return Some(k);
            }
            k = k + 1;
        }
        None
    }
}

} // verus!
