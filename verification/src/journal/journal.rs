//! Journal facade, its error enumeration, and the circular entry buffer.

use vstd::prelude::*;
use crate::journal::entry::KJournalEntry;
use crate::journal::entry::KJournalEntrySeverity;
use crate::journal::listener::KJournalListener;
use crate::journal::listener::KJournalListenerList;
use crate::journal::listener::KJournalListenerListError;
use crate::journal::listener::sev_match;
use crate::journal::listener::spec_notify_all;

verus! {

/// Minimum possible buffer size for a journal buffer.
pub const KJOURNAL_BUFFER_MIN: usize = 10;

/// Maximum possible buffer size for a journal buffer.
pub const KJOURNAL_BUFFER_MAX: usize = 65535;

/// Enumeration of possible [`KJournal`] errors.
#[derive(Debug, Clone, Copy, PartialEq, Eq)]
pub enum KJournalError {
    /// Happens when a requested buffer size is smaller than
    /// [`KJOURNAL_BUFFER_MIN`].
    BufferSizeTooSmall,

    /// Happens when a requested buffer size is bigger than
    /// [`KJOURNAL_BUFFER_MAX`].
    BufferSizeTooBig,
}

/// The unread region after one write of severity `sev` and description
/// `desc` into a buffer of capacity `cap` whose unread region is `v`,
/// oldest entry first: the new entry joins at the newest edge, and when the
/// buffer is full the oldest unread entry is evicted, silently.
pub open spec fn spec_buffer_write(
    v: Seq<(u8, Seq<char>)>,
    cap: int,
    sev: u8,
    desc: Seq<char>,
) -> Seq<(u8, Seq<char>)> {
    if v.len() < cap {
        v.push((sev, desc))
    } else {
        v.drop_first().push((sev, desc))
    }
}

/// The unread region after the entries of `es` were written one by one, in
/// order, into a buffer of capacity `cap` whose unread region started as
/// `v`.
pub open spec fn spec_buffer_write_all(
    v: Seq<(u8, Seq<char>)>,
    cap: int,
    es: Seq<(u8, Seq<char>)>,
) -> Seq<(u8, Seq<char>)>
    decreases es.len(),
{
    if es.len() == 0 {
        v
    } else {
        spec_buffer_write_all(
            spec_buffer_write(v, cap, es.first().0, es.first().1),
            cap,
            es.drop_first(),
        )
    }
}

/// A run of writes keeps a sliding window over what was ever written: the
/// unread region afterwards is the newest `cap` entries of the previous
/// region followed by the written ones, whole when they fit, and with the
/// oldest entries evicted when they do not.
pub proof fn lemma_buffer_write_all_window(
    v: Seq<(u8, Seq<char>)>,
    cap: int,
    es: Seq<(u8, Seq<char>)>,
)
    requires
        1 <= cap,
        v.len() <= cap,
    ensures
        spec_buffer_write_all(v, cap, es) =~= (v + es).skip(
            if v.len() + es.len() <= cap {
                0
            } else {
                v.len() + es.len() - cap
            },
        ),
    decreases es.len(),
{
    if es.len() == 0 {
        assert((v + es).skip(0) =~= v);
    } else {
        let e0 = es.first();
        let es1 = es.drop_first();
        let v1 = spec_buffer_write(v, cap, e0.0, e0.1);
        lemma_buffer_write_all_window(v1, cap, es1);
        if v.len() < cap {
            assert(v1 + es1 =~= v + es);
        } else {
            assert(v1 + es1 =~= (v + es).skip(1));
            let d1 = if v1.len() + es1.len() <= cap {
                0
            } else {
                v1.len() + es1.len() - cap
            };
            assert(((v + es).skip(1)).skip(d1) =~= (v + es).skip(1 + d1));
        }
    }
}

/// After exactly `k` writes into an empty buffer, `k` at most the
/// capacity, and no reads, the unread count is `k`.
pub proof fn lemma_unread_after_k_writes(cap: int, es: Seq<(u8, Seq<char>)>)
    requires
        1 <= cap,
        es.len() <= cap,
    ensures
        spec_buffer_write_all(Seq::empty(), cap, es) =~= es,
{
    lemma_buffer_write_all_window(Seq::empty(), cap, es);
    assert(Seq::empty() + es =~= es);
    assert(es.skip(0) =~= es);
}

/// After writing more entries than the capacity into an empty buffer, with
/// no reads, the unread count is the capacity: the oldest surplus entries
/// were evicted, silently, and the newest `cap` remain in order.
pub proof fn lemma_unread_after_overflow(cap: int, es: Seq<(u8, Seq<char>)>)
    requires
        1 <= cap < es.len(),
    ensures
        spec_buffer_write_all(Seq::empty(), cap, es) =~= es.skip(es.len() - cap),
        spec_buffer_write_all(Seq::empty(), cap, es).len() == cap,
{
    lemma_buffer_write_all_window(Seq::empty(), cap, es);
    assert(Seq::empty() + es =~= es);
}

/// Reading right after a write hands back exactly the entry written, and
/// leaves the region that stood before the write, its oldest entry evicted
/// when the buffer was full: the unread region drains from its newest
/// edge.
pub proof fn lemma_write_then_read_newest(
    v: Seq<(u8, Seq<char>)>,
    cap: int,
    sev: u8,
    desc: Seq<char>,
)
    requires
        1 <= cap,
        v.len() <= cap,
    ensures
        spec_buffer_write(v, cap, sev, desc).last() == (sev, desc),
        v.len() < cap ==> spec_buffer_write(v, cap, sev, desc).drop_last() =~= v,
        v.len() == cap ==> spec_buffer_write(v, cap, sev, desc).drop_last() =~= v.drop_first(),
{
}

/// Journal used for logging events and information.
///
/// The journal owns one circular entry buffer and one listener list. Its
/// acceptance mask gates every write: an entry whose severity does not
/// match the mask is neither stored nor broadcast.
pub struct KJournal<L: KJournalListener> {
    /// Name of the journal.
    name: String,

    /// Acceptance mask: severities to log,
    /// [`KJournalEntrySeverity::ALL_WITH_DEBUG`] by default.
    severity: u8,

    /// List of listeners.
    listeners: KJournalListenerList<L>,

    /// Journal entries kept in a circular buffer.
    entries: KJournalBuffer,
}

impl<L: KJournalListener> KJournal<L> {
    /// Well-formed journal: its buffer and its listener list are
    /// well-formed. Constructors establish it and every method preserves
    /// it.
    pub closed spec fn inv(&self) -> bool {
        &&& self.entries.wf()
        &&& self.listeners.wf()
    }

    /// The journal's acceptance mask.
    pub closed spec fn acceptance(&self) -> u8 {
        self.severity
    }

    /// The journal's name.
    pub closed spec fn name_spec(&self) -> Seq<char> {
        self.name@
    }

    /// The unread region of the journal's buffer, oldest entry first.
    pub closed spec fn contents(&self) -> Seq<(u8, Seq<char>)> {
        self.entries.contents()
    }

    /// The capacity of the journal's buffer.
    pub closed spec fn capacity(&self) -> int {
        self.entries.capacity()
    }

    /// The journal's registered listeners, in registration order.
    pub closed spec fn listeners_view(&self) -> Seq<L> {
        self.listeners@
    }

    /// Create a new journal from a name, the severity mask it accepts, and
    /// the maximum count of entries kept (the buffer size).
    ///
    /// Returns `Ok` with the new journal, empty and without listeners, or
    /// propagates the buffer's size error verbatim when `max_entries` is
    /// outside `[KJOURNAL_BUFFER_MIN, KJOURNAL_BUFFER_MAX]`.
    pub fn new(name: &str, severity: u8, max_entries: usize) -> (r: Result<
        KJournal<L>,
        KJournalError,
    >)
        ensures
            r is Ok <==> KJOURNAL_BUFFER_MIN <= max_entries <= KJOURNAL_BUFFER_MAX,
            r matches Ok(j) ==> j.inv() && j.acceptance() == severity && j.name_spec() == name@
                && j.capacity() == max_entries && j.contents().len() == 0 && j.listeners_view()
                == Seq::<L>::empty(),
            max_entries < KJOURNAL_BUFFER_MIN ==> (r matches Err(e) && e
                == KJournalError::BufferSizeTooSmall),
            max_entries > KJOURNAL_BUFFER_MAX ==> (r matches Err(e) && e
                == KJournalError::BufferSizeTooBig),
    {
        match KJournalBuffer::new(max_entries) {
            Ok(buffer) => Ok(
                KJournal {
                    name: name.to_owned(),
                    severity,
                    listeners: KJournalListenerList::new(),
                    entries: buffer,
                },
            ),
            Err(error) => Err(error),
        }
    }

    /// Write a new entry to the journal. When the entry's severity matches
    /// the acceptance mask, the buffer records it (evicting the oldest
    /// unread entry if full) and then every listener whose mask matches is
    /// notified of the stored entry; otherwise the call is a no-op, the
    /// entry neither stored nor broadcast.
    pub fn write(&mut self, severity: u8, description: &str)
        requires
            old(self).inv(),
        ensures
            final(self).inv(),
            final(self).acceptance() == old(self).acceptance(),
            final(self).capacity() == old(self).capacity(),
            !sev_match(old(self).acceptance(), severity) ==> final(self).contents() == old(self).contents() && final(self).listeners_view() == old(self).listeners_view(),
            sev_match(old(self).acceptance(), severity) ==> final(self).contents()
                == spec_buffer_write(
                old(self).contents(),
                old(self).capacity(),
                severity,
                description@,
            ) && (exists|e: KJournalEntry|
                #![auto]
                e.sev() == severity && e.desc() == description@ && final(self).listeners_view()
                    == spec_notify_all(old(self).listeners_view(), e)),
    {
        if self.severity & severity > 0 {
            self.entries.write(severity, description.to_owned());
            let entry = self.entries.peek_latest();
            self.listeners.notify(entry);
            proof {
                let w: KJournalEntry = *entry;
                assert(w.sev() == severity && w.desc() == description@ && self.listeners_view()
                    == spec_notify_all(old(self).listeners_view(), w));
            }
        }
    }

    /// Pop the journal's latest unread entry, or `None` when every entry
    /// was read. Delegates to the buffer, newest entry first.
    pub fn read(&mut self) -> (r: Option<&KJournalEntry>)
        requires
            old(self).inv(),
        ensures
            final(self).inv(),
            final(self).acceptance() == old(self).acceptance(),
            final(self).capacity() == old(self).capacity(),
            final(self).listeners_view() == old(self).listeners_view(),
            old(self).contents().len() == 0 ==> r is None
                && final(self).contents() == old(self).contents(),
            old(self).contents().len() > 0 ==> (r matches Some(e)
                && e.sev() == old(self).contents().last().0
                && e.desc() == old(self).contents().last().1
                && final(self).contents() == old(self).contents().drop_last()),
    {
        self.entries.latest()
    }

    /// Get the count of unread entries.
    pub fn unread(&self) -> (r: usize)
        requires
            self.inv(),
        ensures
            r == self.contents().len(),
    {
        self.entries.unread()
    }

    /// Clear the journal: every pending entry counts as read. Listeners
    /// are left untouched.
    pub fn clear(&mut self)
        requires
            old(self).inv(),
        ensures
            final(self).inv(),
            final(self).acceptance() == old(self).acceptance(),
            final(self).capacity() == old(self).capacity(),
            final(self).listeners_view() == old(self).listeners_view(),
            final(self).contents().len() == 0,
    {
        self.entries.clear();
    }

    /// Add a listener to the journal.
    ///
    /// Returns `Ok` with the index of the new listener, or
    /// `Err(ListenerAlreadyExists)`, the journal unchanged, when a listener
    /// with the same identity is already registered.
    pub fn add_listener(&mut self, listener: L) -> (r: Result<usize, KJournalListenerListError>)
        requires
            old(self).inv(),
        ensures
            final(self).inv(),
            final(self).acceptance() == old(self).acceptance(),
            final(self).capacity() == old(self).capacity(),
            final(self).contents() == old(self).contents(),
            r matches Ok(idx) ==> idx == old(self).listeners_view().len() && final(self).listeners_view() == old(self).listeners_view().push(listener) && (forall|k: int|
                0 <= k < old(self).listeners_view().len() ==> old(self).listeners_view()[k].id_spec()
                    != listener.id_spec()),
            r matches Err(e) ==> e == KJournalListenerListError::ListenerAlreadyExists && final(self).listeners_view() == old(self).listeners_view() && (exists|k: int|
                0 <= k < old(self).listeners_view().len() && old(self).listeners_view()[k].id_spec() == listener.id_spec()),
    {
        self.listeners.add_listener(listener)
    }

    /// Remove a listener from the journal by identity.
    ///
    /// Returns `Ok` with the index the listener held, or
    /// `Err(ListenerNotFound)`, the journal unchanged, when no listener
    /// with that identity is registered.
    pub fn remove_listener(&mut self, listener: &L) -> (r: Result<
        usize,
        KJournalListenerListError,
    >)
        requires
            old(self).inv(),
        ensures
            final(self).inv(),
            final(self).acceptance() == old(self).acceptance(),
            final(self).capacity() == old(self).capacity(),
            final(self).contents() == old(self).contents(),
            r matches Ok(idx) ==> 0 <= idx < old(self).listeners_view().len() && old(self).listeners_view()[idx as int].id_spec() == listener.id_spec() && final(self).listeners_view() == old(self).listeners_view().remove(idx as int),
            r matches Err(e) ==> e == KJournalListenerListError::ListenerNotFound && final(self).listeners_view() == old(self).listeners_view() && (forall|k: int|
                0 <= k < old(self).listeners_view().len() ==> old(self).listeners_view()[k].id_spec() != listener.id_spec()),
    {
        self.listeners.remove_listener(listener)
    }

    /// Set the severity flags to log in the journal: entries whose
    /// severity does not match are ignored and not pushed to listeners.
    /// Takes effect on the next write, not retroactively.
    pub fn set_severity(&mut self, severity: u8)
        requires
            old(self).inv(),
        ensures
            final(self).inv(),
            final(self).acceptance() == severity,
            final(self).capacity() == old(self).capacity(),
            final(self).contents() == old(self).contents(),
            final(self).listeners_view() == old(self).listeners_view(),
    {
        self.severity = severity;
    }

    /// Get the severity flags the journal listens to.
    pub fn get_severity(&self) -> (r: u8)
        ensures
            r == self.acceptance(),
    {
        self.severity
    }

    /// Set the maximum count of entries kept in the journal.
    ///
    /// Returns `Ok` with the new size of the buffer, or the matching size
    /// error, the journal untouched, when `max_entries` is out of bounds.
    /// On success the previous buffer is discarded whole: every previously
    /// stored entry, unread ones included, is lost.
    pub fn set_max_entries(&mut self, max_entries: usize) -> (r: Result<usize, KJournalError>)
        requires
            old(self).inv(),
        ensures
            final(self).inv(),
            final(self).acceptance() == old(self).acceptance(),
            final(self).listeners_view() == old(self).listeners_view(),
            r is Ok <==> KJOURNAL_BUFFER_MIN <= max_entries <= KJOURNAL_BUFFER_MAX,
            r matches Ok(s) ==> s == max_entries && final(self).capacity() == max_entries && final(self).contents().len() == 0,
            r is Err ==> final(self).capacity() == old(self).capacity() && final(self).contents()
                == old(self).contents(),
            max_entries < KJOURNAL_BUFFER_MIN ==> (r matches Err(e) && e
                == KJournalError::BufferSizeTooSmall),
            max_entries > KJOURNAL_BUFFER_MAX ==> (r matches Err(e) && e
                == KJournalError::BufferSizeTooBig),
    {
        match KJournalBuffer::new(max_entries) {
            Ok(buffer) => {
                self.entries = buffer;
                Ok(max_entries)
            },
            Err(error) => Err(error),
        }
    }

    /// Get the buffer size of the journal.
    pub fn get_max_entries(&self) -> (r: usize)
        requires
            self.inv(),
        ensures
            r == self.capacity(),
    {
        self.entries.size()
    }
}

/// Journal circular buffer containing entries.
///
/// The buffer keeps one slot more than the requested capacity, so that
/// `head == tail` always means "empty", never "full". The unread region is
/// the half-open span of slots after `tail` up to and including `head`;
/// reading drains it from its newest edge while eviction on overflow
/// removes from its oldest edge.
pub struct KJournalBuffer {
    /// Entries of the journal, used as a circular buffer.
    entries: Vec<KJournalEntry>,

    /// Length of the entry vector: the requested capacity plus one.
    size: usize,

    /// Head of the circular buffer: the slot of the newest unread entry.
    head: usize,

    /// Tail of the circular buffer: the slot before the oldest unread
    /// entry.
    tail: usize,
}

impl KJournalBuffer {
    /// Well-formed buffer: the entry vector holds one slot more than the
    /// requested capacity, and both cursors point inside it. Constructors
    /// establish it and every method preserves it.
    pub closed spec fn wf(&self) -> bool {
        &&& self.entries@.len() == self.size
        &&& KJOURNAL_BUFFER_MIN + 1 <= self.size <= KJOURNAL_BUFFER_MAX + 1
        &&& self.head < self.size
        &&& self.tail < self.size
    }

    /// The capacity the buffer was requested with: the count of entries it
    /// can hold unread at once, one less than the padded vector length.
    pub closed spec fn capacity(&self) -> int {
        self.size - 1
    }

    /// Count of unread entries, from the distance of `head` past `tail`
    /// around the circle.
    spec fn count(&self) -> int {
        if self.head >= self.tail {
            self.head - self.tail
        } else {
            self.head + self.size - self.tail
        }
    }

    /// Slot of the `k`-th unread entry, oldest first: `tail + 1 + k`,
    /// wrapped around the vector length.
    spec fn slot(&self, k: int) -> int {
        if self.tail + 1 + k < self.size {
            self.tail + 1 + k
        } else {
            self.tail + 1 + k - self.size
        }
    }

    /// The unread region: severity and description of each unread entry,
    /// oldest first.
    pub closed spec fn contents(&self) -> Seq<(u8, Seq<char>)> {
        Seq::new(
            self.count() as nat,
            |k: int| (self.entries@[self.slot(k)].sev(), self.entries@[self.slot(k)].desc()),
        )
    }

    /// Create a new journal circular buffer of the given size.
    ///
    /// Returns `Ok` with the buffer, empty, or the matching size error when
    /// `size` is outside `[KJOURNAL_BUFFER_MIN, KJOURNAL_BUFFER_MAX]`; every
    /// size inside the bounds is accepted.
    pub fn new(size: usize) -> (r: Result<KJournalBuffer, KJournalError>)
        ensures
            r is Ok <==> KJOURNAL_BUFFER_MIN <= size <= KJOURNAL_BUFFER_MAX,
            r matches Ok(b) ==> b.wf() && b.capacity() == size && b.contents().len() == 0,
            size < KJOURNAL_BUFFER_MIN ==> r == Result::<
                KJournalBuffer,
                KJournalError,
            >::Err(KJournalError::BufferSizeTooSmall),
            size > KJOURNAL_BUFFER_MAX ==> r == Result::<
                KJournalBuffer,
                KJournalError,
            >::Err(KJournalError::BufferSizeTooBig),
    {
        if size < KJOURNAL_BUFFER_MIN {
            return Err(KJournalError::BufferSizeTooSmall);
        }
        if size > KJOURNAL_BUFFER_MAX {
            return Err(KJournalError::BufferSizeTooBig);
        }
        // The vector is padded by one slot so that `head == tail` can mean
        // "empty" unambiguously.
        let padded_size = size + 1;
        let mut entries: Vec<KJournalEntry> = Vec::new();
        let mut i: usize = 0;
        while i < padded_size
            invariant
                i <= padded_size,
                entries@.len() == i,
            decreases padded_size - i,
        {
            entries.push(KJournalEntry::new(KJournalEntrySeverity::OTHER, String::new()));
            i = i + 1;
        }
        Ok(KJournalBuffer { entries, size: padded_size, head: 0, tail: 0 })
    }

    /// Get the count of unread entries.
    pub fn unread(&self) -> (r: usize)
        requires
            self.wf(),
        ensures
            r == self.contents().len(),
    {
        if self.head < self.tail {
            self.head + self.size - self.tail
        } else {
            self.head - self.tail
        }
    }

    /// Get the size of the buffer: the capacity it was requested with, not
    /// the padded vector length.
    pub fn size(&self) -> (r: usize)
        requires
            self.wf(),
        ensures
            r == self.capacity(),
    {
        self.size - 1
    }

    /// Clear the buffer: every pending entry counts as read, storage is
    /// left untouched.
    pub fn clear(&mut self)
        requires
            old(self).wf(),
        ensures
            final(self).wf(),
            final(self).capacity() == old(self).capacity(),
            final(self).contents().len() == 0,
    {
        self.tail = self.head;
    }

    /// Write a new entry to the buffer, recycling the slot in place. When
    /// the buffer is full the oldest unread entry is evicted, silently.
    pub fn write(&mut self, severity: u8, description: String)
        requires
            old(self).wf(),
        ensures
            final(self).wf(),
            final(self).capacity() == old(self).capacity(),
            final(self).contents() == spec_buffer_write(
                old(self).contents(),
                old(self).capacity(),
                severity,
                description@,
            ),
    {
        self.inc_head();
        let h = self.head;
        self.entries[h].update(severity, description);
        proof {
            assert(self.contents() =~~= spec_buffer_write(
                old(self).contents(),
                old(self).capacity(),
                severity,
                description@,
            ));
        }
    }

    /// Get the latest unread entry in the buffer, or `None` when every
    /// entry was read. Reading drains the unread region from its newest
    /// edge: the most recently written entry comes out first.
    pub fn latest(&mut self) -> (r: Option<&KJournalEntry>)
        requires
            old(self).wf(),
        ensures
            final(self).wf(),
            final(self).capacity() == old(self).capacity(),
            old(self).contents().len() == 0 ==> r is None
                && final(self).contents() == old(self).contents(),
            old(self).contents().len() > 0 ==> (r matches Some(e)
                && e.sev() == old(self).contents().last().0
                && e.desc() == old(self).contents().last().1
                && final(self).contents() == old(self).contents().drop_last()),
    {
        if self.head == self.tail {
            None
        } else {
            let current = self.head;
            self.dec_head();
            proof {
                assert(self.contents() =~~= old(self).contents().drop_last());
            }
            Some(&self.entries[current])
        }
    }

    /// Get the newest unread entry without reading it.
    pub(crate) fn peek_latest(&self) -> (r: &KJournalEntry)
        requires
            self.wf(),
            self.contents().len() > 0,
        ensures
            r.sev() == self.contents().last().0,
            r.desc() == self.contents().last().1,
    {
        &self.entries[self.head]
    }

    /// Increment `head`, wrapping at the vector length; when it catches
    /// `tail`, the buffer was full: push `tail` too, evicting the oldest
    /// unread entry.
    fn inc_head(&mut self)
        requires
            old(self).wf(),
        ensures
            final(self).wf(),
            final(self).entries == old(self).entries,
            final(self).size == old(self).size,
            final(self).head as int == (if old(self).head + 1 < old(self).size {
                old(self).head + 1
            } else {
                0
            }),
            final(self).tail as int == (if final(self).head == old(self).tail {
                if old(self).tail + 1 < old(self).size {
                    old(self).tail + 1
                } else {
                    0
                }
            } else {
                old(self).tail as int
            }),
    {
        if self.head + 1 < self.size {
            self.head = self.head + 1;
        } else {
            self.head = 0;
        }
        if self.head == self.tail {
            self.push_tail();
        }
    }

    /// Decrement `head`, wrapping below zero to the end of the vector;
    /// happens when an entry is read.
    fn dec_head(&mut self)
        requires
            old(self).wf(),
        ensures
            final(self).wf(),
            final(self).entries == old(self).entries,
            final(self).size == old(self).size,
            final(self).tail == old(self).tail,
            final(self).head as int == (if old(self).head >= 1 {
                old(self).head - 1
            } else {
                old(self).size - 1
            }),
    {
        if self.head >= 1 {
            self.head = self.head - 1;
        } else {
            self.head = self.size - 1;
        }
    }

    /// Push `tail` one slot forward, wrapping at the vector length; happens
    /// when `head` catches `tail`.
    fn push_tail(&mut self)
        requires
            old(self).wf(),
        ensures
            final(self).wf(),
            final(self).entries == old(self).entries,
            final(self).size == old(self).size,
            final(self).head == old(self).head,
            final(self).tail as int == (if old(self).tail + 1 < old(self).size {
                old(self).tail + 1
            } else {
                0
            }),
    {
        if self.tail + 1 < self.size {
            self.tail = self.tail + 1;
        } else {
            self.tail = 0;
        }
    }
}

} // verus!
