//! Journal entry record and the severity bit flags that tag it.

use vstd::prelude::*;

verus! {

/// Pseudo-namespace for the severity bit flags of a journal entry.
///
/// Each of the six levels is a single bit, ascending in importance from
/// `DEBUG` to `FATAL`. Severities combine with bitwise OR; a listener or a
/// journal matches an entry when the bitwise AND of the two masks is
/// non-zero, never by equality.
pub struct KJournalEntrySeverity;

impl KJournalEntrySeverity {
    /// Lowest level, for debugging messages.
    pub const DEBUG: u8 = 1;

    /// Messages that fit no other level.
    pub const OTHER: u8 = 2;

    /// Informative messages.
    pub const INFORMATION: u8 = 4;

    /// Warnings that need attention.
    pub const WARNING: u8 = 8;

    /// Errors the program may recover from.
    pub const ERROR: u8 = 16;

    /// Errors the program cannot recover from.
    pub const FATAL: u8 = 32;

    /// Union of every level except `DEBUG`.
    pub const ALL_NO_DEBUG: u8 = 62;

    /// Union of every level, `DEBUG` included.
    pub const ALL_WITH_DEBUG: u8 = 63;
}

/// One journal record: a severity mask, the date and time the record was
/// made, and a text description.
///
/// Entries are pre-allocated by the ring buffer and recycled in place with
/// [`KJournalEntry::update`]; the timestamp refreshes on every recycle.
pub struct KJournalEntry {
    /// Severity of the entry, a mask of [`KJournalEntrySeverity`] bits.
    severity: u8,

    /// Date and time the entry was made.
    date_time: std::time::SystemTime,

    /// Entry description / metadata.
    description: String,
}

impl KJournalEntry {
    /// The entry's severity mask.
    pub closed spec fn sev(&self) -> u8 {
        self.severity
    }

    /// The entry's description text.
    pub closed spec fn desc(&self) -> Seq<char> {
        self.description@
    }

    /// The entry's timestamp.
    pub closed spec fn time(&self) -> std::time::SystemTime {
        self.date_time
    }

    /// Create a new entry from a severity and a description; the date and
    /// time are taken from the clock at the moment of the call.
    pub fn new(severity: u8, description: String) -> (r: KJournalEntry)
        ensures
            r.sev() == severity,
            r.desc() == description@,
    {
        KJournalEntry { severity, date_time: system_time_now(), description }
    }

    /// Recycle the entry in place with a new severity and description; the
    /// date and time refresh to the clock at the moment of the call.
    pub fn update(&mut self, severity: u8, description: String)
        ensures
            final(self).sev() == severity,
            final(self).desc() == description@,
    {
        self.date_time = system_time_now();
        self.severity = severity;
        self.description = description;
    }

    /// Get the entry's severity mask.
    pub fn get_severity(&self) -> (r: u8)
        ensures
            r == self.sev(),
    {
        self.severity
    }

    /// Get the entry's date and time.
    pub fn get_date_time(&self) -> (r: std::time::SystemTime)
        ensures
            r == self.time(),
    {
        self.date_time.clone()
    }

    /// Get the entry's description.
    pub fn get_description(&self) -> (r: &String)
        ensures
            r@ == self.desc(),
    {
        &self.description
    }
}

/// Relies on std::time::SystemTime as the type of timestamps; its values
/// are opaque here and only carried through.
#[verifier::external_type_specification]
#[verifier::external_body]
pub struct ExSystemTime(std::time::SystemTime);

/// Relies on std::time::SystemTime: clone of a Copy type returns the same
/// instant.
pub assume_specification[ <std::time::SystemTime as Clone>::clone ](
    t: &std::time::SystemTime,
) -> (r: std::time::SystemTime)
    ensures
        r == *t,
;

/// Relies on std::time::SystemTime::now for timestamps. The result depends
/// on the clock, so nothing is promised of it.
#[verifier::external_body]
fn system_time_now() -> std::time::SystemTime {
    std::time::SystemTime::now()
}

} // verus!
