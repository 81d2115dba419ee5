//! Listener implementation that prints new entries to the console.

use std::io::Write;
use vstd::prelude::*;
use crate::journal::entry::KJournalEntry;
use crate::journal::entry::KJournalEntrySeverity;
use crate::journal::listener::KJournalListener;

verus! {

/// The console symbol for a severity mask: the level's name when the mask
/// is a single predefined level, a catch-all word otherwise.
pub open spec fn spec_severity_symbol(severity: u8) -> Seq<char> {
    if severity == KJournalEntrySeverity::DEBUG {
        "DEBUG"@
    } else if severity == KJournalEntrySeverity::OTHER {
        "OTHER"@
    } else if severity == KJournalEntrySeverity::INFORMATION {
        "INFORMATION"@
    } else if severity == KJournalEntrySeverity::WARNING {
        "WARNING"@
    } else if severity == KJournalEntrySeverity::ERROR {
        "ERROR"@
    } else if severity == KJournalEntrySeverity::FATAL {
        "FATAL"@
    } else {
        "MULTIPLE"@
    }
}

/// Get the console symbol printed for a severity mask.
pub fn get_severity_symbol(severity: u8) -> (r: &'static str)
    ensures
        r@ == spec_severity_symbol(severity),
{
    if severity == KJournalEntrySeverity::DEBUG {
        "DEBUG"
    } else if severity == KJournalEntrySeverity::OTHER {
        "OTHER"
    } else if severity == KJournalEntrySeverity::INFORMATION {
        "INFORMATION"
    } else if severity == KJournalEntrySeverity::WARNING {
        "WARNING"
    } else if severity == KJournalEntrySeverity::ERROR {
        "ERROR"
    } else if severity == KJournalEntrySeverity::FATAL {
        "FATAL"
    } else {
        "MULTIPLE"
    }
}

/// Implementation of [`KJournalListener`] that prints each notified entry
/// to the console.
pub struct KJournalListenerPrint {
    /// Severities to be printed.
    severity: u8,

    /// Identity handle of this listener.
    id: u64,
}

impl KJournalListenerPrint {
    /// Create a new print listener from the severity mask of the entries
    /// to print and its identity handle.
    pub fn new(severity: u8, id: u64) -> (r: KJournalListenerPrint)
        ensures
            r.severity_spec() == severity,
            r.id_spec() == id,
    {
        KJournalListenerPrint { severity, id }
    }
}

impl KJournalListener for KJournalListenerPrint {
    closed spec fn severity_spec(&self) -> u8 {
        self.severity
    }

    closed spec fn id_spec(&self) -> u64 {
        self.id
    }

    /// Printing changes nothing in the listener itself.
    closed spec fn notified_spec(&self, entry: KJournalEntry) -> Self {
        *self
    }

    fn notify(&mut self, entry: &KJournalEntry) {
        let symbol = get_severity_symbol(entry.get_severity());
        print_entry_line(symbol, &entry.get_date_time(), entry.get_description());
    }

    fn set_severity(&mut self, severity: u8) {
        self.severity = severity;
    }

    fn get_severity(&self) -> (r: u8) {
        self.severity
    }

    fn get_id(&self) -> (r: u64) {
        self.id
    }
}

/// Relies on std::io::Stdout::write_fmt, through writeln, to print one
/// line for a notified entry on the console.
#[verifier::external_body]
fn print_entry_line(symbol: &str, date_time: &std::time::SystemTime, description: &String) {
    let _ = writeln!(std::io::stdout(), "[{} {:?}] {}", symbol, date_time, description);
}

} // verus!
