//! Tests of the journal entry record.

use std::time::SystemTime;
use olympus_kleio::journal::KJournalEntry;
use olympus_kleio::journal::KJournalEntrySeverity;

/// Create a new journal entry and verify each parameter value, and that
/// the recorded date and time is valid.
#[test]
fn kjournal_entry_new() {
    // Initial variables for comparison.
    let severity = KJournalEntrySeverity::INFORMATION;
    let description = String::from("Entry kjournal_entry_new");

    // Create new entry.
    let j = KJournalEntry::new(severity, description.clone());

    // Verify each parameter value.
    assert!(j.get_severity() == severity, "Error! Created entry severity is different!");
    assert!(j.get_description().eq(&description), "Error! Created entry description is different!");

    // Make sure that system date and time taken is valid.
    match j.get_date_time().duration_since(SystemTime::UNIX_EPOCH) {
        Ok(n) => assert!(n.as_secs() > 0, "Error! Date and time not recorded!"),
        Err(_) => panic!("Error! SystemTime before UNIX EPOCH!"),
    }
}

/// Update a journal entry in place and verify each parameter value, and
/// that the recorded date and time moved forward.
#[test]
fn kjournal_entry_update() {
    // Initial variables for comparison.
    let severity = KJournalEntrySeverity::INFORMATION;
    let description = String::from("Entry kjournal_entry_new");

    // Create new entry.
    let mut j = KJournalEntry::new(severity, description.clone());

    // Copy previous date and time.
    let dt = j.get_date_time().clone();

    // Busy-wait until the clock moved, to get a different system time.
    while SystemTime::now().duration_since(dt).map(|d| d.as_nanos()).unwrap_or(0) == 0 {}

    // Update value and entry.
    let severity = KJournalEntrySeverity::ERROR;
    let description = String::from("Entry updated");
    j.update(severity, description.clone());

    // Verify each parameter value.
    assert!(j.get_severity() == severity, "Error! Updated entry severity is different!");
    assert!(j.get_description().eq(&description), "Error! Updated entry description is different!");

    // Make sure that system date and time taken is valid.
    match j.get_date_time().duration_since(dt) {
        Ok(n) => assert!(n.as_nanos() > 0, "Error! Date and time difference should be higher than 0!"),
        Err(_) => panic!("Error! SystemTime before UNIX EPOCH!"),
    }
}
