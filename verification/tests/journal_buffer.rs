//! Tests of the journal circular buffer.

use olympus_kleio::journal::KJournalEntry;
use olympus_kleio::journal::KJournalEntrySeverity;
use olympus_kleio::journal::journal::KJournalBuffer;
use olympus_kleio::journal::journal::KJOURNAL_BUFFER_MAX;
use olympus_kleio::journal::journal::KJOURNAL_BUFFER_MIN;

/// Used test buffer size. Is padded in functions that use it to make sure
/// it is between MIN and MAX.
const KJOURNAL_BUFFER_TEST_SIZE: usize = 250;

/// Create a new instance of KJournalBuffer with a size in the middle of
/// KJOURNAL_BUFFER_MIN and KJOURNAL_BUFFER_MAX.
#[test]
fn buffer_kjournal_buffer_new() {
    // Used test buffer size is KJOURNAL_BUFFER_TEST_SIZE, clamped to the bounds.
    let buffer_size: usize =
        std::cmp::min(std::cmp::max(KJOURNAL_BUFFER_TEST_SIZE, KJOURNAL_BUFFER_MIN), KJOURNAL_BUFFER_MAX);

    // KJournalBuffer::new(buffer_size) created without error.
    let _ = KJournalBuffer::new(buffer_size).unwrap();
}

/// Create a new instance of KJournalBuffer with the minimal allowed size.
#[test]
fn kjournal_buffer_new_min() {
    // KJournalBuffer::new(KJOURNAL_BUFFER_MIN) created without error.
    let _ = KJournalBuffer::new(KJOURNAL_BUFFER_MIN).unwrap();
}

/// Create a new instance of KJournalBuffer with the maximum allowed size.
#[test]
fn kjournal_buffer_new_max() {
    // KJournalBuffer::new(KJOURNAL_BUFFER_MAX) created without error.
    let _ = KJournalBuffer::new(KJOURNAL_BUFFER_MAX).unwrap();
}

/// Create a new instance of KJournalBuffer with a size below the allowed
/// minimum.
#[test]
#[should_panic]
fn kjournal_buffer_new_below_min() {
    // KJournalBuffer::new(KJOURNAL_BUFFER_MIN - 1) should fail.
    let _ = KJournalBuffer::new(KJOURNAL_BUFFER_MIN - 1).unwrap();
}

/// Create a new instance of KJournalBuffer with a size above the allowed
/// maximum.
#[test]
#[should_panic]
fn kjournal_buffer_new_above_max() {
    // KJournalBuffer::new(KJOURNAL_BUFFER_MAX + 1) should fail.
    let _ = KJournalBuffer::new(KJOURNAL_BUFFER_MAX + 1).unwrap();
}

/// Verify the size of the KJournalBuffer created.
#[test]
fn buffer_kjournal_buffer_size() {
    let buffer_size: usize =
        std::cmp::min(std::cmp::max(KJOURNAL_BUFFER_TEST_SIZE, KJOURNAL_BUFFER_MIN), KJOURNAL_BUFFER_MAX);

    // KJournalBuffer::size() should be equal to the created size.
    let kb = KJournalBuffer::new(buffer_size).unwrap();
    assert!(kb.size() == buffer_size, "KJournalBuffer::size() is incorrect!");
}

/// Verify that KJournalBuffer::latest() returns None when no entries.
#[test]
fn kjournal_buffer_latest_none() {
    let buffer_size: usize =
        std::cmp::min(std::cmp::max(KJOURNAL_BUFFER_TEST_SIZE, KJOURNAL_BUFFER_MIN), KJOURNAL_BUFFER_MAX);

    let mut kb = KJournalBuffer::new(buffer_size).unwrap();

    // KJournalBuffer::latest() returns None when empty.
    match kb.latest() {
        Some(_) => assert!(false, "KJournalBuffer::latest() should give None when empty!"),
        None => {},
    }
}

/// Verify writing entries into the buffer, far past its capacity, and
/// retrieving them in order, latest to oldest.
#[test]
fn buffer_kjournal_buffer_write() {
    let buffer_size: usize =
        std::cmp::min(std::cmp::max(KJOURNAL_BUFFER_TEST_SIZE, KJOURNAL_BUFFER_MIN), KJOURNAL_BUFFER_MAX);
    let mut kb = KJournalBuffer::new(buffer_size).unwrap();

    // KJournalBuffer::write() writes an entry into the buffer.
    kb.write(KJournalEntrySeverity::DEBUG, "Debug entry".to_owned());

    // The entry created is verified.
    verify_journal_entry(kb.latest(), KJournalEntrySeverity::DEBUG, &"Debug entry".to_owned());

    // Write multiple different entries, more than the buffer capacity.
    for _ in 0..(KJOURNAL_BUFFER_MAX + 5) {
        kb.write(KJournalEntrySeverity::DEBUG, "Debug entry".to_owned());
        kb.write(KJournalEntrySeverity::OTHER, "Other entry".to_owned());
        kb.write(KJournalEntrySeverity::INFORMATION, "Information entry".to_owned());
        kb.write(KJournalEntrySeverity::WARNING, "Warning entry".to_owned());
        kb.write(KJournalEntrySeverity::ERROR, "Error entry".to_owned());
        kb.write(KJournalEntrySeverity::FATAL, "Fatal entry".to_owned());
    }

    // Retrieve and verify the entries in correct order, latest to oldest.
    verify_journal_entry(kb.latest(), KJournalEntrySeverity::FATAL, &"Fatal entry".to_owned());
    verify_journal_entry(kb.latest(), KJournalEntrySeverity::ERROR, &"Error entry".to_owned());
    verify_journal_entry(kb.latest(), KJournalEntrySeverity::WARNING, &"Warning entry".to_owned());
    verify_journal_entry(kb.latest(), KJournalEntrySeverity::INFORMATION, &"Information entry".to_owned());
    verify_journal_entry(kb.latest(), KJournalEntrySeverity::OTHER, &"Other entry".to_owned());
    verify_journal_entry(kb.latest(), KJournalEntrySeverity::DEBUG, &"Debug entry".to_owned());
}

/// Verify that the buffer unread count is accurate through writes, reads,
/// overflow and clear.
#[test]
fn buffer_kjournal_buffer_unread() {
    let buffer_size: usize =
        std::cmp::min(std::cmp::max(KJOURNAL_BUFFER_TEST_SIZE, KJOURNAL_BUFFER_MIN), KJOURNAL_BUFFER_MAX);

    let mut kb = KJournalBuffer::new(buffer_size).unwrap();

    // KJournalBuffer::unread() initial count must be 0.
    assert!(kb.unread() == 0, "Unread ({}) count incorrect! Should be {}!", kb.unread(), 0);

    // Write a debug entry.
    kb.write(KJournalEntrySeverity::DEBUG, "Debug entry".to_owned());

    // KJournalBuffer::unread() count must be 1 after writing an entry.
    assert!(kb.unread() == 1, "Unread ({}) count incorrect! Should be {}!", kb.unread(), 1);

    // Get latest.
    kb.latest();

    // KJournalBuffer::unread() should go back to 0 after reading the entry.
    assert!(kb.unread() == 0, "Unread ({}) count incorrect! Should be {}!", kb.unread(), 0);

    // Write a bunch of entries, more than the buffer capacity.
    for _ in 0..(KJOURNAL_BUFFER_MAX + 5) {
        kb.write(KJournalEntrySeverity::DEBUG, "Debug entry".to_owned());
        kb.write(KJournalEntrySeverity::OTHER, "Other entry".to_owned());
        kb.write(KJournalEntrySeverity::INFORMATION, "Information entry".to_owned());
        kb.write(KJournalEntrySeverity::WARNING, "Warning entry".to_owned());
        kb.write(KJournalEntrySeverity::ERROR, "Error entry".to_owned());
        kb.write(KJournalEntrySeverity::FATAL, "Fatal entry".to_owned());
    }

    // KJournalBuffer::unread() count should be buffer_size once full.
    assert!(kb.unread() == kb.size(), "Unread ({}) count incorrect! Should be {}!", kb.unread(), buffer_size);

    // Get latest.
    kb.latest();

    // KJournalBuffer::unread() count should be buffer_size - 1 once an entry is read.
    assert!(kb.unread() == kb.size() - 1, "Unread ({}) count incorrect! Should be {}!", kb.unread(), buffer_size - 1);

    let entries_read = buffer_size / 2;
    // Read another buffer_size / 2 entries.
    for _ in 0..entries_read {
        kb.latest();
    }

    // KJournalBuffer::unread() count should have shrunk by as much.
    assert!(
        kb.unread() == kb.size() - entries_read - 1,
        "Unread ({}) count incorrect! Should be {}!",
        kb.unread(),
        buffer_size - entries_read - 1
    );

    // KJournalBuffer::clear() should clear the buffer without error.
    kb.clear();

    // KJournalBuffer::unread() count must be 0 after clear().
    assert!(kb.unread() == 0, "Unread ({}) count incorrect! Should be {}!", kb.unread(), 0);
}

/// Verify a journal entry. Will panic if the entry verification failed.
fn verify_journal_entry(entry: Option<&KJournalEntry>, severity: u8, desc: &String) {
    match entry {
        Some(entry) => {
            assert!(
                entry.get_severity() == severity,
                "New entry severity incorrect. {} != {}!",
                entry.get_severity(),
                severity
            );
            assert!(entry.get_description().eq(desc), "New entry description incorrect!");
            match entry.get_date_time().elapsed() {
                // Elapsed should be really small.
                Ok(elapsed) => assert!(elapsed.as_millis() <= 1000, "New entry date and time incorrect!"),
                Err(_) => assert!(false, "New entry date and time incorrect!"),
            }
        },
        None => assert!(false, "Journal entry write failed!"),
    }
}
