//! Tests of the journal circular buffer through its facade-level usage.

use olympus_kleio::journal::KJournalEntrySeverity;
use olympus_kleio::journal::journal::KJournalBuffer;

/// Create a new instance of KJournalBuffer.
#[test]
fn journal_kjournal_buffer_new() {
    let _ = KJournalBuffer::new(50);
}

/// Test KJournalBuffer::size().
#[test]
fn journal_kjournal_buffer_size() {
    let size: usize = 250;
    let kb = KJournalBuffer::new(size).unwrap();

    assert!(kb.size() == size, "KJournalBuffer::size() is incorrect!");
}

/// Test writing an entry to a journal buffer.
#[test]
fn journal_kjournal_buffer_write() {
    let mut kb = KJournalBuffer::new(50).unwrap();

    kb.write(KJournalEntrySeverity::INFORMATION, "Information entry".to_owned());

    assert!(kb.unread() == 1);
    let entry = kb.latest().expect("An entry was written!");
    assert!(entry.get_severity() == KJournalEntrySeverity::INFORMATION);
    assert!(entry.get_description().eq(&"Information entry".to_owned()));
}

/// Test getting the latest entries of a journal buffer: reading drains in
/// strict last-in-first-out order.
#[test]
fn kjournal_buffer_latest() {
    let mut kb = KJournalBuffer::new(50).unwrap();

    // Write severities and texts in order.
    kb.write(KJournalEntrySeverity::DEBUG, "A".to_owned());
    kb.write(KJournalEntrySeverity::WARNING, "B".to_owned());
    kb.write(KJournalEntrySeverity::ERROR, "C".to_owned());

    // Reading three times yields them newest first.
    let e = kb.latest().expect("Three entries are unread!");
    assert!(e.get_severity() == KJournalEntrySeverity::ERROR);
    assert!(e.get_description().eq(&"C".to_owned()));

    let e = kb.latest().expect("Two entries are unread!");
    assert!(e.get_severity() == KJournalEntrySeverity::WARNING);
    assert!(e.get_description().eq(&"B".to_owned()));

    let e = kb.latest().expect("One entry is unread!");
    assert!(e.get_severity() == KJournalEntrySeverity::DEBUG);
    assert!(e.get_description().eq(&"A".to_owned()));

    // Then nothing is left.
    assert!(kb.latest().is_none());
}

/// Test getting the count of unread entries.
#[test]
fn journal_kjournal_buffer_unread() {
    let mut kb = KJournalBuffer::new(50).unwrap();

    assert!(kb.unread() == 0);

    for i in 0..20 {
        kb.write(KJournalEntrySeverity::OTHER, "Other entry".to_owned());
        assert!(kb.unread() == i + 1);
    }

    kb.latest();
    assert!(kb.unread() == 19);
}

/// Test clearing the buffer: unread() becomes 0 and latest() returns None
/// regardless of prior content.
#[test]
fn kjournal_buffer_clear() {
    let mut kb = KJournalBuffer::new(50).unwrap();

    for _ in 0..75 {
        kb.write(KJournalEntrySeverity::FATAL, "Fatal entry".to_owned());
    }
    assert!(kb.unread() == 50);

    kb.clear();

    assert!(kb.unread() == 0);
    assert!(kb.latest().is_none());
}

/// Stress test the buffer: many sizes, fill far past capacity, drain to
/// the end, repeatedly.
#[test]
fn journal_kjournal_buffer_stress() {
    for buffer_size in [10usize, 11, 50, 251, 1024] {
        let mut kb = KJournalBuffer::new(buffer_size).unwrap();

        assert!(kb.unread() == 0);

        // Fill the buffer far past its capacity.
        for _ in 0..buffer_size + 5 {
            kb.write(KJournalEntrySeverity::DEBUG, "Debug entry".to_owned());
            kb.write(KJournalEntrySeverity::OTHER, "Other entry".to_owned());
            kb.write(KJournalEntrySeverity::INFORMATION, "Information entry".to_owned());
            kb.write(KJournalEntrySeverity::WARNING, "Warning entry".to_owned());
            kb.write(KJournalEntrySeverity::ERROR, "Error entry".to_owned());
            kb.write(KJournalEntrySeverity::FATAL, "Fatal entry".to_owned());
        }

        assert!(kb.unread() == buffer_size);

        // Verify the six latest entries.
        assert!(kb.latest().unwrap().get_severity() == KJournalEntrySeverity::FATAL);
        assert!(kb.latest().unwrap().get_severity() == KJournalEntrySeverity::ERROR);
        assert!(kb.latest().unwrap().get_severity() == KJournalEntrySeverity::WARNING);
        assert!(kb.latest().unwrap().get_severity() == KJournalEntrySeverity::INFORMATION);
        assert!(kb.latest().unwrap().get_severity() == KJournalEntrySeverity::OTHER);
        assert!(kb.latest().unwrap().get_severity() == KJournalEntrySeverity::DEBUG);

        assert!(kb.unread() == buffer_size - 6);

        // Read each entry until None is returned.
        let mut reads: usize = 0;
        while kb.latest().is_some() {
            reads += 1;
            assert!(reads <= buffer_size, "None never reached while reading entries!");
        }

        assert!(kb.unread() == 0);
    }
}
