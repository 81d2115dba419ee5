//! Journal interface: severity flags, entries, the circular entry buffer,
//! listeners and the journal facade.

pub use entry::KJournalEntry as KJournalEntry;
pub use entry::KJournalEntrySeverity as KJournalEntrySeverity;
pub use listener::KJournalListener as KJournalListener;
pub use journal::KJournal as KJournal;
pub use listener_print::KJournalListenerPrint as KJournalListenerPrint;

pub mod entry;

pub mod listener;

pub mod journal;

pub mod listener_print;
