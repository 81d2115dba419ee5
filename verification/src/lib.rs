//! In-process event journal: a bounded, overwrite-when-full log of
//! severity-tagged text entries with a publish/subscribe fan-out to
//! interested listeners, plus the asset-source priority broker and the
//! window event-dispatch stack that surround it.

pub mod journal;

pub mod asset;

pub mod window;
