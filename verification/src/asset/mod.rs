//! Asset manager: the source capability trait and the priority broker that
//! supplies assets from an ordered set of sources.

pub use broker::KAssetBroker as KAssetBroker;
pub use broker::KAssetSource as KAssetSource;

pub mod broker;
