//! A uniform, read-only view of a byte blob stored on local disk or in a
//! remote object store, backed by a content-addressed local cache.
//!
//! The verified part of the crate holds the decisions: which provider an
//! identifier names and which options it needs, where its cache directory
//! lies, which cached versions are stale, and the bounded fetch state machine
//! that reconciles a remote object with the cache.
use vstd::prelude::*;

pub mod cache;
pub mod cloud;
pub mod err;
pub mod laws;
pub mod location;

pub use cache::{
    content_file_name, is_stale_entry, stale_entries, starts_with, Event, Fetch, GetReply,
    HeadReply, Outcome, Phase, MAX_ATTEMPTS,
};
pub use cloud::{parsed_untyped_config, store_plan, CloudOptions};
pub use err::{err_missing_configuration, err_missing_feature, obstinate_err, ObstacleError};
pub use location::{
    cache_dir_components, resolve_source, scheme_lookup, trim_leading_slashes, CloudLocation,
    CloudType, Source,
};
pub use object_store::ClientConfigKey;

verus! {

} // verus!
