//! A version manager for the Hugo binary: resolves which version applies in
//! a directory context (a pin file found by upward search, or the sentinel
//! "system"), derives the on-disk layout `root/versions/<name>/hugo` and the
//! platform- and range-dependent release URL, installs a version idempotently
//! by fetching and extracting its release archive, and chooses the binary an
//! invocation should be handed to.

pub mod fs;
pub mod strutil;
pub mod version;
