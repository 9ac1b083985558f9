//! Lazy enumeration of a package's reverse dependencies from a paginated
//! registry API.
//!
//! The [`fetcher`] module holds the paginated fetch iterator as a verified
//! state machine; the [`url`] module builds the per-page request URL. All
//! network I/O and JSON decoding happen outside, in whatever drives the
//! state machine.

pub mod fetcher;
pub mod url;
