//! Route-state persistence for a small two-level client-side router.
//!
//! The library holds the pure core of a browser UI that remembers the
//! last-visited page across reloads: the two route enumerations, a codec
//! that turns each route into the canonical string stored in the per-tab
//! session store, and the synchronizer that maps a URL path to the pair of
//! stored slots and back.  All browser glue (rendering, event listeners,
//! the real session store) lives outside the library and hands it plain
//! values.

pub mod laws;
pub mod route;
pub mod strutil;
pub mod sync;
