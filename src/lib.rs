//! A guest-side marshalling layer for a pointer-and-length call boundary.
//!
//! The guest's linear memory is modelled by [`GuestMemory`]. Callers hand in
//! `(address, length)` pairs; the layer turns them into bounds-checked views,
//! validates text, places outputs in storage that is never reclaimed while the
//! host may read it, and delivers diagnostic messages to a host log sink.
pub mod exports;
pub mod fmt;
pub mod host;
pub mod memory;
pub mod text;

pub use exports::{hello, read_big_bytes, read_big_bytes_fixed, HELLO, HELLO_STATUS};
pub use host::HostLog;
pub use memory::{BorrowedView, GuestMemory, MarshalError, Ptr};
pub use text::{view_as_text, Text};
