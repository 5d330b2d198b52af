//! Cheaply shareable, zero-copy sliceable byte buffers for a single ownership
//! domain, together with the cursors they are read and written through.
//!
//! [`Bytes`] is a small handle onto a window of bytes that live in static
//! memory, in an exclusively owned allocation, or in a reference-counted
//! allocation shared with other handles. Handles are sliced, split and
//! shortened without copying, and an allocation goes behind a control block
//! only when a second handle onto it is first asked for.
//!
//! [`Buf`] is the read cursor and [`BufMut`] the write cursor; the [`buf`]
//! module holds the adapters built on them. [`order`] compares byte
//! sequences, and [`fmt`] shows them as text.

pub mod buf;
pub mod bytes;
pub mod fmt;
pub mod order;

pub use crate::buf::Buf;
pub use crate::buf::BufMut;
pub use crate::bytes::Backend;
pub use crate::bytes::Bytes;
