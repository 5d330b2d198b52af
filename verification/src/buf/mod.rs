//! The read cursor, the write cursor, and the adapters built on them.

pub mod buf_impl;
pub mod buf_mut;
pub mod iter;
pub mod limit;
pub mod reader;
pub mod take;
pub mod vec_deque;
pub mod writer;

pub use self::buf_impl::Buf;
pub use self::buf_mut::BufMut;
pub use self::iter::IntoIter;
pub use self::limit::Limit;
pub use self::reader::Reader;
pub use self::take::Take;
pub use self::writer::Writer;
