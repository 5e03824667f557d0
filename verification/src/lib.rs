//! A size-classed buffer: short sequences live inline in the value, long ones
//! on the heap. The size class is chosen once, at construction, from the
//! length of the content alone.

pub mod buffer;
pub mod class;
pub mod compare;
pub mod convert;
pub mod hashing;
pub mod laws;
pub mod marshal;
pub mod text;

pub use buffer::Str;
pub use class::SizeClass;
pub use text::InvalidUtf8;
pub use text::UTF8;
