pub mod descriptor;
pub mod encodings;
pub mod entry;
pub mod glyph_source;
pub mod laws;

pub use descriptor::{FontDescriptor, FontError};
pub use encodings::{BaseEncoding, NamedEncoding};
pub use entry::{EncodingModel, FontEntry, TextEncoding};
pub use glyph_source::{GlyphId, GlyphSource, MapGlyphSource};
