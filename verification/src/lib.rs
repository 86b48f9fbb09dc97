//! Raw text between the recognized nodes of a tag-based language that is
//! embedded in Rust tokens: finding it, telling it what surrounds it, and
//! recovering the text as it was written.

pub mod cursor;
pub mod node;
pub mod raw_text;
pub mod span;
pub mod stream;
pub mod text;

pub use cursor::ParseError;
pub use cursor::TokenCursor;
pub use node::Node;
pub use raw_text::RawText;
