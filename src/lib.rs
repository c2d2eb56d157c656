//! Media acquisition and normalization for link previews: byte budgets for
//! downloads, MIME type and file name resolution, the decisions around the
//! external media tools, placeholder encoding, the assembly of an attachment
//! record, and the captions made of a page's metadata.

pub mod text;
pub mod media;
pub mod remux;
pub mod placeholder;
pub mod budget;
pub mod resolve;
pub mod assemble;
pub mod caption;
pub mod metadata;
