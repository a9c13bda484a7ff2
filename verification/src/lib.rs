//! A report content pipeline.
//!
//! A raw text document goes through the sanitizer, which takes terminal escape
//! sequences out of it, and through one of two metadata grammars, which part
//! its metadata from its body. The body is rendered as HTML, for the screen or,
//! wrapped in a print document, for a PDF converter. Reports are kept as flat
//! files below one directory, and a tracker tells how far a report has come.
//!
//! The library works on plain values only. Where the file system, a clock or
//! another program is needed, it names the work that is to be done and judges
//! what came of it; doing the work is left to the caller.

pub mod export;
pub mod extract;
pub mod frontmatter;
pub mod metadata;
pub mod progress;
pub mod render;
pub mod sanitize;
pub mod store;
pub mod text;
