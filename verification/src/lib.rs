//! Selecting audio files by a boolean query over their Vorbis comment tags,
//! and editing the tags of the selected files.
//!
//! A query such as `artist =~ "nujabes" && date >= 2003` is split into tokens
//! ([`grammar`]), folded into an expression tree by operator precedence
//! ([`builder`]), and evaluated against the comment block of each candidate
//! file ([`eval`], [`select`]). The values and operators of the language are
//! in [`query`], the catalogue of tag fields in [`tags`], the bulk edits in
//! [`operations`], and what holds of all of them together in [`laws`].
//!
//! The comment block itself is `metaflac`'s: [`comments`] states what this
//! library takes on trust about it.

pub mod builder;
pub mod comments;
pub mod dates;
pub mod eval;
pub mod grammar;
pub mod laws;
pub mod operations;
pub mod parsers;
pub mod query;
pub mod select;
pub mod tags;
pub mod text;
