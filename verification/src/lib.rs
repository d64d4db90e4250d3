//! Translation of Markdown documents into forum markup (BBCode) dialects.
//!
//! A document is a sequence of [`event::DocEvent`]s.  [`translate`] renders
//! such a sequence in the markup of a [`args::Dialect`]: [`policy`] holds the
//! dialect's snippets, [`raw`] the handling of inline HTML, and [`encoding`]
//! the optional look through the finished output.  [`markdown`] obtains the
//! events from Markdown source text, and [`convert`] joins the two.  What the
//! user is told on the way is a [`diagnostics::Warning`].
//!
//! [`laws`], [`balance`] and [`markers`] state what holds of every
//! translation.

pub mod args;
pub mod balance;
pub mod convert;
pub mod diagnostics;
pub mod encoding;
pub mod event;
pub mod laws;
pub mod markdown;
pub mod markers;
pub mod outside;
pub mod policy;
pub mod raw;
mod snippets;
pub mod text;
pub mod translate;
