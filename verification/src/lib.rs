//! The expansions behind a `#[command]` attribute for command-line programs.
//!
//! A function annotated with `#[command(..)]`, and optionally with one
//! `#[argument("name", ..)]` per parameter, is rewritten into an argument
//! schema, the function itself under an internal name, and a new `main` that
//! parses the process arguments and calls the function with them. This crate
//! computes that rewriting on plain token trees; turning compiler tokens into
//! these trees and back is left to the caller.

pub mod token;
pub mod item;
pub mod options;
pub mod schema;
pub mod builder;
