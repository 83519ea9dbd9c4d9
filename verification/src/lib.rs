use vstd::prelude::*;

pub mod text;
pub mod formatting;
pub mod markdown;
pub mod palette;
pub mod tools;
pub mod format;
pub mod pdf;
pub mod parse;
pub mod kanban;
pub mod clipboard;
pub mod regex;
pub mod json;
pub mod base64;
pub mod password;
pub mod image;
pub mod csv;
pub mod scratch;
pub mod diff;
pub mod shell;
pub mod mdpdf;
pub mod history;
pub mod counter;
pub mod preview;
pub mod shortcuts;
pub mod cheatsheet;

verus! {
} // verus!
