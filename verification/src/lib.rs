//! The verified core of a command-line JSON-RPC client: the local settings
//! store, the construction of a call and the reading of its reply, and the
//! mapping of each subcommand onto a call.
//!
//! Nothing here touches the disk, the network or the terminal. The program
//! around this library loads the settings table and saves it, posts the
//! request, and shows the lines that the library hands back.

pub mod assoc;
pub mod command;
pub mod db;
pub mod decimal;
pub mod json;
pub mod rpc;
pub mod settings;
pub mod text;

use crate::decimal::{i64_of, parse_i64};
use vstd::prelude::*;

verus! {

/// The verbosity that a text stands for: the number it writes, or 0 where it
/// writes none.
pub open spec fn verbosity_of(raw: Seq<char>) -> i64 {
    match i64_of(raw) {
        Some(level) => level,
        None => 0,
    }
}

/// Reads the verbosity level from its text.
pub fn verbosity(raw: &str) -> (level: i64)
    ensures
        level == verbosity_of(raw@),
{
    match parse_i64(raw) {
        Some(level) => level,
        None => 0,
    }
}

} // verus!
