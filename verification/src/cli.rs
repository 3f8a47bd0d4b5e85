//! The configuration the server starts with. Parsing the command line is
//! the embedding's job; it hands the result over as plain values.

use vstd::prelude::*;

verus! {

/// Startup configuration: the directory holding the game script's entry
/// point, and the TCP port to listen on.
pub struct Args {
    pub module: String,
    pub port: u16,
}

} // verus!
