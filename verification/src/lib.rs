//! Backend logic for a desktop speech-transcription tool.
//!
//! The library holds every decision the tool makes: resolving where the
//! recognition model lives, judging an HTTP download status, locating the
//! external transcription binary, building its argument list, filtering its
//! diagnostic output, and turning every outcome into a uniform result record.
//! All filesystem, network and process work happens outside the library,
//! which receives plain values (paths, flags, captured output) and returns
//! plain values.

use vstd::prelude::*;

pub mod filter;
pub mod locate;
pub mod model;
pub mod numbers;
pub mod report;
pub mod text;
pub mod transcribe;

verus! {

/// Greeting shown by the user interface while wiring is tested.
pub fn greet(name: &str) -> (r: String)
    ensures
        r@ == "Hello, "@ + name@ + "! You've been greeted from Rust!"@,
{
    let mut s = String::from_str("Hello, ");
    s.append(name);
    s.append("! You've been greeted from Rust!");
    s
}

} // verus!
