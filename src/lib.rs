// Cleaning engine of a desktop disk cleaner.
//
// - `stats`: the running totals of a run.
// - `size_text`: byte counts rendered for people (B to TB, two decimals).
// - `pattern`: the glob-lite file-name patterns.
// - `catalog`: each cleaning operation as a fixed list of steps.
// - `engine`: the record of removed files, log lines and totals, with its laws.
// - `run`: the sequencing of one run, one run at a time.
use vstd::prelude::*;

pub mod catalog;
pub mod engine;
pub mod pattern;
pub mod run;
pub mod size_text;
pub mod stats;

verus! {

} // verus!
