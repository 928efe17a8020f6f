//! Chained assertions for an assertion-expression framework: the expander
//! behind `expect_inner!`, which turns `crate_path, subject, part, ..., part`
//! into a pipeline of modifier calls ended by one assertion, and ready-made
//! parts for change tracking and mesh attributes.
use vstd::prelude::*;

pub mod change_detection;
pub mod expand;
pub mod mesh;
pub mod parse;
pub mod syntax;
pub mod tokens;

verus! {

} // verus!
