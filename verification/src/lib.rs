//! Alias runner core: resolves a named alias to its command templates,
//! distributes caller arguments over the templates by placeholder count,
//! substitutes them positionally, and tracks the sequential execution of
//! the resulting command chain, short-circuiting on the first failure.
//!
//! File I/O, JSON (de)serialization and child-process spawning live outside
//! this crate; everything here is pure logic over plain values.

use vstd::prelude::*;

pub mod binder;
pub mod chain;
pub mod cli;
pub mod index;
pub mod placeholder;
pub mod record;
pub mod store;
pub mod usage;

verus! {

/// An argument-count mismatch: the invocation must supply exactly
/// `required` arguments, and supplied some other number.
#[derive(Debug, Clone, PartialEq, Eq, Structural)]
pub struct ArgCountError {
    pub required: usize,
}

impl ArgCountError {
    /// The user-facing diagnostic, naming the exact required count.
    pub fn message(&self) -> (r: String)
        ensures
            r@ == "Invalid arguments count, please provide exactly "@ + crate::usage::spec_decimal(
                self.required as nat,
            ) + " arguments"@,
    {
        let mut out = String::from_str("Invalid arguments count, please provide exactly ");
        let num = crate::usage::decimal_string(self.required);
        out.append(num.as_str());
        out.append(" arguments");
        out
    }
}

/// Character-for-character string equality.
pub fn str_eq(a: &str, b: &str) -> (r: bool)
    ensures
        r == (a@ == b@),
{
    let sa: String = a.to_owned();
    let sb: String = b.to_owned();
    sa.eq(&sb)
}

} // verus!
