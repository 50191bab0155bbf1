//! The statement accumulator.
//!
//! A [`Statement`] pairs the statement text with the ordered list of bind
//! values. Every builder in this crate threads one accumulator through all
//! of its stages, so the placeholder indices written into the text and the
//! positions in the bind list can never drift apart: `push_bind` writes the
//! placeholder for position `len + 1` and appends the value in one step.

use vstd::prelude::*;
use vstd::string::StringExecFns;
use crate::text::{dec_digits, u64_to_string};

verus! {

/// A value bound to a statement positionally, never interpolated into the
/// statement text.
#[derive(Debug)]
pub enum BindValue {
    /// A textual column value.
    Text(String),
    /// An integral value (limits, offsets, sequence keys).
    Int(i64),
    /// A 128-bit surrogate key, as its numeric value.
    Id(u128),
}

/// The placeholder text for bind position `n`: `$n`.
pub open spec fn placeholder(n: nat) -> Seq<char> {
    "$"@ + dec_digits(n)
}

/// A parameterized statement: template text plus the bind values in the
/// order their placeholders appear in the text.
pub struct Statement {
    pub text: String,
    pub binds: Vec<BindValue>,
}

impl Statement {
    /// An empty statement to accumulate into.
    pub fn new() -> (r: Statement)
        ensures
            r.text@ == Seq::<char>::empty(),
            r.binds@ == Seq::<BindValue>::empty(),
    {
        Statement { text: String::new(), binds: Vec::new() }
    }

    /// Appends literal statement text.
    pub fn push(&mut self, s: &str)
        ensures
            final(self).text@ == old(self).text@ + s@,
            final(self).binds@ == old(self).binds@,
    {
        self.text.append(s);
    }

    /// Appends the placeholder for the next bind position and records the
    /// value at that position.
    pub fn push_bind(&mut self, v: BindValue)
        requires
            old(self).binds@.len() < usize::MAX,
        ensures
            final(self).text@ == old(self).text@ + placeholder(old(self).binds@.len() + 1),
            final(self).binds@ == old(self).binds@.push(v),
    {
        self.text.append("$");
        let n: u64 = (self.binds.len() as u64) + 1;
        let digits = u64_to_string(n);
        self.text.append(digits.as_str());
        self.binds.push(v);
    }
}

} // verus!
