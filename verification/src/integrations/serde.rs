//! Serde utilities: the decisions that deserializers of fixed error codes make.

use vstd::prelude::*;

use crate::bound::{text_order, TextOrder};

verus! {

/// Serde visitor for a static string: it accepts exactly that string.
pub struct MustBeStrVisitor(pub &'static str);

impl MustBeStrVisitor {
    /// Visits a string: `Ok` exactly when it is the expected string.
    pub fn visit_str(&self, v: &str) -> (r: Result<(), ()>)
        ensures
            r is Ok <==> v@ == self.0@,
    {
        if text_order(v, self.0) == TextOrder::Equal {
            Ok(())
        } else {
            Err(())
        }
    }
}

} // verus!
