//! Small helpers on options and texts.

use vstd::prelude::*;
use vstd::string::*;

verus! {

/// A text, or a default where it is empty.
pub trait StringExt {
    /// `self`, or `dflt` if `self` is empty.
    fn or(self, dflt: &str) -> String;
}

impl StringExt for String {
    fn or(self, dflt: &str) -> (out: String)
        ensures
            out@ == (if self@.len() == 0 {
                dflt@
            } else {
                self@
            }),
    {
        if self.as_str().is_empty() {
            String::from_str(dflt)
        } else {
            self
        }
    }
}

/// What is inside an option of an option: the inner value if both are there.
pub fn flatten_option_ref<T>(nested: Option<&Option<T>>) -> (out: Option<&T>)
    ensures
        out == (match nested {
            Some(Some(inner)) => Some(inner),
            _ => None::<&T>,
        }),
{
    match nested {
        Some(Some(inner)) => Some(inner),
        _ => None,
    }
}

} // verus!
