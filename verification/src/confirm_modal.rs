//! A confirmation box: a question and whether it was confirmed.
use vstd::prelude::*;
use crate::text::owned;

verus! {

/// A confirmation box with its question and whether it was confirmed.
#[derive(Debug)]
pub struct Modal {
    label: String,
    confirm: bool,
}

impl Default for Modal {
    fn default() -> (r: Modal)
        ensures
            r.label()@.len() == 0,
            !r.confirmed(),
    {
        Modal { label: String::new(), confirm: false }
    }
}

impl Modal {
    /// The question asked.
    pub closed spec fn label(&self) -> String {
        self.label
    }

    /// Whether it was confirmed.
    pub closed spec fn confirmed(&self) -> bool {
        self.confirm
    }

    /// The question, for drawing the box.
    pub fn text(&self) -> (r: String)
        ensures
            r@ == self.label()@,
    {
        owned(self.label.as_str())
    }
}

} // verus!
