//! Widgets of the immediate-mode UI kit, as far as their state goes.

use vstd::prelude::*;

verus! {

/// A labelled text field.
pub struct Input {
    content: String,
    prompt: String,
}

impl Input {
    /// The text typed so far.
    pub closed spec fn content(&self) -> Seq<char> {
        self.content@
    }

    /// The label shown before the field.
    pub closed spec fn prompt(&self) -> Seq<char> {
        self.prompt@
    }

    /// An empty field with the given label.
    pub fn new(prompt: &str) -> (r: Self)
        ensures
            r.content() == Seq::<char>::empty(),
            r.prompt() == prompt@,
    {
        Input { content: String::new(), prompt: prompt.to_string() }
    }

    /// The text typed so far.
    pub fn text(&self) -> (r: String)
        ensures
            r@ == self.content(),
    {
        self.content.clone()
    }
}

} // verus!
