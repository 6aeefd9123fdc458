//! What a caller hands in.

use vstd::prelude::*;

verus! {

/// A question, as a caller submits it.
#[derive(Debug)]
pub struct Prompt {
    pub prompt: String,
}

impl View for Prompt {
    type V = Seq<char>;

    open spec fn view(&self) -> Seq<char> {
        self.prompt@
    }
}

} // verus!
