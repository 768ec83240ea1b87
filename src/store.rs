//! The single slot that holds the most recently submitted code.

use vstd::prelude::*;

verus! {

/// The last code submitted over either transport. Callers that share one
/// store between tasks wrap it in a lock and hold that lock only for the
/// duration of one `set` or `get`.
pub struct CodeStore {
    code: String,
}

impl View for CodeStore {
    type V = Seq<char>;

    closed spec fn view(&self) -> Seq<char> {
        self.code@
    }
}

impl CodeStore {
    /// A store that holds the empty string, as on start-up.
    pub fn new() -> (r: CodeStore)
        ensures
            r@ == Seq::<char>::empty(),
    {
        CodeStore { code: String::new() }
    }

    /// Replaces the stored code.
    pub fn set(&mut self, value: String)
        ensures
            final(self)@ == value@,
    {
        self.code = value;
    }

    /// A copy of the stored code.
    pub fn get(&self) -> (r: String)
        ensures
            r@ == self@,
    {
        self.code.clone()
    }
}

} // verus!
