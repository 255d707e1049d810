//! A resettable error-message slot: a flag saying whether an error has
//! occurred and the text of the most recent message.

use vstd::prelude::*;

verus! {

/// Holds the most recent error message and whether an error is outstanding.
pub struct ErrorMessage {
    pub occurred: bool,
    pub content: String,
}

impl ErrorMessage {
    /// An empty slot: no error outstanding, empty message.
    pub fn new() -> (r: Self)
        ensures
            !r.occurred,
            r.content@ == Seq::<char>::empty(),
    {
        Self { occurred: false, content: String::new() }
    }

    /// A slot with an initial message text and no error outstanding.
    pub fn with_initial(value: &str) -> (r: Self)
        ensures
            !r.occurred,
            r.content@ == value@,
    {
        Self { occurred: false, content: value.to_owned() }
    }

    /// Records that an error has occurred; the message text is unchanged.
    pub fn mark_occurred(&mut self)
        ensures
            final(self).occurred,
            final(self).content == old(self).content,
    {
        self.occurred = true;
    }

    /// Whether an error is outstanding.
    pub fn is_occurred(&self) -> (r: bool)
        ensures
            r == self.occurred,
    {
        self.occurred
    }

    /// Clears the outstanding-error flag; the message text is unchanged.
    pub fn clear_mark(&mut self)
        ensures
            !final(self).occurred,
            final(self).content == old(self).content,
    {
        self.occurred = false;
    }

    /// A copy of the current message text.
    pub fn get(&self) -> (r: String)
        ensures
            r@ == self.content@,
    {
        self.content.clone()
    }

    /// Replaces the message text; the outstanding-error flag is unchanged.
    pub fn set(&mut self, value: &str)
        ensures
            final(self).content@ == value@,
            final(self).occurred == old(self).occurred,
    {
        self.content = value.to_owned();
    }
}

} // verus!
