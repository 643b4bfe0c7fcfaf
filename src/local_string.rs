//! Text shown to players.
use vstd::prelude::*;

verus! {

/// A display name, as it is shown to the player.
#[derive(Debug, PartialEq, Eq)]
pub struct LocalString(String);

impl View for LocalString {
    type V = Seq<char>;

    closed spec fn view(&self) -> Seq<char> {
        self.0@
    }
}

impl LocalString {
    pub fn from_str(s: &str) -> (r: Self)
        ensures
            r@ == s@,
    {
        LocalString(s.to_owned())
    }

    /// The text itself.
    pub fn as_str(&self) -> (r: &str)
        ensures
            r@ == self@,
    {
        self.0.as_str()
    }
}

} // verus!
