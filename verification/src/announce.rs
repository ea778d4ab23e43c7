//! The per-turn announcement slot: a single-assignment text cell attached to
//! the acting bot.  Only the first write of a turn takes effect; later writes
//! are silently discarded.  The slot starts empty on every turn.

use vstd::prelude::*;

verus! {

/// The text a stored announcement denotes, if any.
pub open spec fn text_view(t: Option<String>) -> Option<Seq<char>> {
    match t {
        Some(s) => Some(s@),
        None => None,
    }
}

/// What one call of `announce` leaves in a slot: the new text if the slot
/// was empty, the old text otherwise.
pub open spec fn announce_spec(slot: Option<Seq<char>>, text: Seq<char>) -> Option<Seq<char>> {
    match slot {
        None => Some(text),
        Some(t) => Some(t),
    }
}

/// Write-once law: in one turn the first announcement wins.  Announcing `a`
/// into a fresh slot and then announcing `b` leaves `a` stored, and a fresh
/// slot holds nothing until the first announcement.
pub proof fn lemma_announce_write_once(a: Seq<char>, b: Seq<char>)
    ensures
        announce_spec(announce_spec(None, a), b) == Some(a),
        announce_spec(None, a) == Some(a),
{
}

/// A write-once announcement cell.
#[derive(Debug)]
pub struct Announcement {
    text: Option<String>,
}

impl View for Announcement {
    type V = Option<Seq<char>>;

    /// A slot denotes its stored text, if any.
    closed spec fn view(&self) -> Option<Seq<char>> {
        text_view(self.text)
    }
}

impl Announcement {
    /// A fresh, empty slot, as every turn begins with.
    pub fn new() -> (r: Announcement)
        ensures
            r@ is None,
    {
        Announcement { text: None }
    }

    /// Stores `text` if and only if nothing has been stored yet; otherwise a
    /// no-op (not an error).
    pub fn announce(&mut self, text: String)
        ensures
            final(self)@ == announce_spec(old(self)@, text@),
    {
        if self.text.is_none() {
            self.text = Some(text);
        }
    }

    /// The stored text, or `"none"` if nothing has been announced.
    pub fn read(&self) -> (r: &str)
        ensures
            self@ is Some ==> r@ == self@->0,
            self@ is None ==> r@ == "none"@,
    {
        match &self.text {
            Some(t) => t.as_str(),
            None => "none",
        }
    }

    /// Gives up the slot, yielding the stored text for the dispatcher to
    /// hand back to the host.
    pub fn into_text(self) -> (r: Option<String>)
        ensures
            text_view(r) == self@,
    {
        self.text
    }
}

} // verus!
