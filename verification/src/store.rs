//! The shared message store: an insertion-ordered sequence of immutable text
//! messages.
//!
//! The store is modelled as a sequence of character sequences. Appends add
//! at the end and report the new element's position, `clear` empties the
//! store, `snapshot` copies the whole sequence, and `lookup` reads one
//! position, with an absent result (not an error) when the position is out
//! of range.
//!
//! All four operations must be run under one exclusive lock when the store
//! is shared by concurrent handlers (the embedding program provides the
//! lock); each operation's contract then describes exactly the atomic state
//! change a reader may observe.

use vstd::prelude::*;

verus! {

/// An insertion-ordered container of text messages.
pub struct MessageStore {
    messages: Vec<String>,
}

impl View for MessageStore {
    type V = Seq<Seq<char>>;

    closed spec fn view(&self) -> Seq<Seq<char>> {
        self.messages.deep_view()
    }
}

impl MessageStore {
    /// An empty store.
    pub fn new() -> (s: Self)
        ensures
            s@ == Seq::<Seq<char>>::empty(),
    {
        let s = MessageStore { messages: Vec::new() };
        proof {
            assert(s@ =~= Seq::<Seq<char>>::empty());
        }
        s
    }

    /// The number of messages currently stored.
    pub fn len(&self) -> (n: usize)
        ensures
            n == self@.len(),
    {
        self.messages.len()
    }

    /// Adds `text` as the new last element and returns its 0-based position.
    /// Never fails, for any input string (including the empty string).
    pub fn append(&mut self, text: String) -> (pos: usize)
        ensures
            final(self)@ == old(self)@.push(text@),
            pos == old(self)@.len(),
    {
        let pos = self.messages.len();
        self.messages.push(text);
        proof {
            assert(self@ =~= old(self)@.push(text@));
        }
        pos
    }

    /// Removes all messages; after return the store is empty. Never fails.
    pub fn clear(&mut self)
        ensures
            final(self)@ == Seq::<Seq<char>>::empty(),
    {
        self.messages.clear();
        proof {
            assert(self@ =~= Seq::<Seq<char>>::empty());
        }
    }

    /// A point-in-time copy of all messages, in insertion order.
    pub fn snapshot(&self) -> (r: Vec<String>)
        ensures
            r.deep_view() == self@,
    {
        let mut out: Vec<String> = Vec::new();
        let mut i: usize = 0;
        while i < self.messages.len()
            invariant
                i <= self.messages.len(),
                out@.len() == i,
                forall|j: int| 0 <= j < i ==> out@[j] == self.messages@[j],
            decreases self.messages.len() - i,
        {
            let m = self.messages[i].clone();
            out.push(m);
            i = i + 1;
        }
        proof {
            assert(out.deep_view() =~= self@);
        }
        out
    }

    /// The message at `index`, or an absent result when `index` is not below
    /// the current length. An out-of-range lookup is a normal outcome, not
    /// an error.
    pub fn lookup(&self, index: usize) -> (r: Option<String>)
        ensures
            index < self@.len() ==> (r matches Some(m) && m@ == self@[index as int]),
            index >= self@.len() ==> r is None,
    {
        if index < self.messages.len() {
            Some(self.messages[index].clone())
        } else {
            None
        }
    }
}

} // verus!
