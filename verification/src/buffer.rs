//! The conversation buffer: the model-format messages of the chat that is
//! loaded, in order. It is what a response stream is given as context.

use crate::envelope::Envelope;
use crate::envelope::EnvelopeView;
use crate::translate::envelope_views;
use vstd::prelude::*;

verus! {

/// An ordered sequence of model-format entries.
#[derive(Debug)]
pub struct ConversationBuffer {
    entries: Vec<Envelope>,
}

impl View for ConversationBuffer {
    type V = Seq<EnvelopeView>;

    closed spec fn view(&self) -> Seq<EnvelopeView> {
        envelope_views(self.entries@)
    }
}

/// Copies a sequence of entries.
pub fn copy_entries(entries: &Vec<Envelope>) -> (copy: Vec<Envelope>)
    ensures
        envelope_views(copy@) == envelope_views(entries@),
{
    let mut copy: Vec<Envelope> = Vec::new();
    let mut i: usize = 0;
    while i < entries.len()
        invariant
            i <= entries.len(),
            copy@.len() == i,
            forall|k: int| 0 <= k < i ==> (#[trigger] copy@[k])@ == entries@[k]@,
        decreases entries.len() - i,
    {
        copy.push(entries[i].clone());
        i += 1;
    }
    assert(envelope_views(copy@) =~= envelope_views(entries@));
    copy
}

impl ConversationBuffer {
    /// An empty buffer.
    pub fn new() -> (buffer: Self)
        ensures
            buffer@ == Seq::<EnvelopeView>::empty(),
    {
        let buffer = ConversationBuffer { entries: Vec::new() };
        assert(buffer@ =~= Seq::<EnvelopeView>::empty());
        buffer
    }

    /// The number of entries.
    pub fn len(&self) -> (n: usize)
        ensures
            n == self@.len(),
    {
        self.entries.len()
    }

    /// Replaces the whole sequence.
    pub fn reset(&mut self, entries: Vec<Envelope>)
        ensures
            final(self)@ == envelope_views(entries@),
    {
        self.entries = entries;
    }

    /// Adds one entry at the tail.
    pub fn append(&mut self, entry: Envelope)
        ensures
            final(self)@ == old(self)@.push(entry@),
    {
        self.entries.push(entry);
        assert(self@ =~= old(self)@.push(entry@));
    }

    /// A copy of the sequence as it is now. What happens to the buffer later
    /// does not reach the copy.
    pub fn snapshot(&self) -> (copy: Vec<Envelope>)
        ensures
            envelope_views(copy@) == self@,
    {
        copy_entries(&self.entries)
    }
}

} // verus!
