//! The translation layer: from stored rows to what the caller is shown and to
//! what the model backend is sent. Each row is parsed once, and both
//! projections are made from that one parse. A row whose content is not an
//! envelope is skipped and counted.

use crate::envelope::parse;
use crate::envelope::parse_spec;
use crate::envelope::Envelope;
use crate::envelope::EnvelopeView;
use crate::envelope::MalformedEnvelopeError;
use crate::text::clone_text;
use crate::store::message_views;
use crate::text::text_view;
use crate::store::Message;
use crate::store::MessageView;
use vstd::prelude::*;

verus! {

/// A message as the caller is shown it: the row of the store, with the plain
/// text of the message in place of the envelope.
#[derive(Debug, PartialEq, Eq)]
pub struct DisplayMessage {
    pub id: i64,
    pub chat_id: i64,
    pub author_model: Option<String>,
    pub content: String,
    pub created_at: String,
}

/// The mathematical value of a [`DisplayMessage`].
pub struct DisplayMessageView {
    pub id: int,
    pub chat_id: int,
    pub author_model: Option<Seq<char>>,
    pub content: Seq<char>,
    pub created_at: Seq<char>,
}

impl View for DisplayMessage {
    type V = DisplayMessageView;

    open spec fn view(&self) -> DisplayMessageView {
        DisplayMessageView {
            id: self.id as int,
            chat_id: self.chat_id as int,
            author_model: text_view(self.author_model),
            content: self.content@,
            created_at: self.created_at@,
        }
    }
}

/// The views of a sequence of display messages.
pub open spec fn display_views(messages: Seq<DisplayMessage>) -> Seq<DisplayMessageView> {
    messages.map_values(|m: DisplayMessage| m@)
}

/// The views of a sequence of envelopes.
pub open spec fn envelope_views(entries: Seq<Envelope>) -> Seq<EnvelopeView> {
    entries.map_values(|e: Envelope| e@)
}

/// Holds of the rows whose content is an envelope.
pub open spec fn readable() -> spec_fn(MessageView) -> bool {
    |m: MessageView| parse_spec(m.content) is Ok
}

/// The envelope that a readable row holds.
pub open spec fn entry_of(row: MessageView) -> EnvelopeView {
    parse_spec(row.content)->Ok_0
}

/// A row with the given plain text in place of its content.
pub open spec fn shown_with(row: MessageView, text: Seq<char>) -> DisplayMessageView {
    DisplayMessageView {
        id: row.id,
        chat_id: row.chat_id,
        author_model: row.author_model,
        content: text,
        created_at: row.created_at,
    }
}

/// What the caller is shown of a readable row.
pub open spec fn display_of(row: MessageView) -> DisplayMessageView {
    shown_with(row, entry_of(row).content)
}

/// `entry_of`, as a function value.
pub open spec fn to_entry() -> spec_fn(MessageView) -> EnvelopeView {
    |m: MessageView| entry_of(m)
}

/// `display_of`, as a function value.
pub open spec fn to_display() -> spec_fn(MessageView) -> DisplayMessageView {
    |m: MessageView| display_of(m)
}

/// The model-format entries of the readable rows, in the order of the rows.
pub open spec fn entries_of(rows: Seq<MessageView>) -> Seq<EnvelopeView> {
    rows.filter(readable()).map_values(to_entry())
}

/// The display messages of the readable rows, in the order of the rows.
pub open spec fn displayed(rows: Seq<MessageView>) -> Seq<DisplayMessageView> {
    rows.filter(readable()).map_values(to_display())
}

/// The number of rows that are not readable.
pub open spec fn skipped_of(rows: Seq<MessageView>) -> int {
    rows.len() - rows.filter(readable()).len()
}

/// What a listing of rows translates to.
#[derive(Debug, PartialEq, Eq)]
pub struct Translation {
    /// What the caller is shown.
    pub display: Vec<DisplayMessage>,
    /// What the model backend is sent.
    pub entries: Vec<Envelope>,
    /// How many rows were left out because their content is not an envelope.
    pub skipped: usize,
}

/// The display message of a row whose plain text is known.
pub fn show(row: &Message, text: String) -> (shown: DisplayMessage)
    ensures
        shown@ == shown_with(row@, text@),
{
    DisplayMessage {
        id: row.id,
        chat_id: row.chat_id,
        author_model: clone_text(&row.author_model),
        content: text,
        created_at: row.created_at.clone(),
    }
}

/// Translates one row: parses its content and hands out the display message
/// and the model-format entry, or the reason why the content is no envelope.
pub fn translate_row(row: &Message) -> (r: Result<
    (DisplayMessage, Envelope),
    MalformedEnvelopeError,
>)
    ensures
        r is Ok <==> readable()(row@),
        r matches Ok(pair) ==> pair.0@ == display_of(row@) && pair.1@ == entry_of(row@),
        r matches Err(e) ==> parse_spec(row@.content) == Err::<
            EnvelopeView,
            MalformedEnvelopeError,
        >(e),
{
    match parse(row.content.as_str()) {
        Ok(envelope) => {
            let shown = show(row, envelope.content.clone());
            Ok((shown, envelope))
        },
        Err(e) => Err(e),
    }
}

/// Translates a listing of rows. Rows that are not readable are skipped, never
/// the listing as a whole, and their number is reported.
pub fn translate(rows: &Vec<Message>) -> (t: Translation)
    ensures
        display_views(t.display@) == displayed(message_views(rows@)),
        envelope_views(t.entries@) == entries_of(message_views(rows@)),
        t.skipped == skipped_of(message_views(rows@)),
{
    let ghost views = message_views(rows@);
    let mut display: Vec<DisplayMessage> = Vec::new();
    let mut entries: Vec<Envelope> = Vec::new();
    let mut skipped: usize = 0;
    let mut i: usize = 0;
    proof {
        reveal(Seq::filter);
        assert(views.take(0).filter(readable()) == Seq::<MessageView>::empty());
        assert(display_views(display@) == displayed(views.take(0)));
        assert(envelope_views(entries@) == entries_of(views.take(0)));
    }
    while i < rows.len()
        invariant
            i <= rows.len(),
            views == message_views(rows@),
            display_views(display@) == displayed(views.take(i as int)),
            envelope_views(entries@) == entries_of(views.take(i as int)),
            skipped == skipped_of(views.take(i as int)),
        decreases rows.len() - i,
    {
        let ghost display_before = display@;
        let ghost entries_before = entries@;
        proof {
            assert(views.take(i + 1) == views.take(i as int).push(views[i as int]));
            lemma_translate_push(views.take(i as int), views[i as int]);
        }
        match translate_row(&rows[i]) {
            Ok((shown, entry)) => {
                display.push(shown);
                entries.push(entry);
                assert(display_views(display@) == display_views(display_before).push(
                    display_of(views[i as int]),
                ));
                assert(envelope_views(entries@) == envelope_views(entries_before).push(
                    entry_of(views[i as int]),
                ));
            },
            Err(_) => {
                skipped += 1;
            },
        }
        i += 1;
    }
    assert(views.take(i as int) == views);
    Translation { display, entries, skipped }
}

/// What one more row adds to a translation: its two projections if it is
/// readable, one to the count of skipped rows if it is not.
pub proof fn lemma_translate_push(rows: Seq<MessageView>, row: MessageView)
    ensures
        readable()(row) ==> entries_of(rows.push(row)) == entries_of(rows).push(entry_of(row))
            && displayed(rows.push(row)) == displayed(rows).push(display_of(row))
            && skipped_of(rows.push(row)) == skipped_of(rows),
        !readable()(row) ==> entries_of(rows.push(row)) == entries_of(rows) && displayed(
            rows.push(row),
        ) == displayed(rows) && skipped_of(rows.push(row)) == skipped_of(rows) + 1,
        0 <= skipped_of(rows) <= rows.len(),
{
    rows.lemma_filter_push(row, readable());
    rows.lemma_filter_len(readable());
    if readable()(row) {
        assert(entries_of(rows.push(row)) =~= entries_of(rows).push(entry_of(row)));
        assert(displayed(rows.push(row)) =~= displayed(rows).push(display_of(row)));
    }
}

/// The two projections of a listing never disagree: they have one length, and
/// at each place the display message shows the content of the entry.
pub proof fn lemma_projections_agree(rows: Seq<MessageView>)
    ensures
        displayed(rows).len() == entries_of(rows).len(),
        displayed(rows).len() + skipped_of(rows) == rows.len(),
        forall|i: int|
            0 <= i < displayed(rows).len() ==> (#[trigger] displayed(rows)[i]).content
                == entries_of(rows)[i].content,
{
}

} // verus!
