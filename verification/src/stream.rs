//! Elements of a streamed reply, what the reader of the stream is shown, and
//! the text that a whole stream adds up to.

use vstd::prelude::*;
use vstd::string::*;
use crate::message::{Message, MessageView};

verus! {

/// How many elements may wait between the task that reads a reply from the
/// service and the reader of the stream, before the task is held back.
pub const RELAY_CAPACITY: usize = 100;

/// One incremental piece of a reply. It may carry no message at all.
#[derive(Clone, Debug, PartialEq, Eq)]
pub struct StreamFragment {
    pub message: Option<Message>,
}

/// One element of a reply stream: a fragment, or a failure that took the
/// place of one.
#[derive(Clone, Debug, PartialEq, Eq)]
pub enum StreamItem {
    Fragment(StreamFragment),
    Failed(String),
}

/// The abstract value of a [`StreamItem`]: the message of a fragment, if
/// it carries one, or the description of a failure.
pub enum StreamItemView {
    Fragment(Option<MessageView>),
    Failed(Seq<char>),
}

impl StreamItemView {
    /// The text that the element carries: that of its message; `None` for
    /// a failure and for a fragment without a message.
    pub open spec fn text(self) -> Option<Seq<char>> {
        match self {
            StreamItemView::Fragment(Some(m)) => Some(m.content),
            _ => None,
        }
    }
}

impl View for StreamItem {
    type V = StreamItemView;

    open spec fn view(&self) -> StreamItemView {
        match self {
            StreamItem::Fragment(fragment) => StreamItemView::Fragment(
                match fragment.message {
                    Some(m) => Some(m@),
                    None => None,
                },
            ),
            StreamItem::Failed(failure) => StreamItemView::Failed(failure@),
        }
    }
}

/// The texts that the elements of a stream carry, in the same order, with
/// `None` in the place of each failure and each fragment without a message.
pub open spec fn item_texts(items: Seq<StreamItem>) -> Seq<Option<Seq<char>>> {
    Seq::new(items.len(), |i: int| items[i]@.text())
}

/// The views of a sequence of strings, in the same order.
pub open spec fn string_views(strings: Seq<String>) -> Seq<Seq<char>> {
    Seq::new(strings.len(), |i: int| strings[i]@)
}

/// What one element adds to the reply: its text, or nothing.
pub open spec fn carried(item: Option<Seq<char>>) -> Seq<char> {
    match item {
        Some(text) => text,
        None => Seq::empty(),
    }
}

/// The whole reply of a stream: the texts of its elements joined in order
/// of arrival, where failures and empty fragments add nothing.
pub open spec fn transcript(items: Seq<Option<Seq<char>>>) -> Seq<char>
    decreases items.len(),
{
    if items.len() == 0 {
        Seq::empty()
    } else {
        transcript(items.drop_last()) + carried(items.last())
    }
}

/// What the reader of a stream is shown: the text of each element that
/// carries one, in order of arrival.
pub open spec fn observed(items: Seq<Option<Seq<char>>>) -> Seq<Seq<char>>
    decreases items.len(),
{
    if items.len() == 0 {
        Seq::empty()
    } else {
        match items.last() {
            Some(text) => observed(items.drop_last()).push(text),
            None => observed(items.drop_last()),
        }
    }
}

impl StreamItem {
    /// A fragment that carries the given message, as it is.
    pub fn content(message: Message) -> (item: StreamItem)
        ensures
            item == (StreamItem::Fragment(StreamFragment { message: Some(message) })),
            item@ == StreamItemView::Fragment(Some(message@)),
    {
        StreamItem::Fragment(StreamFragment { message: Some(message) })
    }

    /// The text to show for this element: `Some` exactly for a fragment
    /// that carries a message, and then that message's text.
    pub fn text(&self) -> (shown: Option<&String>)
        ensures
            match shown {
                Some(s) => self@.text() == Some(s@),
                None => self@.text() is None,
            },
    {
        match self {
            StreamItem::Fragment(fragment) => match &fragment.message {
                Some(m) => Some(&m.content),
                None => None,
            },
            StreamItem::Failed(_) => None,
        }
    }
}

/// The reply of one turn while its stream is being read.
#[derive(Clone, Debug, PartialEq, Eq)]
pub struct Reply {
    text: String,
}

impl View for Reply {
    type V = Seq<char>;

    closed spec fn view(&self) -> Seq<char> {
        self.text@
    }
}

impl Reply {
    /// An empty reply.
    pub fn new() -> (reply: Reply)
        ensures
            reply@ == Seq::<char>::empty(),
    {
        Reply { text: String::new() }
    }

    /// Takes in the next element of the stream: the text it carries is
    /// joined to the reply, and a failure or an empty fragment leaves the
    /// reply as it was.
    pub fn relay(&mut self, item: &StreamItem)
        ensures
            final(self)@ == old(self)@ + carried(item@.text()),
    {
        match item.text() {
            Some(s) => {
                self.text.append(s.as_str());
            },
            None => {
                assert(self@ =~= self@ + carried(item@.text()));
            },
        }
    }

    /// The text gathered so far.
    pub fn text(&self) -> (text: &String)
        ensures
            text@ == self@,
    {
        &self.text
    }

    /// Gives up the reply for its text.
    pub fn into_text(self) -> (text: String)
        ensures
            text@ == self@,
    {
        self.text
    }
}

/// The reply of a stream that is continued is the reply of its first part
/// followed by the reply of the rest.
pub proof fn lemma_transcript_concat(
    first: Seq<Option<Seq<char>>>,
    rest: Seq<Option<Seq<char>>>,
)
    ensures
        transcript(first + rest) == transcript(first) + transcript(rest),
    decreases rest.len(),
{
    if rest.len() == 0 {
        assert(first + rest =~= first);
        assert(transcript(first) + transcript(rest) =~= transcript(first));
    } else {
        lemma_transcript_concat(first, rest.drop_last());
        assert((first + rest).drop_last() =~= first + rest.drop_last());
        assert((first + rest).last() == rest.last());
        assert(transcript(first + rest) =~= transcript(first) + transcript(rest));
    }
}

/// What is shown of a stream that is continued is what is shown of its
/// first part followed by what is shown of the rest.
pub proof fn lemma_observed_concat(
    first: Seq<Option<Seq<char>>>,
    rest: Seq<Option<Seq<char>>>,
)
    ensures
        observed(first + rest) == observed(first) + observed(rest),
    decreases rest.len(),
{
    if rest.len() == 0 {
        assert(first + rest =~= first);
        assert(observed(first) + observed(rest) =~= observed(first));
    } else {
        lemma_observed_concat(first, rest.drop_last());
        assert((first + rest).drop_last() =~= first + rest.drop_last());
        assert((first + rest).last() == rest.last());
        assert(observed(first + rest) =~= observed(first) + observed(rest));
    }
}

/// A failure anywhere in a stream is dropped: the reader is shown, and the
/// reply holds, exactly what the stream without that element gives.
pub proof fn lemma_failure_dropped(
    before: Seq<Option<Seq<char>>>,
    after: Seq<Option<Seq<char>>>,
)
    ensures
        transcript(before.push(None) + after) == transcript(before) + transcript(after),
        transcript(before.push(None) + after) == transcript(before + after),
        observed(before.push(None) + after) == observed(before) + observed(after),
        observed(before.push(None) + after) == observed(before + after),
{
    let cut = before.push(None);
    assert(cut.drop_last() =~= before);
    assert(transcript(cut) =~= transcript(before));
    assert(observed(cut) =~= observed(before));
    lemma_transcript_concat(cut, after);
    lemma_transcript_concat(before, after);
    lemma_observed_concat(cut, after);
    lemma_observed_concat(before, after);
}

/// In a stream without failures or empty fragments the reader is shown the
/// text of every element, in order.
pub proof fn lemma_all_content_observed(items: Seq<Option<Seq<char>>>)
    requires
        forall|i: int| 0 <= i < items.len() ==> items[i] is Some,
    ensures
        observed(items).len() == items.len(),
        forall|i: int| 0 <= i < items.len() ==> #[trigger] observed(items)[i] == items[i]->0,
    decreases items.len(),
{
    if items.len() > 0 {
        lemma_all_content_observed(items.drop_last());
    }
}

} // verus!
