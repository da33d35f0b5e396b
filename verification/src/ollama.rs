//! The session: an ordered conversation history and the decisions taken on
//! it during model setup and on every turn.

use vstd::prelude::*;
use vstd::string::*;
use crate::message::{
    assistant_turn, duplicate_all, message_views, system_turn, user_turn, Message, MessageView,
    Role,
};
use crate::progress::{progress_text, PullProgress, PullProgressView};
use crate::prompt::{system_prompt, system_prompt_text};
use crate::stream::{item_texts, observed, string_views, transcript, Reply, StreamItem};

verus! {

/// The model that every request names.
pub const MODEL_NAME: &'static str = "gemma2:9b";

/// The line announced before an installation starts.
pub const INSTALL_NOTICE: &'static str = "Installing model.... please wait";

/// What opens the report of a setup that was given up.
pub const SETUP_FAILURE_HEAD: &'static str =
    "Failed to initialize model (is ollama installed and running?): ";

/// The report of a setup that was given up: a hint that the service may
/// not be running, followed by the failure.
pub open spec fn setup_failure_text(failure: Seq<char>) -> Seq<char> {
    SETUP_FAILURE_HEAD@ + failure
}

/// Builds the report of a setup that was given up for the given failure.
pub fn setup_failure_notice(failure: &str) -> (notice: String)
    ensures
        notice@ == setup_failure_text(failure@),
{
    let mut notice: String = String::from_str(SETUP_FAILURE_HEAD);
    notice.append(failure);
    notice
}

/// What the caller reports to the session while the model is set up.
#[derive(Clone, Debug, PartialEq, Eq)]
pub enum SetupEvent {
    /// The service listed the models it holds locally.
    Models(Vec<String>),
    /// The running installation sent a notification.
    Progress(PullProgress),
    /// The stream of the installation gave a failure in place of a
    /// notification; the text describes it.
    ProgressFailed(String),
    /// The stream of the installation ended.
    InstallEnded,
    /// The service could not be reached, or refused to list its models or
    /// to start the installation; the text describes the failure.
    Refused(String),
}

/// The abstract value of a [`SetupEvent`].
pub enum SetupEventView {
    Models(Seq<Seq<char>>),
    Progress(PullProgressView),
    ProgressFailed(Seq<char>),
    InstallEnded,
    Refused(Seq<char>),
}

impl View for SetupEvent {
    type V = SetupEventView;

    open spec fn view(&self) -> SetupEventView {
        match self {
            SetupEvent::Models(names) => SetupEventView::Models(string_views(names@)),
            SetupEvent::Progress(p) => SetupEventView::Progress(p@),
            SetupEvent::ProgressFailed(failure) => SetupEventView::ProgressFailed(failure@),
            SetupEvent::InstallEnded => SetupEventView::InstallEnded,
            SetupEvent::Refused(failure) => SetupEventView::Refused(failure@),
        }
    }
}

/// What the caller is to do next while the model is set up.
#[derive(Clone, Debug, PartialEq, Eq)]
pub enum SetupAction {
    /// Show the notice, then ask the service to install the model.
    Install { notice: String, model: String },
    /// Show this line, then read on.
    Show(String),
    /// Setup is over: the conversation holds its system prompt.
    Ready,
    /// Give up and report this failure; nothing is tried again.
    Abort(String),
}

/// The abstract value of a [`SetupAction`].
pub enum SetupActionView {
    Install { notice: Seq<char>, model: Seq<char> },
    Show(Seq<char>),
    Ready,
    Abort(Seq<char>),
}

impl View for SetupAction {
    type V = SetupActionView;

    open spec fn view(&self) -> SetupActionView {
        match self {
            SetupAction::Install { notice, model } => SetupActionView::Install {
                notice: notice@,
                model: model@,
            },
            SetupAction::Show(line) => SetupActionView::Show(line@),
            SetupAction::Ready => SetupActionView::Ready,
            SetupAction::Abort(failure) => SetupActionView::Abort(failure@),
        }
    }
}

/// A chat request: the model's name and the whole conversation so far.
#[derive(Clone, Debug, PartialEq, Eq)]
pub struct ChatRequest {
    pub model: String,
    pub messages: Vec<Message>,
}

/// The abstract value of a [`ChatRequest`].
pub struct ChatRequestView {
    pub model: Seq<char>,
    pub messages: Seq<MessageView>,
}

impl View for ChatRequest {
    type V = ChatRequestView;

    open spec fn view(&self) -> ChatRequestView {
        ChatRequestView { model: self.model@, messages: message_views(self.messages@) }
    }
}

/// The request of a turn: it names the model and carries the whole
/// history, the newest user message included.
pub open spec fn request_for(history: Seq<MessageView>) -> ChatRequestView {
    ChatRequestView { model: MODEL_NAME@, messages: history }
}

/// Whether a list of model names holds the given name.
pub open spec fn lists_model(names: Seq<Seq<char>>, model: Seq<char>) -> bool {
    exists|i: int| 0 <= i < names.len() && names[i] == model
}

/// The action that answers a setup event. A listing that holds the model
/// ends the setup, and one without it starts an installation. A notification
/// is shown as its line. The installation is over when its stream ends or
/// gives a failure, and that ends the setup too. A refusal by the service
/// is handed back as it came.
pub open spec fn setup_action(event: SetupEventView) -> SetupActionView {
    match event {
        SetupEventView::Models(names) => if lists_model(names, MODEL_NAME@) {
            SetupActionView::Ready
        } else {
            SetupActionView::Install { notice: INSTALL_NOTICE@, model: MODEL_NAME@ }
        },
        SetupEventView::Progress(p) => SetupActionView::Show(progress_text(p)),
        SetupEventView::ProgressFailed(_) => SetupActionView::Ready,
        SetupEventView::InstallEnded => SetupActionView::Ready,
        SetupEventView::Refused(failure) => SetupActionView::Abort(failure),
    }
}

/// The history after a setup event, where `now` is the rendering of the
/// current time: the system prompt is appended when the setup ends, and
/// nothing changes before that.
pub open spec fn setup_history(
    history: Seq<MessageView>,
    event: SetupEventView,
    now: Seq<char>,
) -> Seq<MessageView> {
    if setup_action(event) is Ready {
        history.push(system_turn(system_prompt_text(now)))
    } else {
        history
    }
}

/// The history after a user turn with the given text.
pub open spec fn history_after_send(history: Seq<MessageView>, text: Seq<char>) -> Seq<
    MessageView,
> {
    history.push(user_turn(text))
}

/// The history after the reply stream of a turn was read to its end.
pub open spec fn history_after_reply(
    history: Seq<MessageView>,
    items: Seq<Option<Seq<char>>>,
) -> Seq<MessageView> {
    history.push(assistant_turn(transcript(items)))
}

/// A history that was set up once: it opens with the system prompt and
/// holds no other system message.
pub open spec fn seeded(history: Seq<MessageView>) -> bool {
    &&& history.len() >= 1
    &&& history[0].role == Role::System
    &&& forall|i: int| 1 <= i < history.len() ==> history[i].role != Role::System
}

/// A single conversation with the model service.
#[derive(Debug)]
pub struct Ollama {
    conversation: Vec<Message>,
}

impl View for Ollama {
    type V = Seq<MessageView>;

    closed spec fn view(&self) -> Seq<MessageView> {
        message_views(self.conversation@)
    }
}

impl Ollama {
    /// A session with an empty history.
    pub fn new() -> (session: Ollama)
        ensures
            session@ == Seq::<MessageView>::empty(),
    {
        let session = Ollama { conversation: Vec::new() };
        assert(session@ =~= Seq::<MessageView>::empty());
        session
    }

    /// The messages of the conversation, oldest first.
    pub fn history(&self) -> (messages: &Vec<Message>)
        ensures
            message_views(messages@) == self@,
    {
        &self.conversation
    }

    /// Whether the listing of local models holds `model_name`.
    pub fn has_model(local_models: &Vec<String>, model_name: &str) -> (found: bool)
        ensures
            found == lists_model(string_views(local_models@), model_name@),
    {
        let wanted: String = String::from_str(model_name);
        let mut i: usize = 0;
        while i < local_models.len()
            invariant
                i <= local_models.len(),
                wanted@ == model_name@,
                forall|k: int| 0 <= k < i ==> local_models[k]@ != model_name@,
            decreases local_models.len() - i,
        {
            if local_models[i] == wanted {
                assert(string_views(local_models@)[i as int] == model_name@);
                return true;
            }
            i += 1;
        }
        assert forall|k: int| 0 <= k < string_views(local_models@).len() implies string_views(
            local_models@,
        )[k] != model_name@ by {
            assert(local_models[k]@ != model_name@);
        }
        false
    }

    /// The action that answers a setup event.
    pub fn next_action(event: &SetupEvent) -> (action: SetupAction)
        ensures
            action@ == setup_action(event@),
    {
        match event {
            SetupEvent::Models(names) => {
                if Ollama::has_model(names, MODEL_NAME) {
                    SetupAction::Ready
                } else {
                    SetupAction::Install {
                        notice: String::from_str(INSTALL_NOTICE),
                        model: String::from_str(MODEL_NAME),
                    }
                }
            },
            SetupEvent::Progress(p) => SetupAction::Show(p.line()),
            SetupEvent::ProgressFailed(_) => SetupAction::Ready,
            SetupEvent::InstallEnded => SetupAction::Ready,
            SetupEvent::Refused(failure) => SetupAction::Abort(failure.clone()),
        }
    }

    /// Appends the system prompt built around `now`, the rendering of the
    /// current time.
    pub fn seed(&mut self, now: &str)
        ensures
            final(self)@ == old(self)@.push(system_turn(system_prompt_text(now@))),
    {
        self.conversation.push(Message::system(system_prompt(now)));
        assert(final(self)@ =~= old(self)@.push(system_turn(system_prompt_text(now@))));
    }

    /// Takes one setup event and says what to do next, where `now` is the
    /// rendering of the current time that the caller read. The history gets
    /// its system prompt, built around `now`, when and only when the answer
    /// is `Ready`; otherwise it is unchanged and `now` is not looked at.
    pub fn initialize_model(&mut self, event: &SetupEvent, now: &str) -> (action: SetupAction)
        ensures
            action@ == setup_action(event@),
            final(self)@ == setup_history(old(self)@, event@, now@),
            old(self)@.len() == 0 && action@ is Ready ==> seeded(final(self)@) && final(self)@.len()
                == 1,
    {
        let action = Ollama::next_action(event);
        if let SetupAction::Ready = action {
            self.seed(now);
        }
        action
    }

    /// Appends a user message with the given text and builds the chat
    /// request for this turn: it names the model and carries the whole
    /// history, the new message included. The message stays in the history
    /// whatever becomes of the request.
    pub fn send(&mut self, message: &str) -> (request: ChatRequest)
        ensures
            final(self)@ == history_after_send(old(self)@, message@),
            request@ == request_for(final(self)@),
            seeded(old(self)@) ==> seeded(final(self)@),
    {
        self.conversation.push(Message::user(String::from_str(message)));
        assert(final(self)@ =~= old(self)@.push(user_turn(message@)));
        ChatRequest {
            model: String::from_str(MODEL_NAME),
            messages: duplicate_all(&self.conversation),
        }
    }

    /// Ends a turn: appends one assistant message with the text of the
    /// reply.
    pub fn commit(&mut self, reply: Reply)
        ensures
            final(self)@ == old(self)@.push(assistant_turn(reply@)),
            seeded(old(self)@) ==> seeded(final(self)@),
    {
        self.conversation.push(Message::assistant(reply.into_text()));
        assert(final(self)@ =~= old(self)@.push(assistant_turn(reply@)));
    }

    /// Reads a finished reply stream from its first element to its last
    /// and ends the turn. Returns what the reader is shown: the text of
    /// each element that carries one, in order of arrival. The history
    /// gets one assistant message with those texts joined.
    pub fn complete(&mut self, items: &Vec<StreamItem>) -> (shown: Vec<String>)
        ensures
            final(self)@ == history_after_reply(old(self)@, item_texts(items@)),
            string_views(shown@) == observed(item_texts(items@)),
            seeded(old(self)@) ==> seeded(final(self)@),
    {
        let mut reply: Reply = Reply::new();
        let mut shown: Vec<String> = Vec::new();
        let mut i: usize = 0;
        assert(item_texts(items@).take(0) =~= Seq::empty());
        assert(string_views(shown@) =~= Seq::empty());
        while i < items.len()
            invariant
                i <= items.len(),
                reply@ == transcript(item_texts(items@).take(i as int)),
                string_views(shown@) == observed(item_texts(items@).take(i as int)),
            decreases items.len() - i,
        {
            let ghost before = item_texts(items@).take(i as int);
            let ghost upto = item_texts(items@).take(i + 1);
            let ghost shown_before = string_views(shown@);
            assert(upto.drop_last() =~= before);
            assert(upto.last() == items[i as int]@.text());
            reply.relay(&items[i]);
            match items[i].text() {
                Some(s) => {
                    shown.push(s.clone());
                    assert(string_views(shown@) =~= shown_before.push(s@));
                },
                None => {},
            }
            i += 1;
        }
        assert(item_texts(items@).take(i as int) =~= item_texts(items@));
        self.commit(reply);
        shown
    }
}

/// When the listing holds the model, setup ends at once: nothing is
/// announced or shown, and an empty history comes to hold exactly the system
/// prompt.
pub proof fn lemma_present_model_only_seeds(names: Seq<Seq<char>>, now: Seq<char>)
    requires
        lists_model(names, MODEL_NAME@),
    ensures
        setup_action(SetupEventView::Models(names)) is Ready,
        setup_history(Seq::empty(), SetupEventView::Models(names), now) == seq![
            system_turn(system_prompt_text(now)),
        ],
        seeded(setup_history(Seq::empty(), SetupEventView::Models(names), now)),
{
    assert(setup_history(Seq::empty(), SetupEventView::Models(names), now) =~= seq![
        system_turn(system_prompt_text(now)),
    ]);
}

/// No operation of a session takes a message away or changes one: the
/// history before it is the beginning of the history after it.
pub proof fn lemma_history_only_grows(
    history: Seq<MessageView>,
    event: SetupEventView,
    now: Seq<char>,
    text: Seq<char>,
    items: Seq<Option<Seq<char>>>,
)
    ensures
        history.is_prefix_of(setup_history(history, event, now)),
        history.is_prefix_of(history_after_send(history, text)),
        history.is_prefix_of(history_after_reply(history, items)),
{
}

/// A user message that was sent stays where it was put, whatever becomes
/// of its request and whatever the session does later.
pub proof fn lemma_sent_message_stays(
    history: Seq<MessageView>,
    text: Seq<char>,
    later: Seq<MessageView>,
)
    requires
        history_after_send(history, text).is_prefix_of(later),
    ensures
        history.len() < later.len(),
        later[history.len() as int] == user_turn(text),
        history.is_prefix_of(later),
{
    let sent = history_after_send(history, text);
    assert(sent[history.len() as int] == user_turn(text));
    assert(sent.len() == history.len() + 1);
}

/// A full turn on a history adds the user message and then one assistant
/// message with the joined text of the stream, and keeps what was there.
pub proof fn lemma_turn_appends_pair(
    history: Seq<MessageView>,
    text: Seq<char>,
    items: Seq<Option<Seq<char>>>,
)
    ensures
        history_after_reply(history_after_send(history, text), items) == history + seq![
            user_turn(text),
            assistant_turn(transcript(items)),
        ],
        seeded(history) ==> seeded(history_after_send(history, text)),
        seeded(history) ==> seeded(history_after_reply(history_after_send(history, text), items)),
{
    assert(history_after_reply(history_after_send(history, text), items) =~= history + seq![
        user_turn(text),
        assistant_turn(transcript(items)),
    ]);
}

/// The request of a second turn is built from a history that holds the
/// whole first turn: its user message and the assistant message that its
/// stream added up to, in that order, before the second user message.
pub proof fn lemma_second_request_sees_first_reply(
    history: Seq<MessageView>,
    first: Seq<char>,
    items: Seq<Option<Seq<char>>>,
    second: Seq<char>,
)
    ensures
        history_after_send(
            history_after_reply(history_after_send(history, first), items),
            second,
        ) == history + seq![
            user_turn(first),
            assistant_turn(transcript(items)),
            user_turn(second),
        ],
        request_for(
            history_after_send(
                history_after_reply(history_after_send(history, first), items),
                second,
            ),
        ).messages == history + seq![
            user_turn(first),
            assistant_turn(transcript(items)),
            user_turn(second),
        ],
{
    assert(history_after_send(
        history_after_reply(history_after_send(history, first), items),
        second,
    ) =~= history + seq![
        user_turn(first),
        assistant_turn(transcript(items)),
        user_turn(second),
    ]);
}

} // verus!
