//! Messages that enter and leave a channel, and the conversation history.

use vstd::prelude::*;
use vstd::string::*;

verus! {

/// A point in time: whole seconds since the Unix epoch and the nanoseconds
/// past that second.
#[derive(Clone, Copy, Debug, PartialEq, Eq)]
pub struct Timestamp {
    pub seconds: i64,
    pub nanos: u32,
}

/// Reads the clock with `chrono::Utc::now` and hands out the reading's
/// `timestamp` and `timestamp_subsec_nanos`. The reading depends on the
/// machine; what is claimed of every outcome is that the nanoseconds stay
/// below one second, as the clock never reports a leap second. The call
/// panics where the system clock stands before 1970.
#[verifier::external_body]
pub(crate) fn current_time() -> (now: Timestamp)
    ensures
        now.nanos < 1_000_000_000,
{
    let now = chrono::Utc::now();
    Timestamp { seconds: now.timestamp(), nanos: now.timestamp_subsec_nanos() }
}

/// A value of a message's free-form metadata.
#[derive(Clone, Debug, PartialEq, Eq)]
pub enum MetadataValue {
    Text(String),
    Integer(i64),
    Flag(bool),
    Null,
}

/// Model of a [`MetadataValue`].
pub enum MetadataValueView {
    Text(Seq<char>),
    Integer(i64),
    Flag(bool),
    Null,
}

impl View for MetadataValue {
    type V = MetadataValueView;

    open spec fn view(&self) -> MetadataValueView {
        match *self {
            MetadataValue::Text(s) => MetadataValueView::Text(s@),
            MetadataValue::Integer(n) => MetadataValueView::Integer(n),
            MetadataValue::Flag(b) => MetadataValueView::Flag(b),
            MetadataValue::Null => MetadataValueView::Null,
        }
    }
}

/// One key of a message's metadata with its value.
#[derive(Clone, Debug, PartialEq, Eq)]
pub struct MetadataEntry {
    pub key: String,
    pub value: MetadataValue,
}

/// Free-form metadata of a message: a map from keys to values, kept as the
/// list of insertions, of which the latest for a key counts.
#[derive(Clone, Debug, PartialEq, Eq)]
pub struct Metadata {
    entries: Vec<MetadataEntry>,
}

/// The map that a list of insertions amounts to.
pub open spec fn entries_map(entries: Seq<MetadataEntry>) -> Map<Seq<char>, MetadataValueView>
    decreases entries.len(),
{
    if entries.len() == 0 {
        Map::empty()
    } else {
        entries_map(entries.drop_last()).insert(entries.last().key@, entries.last().value@)
    }
}

/// The text stored under `key`, if the key is present and holds text.
pub open spec fn text_at(map: Map<Seq<char>, MetadataValueView>, key: Seq<char>) -> Option<
    Seq<char>,
> {
    if map.contains_key(key) {
        match map[key] {
            MetadataValueView::Text(s) => Some(s),
            _ => None,
        }
    } else {
        None
    }
}

impl View for Metadata {
    type V = Map<Seq<char>, MetadataValueView>;

    closed spec fn view(&self) -> Map<Seq<char>, MetadataValueView> {
        entries_map(self.entries@)
    }
}

impl Metadata {
    /// Metadata without any key.
    pub fn new() -> (metadata: Metadata)
        ensures
            metadata@ == Map::<Seq<char>, MetadataValueView>::empty(),
    {
        Metadata { entries: Vec::new() }
    }

    /// Stores `value` under `key`, replacing what the key held before.
    pub fn insert(&mut self, key: String, value: MetadataValue)
        ensures
            final(self)@ == old(self)@.insert(key@, value@),
    {
        let ghost before = self.entries@;
        let entry = MetadataEntry { key, value };
        self.entries.push(entry);
        assert(self.entries@.drop_last() == before);
    }

    /// The value stored under `key`.
    pub fn get(&self, key: &str) -> (value: Option<&MetadataValue>)
        ensures
            value is Some <==> self@.contains_key(key@),
            value matches Some(v) ==> v@ == self@[key@],
    {
        let wanted = String::from_str(key);
        let mut found: Option<&MetadataValue> = None;
        let mut i: usize = 0;
        while i < self.entries.len()
            invariant
                i <= self.entries.len(),
                wanted@ == key@,
                found is Some <==> entries_map(self.entries@.take(i as int)).contains_key(key@),
                found matches Some(v) ==> v@ == entries_map(self.entries@.take(i as int))[key@],
            decreases self.entries.len() - i,
        {
            assert(self.entries@.take(i + 1).drop_last() == self.entries@.take(i as int));
            if self.entries[i].key == wanted {
                found = Some(&self.entries[i].value);
            }
            i = i + 1;
        }
        assert(self.entries@.take(i as int) == self.entries@);
        found
    }

    /// The text stored under `key`; `None` where the key is absent or holds
    /// something other than text.
    pub fn get_text(&self, key: &str) -> (text: Option<&String>)
        ensures
            text is Some <==> text_at(self@, key@) is Some,
            text matches Some(s) ==> Some(s@) == text_at(self@, key@),
    {
        match self.get(key) {
            Some(MetadataValue::Text(s)) => Some(s),
            _ => None,
        }
    }
}

/// What a message carries: text, or media with an optional caption.
#[derive(Clone, Debug, PartialEq, Eq)]
pub enum MessageContent {
    Text(String),
    Media { text: Option<String> },
}

/// Model of a [`MessageContent`].
pub enum MessageContentView {
    Text(Seq<char>),
    Media { text: Option<Seq<char>> },
}

impl View for MessageContent {
    type V = MessageContentView;

    open spec fn view(&self) -> MessageContentView {
        match *self {
            MessageContent::Text(s) => MessageContentView::Text(s@),
            MessageContent::Media { text } => MessageContentView::Media { text: option_view(text) },
        }
    }
}

/// The words of a message's content: the text itself, the caption of media, or
/// nothing where media has none.
pub open spec fn content_text(content: MessageContentView) -> Seq<char> {
    match content {
        MessageContentView::Text(s) => s,
        MessageContentView::Media { text: Some(s) } => s,
        MessageContentView::Media { text: None } => Seq::empty(),
    }
}

impl MessageContent {
    /// The words of the content.
    pub fn raw_text(&self) -> (text: String)
        ensures
            text@ == content_text(self@),
    {
        match self {
            MessageContent::Text(s) => s.clone(),
            MessageContent::Media { text: Some(s) } => s.clone(),
            MessageContent::Media { text: None } => String::new(),
        }
    }
}

/// A message that reaches a channel from a platform, or from the channel
/// itself where `source` is `"system"`.
#[derive(Clone, Debug, PartialEq, Eq)]
pub struct InboundMessage {
    pub id: String,
    pub source: String,
    pub conversation_id: String,
    pub sender_id: String,
    pub agent_id: Option<String>,
    pub content: MessageContent,
    pub timestamp: Timestamp,
    pub metadata: Metadata,
}

/// Model of an [`InboundMessage`].
pub struct InboundMessageView {
    pub id: Seq<char>,
    pub source: Seq<char>,
    pub conversation_id: Seq<char>,
    pub sender_id: Seq<char>,
    pub agent_id: Option<Seq<char>>,
    pub content: MessageContentView,
    pub timestamp: Timestamp,
    pub metadata: Map<Seq<char>, MetadataValueView>,
}

/// Model of an optional string.
pub open spec fn option_view(text: Option<String>) -> Option<Seq<char>> {
    match text {
        Some(s) => Some(s@),
        None => None,
    }
}

impl View for InboundMessage {
    type V = InboundMessageView;

    open spec fn view(&self) -> InboundMessageView {
        InboundMessageView {
            id: self.id@,
            source: self.source@,
            conversation_id: self.conversation_id@,
            sender_id: self.sender_id@,
            agent_id: option_view(self.agent_id),
            content: self.content@,
            timestamp: self.timestamp,
            metadata: self.metadata@,
        }
    }
}

/// Progress that a platform can show while a reply is in the making.
#[derive(Clone, Copy, Debug, PartialEq, Eq)]
pub enum StatusUpdate {
    Thinking,
}

/// What a channel hands to the transport layer.
#[derive(Clone, Debug, PartialEq, Eq)]
pub enum OutboundResponse {
    Text(String),
    Status(StatusUpdate),
}

/// Model of an [`OutboundResponse`].
pub enum OutboundResponseView {
    Text(Seq<char>),
    Status(StatusUpdate),
}

impl View for OutboundResponse {
    type V = OutboundResponseView;

    open spec fn view(&self) -> OutboundResponseView {
        match *self {
            OutboundResponse::Text(s) => OutboundResponseView::Text(s@),
            OutboundResponse::Status(u) => OutboundResponseView::Status(u),
        }
    }
}

/// Who said a message of the history.
#[derive(Clone, Copy, Debug, PartialEq, Eq)]
pub enum Role {
    /// A user of the conversation, or the channel speaking to the model.
    User,
    /// The model.
    Assistant,
    /// A tool call or its result, put into words.
    Tool,
}

/// One message of the conversation history.
#[derive(Clone, Debug, PartialEq, Eq)]
pub struct Message {
    pub role: Role,
    pub content: String,
}

/// Model of a [`Message`].
pub struct MessageView {
    pub role: Role,
    pub content: Seq<char>,
}

impl View for Message {
    type V = MessageView;

    open spec fn view(&self) -> MessageView {
        MessageView { role: self.role, content: self.content@ }
    }
}

/// Model of a history: the models of its messages, in order.
pub open spec fn history_view(history: Seq<Message>) -> Seq<MessageView> {
    history.map_values(|m: Message| m@)
}

impl Message {
    /// A message with the given words, said by a user.
    pub fn user(content: String) -> (message: Message)
        ensures
            message@ == (MessageView { role: Role::User, content: content@ }),
    {
        Message { role: Role::User, content }
    }

    /// A copy of the message.
    pub fn duplicate(&self) -> (copy: Message)
        ensures
            copy == *self,
    {
        let role = match self.role {
            Role::User => Role::User,
            Role::Assistant => Role::Assistant,
            Role::Tool => Role::Tool,
        };
        Message { role, content: self.content.clone() }
    }
}

/// A copy of a history, message by message.
pub fn snapshot(history: &Vec<Message>) -> (copy: Vec<Message>)
    ensures
        copy@ == history@,
{
    let mut copy: Vec<Message> = Vec::new();
    let mut i: usize = 0;
    while i < history.len()
        invariant
            i <= history.len(),
            copy@ == history@.take(i as int),
        decreases history.len() - i,
    {
        copy.push(history[i].duplicate());
        assert(history@.take(i + 1) == history@.take(i as int).push(history@[i as int]));
        i = i + 1;
    }
    assert(history@.take(i as int) == history@);
    copy
}

} // verus!
