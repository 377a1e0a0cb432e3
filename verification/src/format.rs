//! Text that a channel puts before the model: attributed user messages, the
//! conversation context and the system prompt of a turn.

use vstd::prelude::*;
use vstd::string::*;
use crate::message::{text_at, InboundMessage, MetadataValueView};

verus! {

/// The lines joined by single line feeds, with none after the last.
pub open spec fn join_lines(lines: Seq<Seq<char>>) -> Seq<char>
    decreases lines.len(),
{
    if lines.len() == 0 {
        Seq::empty()
    } else if lines.len() == 1 {
        lines[0]
    } else {
        join_lines(lines.drop_last()) + "\n"@ + lines.last()
    }
}

/// Models of the strings of a list.
pub open spec fn lines_view(lines: Seq<String>) -> Seq<Seq<char>> {
    lines.map_values(|s: String| s@)
}

/// Joins lines by single line feeds.
pub fn join(lines: &Vec<String>) -> (text: String)
    ensures
        text@ == join_lines(lines_view(lines@)),
{
    let mut text = String::new();
    let ghost all = lines_view(lines@);
    let mut i: usize = 0;
    while i < lines.len()
        invariant
            i <= lines.len(),
            all == lines_view(lines@),
            text@ == join_lines(all.take(i as int)),
        decreases lines.len() - i,
    {
        assert(all.take(i + 1).drop_last() == all.take(i as int));
        assert(all.take(i + 1).last() == lines@[i as int]@);
        if i > 0 {
            text.append("\n");
        } else {
            assert(text@ + lines@[i as int]@ == lines@[i as int]@);
        }
        text.append(lines[i].as_str());
        i = i + 1;
    }
    assert(all.take(i as int) == all);
    text
}

/// The name under which a sender appears: the display name of the metadata
/// where it holds one as text, else the sender's identifier.
pub open spec fn display_name(
    metadata: Map<Seq<char>, MetadataValueView>,
    sender_id: Seq<char>,
) -> Seq<char> {
    match text_at(metadata, "sender_display_name"@) {
        Some(name) => name,
        None => sender_id,
    }
}

/// The text of a message as the model reads it: `[name]: text` for a message
/// of a platform, the bare text for one of source `"system"`.
pub open spec fn attributed_text(
    raw_text: Seq<char>,
    source: Seq<char>,
    sender_id: Seq<char>,
    metadata: Map<Seq<char>, MetadataValueView>,
) -> Seq<char> {
    if source == "system"@ {
        raw_text
    } else {
        "["@ + display_name(metadata, sender_id) + "]: "@ + raw_text
    }
}

/// Attributes the text of a message to its sender, so that the model can
/// tell the users of a shared conversation apart. Text of a message whose
/// source is `"system"` passes unchanged.
pub fn format_user_message(raw_text: &str, message: &InboundMessage) -> (text: String)
    ensures
        text@ == attributed_text(
            raw_text@,
            message.source@,
            message.sender_id@,
            message.metadata@,
        ),
{
    let system = String::from_str("system");
    if message.source == system {
        return String::from_str(raw_text);
    }
    let mut text = String::from_str("[");
    match message.metadata.get_text("sender_display_name") {
        Some(name) => {
            text.append(name.as_str());
        },
        None => {
            text.append(message.sender_id.as_str());
        },
    }
    text.append("]: ");
    text.append(raw_text);
    text
}

/// The lines of a conversation's context: the platform, the server and the
/// channel where the metadata names them, and a note on how messages are
/// attributed.
pub open spec fn context_lines(
    source: Seq<char>,
    metadata: Map<Seq<char>, MetadataValueView>,
) -> Seq<Seq<char>> {
    let platform = seq!["Platform: "@ + source];
    let server = match text_at(metadata, "discord_guild_name"@) {
        Some(name) => seq!["Server: "@ + name],
        None => Seq::empty(),
    };
    let channel = match text_at(metadata, "discord_channel_name"@) {
        Some(name) => seq!["Channel: #"@ + name],
        None => Seq::empty(),
    };
    let note = seq!["Multiple users may be present. Each message is prefixed with [username]."@];
    platform + server + channel + note
}

/// The context of a conversation, as one text.
pub open spec fn conversation_context(
    source: Seq<char>,
    metadata: Map<Seq<char>, MetadataValueView>,
) -> Seq<char> {
    join_lines(context_lines(source, metadata))
}

/// Describes where a conversation takes place, from the metadata of its
/// first message.
pub fn build_conversation_context(message: &InboundMessage) -> (context: String)
    ensures
        context@ == conversation_context(message.source@, message.metadata@),
{
    let mut lines: Vec<String> = Vec::new();
    let mut platform = String::from_str("Platform: ");
    platform.append(message.source.as_str());
    lines.push(platform);
    if let Some(name) = message.metadata.get_text("discord_guild_name") {
        let mut server = String::from_str("Server: ");
        server.append(name.as_str());
        lines.push(server);
    }
    if let Some(name) = message.metadata.get_text("discord_channel_name") {
        let mut channel = String::from_str("Channel: #");
        channel.append(name.as_str());
        lines.push(channel);
    }
    lines.push(
        String::from_str(
            "Multiple users may be present. Each message is prefixed with [username].",
        ),
    );
    assert(lines_view(lines@) == context_lines(message.source@, message.metadata@));
    join(&lines)
}

/// The system prompt of a turn: the identity context where there is one,
/// the channel's own prompt, the conversation context where it is known and
/// the status summary where it is not empty.
pub open spec fn system_prompt_text(
    identity: Seq<char>,
    base: Seq<char>,
    context: Option<Seq<char>>,
    status: Seq<char>,
) -> Seq<char> {
    let head = if identity.len() > 0 {
        identity + "\n\n"@
    } else {
        Seq::empty()
    };
    let middle = match context {
        Some(c) => "\n\n## Conversation Context\n\n"@ + c,
        None => Seq::empty(),
    };
    let tail = if status.len() > 0 {
        "\n\n## Current Status\n\n"@ + status
    } else {
        Seq::empty()
    };
    head + base + middle + tail
}

/// Assembles the system prompt of a turn.
pub fn build_system_prompt(
    identity: &str,
    base: &str,
    context: &Option<String>,
    status: &str,
) -> (prompt: String)
    ensures
        prompt@ == system_prompt_text(
            identity@,
            base@,
            crate::message::option_view(*context),
            status@,
        ),
{
    let mut prompt = String::new();
    if !identity.is_empty() {
        prompt.append(identity);
        prompt.append("\n\n");
    }
    prompt.append(base);
    if let Some(c) = context {
        prompt.append("\n\n## Conversation Context\n\n");
        prompt.append(c.as_str());
    }
    if !status.is_empty() {
        prompt.append("\n\n## Current Status\n\n");
        prompt.append(status);
    }
    assert(prompt@ == system_prompt_text(
        identity@,
        base@,
        crate::message::option_view(*context),
        status@,
    ));
    prompt
}

} // verus!
