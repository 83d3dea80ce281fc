//! Echoing inbound chat messages back to their channel.

use vstd::prelude::*;

verus! {

/// An inbound chat message, reduced to what the echo rule reads.
#[derive(Debug, Clone, PartialEq, Eq)]
pub struct InboundMessage {
    /// Whether the author of the message is a bot account.
    pub author_is_bot: bool,
    /// The channel the message was posted in.
    pub channel_id: u64,
    /// The text of the message.
    pub content: String,
}

/// A message to be sent to a channel.
#[derive(Debug, Clone, PartialEq, Eq)]
pub struct OutboundMessage {
    /// The channel to send to.
    pub channel_id: u64,
    /// The text to send.
    pub content: String,
}

/// Decides what to send in answer to an inbound message: nothing where a
/// bot wrote it, and otherwise one message to the same channel with the
/// same text.
pub fn echo(msg: InboundMessage) -> (out: Option<OutboundMessage>)
    ensures
        msg.author_is_bot <==> out is None,
        out matches Some(m) ==> m.channel_id == msg.channel_id && m.content@ == msg.content@,
{
    if msg.author_is_bot {
        None
    } else {
        Some(OutboundMessage { channel_id: msg.channel_id, content: msg.content })
    }
}

} // verus!
