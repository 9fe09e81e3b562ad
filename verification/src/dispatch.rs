//! The message dispatcher: decides, for one inbound message, whether a reply
//! is owed and what its text and destination are. The dispatcher is stateless:
//! each message is decided independently of every earlier one.

use vstd::prelude::*;

use crate::commands::{lookup, response_of};

verus! {

/// One inbound message event: its text and its originating channel.
#[derive(Debug, PartialEq, Eq)]
pub struct InboundMessage {
    pub text: String,
    pub channel_id: u64,
}

/// One outbound reply: the response text and the channel it goes to.
#[derive(Debug, PartialEq, Eq)]
pub struct Reply {
    pub text: String,
    pub channel_id: u64,
}

/// Whether the text begins with the single-character command prefix.
pub open spec fn is_command_text(t: Seq<char>) -> bool {
    t.len() > 0 && t[0] == '!'
}

/// Decides the dispatch of one inbound message: no reply at all when the text
/// does not begin with the command prefix, otherwise exactly one reply, whose
/// text is the command table's response and whose destination is the
/// originating channel.
pub fn handle(msg: &InboundMessage) -> (r: Option<Reply>)
    ensures
        !is_command_text(msg.text@) ==> r is None,
        is_command_text(msg.text@) ==> (r matches Some(reply) && reply.channel_id
            == msg.channel_id && reply.text@ == response_of(msg.text@)),
{
    let text = msg.text.as_str();
    if !text.is_empty() && text.get_char(0) == '!' {
        Some(Reply { text: lookup(text), channel_id: msg.channel_id })
    } else {
        None
    }
}

} // verus!
