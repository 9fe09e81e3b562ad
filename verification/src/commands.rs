//! The command table: a closed, fixed mapping from exact command strings to
//! fixed response strings, with a default response for unrecognized commands.

use vstd::prelude::*;

verus! {

pub const HELP_COMMAND: &'static str = "!help";
pub const INFO_COMMAND: &'static str = "!info";
pub const LIST_COMMAND: &'static str = "!commands";
pub const PING_COMMAND: &'static str = "!ping";
pub const STATUS_COMMAND: &'static str = "!status";
pub const UPTIME_COMMAND: &'static str = "!uptime";
pub const VERSION_COMMAND: &'static str = "!version";
pub const INVITE_COMMAND: &'static str = "!invite";
pub const FEEDBACK_COMMAND: &'static str = "!feedback";

pub const HELP_MESSAGE: &'static str = "
Hello Human!
I am a bunch of prewritten text that gets spewn out when you type `!help` in the chat.
I am not a real person, but I can help you with some basic commands.
Here are some things you can ask me:
- `!help` - I will tell you what I can do.
- `!info` - I will give you some information about myself.
- `!commands` - I will list all the commands I can respond to.
- `!ping` - I will respond with 'Pong!' to let you know I'm here.
- `!status` - I will tell you my current status.
- `!uptime` - I will tell you how long I've been running.
- `!version` - I will tell you my current version.
- `!invite` - I will give you a link to invite me to your server.
- `!feedback` - I will give you a link to provide feedback about me.

I hope that resolves your issue!

— Wabtec Bot 🤖
";

pub const INFO_MESSAGE: &'static str = "I am a Discord bot created to help you with various commands.";
pub const COMMANDS_MESSAGE: &'static str = "Available commands: !help, !info, !commands, !ping, !status, !uptime, !version, !invite, !feedback";
pub const PING_MESSAGE: &'static str = "Pong!";
pub const STATUS_MESSAGE: &'static str = "I am currently online and ready to assist you.";
pub const UPTIME_MESSAGE: &'static str = "I have been running for X hours.";
pub const VERSION_MESSAGE: &'static str = "I am running version 1.0.0.";
pub const INVITE_MESSAGE: &'static str = "Invite me to your server using this link: [invite link]";
pub const FEEDBACK_MESSAGE: &'static str = "Provide feedback about me using this link: [feedback link]";
pub const UNKNOWN_MESSAGE: &'static str = "Unknown command. Type !help for a list of available commands.";

/// Whether the text is one of the known command keys (exact, case-sensitive match).
pub open spec fn known_command(t: Seq<char>) -> bool {
    ||| t == HELP_COMMAND@
    ||| t == INFO_COMMAND@
    ||| t == LIST_COMMAND@
    ||| t == PING_COMMAND@
    ||| t == STATUS_COMMAND@
    ||| t == UPTIME_COMMAND@
    ||| t == VERSION_COMMAND@
    ||| t == INVITE_COMMAND@
    ||| t == FEEDBACK_COMMAND@
}

/// The fixed response associated with a command text: the canned response of
/// the matching key, or the default response when no key matches exactly.
pub open spec fn response_of(t: Seq<char>) -> Seq<char> {
    if t == HELP_COMMAND@ {
        HELP_MESSAGE@
    } else if t == INFO_COMMAND@ {
        INFO_MESSAGE@
    } else if t == LIST_COMMAND@ {
        COMMANDS_MESSAGE@
    } else if t == PING_COMMAND@ {
        PING_MESSAGE@
    } else if t == STATUS_COMMAND@ {
        STATUS_MESSAGE@
    } else if t == UPTIME_COMMAND@ {
        UPTIME_MESSAGE@
    } else if t == VERSION_COMMAND@ {
        VERSION_MESSAGE@
    } else if t == INVITE_COMMAND@ {
        INVITE_MESSAGE@
    } else if t == FEEDBACK_COMMAND@ {
        FEEDBACK_MESSAGE@
    } else {
        UNKNOWN_MESSAGE@
    }
}

/// Exact-match lookup in the command table. A pure function of the input:
/// every call on the same text returns the same response.
pub fn lookup(text: &str) -> (r: String)
    ensures
        r@ == response_of(text@),
{
    let t: String = text.to_owned();
    if t == HELP_COMMAND.to_owned() {
        HELP_MESSAGE.to_owned()
    } else if t == INFO_COMMAND.to_owned() {
        INFO_MESSAGE.to_owned()
    } else if t == LIST_COMMAND.to_owned() {
        COMMANDS_MESSAGE.to_owned()
    } else if t == PING_COMMAND.to_owned() {
        PING_MESSAGE.to_owned()
    } else if t == STATUS_COMMAND.to_owned() {
        STATUS_MESSAGE.to_owned()
    } else if t == UPTIME_COMMAND.to_owned() {
        UPTIME_MESSAGE.to_owned()
    } else if t == VERSION_COMMAND.to_owned() {
        VERSION_MESSAGE.to_owned()
    } else if t == INVITE_COMMAND.to_owned() {
        INVITE_MESSAGE.to_owned()
    } else if t == FEEDBACK_COMMAND.to_owned() {
        FEEDBACK_MESSAGE.to_owned()
    } else {
        UNKNOWN_MESSAGE.to_owned()
    }
}

/// Every known command key is answered with exactly its fixed response, on
/// every call: `response_of` is a pure function of the text alone.
pub proof fn lemma_known_command_responses()
    ensures
        response_of(HELP_COMMAND@) == HELP_MESSAGE@,
        response_of(INFO_COMMAND@) == INFO_MESSAGE@,
        response_of(LIST_COMMAND@) == COMMANDS_MESSAGE@,
        response_of(PING_COMMAND@) == PING_MESSAGE@,
        response_of(STATUS_COMMAND@) == STATUS_MESSAGE@,
        response_of(UPTIME_COMMAND@) == UPTIME_MESSAGE@,
        response_of(VERSION_COMMAND@) == VERSION_MESSAGE@,
        response_of(INVITE_COMMAND@) == INVITE_MESSAGE@,
        response_of(FEEDBACK_COMMAND@) == FEEDBACK_MESSAGE@,
{
    broadcast use vstd::string::group_string_axioms;

    reveal_strlit("!help");
    reveal_strlit("!info");
    reveal_strlit("!commands");
    reveal_strlit("!ping");
    reveal_strlit("!status");
    reveal_strlit("!uptime");
    reveal_strlit("!version");
    reveal_strlit("!invite");
    reveal_strlit("!feedback");
    assert("!help"@.len() == 5 && "!info"@.len() == 5 && "!ping"@.len() == 5);
    assert("!status"@.len() == 7 && "!uptime"@.len() == 7 && "!invite"@.len() == 7);
    assert("!commands"@.len() == 9 && "!feedback"@.len() == 9 && "!version"@.len() == 8);
    assert("!help"@[1] == 'h' && "!info"@[1] == 'i' && "!ping"@[1] == 'p');
    assert("!status"@[1] == 's' && "!uptime"@[1] == 'u' && "!invite"@[1] == 'i');
    assert("!commands"@[1] == 'c' && "!feedback"@[1] == 'f');
}

/// Any text that is not a known command key gets the default response.
pub proof fn lemma_unknown_gets_default(t: Seq<char>)
    requires
        !known_command(t),
    ensures
        response_of(t) == UNKNOWN_MESSAGE@,
{
}

} // verus!
