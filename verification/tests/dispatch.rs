use chatbot::dispatch::handle;
use chatbot::dispatch::InboundMessage;

#[test]
fn ping_gets_pong_on_originating_channel() {
    let msg = InboundMessage { text: String::from("!ping"), channel_id: 42 };
    let reply = handle(&msg).expect("a command message is owed a reply");
    assert_eq!(reply.text, "Pong!");
    assert_eq!(reply.channel_id, 42);
}

#[test]
fn unknown_prefixed_text_gets_fallback() {
    let msg = InboundMessage { text: String::from("!xyz"), channel_id: 5 };
    let reply = handle(&msg).expect("a command message is owed a reply");
    assert_eq!(reply.text, "Unknown command. Type !help for a list of available commands.");
    assert_eq!(reply.channel_id, 5);
}

#[test]
fn unprefixed_text_sends_nothing() {
    let msg = InboundMessage { text: String::from("hello"), channel_id: 5 };
    assert!(handle(&msg).is_none());
}

#[test]
fn empty_text_sends_nothing() {
    let msg = InboundMessage { text: String::new(), channel_id: 5 };
    assert!(handle(&msg).is_none());
}

#[test]
fn dispatch_continues_after_a_failed_send() {
    // A failed send is the sender's concern: the dispatcher is stateless, so
    // the next message is decided as if the failure never happened.
    let first = InboundMessage { text: String::from("!help"), channel_id: 9 };
    let first_reply = handle(&first).expect("a command message is owed a reply");
    assert!(first_reply.text.contains("Hello Human!"));
    // Suppose sending first_reply failed with a transport error...
    let second = InboundMessage { text: String::from("!ping"), channel_id: 9 };
    let second_reply = handle(&second).expect("a command message is owed a reply");
    assert_eq!(second_reply.text, "Pong!");
}

#[test]
fn exactly_one_reply_per_command_message() {
    let msg = InboundMessage { text: String::from("!status"), channel_id: 1 };
    let reply = handle(&msg);
    assert!(reply.is_some());
    let again = handle(&msg);
    assert_eq!(reply, again);
}
