use rustpush_nac::messages::{ReactMessage, Reaction};
use rustpush_nac::{
    add_prefix, remove_prefix, Attachment, AttachmentType, IMessage, IndexedMessagePart, MMCSFile,
    Message, MessagePart, MessageParts, NormalMessage, RenameMessage,
};

fn inline(data: Vec<u8>) -> Attachment {
    Attachment {
        a_type: AttachmentType::Inline(data),
        part: 0,
        uti_type: "public.png".to_string(),
        mime: "image/png".to_string(),
        name: "a.png".to_string(),
        iris: false,
    }
}

fn imessage(message: Message) -> IMessage {
    IMessage {
        id: "id".to_string(),
        sender: None,
        after_guid: None,
        conversation: None,
        message,
        sent_timestamp: 0,
    }
}

#[test]
fn raw_text_joins_text_parts() {
    let parts = MessageParts(vec![
        IndexedMessagePart(MessagePart::Text("hello".to_string()), Some(0)),
        IndexedMessagePart(MessagePart::Attachment(inline(vec![1, 2])), Some(1)),
        IndexedMessagePart(MessagePart::Text("world".to_string()), None),
    ]);
    assert_eq!(parts.raw_text(), "hello\nworld");
    assert!(parts.has_attachments());
    assert_eq!(MessageParts(vec![]).raw_text(), "");
    assert!(!MessageParts::from_raw("x").has_attachments());
    assert_eq!(MessageParts::from_raw("only").raw_text(), "only");
}

#[test]
fn new_message_has_one_text_part() {
    let m = NormalMessage::new("hi".to_string());
    assert_eq!(m.parts.0.len(), 1);
    assert_eq!(m.parts.raw_text(), "hi");
    assert!(m.parts.0[0].1.is_none());
    assert!(m.body.is_none() && m.effect.is_none());
}

fn react(enable: bool, reaction: Reaction) -> ReactMessage {
    ReactMessage { to_uuid: "u".to_string(), to_part: 0, enable, reaction, to_text: "hey".to_string() }
}

#[test]
fn reaction_text() {
    assert_eq!(react(true, Reaction::Heart).get_text(), "Loved \u{201c}hey\u{201d}");
    assert_eq!(react(true, Reaction::Laugh).get_text(), "Laughed at \u{201c}hey\u{201d}");
    assert_eq!(react(false, Reaction::Emphsize).get_text(), "Removed an exclamation from \u{201c}hey\u{201d}");
    assert_eq!(react(false, Reaction::Like).get_text(), "Removed a like from \u{201c}hey\u{201d}");
}

#[test]
fn reaction_indices() {
    assert_eq!(react(true, Reaction::Question).get_idx(), 5);
    assert_eq!(react(true, Reaction::Heart).get_idx(), 0);
    assert_eq!(ReactMessage::from_idx(3), Some(Reaction::Laugh));
    assert_eq!(ReactMessage::from_idx(6), None);
}

#[test]
fn attachment_sizes() {
    assert_eq!(inline(vec![0; 10]).get_size(), 10);
    let mmcs = Attachment {
        a_type: AttachmentType::MMCS(MMCSFile {
            signature: vec![1],
            object: "o".to_string(),
            url: "u".to_string(),
            key: vec![2],
            size: 4096,
        }),
        ..inline(vec![])
    };
    assert_eq!(mmcs.get_size(), 4096);
}

#[test]
fn message_flags() {
    assert_eq!(Message::Delivered.get_c(), 101);
    assert_eq!(Message::Read.get_c(), 102);
    assert_eq!(Message::RenameMessage(RenameMessage { new_name: "n".to_string() }).get_c(), 190);
    assert_eq!(Message::Typing.get_nr(), Some(true));
    assert_eq!(Message::Read.get_nr(), None);
    assert!(!imessage(Message::Typing).has_payload());
    assert!(imessage(Message::StopTyping).has_payload());
    assert_eq!(imessage(Message::StopTyping).get_ex(), Some(0));
    assert_eq!(imessage(Message::Read).get_ex(), None);
}

#[test]
fn participant_prefixes() {
    let ps = vec!["mailto:a@b.c".to_string(), "tel:+15551234".to_string(), "x".to_string()];
    assert_eq!(remove_prefix(&ps), vec!["a@b.c", "+15551234", "x"]);
    let bare = vec!["a@b.c".to_string(), "+15551234".to_string()];
    assert_eq!(add_prefix(&bare), vec!["mailto:a@b.c", "tel:+15551234"]);
    assert_eq!(remove_prefix(&["tel:tel:1".to_string()]), vec!["1"]);
    assert_eq!(remove_prefix(&["mailtel:to:z".to_string()]), vec!["mailto:z"]);
}

#[test]
fn message_lines() {
    assert_eq!(Message::Read.to_string(), "read");
    assert_eq!(Message::StopTyping.to_string(), "stopped typing");
    assert_eq!(Message::RenameMessage(RenameMessage { new_name: "Crew".to_string() }).to_string(), "renamed the chat to Crew");
    let change = Message::ChangeParticipants(rustpush_nac::ChangeParticipantMessage {
        new_participants: vec!["a".to_string(), "b\"c".to_string()],
        group_version: 1,
    });
    assert_eq!(change.to_string(), "changed participants [\"a\", \"b\\\"c\"]");
    let normal = Message::Message(NormalMessage::new("yo".to_string()));
    assert_eq!(normal.to_string(), "yo");
    assert_eq!(imessage(Message::Typing).to_string(), "[unknown] 'typing'");
    let mut m = imessage(Message::Delivered);
    m.sender = Some("tel:+1".to_string());
    assert_eq!(m.to_string(), "[tel:+1] 'delivered'");
}

fn conversation(participants: Vec<&str>, guid: Option<&str>) -> rustpush_nac::ConversationData {
    rustpush_nac::ConversationData {
        participants: participants.into_iter().map(|p| p.to_string()).collect(),
        cv_name: None,
        sender_guid: guid.map(|g| g.to_string()),
    }
}

#[test]
fn prepare_send_adds_sender_and_guid() {
    let mut m = imessage(Message::Typing);
    m.sender = Some("b".to_string());
    m.conversation = Some(conversation(vec!["a"], None));
    m.prepare_send("fresh".to_string());
    let c = m.conversation.as_ref().unwrap();
    assert_eq!(c.participants, vec!["a", "b"]);
    assert_eq!(c.sender_guid.as_deref(), Some("fresh"));
    m.prepare_send("other".to_string());
    let c = m.conversation.as_ref().unwrap();
    assert_eq!(c.participants, vec!["a", "b"]);
    assert_eq!(c.sender_guid.as_deref(), Some("fresh"));
}

#[test]
fn sanity_check_send_makes_a_guid() {
    let mut m = imessage(Message::Typing);
    m.sender = Some("a".to_string());
    m.conversation = Some(conversation(vec!["a"], None));
    m.sanity_check_send();
    let c = m.conversation.as_ref().unwrap();
    assert_eq!(c.participants, vec!["a"]);
    assert_eq!(c.sender_guid.as_ref().unwrap().len(), 36);
}
