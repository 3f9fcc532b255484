use vstd::prelude::*;

use vstd::string::{StrSliceExecFns, StringExecFns};

verus! {

/// An app balloon: the bundle id of the app and its payload.
pub struct BalloonBody {
    pub bid: String,
    pub data: Vec<u8>,
}

/// What identifies a conversation a message belongs to.
pub struct ConversationData {
    pub participants: Vec<String>,
    pub cv_name: Option<String>,
    pub sender_guid: Option<String>,
}

/// One part of a message body.
pub enum MessagePart {
    Text(String),
    Attachment(Attachment),
}

/// A message part with its position in the message, when it has one.
pub struct IndexedMessagePart(pub MessagePart, pub Option<usize>);

/// The parts of a message body, in order.
pub struct MessageParts(pub Vec<IndexedMessagePart>);

/// An attachment stored on the content servers.
pub struct MMCSFile {
    pub signature: Vec<u8>,
    pub object: String,
    pub url: String,
    pub key: Vec<u8>,
    pub size: usize,
}

/// Where an attachment's bytes are.
pub enum AttachmentType {
    Inline(Vec<u8>),
    MMCS(MMCSFile),
}

/// A file attached to a message.
pub struct Attachment {
    pub a_type: AttachmentType,
    pub part: u64,
    pub uti_type: String,
    pub mime: String,
    pub name: String,
    pub iris: bool,
}

/// A plain message with parts and text.
pub struct NormalMessage {
    pub parts: MessageParts,
    pub body: Option<BalloonBody>,
    pub effect: Option<String>,
    pub reply_guid: Option<String>,
    pub reply_part: Option<String>,
}

/// A new name for a group chat.
pub struct RenameMessage {
    pub new_name: String,
}

/// A new participant list for a group chat.
pub struct ChangeParticipantMessage {
    pub new_participants: Vec<String>,
    pub group_version: u64,
}

/// A tapback.
#[derive(Debug, Clone, Copy, PartialEq, Eq, Structural)]
pub enum Reaction {
    Heart,
    Like,
    Dislike,
    Laugh,
    Emphsize,
    Question,
}

/// A tapback set on or removed from a message part.
pub struct ReactMessage {
    pub to_uuid: String,
    pub to_part: u64,
    pub enable: bool,
    pub reaction: Reaction,
    pub to_text: String,
}

/// Takes back a sent message part.
pub struct UnsendMessage {
    pub tuuid: String,
    pub edit_part: u64,
}

/// Replaces the parts of a sent message part.
pub struct EditMessage {
    pub tuuid: String,
    pub edit_part: u64,
    pub new_parts: MessageParts,
}

/// A new group icon; the file should be a 570x570 PNG.
pub struct IconChangeMessage {
    pub file: Option<MMCSFile>,
    pub group_version: u64,
}

/// Every kind of message.
pub enum Message {
    Message(NormalMessage),
    RenameMessage(RenameMessage),
    ChangeParticipants(ChangeParticipantMessage),
    React(ReactMessage),
    Delivered,
    Read,
    Typing,
    Unsend(UnsendMessage),
    Edit(EditMessage),
    IconChange(IconChangeMessage),
    StopTyping,
}

/// A message with its envelope.
pub struct IMessage {
    pub id: String,
    pub sender: Option<String>,
    pub after_guid: Option<String>,
    pub conversation: Option<ConversationData>,
    pub message: Message,
    pub sent_timestamp: u64,
}

/// A certificate and its private key, both DER-encoded.
pub struct KeyPair {
    pub cert: Vec<u8>,
    pub private: Vec<u8>,
}

/// The texts of the text parts, in order.
pub open spec fn part_texts(parts: Seq<IndexedMessagePart>) -> Seq<Seq<char>>
    decreases parts.len(),
{
    if parts.len() == 0 {
        Seq::empty()
    } else {
        match parts.last().0 {
            MessagePart::Text(t) => part_texts(parts.drop_last()).push(t@),
            MessagePart::Attachment(_) => part_texts(parts.drop_last()),
        }
    }
}

/// The strings joined with a line break between each two.
pub open spec fn join_lines(ts: Seq<Seq<char>>) -> Seq<char>
    decreases ts.len(),
{
    if ts.len() == 0 {
        Seq::empty()
    } else if ts.len() == 1 {
        ts[0]
    } else {
        join_lines(ts.drop_last()).add("\n"@).add(ts.last())
    }
}

impl MessageParts {
    /// Whether any part is an attachment.
    pub fn has_attachments(&self) -> (r: bool)
        ensures
            r == exists|i: int| 0 <= i < self.0@.len() && self.0@[i].0 is Attachment,
    {
        let mut i: usize = 0;
        while i < self.0.len()
            invariant
                0 <= i <= self.0@.len(),
                forall|j: int| 0 <= j < i ==> !(self.0@[j].0 is Attachment),
            decreases self.0@.len() - i,
        {
            if matches!(self.0[i].0, MessagePart::Attachment(_)) {
                return true;
            }
            i = i + 1;
        }
        false
    }

    /// A body of one text part without a position.
    pub fn from_raw(raw: &str) -> (r: MessageParts)
        ensures
            r.0@.len() == 1,
            r.0@[0].0 matches MessagePart::Text(t) && t@ == raw@,
            r.0@[0].1 is None,
    {
        MessageParts(vec![IndexedMessagePart(MessagePart::Text(String::from_str(raw)), None)])
    }

    /// The text parts joined by line breaks; attachments are left out.
    pub fn raw_text(&self) -> (r: String)
        ensures
            r@ == join_lines(part_texts(self.0@)),
    {
        let mut s = String::from_str("");
        proof {
            reveal_strlit("");
        }
        let mut first = true;
        let mut i: usize = 0;
        while i < self.0.len()
            invariant
                0 <= i <= self.0@.len(),
                s@ == join_lines(part_texts(self.0@.take(i as int))),
                first <==> part_texts(self.0@.take(i as int)).len() == 0,
            decreases self.0@.len() - i,
        {
            proof {
                let t = self.0@.take(i + 1);
                assert(t.drop_last() == self.0@.take(i as int));
                assert(t.last() == self.0@[i as int]);
            }
            match &self.0[i].0 {
                MessagePart::Text(text) => {
                    let ghost ts = part_texts(self.0@.take(i as int));
                    proof {
                        assert(part_texts(self.0@.take(i + 1)) == ts.push(text@));
                        assert(ts.push(text@).drop_last() == ts);
                    }
                    if !first {
                        s.append("\n");
                    }
                    s.append(text.as_str());
                    proof {
                        if ts.len() == 0 {
                            assert(s@ =~= text@);
                        }
                    }
                    first = false;
                },
                MessagePart::Attachment(_) => {},
            }
            i = i + 1;
        }
        assert(self.0@.take(self.0@.len() as int) == self.0@);
        s
    }
}

impl NormalMessage {
    /// A message of one text part and nothing else.
    pub fn new(text: String) -> (r: NormalMessage)
        ensures
            r.parts.0@.len() == 1,
            r.parts.0@[0].0 matches MessagePart::Text(t) && t@ == text@,
            r.parts.0@[0].1 is None,
            r.body is None,
            r.effect is None,
            r.reply_guid is None,
            r.reply_part is None,
    {
        NormalMessage {
            parts: MessageParts(vec![IndexedMessagePart(MessagePart::Text(text), None)]),
            body: None,
            effect: None,
            reply_guid: None,
            reply_part: None,
        }
    }
}

/// What a set tapback is shown as.
pub open spec fn reaction_verb(r: Reaction) -> &'static str {
    match r {
        Reaction::Heart => "Loved",
        Reaction::Like => "Liked",
        Reaction::Dislike => "Disliked",
        Reaction::Laugh => "Laughed at",
        Reaction::Emphsize => "Emphasized",
        Reaction::Question => "Questioned",
    }
}

/// What a removed tapback is shown as, after "Removed a".
pub open spec fn reaction_noun(r: Reaction) -> &'static str {
    match r {
        Reaction::Heart => " heart",
        Reaction::Like => " like",
        Reaction::Dislike => " dislike",
        Reaction::Laugh => " laugh",
        Reaction::Emphsize => "n exclamation",
        Reaction::Question => " question mark",
    }
}

/// The tapback index of each reaction.
pub open spec fn reaction_idx(r: Reaction) -> u64 {
    match r {
        Reaction::Heart => 0,
        Reaction::Like => 1,
        Reaction::Dislike => 2,
        Reaction::Laugh => 3,
        Reaction::Emphsize => 4,
        Reaction::Question => 5,
    }
}

/// The line a tapback is shown as.
pub open spec fn react_text(m: ReactMessage) -> Seq<char> {
    if m.enable {
        reaction_verb(m.reaction)@ + " \u{201c}"@ + m.to_text@ + "\u{201d}"@
    } else {
        "Removed a"@ + reaction_noun(m.reaction)@ + " from \u{201c}"@ + m.to_text@ + "\u{201d}"@
    }
}

impl ReactMessage {
    /// The line a tapback is shown as.
    pub fn get_text(&self) -> (r: String)
        ensures
            r@ == react_text(*self),
    {
        if self.enable {
            let verb = match self.reaction {
                Reaction::Heart => "Loved",
                Reaction::Like => "Liked",
                Reaction::Dislike => "Disliked",
                Reaction::Laugh => "Laughed at",
                Reaction::Emphsize => "Emphasized",
                Reaction::Question => "Questioned",
            };
            let mut s = String::from_str(verb);
            s.append(" \u{201c}");
            s.append(self.to_text.as_str());
            s.append("\u{201d}");
            s
        } else {
            let noun = match self.reaction {
                Reaction::Heart => " heart",
                Reaction::Like => " like",
                Reaction::Dislike => " dislike",
                Reaction::Laugh => " laugh",
                Reaction::Emphsize => "n exclamation",
                Reaction::Question => " question mark",
            };
            let mut s = String::from_str("Removed a");
            s.append(noun);
            s.append(" from \u{201c}");
            s.append(self.to_text.as_str());
            s.append("\u{201d}");
            s
        }
    }

    /// The tapback index of the reaction.
    pub fn get_idx(&self) -> (r: u64)
        ensures
            r == reaction_idx(self.reaction),
    {
        match self.reaction {
            Reaction::Heart => 0,
            Reaction::Like => 1,
            Reaction::Dislike => 2,
            Reaction::Laugh => 3,
            Reaction::Emphsize => 4,
            Reaction::Question => 5,
        }
    }

    /// The reaction with a tapback index.
    pub fn from_idx(idx: u64) -> (r: Option<Reaction>)
        ensures
            r is Some <==> idx < 6,
            r matches Some(x) ==> reaction_idx(x) == idx,
    {
        match idx {
            0 => Some(Reaction::Heart),
            1 => Some(Reaction::Like),
            2 => Some(Reaction::Dislike),
            3 => Some(Reaction::Laugh),
            4 => Some(Reaction::Emphsize),
            5 => Some(Reaction::Question),
            _ => None,
        }
    }
}

impl Attachment {
    /// The size in bytes of the attached file.
    pub fn get_size(&self) -> (r: usize)
        ensures
            r == match self.a_type {
                AttachmentType::Inline(data) => data@.len(),
                AttachmentType::MMCS(mmcs) => mmcs.size as nat,
            },
    {
        match &self.a_type {
            AttachmentType::Inline(data) => data.len(),
            AttachmentType::MMCS(mmcs) => mmcs.size,
        }
    }
}

/// The command number a message kind is sent with.
pub open spec fn command_of(m: Message) -> u8 {
    match m {
        Message::Message(_) => 100,
        Message::React(_) => 100,
        Message::RenameMessage(_) => 190,
        Message::ChangeParticipants(_) => 190,
        Message::Delivered => 101,
        Message::Read => 102,
        Message::Typing => 100,
        Message::Edit(_) => 118,
        Message::Unsend(_) => 118,
        Message::IconChange(_) => 190,
        Message::StopTyping => 100,
    }
}

impl Message {
    /// The command number the message is sent with.
    pub fn get_c(&self) -> (r: u8)
        ensures
            r == command_of(*self),
    {
        match self {
            Message::Message(_) => 100,
            Message::React(_) => 100,
            Message::RenameMessage(_) => 190,
            Message::ChangeParticipants(_) => 190,
            Message::Delivered => 101,
            Message::Read => 102,
            Message::Typing => 100,
            Message::Edit(_) => 118,
            Message::Unsend(_) => 118,
            Message::IconChange(_) => 190,
            Message::StopTyping => 100,
        }
    }

    /// Whether the message is sent without asking for a delivery receipt.
    pub fn get_nr(&self) -> (r: Option<bool>)
        ensures
            r == (if self is Typing || self is Delivered || self is Edit || self is Unsend {
                Some(true)
            } else {
                None::<bool>
            }),
    {
        match self {
            Message::Typing => Some(true),
            Message::Delivered => Some(true),
            Message::Edit(_) => Some(true),
            Message::Unsend(_) => Some(true),
            _ => None,
        }
    }
}

/// The participants as a debug-formatted list.
pub uninterp spec fn debug_list(v: Seq<Seq<char>>) -> Seq<char>;

/// The texts of some strings.
pub open spec fn texts_of(v: Seq<String>) -> Seq<Seq<char>> {
    v.map_values(|s: String| s@)
}

/// Relies on the standard `Debug` formatting of a list of strings: brackets,
/// quoted and escaped items, comma separated; it depends on the texts alone.
#[verifier::external_body]
fn debug_format(v: &Vec<String>) -> (r: String)
    ensures
        r@ == debug_list(texts_of(v@)),
{
    format!("{:?}", v)
}

/// The line a message is shown as.
pub open spec fn message_text(m: Message) -> Seq<char> {
    match m {
        Message::Message(msg) => join_lines(part_texts(msg.parts.0@)),
        Message::RenameMessage(msg) => "renamed the chat to "@ + msg.new_name@,
        Message::ChangeParticipants(msg) => "changed participants "@ + debug_list(
            texts_of(msg.new_participants@),
        ),
        Message::React(msg) => react_text(msg),
        Message::Read => "read"@,
        Message::Delivered => "delivered"@,
        Message::Typing => "typing"@,
        Message::Edit(e) => "Edited "@ + join_lines(part_texts(e.new_parts.0@)),
        Message::Unsend(_) => "unsent a message"@,
        Message::IconChange(_) => "changed the group icon"@,
        Message::StopTyping => "stopped typing"@,
    }
}

impl Message {
    /// The line the message is shown as.
    pub fn to_string(&self) -> (r: String)
        ensures
            r@ == message_text(*self),
    {
        match self {
            Message::Message(msg) => msg.parts.raw_text(),
            Message::RenameMessage(msg) => {
                let mut s = String::from_str("renamed the chat to ");
                s.append(msg.new_name.as_str());
                s
            },
            Message::ChangeParticipants(msg) => {
                let mut s = String::from_str("changed participants ");
                s.append(debug_format(&msg.new_participants).as_str());
                s
            },
            Message::React(msg) => msg.get_text(),
            Message::Read => String::from_str("read"),
            Message::Delivered => String::from_str("delivered"),
            Message::Typing => String::from_str("typing"),
            Message::Edit(e) => {
                let mut s = String::from_str("Edited ");
                s.append(e.new_parts.raw_text().as_str());
                s
            },
            Message::Unsend(_) => String::from_str("unsent a message"),
            Message::IconChange(_) => String::from_str("changed the group icon"),
            Message::StopTyping => String::from_str("stopped typing"),
        }
    }
}

/// Relies on uuid's `Uuid::new_v4` and its `Display`: a random version-4
/// UUID in the 36-character hyphenated form.
#[verifier::external_body]
fn new_guid() -> (r: String)
    ensures
        r@.len() == 36,
{
    uuid::Uuid::new_v4().to_string()
}

fn str_eq(a: &str, b: &str) -> (r: bool)
    ensures
        r == (a@ == b@),
{
    let n = a.unicode_len();
    if n != b.unicode_len() {
        return false;
    }
    let mut i: usize = 0;
    while i < n
        invariant
            n == a@.len() == b@.len(),
            0 <= i <= n,
            a@.take(i as int) == b@.take(i as int),
        decreases n - i,
    {
        if a.get_char(i) != b.get_char(i) {
            assert(a@[i as int] != b@[i as int]);
            return false;
        }
        assert(a@.take(i + 1) == a@.take(i as int).push(a@[i as int]));
        assert(b@.take(i + 1) == b@.take(i as int).push(b@[i as int]));
        i = i + 1;
    }
    assert(a@.take(n as int) == a@);
    assert(b@.take(n as int) == b@);
    true
}

/// The participants after making sure the sender is among them.
pub open spec fn with_sender(ps: Seq<Seq<char>>, sender: Seq<char>) -> Seq<Seq<char>> {
    if ps.contains(sender) {
        ps
    } else {
        ps.push(sender)
    }
}

impl IMessage {
    /// Readies a message for sending: a conversation without a sender GUID
    /// gets `fresh_guid`, and the sender joins the participants if missing.
    pub fn prepare_send(&mut self, fresh_guid: String)
        requires
            old(self).conversation is Some,
            old(self).sender is Some,
        ensures
            final(self).conversation is Some,
            final(self).sender == old(self).sender,
            final(self).id == old(self).id,
            final(self).after_guid == old(self).after_guid,
            final(self).message == old(self).message,
            final(self).sent_timestamp == old(self).sent_timestamp,
            final(self).conversation->Some_0.cv_name == old(self).conversation->Some_0.cv_name,
            old(self).conversation->Some_0.sender_guid is None ==> (final(self).conversation->Some_0.sender_guid matches Some(g) && g@ == fresh_guid@),
            old(self).conversation->Some_0.sender_guid is Some ==> final(self).conversation->Some_0.sender_guid == old(self).conversation->Some_0.sender_guid,
            texts_of(final(self).conversation->Some_0.participants@) == with_sender(
                texts_of(old(self).conversation->Some_0.participants@),
                old(self).sender->Some_0@,
            ),
    {
        let sender = match &self.sender {
            Some(s) => String::from_str(s.as_str()),
            None => String::from_str(""),
        };
        match &mut self.conversation {
            Some(c) => {
                if c.sender_guid.is_none() {
                    c.sender_guid = Some(fresh_guid);
                }
                let ghost ps = texts_of(c.participants@);
                let mut found = false;
                let mut i: usize = 0;
                while i < c.participants.len()
                    invariant
                        ps == texts_of(c.participants@),
                        0 <= i <= c.participants@.len(),
                        found <==> exists|k: int| 0 <= k < i && ps[k] == sender@,
                    decreases c.participants@.len() - i,
                {
                    assert(ps[i as int] == c.participants@[i as int]@);
                    if str_eq(c.participants[i].as_str(), sender.as_str()) {
                        found = true;
                    }
                    assert(found <==> exists|k: int| 0 <= k < i + 1 && ps[k] == sender@) by {
                        if exists|k: int| 0 <= k < i + 1 && ps[k] == sender@ {
                            let k = choose|k: int| 0 <= k < i + 1 && ps[k] == sender@;
                            if k < i {
                                assert(exists|k2: int| 0 <= k2 < i && ps[k2] == sender@);
                            }
                        }
                    }
                    i = i + 1;
                }
                proof {
                    if ps.contains(sender@) {
                        let k = choose|k: int| 0 <= k < ps.len() && ps[k] == sender@;
                        assert(found);
                    }
                }
                if !found {
                    c.participants.push(sender);
                    assert(texts_of(c.participants@) =~= ps.push(old(self).sender->Some_0@));
                }
            },
            None => {},
        }
    }

    /// Readies a message for sending, with a new random GUID for a
    /// conversation that has none yet.
    pub fn sanity_check_send(&mut self)
        requires
            old(self).conversation is Some,
            old(self).sender is Some,
        ensures
            final(self).conversation is Some,
            final(self).sender == old(self).sender,
            final(self).id == old(self).id,
            final(self).after_guid == old(self).after_guid,
            final(self).message == old(self).message,
            final(self).sent_timestamp == old(self).sent_timestamp,
            final(self).conversation->Some_0.cv_name == old(self).conversation->Some_0.cv_name,
            final(self).conversation->Some_0.sender_guid is Some,
            old(self).conversation->Some_0.sender_guid is Some ==> final(self).conversation->Some_0.sender_guid == old(self).conversation->Some_0.sender_guid,
            texts_of(final(self).conversation->Some_0.participants@) == with_sender(
                texts_of(old(self).conversation->Some_0.participants@),
                old(self).sender->Some_0@,
            ),
    {
        let guid = new_guid();
        self.prepare_send(guid);
    }

    /// The line the message is shown as: its sender in brackets, then the
    /// message in quotes.
    pub fn to_string(&self) -> (r: String)
        ensures
            r@ == "["@ + (match self.sender {
                Some(s) => s@,
                None => "unknown"@,
            }) + "] '"@ + message_text(self.message) + "'"@,
    {
        let mut s = String::from_str("[");
        match &self.sender {
            Some(sender) => s.append(sender.as_str()),
            None => s.append("unknown"),
        }
        s.append("] '");
        s.append(self.message.to_string().as_str());
        s.append("'");
        s
    }

    /// Whether the message carries an encrypted body: all but read and
    /// delivery receipts and typing notices do.
    pub fn has_payload(&self) -> (r: bool)
        ensures
            r == !(self.message is Read || self.message is Delivered || self.message is Typing),
    {
        match &self.message {
            Message::Read => false,
            Message::Delivered => false,
            Message::Typing => false,
            _ => true,
        }
    }

    /// The expiry sent with typing notices.
    pub fn get_ex(&self) -> (r: Option<u32>)
        ensures
            r == (if self.message is Typing || self.message is StopTyping {
                Some(0u32)
            } else {
                None::<u32>
            }),
    {
        match &self.message {
            Message::Typing => Some(0),
            Message::StopTyping => Some(0),
            _ => None,
        }
    }
}

/// `s` with each occurrence of `pat` taken out, scanning from the left.
pub open spec fn remove_all(s: Seq<char>, pat: Seq<char>) -> Seq<char>
    decreases s.len(),
{
    if s.len() == 0 {
        s
    } else if 0 < pat.len() <= s.len() && s.take(pat.len() as int) == pat {
        remove_all(s.skip(pat.len() as int), pat)
    } else {
        seq![s[0]].add(remove_all(s.skip(1), pat))
    }
}

fn matches_at(s: &str, i: usize, pat: &str) -> (r: bool)
    requires
        i + pat@.len() <= s@.len(),
    ensures
        r == (s@.subrange(i as int, i + pat@.len()) == pat@),
{
    let n = s.unicode_len();
    let m = pat.unicode_len();
    let mut j: usize = 0;
    while j < m
        invariant
            n == s@.len(),
            m == pat@.len(),
            i + m <= s@.len(),
            0 <= j <= m,
            s@.subrange(i as int, i + j) == pat@.take(j as int),
        decreases m - j,
    {
        if s.get_char(i + j) != pat.get_char(j) {
            assert(s@.subrange(i as int, i + m)[j as int] != pat@[j as int]);
            return false;
        }
        assert(s@.subrange(i as int, i + j + 1) =~= s@.subrange(i as int, i + j).push(s@[i + j]));
        assert(pat@.take(j + 1) =~= pat@.take(j as int).push(pat@[j as int]));
        j = j + 1;
    }
    assert(pat@.take(m as int) =~= pat@);
    true
}

fn strip_all(s: &str, pat: &str) -> (r: String)
    ensures
        r@ == remove_all(s@, pat@),
{
    let n = s.unicode_len();
    let m = pat.unicode_len();
    let mut out = String::from_str("");
    proof {
        reveal_strlit("");
        assert(s@.skip(0) =~= s@);
        assert(out@.add(s@) =~= s@);
    }
    let mut i: usize = 0;
    while i < n
        invariant
            n == s@.len(),
            m == pat@.len(),
            0 <= i <= n,
            out@.add(remove_all(s@.skip(i as int), pat@)) == remove_all(s@, pat@),
        decreases n - i,
    {
        let ghost rest = s@.skip(i as int);
        if m > 0 && m <= n - i && matches_at(s, i, pat) {
            assert(rest.take(m as int) =~= s@.subrange(i as int, i + m));
            assert(rest.skip(m as int) =~= s@.skip(i + m));
            i = i + m;
        } else {
            proof {
                if 0 < m <= n - i {
                    assert(rest.take(m as int) =~= s@.subrange(i as int, i + m));
                }
                assert(rest.skip(1) =~= s@.skip(i + 1));
                assert(rest[0] == s@[i as int]);
            }
            let ghost before = out@;
            out.append(s.substring_char(i, i + 1));
            proof {
                assert(s@.subrange(i as int, i + 1) =~= seq![s@[i as int]]);
                assert(out@.add(remove_all(s@.skip(i + 1), pat@)) =~= before.add(
                    seq![s@[i as int]].add(remove_all(rest.skip(1), pat@)),
                ));
            }
            i = i + 1;
        }
    }
    assert(s@.skip(n as int) =~= Seq::<char>::empty());
    assert(out@.add(Seq::<char>::empty()) =~= out@);
    out
}

/// A participant address without its URI scheme.
pub open spec fn without_scheme(p: Seq<char>) -> Seq<char> {
    remove_all(remove_all(p, "mailto:"@), "tel:"@)
}

/// A participant address with its URI scheme: mail for addresses with an at
/// sign, telephone for the rest.
pub open spec fn with_scheme(p: Seq<char>) -> Seq<char> {
    if p.contains('@') {
        "mailto:"@.add(p)
    } else {
        "tel:"@.add(p)
    }
}

/// The participants with the `mailto:` and `tel:` schemes taken out.
pub fn remove_prefix(participants: &[String]) -> (r: Vec<String>)
    ensures
        r@.len() == participants@.len(),
        forall|i: int|
            0 <= i < r@.len() ==> #[trigger] r@[i]@ == without_scheme(participants@[i]@),
{
    let mut r: Vec<String> = Vec::new();
    let mut i: usize = 0;
    while i < participants.len()
        invariant
            0 <= i <= participants@.len(),
            r@.len() == i,
            forall|k: int| 0 <= k < i ==> #[trigger] r@[k]@ == without_scheme(participants@[k]@),
        decreases participants@.len() - i,
    {
        let once = strip_all(participants[i].as_str(), "mailto:");
        r.push(strip_all(once.as_str(), "tel:"));
        i = i + 1;
    }
    r
}

fn has_at_sign(s: &str) -> (r: bool)
    ensures
        r == s@.contains('@'),
{
    let n = s.unicode_len();
    let mut i: usize = 0;
    while i < n
        invariant
            n == s@.len(),
            0 <= i <= n,
            forall|k: int| 0 <= k < i ==> s@[k] != '@',
        decreases n - i,
    {
        if s.get_char(i) == '@' {
            assert(s@[i as int] == '@');
            return true;
        }
        i = i + 1;
    }
    false
}

/// The participants with a URI scheme put in front.
pub fn add_prefix(participants: &[String]) -> (r: Vec<String>)
    ensures
        r@.len() == participants@.len(),
        forall|i: int| 0 <= i < r@.len() ==> #[trigger] r@[i]@ == with_scheme(participants@[i]@),
{
    let mut r: Vec<String> = Vec::new();
    let mut i: usize = 0;
    while i < participants.len()
        invariant
            0 <= i <= participants@.len(),
            r@.len() == i,
            forall|k: int| 0 <= k < i ==> #[trigger] r@[k]@ == with_scheme(participants@[k]@),
        decreases participants@.len() - i,
    {
        let p = participants[i].as_str();
        let mut s = if has_at_sign(p) {
            String::from_str("mailto:")
        } else {
            String::from_str("tel:")
        };
        s.append(p);
        r.push(s);
        i = i + 1;
    }
    r
}

} // verus!
