//! The unit of broadcast content and the envelope that carries it.
use vstd::prelude::*;
use vstd::string::*;

verus! {

/// The closed set of kinds a message can have.
#[derive(Clone, Copy, Debug, PartialEq, Eq, Structural)]
pub enum MessageType {
    Text,
    Image,
    Video,
}

/// One published message: a text body (or the path of an uploaded asset),
/// its kind, and the time it was stamped, in seconds since the Unix epoch.
#[derive(Clone, Debug)]
pub struct BroadcastMessage {
    pub message: String,
    pub type_message: MessageType,
    pub created_at: i64,
}

/// What a message is, as a mathematical value.
pub struct MessageView {
    pub body: Seq<char>,
    pub kind: MessageType,
    pub created_at: i64,
}

impl View for BroadcastMessage {
    type V = MessageView;

    open spec fn view(&self) -> MessageView {
        MessageView { body: self.message@, kind: self.type_message, created_at: self.created_at }
    }
}

/// Relies on chrono's `Utc::now` and `DateTime::timestamp`: the current time as
/// whole seconds since the Unix epoch. Nothing is promised of its value.
#[verifier::external_body]
fn unix_now() -> (r: i64) {
    chrono::Utc::now().timestamp()
}

impl BroadcastMessage {
    /// A message with the given body, kind and time stamp.
    pub fn new(message: String, type_message: MessageType, created_at: i64) -> (r: BroadcastMessage)
        ensures
            r@ == (MessageView { body: message@, kind: type_message, created_at }),
    {
        BroadcastMessage { message, type_message, created_at }
    }

    /// A message with the given body and kind, stamped with the current time.
    pub fn stamped(message: String, type_message: MessageType) -> (r: BroadcastMessage)
        ensures
            r@.body == message@,
            r@.kind == type_message,
    {
        let created_at = unix_now();
        BroadcastMessage { message, type_message, created_at }
    }

    /// A field-by-field copy.
    pub fn duplicate(&self) -> (r: BroadcastMessage)
        ensures
            r@ == self@,
    {
        BroadcastMessage {
            message: self.message.clone(),
            type_message: self.type_message,
            created_at: self.created_at,
        }
    }
}

/// What an envelope carries besides its status and text: a list of
/// messages, or the single empty placeholder that error replies carry.
pub enum ResponseValue {
    Messages(Vec<BroadcastMessage>),
    Placeholder,
}

/// The envelope that goes on the wire: a status word, a human-readable text,
/// and optionally a value.
pub struct GenericResponse {
    pub status: String,
    pub message: String,
    pub value: Option<ResponseValue>,
}

/// The human-readable text that acknowledges a publish of the given kind.
pub open spec fn created_text(kind: MessageType) -> Seq<char> {
    match kind {
        MessageType::Text => "Message sent and broadcasted"@,
        MessageType::Image => "Image uploaded and broadcasted"@,
        MessageType::Video => "Video uploaded and broadcasted"@,
    }
}

/// The messages an envelope carries, as values; empty when it carries none.
pub open spec fn carried(r: GenericResponse) -> Seq<MessageView> {
    match r.value {
        Some(ResponseValue::Messages(v)) => v@.map_values(|m: BroadcastMessage| m@),
        _ => Seq::empty(),
    }
}

impl GenericResponse {
    /// The frame pushed to a session: status "success", text
    /// "Message broadcasted", and the one message.
    pub fn broadcasted(msg: BroadcastMessage) -> (r: GenericResponse)
        ensures
            r.status@ == "success"@,
            r.message@ == "Message broadcasted"@,
            r.value is Some,
            r.value->0 is Messages,
            carried(r) == seq![msg@],
    {
        let ghost m = msg@;
        let r = GenericResponse {
            status: String::from_str("success"),
            message: String::from_str("Message broadcasted"),
            value: Some(ResponseValue::Messages(vec![msg])),
        };
        proof {
            reveal_strlit("success");
            reveal_strlit("Message broadcasted");
            assert(carried(r) =~= seq![m]);
        }
        r
    }

    /// The reply to a publisher: status "created", a text that names the
    /// kind published, and the message.
    pub fn created(msg: BroadcastMessage) -> (r: GenericResponse)
        ensures
            r.status@ == "created"@,
            r.message@ == created_text(msg.type_message),
            r.value is Some,
            r.value->0 is Messages,
            carried(r) == seq![msg@],
    {
        let ghost m = msg@;
        let text = match msg.type_message {
            MessageType::Text => String::from_str("Message sent and broadcasted"),
            MessageType::Image => String::from_str("Image uploaded and broadcasted"),
            MessageType::Video => String::from_str("Video uploaded and broadcasted"),
        };
        let r = GenericResponse {
            status: String::from_str("created"),
            message: text,
            value: Some(ResponseValue::Messages(vec![msg])),
        };
        proof {
            reveal_strlit("created");
            assert(carried(r) =~= seq![m]);
        }
        r
    }

    /// An error reply: the given status and text, and the empty placeholder.
    pub fn rejection(status: &str, message: &str) -> (r: GenericResponse)
        ensures
            r.status@ == status@,
            r.message@ == message@,
            r.value == Some(ResponseValue::Placeholder),
    {
        GenericResponse {
            status: String::from_str(status),
            message: String::from_str(message),
            value: Some(ResponseValue::Placeholder),
        }
    }
}

} // verus!
