use vstd::prelude::*;

verus! {

/// One protocol message, exchanged as a single line on the wire.
#[derive(Clone, Debug, PartialEq, Eq)]
pub enum Message {
    Text(TextMessage),
    File(FileMessage),
    Command(CommandMessage),
    Auth(AuthMessage),
}

/// A chat message addressed to a channel.
#[derive(Clone, Debug, PartialEq, Eq)]
pub struct TextMessage {
    pub username: String,
    pub auth_token: String,
    pub body: String,
    pub channel: String,
    pub embed_pointer: Option<usize>,
    pub embed_type: Option<String>,
    pub message_id: Option<u32>,
    pub timestamp: u64,
}

/// A file payload; `data` is an opaque encoded blob.
#[derive(Clone, Debug, PartialEq, Eq)]
pub struct FileMessage {
    pub username: String,
    pub auth_token: String,
    pub filename: String,
    pub data: String,
}

/// A server-directed command with command-specific arguments.
#[derive(Clone, Debug, PartialEq, Eq)]
pub struct CommandMessage {
    pub username: String,
    pub auth_token: String,
    pub command_type: String,
    pub args: Vec<String>,
}

/// The handshake message: the client sends a password, the server answers
/// with a token.
#[derive(Clone, Debug, PartialEq, Eq)]
pub struct AuthMessage {
    pub username: String,
    pub auth_token: Option<String>,
    pub password: Option<String>,
}

impl Message {
    /// Every frame but the handshake one is gated behind an auth token.
    pub open spec fn is_gated(&self) -> bool {
        !(self is Auth)
    }

    /// The token that a gated frame carries.
    pub open spec fn gated_token(&self) -> Seq<char> {
        match self {
            Message::Text(t) => t.auth_token@,
            Message::File(f) => f.auth_token@,
            Message::Command(c) => c.auth_token@,
            Message::Auth(_) => Seq::empty(),
        }
    }

    /// Whether this is a text message with the given fields, its optional
    /// metadata absent and its timestamp zero, as the client sends it.
    pub open spec fn is_outgoing_text(
        &self,
        username: Seq<char>,
        token: Seq<char>,
        body: Seq<char>,
        channel: Seq<char>,
    ) -> bool {
        &&& self is Text
        &&& self->Text_0.username@ == username
        &&& self->Text_0.auth_token@ == token
        &&& self->Text_0.body@ == body
        &&& self->Text_0.channel@ == channel
        &&& self->Text_0.embed_pointer is None
        &&& self->Text_0.embed_type is None
        &&& self->Text_0.message_id is None
        &&& self->Text_0.timestamp == 0
    }

    /// Whether this is a command message with the given type and arguments.
    pub open spec fn is_command(
        &self,
        username: Seq<char>,
        token: Seq<char>,
        command_type: Seq<char>,
        args: Seq<Seq<char>>,
    ) -> bool {
        &&& self is Command
        &&& self->Command_0.username@ == username
        &&& self->Command_0.auth_token@ == token
        &&& self->Command_0.command_type@ == command_type
        &&& self->Command_0.args@.len() == args.len()
        &&& forall|i: int|
            0 <= i < args.len() ==> #[trigger] self->Command_0.args@[i]@ == args[i]
    }
}

} // verus!
