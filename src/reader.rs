use vstd::prelude::*;

use crate::frame::{Message, TextMessage};

verus! {

/// The ways a session ends other than by the user quitting.
#[derive(Clone, Copy, Debug, PartialEq, Eq, Structural)]
pub enum Failure {
    /// The server could not be reached.
    Connection,
    /// A received line is not a well-formed frame.
    Decode,
    /// Reading from or writing to the connection failed.
    Io,
    /// The server closed the connection.
    PeerClosed,
}

impl Failure {
    /// The process status that this failure ends the process with.
    pub fn exit_status(&self) -> (r: i32)
        ensures
            r == 1,
    {
        1
    }
}

/// The process status of a clean quit.
pub fn quit_status() -> (r: i32)
    ensures
        r == 0,
{
    0
}

/// What one read from the connection produced, once decoded.
#[derive(Debug)]
pub enum Inbound {
    /// A line that decoded to a frame.
    Frame(Message),
    /// A line that did not decode.
    Malformed,
    /// The end of the stream.
    EndOfStream,
    /// The read failed.
    ReadError,
}

/// What the reader does with what it received.
#[derive(Debug)]
pub enum ReaderAction {
    /// Show this text to the user.
    Show(String),
    /// Hand this token to the controller waiting on the handshake.
    DeliverToken(String),
    /// Nothing to do.
    Ignore,
    /// The connection is lost: end the process.
    Fail(Failure),
}

/// The state of the reader: whether the handshake token has gone out.
pub struct Reader {
    pub token_delivered: bool,
}

/// `<username> body`.
pub open spec fn rendered(username: Seq<char>, body: Seq<char>) -> Seq<char> {
    seq!['<'] + username + seq!['>', ' '] + body
}

/// Renders a text message for display as `<username> body`.
pub fn render_text(m: &TextMessage) -> (r: String)
    ensures
        r@ == rendered(m.username@, m.body@),
{
    let mut out = String::from_str("<");
    out.append(m.username.as_str());
    out.append("> ");
    out.append(m.body.as_str());
    proof {
        reveal_strlit("<");
        reveal_strlit("> ");
    }
    out
}

impl Reader {
    /// A reader that has not handed out a token yet.
    pub fn new() -> (r: Reader)
        ensures
            !r.token_delivered,
    {
        Reader { token_delivered: false }
    }

    /// Routes one inbound event.
    ///
    /// Text is shown; the first auth response hands its token over and
    /// later ones are ignored; an auth response without a token, a line that
    /// does not decode, the end of the stream and a read error all end the
    /// session. File and command frames have no local handling.
    pub fn on_inbound(&mut self, ev: Inbound) -> (r: ReaderAction)
        ensures
            final(self).token_delivered == (old(self).token_delivered || r is DeliverToken),
            match ev {
                Inbound::Frame(Message::Text(t)) => r is Show && r->Show_0@ == rendered(
                    t.username@,
                    t.body@,
                ),
                Inbound::Frame(Message::Auth(a)) => if old(self).token_delivered {
                    r is Ignore
                } else if a.auth_token is Some {
                    r is DeliverToken && r->DeliverToken_0 == a.auth_token->Some_0
                } else {
                    r == ReaderAction::Fail(Failure::Decode)
                },
                Inbound::Frame(_) => r is Ignore,
                Inbound::Malformed => r == ReaderAction::Fail(Failure::Decode),
                Inbound::EndOfStream => r == ReaderAction::Fail(Failure::PeerClosed),
                Inbound::ReadError => r == ReaderAction::Fail(Failure::Io),
            },
    {
        match ev {
            Inbound::Frame(Message::Text(t)) => ReaderAction::Show(render_text(&t)),
            Inbound::Frame(Message::Auth(a)) => {
                if self.token_delivered {
                    ReaderAction::Ignore
                } else {
                    match a.auth_token {
                        Some(token) => {
                            self.token_delivered = true;
                            ReaderAction::DeliverToken(token)
                        },
                        None => ReaderAction::Fail(Failure::Decode),
                    }
                }
            },
            Inbound::Frame(_) => ReaderAction::Ignore,
            Inbound::Malformed => ReaderAction::Fail(Failure::Decode),
            Inbound::EndOfStream => ReaderAction::Fail(Failure::PeerClosed),
            Inbound::ReadError => ReaderAction::Fail(Failure::Io),
        }
    }
}

} // verus!
