use vstd::prelude::*;

use crate::frame::{AuthMessage, CommandMessage, Message, TextMessage};
use crate::namer::{dm_name, generate_dm_name, names_of, trim, trim_of};

verus! {

/// Where the session controller stands.
#[derive(Clone, Copy, Debug, PartialEq, Eq, Structural)]
pub enum Phase {
    /// The auth request is out; no token has come back yet.
    AwaitingToken,
    /// Authenticated; the next input line is a command or a chat message.
    Ready,
    /// Authenticated; the next input line is the new channel name.
    AwaitingChannel,
    /// Authenticated; the next input line lists the participants of a
    /// direct conversation.
    AwaitingDmUsers,
}

/// What the controller asks its surroundings to do after an input line.
#[derive(Debug)]
pub enum Action {
    /// Put this frame on the outbound queue.
    Send(Message),
    /// End the process cleanly.
    Quit,
    /// Ask the user for a new channel name.
    AskChannel,
    /// Ask the user for the participants of a direct conversation.
    AskDmUsers,
    /// Nothing to do; read the next line.
    Nothing,
}

/// The state of the session controller.
pub struct Session {
    pub username: String,
    pub auth_token: Option<String>,
    pub channel: String,
    pub phase: Phase,
}

/// The channel a session starts on.
pub open spec fn initial_channel() -> Seq<char> {
    seq!['g', 'e', 'n', 'e', 'r', 'a', 'l']
}

/// The command type of a history request.
pub open spec fn history_command() -> Seq<char> {
    seq!['h', 'i', 's', 't', 'o', 'r', 'y']
}

/// The number of past messages a history request asks for.
pub open spec fn history_depth() -> Seq<char> {
    seq!['5', '0']
}

/// The pieces of `s` between single spaces, empty pieces included.
pub open spec fn split_spaces(s: Seq<char>) -> Seq<Seq<char>>
    decreases s.len(),
{
    if s.len() == 0 {
        seq![Seq::empty()]
    } else {
        let init = split_spaces(s.drop_last());
        if s.last() == ' ' {
            init.push(Seq::empty())
        } else {
            init.update(init.len() - 1, init.last().push(s.last()))
        }
    }
}

proof fn lemma_split_spaces_nonempty(s: Seq<char>)
    ensures
        split_spaces(s).len() > 0,
    decreases s.len(),
{
    if s.len() > 0 {
        lemma_split_spaces_nonempty(s.drop_last());
    }
}

/// Splits a line into its pieces between single spaces.
pub fn split_on_spaces(line: &str) -> (r: Vec<&str>)
    ensures
        names_of(r@) == split_spaces(line@),
{
    let n = line.unicode_len();
    let mut pieces: Vec<&str> = Vec::new();
    let mut start: usize = 0;
    let mut i: usize = 0;
    assert(line@.take(0) =~= Seq::<char>::empty());
    assert(names_of(pieces@).push(line@.subrange(0, 0)) =~= split_spaces(line@.take(0)));
    while i < n
        invariant
            n == line@.len(),
            start <= i <= n,
            names_of(pieces@).push(line@.subrange(start as int, i as int)) == split_spaces(
                line@.take(i as int),
            ),
        decreases n - i,
    {
        let c = line.get_char(i);
        proof {
            let t = line@.take(i as int + 1);
            assert(t.drop_last() =~= line@.take(i as int));
            lemma_split_spaces_nonempty(line@.take(i as int));
        }
        if c == ' ' {
            let piece = line.substring_char(start, i);
            let ghost before = names_of(pieces@);
            pieces.push(piece);
            assert(names_of(pieces@) =~= before.push(piece@));
            start = i + 1;
            assert(line@.subrange(start as int, i as int + 1) =~= Seq::<char>::empty());
        } else {
            assert(line@.subrange(start as int, i as int + 1) =~= line@.subrange(
                start as int,
                i as int,
            ).push(c));
        }
        i = i + 1;
        assert(names_of(pieces@).push(line@.subrange(start as int, i as int)) =~= split_spaces(
            line@.take(i as int),
        ));
    }
    let last = line.substring_char(start, n);
    let ghost before = names_of(pieces@);
    pieces.push(last);
    assert(names_of(pieces@) =~= before.push(last@));
    assert(line@.take(n as int) =~= line@);
    pieces
}

/// Whether `t` is the one-letter command `c`.
fn is_letter(t: &str, c: char) -> (r: bool)
    ensures
        r == (t@ == seq![c]),
{
    if t.unicode_len() == 1 {
        let d = t.get_char(0);
        assert(t@ == seq![d] ==> d == t@[0]);
        if d == c {
            assert(t@ =~= seq![c]);
        }
        d == c
    } else {
        false
    }
}

impl Session {
    /// Whether the token is there exactly when the handshake is over.
    pub open spec fn wf(&self) -> bool {
        (self.phase == Phase::AwaitingToken) == (self.auth_token is None)
    }

    /// The token of an authenticated session.
    pub open spec fn token(&self) -> Seq<char> {
        self.auth_token->Some_0@
    }

    /// A session for `username`, waiting for its token, on the initial
    /// channel.
    pub fn new(username: String) -> (r: Session)
        ensures
            r.wf(),
            r.phase == Phase::AwaitingToken,
            r.username@ == username@,
            r.channel@ == initial_channel(),
    {
        let channel = String::from_str("general");
        proof {
            reveal_strlit("general");
        }
        Session { username, auth_token: None, channel, phase: Phase::AwaitingToken }
    }

    /// The handshake request that opens the session.
    pub fn auth_request(&self, password: String) -> (r: Message)
        ensures
            r is Auth,
            r->Auth_0.username@ == self.username@,
            r->Auth_0.auth_token is None,
            r->Auth_0.password is Some,
            r->Auth_0.password->Some_0@ == password@,
    {
        Message::Auth(
            AuthMessage { username: self.username.clone(), auth_token: None, password: Some(password) },
        )
    }

    /// Ends the handshake with the token the reader handed over. The token
    /// is kept for the rest of the session: a second one is refused, and
    /// the result says whether this one was taken.
    pub fn on_token(&mut self, token: String) -> (r: bool)
        requires
            old(self).wf(),
        ensures
            final(self).wf(),
            r == (old(self).phase == Phase::AwaitingToken),
            r ==> final(self).phase == Phase::Ready && final(self).token() == token@
                && final(self).username == old(self).username && final(self).channel == old(
                self,
            ).channel,
            !r ==> *final(self) == *old(self),
    {
        if self.phase == Phase::AwaitingToken {
            self.auth_token = Some(token);
            self.phase = Phase::Ready;
            true
        } else {
            false
        }
    }

    /// Interprets one line of local input.
    ///
    /// Before the handshake is over every line is left alone and nothing is
    /// sent. Afterwards, with the line trimmed: `q` quits, `h` asks for the
    /// history of the current channel, `c` and `d` ask for a channel name or
    /// for participants, which the next line gives, and anything else is a
    /// chat message to the current channel.
    pub fn on_input(&mut self, line: &str) -> (r: Action)
        requires
            old(self).wf(),
        ensures
            final(self).wf(),
            final(self).username == old(self).username,
            final(self).auth_token == old(self).auth_token,
            r is Send ==> old(self).phase != Phase::AwaitingToken && r->Send_0.is_gated()
                && r->Send_0.gated_token() == old(self).token(),
            ({
                let t = trim_of(line@);
                let s = *old(self);
                let f = *final(self);
                match s.phase {
                    Phase::AwaitingToken => r is Nothing && f == s,
                    Phase::AwaitingChannel => r is Nothing && f.phase == Phase::Ready
                        && f.channel@ == t,
                    Phase::AwaitingDmUsers => r is Nothing && f.phase == Phase::Ready
                        && f.channel@ == dm_name(split_spaces(line@)),
                    Phase::Ready => if t == seq!['q'] {
                        r is Quit && f == s
                    } else if t == seq!['h'] {
                        &&& r is Send
                        &&& r->Send_0.is_command(
                            s.username@,
                            s.token(),
                            history_command(),
                            seq![s.channel@, history_depth()],
                        )
                        &&& f == s
                    } else if t == seq!['c'] {
                        r is AskChannel && f.phase == Phase::AwaitingChannel && f.channel
                            == s.channel
                    } else if t == seq!['d'] {
                        r is AskDmUsers && f.phase == Phase::AwaitingDmUsers && f.channel
                            == s.channel
                    } else {
                        &&& r is Send
                        &&& r->Send_0.is_outgoing_text(s.username@, s.token(), t, s.channel@)
                        &&& f == s
                    },
                }
            }),
    {
        match self.phase {
            Phase::AwaitingToken => Action::Nothing,
            Phase::AwaitingChannel => {
                self.channel = String::from_str(trim(line));
                self.phase = Phase::Ready;
                Action::Nothing
            },
            Phase::AwaitingDmUsers => {
                let pieces = split_on_spaces(line);
                self.channel = generate_dm_name(pieces.as_slice());
                self.phase = Phase::Ready;
                Action::Nothing
            },
            Phase::Ready => {
                let t = trim(line);
                let token = match &self.auth_token {
                    Some(tok) => tok.clone(),
                    None => String::new(),
                };
                if is_letter(t, 'q') {
                    Action::Quit
                } else if is_letter(t, 'h') {
                    let mut args: Vec<String> = Vec::new();
                    args.push(self.channel.clone());
                    let depth = String::from_str("50");
                    proof {
                        reveal_strlit("50");
                    }
                    args.push(depth);
                    let command_type = String::from_str("history");
                    proof {
                        reveal_strlit("history");
                    }
                    assert(command_type@ == history_command());
                    assert(args@[0]@ == self.channel@);
                    assert(args@[1]@ == history_depth());
                    let m = Message::Command(
                        CommandMessage {
                            username: self.username.clone(),
                            auth_token: token,
                            command_type,
                            args,
                        },
                    );
                    Action::Send(m)
                } else if is_letter(t, 'c') {
                    self.phase = Phase::AwaitingChannel;
                    Action::AskChannel
                } else if is_letter(t, 'd') {
                    self.phase = Phase::AwaitingDmUsers;
                    Action::AskDmUsers
                } else {
                    let m = Message::Text(
                        TextMessage {
                            username: self.username.clone(),
                            auth_token: token,
                            body: String::from_str(t),
                            channel: self.channel.clone(),
                            embed_pointer: None,
                            embed_type: None,
                            message_id: None,
                            timestamp: 0,
                        },
                    );
                    Action::Send(m)
                }
            },
        }
    }
}

} // verus!
