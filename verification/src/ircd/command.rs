//! The commands of the wire protocol: how a line is read as a command, and
//! what a command does to the server and sends to whom.

use super::channel::{fresh_channel, Channel, ChannelView};
use super::client::{cap_reply, cap_state, ClientView};
use super::ircd::{
    addressed_within, channel_place, has_channel, lines_for, roster_ok, valid, Delivery,
    DeliveryView, ServerState, ServerView,
};
use super::response::{or_empty, params_for, ResponseCode, ResponseParams, ResponseParamsView};
use super::roster::{bind, nicks, rename, session_of, Binding, Roster, SessionId};
use super::text::{
    join, join_from, opt_text, same_text, split_tokens, starts_with, strip_colon_and_trim,
    strip_one, to_upper, tokens, trim, upper_is, words_from,
};
use vstd::prelude::*;

verus! {

/// One command of a client.
#[allow(non_camel_case_types)]
#[derive(Debug, PartialEq, Eq)]
pub enum Command {
    CapLs,
    CapReq(Vec<String>),
    CapEnd,
    NICK(String),
    USER(String),
    JOIN(String),
    PING(String),
    PRIVMSG(String, String),
    NAMES(Option<String>),
    QUIT,
    Unknown(String),
}

/// A [`Command`] as plain text.
#[allow(non_camel_case_types)]
pub enum CommandView {
    CapLs,
    CapReq(Seq<Seq<char>>),
    CapEnd,
    NICK(Seq<char>),
    USER(Seq<char>),
    JOIN(Seq<char>),
    PING(Seq<char>),
    PRIVMSG(Seq<char>, Seq<char>),
    NAMES(Option<Seq<char>>),
    QUIT,
    Unknown(Seq<char>),
}

impl View for Command {
    type V = CommandView;

    open spec fn view(&self) -> CommandView {
        match self {
            Command::CapLs => CommandView::CapLs,
            Command::CapReq(labels) => CommandView::CapReq(labels.deep_view()),
            Command::CapEnd => CommandView::CapEnd,
            Command::NICK(nick) => CommandView::NICK(nick@),
            Command::USER(user) => CommandView::USER(user@),
            Command::JOIN(channel) => CommandView::JOIN(channel@),
            Command::PING(token) => CommandView::PING(token@),
            Command::PRIVMSG(target, text) => CommandView::PRIVMSG(target@, text@),
            Command::NAMES(channel) => CommandView::NAMES(opt_text(*channel)),
            Command::QUIT => CommandView::QUIT,
            Command::Unknown(line) => CommandView::Unknown(line@),
        }
    }
}

/// The text of a PRIVMSG whose tokens are `t`: the tokens after the target,
/// joined by single spaces, without one leading colon, trimmed.
pub open spec fn message_text(t: Seq<Seq<char>>) -> Seq<char> {
    trim(strip_one(join(t.skip(2), " "@), ':'))
}

/// The command that the tokens `t` of the line `line` spell. The verb and the
/// sub-command of CAP are matched without regard to ASCII case; a line that
/// fits no shape is `Unknown` and keeps its raw text.
pub open spec fn command_of(t: Seq<Seq<char>>, line: Seq<char>) -> CommandView {
    if t.len() == 0 {
        CommandView::Unknown(line)
    } else {
        let verb = to_upper(t[0]);
        if verb == "CAP"@ {
            if t.len() < 2 {
                CommandView::Unknown(line)
            } else if to_upper(t[1]) == "LS"@ {
                CommandView::CapLs
            } else if to_upper(t[1]) == "END"@ {
                CommandView::CapEnd
            } else if to_upper(t[1]) == "REQ"@ {
                CommandView::CapReq(t.skip(2))
            } else {
                CommandView::Unknown(line)
            }
        } else if verb == "NICK"@ {
            if t.len() >= 2 {
                CommandView::NICK(t[1])
            } else {
                CommandView::Unknown(line)
            }
        } else if verb == "PING"@ {
            if t.len() >= 2 {
                CommandView::PING(t[1])
            } else {
                CommandView::Unknown(line)
            }
        } else if verb == "USER"@ {
            if t.len() >= 2 {
                CommandView::USER(t[1])
            } else {
                CommandView::Unknown(line)
            }
        } else if verb == "JOIN"@ {
            if t.len() >= 2 {
                CommandView::JOIN(t[1])
            } else {
                CommandView::Unknown(line)
            }
        } else if verb == "PRIVMSG"@ {
            if t.len() > 2 && message_text(t).len() > 0 {
                CommandView::PRIVMSG(t[1], message_text(t))
            } else {
                CommandView::Unknown(line)
            }
        } else if verb == "NAMES"@ {
            if t.len() >= 2 {
                CommandView::NAMES(Some(t[1]))
            } else {
                CommandView::NAMES(None)
            }
        } else if verb == "QUIT"@ {
            CommandView::QUIT
        } else {
            CommandView::Unknown(line)
        }
    }
}

/// The command that a line spells.
pub open spec fn parse_spec(line: Seq<char>) -> CommandView {
    command_of(tokens(line), line)
}

impl Command {
    /// Reads one line, given without its line ending, as a command. Every
    /// line is some command: what fits no shape is `Unknown`.
    pub fn parse(input: &str) -> (cmd: Command)
        ensures
            cmd@ == parse_spec(input@),
    {
        let parts = split_tokens(input);
        if parts.len() == 0 {
            return Command::Unknown(input.to_owned());
        }
        let verb = parts[0].as_str();
        if upper_is(verb, "CAP") {
            if parts.len() < 2 {
                Command::Unknown(input.to_owned())
            } else if upper_is(parts[1].as_str(), "LS") {
                Command::CapLs
            } else if upper_is(parts[1].as_str(), "END") {
                Command::CapEnd
            } else if upper_is(parts[1].as_str(), "REQ") {
                Command::CapReq(words_from(&parts, 2))
            } else {
                Command::Unknown(input.to_owned())
            }
        } else if upper_is(verb, "NICK") {
            if parts.len() >= 2 {
                Command::NICK(parts[1].clone())
            } else {
                Command::Unknown(input.to_owned())
            }
        } else if upper_is(verb, "PING") {
            if parts.len() >= 2 {
                Command::PING(parts[1].clone())
            } else {
                Command::Unknown(input.to_owned())
            }
        } else if upper_is(verb, "USER") {
            if parts.len() >= 2 {
                Command::USER(parts[1].clone())
            } else {
                Command::Unknown(input.to_owned())
            }
        } else if upper_is(verb, "JOIN") {
            if parts.len() >= 2 {
                Command::JOIN(parts[1].clone())
            } else {
                Command::Unknown(input.to_owned())
            }
        } else if upper_is(verb, "PRIVMSG") {
            if parts.len() > 2 {
                let joined = join_from(&parts, 2, " ");
                let text = strip_colon_and_trim(joined.as_str());
                if !text.as_str().is_empty() {
                    Command::PRIVMSG(parts[1].clone(), text)
                } else {
                    Command::Unknown(input.to_owned())
                }
            } else {
                Command::Unknown(input.to_owned())
            }
        } else if upper_is(verb, "NAMES") {
            if parts.len() >= 2 {
                Command::NAMES(Some(parts[1].clone()))
            } else {
                Command::NAMES(None)
            }
        } else if upper_is(verb, "QUIT") {
            Command::QUIT
        } else {
            Command::Unknown(input.to_owned())
        }
    }
}

/// The nickname of a session; empty where it has none.
pub open spec fn nick_of(st: ServerView, session: SessionId) -> Seq<char> {
    or_empty(st.sessions[session as int].nick)
}

/// The line that welcomes a client under its new nickname.
pub open spec fn welcome_text(nick: Seq<char>) -> Seq<char> {
    ":server 001 "@ + nick + " :Welcome!\r\n"@
}

/// The line that tells of a change of nickname.
pub open spec fn nick_text(old_nick: Seq<char>, new_nick: Seq<char>) -> Seq<char> {
    ":"@ + old_nick + " NICK "@ + new_nick + "\r\n"@
}

/// The line that tells of a client joining a channel.
pub open spec fn join_text(nick: Seq<char>, channel: Seq<char>) -> Seq<char> {
    ":"@ + nick + " JOIN "@ + channel + "\r\n"@
}

/// The line that carries a message from `nick` to `target`.
pub open spec fn privmsg_text(nick: Seq<char>, target: Seq<char>, text: Seq<char>) -> Seq<char> {
    ":"@ + nick + " PRIVMSG "@ + target + " :"@ + text + "\r\n"@
}

/// The answer to a PING.
pub open spec fn pong_text(token: Seq<char>) -> Seq<char> {
    "PONG server "@ + token + "\r\n"@
}

/// The line that confirms a QUIT.
pub open spec fn quit_text(nick: Seq<char>) -> Seq<char> {
    ":"@ + nick + " QUIT\r\n"@
}

/// The topic reply for `channel`, addressed to `nick`.
pub open spec fn topic_reply(nick: Seq<char>, channel: Seq<char>) -> Seq<char> {
    ResponseCode::RPL_TOPIC.message_spec(
        ResponseParamsView { channel: Some(channel), ..params_for(nick) },
    )
}

/// The reply that lists `names` as the members of `channel`.
pub open spec fn names_reply(nick: Seq<char>, channel: Seq<char>, names: Seq<char>) -> Seq<char> {
    ResponseCode::RPL_NAMREPLY.message_spec(
        ResponseParamsView { channel: Some(channel), message: Some(names), ..params_for(nick) },
    )
}

/// The reply that ends a list of names.
pub open spec fn end_of_names(nick: Seq<char>, channel: Seq<char>) -> Seq<char> {
    ResponseCode::RPL_ENDOFNAMES.message_spec(
        ResponseParamsView { channel: Some(channel), ..params_for(nick) },
    )
}

/// The nicknames of the members, in order, with single spaces between them.
pub open spec fn name_list(members: Seq<Binding>) -> Seq<char> {
    join(nicks(members), " "@)
}

/// One line for one session.
pub open spec fn to(session: SessionId, line: Seq<char>) -> DeliveryView {
    DeliveryView { recipient: session, line }
}

/// `line` for the session of every binding whose nickname is not `nick`, in
/// the order of the bindings.
pub open spec fn to_others(b: Seq<Binding>, nick: Seq<char>, line: Seq<char>) -> Seq<DeliveryView>
    decreases b.len(),
{
    if b.len() == 0 {
        Seq::empty()
    } else if b.last().nick != nick {
        to_others(b.drop_last(), nick, line).push(to(b.last().session, line))
    } else {
        to_others(b.drop_last(), nick, line)
    }
}

/// The members of the channel named `name`; none where there is no such
/// channel.
pub open spec fn members_of(channels: Seq<ChannelView>, name: Seq<char>) -> Seq<Binding> {
    if has_channel(channels, name) {
        channels[channel_place(channels, name)].users
    } else {
        Seq::empty()
    }
}

/// The channels with `old_nick` renamed to `new_nick` in every membership
/// that holds it.
pub open spec fn renamed_channels(
    channels: Seq<ChannelView>,
    old_nick: Seq<char>,
    new_nick: Seq<char>,
) -> Seq<ChannelView> {
    channels.map_values(
        |c: ChannelView| ChannelView { users: rename(c.users, old_nick, new_nick), ..c },
    )
}

/// The channels after `nick` has joined `name` with `session`: the channel is
/// made, at the end, where it did not exist.
pub open spec fn joined_channels(
    channels: Seq<ChannelView>,
    name: Seq<char>,
    nick: Seq<char>,
    session: SessionId,
) -> Seq<ChannelView> {
    let members = bind(members_of(channels, name), nick, session);
    if has_channel(channels, name) {
        let i = channel_place(channels, name);
        channels.update(i, ChannelView { users: members, ..channels[i] })
    } else {
        channels.push(ChannelView { users: members, ..fresh_channel(name) })
    }
}

/// The state after `NICK new_nick` from `session`: the registry entry of the
/// session's old nickname moves to the new one, so does the old nickname's
/// place in every channel, and the session takes the new nickname.
pub open spec fn nick_state(st: ServerView, session: SessionId, new_nick: Seq<char>) -> ServerView {
    let old_nick = nick_of(st, session);
    ServerView {
        sessions: st.sessions.update(
            session as int,
            ClientView { nick: Some(new_nick), ..st.sessions[session as int] },
        ),
        users: rename(st.users, old_nick, new_nick),
        channels: renamed_channels(st.channels, old_nick, new_nick),
    }
}

/// What `NICK new_nick` from `session` sends: the welcome to the session, then
/// the change to every registry entry under another nickname than the new one.
pub open spec fn nick_out(
    st: ServerView,
    session: SessionId,
    new_nick: Seq<char>,
) -> Seq<DeliveryView> {
    let old_nick = nick_of(st, session);
    seq![to(session, welcome_text(new_nick))] + to_others(
        rename(st.users, old_nick, new_nick),
        new_nick,
        nick_text(old_nick, new_nick),
    )
}

/// The state after `JOIN channel` from `session`.
pub open spec fn join_state(st: ServerView, session: SessionId, channel: Seq<char>) -> ServerView {
    ServerView {
        channels: joined_channels(st.channels, channel, nick_of(st, session), session),
        ..st
    }
}

/// What `JOIN channel` from `session` sends: to the session the join, the
/// topic, the names and the end of the names, then the join to every other
/// member.
pub open spec fn join_out(
    st: ServerView,
    session: SessionId,
    channel: Seq<char>,
) -> Seq<DeliveryView> {
    let nick = nick_of(st, session);
    let members = bind(members_of(st.channels, channel), nick, session);
    seq![
        to(session, join_text(nick, channel)),
        to(session, topic_reply(nick, channel)),
        to(session, names_reply(nick, channel, name_list(members))),
        to(session, end_of_names(nick, channel)),
    ] + to_others(members, nick, join_text(nick, channel))
}

/// What `PRIVMSG target :text` from `session` sends: to a channel, the line
/// to every member but the sender's nickname; to a nickname, the line to its
/// registry entry; nothing where the target does not exist.
pub open spec fn privmsg_out(
    st: ServerView,
    session: SessionId,
    target: Seq<char>,
    text: Seq<char>,
) -> Seq<DeliveryView> {
    let nick = nick_of(st, session);
    let line = privmsg_text(nick, target, text);
    if target.len() > 0 && target[0] == '#' {
        to_others(members_of(st.channels, target), nick, line)
    } else {
        match session_of(st.users, target) {
            Some(recipient) => seq![to(recipient, line)],
            None => Seq::empty(),
        }
    }
}

/// The names reply of every channel, in the order of the channels.
pub open spec fn names_of_all(
    channels: Seq<ChannelView>,
    nick: Seq<char>,
    session: SessionId,
) -> Seq<DeliveryView> {
    channels.map_values(
        |c: ChannelView| to(session, names_reply(nick, c.name, name_list(c.users))),
    )
}

/// What `NAMES` from `session` sends: for a channel that exists, its names
/// and the end of the names; for one that does not, nothing; without a
/// channel, the names of every channel and one end of names under `*`.
pub open spec fn names_out(
    st: ServerView,
    session: SessionId,
    channel: Option<Seq<char>>,
) -> Seq<DeliveryView> {
    let nick = nick_of(st, session);
    match channel {
        Some(name) => if has_channel(st.channels, name) {
            seq![
                to(session, names_reply(nick, name, name_list(members_of(st.channels, name)))),
                to(session, end_of_names(nick, name)),
            ]
        } else {
            Seq::empty()
        },
        None => names_of_all(st.channels, nick, session).push(
            to(session, end_of_names(nick, "*"@)),
        ),
    }
}

/// The session `session` of `st` replaced by `client`.
pub open spec fn with_session(
    st: ServerView,
    session: SessionId,
    client: ClientView,
) -> ServerView {
    ServerView { sessions: st.sessions.update(session as int, client), ..st }
}

/// The state after `cmd` from `session`.
pub open spec fn step_state(cmd: CommandView, session: SessionId, st: ServerView) -> ServerView {
    match cmd {
        CommandView::CapLs => with_session(
            st,
            session,
            cap_state(st.sessions[session as int], cmd),
        ),
        CommandView::CapReq(_) => with_session(
            st,
            session,
            cap_state(st.sessions[session as int], cmd),
        ),
        CommandView::CapEnd => with_session(
            st,
            session,
            cap_state(st.sessions[session as int], cmd),
        ),
        CommandView::NICK(new_nick) => nick_state(st, session, new_nick),
        CommandView::USER(user) => with_session(
            st,
            session,
            ClientView { user: Some(user), ..st.sessions[session as int] },
        ),
        CommandView::JOIN(channel) => join_state(st, session, channel),
        CommandView::PING(_) => st,
        CommandView::PRIVMSG(_, _) => st,
        CommandView::NAMES(_) => st,
        CommandView::QUIT => st,
        CommandView::Unknown(_) => st,
    }
}

/// The reply of capability negotiation, addressed to `session`.
pub open spec fn cap_out(cmd: CommandView, session: SessionId) -> Seq<DeliveryView> {
    match cap_reply(cmd) {
        Some(line) => seq![to(session, line)],
        None => Seq::empty(),
    }
}

/// What `cmd` from `session` sends, in order.
pub open spec fn step_out(
    cmd: CommandView,
    session: SessionId,
    st: ServerView,
) -> Seq<DeliveryView> {
    match cmd {
        CommandView::CapLs => cap_out(cmd, session),
        CommandView::CapReq(_) => cap_out(cmd, session),
        CommandView::CapEnd => cap_out(cmd, session),
        CommandView::NICK(new_nick) => nick_out(st, session, new_nick),
        CommandView::USER(_) => Seq::empty(),
        CommandView::JOIN(channel) => join_out(st, session, channel),
        CommandView::PING(token) => seq![to(session, pong_text(token))],
        CommandView::PRIVMSG(target, text) => privmsg_out(st, session, target, text),
        CommandView::NAMES(channel) => names_out(st, session, channel),
        CommandView::QUIT => seq![to(session, quit_text(nick_of(st, session)))],
        CommandView::Unknown(_) => Seq::empty(),
    }
}

fn welcome_line(nick: &str) -> (out: String)
    ensures
        out@ == welcome_text(nick@),
{
    let mut out = ":server 001 ".to_owned();
    out.append(nick);
    out.append(" :Welcome!\r\n");
    out
}

fn nick_line(old_nick: &str, new_nick: &str) -> (out: String)
    ensures
        out@ == nick_text(old_nick@, new_nick@),
{
    let mut out = ":".to_owned();
    out.append(old_nick);
    out.append(" NICK ");
    out.append(new_nick);
    out.append("\r\n");
    out
}

fn join_line(nick: &str, channel: &str) -> (out: String)
    ensures
        out@ == join_text(nick@, channel@),
{
    let mut out = ":".to_owned();
    out.append(nick);
    out.append(" JOIN ");
    out.append(channel);
    out.append("\r\n");
    out
}

fn privmsg_line(nick: &str, target: &str, text: &str) -> (out: String)
    ensures
        out@ == privmsg_text(nick@, target@, text@),
{
    let mut out = ":".to_owned();
    out.append(nick);
    out.append(" PRIVMSG ");
    out.append(target);
    out.append(" :");
    out.append(text);
    out.append("\r\n");
    out
}

fn pong_line(token: &str) -> (out: String)
    ensures
        out@ == pong_text(token@),
{
    let mut out = "PONG server ".to_owned();
    out.append(token);
    out.append("\r\n");
    out
}

fn quit_line(nick: &str) -> (out: String)
    ensures
        out@ == quit_text(nick@),
{
    let mut out = ":".to_owned();
    out.append(nick);
    out.append(" QUIT\r\n");
    out
}

fn topic_line(nick: &String, channel: &String) -> (out: String)
    ensures
        out@ == topic_reply(nick@, channel@),
{
    ResponseCode::RPL_TOPIC.message(ResponseParams::new(nick.clone()).channel(channel.clone()))
}

fn names_line(nick: &String, channel: &String, names: String) -> (out: String)
    ensures
        out@ == names_reply(nick@, channel@, names@),
{
    ResponseCode::RPL_NAMREPLY.message(
        ResponseParams::new(nick.clone()).channel(channel.clone()).message(names),
    )
}

fn end_of_names_line(nick: &String, channel: &String) -> (out: String)
    ensures
        out@ == end_of_names(nick@, channel@),
{
    ResponseCode::RPL_ENDOFNAMES.message(
        ResponseParams::new(nick.clone()).channel(channel.clone()),
    )
}

/// The nicknames of the members with single spaces between them.
fn list_names(members: &Roster) -> (out: String)
    ensures
        out@ == name_list(members@),
{
    let names = members.nicks();
    assert(names.deep_view().skip(0) =~= names.deep_view());
    join_from(&names, 0, " ")
}

/// Appends one line for one session.
fn push_to(out: &mut Vec<Delivery>, session: SessionId, line: String)
    ensures
        final(out).deep_view() == old(out).deep_view().push(to(session, line@)),
{
    let d = Delivery { recipient: session, line };
    out.push(d);
}

/// Appends `line` for every member whose nickname is not `nick`.
fn push_others(out: &mut Vec<Delivery>, members: &Roster, nick: &str, line: &str)
    ensures
        final(out).deep_view() == old(out).deep_view() + to_others(members@, nick@, line@),
{
    let n = members.entries.len();
    let mut i: usize = 0;
    while i < n
        invariant
            n == members.entries.len(),
            i <= n,
            out.deep_view() == old(out).deep_view() + to_others(
                members@.take(i as int),
                nick@,
                line@,
            ),
        decreases n - i,
    {
        let ghost next = members@.take(i + 1);
        proof {
            assert(next.drop_last() =~= members@.take(i as int));
        }
        if !same_text(members.entries[i].nick.as_str(), nick) {
            push_to(out, members.entries[i].session, line.to_owned());
        }
        i = i + 1;
    }
    assert(members@.take(n as int) =~= members@);
}

/// NICK: moves the session's nickname in the registry and in every channel,
/// and tells the session and everybody else.
fn run_nick(server: &mut ServerState, session: SessionId, new_nick: &String) -> (out: Vec<Delivery>)
    requires
        old(server).wf(),
        session < old(server)@.sessions.len(),
    ensures
        final(server)@ == nick_state(old(server)@, session, new_nick@),
        out.deep_view() == nick_out(old(server)@, session, new_nick@),
        final(server).handles() == old(server).handles(),
{
    let old_nick = server.sessions[session].nickname();
    server.change_nick(old_nick.as_str(), new_nick.as_str());
    let n = server.channels.len();
    let mut i: usize = 0;
    assert forall|j: int| 0 <= j < n implies (#[trigger] server.channels[j])@ == old(
        server,
    ).channels[j]@ by {
        assert(server@.channels[j] == old(server)@.channels[j]);
    }
    while i < n
        invariant
            valid(old(server)@),
            n == server.channels.len(),
            n == old(server).channels.len(),
            i <= n,
            server@.sessions == old(server)@.sessions,
            server.handles() == old(server).handles(),
            server.users@ == rename(old(server)@.users, old_nick@, new_nick@),
            forall|j: int|
                0 <= j < i ==> (#[trigger] server.channels[j])@ == (ChannelView {
                    users: rename(old(server).channels[j]@.users, old_nick@, new_nick@),
                    ..old(server).channels[j]@
                }),
            forall|j: int|
                i <= j < n ==> (#[trigger] server.channels[j])@ == old(server).channels[j]@,
        decreases n - i,
    {
        assert(roster_ok(old(server)@.channels[i as int].users, old(server)@.sessions.len()));
        server.channels[i].users.rename(old_nick.as_str(), new_nick.as_str());
        i = i + 1;
    }
    server.sessions[session].nick = Some(new_nick.clone());
    proof {
        assert(server@.sessions =~= old(server)@.sessions.update(
            session as int,
            ClientView { nick: Some(new_nick@), ..old(server)@.sessions[session as int] },
        ));
        assert(server@.channels =~= renamed_channels(
            old(server)@.channels,
            old_nick@,
            new_nick@,
        ));
    }
    let mut out: Vec<Delivery> = Vec::new();
    push_to(&mut out, session, welcome_line(new_nick.as_str()));
    let line = nick_line(old_nick.as_str(), new_nick.as_str());
    push_others(&mut out, &server.users, new_nick.as_str(), line.as_str());
    out
}

/// JOIN: makes the channel where it does not exist, binds the session's
/// nickname in it, and tells the session and the other members.
fn run_join(server: &mut ServerState, session: SessionId, channel: &String) -> (out: Vec<Delivery>)
    requires
        old(server).wf(),
        session < old(server)@.sessions.len(),
    ensures
        final(server)@ == join_state(old(server)@, session, channel@),
        out.deep_view() == join_out(old(server)@, session, channel@),
        final(server).handles() == old(server).handles(),
{
    let nick = server.sessions[session].nickname();
    let at = match server.find_channel(channel.as_str()) {
        Some(i) => {
            server.channels[i].users.insert(nick.clone(), session);
            assert(server@.channels =~= joined_channels(
                old(server)@.channels,
                channel@,
                nick@,
                session,
            ));
            i
        },
        None => {
            let mut made = Channel::new(channel.clone());
            made.users.insert(nick.clone(), session);
            server.channels.push(made);
            assert(server@.channels =~= joined_channels(
                old(server)@.channels,
                channel@,
                nick@,
                session,
            ));
            server.channels.len() - 1
        },
    };
    let names = list_names(&server.channels[at].users);
    let mut out: Vec<Delivery> = Vec::new();
    let line = join_line(nick.as_str(), channel.as_str());
    push_to(&mut out, session, line.clone());
    push_to(&mut out, session, topic_line(&nick, channel));
    push_to(&mut out, session, names_line(&nick, channel, names));
    push_to(&mut out, session, end_of_names_line(&nick, channel));
    push_others(&mut out, &server.channels[at].users, nick.as_str(), line.as_str());
    out
}

/// PRIVMSG: one line to the other members of a channel, or to the session
/// that the registry has under the target.
fn run_privmsg(
    server: &ServerState,
    session: SessionId,
    target: &String,
    text: &String,
) -> (out: Vec<Delivery>)
    requires
        server.wf(),
        session < server@.sessions.len(),
    ensures
        out.deep_view() == privmsg_out(server@, session, target@, text@),
{
    let nick = server.sessions[session].nickname();
    let line = privmsg_line(nick.as_str(), target.as_str(), text.as_str());
    let mut out: Vec<Delivery> = Vec::new();
    if starts_with(target.as_str(), '#') {
        match server.find_channel(target.as_str()) {
            Some(i) => {
                push_others(&mut out, &server.channels[i].users, nick.as_str(), line.as_str());
            },
            None => {},
        }
    } else {
        match server.users.get(target.as_str()) {
            Some(recipient) => {
                push_to(&mut out, recipient, line);
            },
            None => {},
        }
    }
    out
}

/// NAMES: the names of one channel, or of all.
fn run_names(
    server: &ServerState,
    session: SessionId,
    channel: &Option<String>,
) -> (out: Vec<Delivery>)
    requires
        server.wf(),
        session < server@.sessions.len(),
    ensures
        out.deep_view() == names_out(server@, session, opt_text(*channel)),
{
    let nick = server.sessions[session].nickname();
    let mut out: Vec<Delivery> = Vec::new();
    match channel {
        Some(name) => {
            match server.find_channel(name.as_str()) {
                Some(i) => {
                    let names = list_names(&server.channels[i].users);
                    push_to(&mut out, session, names_line(&nick, name, names));
                    push_to(&mut out, session, end_of_names_line(&nick, name));
                },
                None => {},
            }
        },
        None => {
            let n = server.channels.len();
            let ghost all = names_of_all(server@.channels, nick@, session);
            let mut i: usize = 0;
            while i < n
                invariant
                    n == server.channels.len(),
                    i <= n,
                    all == names_of_all(server@.channels, nick@, session),
                    out.deep_view() =~= all.take(i as int),
                decreases n - i,
            {
                let names = list_names(&server.channels[i].users);
                push_to(&mut out, session, names_line(&nick, &server.channels[i].name, names));
                i = i + 1;
            }
            push_to(&mut out, session, end_of_names_line(&nick, &"*".to_owned()));
        },
    }
    out
}

impl Command {
    /// Carries out the command for `session`: changes the server's state as
    /// the command asks and returns the lines it gives rise to, each with its
    /// recipient, in the order in which they are to be enqueued. Nothing is
    /// enqueued yet.
    pub fn execute(&self, session: SessionId, server: &mut ServerState) -> (out: Vec<Delivery>)
        requires
            old(server).wf(),
            session < old(server)@.sessions.len(),
        ensures
            final(server).wf(),
            final(server)@ == step_state(self@, session, old(server)@),
            out.deep_view() == step_out(self@, session, old(server)@),
            final(server).handles() == old(server).handles(),
            addressed_within(out.deep_view(), final(server)@.sessions.len()),
    {
        proof {
            lemma_step_out_addressed(self@, session, server@);
        }
        let mut out: Vec<Delivery> = Vec::new();
        match self {
            Command::CapLs | Command::CapReq(_) | Command::CapEnd => {
                let reply = server.sessions[session].handle_cap_command(self);
                assert(server@.sessions =~= old(server)@.sessions.update(
                    session as int,
                    cap_state(old(server)@.sessions[session as int], self@),
                ));
                assert(server@.channels =~= old(server)@.channels);
                match reply {
                    Some(line) => {
                        push_to(&mut out, session, line);
                    },
                    None => {},
                }
            },
            Command::NICK(new_nick) => {
                out = run_nick(server, session, new_nick);
            },
            Command::USER(user) => {
                server.sessions[session].user = Some(user.clone());
                assert(server@.sessions =~= old(server)@.sessions.update(
                    session as int,
                    ClientView { user: Some(user@), ..old(server)@.sessions[session as int] },
                ));
                assert(server@.channels =~= old(server)@.channels);
            },
            Command::JOIN(channel) => {
                out = run_join(server, session, channel);
            },
            Command::PING(token) => {
                push_to(&mut out, session, pong_line(token.as_str()));
            },
            Command::PRIVMSG(target, text) => {
                out = run_privmsg(server, session, target, text);
            },
            Command::NAMES(channel) => {
                out = run_names(server, session, channel);
            },
            Command::QUIT => {
                let nick = server.sessions[session].nickname();
                push_to(&mut out, session, quit_line(nick.as_str()));
            },
            Command::Unknown(_) => {},
        }
        out
    }

    /// Handles the command for `session`: changes the server's state as the
    /// command asks, and enqueues the lines it gives rise to on the outbound
    /// queues of their recipients, in order.
    pub fn handle(&self, session: SessionId, server: &mut ServerState)
        requires
            old(server).wf(),
            session < old(server)@.sessions.len(),
        ensures
            final(server).wf(),
            final(server)@ == step_state(self@, session, old(server)@),
            final(server).queues() == old(server).queues(),
            forall|r: int|
                0 <= r < old(server)@.sessions.len() ==> #[trigger] final(server).sent(r) == old(
                    server,
                ).sent(r) + lines_for(step_out(self@, session, old(server)@), r as SessionId),
    {
        let out = self.execute(session, server);
        let ghost mid = *server;
        assert(mid.queues() =~= old(server).queues()) by {
            assert forall|r: int| 0 <= r < mid.sessions.len() implies mid.queues()[r] == old(
                server,
            ).queues()[r] by {
                assert(mid.handles()[r] == old(server).handles()[r]);
            }
        }
        assert forall|r: int| 0 <= r < mid.sessions.len() implies mid.sent(r) == old(server).sent(
            r,
        ) by {
            assert(mid.handles()[r] == old(server).handles()[r]);
        }
        server.deliver(out);
    }
}

/// Every line that a roster's other members get goes to an existing session.
pub proof fn lemma_to_others_addressed(b: Seq<Binding>, nick: Seq<char>, line: Seq<char>, n: nat)
    requires
        roster_ok(b, n),
    ensures
        addressed_within(to_others(b, nick, line), n),
    decreases b.len(),
{
    if b.len() > 0 {
        lemma_to_others_addressed(b.drop_last(), nick, line, n);
    }
}

/// Every line that a command gives rise to is addressed to an existing
/// session.
pub proof fn lemma_step_out_addressed(cmd: CommandView, session: SessionId, st: ServerView)
    requires
        valid(st),
        session < st.sessions.len(),
    ensures
        addressed_within(step_out(cmd, session, st), st.sessions.len()),
{
    let n = st.sessions.len();
    let nick = nick_of(st, session);
    match cmd {
        CommandView::NICK(new_nick) => {
            lemma_to_others_addressed(
                rename(st.users, nick, new_nick),
                new_nick,
                nick_text(nick, new_nick),
                n,
            );
        },
        CommandView::JOIN(channel) => {
            lemma_to_others_addressed(
                bind(members_of(st.channels, channel), nick, session),
                nick,
                join_text(nick, channel),
                n,
            );
        },
        CommandView::PRIVMSG(target, text) => {
            lemma_to_others_addressed(
                members_of(st.channels, target),
                nick,
                privmsg_text(nick, target, text),
                n,
            );
        },
        _ => {},
    }
}

/// Every command keeps the state together: after any command from an
/// existing session, a valid state is valid again, so no nickname has two
/// entries in the registry, no nickname is twice in one channel, and no two
/// channels share a name.
pub proof fn lemma_step_keeps_valid(cmd: CommandView, session: SessionId, st: ServerView)
    requires
        valid(st),
        session < st.sessions.len(),
    ensures
        valid(step_state(cmd, session, st)),
        step_state(cmd, session, st).sessions.len() == st.sessions.len(),
{
}

} // verus!
