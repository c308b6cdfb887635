//! The server's state: the table of sessions, the registry of nicknames, the
//! channels, and how lines reach the clients' outbound queues.

use super::channel::{channel_ok, Channel, ChannelView};
use super::client::{Client, ClientView};
use super::roster::{bind, distinct, rename, unbind, Binding, Roster, SessionId};
use super::text::{decimal, push_decimal, same_text};
use rand::Rng;
use tokio::sync::mpsc::UnboundedSender;
use vstd::prelude::*;

verus! {

/// The producer end of tokio's unbounded queue, carried as an opaque value.
#[verifier::external_type_specification]
#[verifier::external_body]
#[verifier::reject_recursive_types(T)]
pub struct ExUnboundedSender<T>(UnboundedSender<T>);

/// `tokio::sync::mpsc::UnboundedSender::send`, with its result dropped. It
/// never waits; where the receiving half is closed it hands the line back as
/// an error, which is ignored here. Nothing is claimed of the outcome.
#[verifier::external_body]
fn send_line(sender: &UnboundedSender<String>, line: String) {
    let _ = sender.send(line);
}

/// `rand::Rng::gen_range` on `rand::thread_rng()` with the inclusive range
/// from `low` to `high`. The result lies in that range; which value it is
/// depends on chance, so nothing more is claimed. `gen_range` panics on an
/// empty range, which the precondition leaves out.
#[verifier::external_body]
fn random_between(low: u32, high: u32) -> (n: u32)
    requires
        low <= high,
    ensures
        low <= n <= high,
{
    rand::thread_rng().gen_range(low..=high)
}

/// A session's handle to its outbound queue, with the record of the lines
/// that were put on it through this handle.
pub struct ClientHandle {
    sender: UnboundedSender<String>,
    sent: Ghost<Seq<Seq<char>>>,
}

impl ClientHandle {
    /// The queue that the handle sends on.
    pub closed spec fn queue(&self) -> UnboundedSender<String> {
        self.sender
    }

    /// The lines enqueued through this handle, oldest first.
    pub closed spec fn history(&self) -> Seq<Seq<char>> {
        self.sent@
    }

    /// A handle on the queue behind `sender`, through which nothing was sent yet.
    pub fn new(sender: UnboundedSender<String>) -> (h: Self)
        ensures
            h.queue() == sender,
            h.history() == Seq::<Seq<char>>::empty(),
    {
        ClientHandle { sender, sent: Ghost(Seq::empty()) }
    }

    /// Enqueues one line. The queue is unbounded, so this never waits; a line
    /// for a queue whose consumer is gone is dropped.
    pub fn send(&mut self, line: String)
        ensures
            final(self).queue() == old(self).queue(),
            final(self).history() == old(self).history().push(line@),
    {
        proof {
            self.sent@ = self.sent@.push(line@);
        }
        send_line(&self.sender, line);
    }
}

/// One line on its way to one session's outbound queue.
pub struct Delivery {
    pub recipient: SessionId,
    pub line: String,
}

/// A [`Delivery`] as plain values.
pub struct DeliveryView {
    pub recipient: SessionId,
    pub line: Seq<char>,
}

impl View for Delivery {
    type V = DeliveryView;

    open spec fn view(&self) -> DeliveryView {
        DeliveryView { recipient: self.recipient, line: self.line@ }
    }
}

impl DeepView for Delivery {
    type V = DeliveryView;

    open spec fn deep_view(&self) -> DeliveryView {
        self@
    }
}

/// The lines among `d` that are addressed to `session`, in order.
pub open spec fn lines_for(d: Seq<DeliveryView>, session: SessionId) -> Seq<Seq<char>>
    decreases d.len(),
{
    if d.len() == 0 {
        Seq::empty()
    } else if d.last().recipient == session {
        lines_for(d.drop_last(), session).push(d.last().line)
    } else {
        lines_for(d.drop_last(), session)
    }
}

/// Every delivery is addressed to one of the first `n` sessions.
pub open spec fn addressed_within(d: Seq<DeliveryView>, n: nat) -> bool {
    forall|i: int| 0 <= i < d.len() ==> (#[trigger] d[i]).recipient < n
}

/// The whole state of a server. Only the operations of this crate change it,
/// and each of them keeps it valid (see [`valid`]), so a state that a caller
/// holds is always valid.
pub struct ServerState {
    /// Every session ever opened; a session's handle is its index here.
    pub(crate) sessions: Vec<Client>,
    /// The registry: which session each nickname reaches.
    pub(crate) users: Roster,
    /// The channels, in the order in which they were made.
    pub(crate) channels: Vec<Channel>,
}

/// A [`ServerState`] as plain values.
pub struct ServerView {
    pub sessions: Seq<ClientView>,
    pub users: Seq<Binding>,
    pub channels: Seq<ChannelView>,
}

impl View for ServerState {
    type V = ServerView;

    open(crate) spec fn view(&self) -> ServerView {
        ServerView {
            sessions: self.sessions@.map_values(|c: Client| c@),
            users: self.users@,
            channels: self.channels@.map_values(|c: Channel| c@),
        }
    }
}

/// Bindings without a repeated nickname whose sessions all exist among `n`.
pub open spec fn roster_ok(b: Seq<Binding>, n: nat) -> bool {
    distinct(b) && forall|i: int| 0 <= i < b.len() ==> (#[trigger] b[i]).session < n
}

/// Whether a channel named `name` exists.
pub open spec fn has_channel(channels: Seq<ChannelView>, name: Seq<char>) -> bool {
    exists|i: int| 0 <= i < channels.len() && (#[trigger] channels[i]).name == name
}

/// Where the channel named `name` stands, if it exists.
pub open spec fn channel_place(channels: Seq<ChannelView>, name: Seq<char>) -> int {
    choose|i: int| 0 <= i < channels.len() && (#[trigger] channels[i]).name == name
}

/// A state that holds together: every session has a nickname, no nickname
/// has two entries in the registry, no two channels share a name, no
/// nickname is twice a member and no mode twice a mode of one channel, and
/// every handle in the registry or in a channel is that of an existing
/// session.
pub open spec fn valid(st: ServerView) -> bool {
    &&& forall|i: int| 0 <= i < st.sessions.len() ==> (#[trigger] st.sessions[i]).nick is Some
    &&& roster_ok(st.users, st.sessions.len())
    &&& forall|i: int, j: int|
        0 <= i < j < st.channels.len() ==> (#[trigger] st.channels[i]).name
            != (#[trigger] st.channels[j]).name
    &&& forall|i: int|
        0 <= i < st.channels.len() ==> channel_ok(#[trigger] st.channels[i]) && roster_ok(
            st.channels[i].users,
            st.sessions.len(),
        )
}

/// The nickname of a guest: the word `guest` and a number.
pub open spec fn guest_name(n: nat) -> Seq<char> {
    "guest"@ + decimal(n)
}

/// The nickname of the guest with number `n`.
pub fn guest_nickname(n: u32) -> (nick: String)
    ensures
        nick@ == guest_name(n as nat),
{
    let mut nick = "guest".to_owned();
    push_decimal(&mut nick, n);
    nick
}

/// A guest nickname with a number drawn at random from 1 to 9999. It is not
/// checked against the nicknames in use.
pub fn random_guest_nickname() -> (nick: String)
    ensures
        exists|n: nat| 1 <= n <= 9999 && nick@ == guest_name(n),
{
    let n = random_between(1, 9999);
    let nick = guest_nickname(n);
    nick
}

impl ServerState {
    /// The state holds together; see [`valid`].
    pub open spec fn wf(&self) -> bool {
        valid(self@)
    }

    /// The lines enqueued to a session so far, oldest first.
    pub open(crate) spec fn sent(&self, session: int) -> Seq<Seq<char>> {
        self.sessions[session].sender.history()
    }

    /// The queue of each session.
    pub open(crate) spec fn queues(&self) -> Seq<UnboundedSender<String>> {
        self.sessions@.map_values(|c: Client| c.sender.queue())
    }

    /// The queue handle of each session, with its record of what was sent.
    pub open(crate) spec fn handles(&self) -> Seq<ClientHandle> {
        self.sessions@.map_values(|c: Client| c.sender)
    }

    /// A server without sessions or channels.
    pub fn new() -> (s: Self)
        ensures
            s@ == (ServerView {
                sessions: Seq::empty(),
                users: Seq::empty(),
                channels: Seq::empty(),
            }),
            s.wf(),
    {
        let s = ServerState { sessions: Vec::new(), users: Roster::new(), channels: Vec::new() };
        assert(s@.sessions =~= Seq::empty());
        assert(s@.channels =~= Seq::empty());
        s
    }

    /// How many sessions were opened so far; the handles below it are the valid ones.
    pub fn session_count(&self) -> (n: usize)
        ensures
            n == self@.sessions.len(),
    {
        self.sessions.len()
    }

    /// The session behind a handle, if the handle is that of a session.
    pub fn session(&self, session: SessionId) -> (r: Option<&Client>)
        ensures
            match r {
                Some(c) => session < self@.sessions.len() && c@ == self@.sessions[session as int]
                    && c.handle() == self.handles()[session as int],
                None => session >= self@.sessions.len(),
            },
    {
        if session < self.sessions.len() {
            Some(&self.sessions[session])
        } else {
            None
        }
    }

    /// The registry of nicknames.
    pub fn users(&self) -> (r: &Roster)
        ensures
            r@ == self@.users,
    {
        &self.users
    }

    /// How many channels there are.
    pub fn channel_count(&self) -> (n: usize)
        ensures
            n == self@.channels.len(),
    {
        self.channels.len()
    }

    /// The channel at a place among the channels, if there is one.
    pub fn channel(&self, at: usize) -> (r: Option<&Channel>)
        ensures
            match r {
                Some(c) => at < self@.channels.len() && c@ == self@.channels[at as int],
                None => at >= self@.channels.len(),
            },
    {
        if at < self.channels.len() {
            Some(&self.channels[at])
        } else {
            None
        }
    }

    /// Takes a new session into the table and returns its handle. The
    /// registry is left as it is.
    pub fn open_session(&mut self, client: Client) -> (session: SessionId)
        requires
            old(self).wf(),
            client.wf(),
        ensures
            final(self).wf(),
            session == old(self)@.sessions.len(),
            final(self).handles() == old(self).handles().push(client.handle()),
            final(self)@ == (ServerView {
                sessions: old(self)@.sessions.push(client@),
                ..old(self)@
            }),
    {
        let session = self.sessions.len();
        self.sessions.push(client);
        assert(self@.sessions =~= old(self)@.sessions.push(client@));
        session
    }

    /// Enters `session` into the registry under `nickname`. An entry that the
    /// nickname had before is replaced.
    pub fn add_client(&mut self, nickname: String, session: SessionId)
        requires
            old(self).wf(),
            session < old(self)@.sessions.len(),
        ensures
            final(self).wf(),
            final(self).handles() == old(self).handles(),
            final(self)@ == (ServerView {
                users: bind(old(self)@.users, nickname@, session),
                ..old(self)@
            }),
    {
        self.users.insert(nickname, session);
    }

    /// Takes the entry of `nickname` out of the registry, if it has one.
    pub fn remove_client(&mut self, nickname: &str)
        requires
            old(self).wf(),
        ensures
            final(self).wf(),
            final(self).handles() == old(self).handles(),
            final(self)@ == (ServerView {
                users: unbind(old(self)@.users, nickname@),
                ..old(self)@
            }),
    {
        self.users.remove(nickname);
    }

    /// Moves the registry entry of `old_nick` to `new_nick`: the entry of
    /// `old_nick` is removed and its session entered under `new_nick`, in one
    /// step. Nothing changes where `old_nick` has no entry.
    pub fn change_nick(&mut self, old_nick: &str, new_nick: &str)
        requires
            old(self).wf(),
        ensures
            final(self).wf(),
            final(self).handles() == old(self).handles(),
            final(self)@ == (ServerView {
                users: rename(old(self)@.users, old_nick@, new_nick@),
                ..old(self)@
            }),
    {
        self.users.rename(old_nick, new_nick);
    }

    /// Where the channel named `name` stands among the channels.
    pub fn find_channel(&self, name: &str) -> (r: Option<usize>)
        ensures
            match r {
                Some(i) => i < self@.channels.len() && self@.channels[i as int].name == name@,
                None => !has_channel(self@.channels, name@),
            },
    {
        let n = self.channels.len();
        let mut i: usize = 0;
        while i < n
            invariant
                n == self.channels.len(),
                i <= n,
                forall|j: int| 0 <= j < i ==> (#[trigger] self@.channels[j]).name != name@,
            decreases n - i,
        {
            if same_text(self.channels[i].name.as_str(), name) {
                return Some(i);
            }
            i = i + 1;
        }
        None
    }

    /// Enqueues each line to its recipient's outbound queue, in the order of
    /// the list. Nothing else changes: each session's record of sent lines
    /// grows by the lines addressed to it, in that order.
    pub fn deliver(&mut self, deliveries: Vec<Delivery>)
        requires
            addressed_within(deliveries.deep_view(), old(self)@.sessions.len()),
        ensures
            final(self)@ == old(self)@,
            final(self).queues() == old(self).queues(),
            forall|r: int|
                0 <= r < old(self)@.sessions.len() ==> #[trigger] final(self).sent(r) == old(
                    self,
                ).sent(r) + lines_for(deliveries.deep_view(), r as SessionId),
    {
        let ghost all = deliveries.deep_view();
        let ghost items = deliveries@;
        for delivery in it: deliveries
            invariant
                it.seq() == items,
                all.len() == items.len(),
                forall|k: int| 0 <= k < items.len() ==> #[trigger] all[k] == items[k]@,
                addressed_within(all, old(self)@.sessions.len()),
                self@ == old(self)@,
                self.sessions.len() == old(self).sessions.len(),
                self.queues() == old(self).queues(),
                forall|r: int|
                    0 <= r < old(self)@.sessions.len() ==> #[trigger] self.sent(r) == old(
                        self,
                    ).sent(r) + lines_for(all.take(it.index() as int), r as SessionId),
        {
            let ghost i = it.index() as int;
            let ghost before = *self;
            let ghost line = delivery.line@;
            let recipient = delivery.recipient;
            assert(all[i] == delivery@);
            self.sessions[recipient].sender.send(delivery.line);
            proof {
                let next = all.take(i + 1);
                assert(next.drop_last() =~= all.take(i));
                assert(self@.sessions =~= before@.sessions);
                assert forall|r: int| 0 <= r < old(self)@.sessions.len() implies
                    #[trigger] self.sent(r) == old(self).sent(r) + lines_for(
                    next,
                    r as SessionId,
                ) by {
                    if r == recipient {
                        assert(before.sent(r).push(line) =~= old(self).sent(r) + lines_for(
                            next,
                            r as SessionId,
                        ));
                    } else {
                        assert(self.sent(r) == before.sent(r));
                    }
                }
            }
        }
        assert(all.take(all.len() as int) =~= all);
    }

    /// Starts the session of a newly accepted connection: draws a guest
    /// nickname, makes the session with `sender` as its outbound queue, and
    /// enters it into the registry under that nickname. A guest that drew the
    /// same nickname before loses its registry entry to the new one.
    pub fn connect(&mut self, sender: UnboundedSender<String>) -> (session: SessionId)
        requires
            old(self).wf(),
        ensures
            final(self).wf(),
            session == old(self)@.sessions.len(),
            final(self).handles().len() == session + 1,
            final(self).handles().take(session as int) == old(self).handles(),
            final(self).queues()[session as int] == sender,
            final(self).sent(session as int) == Seq::<Seq<char>>::empty(),
            exists|n: nat|
                1 <= n <= 9999 && final(self)@ == connected(old(self)@, #[trigger] guest_name(n)),
    {
        let nickname = random_guest_nickname();
        let client = Client::new(nickname.clone(), sender);
        let ghost handle = client.handle();
        let session = self.open_session(client);
        self.add_client(nickname, session);
        assert(self.handles()[session as int] == handle);
        assert(self.handles().take(session as int) =~= old(self).handles());
        session
    }
}

/// The state after a new session has connected under `nick`.
pub open spec fn connected(st: ServerView, nick: Seq<char>) -> ServerView {
    ServerView {
        sessions: st.sessions.push(
            ClientView {
                nick: Some(nick),
                user: Some(nick),
                capabilities: Set::empty(),
                state: super::client::ClientState::Unregistered,
            },
        ),
        users: bind(st.users, nick, st.sessions.len() as SessionId),
        channels: st.channels,
    }
}

} // verus!
