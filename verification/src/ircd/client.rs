//! A client session: who the client is, what it has negotiated, and the
//! handle of its outbound queue.

use super::command::{Command, CommandView};
use super::ircd::ClientHandle;
use super::text::{join, join_from, opt_text, same_text};
use tokio::sync::mpsc::UnboundedSender;
use vstd::prelude::*;

verus! {

/// A protocol extension that a client can ask for.
#[allow(clippy::upper_case_acronyms)]
#[derive(Clone, Copy, Debug, PartialEq, Eq, Hash, Structural)]
pub enum Capability {
    MultiPrefix,
    SASL,
    EchoMessage,
}

/// How far a session has come in registering.
#[derive(Clone, Copy, Debug, PartialEq, Eq, Structural)]
pub enum ClientState {
    Unregistered,
    Registered,
    Authenticated,
}

/// The capabilities that a session has enabled.
#[derive(Clone, Copy, Debug, PartialEq, Eq)]
pub struct CapabilitySet {
    pub(crate) multi_prefix: bool,
    pub(crate) sasl: bool,
    pub(crate) echo_message: bool,
}

impl View for CapabilitySet {
    type V = Set<Capability>;

    open(crate) spec fn view(&self) -> Set<Capability> {
        Set::new(
            |c: Capability|
                match c {
                    Capability::MultiPrefix => self.multi_prefix,
                    Capability::SASL => self.sasl,
                    Capability::EchoMessage => self.echo_message,
                },
        )
    }
}

impl CapabilitySet {
    /// The empty set.
    pub fn new() -> (s: Self)
        ensures
            s@ == Set::<Capability>::empty(),
    {
        let s = CapabilitySet { multi_prefix: false, sasl: false, echo_message: false };
        s
    }

    /// Whether a capability is enabled.
    pub fn contains(&self, capability: Capability) -> (r: bool)
        ensures
            r == self@.contains(capability),
    {
        match capability {
            Capability::MultiPrefix => self.multi_prefix,
            Capability::SASL => self.sasl,
            Capability::EchoMessage => self.echo_message,
        }
    }

    /// Adds a capability; says whether it was new.
    pub fn insert(&mut self, capability: Capability) -> (added: bool)
        ensures
            final(self)@ == old(self)@.insert(capability),
            added == !old(self)@.contains(capability),
    {
        let added = !self.contains(capability);
        match capability {
            Capability::MultiPrefix => {
                self.multi_prefix = true;
            },
            Capability::SASL => {
                self.sasl = true;
            },
            Capability::EchoMessage => {
                self.echo_message = true;
            },
        }
        added
    }

    /// How many capabilities are enabled.
    pub fn len(&self) -> (n: usize)
        ensures
            n == self@.len(),
            self@.finite(),
    {
        let ghost mut seen = Set::<Capability>::empty();
        let mut n: usize = 0;
        if self.multi_prefix {
            n = n + 1;
            proof {
                seen = seen.insert(Capability::MultiPrefix);
            }
        }
        if self.sasl {
            n = n + 1;
            proof {
                seen = seen.insert(Capability::SASL);
            }
        }
        if self.echo_message {
            n = n + 1;
            proof {
                seen = seen.insert(Capability::EchoMessage);
            }
        }
        assert(seen =~= self@);
        n
    }
}

/// One client session.
pub struct Client {
    pub(crate) nick: Option<String>,
    pub(crate) user: Option<String>,
    pub(crate) capabilities: CapabilitySet,
    pub(crate) state: ClientState,
    pub(crate) sender: ClientHandle,
}

/// What a [`Client`] holds besides its queue, as plain values.
pub struct ClientView {
    pub nick: Option<Seq<char>>,
    pub user: Option<Seq<char>>,
    pub capabilities: Set<Capability>,
    pub state: ClientState,
}

impl View for Client {
    type V = ClientView;

    open(crate) spec fn view(&self) -> ClientView {
        ClientView {
            nick: opt_text(self.nick),
            user: opt_text(self.user),
            capabilities: self.capabilities@,
            state: self.state,
        }
    }
}

/// The label under which a capability is asked for, colon included.
pub open spec fn label_of(c: Capability) -> Seq<char> {
    match c {
        Capability::MultiPrefix => ":multi-prefix"@,
        Capability::SASL => ":sasl"@,
        Capability::EchoMessage => ":echo-message"@,
    }
}

/// Whether a label names a capability that the server supports.
pub open spec fn supported(label: Seq<char>) -> bool {
    exists|c: Capability| label == label_of(c)
}

/// The capabilities that the labels name.
pub open spec fn requested(labels: Seq<Seq<char>>) -> Set<Capability> {
    Set::new(|c: Capability| labels.contains(label_of(c)))
}

/// The supported ones among the labels, in the order and as often as they
/// were asked for.
pub open spec fn acknowledged(labels: Seq<Seq<char>>) -> Seq<Seq<char>>
    decreases labels.len(),
{
    if labels.len() == 0 {
        Seq::empty()
    } else if supported(labels.last()) {
        acknowledged(labels.drop_last()).push(labels.last())
    } else {
        acknowledged(labels.drop_last())
    }
}

/// The session after a command of capability negotiation.
pub open spec fn cap_state(c: ClientView, cmd: CommandView) -> ClientView {
    match cmd {
        CommandView::CapReq(labels) => ClientView {
            capabilities: c.capabilities.union(requested(labels)),
            ..c
        },
        CommandView::CapEnd => ClientView { state: ClientState::Registered, ..c },
        _ => c,
    }
}

/// The reply to a command of capability negotiation, if it has one.
pub open spec fn cap_reply(cmd: CommandView) -> Option<Seq<char>> {
    match cmd {
        CommandView::CapLs => Some("CAP * LS :multi-prefix sasl echo-message\r\n"@),
        CommandView::CapReq(labels) => if acknowledged(labels).len() > 0 {
            Some("CAP * ACK :"@ + join(acknowledged(labels), " "@) + "\r\n"@)
        } else {
            Some("CAP * NAK :No valid capabilities\r\n"@)
        },
        CommandView::CapEnd => None,
        _ => Some("CAP * NAK :Invalid command\r\n"@),
    }
}

/// The capability that a label names, if it names one.
fn capability_of(label: &str) -> (r: Option<Capability>)
    ensures
        match r {
            Some(c) => label@ == label_of(c),
            None => !supported(label@),
        },
{
    if same_text(label, ":multi-prefix") {
        Some(Capability::MultiPrefix)
    } else if same_text(label, ":sasl") {
        Some(Capability::SASL)
    } else if same_text(label, ":echo-message") {
        Some(Capability::EchoMessage)
    } else {
        None
    }
}

impl Client {
    /// Whether the session has a nickname. A session made by `new` has one,
    /// and no command takes it away.
    pub open spec fn wf(&self) -> bool {
        self@.nick is Some
    }

    /// The handle of the session's outbound queue.
    pub open(crate) spec fn handle(&self) -> ClientHandle {
        self.sender
    }

    /// A session under `nickname`, unregistered, that sends on `sender`.
    pub fn new(nickname: String, sender: UnboundedSender<String>) -> (c: Self)
        ensures
            c@ == (ClientView {
                nick: Some(nickname@),
                user: Some(nickname@),
                capabilities: Set::<Capability>::empty(),
                state: ClientState::Unregistered,
            }),
            c.wf(),
            c.handle().queue() == sender,
            c.handle().history() == Seq::<Seq<char>>::empty(),
    {
        Client {
            nick: Some(nickname.clone()),
            user: Some(nickname),
            capabilities: CapabilitySet::new(),
            state: ClientState::Unregistered,
            sender: ClientHandle::new(sender),
        }
    }

    /// The session's nickname, if it has one.
    pub fn nick(&self) -> (r: Option<String>)
        ensures
            opt_text(r) == self@.nick,
    {
        match &self.nick {
            Some(n) => Some(n.clone()),
            None => None,
        }
    }

    /// The session's username, if it has one.
    pub fn user(&self) -> (r: Option<String>)
        ensures
            opt_text(r) == self@.user,
    {
        match &self.user {
            Some(u) => Some(u.clone()),
            None => None,
        }
    }

    /// The capabilities that the session has enabled.
    pub fn capabilities(&self) -> (r: CapabilitySet)
        ensures
            r@ == self@.capabilities,
    {
        self.capabilities
    }

    /// How far the session has come in registering.
    pub fn state(&self) -> (r: ClientState)
        ensures
            r == self@.state,
    {
        self.state
    }

    /// The session's nickname; empty where it has none.
    pub fn nickname(&self) -> (n: String)
        ensures
            n@ == super::response::or_empty(self@.nick),
    {
        match &self.nick {
            Some(n) => n.clone(),
            None => String::new(),
        }
    }

    /// Answers one command of capability negotiation: `CAP LS` lists what the
    /// server supports, `CAP REQ` enables the supported ones among the labels
    /// and acknowledges them, `CAP END` registers the session and has no
    /// reply. Any other command is refused.
    pub fn handle_cap_command(&mut self, cmd: &Command) -> (reply: Option<String>)
        ensures
            final(self)@ == cap_state(old(self)@, cmd@),
            opt_text(reply) == cap_reply(cmd@),
            final(self).handle() == old(self).handle(),
    {
        match cmd {
            Command::CapLs => Some("CAP * LS :multi-prefix sasl echo-message\r\n".to_owned()),
            Command::CapReq(labels) => {
                let mut acks: Vec<String> = Vec::new();
                let n = labels.len();
                let mut i: usize = 0;
                let ghost all = labels.deep_view();
                assert(self@.capabilities =~= old(self)@.capabilities.union(
                    requested(all.take(0)),
                ));
                while i < n
                    invariant
                        n == labels.len(),
                        i <= n,
                        all == labels.deep_view(),
                        acks.deep_view() == acknowledged(all.take(i as int)),
                        self@ == (ClientView {
                            capabilities: old(self)@.capabilities.union(
                                requested(all.take(i as int)),
                            ),
                            ..old(self)@
                        }),
                        self.sender == old(self).sender,
                    decreases n - i,
                {
                    let ghost next = all.take(i + 1);
                    proof {
                        assert(next.drop_last() =~= all.take(i as int));
                    }
                    match capability_of(labels[i].as_str()) {
                        Some(c) => {
                            self.capabilities.insert(c);
                            let label = labels[i].clone();
                            acks.push(label);
                            proof {
                                assert forall|d: Capability|
                                    requested(next).contains(d) == requested(
                                        all.take(i as int),
                                    ).insert(c).contains(d) by {
                                    if next.contains(label_of(d)) {
                                        let k = choose|k: int|
                                            0 <= k < i + 1 && next[k] == label_of(d);
                                        if k == i {
                                            lemma_labels_differ(c, d);
                                        }
                                    }
                                    if d == c {
                                        assert(next[i as int] == label_of(d));
                                    }
                                }
                                assert(self@.capabilities =~= old(self)@.capabilities.union(
                                    requested(next),
                                ));
                            }
                        },
                        None => {
                            proof {
                                assert(self@.capabilities =~= old(self)@.capabilities.union(
                                    requested(next),
                                ));
                            }
                        },
                    }
                    i = i + 1;
                }
                assert(all.take(n as int) =~= all);
                if acks.len() > 0 {
                    let mut reply = "CAP * ACK :".to_owned();
                    let joined = join_from(&acks, 0, " ");
                    assert(acks.deep_view().skip(0) =~= acks.deep_view());
                    reply.append(joined.as_str());
                    reply.append("\r\n");
                    Some(reply)
                } else {
                    Some("CAP * NAK :No valid capabilities\r\n".to_owned())
                }
            },
            Command::CapEnd => {
                self.state = ClientState::Registered;
                None
            },
            _ => Some("CAP * NAK :Invalid command\r\n".to_owned()),
        }
    }
}

/// Two capabilities with the same label are the same capability.
pub proof fn lemma_labels_differ(c: Capability, d: Capability)
    requires
        label_of(c) == label_of(d),
    ensures
        c == d,
{
    reveal_strlit(":multi-prefix");
    reveal_strlit(":sasl");
    reveal_strlit(":echo-message");
    assert(":sasl"@[1] == 's');
    assert(":echo-message"@[1] == 'e');
}

} // verus!
