use oxide_ircd::ircd::client::{Client, ClientState};
use oxide_ircd::ircd::command::Command;
use oxide_ircd::ircd::ircd::{guest_nickname, random_guest_nickname, Delivery, ServerState};
use tokio::sync::mpsc::{unbounded_channel, UnboundedReceiver};

fn s(text: &str) -> String {
    text.to_string()
}

fn enter(server: &mut ServerState, nick: &str) -> (usize, UnboundedReceiver<String>) {
    let (tx, rx) = unbounded_channel();
    let session = server.open_session(Client::new(s(nick), tx));
    server.add_client(s(nick), session);
    (session, rx)
}

fn say(server: &mut ServerState, session: usize, line: &str) {
    assert!(session < server.session_count());
    Command::parse(line).handle(session, server);
}

fn heard(rx: &mut UnboundedReceiver<String>) -> Vec<String> {
    let mut lines = Vec::new();
    while let Ok(line) = rx.try_recv() {
        lines.push(line);
    }
    lines
}

fn pairs(deliveries: &[Delivery]) -> Vec<(usize, String)> {
    deliveries.iter().map(|d| (d.recipient, d.line.clone())).collect()
}

#[test]
fn cap_negotiation() {
    let mut server = ServerState::new();
    let (a, mut rx) = enter(&mut server, "a");
    say(&mut server, a, "CAP LS");
    assert_eq!(heard(&mut rx), vec![s("CAP * LS :multi-prefix sasl echo-message\r\n")]);
    say(&mut server, a, "CAP REQ :multi-prefix :sasl");
    assert_eq!(heard(&mut rx), vec![s("CAP * ACK ::multi-prefix :sasl\r\n")]);
    say(&mut server, a, "CAP END");
    assert_eq!(heard(&mut rx), Vec::<String>::new());
    assert_eq!(server.session(a).unwrap().state(), ClientState::Registered);
}

#[test]
fn nickname_change_broadcast() {
    let mut server = ServerState::new();
    let (a, mut rx_a) = enter(&mut server, "a");
    let (_b, mut rx_b) = enter(&mut server, "b");
    say(&mut server, a, "NICK alice");
    assert_eq!(heard(&mut rx_a), vec![s(":server 001 alice :Welcome!\r\n")]);
    assert_eq!(heard(&mut rx_b), vec![s(":a NICK alice\r\n")]);
    assert_eq!(server.session(a).unwrap().nick(), Some(s("alice")));
    assert_eq!(server.users().get("alice"), Some(a));
    assert_eq!(server.users().get("a"), None);
}

#[test]
fn join_and_name_list() {
    let mut server = ServerState::new();
    let (alice, mut rx) = enter(&mut server, "alice");
    say(&mut server, alice, "JOIN #room");
    assert_eq!(
        heard(&mut rx),
        vec![
            s(":alice JOIN #room\r\n"),
            s(":server 332 alice #room :STUBBED_VALUE\r\n"),
            s(":server 353 alice = #room :alice\r\n"),
            s(":server 366 alice #room :End of /NAMES list\r\n"),
        ]
    );
    assert_eq!(server.channel_count(), 1);
    assert_eq!(server.channel(0).unwrap().name(), "#room");
    assert_eq!(server.channel(0).unwrap().topic(), "");
    assert_eq!(server.channel(0).unwrap().users().get("alice"), Some(alice));
}

#[test]
fn join_tells_the_other_members() {
    let mut server = ServerState::new();
    let (alice, mut rx_a) = enter(&mut server, "alice");
    let (bob, mut rx_b) = enter(&mut server, "bob");
    let (_carol, mut rx_c) = enter(&mut server, "carol");
    say(&mut server, alice, "JOIN #room");
    heard(&mut rx_a);
    say(&mut server, bob, "JOIN #room");
    assert_eq!(heard(&mut rx_a), vec![s(":bob JOIN #room\r\n")]);
    assert_eq!(
        heard(&mut rx_b),
        vec![
            s(":bob JOIN #room\r\n"),
            s(":server 332 bob #room :STUBBED_VALUE\r\n"),
            s(":server 353 bob = #room :alice bob\r\n"),
            s(":server 366 bob #room :End of /NAMES list\r\n"),
        ]
    );
    assert_eq!(heard(&mut rx_c), Vec::<String>::new());
}

#[test]
fn channel_privmsg_fan_out() {
    let mut server = ServerState::new();
    let (alice, mut rx_a) = enter(&mut server, "alice");
    let (bob, mut rx_b) = enter(&mut server, "bob");
    say(&mut server, alice, "JOIN #room");
    say(&mut server, bob, "JOIN #room");
    heard(&mut rx_a);
    heard(&mut rx_b);
    say(&mut server, alice, "PRIVMSG #room :hello there");
    assert_eq!(heard(&mut rx_b), vec![s(":alice PRIVMSG #room :hello there\r\n")]);
    assert_eq!(heard(&mut rx_a), Vec::<String>::new());
}

#[test]
fn direct_privmsg() {
    let mut server = ServerState::new();
    let (alice, mut rx_a) = enter(&mut server, "alice");
    let (_bob, mut rx_b) = enter(&mut server, "bob");
    say(&mut server, alice, "PRIVMSG bob :hi");
    assert_eq!(heard(&mut rx_b), vec![s(":alice PRIVMSG bob :hi\r\n")]);
    assert_eq!(heard(&mut rx_a), Vec::<String>::new());
}

#[test]
fn ping() {
    let mut server = ServerState::new();
    let (a, mut rx) = enter(&mut server, "a");
    say(&mut server, a, "PING abc123");
    assert_eq!(heard(&mut rx), vec![s("PONG server abc123\r\n")]);
}

#[test]
fn privmsg_to_an_unknown_nickname_is_dropped() {
    let mut server = ServerState::new();
    let (alice, mut rx_a) = enter(&mut server, "alice");
    let out = Command::parse("PRIVMSG nobody :hi").execute(alice, &mut server);
    assert!(out.is_empty());
    say(&mut server, alice, "PRIVMSG nobody :hi");
    assert_eq!(heard(&mut rx_a), Vec::<String>::new());
}

#[test]
fn privmsg_to_an_unknown_channel_is_dropped() {
    let mut server = ServerState::new();
    let (alice, _rx) = enter(&mut server, "alice");
    let out = Command::parse("PRIVMSG #nowhere :hi").execute(alice, &mut server);
    assert!(out.is_empty());
    assert_eq!(server.channel_count(), 0);
}

#[test]
fn privmsg_to_oneself_arrives() {
    let mut server = ServerState::new();
    let (alice, mut rx) = enter(&mut server, "alice");
    say(&mut server, alice, "PRIVMSG alice :note");
    assert_eq!(heard(&mut rx), vec![s(":alice PRIVMSG alice :note\r\n")]);
}

#[test]
fn privmsg_reaches_a_channel_from_outside() {
    let mut server = ServerState::new();
    let (alice, mut rx_a) = enter(&mut server, "alice");
    let (bob, mut rx_b) = enter(&mut server, "bob");
    say(&mut server, alice, "JOIN #room");
    heard(&mut rx_a);
    say(&mut server, bob, "PRIVMSG #room hey");
    assert_eq!(heard(&mut rx_a), vec![s(":bob PRIVMSG #room :hey\r\n")]);
    assert_eq!(heard(&mut rx_b), Vec::<String>::new());
}

#[test]
fn user_sets_the_username_silently() {
    let mut server = ServerState::new();
    let (a, mut rx) = enter(&mut server, "a");
    say(&mut server, a, "USER alice 0 * :Alice");
    assert_eq!(server.session(a).unwrap().user(), Some(s("alice")));
    assert_eq!(server.session(a).unwrap().nick(), Some(s("a")));
    assert_eq!(heard(&mut rx), Vec::<String>::new());
}

#[test]
fn quit_is_confirmed_and_removes_nothing() {
    let mut server = ServerState::new();
    let (a, mut rx_a) = enter(&mut server, "a");
    let (b, mut rx_b) = enter(&mut server, "b");
    say(&mut server, a, "JOIN #room");
    say(&mut server, b, "JOIN #room");
    heard(&mut rx_a);
    heard(&mut rx_b);
    say(&mut server, a, "QUIT");
    assert_eq!(heard(&mut rx_a), vec![s(":a QUIT\r\n")]);
    assert_eq!(heard(&mut rx_b), Vec::<String>::new());
    assert_eq!(server.users().get("a"), Some(a));
    assert_eq!(server.channel(0).unwrap().users().get("a"), Some(a));
}

#[test]
fn unknown_commands_have_no_effect() {
    let mut server = ServerState::new();
    let (a, mut rx) = enter(&mut server, "a");
    say(&mut server, a, "WHOIS a");
    say(&mut server, a, "");
    assert_eq!(heard(&mut rx), Vec::<String>::new());
    assert_eq!(server.users().len(), 1);
    assert_eq!(server.channel_count(), 0);
}

#[test]
fn names_of_one_channel() {
    let mut server = ServerState::new();
    let (a, mut rx_a) = enter(&mut server, "a");
    let (b, mut rx_b) = enter(&mut server, "b");
    say(&mut server, a, "JOIN #room");
    say(&mut server, b, "JOIN #room");
    heard(&mut rx_a);
    heard(&mut rx_b);
    say(&mut server, b, "NAMES #room");
    assert_eq!(
        heard(&mut rx_b),
        vec![
            s(":server 353 b = #room :a b\r\n"),
            s(":server 366 b #room :End of /NAMES list\r\n"),
        ]
    );
    assert_eq!(heard(&mut rx_a), Vec::<String>::new());
}

#[test]
fn names_of_a_missing_channel_says_nothing() {
    let mut server = ServerState::new();
    let (a, mut rx) = enter(&mut server, "a");
    say(&mut server, a, "NAMES #nowhere");
    assert_eq!(heard(&mut rx), Vec::<String>::new());
}

#[test]
fn names_of_all_channels() {
    let mut server = ServerState::new();
    let (a, mut rx_a) = enter(&mut server, "a");
    let (b, mut rx_b) = enter(&mut server, "b");
    say(&mut server, a, "JOIN #one");
    say(&mut server, b, "JOIN #two");
    say(&mut server, a, "JOIN #two");
    heard(&mut rx_a);
    heard(&mut rx_b);
    say(&mut server, a, "NAMES");
    assert_eq!(
        heard(&mut rx_a),
        vec![
            s(":server 353 a = #one :a\r\n"),
            s(":server 353 a = #two :b a\r\n"),
            s(":server 366 a * :End of /NAMES list\r\n"),
        ]
    );
}

#[test]
fn names_without_channels_only_ends() {
    let mut server = ServerState::new();
    let (a, mut rx) = enter(&mut server, "a");
    say(&mut server, a, "NAMES");
    assert_eq!(heard(&mut rx), vec![s(":server 366 a * :End of /NAMES list\r\n")]);
}

#[test]
fn execute_returns_the_lines_and_sends_none() {
    let mut server = ServerState::new();
    let (a, mut rx_a) = enter(&mut server, "a");
    let (b, mut rx_b) = enter(&mut server, "b");
    let out = Command::parse("NICK alice").execute(a, &mut server);
    assert_eq!(
        pairs(&out),
        vec![(a, s(":server 001 alice :Welcome!\r\n")), (b, s(":a NICK alice\r\n"))]
    );
    assert_eq!(heard(&mut rx_a), Vec::<String>::new());
    assert_eq!(heard(&mut rx_b), Vec::<String>::new());
    server.deliver(out);
    assert_eq!(heard(&mut rx_a), vec![s(":server 001 alice :Welcome!\r\n")]);
    assert_eq!(heard(&mut rx_b), vec![s(":a NICK alice\r\n")]);
}

#[test]
fn registry_holds_each_nickname_once() {
    let mut server = ServerState::new();
    let (a, _rx_a) = enter(&mut server, "a");
    let (b, _rx_b) = enter(&mut server, "b");
    let (c, _rx_c) = enter(&mut server, "a");
    say(&mut server, b, "NICK a");
    say(&mut server, a, "NICK z");
    say(&mut server, c, "JOIN #room");
    say(&mut server, a, "JOIN #room");
    let mut rosters = vec![server.users()];
    for at in 0..server.channel_count() {
        rosters.push(server.channel(at).unwrap().users());
    }
    for roster in rosters {
        let mut nicks = roster.nicks();
        let total = nicks.len();
        nicks.sort();
        nicks.dedup();
        assert_eq!(nicks.len(), total);
    }
}

#[test]
fn a_second_entry_under_a_nickname_replaces_the_first() {
    let mut server = ServerState::new();
    let (first, _rx_1) = enter(&mut server, "guest5");
    let (second, _rx_2) = enter(&mut server, "guest5");
    assert_eq!(server.users().len(), 1);
    assert_eq!(server.users().get("guest5"), Some(second));
    assert_eq!(server.session_count(), 2);
    assert_eq!(server.session(first).unwrap().nick(), Some(s("guest5")));
}

#[test]
fn nick_renames_in_every_channel() {
    let mut server = ServerState::new();
    let (a, mut rx_a) = enter(&mut server, "a");
    let (b, mut rx_b) = enter(&mut server, "b");
    say(&mut server, a, "JOIN #one");
    say(&mut server, b, "JOIN #one");
    say(&mut server, a, "JOIN #two");
    say(&mut server, b, "JOIN #three");
    say(&mut server, a, "NICK alice");
    for at in 0..server.channel_count() {
        assert_eq!(server.channel(at).unwrap().users().get("a"), None);
    }
    assert_eq!(server.channel(0).unwrap().users().get("alice"), Some(a));
    assert_eq!(server.channel(1).unwrap().users().get("alice"), Some(a));
    assert_eq!(server.channel(2).unwrap().users().get("alice"), None);
    assert_eq!(server.channel(0).unwrap().users().get("b"), Some(b));
    assert_eq!(server.channel(0).unwrap().users().len(), 2);
    heard(&mut rx_a);
    heard(&mut rx_b);
    say(&mut server, b, "PRIVMSG #one :still there?");
    assert_eq!(heard(&mut rx_a), vec![s(":b PRIVMSG #one :still there?\r\n")]);
}

#[test]
fn nick_to_the_same_nickname_keeps_the_bindings() {
    let mut server = ServerState::new();
    let (a, mut rx_a) = enter(&mut server, "a");
    say(&mut server, a, "JOIN #one");
    heard(&mut rx_a);
    say(&mut server, a, "NICK a");
    assert_eq!(server.users().get("a"), Some(a));
    assert_eq!(server.channel(0).unwrap().users().get("a"), Some(a));
    assert_eq!(heard(&mut rx_a), vec![s(":server 001 a :Welcome!\r\n")]);
}

#[test]
fn join_again_changes_nothing() {
    let mut server = ServerState::new();
    let (a, mut rx_a) = enter(&mut server, "a");
    let (b, mut rx_b) = enter(&mut server, "b");
    say(&mut server, a, "JOIN #room");
    say(&mut server, b, "JOIN #room");
    heard(&mut rx_a);
    heard(&mut rx_b);
    say(&mut server, a, "JOIN #room");
    assert_eq!(server.channel_count(), 1);
    assert_eq!(server.channel(0).unwrap().users().len(), 2);
    assert_eq!(server.channel(0).unwrap().users().nicks(), vec![s("a"), s("b")]);
    assert_eq!(server.channel(0).unwrap().users().get("a"), Some(a));
    assert_eq!(
        heard(&mut rx_a),
        vec![
            s(":a JOIN #room\r\n"),
            s(":server 332 a #room :STUBBED_VALUE\r\n"),
            s(":server 353 a = #room :a b\r\n"),
            s(":server 366 a #room :End of /NAMES list\r\n"),
        ]
    );
    assert_eq!(heard(&mut rx_b), vec![s(":a JOIN #room\r\n")]);
}

#[test]
fn lines_arrive_in_the_order_of_enqueueing() {
    let mut server = ServerState::new();
    let (a, mut rx_a) = enter(&mut server, "a");
    let (b, mut rx_b) = enter(&mut server, "b");
    say(&mut server, a, "PRIVMSG b :one");
    say(&mut server, b, "PING x");
    say(&mut server, a, "PRIVMSG b :two");
    say(&mut server, a, "NICK c");
    say(&mut server, a, "PRIVMSG b :three");
    assert_eq!(
        heard(&mut rx_b),
        vec![
            s(":a PRIVMSG b :one\r\n"),
            s("PONG server x\r\n"),
            s(":a PRIVMSG b :two\r\n"),
            s(":a NICK c\r\n"),
            s(":c PRIVMSG b :three\r\n"),
        ]
    );
    assert_eq!(heard(&mut rx_a), vec![s(":server 001 c :Welcome!\r\n")]);
}

#[test]
fn deliver_keeps_the_order_for_each_recipient() {
    let mut server = ServerState::new();
    let (a, mut rx_a) = enter(&mut server, "a");
    let (b, mut rx_b) = enter(&mut server, "b");
    server.deliver(vec![
        Delivery { recipient: a, line: s("1") },
        Delivery { recipient: b, line: s("2") },
        Delivery { recipient: a, line: s("3") },
        Delivery { recipient: b, line: s("4") },
        Delivery { recipient: a, line: s("5") },
    ]);
    assert_eq!(heard(&mut rx_a), vec![s("1"), s("3"), s("5")]);
    assert_eq!(heard(&mut rx_b), vec![s("2"), s("4")]);
}

#[test]
fn a_closed_queue_does_not_stop_the_others() {
    let mut server = ServerState::new();
    let (a, mut rx_a) = enter(&mut server, "a");
    let (b, rx_b) = enter(&mut server, "b");
    let (c, mut rx_c) = enter(&mut server, "c");
    say(&mut server, a, "JOIN #room");
    say(&mut server, b, "JOIN #room");
    say(&mut server, c, "JOIN #room");
    heard(&mut rx_a);
    heard(&mut rx_c);
    drop(rx_b);
    say(&mut server, a, "PRIVMSG #room :anyone?");
    assert_eq!(heard(&mut rx_c), vec![s(":a PRIVMSG #room :anyone?\r\n")]);
}

#[test]
fn registry_operations() {
    let mut server = ServerState::new();
    let (a, _rx_a) = enter(&mut server, "a");
    let (b, _rx_b) = enter(&mut server, "b");
    server.change_nick("a", "alice");
    assert_eq!(server.users().get("alice"), Some(a));
    assert_eq!(server.users().get("a"), None);
    server.change_nick("nobody", "x");
    assert_eq!(server.users().get("x"), None);
    assert_eq!(server.users().len(), 2);
    server.change_nick("alice", "b");
    assert_eq!(server.users().get("b"), Some(a));
    assert_eq!(server.users().len(), 1);
    server.remove_client("b");
    assert_eq!(server.users().len(), 0);
    server.remove_client("b");
    assert_eq!(server.users().len(), 0);
    assert_eq!(server.session_count(), 2);
    assert!(b < server.session_count());
    assert_eq!(server.find_channel("#room"), None);
}

#[test]
fn guest_nicknames_are_exact() {
    assert_eq!(guest_nickname(1), "guest1");
    assert_eq!(guest_nickname(42), "guest42");
    assert_eq!(guest_nickname(9999), "guest9999");
}

#[test]
fn random_guest_nicknames_are_in_range_and_vary() {
    let mut seen = Vec::new();
    for _ in 0..200 {
        let nick = random_guest_nickname();
        let number: u32 = nick.strip_prefix("guest").unwrap().parse().unwrap();
        assert!((1..=9999).contains(&number));
        assert_eq!(nick, format!("guest{}", number));
        if !seen.contains(&number) {
            seen.push(number);
        }
    }
    assert!(seen.len() > 2);
}

#[test]
fn a_connection_starts_as_a_registered_guest() {
    let mut server = ServerState::new();
    let (tx, mut rx) = unbounded_channel();
    let session = server.connect(tx);
    assert_eq!(session, 0);
    assert_eq!(server.session_count(), 1);
    let nick = server.session(session).unwrap().nickname();
    assert!(nick.starts_with("guest"));
    assert_eq!(server.users().get(&nick), Some(session));
    assert_eq!(server.session(session).unwrap().user(), Some(nick.clone()));
    assert_eq!(server.session(session).unwrap().state(), ClientState::Unregistered);
    say(&mut server, session, "PING 1");
    assert_eq!(heard(&mut rx), vec![s("PONG server 1\r\n")]);
}

#[test]
fn registry_and_channels_agree_without_collisions() {
    let mut server = ServerState::new();
    let (a, _rx_a) = enter(&mut server, "a");
    let (b, _rx_b) = enter(&mut server, "b");
    let (c, _rx_c) = enter(&mut server, "c");
    let script = [
        (a, "JOIN #one"),
        (b, "JOIN #one"),
        (c, "JOIN #two"),
        (a, "NICK alice"),
        (a, "JOIN #two"),
        (b, "USER bob 0 * :Bob"),
        (b, "NICK b"),
        (c, "NICK carol"),
        (c, "JOIN #one"),
        (a, "PRIVMSG #one :hi"),
        (b, "QUIT"),
        (a, "CAP END"),
    ];
    for (session, line) in script {
        say(&mut server, session, line);
        for id in 0..server.session_count() {
            let nick = server.session(id).unwrap().nickname();
            assert_eq!(server.users().get(&nick), Some(id));
        }
        for at in 0..server.channel_count() {
            let members = server.channel(at).unwrap().users();
            for nick in members.nicks() {
                assert!(members.get(&nick).is_some());
                assert_eq!(server.users().get(&nick), members.get(&nick));
            }
        }
    }
    assert_eq!(server.channel(0).unwrap().users().nicks(), vec![s("alice"), s("b"), s("carol")]);
    assert_eq!(server.channel(1).unwrap().users().nicks(), vec![s("alice"), s("carol")]);
}

#[test]
fn a_nickname_in_use_is_taken_over() {
    let mut server = ServerState::new();
    let (a, mut rx_a) = enter(&mut server, "a");
    let (b, mut rx_b) = enter(&mut server, "b");
    say(&mut server, a, "JOIN #room");
    say(&mut server, b, "JOIN #room");
    heard(&mut rx_a);
    heard(&mut rx_b);
    say(&mut server, b, "NICK a");
    assert_eq!(server.users().len(), 1);
    assert_eq!(server.users().get("a"), Some(b));
    assert_eq!(server.channel(0).unwrap().users().nicks(), vec![s("a")]);
    assert_eq!(server.channel(0).unwrap().users().get("a"), Some(b));
    assert_eq!(heard(&mut rx_b), vec![s(":server 001 a :Welcome!\r\n")]);
    assert_eq!(heard(&mut rx_a), Vec::<String>::new());
}
