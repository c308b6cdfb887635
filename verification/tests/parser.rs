use oxide_ircd::ircd::command::Command;
use oxide_ircd::ircd::text::{
    chars_of, join_from, same_text, split_tokens, starts_with, strip_colon_and_trim, upper_is,
    words_from,
};

fn s(text: &str) -> String {
    text.to_string()
}

#[test]
fn parses_cap_ls() {
    assert_eq!(Command::parse("CAP LS"), Command::CapLs);
}

#[test]
fn parses_cap_end() {
    assert_eq!(Command::parse("CAP END"), Command::CapEnd);
}

#[test]
fn parses_cap_req_with_its_labels() {
    assert_eq!(
        Command::parse("CAP REQ :multi-prefix :sasl"),
        Command::CapReq(vec![s(":multi-prefix"), s(":sasl")])
    );
}

#[test]
fn parses_cap_req_without_labels() {
    assert_eq!(Command::parse("CAP REQ"), Command::CapReq(vec![]));
}

#[test]
fn cap_without_subcommand_is_unknown() {
    assert_eq!(Command::parse("CAP"), Command::Unknown(s("CAP")));
}

#[test]
fn cap_with_other_subcommand_is_unknown() {
    assert_eq!(Command::parse("CAP LIST"), Command::Unknown(s("CAP LIST")));
}

#[test]
fn verb_and_subcommand_ignore_case() {
    assert_eq!(Command::parse("cap ls"), Command::CapLs);
    assert_eq!(Command::parse("Cap End"), Command::CapEnd);
    assert_eq!(Command::parse("cAp rEq :sasl"), Command::CapReq(vec![s(":sasl")]));
    assert_eq!(Command::parse("nick Bob"), Command::NICK(s("Bob")));
    assert_eq!(Command::parse("Quit"), Command::QUIT);
}

#[test]
fn arguments_keep_their_case() {
    assert_eq!(Command::parse("JOIN #Room"), Command::JOIN(s("#Room")));
    assert_eq!(Command::parse("join #room"), Command::JOIN(s("#room")));
}

#[test]
fn parses_nick() {
    assert_eq!(Command::parse("NICK alice"), Command::NICK(s("alice")));
}

#[test]
fn nick_takes_the_first_argument_only() {
    assert_eq!(Command::parse("NICK alice bob"), Command::NICK(s("alice")));
}

#[test]
fn nick_without_argument_is_unknown() {
    assert_eq!(Command::parse("NICK"), Command::Unknown(s("NICK")));
}

#[test]
fn parses_user() {
    assert_eq!(Command::parse("USER alice 0 * :Alice"), Command::USER(s("alice")));
    assert_eq!(Command::parse("USER"), Command::Unknown(s("USER")));
}

#[test]
fn parses_join() {
    assert_eq!(Command::parse("JOIN #room"), Command::JOIN(s("#room")));
    assert_eq!(Command::parse("JOIN"), Command::Unknown(s("JOIN")));
}

#[test]
fn parses_ping() {
    assert_eq!(Command::parse("PING abc123"), Command::PING(s("abc123")));
    assert_eq!(Command::parse("PING"), Command::Unknown(s("PING")));
}

#[test]
fn parses_privmsg() {
    assert_eq!(
        Command::parse("PRIVMSG #room :hello there"),
        Command::PRIVMSG(s("#room"), s("hello there"))
    );
    assert_eq!(Command::parse("PRIVMSG bob :hi"), Command::PRIVMSG(s("bob"), s("hi")));
}

#[test]
fn privmsg_text_needs_no_colon() {
    assert_eq!(Command::parse("PRIVMSG bob hi"), Command::PRIVMSG(s("bob"), s("hi")));
}

#[test]
fn privmsg_collapses_runs_of_white_space() {
    assert_eq!(
        Command::parse("PRIVMSG bob :hello   big \t world"),
        Command::PRIVMSG(s("bob"), s("hello big world"))
    );
}

#[test]
fn privmsg_strips_one_leading_colon_then_trims() {
    assert_eq!(Command::parse("PRIVMSG bob ::)"), Command::PRIVMSG(s("bob"), s(":)")));
    assert_eq!(Command::parse("PRIVMSG bob ::: hi"), Command::PRIVMSG(s("bob"), s(":: hi")));
    assert_eq!(Command::parse("PRIVMSG bob : hi"), Command::PRIVMSG(s("bob"), s("hi")));
    assert_eq!(Command::parse("PRIVMSG bob : : x"), Command::PRIVMSG(s("bob"), s(": x")));
    assert_eq!(Command::parse("PRIVMSG bob :a:b"), Command::PRIVMSG(s("bob"), s("a:b")));
    assert_eq!(Command::parse("PRIVMSG bob ::"), Command::PRIVMSG(s("bob"), s(":")));
}

#[test]
fn privmsg_without_target_is_unknown() {
    assert_eq!(Command::parse("PRIVMSG"), Command::Unknown(s("PRIVMSG")));
}

#[test]
fn privmsg_without_text_is_unknown() {
    assert_eq!(Command::parse("PRIVMSG bob"), Command::Unknown(s("PRIVMSG bob")));
}

#[test]
fn privmsg_with_empty_text_is_unknown() {
    assert_eq!(Command::parse("PRIVMSG bob :"), Command::Unknown(s("PRIVMSG bob :")));
    assert_eq!(Command::parse("PRIVMSG bob : "), Command::Unknown(s("PRIVMSG bob : ")));
    assert_eq!(Command::parse("PRIVMSG bob :: :"), Command::PRIVMSG(s("bob"), s(": :")));
}

#[test]
fn parses_names() {
    assert_eq!(Command::parse("NAMES #room"), Command::NAMES(Some(s("#room"))));
    assert_eq!(Command::parse("NAMES"), Command::NAMES(None));
}

#[test]
fn parses_quit() {
    assert_eq!(Command::parse("QUIT"), Command::QUIT);
    assert_eq!(Command::parse("QUIT :bye"), Command::QUIT);
}

#[test]
fn other_verbs_are_unknown_and_keep_the_raw_line() {
    assert_eq!(Command::parse("WHOIS  alice "), Command::Unknown(s("WHOIS  alice ")));
}

#[test]
fn empty_and_blank_lines_are_unknown() {
    assert_eq!(Command::parse(""), Command::Unknown(s("")));
    assert_eq!(Command::parse("   \t "), Command::Unknown(s("   \t ")));
}

#[test]
fn surrounding_white_space_is_ignored() {
    assert_eq!(Command::parse("  NICK   alice  "), Command::NICK(s("alice")));
    assert_eq!(Command::parse("PING\tabc\r"), Command::PING(s("abc")));
}

#[test]
fn white_space_is_the_ascii_kind_only() {
    assert_eq!(Command::parse("NICK\u{a0}alice"), Command::Unknown(s("NICK\u{a0}alice")));
    assert_eq!(Command::parse("NICK a\u{2003}b"), Command::NICK(s("a\u{2003}b")));
    assert_eq!(Command::parse("NICK\u{b}x"), Command::Unknown(s("NICK\u{b}x")));
}

#[test]
fn case_folding_is_the_ascii_kind_only() {
    assert_eq!(Command::parse("ǹick a"), Command::Unknown(s("ǹick a")));
}

#[test]
fn every_line_is_some_command() {
    let lines = [
        "", " ", ":", "CAP", "cap ls x", "NICK", "PRIVMSG", "PRIVMSG a", "\u{0}", "é è",
        "JOIN\u{10ffff}", "NAMES a b c", "QUIT QUIT", "@!#$ %^&*",
    ];
    for line in lines {
        let first = Command::parse(line);
        let second = Command::parse(line);
        assert_eq!(first, second);
    }
}

#[test]
fn splits_on_runs_of_white_space() {
    assert_eq!(split_tokens("a  b\tc\r\n"), vec![s("a"), s("b"), s("c")]);
    assert_eq!(split_tokens(""), Vec::<String>::new());
    assert_eq!(split_tokens(" \x0c "), Vec::<String>::new());
    assert_eq!(split_tokens("héllo wörld"), vec![s("héllo"), s("wörld")]);
}

#[test]
fn joins_from_an_index() {
    let parts = vec![s("a"), s("b"), s("c")];
    assert_eq!(join_from(&parts, 0, " "), "a b c");
    assert_eq!(join_from(&parts, 1, ", "), "b, c");
    assert_eq!(join_from(&parts, 2, " "), "c");
    assert_eq!(join_from(&parts, 3, " "), "");
}

#[test]
fn copies_words_from_an_index() {
    let parts = vec![s("a"), s("b"), s("c")];
    assert_eq!(words_from(&parts, 1), vec![s("b"), s("c")]);
    assert_eq!(words_from(&parts, 3), Vec::<String>::new());
}

#[test]
fn strips_one_colon_and_trims() {
    assert_eq!(strip_colon_and_trim(":  hi there \t"), "hi there");
    assert_eq!(strip_colon_and_trim("::  hi there \t"), ":  hi there");
    assert_eq!(strip_colon_and_trim("hi:"), "hi:");
    assert_eq!(strip_colon_and_trim(":::"), "::");
    assert_eq!(strip_colon_and_trim(":"), "");
    assert_eq!(strip_colon_and_trim(""), "");
    assert_eq!(strip_colon_and_trim(" :x"), ":x");
}

#[test]
fn compares_texts() {
    assert!(same_text("abc", "abc"));
    assert!(!same_text("abc", "abd"));
    assert!(!same_text("abc", "ab"));
    assert!(same_text("", ""));
    assert!(same_text("é", "é"));
}

#[test]
fn compares_folded_to_upper_case() {
    assert!(upper_is("nick", "NICK"));
    assert!(upper_is("NiCk", "NICK"));
    assert!(!upper_is("nick", "nick"));
    assert!(!upper_is("nic", "NICK"));
    assert!(upper_is("a{z", "A{Z"));
}

#[test]
fn tells_the_first_character() {
    assert!(starts_with("#room", '#'));
    assert!(!starts_with("room", '#'));
    assert!(!starts_with("", '#'));
}

#[test]
fn lists_characters() {
    assert_eq!(chars_of("aé"), vec!['a', 'é']);
}
