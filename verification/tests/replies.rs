use oxide_ircd::ircd::response::{FormatResponse, ResponseCode, ResponseParams};
use oxide_ircd::ircd::text::{push_decimal, push_three_digits};

fn s(text: &str) -> String {
    text.to_string()
}

#[test]
fn topic_reply_is_exact() {
    let p = ResponseParams::new(s("alice")).channel(s("#room"));
    assert_eq!(ResponseCode::RPL_TOPIC.message(p), ":server 332 alice #room :STUBBED_VALUE\r\n");
}

#[test]
fn names_reply_is_exact() {
    let p = ResponseParams::new(s("alice")).channel(s("#room")).message(s("alice bob"));
    assert_eq!(ResponseCode::RPL_NAMREPLY.message(p), ":server 353 alice = #room :alice bob\r\n");
}

#[test]
fn end_of_names_reply_is_exact() {
    let p = ResponseParams::new(s("alice")).channel(s("#room"));
    assert_eq!(
        ResponseCode::RPL_ENDOFNAMES.message(p),
        ":server 366 alice #room :End of /NAMES list\r\n"
    );
}

#[test]
fn codes_are_written_in_three_digits() {
    let p = ResponseParams::new(s("alice"));
    assert_eq!(
        ResponseCode::RPL_WELCOME.message(p),
        ":server 001 alice :Welcome to the STUBBED_VALUE Network, alice\r\n"
    );
    let p = ResponseParams::new(s("alice"));
    assert_eq!(
        ResponseCode::RPL_BOUNCE.message(p),
        ":server 010 alice STUBBED_VALUE STUBBED_VALUE :STUBBED_VALUE\r\n"
    );
}

#[test]
fn absent_parameters_are_empty() {
    let p = ResponseParams::new(s("alice"));
    assert_eq!(ResponseCode::RPL_TOPIC.message(p), ":server 332 alice  :STUBBED_VALUE\r\n");
    let p = ResponseParams::new(s("alice"));
    assert_eq!(ResponseCode::RPL_NAMREPLY.message(p), ":server 353 alice =  :\r\n");
}

#[test]
fn count_is_written_in_decimal() {
    let p = ResponseParams::new(s("c")).count(42);
    assert_eq!(ResponseCode::RPL_STATSCOMMANDS.message(p), ":server 212 c STUBBED_VALUE 42\r\n");
    let p = ResponseParams::new(s("c")).count(4294967295);
    assert_eq!(
        ResponseCode::RPL_STATSCOMMANDS.message(p),
        ":server 212 c STUBBED_VALUE 4294967295\r\n"
    );
    let p = ResponseParams::new(s("c"));
    assert_eq!(ResponseCode::RPL_STATSCOMMANDS.message(p), ":server 212 c STUBBED_VALUE 0\r\n");
}

#[test]
fn nick_server_and_date_fill_their_slots() {
    let p = ResponseParams::new(s("c")).nick(s("bob"));
    assert_eq!(
        ResponseCode::ERR_NOSUCHNICK.message(p),
        ":server 401 c bob :No such nick/channel\r\n"
    );
    let p = ResponseParams::new(s("c")).server(s("irc.example"));
    assert_eq!(
        ResponseCode::RPL_MOTDSTART.message(p),
        ":server 375 c :- irc.example Message of the day - \r\n"
    );
    let p = ResponseParams::new(s("c")).date(s("today"));
    assert_eq!(
        ResponseCode::RPL_CREATED.message(p),
        ":server 003 c :This server was created today\r\n"
    );
    let p = ResponseParams::new(s("c")).nick(s("bob")).channel(s("#x"));
    assert_eq!(
        ResponseCode::ERR_USERNOTINCHANNEL.message(p),
        ":server 441 c bob #x :They aren't on that channel\r\n"
    );
}

#[test]
fn host_fills_no_slot() {
    let with = ResponseParams::new(s("c")).host(s("h")).channel(s("#x"));
    let without = ResponseParams::new(s("c")).channel(s("#x"));
    assert_eq!(
        ResponseCode::RPL_CHANNELMODEIS.message(with),
        ResponseCode::RPL_CHANNELMODEIS.message(without)
    );
    let with = ResponseParams::new(s("c")).host(s("h"));
    assert_eq!(
        ResponseCode::RPL_WHOISHOST.message(with),
        ":server 378 c STUBBED_VALUE :is connecting from *@STUBBED_VALUE STUBBED_VALUE\r\n"
    );
}

#[test]
fn modes_fill_the_user_modes() {
    let p = ResponseParams::new(s("c")).modes(s("+iw"));
    assert_eq!(ResponseCode::RPL_UMODEIS.message(p), ":server 221 c +iw\r\n");
    let p = ResponseParams::new(s("c"));
    assert_eq!(ResponseCode::RPL_UMODEIS.message(p), ":server 221 c \r\n");
    let p = ResponseParams::new(s("c")).modes(s("+n")).channel(s("#x"));
    assert_eq!(
        ResponseCode::RPL_CHANNELMODEIS.message(p),
        ":server 324 c #x STUBBED_VALUE STUBBED_VALUE\r\n"
    );
}

#[test]
fn replies_follow_their_documented_forms() {
    let p = ResponseParams::new(s("c"));
    assert_eq!(
        ResponseCode::RPL_ISUPPORT.message(p),
        ":server 005 c STUBBED_VALUE :are supported by this server\r\n"
    );
    let p = ResponseParams::new(s("c")).date(s("today"));
    assert_eq!(
        ResponseCode::RPL_STATSUPTIME.message(p),
        ":server 242 c :Server Up STUBBED_VALUE days STUBBED_VALUE:STUBBED_VALUE:STUBBED_VALUE\r\n"
    );
    let p = ResponseParams::new(s("c"));
    assert_eq!(
        ResponseCode::RPL_WHOISIDLE.message(p),
        ":server 317 c STUBBED_VALUE STUBBED_VALUE STUBBED_VALUE\r\n"
    );
    let p = ResponseParams::new(s("c"));
    assert_eq!(
        ResponseCode::RPL_WHOISACTUALLY.message(p),
        ":server 338 c STUBBED_VALUE STUBBED_VALUE :Is actually using host\r\n"
    );
    let p = ResponseParams::new(s("c")).nick(s("bob"));
    assert_eq!(
        ResponseCode::RPL_LOGGEDIN.message(p),
        ":server 900 c bob STUBBED_VALUE STUBBED_VALUE :You are now logged in as STUBBED_VALUE\r\n"
    );
}

#[test]
fn a_later_value_replaces_an_earlier_one() {
    let p = ResponseParams::new(s("c")).channel(s("#a")).channel(s("#b"));
    assert_eq!(ResponseCode::RPL_NOTOPIC.message(p), ":server 331 c #b :No topic is set\r\n");
}

#[test]
fn every_reply_has_the_same_head() {
    let p = ResponseParams::new(s("c"));
    assert_eq!(ResponseCode::RPL_NONE.message(p), ":server 300 c\r\n");
    let p = ResponseParams::new(s("c")).nick(s("bob"));
    assert_eq!(
        ResponseCode::RPL_LOGGEDOUT.message(p),
        ":server 901 c bob :You are now logged out\r\n"
    );
    let p = ResponseParams::new(s("c"));
    assert_eq!(ResponseCode::RPL_UMODEIS.message(p), ":server 221 c \r\n");
}

#[test]
fn some_more_replies_are_exact() {
    let p = ResponseParams::new(s("c"));
    assert_eq!(
        ResponseCode::RPL_YOURHOST.message(p),
        ":server 002 c :Your host is OxideIRC, running version 0.1\r\n"
    );
    let p = ResponseParams::new(s("c")).channel(s("#x"));
    assert_eq!(
        ResponseCode::RPL_WHOREPLY.message(p),
        ":server 352 c #x STUBBED_VALUE STUBBED_VALUE STUBBED_VALUE STUBBED_VALUE STUBBED_VALUE :STUBBED_VALUE STUBBED_VALUE\r\n"
    );
    let p = ResponseParams::new(s("c"));
    assert_eq!(
        ResponseCode::ERR_NORECIPIENT.message(p),
        ":server 411 c :No recipient given (STUBBED_VALUE)\r\n"
    );
    let p = ResponseParams::new(s("c"));
    assert_eq!(
        ResponseCode::RPL_SASLMECHS.message(p),
        ":server 908 c STUBBED_VALUE :are available SASL mechanisms\r\n"
    );
    let p = ResponseParams::new(s("c"));
    assert_eq!(
        ResponseCode::RPL_ENDOFMOTD.message(p),
        ":server 376 c :End of /MOTD command\r\n"
    );
    let p = ResponseParams::new(s("c"));
    assert_eq!(
        ResponseCode::RPL_LINKS.message(p),
        ":server 364 c * STUBBED_VALUE :STUBBED_VALUE STUBBED_VALUE\r\n"
    );
}

#[test]
fn default_parameters_are_all_empty() {
    let p = ResponseParams::default();
    assert_eq!(ResponseCode::RPL_TOPIC.message(p), ":server 332   :\r\n");
}

#[test]
fn format_gives_the_line_of_message() {
    let p = ResponseParams::new(s("alice")).channel(s("#room"));
    let by_reference = ResponseCode::RPL_ENDOFNAMES.format(&p);
    assert_eq!(by_reference, ResponseCode::RPL_ENDOFNAMES.message(p));
}

#[test]
fn codes_have_their_numbers() {
    assert_eq!(ResponseCode::RPL_WELCOME.code(), 1);
    assert_eq!(ResponseCode::RPL_BOUNCE.code(), 10);
    assert_eq!(ResponseCode::RPL_TOPIC.code(), 332);
    assert_eq!(ResponseCode::RPL_NAMREPLY.code(), 353);
    assert_eq!(ResponseCode::RPL_ENDOFNAMES.code(), 366);
    assert_eq!(ResponseCode::ERR_NICKNAMEINUSE.code(), 433);
    assert_eq!(ResponseCode::RPL_SASLMECHS.code(), 908);
    assert_eq!(u16::from(ResponseCode::ERR_NOSUCHNICK), 401);
}

#[test]
fn numerals_are_exact() {
    let mut out = String::new();
    push_decimal(&mut out, 0);
    out.push(' ');
    push_decimal(&mut out, 9);
    out.push(' ');
    push_decimal(&mut out, 10);
    out.push(' ');
    push_decimal(&mut out, 9999);
    out.push(' ');
    push_three_digits(&mut out, 7);
    out.push(' ');
    push_three_digits(&mut out, 70);
    out.push(' ');
    push_three_digits(&mut out, 999);
    assert_eq!(out, "0 9 10 9999 007 070 999");
}

fn every_code() -> Vec<ResponseCode> {
    vec![
        ResponseCode::RPL_WELCOME, ResponseCode::RPL_YOURHOST, ResponseCode::RPL_CREATED,
        ResponseCode::RPL_MYINFO, ResponseCode::RPL_ISUPPORT, ResponseCode::RPL_BOUNCE,
        ResponseCode::RPL_STATSCOMMANDS, ResponseCode::RPL_ENDOFSTATS, ResponseCode::RPL_UMODEIS,
        ResponseCode::RPL_STATSUPTIME, ResponseCode::RPL_LUSERCLIENT, ResponseCode::RPL_LUSEROP,
        ResponseCode::RPL_LUSERUNKNOWN, ResponseCode::RPL_LUSERCHANNELS, ResponseCode::RPL_LUSERME,
        ResponseCode::RPL_ADMINME, ResponseCode::RPL_ADMINLOC1, ResponseCode::RPL_ADMINLOC2,
        ResponseCode::RPL_ADMINEMAIL, ResponseCode::RPL_TRYAGAIN, ResponseCode::RPL_LOCALUSERS,
        ResponseCode::RPL_GLOBALUSERS, ResponseCode::RPL_WHOISCERTFP, ResponseCode::RPL_NONE,
        ResponseCode::RPL_AWAY, ResponseCode::RPL_USERHOST, ResponseCode::RPL_UNAWAY,
        ResponseCode::RPL_NOWAWAY, ResponseCode::RPL_WHOISREGNICK, ResponseCode::RPL_WHOISUSER,
        ResponseCode::RPL_WHOISSERVER, ResponseCode::RPL_WHOISOPERATOR,
        ResponseCode::RPL_WHOWASUSER, ResponseCode::RPL_ENDOFWHO, ResponseCode::RPL_WHOISIDLE,
        ResponseCode::RPL_ENDOFWHOIS, ResponseCode::RPL_WHOISCHANNELS,
        ResponseCode::RPL_WHOISSPECIAL, ResponseCode::RPL_LISTSTART, ResponseCode::RPL_LIST,
        ResponseCode::RPL_LISTEND, ResponseCode::RPL_CHANNELMODEIS, ResponseCode::RPL_CREATIONTIME,
        ResponseCode::RPL_WHOISACCOUNT, ResponseCode::RPL_NOTOPIC, ResponseCode::RPL_TOPIC,
        ResponseCode::RPL_TOPICWHOTIME, ResponseCode::RPL_INVITELIST,
        ResponseCode::RPL_ENDOFINVITELIST, ResponseCode::RPL_WHOISACTUALLY,
        ResponseCode::RPL_INVITING, ResponseCode::RPL_INVEXLIST, ResponseCode::RPL_ENDOFINVEXLIST,
        ResponseCode::RPL_EXCEPTLIST, ResponseCode::RPL_ENDOFEXCEPTLIST, ResponseCode::RPL_VERSION,
        ResponseCode::RPL_WHOREPLY, ResponseCode::RPL_NAMREPLY, ResponseCode::RPL_LINKS,
        ResponseCode::RPL_ENDOFLINKS, ResponseCode::RPL_ENDOFNAMES, ResponseCode::RPL_BANLIST,
        ResponseCode::RPL_ENDOFBANLIST, ResponseCode::RPL_ENDOFWHOWAS, ResponseCode::RPL_INFO,
        ResponseCode::RPL_MOTD, ResponseCode::RPL_ENDOFINFO, ResponseCode::RPL_MOTDSTART,
        ResponseCode::RPL_ENDOFMOTD, ResponseCode::RPL_WHOISHOST, ResponseCode::RPL_WHOISMODES,
        ResponseCode::RPL_YOUREOPER, ResponseCode::RPL_REHASHING, ResponseCode::RPL_TIME,
        ResponseCode::ERR_UNKNOWNERROR, ResponseCode::ERR_NOSUCHNICK,
        ResponseCode::ERR_NOSUCHSERVER, ResponseCode::ERR_NOSUCHCHANNEL,
        ResponseCode::ERR_CANNOTSENDTOCHAN, ResponseCode::ERR_TOOMANYCHANNELS,
        ResponseCode::ERR_WASNOSUCHNICK, ResponseCode::ERR_NOORIGIN, ResponseCode::ERR_NORECIPIENT,
        ResponseCode::ERR_NOTEXTTOSEND, ResponseCode::ERR_INPUTTOOLONG,
        ResponseCode::ERR_UNKNOWNCOMMAND, ResponseCode::ERR_NOMOTD,
        ResponseCode::ERR_NONICKNAMEGIVEN, ResponseCode::ERR_ERRONEUSNICKNAME,
        ResponseCode::ERR_NICKNAMEINUSE, ResponseCode::ERR_NICKCOLLISION,
        ResponseCode::ERR_USERNOTINCHANNEL, ResponseCode::ERR_NOTONCHANNEL,
        ResponseCode::ERR_USERONCHANNEL, ResponseCode::ERR_NOTREGISTERED,
        ResponseCode::ERR_NEEDMOREPARAMS, ResponseCode::ERR_ALREADYREGISTERED,
        ResponseCode::ERR_PASSWDMISMATCH, ResponseCode::ERR_YOUREBANNEDCREEP,
        ResponseCode::ERR_CHANNELISFULL, ResponseCode::ERR_UNKNOWNMODE,
        ResponseCode::ERR_INVITEONLYCHAN, ResponseCode::ERR_BANNEDFROMCHAN,
        ResponseCode::ERR_BADCHANNELKEY, ResponseCode::ERR_BADCHANMASK,
        ResponseCode::ERR_NOPRIVILEGES, ResponseCode::ERR_CHANOPRIVSNEEDED,
        ResponseCode::ERR_CANTKILLSERVER, ResponseCode::ERR_NOOPERHOST,
        ResponseCode::ERR_UMODEUNKNOWNFLAG, ResponseCode::ERR_USERSDONTMATCH,
        ResponseCode::ERR_HELPNOTFOUND, ResponseCode::ERR_INVALIDKEY, ResponseCode::RPL_STARTTLS,
        ResponseCode::RPL_WHOISSECURE, ResponseCode::ERR_STARTTLS,
        ResponseCode::ERR_INVALIDMODEPARAM, ResponseCode::RPL_HELPSTART, ResponseCode::RPL_HELPTXT,
        ResponseCode::RPL_ENDOFHELP, ResponseCode::ERR_NOPRIVS, ResponseCode::RPL_LOGGEDIN,
        ResponseCode::RPL_LOGGEDOUT, ResponseCode::ERR_NICKLOCKED, ResponseCode::RPL_SASLSUCCESS,
        ResponseCode::ERR_SASLFAIL, ResponseCode::ERR_SASLTOOLONG, ResponseCode::ERR_SASLABORTED,
        ResponseCode::ERR_SASLALREADY, ResponseCode::RPL_SASLMECHS,
    ]
}

fn full_params() -> ResponseParams {
    ResponseParams::new(s("c"))
        .channel(s("#x"))
        .nick(s("n"))
        .host(s("h"))
        .message(s("m m"))
        .server(s("irc.example"))
        .modes(s("+i"))
        .count(7)
        .date(s("today"))
}

#[test]
fn every_reply_is_one_line_under_the_common_head() {
    let codes = every_code();
    assert_eq!(codes.len(), 130);
    for code in codes {
        for params in [full_params(), ResponseParams::new(s("c"))] {
            let line = code.message(params);
            let head = format!(":server {:03} c", code.code());
            assert!(line.starts_with(&head), "{:?}: {:?}", code, line);
            assert!(line.ends_with("\r\n"), "{:?}: {:?}", code, line);
            let inner = &line[..line.len() - 2];
            assert!(!inner.contains('\r') && !inner.contains('\n'), "{:?}: {:?}", code, line);
            let after = &inner[head.len()..];
            assert!(after.is_empty() || after.starts_with(' '), "{:?}: {:?}", code, line);
        }
    }
}

#[test]
fn codes_are_distinct_and_of_three_digits() {
    let mut numbers: Vec<u16> = every_code().iter().map(|c| c.code()).collect();
    assert!(numbers.iter().all(|n| (1..=999).contains(n)));
    numbers.sort();
    numbers.dedup();
    assert_eq!(numbers.len(), 130);
}
