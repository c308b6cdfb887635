//! The numeric replies: their codes, the parameters a reply is filled from,
//! and the exact line that each code produces.

use super::text::{decimal, opt_text, push_decimal, push_three_digits, three_digits};
use vstd::prelude::*;

verus! {

/// A numeric reply of the server.
#[allow(non_camel_case_types)]
#[derive(Clone, Copy, Debug, PartialEq, Eq)]
pub enum ResponseCode {
    RPL_WELCOME,
    RPL_YOURHOST,
    RPL_CREATED,
    RPL_MYINFO,
    RPL_ISUPPORT,
    RPL_BOUNCE,
    RPL_STATSCOMMANDS,
    RPL_ENDOFSTATS,
    RPL_UMODEIS,
    RPL_STATSUPTIME,
    RPL_LUSERCLIENT,
    RPL_LUSEROP,
    RPL_LUSERUNKNOWN,
    RPL_LUSERCHANNELS,
    RPL_LUSERME,
    RPL_ADMINME,
    RPL_ADMINLOC1,
    RPL_ADMINLOC2,
    RPL_ADMINEMAIL,
    RPL_TRYAGAIN,
    RPL_LOCALUSERS,
    RPL_GLOBALUSERS,
    RPL_WHOISCERTFP,
    RPL_NONE,
    RPL_AWAY,
    RPL_USERHOST,
    RPL_UNAWAY,
    RPL_NOWAWAY,
    RPL_WHOISREGNICK,
    RPL_WHOISUSER,
    RPL_WHOISSERVER,
    RPL_WHOISOPERATOR,
    RPL_WHOWASUSER,
    RPL_ENDOFWHO,
    RPL_WHOISIDLE,
    RPL_ENDOFWHOIS,
    RPL_WHOISCHANNELS,
    RPL_WHOISSPECIAL,
    RPL_LISTSTART,
    RPL_LIST,
    RPL_LISTEND,
    RPL_CHANNELMODEIS,
    RPL_CREATIONTIME,
    RPL_WHOISACCOUNT,
    RPL_NOTOPIC,
    RPL_TOPIC,
    RPL_TOPICWHOTIME,
    RPL_INVITELIST,
    RPL_ENDOFINVITELIST,
    RPL_WHOISACTUALLY,
    RPL_INVITING,
    RPL_INVEXLIST,
    RPL_ENDOFINVEXLIST,
    RPL_EXCEPTLIST,
    RPL_ENDOFEXCEPTLIST,
    RPL_VERSION,
    RPL_WHOREPLY,
    RPL_NAMREPLY,
    RPL_LINKS,
    RPL_ENDOFLINKS,
    RPL_ENDOFNAMES,
    RPL_BANLIST,
    RPL_ENDOFBANLIST,
    RPL_ENDOFWHOWAS,
    RPL_INFO,
    RPL_MOTD,
    RPL_ENDOFINFO,
    RPL_MOTDSTART,
    RPL_ENDOFMOTD,
    RPL_WHOISHOST,
    RPL_WHOISMODES,
    RPL_YOUREOPER,
    RPL_REHASHING,
    RPL_TIME,
    ERR_UNKNOWNERROR,
    ERR_NOSUCHNICK,
    ERR_NOSUCHSERVER,
    ERR_NOSUCHCHANNEL,
    ERR_CANNOTSENDTOCHAN,
    ERR_TOOMANYCHANNELS,
    ERR_WASNOSUCHNICK,
    ERR_NOORIGIN,
    ERR_NORECIPIENT,
    ERR_NOTEXTTOSEND,
    ERR_INPUTTOOLONG,
    ERR_UNKNOWNCOMMAND,
    ERR_NOMOTD,
    ERR_NONICKNAMEGIVEN,
    ERR_ERRONEUSNICKNAME,
    ERR_NICKNAMEINUSE,
    ERR_NICKCOLLISION,
    ERR_USERNOTINCHANNEL,
    ERR_NOTONCHANNEL,
    ERR_USERONCHANNEL,
    ERR_NOTREGISTERED,
    ERR_NEEDMOREPARAMS,
    ERR_ALREADYREGISTERED,
    ERR_PASSWDMISMATCH,
    ERR_YOUREBANNEDCREEP,
    ERR_CHANNELISFULL,
    ERR_UNKNOWNMODE,
    ERR_INVITEONLYCHAN,
    ERR_BANNEDFROMCHAN,
    ERR_BADCHANNELKEY,
    ERR_BADCHANMASK,
    ERR_NOPRIVILEGES,
    ERR_CHANOPRIVSNEEDED,
    ERR_CANTKILLSERVER,
    ERR_NOOPERHOST,
    ERR_UMODEUNKNOWNFLAG,
    ERR_USERSDONTMATCH,
    ERR_HELPNOTFOUND,
    ERR_INVALIDKEY,
    RPL_STARTTLS,
    RPL_WHOISSECURE,
    ERR_STARTTLS,
    ERR_INVALIDMODEPARAM,
    RPL_HELPSTART,
    RPL_HELPTXT,
    RPL_ENDOFHELP,
    ERR_NOPRIVS,
    RPL_LOGGEDIN,
    RPL_LOGGEDOUT,
    ERR_NICKLOCKED,
    RPL_SASLSUCCESS,
    ERR_SASLFAIL,
    ERR_SASLTOOLONG,
    ERR_SASLABORTED,
    ERR_SASLALREADY,
    RPL_SASLMECHS,
}

/// One piece of a reply's body: fixed text, or a parameter to fill in.
pub enum Part {
    Text(&'static str),
    Client,
    Stub,
    Channel,
    Nick,
    Server,
    Message,
    Modes,
    Count,
    Date,
}

/// The parameters that a reply is filled from.
pub struct ResponseParams {
    client: String,
    stub: String,
    channel: Option<String>,
    nick: Option<String>,
    host: Option<String>,
    message: Option<String>,
    server: Option<String>,
    modes: Option<String>,
    count: Option<u32>,
    date: Option<String>,
}

/// What a [`ResponseParams`] holds, as plain text.
pub struct ResponseParamsView {
    pub client: Seq<char>,
    pub stub: Seq<char>,
    pub channel: Option<Seq<char>>,
    pub nick: Option<Seq<char>>,
    pub host: Option<Seq<char>>,
    pub message: Option<Seq<char>>,
    pub server: Option<Seq<char>>,
    pub modes: Option<Seq<char>>,
    pub count: Option<u32>,
    pub date: Option<Seq<char>>,
}

/// The text that fills a slot no parameter is known for.
pub open spec fn stub_text() -> Seq<char> {
    "STUBBED_VALUE"@
}

/// The parameters of a reply to `client` with nothing else set.
pub open spec fn params_for(client: Seq<char>) -> ResponseParamsView {
    ResponseParamsView {
        client,
        stub: stub_text(),
        channel: None,
        nick: None,
        host: None,
        message: None,
        server: None,
        modes: None,
        count: None,
        date: None,
    }
}

/// An optional text, empty where absent.
pub open spec fn or_empty(t: Option<Seq<char>>) -> Seq<char> {
    match t {
        Some(s) => s,
        None => Seq::empty(),
    }
}

/// The text that one part of a body contributes.
pub open spec fn fill(part: Part, p: ResponseParamsView) -> Seq<char> {
    match part {
        Part::Text(t) => t@,
        Part::Client => p.client,
        Part::Stub => p.stub,
        Part::Channel => or_empty(p.channel),
        Part::Nick => or_empty(p.nick),
        Part::Server => or_empty(p.server),
        Part::Message => or_empty(p.message),
        Part::Modes => or_empty(p.modes),
        Part::Count => match p.count {
            Some(n) => decimal(n as nat),
            None => decimal(0),
        },
        Part::Date => or_empty(p.date),
    }
}

/// The parts filled in and laid end to end.
pub open spec fn render(parts: Seq<Part>, p: ResponseParamsView) -> Seq<char>
    decreases parts.len(),
{
    if parts.len() == 0 {
        Seq::empty()
    } else {
        render(parts.drop_last(), p) + fill(parts.last(), p)
    }
}

/// What every reply starts with: the server's prefix, the code in three digits
/// and the client it is addressed to.
pub open spec fn reply_head(number: u16, client: Seq<char>) -> Seq<char> {
    ":server "@ + three_digits(number as nat) + " "@ + client
}

impl View for ResponseParams {
    type V = ResponseParamsView;

    closed spec fn view(&self) -> ResponseParamsView {
        ResponseParamsView {
            client: self.client@,
            stub: self.stub@,
            channel: opt_text(self.channel),
            nick: opt_text(self.nick),
            host: opt_text(self.host),
            message: opt_text(self.message),
            server: opt_text(self.server),
            modes: opt_text(self.modes),
            count: self.count,
            date: opt_text(self.date),
        }
    }
}

impl Default for ResponseParams {
    fn default() -> (p: Self)
        ensures
            p@ == (ResponseParamsView {
                stub: Seq::empty(),
                ..params_for(Seq::empty())
            }),
    {
        ResponseParams {
            client: String::new(),
            stub: String::new(),
            channel: None,
            nick: None,
            host: None,
            message: None,
            server: None,
            modes: None,
            count: None,
            date: None,
        }
    }
}

impl ResponseParams {
    /// The parameters of a reply to `client`.
    pub fn new(client: String) -> (p: Self)
        ensures
            p@ == params_for(client@),
    {
        ResponseParams {
            client,
            stub: "STUBBED_VALUE".to_owned(),
            channel: None,
            nick: None,
            host: None,
            message: None,
            server: None,
            modes: None,
            count: None,
            date: None,
        }
    }

    /// The same parameters with the channel set.
    pub fn channel(self, channel: String) -> (p: Self)
        ensures
            p@ == (ResponseParamsView { channel: Some(channel@), ..self@ }),
    {
        let mut p = self;
        p.channel = Some(channel);
        p
    }

    /// The same parameters with the nickname set.
    pub fn nick(self, nick: String) -> (p: Self)
        ensures
            p@ == (ResponseParamsView { nick: Some(nick@), ..self@ }),
    {
        let mut p = self;
        p.nick = Some(nick);
        p
    }

    /// The same parameters with the host set. No reply reads it yet.
    pub fn host(self, host: String) -> (p: Self)
        ensures
            p@ == (ResponseParamsView { host: Some(host@), ..self@ }),
    {
        let mut p = self;
        p.host = Some(host);
        p
    }

    /// The same parameters with the message set.
    pub fn message(self, message: String) -> (p: Self)
        ensures
            p@ == (ResponseParamsView { message: Some(message@), ..self@ }),
    {
        let mut p = self;
        p.message = Some(message);
        p
    }

    /// The same parameters with the server set.
    pub fn server(self, server: String) -> (p: Self)
        ensures
            p@ == (ResponseParamsView { server: Some(server@), ..self@ }),
    {
        let mut p = self;
        p.server = Some(server);
        p
    }

    /// The same parameters with the modes set.
    pub fn modes(self, modes: String) -> (p: Self)
        ensures
            p@ == (ResponseParamsView { modes: Some(modes@), ..self@ }),
    {
        let mut p = self;
        p.modes = Some(modes);
        p
    }

    /// The same parameters with the count set.
    pub fn count(self, count: u32) -> (p: Self)
        ensures
            p@ == (ResponseParamsView { count: Some(count), ..self@ }),
    {
        let mut p = self;
        p.count = Some(count);
        p
    }

    /// The same parameters with the date set.
    pub fn date(self, date: String) -> (p: Self)
        ensures
            p@ == (ResponseParamsView { date: Some(date@), ..self@ }),
    {
        let mut p = self;
        p.date = Some(date);
        p
    }

    /// Appends what `part` contributes to a reply filled from these parameters.
    fn push_part(&self, out: &mut String, part: &Part)
        ensures
            final(out)@ == old(out)@ + fill(*part, self@),
    {
        match part {
            Part::Text(t) => out.append(*t),
            Part::Client => out.append(self.client.as_str()),
            Part::Stub => out.append(self.stub.as_str()),
            Part::Channel => push_optional(out, &self.channel),
            Part::Nick => push_optional(out, &self.nick),
            Part::Server => push_optional(out, &self.server),
            Part::Message => push_optional(out, &self.message),
            Part::Modes => push_optional(out, &self.modes),
            Part::Count => match self.count {
                Some(n) => push_decimal(out, n),
                None => push_decimal(out, 0),
            },
            Part::Date => push_optional(out, &self.date),
        }
    }
}

/// Appends an optional text, nothing where it is absent.
fn push_optional(out: &mut String, text: &Option<String>)
    ensures
        final(out)@ == old(out)@ + or_empty(opt_text(*text)),
{
    if let Some(t) = text {
        out.append(t.as_str());
    }
}

/// Something that turns reply parameters into a wire line.
pub trait FormatResponse {
    /// The line that `format` produces.
    spec fn line(&self, params: ResponseParamsView) -> Seq<char>;

    fn format(&self, params: &ResponseParams) -> (out: String)
        ensures
            out@ == self.line(params@),
    ;
}

impl ResponseCode {
    /// The code's number on the wire.
    pub open spec fn number(self) -> u16 {
        match self {
            ResponseCode::RPL_WELCOME => 1,
            ResponseCode::RPL_YOURHOST => 2,
            ResponseCode::RPL_CREATED => 3,
            ResponseCode::RPL_MYINFO => 4,
            ResponseCode::RPL_ISUPPORT => 5,
            ResponseCode::RPL_BOUNCE => 10,
            ResponseCode::RPL_STATSCOMMANDS => 212,
            ResponseCode::RPL_ENDOFSTATS => 219,
            ResponseCode::RPL_UMODEIS => 221,
            ResponseCode::RPL_STATSUPTIME => 242,
            ResponseCode::RPL_LUSERCLIENT => 251,
            ResponseCode::RPL_LUSEROP => 252,
            ResponseCode::RPL_LUSERUNKNOWN => 253,
            ResponseCode::RPL_LUSERCHANNELS => 254,
            ResponseCode::RPL_LUSERME => 255,
            ResponseCode::RPL_ADMINME => 256,
            ResponseCode::RPL_ADMINLOC1 => 257,
            ResponseCode::RPL_ADMINLOC2 => 258,
            ResponseCode::RPL_ADMINEMAIL => 259,
            ResponseCode::RPL_TRYAGAIN => 263,
            ResponseCode::RPL_LOCALUSERS => 265,
            ResponseCode::RPL_GLOBALUSERS => 266,
            ResponseCode::RPL_WHOISCERTFP => 276,
            ResponseCode::RPL_NONE => 300,
            ResponseCode::RPL_AWAY => 301,
            ResponseCode::RPL_USERHOST => 302,
            ResponseCode::RPL_UNAWAY => 305,
            ResponseCode::RPL_NOWAWAY => 306,
            ResponseCode::RPL_WHOISREGNICK => 307,
            ResponseCode::RPL_WHOISUSER => 311,
            ResponseCode::RPL_WHOISSERVER => 312,
            ResponseCode::RPL_WHOISOPERATOR => 313,
            ResponseCode::RPL_WHOWASUSER => 314,
            ResponseCode::RPL_ENDOFWHO => 315,
            ResponseCode::RPL_WHOISIDLE => 317,
            ResponseCode::RPL_ENDOFWHOIS => 318,
            ResponseCode::RPL_WHOISCHANNELS => 319,
            ResponseCode::RPL_WHOISSPECIAL => 320,
            ResponseCode::RPL_LISTSTART => 321,
            ResponseCode::RPL_LIST => 322,
            ResponseCode::RPL_LISTEND => 323,
            ResponseCode::RPL_CHANNELMODEIS => 324,
            ResponseCode::RPL_CREATIONTIME => 329,
            ResponseCode::RPL_WHOISACCOUNT => 330,
            ResponseCode::RPL_NOTOPIC => 331,
            ResponseCode::RPL_TOPIC => 332,
            ResponseCode::RPL_TOPICWHOTIME => 333,
            ResponseCode::RPL_INVITELIST => 336,
            ResponseCode::RPL_ENDOFINVITELIST => 337,
            ResponseCode::RPL_WHOISACTUALLY => 338,
            ResponseCode::RPL_INVITING => 341,
            ResponseCode::RPL_INVEXLIST => 346,
            ResponseCode::RPL_ENDOFINVEXLIST => 347,
            ResponseCode::RPL_EXCEPTLIST => 348,
            ResponseCode::RPL_ENDOFEXCEPTLIST => 349,
            ResponseCode::RPL_VERSION => 351,
            ResponseCode::RPL_WHOREPLY => 352,
            ResponseCode::RPL_NAMREPLY => 353,
            ResponseCode::RPL_LINKS => 364,
            ResponseCode::RPL_ENDOFLINKS => 365,
            ResponseCode::RPL_ENDOFNAMES => 366,
            ResponseCode::RPL_BANLIST => 367,
            ResponseCode::RPL_ENDOFBANLIST => 368,
            ResponseCode::RPL_ENDOFWHOWAS => 369,
            ResponseCode::RPL_INFO => 371,
            ResponseCode::RPL_MOTD => 372,
            ResponseCode::RPL_ENDOFINFO => 374,
            ResponseCode::RPL_MOTDSTART => 375,
            ResponseCode::RPL_ENDOFMOTD => 376,
            ResponseCode::RPL_WHOISHOST => 378,
            ResponseCode::RPL_WHOISMODES => 379,
            ResponseCode::RPL_YOUREOPER => 381,
            ResponseCode::RPL_REHASHING => 382,
            ResponseCode::RPL_TIME => 391,
            ResponseCode::ERR_UNKNOWNERROR => 400,
            ResponseCode::ERR_NOSUCHNICK => 401,
            ResponseCode::ERR_NOSUCHSERVER => 402,
            ResponseCode::ERR_NOSUCHCHANNEL => 403,
            ResponseCode::ERR_CANNOTSENDTOCHAN => 404,
            ResponseCode::ERR_TOOMANYCHANNELS => 405,
            ResponseCode::ERR_WASNOSUCHNICK => 406,
            ResponseCode::ERR_NOORIGIN => 409,
            ResponseCode::ERR_NORECIPIENT => 411,
            ResponseCode::ERR_NOTEXTTOSEND => 412,
            ResponseCode::ERR_INPUTTOOLONG => 417,
            ResponseCode::ERR_UNKNOWNCOMMAND => 421,
            ResponseCode::ERR_NOMOTD => 422,
            ResponseCode::ERR_NONICKNAMEGIVEN => 431,
            ResponseCode::ERR_ERRONEUSNICKNAME => 432,
            ResponseCode::ERR_NICKNAMEINUSE => 433,
            ResponseCode::ERR_NICKCOLLISION => 436,
            ResponseCode::ERR_USERNOTINCHANNEL => 441,
            ResponseCode::ERR_NOTONCHANNEL => 442,
            ResponseCode::ERR_USERONCHANNEL => 443,
            ResponseCode::ERR_NOTREGISTERED => 451,
            ResponseCode::ERR_NEEDMOREPARAMS => 461,
            ResponseCode::ERR_ALREADYREGISTERED => 462,
            ResponseCode::ERR_PASSWDMISMATCH => 464,
            ResponseCode::ERR_YOUREBANNEDCREEP => 465,
            ResponseCode::ERR_CHANNELISFULL => 471,
            ResponseCode::ERR_UNKNOWNMODE => 472,
            ResponseCode::ERR_INVITEONLYCHAN => 473,
            ResponseCode::ERR_BANNEDFROMCHAN => 474,
            ResponseCode::ERR_BADCHANNELKEY => 475,
            ResponseCode::ERR_BADCHANMASK => 476,
            ResponseCode::ERR_NOPRIVILEGES => 481,
            ResponseCode::ERR_CHANOPRIVSNEEDED => 482,
            ResponseCode::ERR_CANTKILLSERVER => 483,
            ResponseCode::ERR_NOOPERHOST => 491,
            ResponseCode::ERR_UMODEUNKNOWNFLAG => 501,
            ResponseCode::ERR_USERSDONTMATCH => 502,
            ResponseCode::ERR_HELPNOTFOUND => 524,
            ResponseCode::ERR_INVALIDKEY => 525,
            ResponseCode::RPL_STARTTLS => 670,
            ResponseCode::RPL_WHOISSECURE => 671,
            ResponseCode::ERR_STARTTLS => 691,
            ResponseCode::ERR_INVALIDMODEPARAM => 696,
            ResponseCode::RPL_HELPSTART => 704,
            ResponseCode::RPL_HELPTXT => 705,
            ResponseCode::RPL_ENDOFHELP => 706,
            ResponseCode::ERR_NOPRIVS => 723,
            ResponseCode::RPL_LOGGEDIN => 900,
            ResponseCode::RPL_LOGGEDOUT => 901,
            ResponseCode::ERR_NICKLOCKED => 902,
            ResponseCode::RPL_SASLSUCCESS => 903,
            ResponseCode::ERR_SASLFAIL => 904,
            ResponseCode::ERR_SASLTOOLONG => 905,
            ResponseCode::ERR_SASLABORTED => 906,
            ResponseCode::ERR_SASLALREADY => 907,
            ResponseCode::RPL_SASLMECHS => 908,
        }
    }

    /// What follows the client in the code's reply, before the line ending:
    /// the words of the reply's documented form, with its slots in their
    /// places. A slot is filled from the parameter that stands for it (the
    /// client, the channel, the nickname, the message, the server, the modes,
    /// the count or the date; empty where that parameter is absent), and with
    /// the stub where the server has no value for it yet. The server's own
    /// name and version are `OxideIRC` and `0.1`. Of the optional parts of the
    /// documented forms, the user and host after the nickname of the welcome
    /// are left out, and the others are given. No body holds a line break.
    pub open spec fn body(self) -> Seq<Part> {
        match self {
            ResponseCode::RPL_WELCOME => seq![
                Part::Text(" :Welcome to the "),
                Part::Stub,
                Part::Text(" Network, "),
                Part::Client,
            ],
            ResponseCode::RPL_YOURHOST => seq![
                Part::Text(" :Your host is OxideIRC, running version 0.1"),
            ],
            ResponseCode::RPL_CREATED => seq![Part::Text(" :This server was created "), Part::Date],
            ResponseCode::RPL_MYINFO => seq![
                Part::Text(" "),
                Part::Stub,
                Part::Text(" "),
                Part::Stub,
                Part::Text(" "),
                Part::Stub,
                Part::Text(" "),
                Part::Stub,
                Part::Text(" "),
                Part::Stub,
            ],
            ResponseCode::RPL_ISUPPORT => seq![
                Part::Text(" "),
                Part::Stub,
                Part::Text(" :are supported by this server"),
            ],
            ResponseCode::RPL_BOUNCE => seq![
                Part::Text(" "),
                Part::Stub,
                Part::Text(" "),
                Part::Stub,
                Part::Text(" :"),
                Part::Stub,
            ],
            ResponseCode::RPL_STATSCOMMANDS => seq![
                Part::Text(" "),
                Part::Stub,
                Part::Text(" "),
                Part::Count,
            ],
            ResponseCode::RPL_ENDOFSTATS => seq![
                Part::Text(" "),
                Part::Stub,
                Part::Text(" :End of STATS report"),
            ],
            ResponseCode::RPL_UMODEIS => seq![Part::Text(" "), Part::Modes],
            ResponseCode::RPL_STATSUPTIME => seq![
                Part::Text(" :Server Up "),
                Part::Stub,
                Part::Text(" days "),
                Part::Stub,
                Part::Text(":"),
                Part::Stub,
                Part::Text(":"),
                Part::Stub,
            ],
            ResponseCode::RPL_LUSERCLIENT => seq![
                Part::Text(" :There are "),
                Part::Stub,
                Part::Text(" users and "),
                Part::Stub,
                Part::Text(" invisible on "),
                Part::Stub,
                Part::Text(" servers"),
            ],
            ResponseCode::RPL_LUSEROP => seq![
                Part::Text(" "),
                Part::Stub,
                Part::Text(" :operator(s) online"),
            ],
            ResponseCode::RPL_LUSERUNKNOWN => seq![
                Part::Text(" "),
                Part::Stub,
                Part::Text(" :unknown connection(s)"),
            ],
            ResponseCode::RPL_LUSERCHANNELS => seq![
                Part::Text(" "),
                Part::Stub,
                Part::Text(" :channels formed"),
            ],
            ResponseCode::RPL_LUSERME => seq![
                Part::Text(" :I have "),
                Part::Stub,
                Part::Text(" clients and "),
                Part::Stub,
                Part::Text(" servers"),
            ],
            ResponseCode::RPL_ADMINME => seq![Part::Text(" :Administrative info")],
            ResponseCode::RPL_ADMINLOC1 => seq![Part::Text(" :"), Part::Stub],
            ResponseCode::RPL_ADMINLOC2 => seq![Part::Text(" :"), Part::Stub],
            ResponseCode::RPL_ADMINEMAIL => seq![Part::Text(" :"), Part::Stub],
            ResponseCode::RPL_TRYAGAIN => seq![
                Part::Text(" "),
                Part::Stub,
                Part::Text(" :Please wait a while and try again."),
            ],
            ResponseCode::RPL_LOCALUSERS => seq![
                Part::Text(" "),
                Part::Stub,
                Part::Text(" "),
                Part::Stub,
                Part::Text(" :Current local users "),
                Part::Stub,
                Part::Text(", max "),
                Part::Stub,
            ],
            ResponseCode::RPL_GLOBALUSERS => seq![
                Part::Text(" "),
                Part::Stub,
                Part::Text(" "),
                Part::Stub,
                Part::Text(" :Current global users "),
                Part::Stub,
                Part::Text(", max "),
                Part::Stub,
            ],
            ResponseCode::RPL_WHOISCERTFP => seq![
                Part::Text(" "),
                Part::Stub,
                Part::Text(" :has client certificate fingerprint "),
                Part::Stub,
            ],
            ResponseCode::RPL_NONE => Seq::empty(),
            ResponseCode::RPL_AWAY => seq![
                Part::Text(" "),
                Part::Stub,
                Part::Text(" :"),
                Part::Stub,
            ],
            ResponseCode::RPL_USERHOST => seq![Part::Text(" :"), Part::Stub],
            ResponseCode::RPL_UNAWAY => seq![
                Part::Text(" :You are no longer marked as being away"),
            ],
            ResponseCode::RPL_NOWAWAY => seq![Part::Text(" :You have been marked as being away")],
            ResponseCode::RPL_WHOISREGNICK => seq![
                Part::Text(" "),
                Part::Stub,
                Part::Text(" :has identified for this nick"),
            ],
            ResponseCode::RPL_WHOISUSER => seq![
                Part::Text(" "),
                Part::Stub,
                Part::Text(" "),
                Part::Stub,
                Part::Text(" "),
                Part::Stub,
                Part::Text(" * :"),
                Part::Stub,
            ],
            ResponseCode::RPL_WHOISSERVER => seq![
                Part::Text(" "),
                Part::Stub,
                Part::Text(" "),
                Part::Stub,
                Part::Text(" :"),
                Part::Stub,
            ],
            ResponseCode::RPL_WHOISOPERATOR => seq![
                Part::Text(" "),
                Part::Stub,
                Part::Text(" :is an IRC operator"),
            ],
            ResponseCode::RPL_WHOWASUSER => seq![
                Part::Text(" "),
                Part::Stub,
                Part::Text(" "),
                Part::Stub,
                Part::Text(" "),
                Part::Stub,
                Part::Text(" * :"),
                Part::Stub,
            ],
            ResponseCode::RPL_ENDOFWHO => seq![
                Part::Text(" "),
                Part::Stub,
                Part::Text(" :End of WHO list"),
            ],
            ResponseCode::RPL_WHOISIDLE => seq![
                Part::Text(" "),
                Part::Stub,
                Part::Text(" "),
                Part::Stub,
                Part::Text(" "),
                Part::Stub,
            ],
            ResponseCode::RPL_ENDOFWHOIS => seq![
                Part::Text(" "),
                Part::Stub,
                Part::Text(" :End of /WHOIS list"),
            ],
            ResponseCode::RPL_WHOISCHANNELS => seq![
                Part::Text(" "),
                Part::Stub,
                Part::Text(" :"),
                Part::Stub,
            ],
            ResponseCode::RPL_WHOISSPECIAL => seq![
                Part::Text(" "),
                Part::Stub,
                Part::Text(" :"),
                Part::Stub,
            ],
            ResponseCode::RPL_LISTSTART => seq![Part::Text(" Channel :Users Name")],
            ResponseCode::RPL_LIST => seq![
                Part::Text(" "),
                Part::Channel,
                Part::Text(" "),
                Part::Stub,
                Part::Text(" :"),
                Part::Stub,
            ],
            ResponseCode::RPL_LISTEND => seq![Part::Text(" :End of /LIST")],
            ResponseCode::RPL_CHANNELMODEIS => seq![
                Part::Text(" "),
                Part::Channel,
                Part::Text(" "),
                Part::Stub,
                Part::Text(" "),
                Part::Stub,
            ],
            ResponseCode::RPL_CREATIONTIME => seq![
                Part::Text(" "),
                Part::Channel,
                Part::Text(" "),
                Part::Stub,
            ],
            ResponseCode::RPL_WHOISACCOUNT => seq![
                Part::Text(" "),
                Part::Stub,
                Part::Text(" "),
                Part::Stub,
                Part::Text(" :is logged in as"),
            ],
            ResponseCode::RPL_NOTOPIC => seq![
                Part::Text(" "),
                Part::Channel,
                Part::Text(" :No topic is set"),
            ],
            ResponseCode::RPL_TOPIC => seq![
                Part::Text(" "),
                Part::Channel,
                Part::Text(" :"),
                Part::Stub,
            ],
            ResponseCode::RPL_TOPICWHOTIME => seq![
                Part::Text(" "),
                Part::Channel,
                Part::Text(" "),
                Part::Stub,
                Part::Text(" "),
                Part::Stub,
            ],
            ResponseCode::RPL_INVITELIST => seq![Part::Text(" "), Part::Channel],
            ResponseCode::RPL_ENDOFINVITELIST => seq![Part::Text(" :End of /INVITE list")],
            ResponseCode::RPL_WHOISACTUALLY => seq![
                Part::Text(" "),
                Part::Stub,
                Part::Text(" "),
                Part::Stub,
                Part::Text(" :Is actually using host"),
            ],
            ResponseCode::RPL_INVITING => seq![
                Part::Text(" "),
                Part::Stub,
                Part::Text(" "),
                Part::Channel,
            ],
            ResponseCode::RPL_INVEXLIST => seq![
                Part::Text(" "),
                Part::Channel,
                Part::Text(" "),
                Part::Stub,
            ],
            ResponseCode::RPL_ENDOFINVEXLIST => seq![
                Part::Text(" "),
                Part::Channel,
                Part::Text(" :End of Channel Invite Exception List"),
            ],
            ResponseCode::RPL_EXCEPTLIST => seq![
                Part::Text(" "),
                Part::Channel,
                Part::Text(" "),
                Part::Stub,
            ],
            ResponseCode::RPL_ENDOFEXCEPTLIST => seq![
                Part::Text(" "),
                Part::Channel,
                Part::Text(" :End of channel exception list"),
            ],
            ResponseCode::RPL_VERSION => seq![
                Part::Text(" "),
                Part::Stub,
                Part::Text(" "),
                Part::Stub,
                Part::Text(" :"),
                Part::Stub,
            ],
            ResponseCode::RPL_WHOREPLY => seq![
                Part::Text(" "),
                Part::Channel,
                Part::Text(" "),
                Part::Stub,
                Part::Text(" "),
                Part::Stub,
                Part::Text(" "),
                Part::Stub,
                Part::Text(" "),
                Part::Stub,
                Part::Text(" "),
                Part::Stub,
                Part::Text(" :"),
                Part::Stub,
                Part::Text(" "),
                Part::Stub,
            ],
            ResponseCode::RPL_NAMREPLY => seq![
                Part::Text(" = "),
                Part::Channel,
                Part::Text(" :"),
                Part::Message,
            ],
            ResponseCode::RPL_LINKS => seq![
                Part::Text(" * "),
                Part::Stub,
                Part::Text(" :"),
                Part::Stub,
                Part::Text(" "),
                Part::Stub,
            ],
            ResponseCode::RPL_ENDOFLINKS => seq![Part::Text(" * :End of /LINKS list")],
            ResponseCode::RPL_ENDOFNAMES => seq![
                Part::Text(" "),
                Part::Channel,
                Part::Text(" :End of /NAMES list"),
            ],
            ResponseCode::RPL_BANLIST => seq![
                Part::Text(" "),
                Part::Channel,
                Part::Text(" "),
                Part::Stub,
                Part::Text(" "),
                Part::Stub,
                Part::Text(" "),
                Part::Stub,
            ],
            ResponseCode::RPL_ENDOFBANLIST => seq![
                Part::Text(" "),
                Part::Channel,
                Part::Text(" :End of channel ban list"),
            ],
            ResponseCode::RPL_ENDOFWHOWAS => seq![
                Part::Text(" "),
                Part::Stub,
                Part::Text(" :End of WHOWAS"),
            ],
            ResponseCode::RPL_INFO => seq![Part::Text(" :"), Part::Stub],
            ResponseCode::RPL_MOTD => seq![Part::Text(" :"), Part::Stub],
            ResponseCode::RPL_ENDOFINFO => seq![Part::Text(" :End of INFO list")],
            ResponseCode::RPL_MOTDSTART => seq![
                Part::Text(" :- "),
                Part::Server,
                Part::Text(" Message of the day - "),
            ],
            ResponseCode::RPL_ENDOFMOTD => seq![Part::Text(" :End of /MOTD command")],
            ResponseCode::RPL_WHOISHOST => seq![
                Part::Text(" "),
                Part::Stub,
                Part::Text(" :is connecting from *@"),
                Part::Stub,
                Part::Text(" "),
                Part::Stub,
            ],
            ResponseCode::RPL_WHOISMODES => seq![
                Part::Text(" "),
                Part::Stub,
                Part::Text(" :is using modes "),
                Part::Stub,
            ],
            ResponseCode::RPL_YOUREOPER => seq![Part::Text(" :You are now an IRC operator")],
            ResponseCode::RPL_REHASHING => seq![
                Part::Text(" "),
                Part::Stub,
                Part::Text(" :Rehashing"),
            ],
            ResponseCode::RPL_TIME => seq![
                Part::Text(" "),
                Part::Stub,
                Part::Text(" "),
                Part::Stub,
                Part::Text(" "),
                Part::Stub,
                Part::Text(" :"),
                Part::Stub,
            ],
            ResponseCode::ERR_UNKNOWNERROR => seq![
                Part::Text(" "),
                Part::Stub,
                Part::Text(" :"),
                Part::Stub,
            ],
            ResponseCode::ERR_NOSUCHNICK => seq![
                Part::Text(" "),
                Part::Nick,
                Part::Text(" :No such nick/channel"),
            ],
            ResponseCode::ERR_NOSUCHSERVER => seq![
                Part::Text(" "),
                Part::Stub,
                Part::Text(" :No such server"),
            ],
            ResponseCode::ERR_NOSUCHCHANNEL => seq![
                Part::Text(" "),
                Part::Channel,
                Part::Text(" :No such channel"),
            ],
            ResponseCode::ERR_CANNOTSENDTOCHAN => seq![
                Part::Text(" "),
                Part::Channel,
                Part::Text(" :Cannot send to channel"),
            ],
            ResponseCode::ERR_TOOMANYCHANNELS => seq![
                Part::Text(" "),
                Part::Channel,
                Part::Text(" :You have joined too many channels"),
            ],
            ResponseCode::ERR_WASNOSUCHNICK => seq![
                Part::Text(" "),
                Part::Nick,
                Part::Text(" :There was no such nickname"),
            ],
            ResponseCode::ERR_NOORIGIN => seq![Part::Text(" :No origin specified")],
            ResponseCode::ERR_NORECIPIENT => seq![
                Part::Text(" :No recipient given ("),
                Part::Stub,
                Part::Text(")"),
            ],
            ResponseCode::ERR_NOTEXTTOSEND => seq![Part::Text(" :No text to send")],
            ResponseCode::ERR_INPUTTOOLONG => seq![Part::Text(" :Input line was too long")],
            ResponseCode::ERR_UNKNOWNCOMMAND => seq![
                Part::Text(" "),
                Part::Stub,
                Part::Text(" :Unknown command"),
            ],
            ResponseCode::ERR_NOMOTD => seq![Part::Text(" :MOTD File is missing")],
            ResponseCode::ERR_NONICKNAMEGIVEN => seq![Part::Text(" :No nickname given")],
            ResponseCode::ERR_ERRONEUSNICKNAME => seq![
                Part::Text(" "),
                Part::Nick,
                Part::Text(" :Erroneous nickname"),
            ],
            ResponseCode::ERR_NICKNAMEINUSE => seq![
                Part::Text(" "),
                Part::Nick,
                Part::Text(" :Nickname is already in use"),
            ],
            ResponseCode::ERR_NICKCOLLISION => seq![
                Part::Text(" "),
                Part::Nick,
                Part::Text(" :Nickname collision KILL"),
            ],
            ResponseCode::ERR_USERNOTINCHANNEL => seq![
                Part::Text(" "),
                Part::Nick,
                Part::Text(" "),
                Part::Channel,
                Part::Text(" :They aren't on that channel"),
            ],
            ResponseCode::ERR_NOTONCHANNEL => seq![
                Part::Text(" "),
                Part::Channel,
                Part::Text(" :You're not on that channel"),
            ],
            ResponseCode::ERR_USERONCHANNEL => seq![
                Part::Text(" "),
                Part::Stub,
                Part::Text(" "),
                Part::Channel,
                Part::Text(" :is already on channel"),
            ],
            ResponseCode::ERR_NOTREGISTERED => seq![Part::Text(" :You have not registered")],
            ResponseCode::ERR_NEEDMOREPARAMS => seq![
                Part::Text(" "),
                Part::Stub,
                Part::Text(" :Not enough parameters"),
            ],
            ResponseCode::ERR_ALREADYREGISTERED => seq![Part::Text(" :You may not reregister")],
            ResponseCode::ERR_PASSWDMISMATCH => seq![Part::Text(" :Password incorrect")],
            ResponseCode::ERR_YOUREBANNEDCREEP => seq![
                Part::Text(" :You are banned from this server"),
            ],
            ResponseCode::ERR_CHANNELISFULL => seq![
                Part::Text(" "),
                Part::Channel,
                Part::Text(" :Cannot join channel (+l)"),
            ],
            ResponseCode::ERR_UNKNOWNMODE => seq![
                Part::Text(" "),
                Part::Stub,
                Part::Text(" :is unknown mode char to me"),
            ],
            ResponseCode::ERR_INVITEONLYCHAN => seq![
                Part::Text(" "),
                Part::Channel,
                Part::Text(" :Cannot join channel (+i)"),
            ],
            ResponseCode::ERR_BANNEDFROMCHAN => seq![
                Part::Text(" "),
                Part::Channel,
                Part::Text(" :Cannot join channel (+b)"),
            ],
            ResponseCode::ERR_BADCHANNELKEY => seq![
                Part::Text(" "),
                Part::Channel,
                Part::Text(" :Cannot join channel (+k)"),
            ],
            ResponseCode::ERR_BADCHANMASK => seq![
                Part::Text(" "),
                Part::Channel,
                Part::Text(" :Bad Channel Mask"),
            ],
            ResponseCode::ERR_NOPRIVILEGES => seq![
                Part::Text(" :Permission Denied- You're not an IRC operator"),
            ],
            ResponseCode::ERR_CHANOPRIVSNEEDED => seq![
                Part::Text(" "),
                Part::Channel,
                Part::Text(" :You're not channel operator"),
            ],
            ResponseCode::ERR_CANTKILLSERVER => seq![Part::Text(" :You cant kill a server!")],
            ResponseCode::ERR_NOOPERHOST => seq![Part::Text(" :No O-lines for your host")],
            ResponseCode::ERR_UMODEUNKNOWNFLAG => seq![Part::Text(" :Unknown MODE flag")],
            ResponseCode::ERR_USERSDONTMATCH => seq![
                Part::Text(" :Cant change mode for other users"),
            ],
            ResponseCode::ERR_HELPNOTFOUND => seq![
                Part::Text(" "),
                Part::Stub,
                Part::Text(" :No help available on this topic"),
            ],
            ResponseCode::ERR_INVALIDKEY => seq![Part::Text(" :Key is not valid for this server")],
            ResponseCode::RPL_STARTTLS => seq![
                Part::Text(" :STARTTLS successful, proceed with TLS handshake"),
            ],
            ResponseCode::RPL_WHOISSECURE => seq![
                Part::Text(" "),
                Part::Stub,
                Part::Text(" :is using a secure connection"),
            ],
            ResponseCode::ERR_STARTTLS => seq![
                Part::Text(" :STARTTLS failed ("),
                Part::Stub,
                Part::Text(")"),
            ],
            ResponseCode::ERR_INVALIDMODEPARAM => seq![
                Part::Text(" "),
                Part::Stub,
                Part::Text(" "),
                Part::Channel,
                Part::Text(" :Invalid mode parameter"),
            ],
            ResponseCode::RPL_HELPSTART => seq![
                Part::Text(" "),
                Part::Stub,
                Part::Text(" :"),
                Part::Stub,
            ],
            ResponseCode::RPL_HELPTXT => seq![
                Part::Text(" "),
                Part::Stub,
                Part::Text(" :"),
                Part::Stub,
            ],
            ResponseCode::RPL_ENDOFHELP => seq![
                Part::Text(" "),
                Part::Stub,
                Part::Text(" :"),
                Part::Stub,
            ],
            ResponseCode::ERR_NOPRIVS => seq![
                Part::Text(" "),
                Part::Stub,
                Part::Text(" :Insufficient oper privileges."),
            ],
            ResponseCode::RPL_LOGGEDIN => seq![
                Part::Text(" "),
                Part::Nick,
                Part::Text(" "),
                Part::Stub,
                Part::Text(" "),
                Part::Stub,
                Part::Text(" :You are now logged in as "),
                Part::Stub,
            ],
            ResponseCode::RPL_LOGGEDOUT => seq![
                Part::Text(" "),
                Part::Nick,
                Part::Text(" :You are now logged out"),
            ],
            ResponseCode::ERR_NICKLOCKED => seq![
                Part::Text(" :You must use a nick assigned to you"),
            ],
            ResponseCode::RPL_SASLSUCCESS => seq![Part::Text(" :SASL authentication successful")],
            ResponseCode::ERR_SASLFAIL => seq![Part::Text(" :SASL authentication failed")],
            ResponseCode::ERR_SASLTOOLONG => seq![Part::Text(" :SASL message too long")],
            ResponseCode::ERR_SASLABORTED => seq![Part::Text(" :SASL authentication aborted")],
            ResponseCode::ERR_SASLALREADY => seq![
                Part::Text(" :You have already authenticated using SASL"),
            ],
            ResponseCode::RPL_SASLMECHS => seq![
                Part::Text(" "),
                Part::Stub,
                Part::Text(" :are available SASL mechanisms"),
            ],
        }
    }

    /// The code's reply line: the head, the body filled from `p`, and CR LF.
    pub open spec fn message_spec(self, p: ResponseParamsView) -> Seq<char> {
        reply_head(self.number(), p.client) + render(self.body(), p) + "\r\n"@
    }

    /// The code's number on the wire.
    pub fn code(&self) -> (n: u16)
        ensures
            n == self.number(),
            1 <= n < 1000,
    {
        match self {
            ResponseCode::RPL_WELCOME => 1,
            ResponseCode::RPL_YOURHOST => 2,
            ResponseCode::RPL_CREATED => 3,
            ResponseCode::RPL_MYINFO => 4,
            ResponseCode::RPL_ISUPPORT => 5,
            ResponseCode::RPL_BOUNCE => 10,
            ResponseCode::RPL_STATSCOMMANDS => 212,
            ResponseCode::RPL_ENDOFSTATS => 219,
            ResponseCode::RPL_UMODEIS => 221,
            ResponseCode::RPL_STATSUPTIME => 242,
            ResponseCode::RPL_LUSERCLIENT => 251,
            ResponseCode::RPL_LUSEROP => 252,
            ResponseCode::RPL_LUSERUNKNOWN => 253,
            ResponseCode::RPL_LUSERCHANNELS => 254,
            ResponseCode::RPL_LUSERME => 255,
            ResponseCode::RPL_ADMINME => 256,
            ResponseCode::RPL_ADMINLOC1 => 257,
            ResponseCode::RPL_ADMINLOC2 => 258,
            ResponseCode::RPL_ADMINEMAIL => 259,
            ResponseCode::RPL_TRYAGAIN => 263,
            ResponseCode::RPL_LOCALUSERS => 265,
            ResponseCode::RPL_GLOBALUSERS => 266,
            ResponseCode::RPL_WHOISCERTFP => 276,
            ResponseCode::RPL_NONE => 300,
            ResponseCode::RPL_AWAY => 301,
            ResponseCode::RPL_USERHOST => 302,
            ResponseCode::RPL_UNAWAY => 305,
            ResponseCode::RPL_NOWAWAY => 306,
            ResponseCode::RPL_WHOISREGNICK => 307,
            ResponseCode::RPL_WHOISUSER => 311,
            ResponseCode::RPL_WHOISSERVER => 312,
            ResponseCode::RPL_WHOISOPERATOR => 313,
            ResponseCode::RPL_WHOWASUSER => 314,
            ResponseCode::RPL_ENDOFWHO => 315,
            ResponseCode::RPL_WHOISIDLE => 317,
            ResponseCode::RPL_ENDOFWHOIS => 318,
            ResponseCode::RPL_WHOISCHANNELS => 319,
            ResponseCode::RPL_WHOISSPECIAL => 320,
            ResponseCode::RPL_LISTSTART => 321,
            ResponseCode::RPL_LIST => 322,
            ResponseCode::RPL_LISTEND => 323,
            ResponseCode::RPL_CHANNELMODEIS => 324,
            ResponseCode::RPL_CREATIONTIME => 329,
            ResponseCode::RPL_WHOISACCOUNT => 330,
            ResponseCode::RPL_NOTOPIC => 331,
            ResponseCode::RPL_TOPIC => 332,
            ResponseCode::RPL_TOPICWHOTIME => 333,
            ResponseCode::RPL_INVITELIST => 336,
            ResponseCode::RPL_ENDOFINVITELIST => 337,
            ResponseCode::RPL_WHOISACTUALLY => 338,
            ResponseCode::RPL_INVITING => 341,
            ResponseCode::RPL_INVEXLIST => 346,
            ResponseCode::RPL_ENDOFINVEXLIST => 347,
            ResponseCode::RPL_EXCEPTLIST => 348,
            ResponseCode::RPL_ENDOFEXCEPTLIST => 349,
            ResponseCode::RPL_VERSION => 351,
            ResponseCode::RPL_WHOREPLY => 352,
            ResponseCode::RPL_NAMREPLY => 353,
            ResponseCode::RPL_LINKS => 364,
            ResponseCode::RPL_ENDOFLINKS => 365,
            ResponseCode::RPL_ENDOFNAMES => 366,
            ResponseCode::RPL_BANLIST => 367,
            ResponseCode::RPL_ENDOFBANLIST => 368,
            ResponseCode::RPL_ENDOFWHOWAS => 369,
            ResponseCode::RPL_INFO => 371,
            ResponseCode::RPL_MOTD => 372,
            ResponseCode::RPL_ENDOFINFO => 374,
            ResponseCode::RPL_MOTDSTART => 375,
            ResponseCode::RPL_ENDOFMOTD => 376,
            ResponseCode::RPL_WHOISHOST => 378,
            ResponseCode::RPL_WHOISMODES => 379,
            ResponseCode::RPL_YOUREOPER => 381,
            ResponseCode::RPL_REHASHING => 382,
            ResponseCode::RPL_TIME => 391,
            ResponseCode::ERR_UNKNOWNERROR => 400,
            ResponseCode::ERR_NOSUCHNICK => 401,
            ResponseCode::ERR_NOSUCHSERVER => 402,
            ResponseCode::ERR_NOSUCHCHANNEL => 403,
            ResponseCode::ERR_CANNOTSENDTOCHAN => 404,
            ResponseCode::ERR_TOOMANYCHANNELS => 405,
            ResponseCode::ERR_WASNOSUCHNICK => 406,
            ResponseCode::ERR_NOORIGIN => 409,
            ResponseCode::ERR_NORECIPIENT => 411,
            ResponseCode::ERR_NOTEXTTOSEND => 412,
            ResponseCode::ERR_INPUTTOOLONG => 417,
            ResponseCode::ERR_UNKNOWNCOMMAND => 421,
            ResponseCode::ERR_NOMOTD => 422,
            ResponseCode::ERR_NONICKNAMEGIVEN => 431,
            ResponseCode::ERR_ERRONEUSNICKNAME => 432,
            ResponseCode::ERR_NICKNAMEINUSE => 433,
            ResponseCode::ERR_NICKCOLLISION => 436,
            ResponseCode::ERR_USERNOTINCHANNEL => 441,
            ResponseCode::ERR_NOTONCHANNEL => 442,
            ResponseCode::ERR_USERONCHANNEL => 443,
            ResponseCode::ERR_NOTREGISTERED => 451,
            ResponseCode::ERR_NEEDMOREPARAMS => 461,
            ResponseCode::ERR_ALREADYREGISTERED => 462,
            ResponseCode::ERR_PASSWDMISMATCH => 464,
            ResponseCode::ERR_YOUREBANNEDCREEP => 465,
            ResponseCode::ERR_CHANNELISFULL => 471,
            ResponseCode::ERR_UNKNOWNMODE => 472,
            ResponseCode::ERR_INVITEONLYCHAN => 473,
            ResponseCode::ERR_BANNEDFROMCHAN => 474,
            ResponseCode::ERR_BADCHANNELKEY => 475,
            ResponseCode::ERR_BADCHANMASK => 476,
            ResponseCode::ERR_NOPRIVILEGES => 481,
            ResponseCode::ERR_CHANOPRIVSNEEDED => 482,
            ResponseCode::ERR_CANTKILLSERVER => 483,
            ResponseCode::ERR_NOOPERHOST => 491,
            ResponseCode::ERR_UMODEUNKNOWNFLAG => 501,
            ResponseCode::ERR_USERSDONTMATCH => 502,
            ResponseCode::ERR_HELPNOTFOUND => 524,
            ResponseCode::ERR_INVALIDKEY => 525,
            ResponseCode::RPL_STARTTLS => 670,
            ResponseCode::RPL_WHOISSECURE => 671,
            ResponseCode::ERR_STARTTLS => 691,
            ResponseCode::ERR_INVALIDMODEPARAM => 696,
            ResponseCode::RPL_HELPSTART => 704,
            ResponseCode::RPL_HELPTXT => 705,
            ResponseCode::RPL_ENDOFHELP => 706,
            ResponseCode::ERR_NOPRIVS => 723,
            ResponseCode::RPL_LOGGEDIN => 900,
            ResponseCode::RPL_LOGGEDOUT => 901,
            ResponseCode::ERR_NICKLOCKED => 902,
            ResponseCode::RPL_SASLSUCCESS => 903,
            ResponseCode::ERR_SASLFAIL => 904,
            ResponseCode::ERR_SASLTOOLONG => 905,
            ResponseCode::ERR_SASLABORTED => 906,
            ResponseCode::ERR_SASLALREADY => 907,
            ResponseCode::RPL_SASLMECHS => 908,
        }
    }

    /// The parts of the code's body.
    fn parts(&self) -> (v: Vec<Part>)
        ensures
            v@ == self.body(),
    {
        match self {
            ResponseCode::RPL_WELCOME => vec![
                Part::Text(" :Welcome to the "),
                Part::Stub,
                Part::Text(" Network, "),
                Part::Client,
            ],
            ResponseCode::RPL_YOURHOST => vec![
                Part::Text(" :Your host is OxideIRC, running version 0.1"),
            ],
            ResponseCode::RPL_CREATED => vec![Part::Text(" :This server was created "), Part::Date],
            ResponseCode::RPL_MYINFO => vec![
                Part::Text(" "),
                Part::Stub,
                Part::Text(" "),
                Part::Stub,
                Part::Text(" "),
                Part::Stub,
                Part::Text(" "),
                Part::Stub,
                Part::Text(" "),
                Part::Stub,
            ],
            ResponseCode::RPL_ISUPPORT => vec![
                Part::Text(" "),
                Part::Stub,
                Part::Text(" :are supported by this server"),
            ],
            ResponseCode::RPL_BOUNCE => vec![
                Part::Text(" "),
                Part::Stub,
                Part::Text(" "),
                Part::Stub,
                Part::Text(" :"),
                Part::Stub,
            ],
            ResponseCode::RPL_STATSCOMMANDS => vec![
                Part::Text(" "),
                Part::Stub,
                Part::Text(" "),
                Part::Count,
            ],
            ResponseCode::RPL_ENDOFSTATS => vec![
                Part::Text(" "),
                Part::Stub,
                Part::Text(" :End of STATS report"),
            ],
            ResponseCode::RPL_UMODEIS => vec![Part::Text(" "), Part::Modes],
            ResponseCode::RPL_STATSUPTIME => vec![
                Part::Text(" :Server Up "),
                Part::Stub,
                Part::Text(" days "),
                Part::Stub,
                Part::Text(":"),
                Part::Stub,
                Part::Text(":"),
                Part::Stub,
            ],
            ResponseCode::RPL_LUSERCLIENT => vec![
                Part::Text(" :There are "),
                Part::Stub,
                Part::Text(" users and "),
                Part::Stub,
                Part::Text(" invisible on "),
                Part::Stub,
                Part::Text(" servers"),
            ],
            ResponseCode::RPL_LUSEROP => vec![
                Part::Text(" "),
                Part::Stub,
                Part::Text(" :operator(s) online"),
            ],
            ResponseCode::RPL_LUSERUNKNOWN => vec![
                Part::Text(" "),
                Part::Stub,
                Part::Text(" :unknown connection(s)"),
            ],
            ResponseCode::RPL_LUSERCHANNELS => vec![
                Part::Text(" "),
                Part::Stub,
                Part::Text(" :channels formed"),
            ],
            ResponseCode::RPL_LUSERME => vec![
                Part::Text(" :I have "),
                Part::Stub,
                Part::Text(" clients and "),
                Part::Stub,
                Part::Text(" servers"),
            ],
            ResponseCode::RPL_ADMINME => vec![Part::Text(" :Administrative info")],
            ResponseCode::RPL_ADMINLOC1 => vec![Part::Text(" :"), Part::Stub],
            ResponseCode::RPL_ADMINLOC2 => vec![Part::Text(" :"), Part::Stub],
            ResponseCode::RPL_ADMINEMAIL => vec![Part::Text(" :"), Part::Stub],
            ResponseCode::RPL_TRYAGAIN => vec![
                Part::Text(" "),
                Part::Stub,
                Part::Text(" :Please wait a while and try again."),
            ],
            ResponseCode::RPL_LOCALUSERS => vec![
                Part::Text(" "),
                Part::Stub,
                Part::Text(" "),
                Part::Stub,
                Part::Text(" :Current local users "),
                Part::Stub,
                Part::Text(", max "),
                Part::Stub,
            ],
            ResponseCode::RPL_GLOBALUSERS => vec![
                Part::Text(" "),
                Part::Stub,
                Part::Text(" "),
                Part::Stub,
                Part::Text(" :Current global users "),
                Part::Stub,
                Part::Text(", max "),
                Part::Stub,
            ],
            ResponseCode::RPL_WHOISCERTFP => vec![
                Part::Text(" "),
                Part::Stub,
                Part::Text(" :has client certificate fingerprint "),
                Part::Stub,
            ],
            ResponseCode::RPL_NONE => Vec::new(),
            ResponseCode::RPL_AWAY => vec![
                Part::Text(" "),
                Part::Stub,
                Part::Text(" :"),
                Part::Stub,
            ],
            ResponseCode::RPL_USERHOST => vec![Part::Text(" :"), Part::Stub],
            ResponseCode::RPL_UNAWAY => vec![
                Part::Text(" :You are no longer marked as being away"),
            ],
            ResponseCode::RPL_NOWAWAY => vec![Part::Text(" :You have been marked as being away")],
            ResponseCode::RPL_WHOISREGNICK => vec![
                Part::Text(" "),
                Part::Stub,
                Part::Text(" :has identified for this nick"),
            ],
            ResponseCode::RPL_WHOISUSER => vec![
                Part::Text(" "),
                Part::Stub,
                Part::Text(" "),
                Part::Stub,
                Part::Text(" "),
                Part::Stub,
                Part::Text(" * :"),
                Part::Stub,
            ],
            ResponseCode::RPL_WHOISSERVER => vec![
                Part::Text(" "),
                Part::Stub,
                Part::Text(" "),
                Part::Stub,
                Part::Text(" :"),
                Part::Stub,
            ],
            ResponseCode::RPL_WHOISOPERATOR => vec![
                Part::Text(" "),
                Part::Stub,
                Part::Text(" :is an IRC operator"),
            ],
            ResponseCode::RPL_WHOWASUSER => vec![
                Part::Text(" "),
                Part::Stub,
                Part::Text(" "),
                Part::Stub,
                Part::Text(" "),
                Part::Stub,
                Part::Text(" * :"),
                Part::Stub,
            ],
            ResponseCode::RPL_ENDOFWHO => vec![
                Part::Text(" "),
                Part::Stub,
                Part::Text(" :End of WHO list"),
            ],
            ResponseCode::RPL_WHOISIDLE => vec![
                Part::Text(" "),
                Part::Stub,
                Part::Text(" "),
                Part::Stub,
                Part::Text(" "),
                Part::Stub,
            ],
            ResponseCode::RPL_ENDOFWHOIS => vec![
                Part::Text(" "),
                Part::Stub,
                Part::Text(" :End of /WHOIS list"),
            ],
            ResponseCode::RPL_WHOISCHANNELS => vec![
                Part::Text(" "),
                Part::Stub,
                Part::Text(" :"),
                Part::Stub,
            ],
            ResponseCode::RPL_WHOISSPECIAL => vec![
                Part::Text(" "),
                Part::Stub,
                Part::Text(" :"),
                Part::Stub,
            ],
            ResponseCode::RPL_LISTSTART => vec![Part::Text(" Channel :Users Name")],
            ResponseCode::RPL_LIST => vec![
                Part::Text(" "),
                Part::Channel,
                Part::Text(" "),
                Part::Stub,
                Part::Text(" :"),
                Part::Stub,
            ],
            ResponseCode::RPL_LISTEND => vec![Part::Text(" :End of /LIST")],
            ResponseCode::RPL_CHANNELMODEIS => vec![
                Part::Text(" "),
                Part::Channel,
                Part::Text(" "),
                Part::Stub,
                Part::Text(" "),
                Part::Stub,
            ],
            ResponseCode::RPL_CREATIONTIME => vec![
                Part::Text(" "),
                Part::Channel,
                Part::Text(" "),
                Part::Stub,
            ],
            ResponseCode::RPL_WHOISACCOUNT => vec![
                Part::Text(" "),
                Part::Stub,
                Part::Text(" "),
                Part::Stub,
                Part::Text(" :is logged in as"),
            ],
            ResponseCode::RPL_NOTOPIC => vec![
                Part::Text(" "),
                Part::Channel,
                Part::Text(" :No topic is set"),
            ],
            ResponseCode::RPL_TOPIC => vec![
                Part::Text(" "),
                Part::Channel,
                Part::Text(" :"),
                Part::Stub,
            ],
            ResponseCode::RPL_TOPICWHOTIME => vec![
                Part::Text(" "),
                Part::Channel,
                Part::Text(" "),
                Part::Stub,
                Part::Text(" "),
                Part::Stub,
            ],
            ResponseCode::RPL_INVITELIST => vec![Part::Text(" "), Part::Channel],
            ResponseCode::RPL_ENDOFINVITELIST => vec![Part::Text(" :End of /INVITE list")],
            ResponseCode::RPL_WHOISACTUALLY => vec![
                Part::Text(" "),
                Part::Stub,
                Part::Text(" "),
                Part::Stub,
                Part::Text(" :Is actually using host"),
            ],
            ResponseCode::RPL_INVITING => vec![
                Part::Text(" "),
                Part::Stub,
                Part::Text(" "),
                Part::Channel,
            ],
            ResponseCode::RPL_INVEXLIST => vec![
                Part::Text(" "),
                Part::Channel,
                Part::Text(" "),
                Part::Stub,
            ],
            ResponseCode::RPL_ENDOFINVEXLIST => vec![
                Part::Text(" "),
                Part::Channel,
                Part::Text(" :End of Channel Invite Exception List"),
            ],
            ResponseCode::RPL_EXCEPTLIST => vec![
                Part::Text(" "),
                Part::Channel,
                Part::Text(" "),
                Part::Stub,
            ],
            ResponseCode::RPL_ENDOFEXCEPTLIST => vec![
                Part::Text(" "),
                Part::Channel,
                Part::Text(" :End of channel exception list"),
            ],
            ResponseCode::RPL_VERSION => vec![
                Part::Text(" "),
                Part::Stub,
                Part::Text(" "),
                Part::Stub,
                Part::Text(" :"),
                Part::Stub,
            ],
            ResponseCode::RPL_WHOREPLY => vec![
                Part::Text(" "),
                Part::Channel,
                Part::Text(" "),
                Part::Stub,
                Part::Text(" "),
                Part::Stub,
                Part::Text(" "),
                Part::Stub,
                Part::Text(" "),
                Part::Stub,
                Part::Text(" "),
                Part::Stub,
                Part::Text(" :"),
                Part::Stub,
                Part::Text(" "),
                Part::Stub,
            ],
            ResponseCode::RPL_NAMREPLY => vec![
                Part::Text(" = "),
                Part::Channel,
                Part::Text(" :"),
                Part::Message,
            ],
            ResponseCode::RPL_LINKS => vec![
                Part::Text(" * "),
                Part::Stub,
                Part::Text(" :"),
                Part::Stub,
                Part::Text(" "),
                Part::Stub,
            ],
            ResponseCode::RPL_ENDOFLINKS => vec![Part::Text(" * :End of /LINKS list")],
            ResponseCode::RPL_ENDOFNAMES => vec![
                Part::Text(" "),
                Part::Channel,
                Part::Text(" :End of /NAMES list"),
            ],
            ResponseCode::RPL_BANLIST => vec![
                Part::Text(" "),
                Part::Channel,
                Part::Text(" "),
                Part::Stub,
                Part::Text(" "),
                Part::Stub,
                Part::Text(" "),
                Part::Stub,
            ],
            ResponseCode::RPL_ENDOFBANLIST => vec![
                Part::Text(" "),
                Part::Channel,
                Part::Text(" :End of channel ban list"),
            ],
            ResponseCode::RPL_ENDOFWHOWAS => vec![
                Part::Text(" "),
                Part::Stub,
                Part::Text(" :End of WHOWAS"),
            ],
            ResponseCode::RPL_INFO => vec![Part::Text(" :"), Part::Stub],
            ResponseCode::RPL_MOTD => vec![Part::Text(" :"), Part::Stub],
            ResponseCode::RPL_ENDOFINFO => vec![Part::Text(" :End of INFO list")],
            ResponseCode::RPL_MOTDSTART => vec![
                Part::Text(" :- "),
                Part::Server,
                Part::Text(" Message of the day - "),
            ],
            ResponseCode::RPL_ENDOFMOTD => vec![Part::Text(" :End of /MOTD command")],
            ResponseCode::RPL_WHOISHOST => vec![
                Part::Text(" "),
                Part::Stub,
                Part::Text(" :is connecting from *@"),
                Part::Stub,
                Part::Text(" "),
                Part::Stub,
            ],
            ResponseCode::RPL_WHOISMODES => vec![
                Part::Text(" "),
                Part::Stub,
                Part::Text(" :is using modes "),
                Part::Stub,
            ],
            ResponseCode::RPL_YOUREOPER => vec![Part::Text(" :You are now an IRC operator")],
            ResponseCode::RPL_REHASHING => vec![
                Part::Text(" "),
                Part::Stub,
                Part::Text(" :Rehashing"),
            ],
            ResponseCode::RPL_TIME => vec![
                Part::Text(" "),
                Part::Stub,
                Part::Text(" "),
                Part::Stub,
                Part::Text(" "),
                Part::Stub,
                Part::Text(" :"),
                Part::Stub,
            ],
            ResponseCode::ERR_UNKNOWNERROR => vec![
                Part::Text(" "),
                Part::Stub,
                Part::Text(" :"),
                Part::Stub,
            ],
            ResponseCode::ERR_NOSUCHNICK => vec![
                Part::Text(" "),
                Part::Nick,
                Part::Text(" :No such nick/channel"),
            ],
            ResponseCode::ERR_NOSUCHSERVER => vec![
                Part::Text(" "),
                Part::Stub,
                Part::Text(" :No such server"),
            ],
            ResponseCode::ERR_NOSUCHCHANNEL => vec![
                Part::Text(" "),
                Part::Channel,
                Part::Text(" :No such channel"),
            ],
            ResponseCode::ERR_CANNOTSENDTOCHAN => vec![
                Part::Text(" "),
                Part::Channel,
                Part::Text(" :Cannot send to channel"),
            ],
            ResponseCode::ERR_TOOMANYCHANNELS => vec![
                Part::Text(" "),
                Part::Channel,
                Part::Text(" :You have joined too many channels"),
            ],
            ResponseCode::ERR_WASNOSUCHNICK => vec![
                Part::Text(" "),
                Part::Nick,
                Part::Text(" :There was no such nickname"),
            ],
            ResponseCode::ERR_NOORIGIN => vec![Part::Text(" :No origin specified")],
            ResponseCode::ERR_NORECIPIENT => vec![
                Part::Text(" :No recipient given ("),
                Part::Stub,
                Part::Text(")"),
            ],
            ResponseCode::ERR_NOTEXTTOSEND => vec![Part::Text(" :No text to send")],
            ResponseCode::ERR_INPUTTOOLONG => vec![Part::Text(" :Input line was too long")],
            ResponseCode::ERR_UNKNOWNCOMMAND => vec![
                Part::Text(" "),
                Part::Stub,
                Part::Text(" :Unknown command"),
            ],
            ResponseCode::ERR_NOMOTD => vec![Part::Text(" :MOTD File is missing")],
            ResponseCode::ERR_NONICKNAMEGIVEN => vec![Part::Text(" :No nickname given")],
            ResponseCode::ERR_ERRONEUSNICKNAME => vec![
                Part::Text(" "),
                Part::Nick,
                Part::Text(" :Erroneous nickname"),
            ],
            ResponseCode::ERR_NICKNAMEINUSE => vec![
                Part::Text(" "),
                Part::Nick,
                Part::Text(" :Nickname is already in use"),
            ],
            ResponseCode::ERR_NICKCOLLISION => vec![
                Part::Text(" "),
                Part::Nick,
                Part::Text(" :Nickname collision KILL"),
            ],
            ResponseCode::ERR_USERNOTINCHANNEL => vec![
                Part::Text(" "),
                Part::Nick,
                Part::Text(" "),
                Part::Channel,
                Part::Text(" :They aren't on that channel"),
            ],
            ResponseCode::ERR_NOTONCHANNEL => vec![
                Part::Text(" "),
                Part::Channel,
                Part::Text(" :You're not on that channel"),
            ],
            ResponseCode::ERR_USERONCHANNEL => vec![
                Part::Text(" "),
                Part::Stub,
                Part::Text(" "),
                Part::Channel,
                Part::Text(" :is already on channel"),
            ],
            ResponseCode::ERR_NOTREGISTERED => vec![Part::Text(" :You have not registered")],
            ResponseCode::ERR_NEEDMOREPARAMS => vec![
                Part::Text(" "),
                Part::Stub,
                Part::Text(" :Not enough parameters"),
            ],
            ResponseCode::ERR_ALREADYREGISTERED => vec![Part::Text(" :You may not reregister")],
            ResponseCode::ERR_PASSWDMISMATCH => vec![Part::Text(" :Password incorrect")],
            ResponseCode::ERR_YOUREBANNEDCREEP => vec![
                Part::Text(" :You are banned from this server"),
            ],
            ResponseCode::ERR_CHANNELISFULL => vec![
                Part::Text(" "),
                Part::Channel,
                Part::Text(" :Cannot join channel (+l)"),
            ],
            ResponseCode::ERR_UNKNOWNMODE => vec![
                Part::Text(" "),
                Part::Stub,
                Part::Text(" :is unknown mode char to me"),
            ],
            ResponseCode::ERR_INVITEONLYCHAN => vec![
                Part::Text(" "),
                Part::Channel,
                Part::Text(" :Cannot join channel (+i)"),
            ],
            ResponseCode::ERR_BANNEDFROMCHAN => vec![
                Part::Text(" "),
                Part::Channel,
                Part::Text(" :Cannot join channel (+b)"),
            ],
            ResponseCode::ERR_BADCHANNELKEY => vec![
                Part::Text(" "),
                Part::Channel,
                Part::Text(" :Cannot join channel (+k)"),
            ],
            ResponseCode::ERR_BADCHANMASK => vec![
                Part::Text(" "),
                Part::Channel,
                Part::Text(" :Bad Channel Mask"),
            ],
            ResponseCode::ERR_NOPRIVILEGES => vec![
                Part::Text(" :Permission Denied- You're not an IRC operator"),
            ],
            ResponseCode::ERR_CHANOPRIVSNEEDED => vec![
                Part::Text(" "),
                Part::Channel,
                Part::Text(" :You're not channel operator"),
            ],
            ResponseCode::ERR_CANTKILLSERVER => vec![Part::Text(" :You cant kill a server!")],
            ResponseCode::ERR_NOOPERHOST => vec![Part::Text(" :No O-lines for your host")],
            ResponseCode::ERR_UMODEUNKNOWNFLAG => vec![Part::Text(" :Unknown MODE flag")],
            ResponseCode::ERR_USERSDONTMATCH => vec![
                Part::Text(" :Cant change mode for other users"),
            ],
            ResponseCode::ERR_HELPNOTFOUND => vec![
                Part::Text(" "),
                Part::Stub,
                Part::Text(" :No help available on this topic"),
            ],
            ResponseCode::ERR_INVALIDKEY => vec![Part::Text(" :Key is not valid for this server")],
            ResponseCode::RPL_STARTTLS => vec![
                Part::Text(" :STARTTLS successful, proceed with TLS handshake"),
            ],
            ResponseCode::RPL_WHOISSECURE => vec![
                Part::Text(" "),
                Part::Stub,
                Part::Text(" :is using a secure connection"),
            ],
            ResponseCode::ERR_STARTTLS => vec![
                Part::Text(" :STARTTLS failed ("),
                Part::Stub,
                Part::Text(")"),
            ],
            ResponseCode::ERR_INVALIDMODEPARAM => vec![
                Part::Text(" "),
                Part::Stub,
                Part::Text(" "),
                Part::Channel,
                Part::Text(" :Invalid mode parameter"),
            ],
            ResponseCode::RPL_HELPSTART => vec![
                Part::Text(" "),
                Part::Stub,
                Part::Text(" :"),
                Part::Stub,
            ],
            ResponseCode::RPL_HELPTXT => vec![
                Part::Text(" "),
                Part::Stub,
                Part::Text(" :"),
                Part::Stub,
            ],
            ResponseCode::RPL_ENDOFHELP => vec![
                Part::Text(" "),
                Part::Stub,
                Part::Text(" :"),
                Part::Stub,
            ],
            ResponseCode::ERR_NOPRIVS => vec![
                Part::Text(" "),
                Part::Stub,
                Part::Text(" :Insufficient oper privileges."),
            ],
            ResponseCode::RPL_LOGGEDIN => vec![
                Part::Text(" "),
                Part::Nick,
                Part::Text(" "),
                Part::Stub,
                Part::Text(" "),
                Part::Stub,
                Part::Text(" :You are now logged in as "),
                Part::Stub,
            ],
            ResponseCode::RPL_LOGGEDOUT => vec![
                Part::Text(" "),
                Part::Nick,
                Part::Text(" :You are now logged out"),
            ],
            ResponseCode::ERR_NICKLOCKED => vec![
                Part::Text(" :You must use a nick assigned to you"),
            ],
            ResponseCode::RPL_SASLSUCCESS => vec![Part::Text(" :SASL authentication successful")],
            ResponseCode::ERR_SASLFAIL => vec![Part::Text(" :SASL authentication failed")],
            ResponseCode::ERR_SASLTOOLONG => vec![Part::Text(" :SASL message too long")],
            ResponseCode::ERR_SASLABORTED => vec![Part::Text(" :SASL authentication aborted")],
            ResponseCode::ERR_SASLALREADY => vec![
                Part::Text(" :You have already authenticated using SASL"),
            ],
            ResponseCode::RPL_SASLMECHS => vec![
                Part::Text(" "),
                Part::Stub,
                Part::Text(" :are available SASL mechanisms"),
            ],
        }
    }

    /// The reply line of this code, filled from `params`: one line on the
    /// wire, where no parameter holds a line break.
    pub fn message(&self, params: ResponseParams) -> (out: String)
        ensures
            out@ == self.message_spec(params@),
            plain_params(params@) ==> one_line(out@),
    {
        proof {
            if plain_params(params@) {
                lemma_reply_is_one_line(*self, params@);
            }
        }
        self.format(&params)
    }
}

impl FormatResponse for ResponseCode {
    open spec fn line(&self, params: ResponseParamsView) -> Seq<char> {
        self.message_spec(params)
    }

    fn format(&self, params: &ResponseParams) -> (out: String) {
        let mut out = String::new();
        out.append(":server ");
        push_three_digits(&mut out, self.code());
        out.append(" ");
        out.append(params.client.as_str());
        let parts = self.parts();
        let n = parts.len();
        let mut i: usize = 0;
        while i < n
            invariant
                n == parts.len(),
                i <= n,
                out@ == reply_head(self.number(), params@.client) + render(
                    parts@.take(i as int),
                    params@,
                ),
            decreases n - i,
        {
            params.push_part(&mut out, &parts[i]);
            proof {
                let next = parts@.take(i + 1);
                assert(next.drop_last() =~= parts@.take(i as int));
            }
            i = i + 1;
        }
        assert(parts@.take(n as int) =~= parts@);
        out.append("\r\n");
        out
    }
}

impl From<ResponseCode> for u16 {
    fn from(code: ResponseCode) -> (n: u16) {
        code.code()
    }
}

impl vstd::std_specs::convert::FromSpecImpl<ResponseCode> for u16 {
    open spec fn obeys_from_spec() -> bool {
        true
    }

    open spec fn from_spec(code: ResponseCode) -> u16 {
        code.number()
    }
}

/// A text that holds neither a carriage return nor a line feed.
pub open spec fn plain(s: Seq<char>) -> bool {
    forall|i: int| 0 <= i < s.len() ==> #[trigger] s[i] != '\r' && s[i] != '\n'
}

/// One line on the wire: a text that ends in carriage return and line feed
/// and holds neither of them before that end.
pub open spec fn one_line(line: Seq<char>) -> bool {
    &&& line.len() >= 2
    &&& line.subrange(line.len() - 2, line.len() as int) == "\r\n"@
    &&& plain(line.subrange(0, line.len() - 2))
}

/// Parameters of which no text holds a line break.
pub open spec fn plain_params(p: ResponseParamsView) -> bool {
    &&& plain(p.client)
    &&& plain(p.stub)
    &&& plain(or_empty(p.channel))
    &&& plain(or_empty(p.nick))
    &&& plain(or_empty(p.server))
    &&& plain(or_empty(p.message))
    &&& plain(or_empty(p.modes))
    &&& plain(or_empty(p.date))
}

/// Parts of which no fixed text holds a line break.
pub open spec fn plain_parts(parts: Seq<Part>) -> bool {
    forall|i: int|
        0 <= i < parts.len() ==> (#[trigger] parts[i] matches Part::Text(t) ==> plain(t@))
}

/// A decimal numeral holds no line break.
pub proof fn lemma_decimal_is_plain(n: nat)
    ensures
        plain(decimal(n)),
    decreases n,
{
    if n >= 10 {
        lemma_decimal_is_plain(n / 10);
    }
}

/// Parts without a line break, filled from parameters without one, give a
/// text without one.
pub proof fn lemma_render_is_plain(parts: Seq<Part>, p: ResponseParamsView)
    requires
        plain_parts(parts),
        plain_params(p),
    ensures
        plain(render(parts, p)),
    decreases parts.len(),
{
    if parts.len() > 0 {
        assert forall|i: int| 0 <= i < parts.drop_last().len() implies (
        #[trigger] parts.drop_last()[i] matches Part::Text(t) ==> plain(t@)) by {
            assert(parts.drop_last()[i] == parts[i]);
        }
        lemma_render_is_plain(parts.drop_last(), p);
        let last = parts[parts.len() - 1];
        assert(plain(fill(last, p))) by {
            lemma_decimal_is_plain(0);
            if let Some(n) = p.count {
                lemma_decimal_is_plain(n as nat);
            }
        }
    }
}

/// The bodies of the codes below 300 hold no line break.
proof fn lemma_bodies_below_300(code: ResponseCode)
    requires
        code.number() < 300,
    ensures
        plain_parts(code.body()),
{
    reveal_strlit(" :Welcome to the ");
    reveal_strlit(" Network, ");
    reveal_strlit(" :Your host is OxideIRC, running version 0.1");
    reveal_strlit(" :This server was created ");
    reveal_strlit(" ");
    reveal_strlit(" :are supported by this server");
    reveal_strlit(" :");
    reveal_strlit(" :End of STATS report");
    reveal_strlit(" :Server Up ");
    reveal_strlit(" days ");
    reveal_strlit(":");
    reveal_strlit(" :There are ");
    reveal_strlit(" users and ");
    reveal_strlit(" invisible on ");
    reveal_strlit(" servers");
    reveal_strlit(" :operator(s) online");
    reveal_strlit(" :unknown connection(s)");
    reveal_strlit(" :channels formed");
    reveal_strlit(" :I have ");
    reveal_strlit(" clients and ");
    reveal_strlit(" :Administrative info");
    reveal_strlit(" :Please wait a while and try again.");
    reveal_strlit(" :Current local users ");
    reveal_strlit(", max ");
    reveal_strlit(" :Current global users ");
    reveal_strlit(" :has client certificate fingerprint ");
}

/// The bodies of the codes from 300 to 399 hold no line break.
proof fn lemma_bodies_from_300(code: ResponseCode)
    requires
        300 <= code.number() < 400,
    ensures
        plain_parts(code.body()),
{
    reveal_strlit(" ");
    reveal_strlit(" :");
    reveal_strlit(" :You are no longer marked as being away");
    reveal_strlit(" :You have been marked as being away");
    reveal_strlit(" :has identified for this nick");
    reveal_strlit(" * :");
    reveal_strlit(" :is an IRC operator");
    reveal_strlit(" :End of WHO list");
    reveal_strlit(" :End of /WHOIS list");
    reveal_strlit(" Channel :Users Name");
    reveal_strlit(" :End of /LIST");
    reveal_strlit(" :is logged in as");
    reveal_strlit(" :No topic is set");
    reveal_strlit(" :End of /INVITE list");
    reveal_strlit(" :Is actually using host");
    reveal_strlit(" :End of Channel Invite Exception List");
    reveal_strlit(" :End of channel exception list");
    reveal_strlit(" = ");
    reveal_strlit(" * ");
    reveal_strlit(" * :End of /LINKS list");
    reveal_strlit(" :End of /NAMES list");
    reveal_strlit(" :End of channel ban list");
    reveal_strlit(" :End of WHOWAS");
    reveal_strlit(" :End of INFO list");
    reveal_strlit(" :- ");
    reveal_strlit(" Message of the day - ");
    reveal_strlit(" :End of /MOTD command");
    reveal_strlit(" :is connecting from *@");
    reveal_strlit(" :is using modes ");
    reveal_strlit(" :You are now an IRC operator");
    reveal_strlit(" :Rehashing");
}

/// The bodies of the codes from 400 to 499 hold no line break.
proof fn lemma_bodies_from_400(code: ResponseCode)
    requires
        400 <= code.number() < 500,
    ensures
        plain_parts(code.body()),
{
    reveal_strlit(" ");
    reveal_strlit(" :");
    reveal_strlit(" :No such nick/channel");
    reveal_strlit(" :No such server");
    reveal_strlit(" :No such channel");
    reveal_strlit(" :Cannot send to channel");
    reveal_strlit(" :You have joined too many channels");
    reveal_strlit(" :There was no such nickname");
    reveal_strlit(" :No origin specified");
    reveal_strlit(" :No recipient given (");
    reveal_strlit(")");
    reveal_strlit(" :No text to send");
    reveal_strlit(" :Input line was too long");
    reveal_strlit(" :Unknown command");
    reveal_strlit(" :MOTD File is missing");
    reveal_strlit(" :No nickname given");
    reveal_strlit(" :Erroneous nickname");
    reveal_strlit(" :Nickname is already in use");
    reveal_strlit(" :Nickname collision KILL");
    reveal_strlit(" :They aren't on that channel");
    reveal_strlit(" :You're not on that channel");
    reveal_strlit(" :is already on channel");
    reveal_strlit(" :You have not registered");
    reveal_strlit(" :Not enough parameters");
    reveal_strlit(" :You may not reregister");
    reveal_strlit(" :Password incorrect");
    reveal_strlit(" :You are banned from this server");
    reveal_strlit(" :Cannot join channel (+l)");
    reveal_strlit(" :is unknown mode char to me");
    reveal_strlit(" :Cannot join channel (+i)");
    reveal_strlit(" :Cannot join channel (+b)");
    reveal_strlit(" :Cannot join channel (+k)");
    reveal_strlit(" :Bad Channel Mask");
    reveal_strlit(" :Permission Denied- You're not an IRC operator");
    reveal_strlit(" :You're not channel operator");
    reveal_strlit(" :You cant kill a server!");
    reveal_strlit(" :No O-lines for your host");
}

/// The bodies of the codes from 500 on hold no line break.
proof fn lemma_bodies_from_500(code: ResponseCode)
    requires
        500 <= code.number(),
    ensures
        plain_parts(code.body()),
{
    reveal_strlit(" :Unknown MODE flag");
    reveal_strlit(" :Cant change mode for other users");
    reveal_strlit(" ");
    reveal_strlit(" :No help available on this topic");
    reveal_strlit(" :Key is not valid for this server");
    reveal_strlit(" :STARTTLS successful, proceed with TLS handshake");
    reveal_strlit(" :is using a secure connection");
    reveal_strlit(" :STARTTLS failed (");
    reveal_strlit(")");
    reveal_strlit(" :Invalid mode parameter");
    reveal_strlit(" :");
    reveal_strlit(" :Insufficient oper privileges.");
    reveal_strlit(" :You are now logged in as ");
    reveal_strlit(" :You are now logged out");
    reveal_strlit(" :You must use a nick assigned to you");
    reveal_strlit(" :SASL authentication successful");
    reveal_strlit(" :SASL authentication failed");
    reveal_strlit(" :SASL message too long");
    reveal_strlit(" :SASL authentication aborted");
    reveal_strlit(" :You have already authenticated using SASL");
    reveal_strlit(" :are available SASL mechanisms");
}

/// Every reply is one line on the wire, where it is filled from parameters
/// without a line break.
pub proof fn lemma_reply_is_one_line(code: ResponseCode, p: ResponseParamsView)
    requires
        plain_params(p),
    ensures
        one_line(code.message_spec(p)),
{
    if code.number() < 300 {
        lemma_bodies_below_300(code);
    } else if code.number() < 400 {
        lemma_bodies_from_300(code);
    } else if code.number() < 500 {
        lemma_bodies_from_400(code);
    } else {
        lemma_bodies_from_500(code);
    }
    lemma_render_is_plain(code.body(), p);
    reveal_strlit(":server ");
    reveal_strlit(" ");
    reveal_strlit("\r\n");
    let start = reply_head(code.number(), p.client) + render(code.body(), p);
    let line = code.message_spec(p);
    assert(line.subrange(0, line.len() - 2) =~= start);
    assert(line.subrange(line.len() - 2, line.len() as int) =~= "\r\n"@);
}

} // verus!
