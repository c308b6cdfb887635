//! What holds of the dispatcher whatever the state and the command: stated
//! over the same functions as the contracts of `Command::execute` and
//! `Command::handle`, and proved.

use super::command::{
    join_state, lemma_step_keeps_valid, members_of, nick_of, nick_state, step_state, CommandView,
};
use super::ircd::{
    channel_place, connected, has_channel, lines_for, valid, DeliveryView, ServerView,
};
use super::roster::{
    bind, distinct, is_bound, lemma_bind, lemma_rename, lemma_rename_others, nicks, session_of,
    SessionId,
};
use vstd::prelude::*;

verus! {

/// A change of nickname leaves no trace of the old one. After `NICK` from a
/// session whose nickname differs from the new one, neither the registry nor
/// any channel still holds the old nickname, and wherever the old nickname
/// was bound, the new one is now bound to the session that the old one was
/// bound to.
pub proof fn lemma_nick_leaves_no_trace(st: ServerView, session: SessionId, new_nick: Seq<char>)
    requires
        valid(st),
        session < st.sessions.len(),
        nick_of(st, session) != new_nick,
    ensures
        ({
            let old_nick = nick_of(st, session);
            let after = nick_state(st, session, new_nick);
            &&& after.channels.len() == st.channels.len()
            &&& !is_bound(after.users, old_nick)
            &&& is_bound(st.users, old_nick) ==> session_of(after.users, new_nick) == session_of(
                st.users,
                old_nick,
            )
            &&& forall|c: int|
                0 <= c < st.channels.len() ==> !is_bound(
                    (#[trigger] after.channels[c]).users,
                    old_nick,
                )
            &&& forall|c: int|
                0 <= c < st.channels.len() && is_bound(st.channels[c].users, old_nick)
                    ==> session_of((#[trigger] after.channels[c]).users, new_nick) == session_of(
                    st.channels[c].users,
                    old_nick,
                )
        }),
{
    let old_nick = nick_of(st, session);
    let after = nick_state(st, session, new_nick);
    lemma_rename(st.users, old_nick, new_nick);
    assert forall|c: int| 0 <= c < st.channels.len() implies !is_bound(
        (#[trigger] after.channels[c]).users,
        old_nick,
    ) && (is_bound(st.channels[c].users, old_nick) ==> session_of(
        after.channels[c].users,
        new_nick,
    ) == session_of(st.channels[c].users, old_nick)) by {
        lemma_rename(st.channels[c].users, old_nick, new_nick);
    }
}

/// Joining twice is joining once. When a session joins a channel in which
/// its nickname is already a member, no channel is made, the channel has the
/// same members under the same nicknames in the same order, and the nickname
/// is bound to the joining session. Where it was bound to that session
/// before, the state does not change at all.
pub proof fn lemma_join_again(st: ServerView, session: SessionId, channel: Seq<char>)
    requires
        valid(st),
        session < st.sessions.len(),
        is_bound(members_of(st.channels, channel), nick_of(st, session)),
    ensures
        ({
            let nick = nick_of(st, session);
            let before = members_of(st.channels, channel);
            let after = join_state(st, session, channel);
            let members = members_of(after.channels, channel);
            &&& after.channels.len() == st.channels.len()
            &&& members.len() == before.len()
            &&& nicks(members) == nicks(before)
            &&& session_of(members, nick) == Some(session)
            &&& session_of(before, nick) == Some(session) ==> after == st
        }),
{
    let nick = nick_of(st, session);
    let before = members_of(st.channels, channel);
    let after = join_state(st, session, channel);
    // The channel exists, since it has a member; it stands at `p`.
    assert(has_channel(st.channels, channel));
    let p = channel_place(st.channels, channel);
    assert(distinct(st.channels[p].users));
    lemma_bind(before, nick, session);
    // After the join it still stands at `p`, and nowhere else.
    lemma_step_keeps_valid(CommandView::JOIN(channel), session, st);
    assert(after.channels[p].name == channel);
    assert(has_channel(after.channels, channel));
    let w = channel_place(after.channels, channel);
    if w < p {
        assert(after.channels[w].name != after.channels[p].name);
    } else if p < w {
        assert(after.channels[p].name != after.channels[w].name);
    }
    let members = members_of(after.channels, channel);
    assert(members == bind(before, nick, session));
    assert(nicks(members) =~= nicks(before));
    if session_of(before, nick) == Some(session) {
        assert(bind(before, nick, session) =~= before);
        assert(after.channels =~= st.channels);
    }
}

/// The registry and the channels agree: every session is entered in the
/// registry under its own nickname, and every member of a channel is the
/// session that the registry has under the member's nickname.
pub open spec fn coherent(st: ServerView) -> bool {
    &&& valid(st)
    &&& forall|s: SessionId|
        s < st.sessions.len() ==> session_of(st.users, #[trigger] nick_of(st, s)) == Some(s)
    &&& forall|c: int, i: int|
        0 <= c < st.channels.len() && 0 <= i < st.channels[c].users.len() ==> session_of(
            st.users,
            (#[trigger] st.channels[c].users[i]).nick,
        ) == Some(st.channels[c].users[i].session)
}

/// A command other than a change to a nickname that is in use keeps the
/// registry and the channels in agreement. `NICK` to the nickname of another
/// session takes that session's registry entry away, and is left out.
pub proof fn lemma_step_keeps_coherent(cmd: CommandView, session: SessionId, st: ServerView)
    requires
        coherent(st),
        session < st.sessions.len(),
        cmd matches CommandView::NICK(new_nick) ==> !is_bound(st.users, new_nick) || new_nick
            == nick_of(st, session),
    ensures
        coherent(step_state(cmd, session, st)),
{
    lemma_step_keeps_valid(cmd, session, st);
    let after = step_state(cmd, session, st);
    let nick = nick_of(st, session);
    match cmd {
        CommandView::NICK(new_nick) => {
            lemma_rename(st.users, nick, new_nick);
            lemma_rename_others(st.users, nick, new_nick);
            assert forall|s: SessionId| s < after.sessions.len() implies session_of(
                after.users,
                #[trigger] nick_of(after, s),
            ) == Some(s) by {
                if s != session {
                    assert(session_of(st.users, nick_of(st, s)) == Some(s));
                }
            }
        },
        _ => {
            assert forall|s: SessionId| s < after.sessions.len() implies session_of(
                after.users,
                #[trigger] nick_of(after, s),
            ) == Some(s) by {
                assert(nick_of(after, s) == nick_of(st, s));
            }
        },
    }
}

/// A session that connects under a nickname that is not in use keeps the
/// registry and the channels in agreement. A guest that draws a nickname in
/// use takes the registry entry of the session that had it, and is left out.
pub proof fn lemma_connect_keeps_coherent(st: ServerView, nick: Seq<char>)
    requires
        coherent(st),
        !is_bound(st.users, nick),
        st.sessions.len() < usize::MAX,
    ensures
        coherent(connected(st, nick)),
{
    let after = connected(st, nick);
    let session = st.sessions.len() as SessionId;
    lemma_bind(st.users, nick, session);
    assert forall|s: SessionId| s < after.sessions.len() implies session_of(
        after.users,
        #[trigger] nick_of(after, s),
    ) == Some(s) by {
        if s != session {
            assert(nick_of(after, s) == nick_of(st, s));
        }
    }
}

/// How many of the first `i` deliveries are addressed to `session`.
pub open spec fn rank(d: Seq<DeliveryView>, session: SessionId, i: int) -> nat {
    lines_for(d.take(i), session).len()
}

/// The lines for a session among the first `i` deliveries open the lines for
/// it among all of them.
pub proof fn lemma_lines_for_prefix(d: Seq<DeliveryView>, session: SessionId, i: int)
    requires
        0 <= i <= d.len(),
    ensures
        rank(d, session, i) <= lines_for(d, session).len(),
        lines_for(d.take(i), session) == lines_for(d, session).take(rank(d, session, i) as int),
    decreases d.len() - i,
{
    if i == d.len() {
        assert(d.take(i) =~= d);
    } else {
        lemma_lines_for_prefix(d, session, i + 1);
        let next = d.take(i + 1);
        assert(next.drop_last() =~= d.take(i));
    }
}

/// First in, first out, on the side of the sender. Of two deliveries to the
/// same session, the line of the earlier stands before the line of the later
/// among the lines enqueued to that session: each stands at the place given
/// by the number of deliveries to the session before it.
pub proof fn lemma_enqueued_in_order(d: Seq<DeliveryView>, session: SessionId, i: int, j: int)
    requires
        0 <= i < j < d.len(),
        d[i].recipient == session,
        d[j].recipient == session,
    ensures
        rank(d, session, i) < rank(d, session, j) < lines_for(d, session).len(),
        lines_for(d, session)[rank(d, session, i) as int] == d[i].line,
        lines_for(d, session)[rank(d, session, j) as int] == d[j].line,
{
    lemma_line_at_rank(d, session, i);
    lemma_line_at_rank(d, session, j);
    // The deliveries before `j` hold the one at `i`.
    let upto = d.take(j);
    lemma_lines_for_prefix(upto, session, i + 1);
    assert(upto.take(i + 1) =~= d.take(i + 1));
    assert(d.take(i + 1).drop_last() =~= d.take(i));
}

/// The line of a delivery stands, among the lines for its recipient, at the
/// place given by the number of earlier deliveries to that recipient.
pub proof fn lemma_line_at_rank(d: Seq<DeliveryView>, session: SessionId, i: int)
    requires
        0 <= i < d.len(),
        d[i].recipient == session,
    ensures
        rank(d, session, i) < lines_for(d, session).len(),
        lines_for(d, session)[rank(d, session, i) as int] == d[i].line,
{
    lemma_lines_for_prefix(d, session, i + 1);
    let next = d.take(i + 1);
    assert(next.drop_last() =~= d.take(i));
    let longer = lines_for(next, session);
    assert(longer[rank(d, session, i) as int] == d[i].line);
}

} // verus!
