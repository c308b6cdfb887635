//! Nicknames bound to sessions: the shape of the user registry and of a
//! channel's membership. A roster keeps its bindings in the order in which
//! their nicknames were first bound, and no nickname is bound twice.

use super::text::same_text;
use vstd::prelude::*;

verus! {

/// A session handle: the index of a session in the server's table of sessions.
pub type SessionId = usize;

/// A nickname and the session it is bound to.
pub(crate) struct Entry {
    pub(crate) nick: String,
    pub(crate) session: SessionId,
}

/// A nickname and the session it is bound to, as plain values.
pub struct Binding {
    pub nick: Seq<char>,
    pub session: SessionId,
}

impl View for Entry {
    type V = Binding;

    open(crate) spec fn view(&self) -> Binding {
        Binding { nick: self.nick@, session: self.session }
    }
}

/// Nicknames bound to sessions, in the order of their first binding. Only
/// the roster's own operations change it, so a roster never binds a nickname
/// twice.
pub struct Roster {
    pub(crate) entries: Vec<Entry>,
}

impl View for Roster {
    type V = Seq<Binding>;

    open(crate) spec fn view(&self) -> Seq<Binding> {
        self.entries@.map_values(|e: Entry| e@)
    }
}

/// The nicknames of the bindings, in order.
pub open spec fn nicks(b: Seq<Binding>) -> Seq<Seq<char>> {
    b.map_values(|e: Binding| e.nick)
}

/// No nickname is bound twice.
pub open spec fn distinct(b: Seq<Binding>) -> bool {
    forall|i: int, j: int| 0 <= i < j < b.len() ==> (#[trigger] b[i]).nick != (#[trigger] b[j]).nick
}

/// Whether `nick` is bound.
pub open spec fn is_bound(b: Seq<Binding>, nick: Seq<char>) -> bool {
    exists|i: int| 0 <= i < b.len() && (#[trigger] b[i]).nick == nick
}

/// Where `nick` is bound, if it is.
pub open spec fn place(b: Seq<Binding>, nick: Seq<char>) -> int {
    choose|i: int| 0 <= i < b.len() && (#[trigger] b[i]).nick == nick
}

/// The session that `nick` is bound to.
pub open spec fn session_of(b: Seq<Binding>, nick: Seq<char>) -> Option<SessionId> {
    if is_bound(b, nick) {
        Some(b[place(b, nick)].session)
    } else {
        None
    }
}

/// `b` with `nick` bound to `session`: in place where `nick` was bound before,
/// at the end where it was not.
pub open spec fn bind(b: Seq<Binding>, nick: Seq<char>, session: SessionId) -> Seq<Binding> {
    if is_bound(b, nick) {
        b.update(place(b, nick), Binding { nick, session })
    } else {
        b.push(Binding { nick, session })
    }
}

/// `b` without the binding of `nick`.
pub open spec fn unbind(b: Seq<Binding>, nick: Seq<char>) -> Seq<Binding> {
    if is_bound(b, nick) {
        b.remove(place(b, nick))
    } else {
        b
    }
}

/// `b` with the session of `old` bound to `new` instead; `b` itself where
/// `old` is not bound.
pub open spec fn rename(b: Seq<Binding>, old: Seq<char>, new: Seq<char>) -> Seq<Binding> {
    match session_of(b, old) {
        Some(session) => bind(unbind(b, old), new, session),
        None => b,
    }
}

/// In a roster without repeated nicknames, a nickname found at `i` is bound
/// there and nowhere else.
pub proof fn lemma_place_is(b: Seq<Binding>, nick: Seq<char>, i: int)
    requires
        distinct(b),
        0 <= i < b.len(),
        b[i].nick == nick,
    ensures
        is_bound(b, nick),
        place(b, nick) == i,
        session_of(b, nick) == Some(b[i].session),
{
}

/// Binding keeps a roster free of repeated nicknames, binds the nickname to the
/// session, and leaves every other nickname as it was.
pub proof fn lemma_bind(b: Seq<Binding>, nick: Seq<char>, session: SessionId)
    requires
        distinct(b),
    ensures
        distinct(bind(b, nick, session)),
        session_of(bind(b, nick, session), nick) == Some(session),
        bind(b, nick, session).len() == if is_bound(b, nick) {
            b.len()
        } else {
            b.len() + 1
        },
        forall|other: Seq<char>|
            other != nick ==> is_bound(bind(b, nick, session), other) == is_bound(b, other)
                && session_of(bind(b, nick, session), other) == session_of(b, other),
{
    let after = bind(b, nick, session);
    // Where the nickname is bound after the binding: where it was, or at the end.
    let at = if is_bound(b, nick) {
        place(b, nick)
    } else {
        b.len() as int
    };
    lemma_place_is(after, nick, at);
    assert forall|other: Seq<char>| other != nick implies is_bound(after, other) == is_bound(
        b,
        other,
    ) && session_of(after, other) == session_of(b, other) by {
        if is_bound(b, other) {
            lemma_place_is(after, other, place(b, other));
        }
    }
}

/// Unbinding keeps a roster free of repeated nicknames, leaves the nickname
/// unbound, and leaves every other nickname as it was.
pub proof fn lemma_unbind(b: Seq<Binding>, nick: Seq<char>)
    requires
        distinct(b),
    ensures
        distinct(unbind(b, nick)),
        !is_bound(unbind(b, nick), nick),
        forall|other: Seq<char>|
            other != nick ==> is_bound(unbind(b, nick), other) == is_bound(b, other)
                && session_of(unbind(b, nick), other) == session_of(b, other),
{
    let after = unbind(b, nick);
    if is_bound(b, nick) {
        let p = place(b, nick);
        assert forall|other: Seq<char>| other != nick implies is_bound(after, other) == is_bound(
            b,
            other,
        ) && session_of(after, other) == session_of(b, other) by {
            if is_bound(b, other) {
                let q = place(b, other);
                let aq = if q < p { q } else { q - 1 };
                lemma_place_is(after, other, aq);
            }
        }
    }
}

/// Renaming leaves every nickname other than the two as it was.
pub proof fn lemma_rename_others(b: Seq<Binding>, old: Seq<char>, new: Seq<char>)
    requires
        distinct(b),
    ensures
        forall|other: Seq<char>|
            other != old && other != new ==> is_bound(rename(b, old, new), other) == is_bound(
                b,
                other,
            ) && session_of(rename(b, old, new), other) == session_of(b, other),
{
    if is_bound(b, old) {
        let session = b[place(b, old)].session;
        lemma_unbind(b, old);
        lemma_bind(unbind(b, old), new, session);
    }
}

/// Renaming keeps a roster free of repeated nicknames. Where `old` was bound
/// and differs from `new`, `old` is bound no more and `new` is bound to the
/// session that `old` was bound to.
pub proof fn lemma_rename(b: Seq<Binding>, old: Seq<char>, new: Seq<char>)
    requires
        distinct(b),
    ensures
        distinct(rename(b, old, new)),
        is_bound(b, old) ==> session_of(rename(b, old, new), new) == session_of(b, old),
        old != new ==> !is_bound(rename(b, old, new), old),
        !is_bound(b, old) ==> rename(b, old, new) == b,
{
    if is_bound(b, old) {
        let session = b[place(b, old)].session;
        lemma_bind(unbind(b, old), new, session);
    }
}

impl Roster {
    /// No nickname is bound twice.
    pub open spec fn wf(&self) -> bool {
        distinct(self@)
    }

    /// A roster without bindings.
    pub fn new() -> (r: Self)
        ensures
            r@ == Seq::<Binding>::empty(),
            r.wf(),
    {
        Roster { entries: Vec::new() }
    }

    /// How many nicknames are bound.
    pub fn len(&self) -> (n: usize)
        ensures
            n == self@.len(),
    {
        self.entries.len()
    }

    /// The first place at which `nick` is bound.
    pub fn position(&self, nick: &str) -> (r: Option<usize>)
        ensures
            match r {
                Some(i) => i < self@.len() && self@[i as int].nick == nick@,
                None => !is_bound(self@, nick@),
            },
    {
        let n = self.entries.len();
        let mut i: usize = 0;
        while i < n
            invariant
                n == self.entries.len(),
                i <= n,
                forall|j: int| 0 <= j < i ==> (#[trigger] self@[j]).nick != nick@,
            decreases n - i,
        {
            if same_text(self.entries[i].nick.as_str(), nick) {
                return Some(i);
            }
            i = i + 1;
        }
        None
    }

    /// Whether `nick` is bound.
    pub fn contains_key(&self, nick: &str) -> (r: bool)
        ensures
            r == is_bound(self@, nick@),
    {
        self.position(nick).is_some()
    }

    /// The session that `nick` is bound to.
    pub fn get(&self, nick: &str) -> (r: Option<SessionId>)
        requires
            self.wf(),
        ensures
            r == session_of(self@, nick@),
    {
        match self.position(nick) {
            Some(i) => {
                Some(self.entries[i].session)
            },
            None => None,
        }
    }

    /// Binds `nick` to `session` and returns the session it was bound to before.
    pub fn insert(&mut self, nick: String, session: SessionId) -> (previous: Option<SessionId>)
        requires
            old(self).wf(),
        ensures
            final(self).wf(),
            final(self)@ == bind(old(self)@, nick@, session),
            previous == session_of(old(self)@, nick@),
    {
        match self.position(nick.as_str()) {
            Some(i) => {
                let previous = self.entries[i].session;
                self.entries[i].session = session;
                assert(self@ =~= bind(old(self)@, nick@, session));
                Some(previous)
            },
            None => {
                self.entries.push(Entry { nick, session });
                assert(self@ =~= bind(old(self)@, nick@, session));
                None
            },
        }
    }

    /// Removes the binding of `nick` and returns the session it was bound to.
    pub fn remove(&mut self, nick: &str) -> (previous: Option<SessionId>)
        requires
            old(self).wf(),
        ensures
            final(self).wf(),
            final(self)@ == unbind(old(self)@, nick@),
            previous == session_of(old(self)@, nick@),
    {
        match self.position(nick) {
            Some(i) => {
                let entry = self.entries.remove(i);
                assert(self@ =~= unbind(old(self)@, nick@));
                Some(entry.session)
            },
            None => None,
        }
    }

    /// Binds the session of `old_nick` to `new_nick` instead, where `old_nick`
    /// is bound.
    pub fn rename(&mut self, old_nick: &str, new_nick: &str)
        requires
            old(self).wf(),
        ensures
            final(self).wf(),
            final(self)@ == rename(old(self)@, old_nick@, new_nick@),
    {
        match self.remove(old_nick) {
            Some(session) => {
                self.insert(new_nick.to_owned(), session);
            },
            None => {},
        }
    }

    /// The bound nicknames, in order.
    pub fn nicks(&self) -> (out: Vec<String>)
        ensures
            out.deep_view() == nicks(self@),
    {
        let mut out: Vec<String> = Vec::new();
        let n = self.entries.len();
        let mut i: usize = 0;
        while i < n
            invariant
                n == self.entries.len(),
                i <= n,
                out.deep_view() =~= nicks(self@).take(i as int),
            decreases n - i,
        {
            let ghost before = out.deep_view();
            let nick = self.entries[i].nick.clone();
            out.push(nick);
            assert(out.deep_view() =~= before.push(nick@));
            i = i + 1;
        }
        out
    }
}

} // verus!
