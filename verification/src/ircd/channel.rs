//! A channel: a named group of members.

use super::roster::{distinct, Binding, Roster};
use vstd::prelude::*;

verus! {

/// A named group: its topic, its members by nickname, and its modes, which
/// are kept and never read.
pub struct Channel {
    pub(crate) name: String,
    pub(crate) topic: String,
    pub(crate) users: Roster,
    pub(crate) modes: Vec<String>,
}

/// A [`Channel`] as plain values.
pub struct ChannelView {
    pub name: Seq<char>,
    pub topic: Seq<char>,
    pub users: Seq<Binding>,
    pub modes: Seq<Seq<char>>,
}

impl View for Channel {
    type V = ChannelView;

    open(crate) spec fn view(&self) -> ChannelView {
        ChannelView {
            name: self.name@,
            topic: self.topic@,
            users: self.users@,
            modes: self.modes.deep_view(),
        }
    }
}

/// The channel `name` as it is when it has just been made: no topic, no
/// members, no modes.
pub open spec fn fresh_channel(name: Seq<char>) -> ChannelView {
    ChannelView { name, topic: Seq::empty(), users: Seq::empty(), modes: Seq::empty() }
}

/// A channel that holds together: no nickname is a member twice, and no
/// mode occurs twice.
pub open spec fn channel_ok(c: ChannelView) -> bool {
    distinct(c.users) && c.modes.no_duplicates()
}

impl Channel {
    /// The channel holds together; see [`channel_ok`].
    pub open spec fn wf(&self) -> bool {
        channel_ok(self@)
    }

    /// A channel named `name`, without topic, members or modes.
    pub fn new(name: String) -> (c: Self)
        ensures
            c@ == fresh_channel(name@),
            c.wf(),
    {
        let c = Channel { name, topic: String::new(), users: Roster::new(), modes: Vec::new() };
        assert(c.modes.deep_view() =~= Seq::<Seq<char>>::empty());
        c
    }

    /// The channel's name.
    pub fn name(&self) -> (r: &String)
        ensures
            r@ == self@.name,
    {
        &self.name
    }

    /// The channel's topic.
    pub fn topic(&self) -> (r: &String)
        ensures
            r@ == self@.topic,
    {
        &self.topic
    }

    /// The channel's members.
    pub fn users(&self) -> (r: &Roster)
        ensures
            r@ == self@.users,
    {
        &self.users
    }

    /// The channel's modes.
    pub fn modes(&self) -> (r: &Vec<String>)
        ensures
            r.deep_view() == self@.modes,
    {
        &self.modes
    }
}

} // verus!
