//! The decisions of one WebSocket session: which topics it listens to, how
//! it answers commands and pings, and what it undoes when it ends. The
//! transport runs the listeners and the socket; this holds the bookkeeping.

use vstd::prelude::*;
use tokio::sync::broadcast::Receiver;
use crate::subscriptions::{
    after_subscribe, after_unsubscribe, after_unsubscribe_client, ClientId, Message,
    SubscriptionManager, Topic,
};

verus! {

/// The application-level ping byte, carried in a binary frame.
pub const PING: u8 = 0x09;

/// The application-level pong byte, carried in a binary frame.
pub const PONG: u8 = 0x0A;

/// A command that a client sends as text.
#[derive(Debug, Clone, PartialEq, Eq)]
pub enum Command {
    Subscribe(Topic),
    Unsubscribe(Topic),
}

/// What the transport does after a command.
pub enum Action {
    /// Start a listener that forwards what this receiver gets.
    Listen(Topic, Receiver<Message>),
    /// Stop the listener of this topic.
    Stop(Topic),
    /// Nothing to do.
    Ignore,
}

/// Whether `c` is a lowercase hex digit.
pub open spec fn is_lower_hex(c: char) -> bool {
    ('0' <= c && c <= '9') || ('a' <= c && c <= 'f')
}

/// The text form of a version 7 UUID: 36 characters, hyphens at 8, 13, 18
/// and 23, the version digit `7` at 14, lowercase hex elsewhere.
pub open spec fn is_uuid_v7_text(s: Seq<char>) -> bool {
    &&& s.len() == 36
    &&& forall|i: int|
        0 <= i < 36 ==> if i == 8 || i == 13 || i == 18 || i == 23 {
            #[trigger] s[i] == '-'
        } else if i == 14 {
            s[i] == '7'
        } else {
            is_lower_hex(s[i])
        }
}

/// Relies on `uuid::Uuid::now_v7` and its `Display` form, the hyphenated
/// lowercase hex of a version 7 UUID: a time-ordered identifier.
#[verifier::external_body]
fn new_client_id() -> (r: String)
    ensures
        is_uuid_v7_text(r@),
{
    uuid::Uuid::now_v7().to_string()
}

/// One client's session: its id and the topics it listens to.
pub struct Session {
    client_id: ClientId,
    topics: Vec<Topic>,
}

/// The views of a list of texts.
pub open spec fn texts(v: Seq<String>) -> Seq<Seq<char>> {
    v.map_values(|s: String| s@)
}

impl Session {
    /// The client's id.
    pub closed spec fn id(&self) -> Seq<char> {
        self.client_id@
    }

    /// The topics listened to, in the order they were subscribed.
    pub closed spec fn listening(&self) -> Seq<Seq<char>> {
        texts(self.topics@)
    }

    /// No topic is listened to twice.
    pub closed spec fn wf(&self) -> bool {
        self.listening().no_duplicates()
    }

    /// A session for `client_id` that listens to nothing.
    pub fn new(client_id: ClientId) -> (r: Session)
        ensures
            r.wf(),
            r.id() == client_id@,
            r.listening() == Seq::<Seq<char>>::empty(),
    {
        let r = Session { client_id, topics: Vec::new() };
        assert(r.listening() =~= Seq::<Seq<char>>::empty());
        r
    }

    /// A session with a fresh time-ordered client id.
    pub fn open() -> (r: Session)
        ensures
            r.wf(),
            is_uuid_v7_text(r.id()),
            r.listening() == Seq::<Seq<char>>::empty(),
    {
        Session::new(new_client_id())
    }

    /// The client's id.
    pub fn client_id(&self) -> (r: &str)
        ensures
            r@ == self.id(),
    {
        self.client_id.as_str()
    }

    /// Where `topic` stands among the topics listened to, if it does.
    fn position(&self, topic: &String) -> (r: Option<usize>)
        ensures
            match r {
                Some(i) => i < self.listening().len() && self.listening()[i as int] == topic@,
                None => !self.listening().contains(topic@),
            },
    {
        let mut i: usize = 0;
        while i < self.topics.len()
            invariant
                i <= self.topics@.len(),
                forall|j: int| 0 <= j < i ==> self.topics@[j]@ != topic@,
            decreases self.topics@.len() - i,
        {
            if self.topics[i] == *topic {
                return Some(i);
            }
            i = i + 1;
        }
        proof {
            if self.listening().contains(topic@) {
                let j = choose|j: int| 0 <= j < self.listening().len() && self.listening()[j] == topic@;
                assert(self.topics@[j]@ == topic@);
            }
        }
        None
    }

    /// Applies a command. Subscribing to a topic not yet listened to
    /// registers the client with `manager` and hands back the receiver to
    /// listen on; unsubscribing from a topic listened to removes the client
    /// from it there and says which listener to stop. Any other command
    /// changes nothing.
    pub fn on_command(&mut self, manager: &mut SubscriptionManager, command: Command) -> (r: Action)
        requires
            old(self).wf(),
            old(manager).wf(),
        ensures
            final(self).wf(),
            final(manager).wf(),
            final(self).id() == old(self).id(),
            match command {
                Command::Subscribe(t) => if old(self).listening().contains(t@) {
                    &&& r is Ignore
                    &&& final(self).listening() == old(self).listening()
                    &&& final(manager)@ == old(manager)@
                } else {
                    &&& r is Listen && r->Listen_0@ == t@
                    &&& final(self).listening() == old(self).listening().push(t@)
                    &&& final(manager)@ == after_subscribe(old(manager)@, t@, old(self).id())
                },
                Command::Unsubscribe(t) => if old(self).listening().contains(t@) {
                    &&& r is Stop && r->Stop_0@ == t@
                    &&& final(self).listening() == old(self).listening().remove(
                        old(self).listening().index_of(t@),
                    )
                    &&& final(manager)@ == after_unsubscribe(old(manager)@, old(self).id(), t@)
                } else {
                    &&& r is Ignore
                    &&& final(self).listening() == old(self).listening()
                    &&& final(manager)@ == old(manager)@
                },
            },
    {
        match command {
            Command::Subscribe(topic) => {
                match self.position(&topic) {
                    Some(_) => Action::Ignore,
                    None => {
                        let rx = manager.subscribe(topic.clone(), self.client_id.clone());
                        let ghost before = self.topics@;
                        let t2 = topic.clone();
                        self.topics.push(topic);
                        assert(texts(self.topics@) =~= texts(before).push(t2@));
                        Action::Listen(t2, rx)
                    },
                }
            },
            Command::Unsubscribe(topic) => {
                match self.position(&topic) {
                    None => Action::Ignore,
                    Some(i) => {
                        let ghost before = self.listening();
                        proof {
                            before.index_of_first_ensures(topic@);
                            assert(before.index_of(topic@) == i as int) by {
                                let k = before.index_of(topic@);
                                if k != i as int {
                                    assert(before[k] == before[i as int]);
                                }
                            }
                        }
                        let removed = self.topics.remove(i);
                        assert(self.listening() =~= before.remove(i as int));
                        proof {
                            assert forall|a: int, b: int| 0 <= a < b < self.listening().len() implies
                                self.listening()[a] != self.listening()[b] by {
                                let oa = if a < i { a } else { a + 1 };
                                let ob = if b < i { b } else { b + 1 };
                                assert(self.listening()[a] == before[oa]);
                                assert(self.listening()[b] == before[ob]);
                            }
                        }
                        manager.unsubscribe(&self.client_id, &topic);
                        Action::Stop(removed)
                    },
                }
            },
        }
    }

    /// The reply to a binary frame: a pong for a lone ping, nothing else.
    pub fn on_binary(&self, frame: &[u8]) -> (r: Option<Vec<u8>>)
        ensures
            frame@ == seq![PING] ==> r is Some && r->Some_0@ == seq![PONG],
            frame@ != seq![PING] ==> r is None,
    {
        if frame.len() == 1 && frame[0] == PING {
            assert(frame@ =~= seq![PING]);
            let mut pong: Vec<u8> = Vec::new();
            pong.push(PONG);
            assert(pong@ =~= seq![PONG]);
            Some(pong)
        } else {
            None
        }
    }

    /// Ends the session: the client leaves every topic of `manager`, the
    /// session listens to nothing, and the topics whose listeners must be
    /// stopped are returned.
    pub fn close(&mut self, manager: &mut SubscriptionManager) -> (r: Vec<Topic>)
        requires
            old(manager).wf(),
        ensures
            final(manager).wf(),
            final(manager)@ == after_unsubscribe_client(old(manager)@, old(self).id()),
            texts(r@) == old(self).listening(),
            final(self).listening() == Seq::<Seq<char>>::empty(),
            final(self).id() == old(self).id(),
    {
        manager.unsubscribe_client(&self.client_id);
        let mut topics: Vec<Topic> = Vec::new();
        core::mem::swap(&mut topics, &mut self.topics);
        assert(self.listening() =~= Seq::<Seq<char>>::empty());
        topics
    }
}

} // verus!
