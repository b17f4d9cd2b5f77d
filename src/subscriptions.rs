//! The topic registry: per topic, the subscribed client ids and a lossy
//! broadcast channel that exists exactly while the topic has subscribers.

use vstd::prelude::*;
use tokio::sync::broadcast::error::SendError;
use tokio::sync::broadcast::{Receiver, Sender};
use crate::logs::LogDto;
use crate::metrics::MetricDto;
use crate::traces::SpanDto;

verus! {

#[verifier::external_type_specification]
#[verifier::external_body]
#[verifier::reject_recursive_types(T)]
pub struct ExSender<T>(Sender<T>);

#[verifier::external_type_specification]
#[verifier::external_body]
#[verifier::reject_recursive_types(T)]
pub struct ExReceiver<T>(Receiver<T>);

#[verifier::external_type_specification]
#[verifier::external_body]
#[verifier::reject_recursive_types(T)]
pub struct ExSendError<T>(SendError<T>);

/// A client's identifier.
pub type ClientId = String;

/// A topic's name.
pub type Topic = String;

/// The capacity that each topic's channel is opened with. The channel keeps
/// at least this many unread messages per receiver (tokio rounds it up to a
/// power of two); past its bound, the oldest unread one is dropped for that
/// receiver.
pub const CHANNEL_CAPACITY: usize = 100;

/// The topic of log records.
pub const LOGS_TOPIC: &'static str = "logs";

/// The topic of spans.
pub const TRACES_TOPIC: &'static str = "traces";

/// The topic of metrics.
pub const METRICS_TOPIC: &'static str = "metrics";

/// What a message carries.
#[derive(Debug, Clone)]
pub enum Payload {
    Log(LogDto),
    Span(SpanDto),
    Metric(MetricDto),
    Raw(String),
}

/// A payload published on a topic.
#[derive(Debug, Clone)]
pub struct Message {
    pub topic: String,
    pub payload: Payload,
}

impl Message {
    /// A message on `topic` that carries the text `payload`.
    pub fn new(topic: &str, payload: &str) -> (r: Message)
        ensures
            r.topic@ == topic@,
            r.payload is Raw,
            r.payload->Raw_0@ == payload@,
    {
        Message { topic: topic.to_string(), payload: Payload::Raw(payload.to_string()) }
    }
}

/// A message that carries a log record on the logs topic.
pub fn log_message(dto: LogDto) -> (r: Message)
    ensures
        r.topic@ == LOGS_TOPIC@,
        r.payload == Payload::Log(dto),
{
    Message { topic: LOGS_TOPIC.to_string(), payload: Payload::Log(dto) }
}

/// A message that carries a span on the traces topic.
pub fn span_message(dto: SpanDto) -> (r: Message)
    ensures
        r.topic@ == TRACES_TOPIC@,
        r.payload == Payload::Span(dto),
{
    Message { topic: TRACES_TOPIC.to_string(), payload: Payload::Span(dto) }
}

/// A message that carries a metric on the metrics topic.
pub fn metric_message(dto: MetricDto) -> (r: Message)
    ensures
        r.topic@ == METRICS_TOPIC@,
        r.payload == Payload::Metric(dto),
{
    Message { topic: METRICS_TOPIC.to_string(), payload: Payload::Metric(dto) }
}

/// The capacity that a channel was opened with.
pub uninterp spec fn channel_capacity(tx: Sender<Message>) -> nat;

/// Relies on tokio's `broadcast::channel`: a channel opened with `capacity`,
/// which tokio rounds up to a power of two for its buffer. It panics on a capacity of zero
/// or above `usize::MAX / 2`. The receiver it makes with the sender is
/// dropped, so the channel starts with none.
#[verifier::external_body]
fn open_channel(capacity: usize) -> (r: Sender<Message>)
    requires
        0 < capacity <= usize::MAX / 2,
    ensures
        channel_capacity(r) == capacity,
{
    tokio::sync::broadcast::channel(capacity).0
}

/// Relies on tokio's `Sender::subscribe`: a new receiver of the messages sent
/// after this call.
#[verifier::external_body]
fn add_receiver(tx: &Sender<Message>) -> (r: Receiver<Message>) {
    tx.subscribe()
}

/// Relies on tokio's `Sender::send`: without receivers it fails; else it
/// hands the message to every receiver and returns how many there are.
#[verifier::external_body]
fn send_to_all(tx: &Sender<Message>, message: Message) -> (r: Result<usize, SendError<Message>>)
    ensures
        r is Ok ==> r->Ok_0 > 0,
{
    tx.send(message)
}

/// Holds of every text but `c`.
pub open spec fn other_than(c: Seq<char>) -> spec_fn(Seq<char>) -> bool {
    |x: Seq<char>| x != c
}

/// How many receivers a send reached: its count, or 0 where it found none.
pub fn delivered_count(result: Result<usize, SendError<Message>>) -> (r: usize)
    ensures
        r == match result {
            Ok(n) => n,
            Err(_) => 0,
        },
{
    match result {
        Ok(n) => n,
        Err(_) => 0,
    }
}

/// Subscriber texts with every occurrence of `c` left out.
pub open spec fn without(subs: Seq<Seq<char>>, c: Seq<char>) -> Seq<Seq<char>> {
    subs.filter(other_than(c))
}

/// The registry after `c` leaves topic `t`: a topic left without
/// subscribers disappears.
pub open spec fn after_unsubscribe(
    m: Map<Seq<char>, Seq<Seq<char>>>,
    c: Seq<char>,
    t: Seq<char>,
) -> Map<Seq<char>, Seq<Seq<char>>> {
    if !m.contains_key(t) {
        m
    } else if without(m[t], c).len() == 0 {
        m.remove(t)
    } else {
        m.insert(t, without(m[t], c))
    }
}

/// The registry after `c` leaves every topic.
pub open spec fn after_unsubscribe_client(
    m: Map<Seq<char>, Seq<Seq<char>>>,
    c: Seq<char>,
) -> Map<Seq<char>, Seq<Seq<char>>> {
    Map::new(|t: Seq<char>| m.contains_key(t) && without(m[t], c).len() > 0, |t| without(m[t], c))
}

/// The registry after `c` subscribes to `t`.
pub open spec fn after_subscribe(
    m: Map<Seq<char>, Seq<Seq<char>>>,
    t: Seq<char>,
    c: Seq<char>,
) -> Map<Seq<char>, Seq<Seq<char>>> {
    let prior = if m.contains_key(t) {
        m[t]
    } else {
        Seq::empty()
    };
    m.insert(t, prior.push(c))
}

/// One topic with its subscribers and its channel.
struct TopicChannel {
    topic: String,
    subscribers: Vec<String>,
    sender: Sender<Message>,
}

spec fn subs_view(e: TopicChannel) -> Seq<Seq<char>> {
    e.subscribers@.map_values(|s: String| s@)
}

/// Topic to subscribers, and topic to broadcast channel. A topic has a
/// channel exactly while it has subscribers.
pub struct SubscriptionManager {
    topics: Vec<TopicChannel>,
    registry: Ghost<Map<Seq<char>, Seq<Seq<char>>>>,
}

impl View for SubscriptionManager {
    type V = Map<Seq<char>, Seq<Seq<char>>>;

    /// Each topic with a channel, mapped to its subscribers in the order they
    /// came.
    closed spec fn view(&self) -> Map<Seq<char>, Seq<Seq<char>>> {
        self.registry@
    }
}

impl SubscriptionManager {
    /// Topics are unique, each has at least one subscriber, each channel was
    /// opened with `CHANNEL_CAPACITY`, and the view lists exactly the topics.
    pub closed spec fn wf(&self) -> bool {
        let ts = self.topics@;
        &&& forall|i: int, j: int|
            0 <= i < j < ts.len() ==> (#[trigger] ts[i]).topic@ != (#[trigger] ts[j]).topic@
        &&& forall|i: int|
            0 <= i < ts.len() ==> {
                &&& self.registry@.contains_key((#[trigger] ts[i]).topic@)
                &&& self.registry@[ts[i].topic@] == subs_view(ts[i])
                &&& ts[i].subscribers@.len() > 0
                &&& channel_capacity(ts[i].sender) == CHANNEL_CAPACITY
            }
        &&& forall|t: Seq<char>|
            #[trigger] self.registry@.contains_key(t) ==> exists|i: int|
                0 <= i < ts.len() && (#[trigger] ts[i]).topic@ == t
    }

    /// The channel of topic `t`, where the topic has one.
    pub closed spec fn channel_of(&self, t: Seq<char>) -> Sender<Message> {
        self.topics@[choose|i: int| 0 <= i < self.topics@.len() && self.topics@[i].topic@ == t].sender
    }

    proof fn lemma_channel_at(&self, i: int)
        requires
            self.wf(),
            0 <= i < self.topics@.len(),
        ensures
            self.channel_of(self.topics@[i].topic@) == self.topics@[i].sender,
    {
        let t = self.topics@[i].topic@;
        let j = choose|j: int| 0 <= j < self.topics@.len() && self.topics@[j].topic@ == t;
        if j != i {
            if j < i {
                assert(self.topics@[j].topic@ != self.topics@[i].topic@);
            } else {
                assert(self.topics@[i].topic@ != self.topics@[j].topic@);
            }
        }
    }

    /// Every topic with a channel: the one it was opened with has capacity
    /// `CHANNEL_CAPACITY`.
    pub proof fn lemma_channel_capacity(&self, t: Seq<char>)
        requires
            self.wf(),
            self@.contains_key(t),
        ensures
            channel_capacity(self.channel_of(t)) == CHANNEL_CAPACITY,
    {
        let i = choose|i: int| 0 <= i < self.topics@.len() && (#[trigger] self.topics@[i]).topic@ == t;
        self.lemma_channel_at(i);
    }

    /// An empty registry.
    pub fn new() -> (r: SubscriptionManager)
        ensures
            r.wf(),
            r@ == Map::<Seq<char>, Seq<Seq<char>>>::empty(),
    {
        SubscriptionManager { topics: Vec::new(), registry: Ghost(Map::empty()) }
    }

    /// The position of `topic`, if it has a channel.
    fn find(&self, topic: &String) -> (r: Option<usize>)
        requires
            self.wf(),
        ensures
            match r {
                Some(i) => i < self.topics@.len() && self.topics@[i as int].topic@ == topic@,
                None => !self@.contains_key(topic@),
            },
    {
        let mut i: usize = 0;
        while i < self.topics.len()
            invariant
                self.wf(),
                i <= self.topics@.len(),
                forall|j: int| 0 <= j < i ==> self.topics@[j].topic@ != topic@,
            decreases self.topics@.len() - i,
        {
            if self.topics[i].topic == *topic {
                return Some(i);
            }
            i = i + 1;
        }
        None
    }

    /// Adds `client_id` to the subscribers of `topic`, opening its channel
    /// if it has none, and returns a new receiver on that channel. Each call
    /// gives its own receiver; a repeated client id is recorded again.
    pub fn subscribe(&mut self, topic: String, client_id: String) -> (r: Receiver<Message>)
        requires
            old(self).wf(),
        ensures
            final(self).wf(),
            final(self)@ == after_subscribe(old(self)@, topic@, client_id@),
            forall|t: Seq<char>| #[trigger] old(self)@.contains_key(t) ==> final(self).channel_of(t) == old(self).channel_of(t),
            channel_capacity(final(self).channel_of(topic@)) == CHANNEL_CAPACITY,
    {
        let ghost tv = topic@;
        let ghost m = self@;
        let ghost c = client_id@;
        match self.find(&topic) {
            Some(i) => {
                let mut e = self.topics.remove(i);
                let ghost before = subs_view(e);
                e.subscribers.push(client_id);
                assert(subs_view(e) =~= before.push(c));
                let rx = add_receiver(&e.sender);
                self.topics.insert(i, e);
                self.registry = Ghost(m.insert(topic@, before.push(c)));
                proof {
                    let ts = self.topics@;
                    assert(ts =~= old(self).topics@.update(i as int, e));
                    assert forall|t: Seq<char>| #[trigger] self.registry@.contains_key(t) implies exists|k: int|
                        0 <= k < ts.len() && (#[trigger] ts[k]).topic@ == t by {
                        if t != topic@ {
                            let k = choose|k: int| 0 <= k < old(self).topics@.len() && (#[trigger] old(self).topics@[k]).topic@ == t;
                            assert(ts[k].topic@ == t);
                        } else {
                            assert(ts[i as int].topic@ == t);
                        }
                    }
                    assert(self.wf());
                    assert forall|t: Seq<char>| #[trigger] old(self)@.contains_key(t) implies self.channel_of(t) == old(self).channel_of(t) by {
                        let k = choose|k: int| 0 <= k < old(self).topics@.len() && (#[trigger] old(self).topics@[k]).topic@ == t;
                        old(self).lemma_channel_at(k);
                        self.lemma_channel_at(k);
                    }
                    self.lemma_channel_capacity(tv);
                }
                rx
            },
            None => {
                let sender = open_channel(CHANNEL_CAPACITY);
                let mut subscribers: Vec<String> = Vec::new();
                subscribers.push(client_id);
                let e = TopicChannel { topic, subscribers, sender };
                assert(subs_view(e) =~= Seq::<Seq<char>>::empty().push(c));
                let rx = add_receiver(&e.sender);
                let ghost t = e.topic@;
                self.topics.push(e);
                self.registry = Ghost(m.insert(t, Seq::<Seq<char>>::empty().push(c)));
                proof {
                    let ts = self.topics@;
                    let n = old(self).topics@.len();
                    assert forall|t2: Seq<char>| #[trigger] self.registry@.contains_key(t2) implies exists|k: int|
                        0 <= k < ts.len() && (#[trigger] ts[k]).topic@ == t2 by {
                        if t2 != t {
                            let k = choose|k: int| 0 <= k < n && (#[trigger] old(self).topics@[k]).topic@ == t2;
                            assert(ts[k].topic@ == t2);
                        } else {
                            assert(ts[n as int].topic@ == t2);
                        }
                    }
                    assert(self.wf());
                    assert forall|t2: Seq<char>| #[trigger] old(self)@.contains_key(t2) implies self.channel_of(t2) == old(self).channel_of(t2) by {
                        let k = choose|k: int| 0 <= k < n && (#[trigger] old(self).topics@[k]).topic@ == t2;
                        old(self).lemma_channel_at(k);
                        self.lemma_channel_at(k);
                    }
                    self.lemma_channel_capacity(tv);
                }
                rx
            },
        }
    }

    /// Removes `client_id` from the subscribers of `topic`. A topic left
    /// without subscribers loses its entry and its channel, so its receivers
    /// see the channel closed.
    pub fn unsubscribe(&mut self, client_id: &String, topic: &String)
        requires
            old(self).wf(),
        ensures
            final(self).wf(),
            final(self)@ == after_unsubscribe(old(self)@, client_id@, topic@),
            forall|t: Seq<char>| #[trigger] final(self)@.contains_key(t) ==> final(self).channel_of(t) == old(self).channel_of(t),
    {
        let ghost m = self@;
        match self.find(topic) {
            None => {},
            Some(i) => {
                let e = self.topics.remove(i);
                let kept = without_client(&e.subscribers, client_id);
                assert(subs_view(e) == m[topic@]);
                if kept.len() == 0 {
                    self.registry = Ghost(m.remove(topic@));
                    proof {
                        let ts = self.topics@;
                        let old_ts = old(self).topics@;
                        assert forall|j: int| 0 <= j < ts.len() implies (#[trigger] ts[j]).topic@ != topic@ by {
                            if j < i {
                                assert(ts[j] == old_ts[j]);
                            } else {
                                assert(ts[j] == old_ts[j + 1]);
                            }
                        }
                        assert forall|t: Seq<char>| #[trigger] self.registry@.contains_key(t) implies exists|k: int|
                            0 <= k < ts.len() && (#[trigger] ts[k]).topic@ == t by {
                            let k = choose|k: int| 0 <= k < old_ts.len() && (#[trigger] old_ts[k]).topic@ == t;
                            if k < i {
                                assert(ts[k].topic@ == t);
                            } else {
                                assert(ts[k - 1].topic@ == t);
                            }
                        }
                    }
                } else {
                    let e2 = TopicChannel { topic: e.topic, subscribers: kept, sender: e.sender };
                    self.topics.insert(i, e2);
                    self.registry = Ghost(m.insert(topic@, without(m[topic@], client_id@)));
                    proof {
                        let ts = self.topics@;
                        assert(ts =~= old(self).topics@.update(i as int, e2));
                        assert forall|t: Seq<char>| #[trigger] self.registry@.contains_key(t) implies exists|k: int|
                            0 <= k < ts.len() && (#[trigger] ts[k]).topic@ == t by {
                            if t != topic@ {
                                let k = choose|k: int| 0 <= k < old(self).topics@.len() && (#[trigger] old(self).topics@[k]).topic@ == t;
                                assert(ts[k].topic@ == t);
                            } else {
                                assert(ts[i as int].topic@ == t);
                            }
                        }
                    }
                }
            },
        }
    }

    /// Removes `client` from every topic, as `unsubscribe` does for each.
    pub fn unsubscribe_client(&mut self, client: &ClientId)
        requires
            old(self).wf(),
        ensures
            final(self).wf(),
            final(self)@ == after_unsubscribe_client(old(self)@, client@),
            forall|t: Seq<char>| #[trigger] final(self)@.contains_key(t) ==> final(self).channel_of(t) == old(self).channel_of(t),
    {
        let ghost m = self@;
        let ghost c = client@;
        let names = self.topic_names();
        let ghost nv = names@.map_values(|s: String| s@);
        let mut k: usize = 0;
        assert(nv.take(0) =~= Seq::<Seq<char>>::empty());
        while k < names.len()
            invariant
                self.wf(),
                k <= names@.len(),
                nv == names@.map_values(|s: String| s@),
                nv.no_duplicates(),
                c == client@,
                forall|t: Seq<char>| #[trigger] self@.contains_key(t) ==> self.channel_of(t) == old(self).channel_of(t),
                forall|t: Seq<char>| m.contains_key(t) <==> nv.contains(t),
                self@ == partly_unsubscribed(m, c, nv.take(k as int)),
            decreases names@.len() - k,
        {
            let ghost done = nv.take(k as int);
            let ghost t = nv[k as int];
            assert(!done.contains(t)) by {
                if done.contains(t) {
                    let j = choose|j: int| 0 <= j < done.len() && done[j] == t;
                    assert(nv[j] == nv[k as int]);
                }
            }
            assert(nv.contains(t)) by {
                assert(nv[k as int] == t);
            }
            let ghost p0 = self@;
            assert(p0.contains_key(t) && p0[t] == m[t]);
            self.unsubscribe(client, &names[k]);
            let ghost nk = nv.take(k + 1);
            assert(nk =~= done.push(t));
            assert forall|x: Seq<char>| nk.contains(x) <==> (done.contains(x) || x == t) by {
                if x == t {
                    assert(nk[k as int] == x);
                }
                if done.contains(x) {
                    let j = choose|j: int| 0 <= j < done.len() && done[j] == x;
                    assert(nk[j] == x);
                }
                if nk.contains(x) {
                    let j = choose|j: int| 0 <= j < nk.len() && nk[j] == x;
                    if j < k {
                        assert(done[j] == x);
                    }
                }
            }
            let ghost p1 = partly_unsubscribed(m, c, nk);
            assert forall|x: Seq<char>| #[trigger] self@.contains_key(x) <==> p1.contains_key(x) by {
                if x != t {
                    assert(nk.contains(x) == done.contains(x));
                }
            }
            assert forall|x: Seq<char>| self@.contains_key(x) implies #[trigger] self@[x] == p1[x] by {
                if x != t {
                    assert(nk.contains(x) == done.contains(x));
                }
            }
            assert(self@ =~= p1);
            k = k + 1;
        }
        assert(nv.take(names@.len() as int) =~= nv);
        assert(self@ =~= after_unsubscribe_client(m, c));
    }

    /// The topics that have a channel, without repeats.
    fn topic_names(&self) -> (r: Vec<String>)
        requires
            self.wf(),
        ensures
            r@.map_values(|s: String| s@).no_duplicates(),
            forall|t: Seq<char>| self@.contains_key(t) <==> r@.map_values(|s: String| s@).contains(t),
    {
        let mut out: Vec<String> = Vec::new();
        let mut i: usize = 0;
        while i < self.topics.len()
            invariant
                self.wf(),
                i <= self.topics@.len(),
                out@.len() == i,
                forall|j: int| 0 <= j < i ==> (#[trigger] out@[j])@ == self.topics@[j].topic@,
            decreases self.topics@.len() - i,
        {
            out.push(self.topics[i].topic.clone());
            i = i + 1;
        }
        let ghost v = out@.map_values(|s: String| s@);
        assert forall|a: int, b: int| 0 <= a < v.len() && 0 <= b < v.len() && a != b implies v[a] != v[b] by {
            if a < b {
                assert(self.topics@[a].topic@ != self.topics@[b].topic@);
            } else {
                assert(self.topics@[b].topic@ != self.topics@[a].topic@);
            }
        }
        assert forall|t: Seq<char>| self@.contains_key(t) <==> v.contains(t) by {
            if self@.contains_key(t) {
                let k = choose|k: int| 0 <= k < self.topics@.len() && (#[trigger] self.topics@[k]).topic@ == t;
                assert(v[k] == t);
            }
            if v.contains(t) {
                let k = choose|k: int| 0 <= k < v.len() && v[k] == t;
                assert(self.topics@[k].topic@ == t);
            }
        }
        out
    }

    /// Hands `message` to every receiver on its topic and returns how many
    /// there were; a topic without a channel, or whose receivers are all
    /// gone, gives 0. Never blocks: a receiver that is full loses its oldest
    /// unread message.
    pub fn publish(&self, message: Message) -> (r: usize)
        requires
            self.wf(),
        ensures
            !self@.contains_key(message.topic@) ==> r == 0,
    {
        match self.find(&message.topic) {
            Some(i) => delivered_count(send_to_all(&self.topics[i].sender, message)),
            None => 0,
        }
    }

    /// Publishes a log record on the logs topic.
    pub fn publish_log(&self, dto: LogDto) -> (r: usize)
        requires
            self.wf(),
        ensures
            !self@.contains_key(LOGS_TOPIC@) ==> r == 0,
    {
        self.publish(log_message(dto))
    }

    /// Publishes a span on the traces topic.
    pub fn publish_span(&self, dto: SpanDto) -> (r: usize)
        requires
            self.wf(),
        ensures
            !self@.contains_key(TRACES_TOPIC@) ==> r == 0,
    {
        self.publish(span_message(dto))
    }

    /// Publishes a metric on the metrics topic.
    pub fn publish_metric(&self, dto: MetricDto) -> (r: usize)
        requires
            self.wf(),
        ensures
            !self@.contains_key(METRICS_TOPIC@) ==> r == 0,
    {
        self.publish(metric_message(dto))
    }
}

/// Once client `c` has left every topic, no topic lists it any more; every
/// remaining topic keeps its other subscribers in their order; and a topic
/// that listed `c` alone has lost its channel, so that publishing there
/// reaches no one.
pub proof fn unsubscribed_client_is_forgotten(m: Map<Seq<char>, Seq<Seq<char>>>, c: Seq<char>)
    ensures
        forall|t: Seq<char>| #[trigger] after_unsubscribe_client(m, c).contains_key(t) ==> !after_unsubscribe_client(m, c)[t].contains(c),
        forall|t: Seq<char>| #[trigger] after_unsubscribe_client(m, c).contains_key(t) ==> m.contains_key(t) && after_unsubscribe_client(m, c)[t] == without(m[t], c),
        forall|t: Seq<char>| m.contains_key(t) && (forall|i: int| 0 <= i < m[t].len() ==> m[t][i] == c) ==> !#[trigger] after_unsubscribe_client(m, c).contains_key(t),
{
    let r = after_unsubscribe_client(m, c);
    let keep = other_than(c);
    assert forall|t: Seq<char>| #[trigger] r.contains_key(t) implies !r[t].contains(c) by {
        let f = m[t].filter(keep);
        if f.contains(c) {
            let j = choose|j: int| 0 <= j < f.len() && f[j] == c;
            m[t].lemma_filter_pred(keep, j);
        }
    }
    assert forall|t: Seq<char>| m.contains_key(t) && (forall|i: int| 0 <= i < m[t].len() ==> m[t][i] == c) implies !#[trigger] r.contains_key(t) by {
        assert(m[t].all(|x: Seq<char>| !keep(x)));
        m[t].lemma_all_neg_filter_empty(keep);
    }
}

/// The registry where `c` has left each topic in `done` and no other.
pub open spec fn partly_unsubscribed(
    m: Map<Seq<char>, Seq<Seq<char>>>,
    c: Seq<char>,
    done: Seq<Seq<char>>,
) -> Map<Seq<char>, Seq<Seq<char>>> {
    Map::new(
        |t: Seq<char>| m.contains_key(t) && (!done.contains(t) || without(m[t], c).len() > 0),
        |t: Seq<char>|
            if done.contains(t) {
                without(m[t], c)
            } else {
                m[t]
            },
    )
}

/// The client ids of `subs` other than `c`, in order.
fn without_client(subs: &Vec<String>, c: &String) -> (r: Vec<String>)
    ensures
        r@.map_values(|s: String| s@) == without(subs@.map_values(|s: String| s@), c@),
{
    let ghost sv = subs@.map_values(|s: String| s@);
    let mut out: Vec<String> = Vec::new();
    let mut i: usize = 0;
    assert(sv.take(0) =~= Seq::<Seq<char>>::empty());
    while i < subs.len()
        invariant
            i <= subs@.len(),
            sv == subs@.map_values(|s: String| s@),
            out@.map_values(|s: String| s@) == without(sv.take(i as int), c@),
        decreases subs@.len() - i,
    {
        let ghost before = out@;
        proof {
            sv.take(i as int).lemma_filter_push(sv[i as int], other_than(c@));
            assert(sv.take(i + 1) =~= sv.take(i as int).push(sv[i as int]));
        }
        if !(subs[i] == *c) {
            out.push(subs[i].clone());
            assert(out@.map_values(|s: String| s@) =~= before.map_values(|s: String| s@).push(
                sv[i as int],
            ));
        }
        i = i + 1;
    }
    assert(sv.take(subs@.len() as int) =~= sv);
    out
}

} // verus!
