//! A device connected to the MQTT endpoint: where it connects, how it
//! authenticates, and how the messages it receives are kept per topic.
use crate::init::info::Information;
use crate::text::{joined, decimal, decimal_string, owned};
use crate::tools::auth::Auth;
use crate::tools::mqtt::receiver::{MqttMessage, MqttMessageView};
use crate::tools::mqtt::{scrub_uri, scrubbed, MqttQoS, MqttVariant};
use vstd::prelude::*;

verus! {

/// The URI of the MQTT endpoint: `ssl://<host>:<port>`.
pub fn endpoint_uri(info: &Information) -> (r: String)
    ensures
        r@ == "ssl://"@ + info.mqtt.host@ + ":"@ + decimal(info.mqtt.port as nat),
{
    let scheme_host = joined("ssl://", info.mqtt.host.as_str());
    let with_colon = joined(scheme_host.as_str(), ":");
    let port = decimal_string(info.mqtt.port as u64);
    joined(with_colon.as_str(), port.as_str())
}

/// The URI a device connects to: the plain endpoint (`ssl://<host>:<port>`)
/// or, over WebSocket, the MQTT WebSocket URL without trailing slashes
/// followed by `/mqtt`.
pub fn device_uri(info: &Information, variant: MqttVariant) -> (r: String)
    ensures
        variant is Plain ==> r@ == "ssl://"@ + info.mqtt.host@ + ":"@ + decimal(
            info.mqtt.port as nat,
        ),
        variant is WebSocket ==> r@ == scrubbed(info.mqtt_ws.url@),
{
    match variant {
        MqttVariant::Plain(_) => endpoint_uri(info),
        MqttVariant::WebSocket(_) => scrub_uri(info.mqtt_ws.url.as_str()),
    }
}

/// How a device presents its credentials to the broker.
#[derive(Clone, Debug)]
pub enum MqttCredentials {
    Anonymous,
    /// User name and password in the CONNECT packet.
    UserPassword(String, String),
    /// A client certificate (key store) on the TLS connection.
    ClientCertificate(Vec<u8>),
}

/// The credentials for an authentication.
pub fn credentials(auth: &Auth) -> (r: MqttCredentials)
    ensures
        auth is NoCredentials <==> r is Anonymous,
        auth matches Auth::UsernamePassword(u, p) ==> (r matches MqttCredentials::UserPassword(
            ru,
            rp,
        ) && ru@ == u@ && rp@ == p@),
        auth matches Auth::X509Certificate(c) ==> (r matches MqttCredentials::ClientCertificate(
            rc,
        ) && rc@ == c@),
{
    match auth {
        Auth::NoCredentials => MqttCredentials::Anonymous,
        Auth::UsernamePassword(u, p) => MqttCredentials::UserPassword(u.clone(), p.clone()),
        Auth::X509Certificate(c) => MqttCredentials::ClientCertificate(c.clone()),
    }
}

/// The subscription for commands: the given topic filter (such as
/// `command/inbox/#` or `command/inbox/<device>/#`) at QoS 0.
pub fn command_subscription(filter: &str) -> (r: (String, MqttQoS))
    ensures
        r.0@ == filter@,
        r.1 == MqttQoS::QoS0,
{
    (owned(filter), MqttQoS::QoS0)
}

/// A copy of a message.
pub fn copy_message(m: &MqttMessage) -> (r: MqttMessage)
    ensures
        r@ == m@,
{
    let mut props: Vec<(String, String)> = Vec::new();
    let mut i: usize = 0;
    while i < m.user_properties.len()
        invariant
            i <= m.user_properties@.len(),
            props@.len() == i,
            forall|j: int|
                0 <= j < i ==> (#[trigger] props@[j]).0@ == m.user_properties@[j].0@ && props@[j].1@
                    == m.user_properties@[j].1@,
        decreases m.user_properties@.len() - i,
    {
        let (k, v) = &m.user_properties[i];
        props.push((k.clone(), v.clone()));
        i = i + 1;
    }
    let r = MqttMessage {
        topic: m.topic.clone(),
        user_properties: props,
        content_type: m.content_type.clone(),
        payload: m.payload.clone(),
    };
    assert(r@.user_properties =~= m@.user_properties);
    r
}

/// The views of a list of messages.
pub open spec fn messages_view(v: Seq<MqttMessage>) -> Seq<MqttMessageView> {
    v.map_values(|m: MqttMessage| m@)
}

/// The number of messages in all buckets.
pub open spec fn total(buckets: Seq<Vec<MqttMessage>>) -> int
    decreases buckets.len(),
{
    if buckets.len() == 0 {
        0
    } else {
        total(buckets.drop_last()) + buckets.last()@.len()
    }
}

proof fn lemma_total_update(buckets: Seq<Vec<MqttMessage>>, i: int, b: Vec<MqttMessage>)
    requires
        0 <= i < buckets.len(),
    ensures
        total(buckets.update(i, b)) == total(buckets) - buckets[i]@.len() + b@.len(),
    decreases buckets.len(),
{
    let u = buckets.update(i, b);
    if i == buckets.len() - 1 {
        assert(u.drop_last() =~= buckets.drop_last());
    } else {
        lemma_total_update(buckets.drop_last(), i, b);
        assert(u.drop_last() =~= buckets.drop_last().update(i, b));
    }
}

proof fn lemma_total_prefix(buckets: Seq<Vec<MqttMessage>>, i: int)
    requires
        0 <= i <= buckets.len(),
    ensures
        total(buckets.take(i)) <= total(buckets),
    decreases buckets.len() - i,
{
    if i < buckets.len() {
        lemma_total_prefix(buckets, i + 1);
        assert(buckets.take(i + 1).drop_last() =~= buckets.take(i));
    } else {
        assert(buckets.take(i) =~= buckets);
    }
}

/// Where a topic is in a list of topics.
fn position(topics: &Vec<String>, topic: &str) -> (r: Option<usize>)
    ensures
        match r {
            Some(i) => i < topics@.len() && topics@[i as int]@ == topic@,
            None => forall|i: int| 0 <= i < topics@.len() ==> topics@[i]@ != topic@,
        },
{
    let mut i: usize = 0;
    while i < topics.len()
        invariant
            i <= topics@.len(),
            forall|j: int| 0 <= j < i ==> topics@[j]@ != topic@,
        decreases topics@.len() - i,
    {
        if crate::text::str_equal(topics[i].as_str(), topic) {
            return Some(i);
        }
        i = i + 1;
    }
    None
}

/// The number of messages in the lists of a listing.
pub open spec fn listed_count(lists: Seq<(String, Vec<MqttMessage>)>) -> int {
    total(lists.map_values(|p: (String, Vec<MqttMessage>)| p.1))
}

proof fn lemma_total_same_lengths(a: Seq<Vec<MqttMessage>>, b: Seq<Vec<MqttMessage>>)
    requires
        a.len() == b.len(),
        forall|k: int| 0 <= k < a.len() ==> a[k]@.len() == b[k]@.len(),
    ensures
        total(a) == total(b),
    decreases a.len(),
{
    if a.len() > 0 {
        lemma_total_same_lengths(a.drop_last(), b.drop_last());
    }
}

/// The messages a device received, kept per topic in the order of arrival.
pub struct MessageDispatcher {
    topics: Vec<String>,
    buckets: Vec<Vec<MqttMessage>>,
}

impl MessageDispatcher {
    /// Each topic has one bucket, no topic occurs twice, and every bucket
    /// holds at least one message.
    #[verifier::type_invariant]
    spec fn wf(&self) -> bool {
        &&& self.topics@.len() == self.buckets@.len()
        &&& forall|i: int| 0 <= i < self.buckets@.len() ==> (#[trigger] self.buckets@[i])@.len() > 0
        &&& forall|i: int, j: int|
            0 <= i < j < self.topics@.len() ==> #[trigger] self.topics@[i]@
                != #[trigger] self.topics@[j]@
    }

    /// The topics that messages arrived on.
    pub closed spec fn topics(&self) -> Set<Seq<char>> {
        Set::new(|t: Seq<char>| exists|i: int| 0 <= i < self.topics@.len() && self.topics@[i]@ == t)
    }

    /// The messages that arrived on a topic, in order.
    pub closed spec fn messages_for(&self, topic: Seq<char>) -> Seq<MqttMessageView> {
        if exists|i: int| 0 <= i < self.topics@.len() && self.topics@[i]@ == topic {
            let i = choose|i: int| 0 <= i < self.topics@.len() && self.topics@[i]@ == topic;
            messages_view(self.buckets@[i]@)
        } else {
            Seq::empty()
        }
    }

    /// The number of messages that arrived.
    pub closed spec fn count(&self) -> int {
        total(self.buckets@)
    }

    pub fn new() -> (r: Self)
        ensures
            r.count() == 0,
            r.topics() == Set::<Seq<char>>::empty(),
            forall|t: Seq<char>| r.messages_for(t) == Seq::<MqttMessageView>::empty(),
    {
        let r = MessageDispatcher { topics: Vec::new(), buckets: Vec::new() };
        assert(r.topics() =~= Set::<Seq<char>>::empty());
        r
    }

    /// Keeps a message under its topic.
    pub fn dispatch(&mut self, message: MqttMessage)
        ensures
            final(self).topics() == old(self).topics().insert(message@.topic),
            final(self).messages_for(message@.topic) == old(self).messages_for(message@.topic).push(
                message@,
            ),
            forall|t: Seq<char>|
                t != message@.topic ==> final(self).messages_for(t) == old(self).messages_for(t),
            final(self).count() == old(self).count() + 1,
    {
        proof {
            use_type_invariant(&*self);
        }
        let ghost topic = message@.topic;
        let ghost m = message@;
        let mut current = MessageDispatcher::new();
        std::mem::swap(self, &mut current);
        let MessageDispatcher { mut topics, mut buckets } = current;
        match position(&topics, message.topic.as_str()) {
            Some(i) => {
                let ghost old_buckets = buckets@;
                let mut bucket: Vec<MqttMessage> = Vec::new();
                buckets.set_and_swap(i, &mut bucket);
                bucket.push(message);
                buckets.set(i, bucket);
                *self = MessageDispatcher { topics, buckets };
                proof {
                    lemma_total_update(old_buckets, i as int, bucket);
                    assert(self.buckets@ =~= old_buckets.update(i as int, bucket));
                    assert(messages_view(bucket@) =~= messages_view(old_buckets[i as int]@).push(m));
                    assert forall|t: Seq<char>| #![trigger self.messages_for(t)] true implies
                        self.messages_for(t) == (if t == topic {
                        old(self).messages_for(t).push(m)
                    } else {
                        old(self).messages_for(t)
                    }) by {
                        if exists|j: int| 0 <= j < self.topics@.len() && self.topics@[j]@ == t {
                            let j = choose|j: int| 0 <= j < self.topics@.len() && self.topics@[j]@ == t;
                            if t == topic {
                                assert(j == i);
                            } else {
                                assert(j != i);
                            }
                        }
                    }
                    assert(self.topics() =~= old(self).topics().insert(topic));
                }
            },
            None => {
                let ghost old_topics = topics@;
                let ghost old_buckets = buckets@;
                let t = message.topic.clone();
                let mut bucket: Vec<MqttMessage> = Vec::new();
                bucket.push(message);
                topics.push(t);
                buckets.push(bucket);
                proof {
                    assert forall|a: int, b: int|
                        0 <= a < b < topics@.len() implies #[trigger] topics@[a]@
                        != #[trigger] topics@[b]@ by {
                        if b < old_topics.len() {
                            assert(old_topics[a]@ != old_topics[b]@);
                        }
                    }
                }
                *self = MessageDispatcher { topics, buckets };
                proof {
                    let n = old_topics.len() as int;
                    assert(self.buckets@.drop_last() =~= old_buckets);
                    assert(messages_view(bucket@) =~= seq![m]);
                    assert forall|t2: Seq<char>| #![trigger self.messages_for(t2)] true implies
                        self.messages_for(t2) == (if t2 == topic {
                        old(self).messages_for(t2).push(m)
                    } else {
                        old(self).messages_for(t2)
                    }) by {
                        if t2 == topic {
                            assert(self.topics@[n]@ == topic);
                            assert(!exists|j: int| 0 <= j < old_topics.len() && old_topics[j]@ == t2);
                        } else {
                            if exists|j: int| 0 <= j < self.topics@.len() && self.topics@[j]@ == t2 {
                                let j = choose|j: int|
                                    0 <= j < self.topics@.len() && self.topics@[j]@ == t2;
                                assert(j < n);
                                assert(old_topics[j]@ == t2);
                            }
                            if exists|j: int| 0 <= j < old_topics.len() && old_topics[j]@ == t2 {
                                let j = choose|j: int| 0 <= j < old_topics.len() && old_topics[j]@ == t2;
                                assert(self.topics@[j]@ == t2);
                            }
                        }
                    }
                    assert forall|t2: Seq<char>|
                        self.topics().contains(t2) == old(self).topics().insert(topic).contains(
                            t2,
                        ) by {
                        if t2 == topic {
                            assert(self.topics@[n]@ == topic);
                        } else {
                            if exists|j: int| 0 <= j < self.topics@.len() && self.topics@[j]@ == t2 {
                                let j = choose|j: int|
                                    0 <= j < self.topics@.len() && self.topics@[j]@ == t2;
                                assert(j < n);
                                assert(old_topics[j]@ == t2);
                            }
                            if exists|j: int| 0 <= j < old_topics.len() && old_topics[j]@ == t2 {
                                let j = choose|j: int| 0 <= j < old_topics.len() && old_topics[j]@ == t2;
                                assert(self.topics@[j]@ == t2);
                            }
                        }
                    }
                    assert(self.topics() =~= old(self).topics().insert(topic));
                }
            },
        }
    }

    /// The number of messages that arrived.
    pub fn num_messages(&self) -> (r: usize)
        requires
            self.count() <= usize::MAX,
        ensures
            r == self.count(),
    {
        let mut sum: usize = 0;
        let mut i: usize = 0;
        while i < self.buckets.len()
            invariant
                i <= self.buckets@.len(),
                sum == total(self.buckets@.take(i as int)),
                total(self.buckets@) <= usize::MAX,
            decreases self.buckets@.len() - i,
        {
            proof {
                assert(self.buckets@.take(i + 1).drop_last() =~= self.buckets@.take(i as int));
                lemma_total_prefix(self.buckets@, i + 1);
            }
            sum = sum + self.buckets[i].len();
            i = i + 1;
        }
        assert(self.buckets@.take(self.buckets@.len() as int) =~= self.buckets@);
        sum
    }

    /// The messages that arrived on each topic (topics in order of first
    /// arrival).
    pub fn fetch_messages(&self) -> (r: Vec<(String, Vec<MqttMessage>)>)
        ensures
            self.count() == listed_count(r@),
            forall|i: int| 0 <= i < r@.len() ==> (#[trigger] r@[i]).1@.len() > 0,
            forall|i: int, j: int|
                0 <= i < j < r@.len() ==> #[trigger] r@[i].0@ != #[trigger] r@[j].0@,
            forall|t: Seq<char>|
                self.topics().contains(t) <==> exists|i: int| 0 <= i < r@.len() && r@[i].0@ == t,
            forall|i: int|
                0 <= i < r@.len() ==> messages_view((#[trigger] r@[i]).1@) == self.messages_for(
                    r@[i].0@,
                ),
    {
        proof {
            use_type_invariant(self);
        }
        let mut r: Vec<(String, Vec<MqttMessage>)> = Vec::new();
        let mut i: usize = 0;
        while i < self.topics.len()
            invariant
                self.wf(),
                i <= self.topics@.len(),
                r@.len() == i,
                forall|k: int|
                    0 <= k < i ==> (#[trigger] r@[k]).0@ == self.topics@[k]@ && messages_view(
                        r@[k].1@,
                    ) == messages_view(self.buckets@[k]@),
            decreases self.topics@.len() - i,
        {
            let mut copies: Vec<MqttMessage> = Vec::new();
            let mut j: usize = 0;
            while j < self.buckets[i].len()
                invariant
                    self.wf(),
                    i < self.topics@.len(),
                    j <= self.buckets@[i as int]@.len(),
                    copies@.len() == j,
                    forall|k: int|
                        0 <= k < j ==> (#[trigger] copies@[k])@ == self.buckets@[i as int]@[k]@,
                decreases self.buckets@[i as int]@.len() - j,
            {
                copies.push(copy_message(&self.buckets[i][j]));
                j = j + 1;
            }
            assert(messages_view(copies@) =~= messages_view(self.buckets@[i as int]@));
            r.push((self.topics[i].clone(), copies));
            i = i + 1;
        }
        proof {
            assert forall|k: int| 0 <= k < r@.len() implies messages_view((#[trigger] r@[k]).1@)
                == self.messages_for(r@[k].0@) by {
                let t = r@[k].0@;
                assert(self.topics@[k]@ == t);
                let c = choose|c: int| 0 <= c < self.topics@.len() && self.topics@[c]@ == t;
                assert(c == k);
            }
            assert forall|t: Seq<char>|
                self.topics().contains(t) implies exists|k: int| 0 <= k < r@.len() && r@[k].0@ == t by {
                let c = choose|c: int| 0 <= c < self.topics@.len() && self.topics@[c]@ == t;
                assert(r@[c].0@ == t);
            }
            assert forall|a: int, b: int| 0 <= a < b < r@.len() implies #[trigger] r@[a].0@
                != #[trigger] r@[b].0@ by {
                assert(self.topics@[a]@ != self.topics@[b]@);
            }
            let lists = r@.map_values(|p: (String, Vec<MqttMessage>)| p.1);
            assert forall|k: int| 0 <= k < lists.len() implies lists[k]@.len()
                == self.buckets@[k]@.len() by {
                assert(messages_view(r@[k].1@).len() == r@[k].1@.len());
                assert(messages_view(self.buckets@[k]@).len() == self.buckets@[k]@.len());
            }
            lemma_total_same_lengths(lists, self.buckets@);
        }
        r
    }
}

} // verus!
