//! Subscribers, publishers and messages.
use crate::headers::{headers_view, HeaderList};
use crate::ident::new_id;
use vstd::prelude::*;

verus! {

/// A topic: the free-form name that partitions the message space.
pub type Topic = String;

/// A subject: names a message within its topic and publisher.
pub type Subject = String;

/// A subscriber: its identifier, the callback prefix that deliveries go to,
/// and the topic it listens on.
#[derive(Debug)]
pub struct Subscriber {
    pub id: u128,
    pub callback: String,
    pub topic: Topic,
}

impl Subscriber {
    /// A subscriber with the given identifier.
    pub fn with_id(id: u128, callback: String, topic: Topic) -> (r: Self)
        ensures
            r == (Subscriber { id, callback, topic }),
    {
        Subscriber { id, callback, topic }
    }

    /// A subscriber under a new random identifier.
    pub fn new(callback: String, topic: Topic) -> (r: Self)
        ensures
            r.callback == callback,
            r.topic == topic,
    {
        Subscriber::with_id(new_id(), callback, topic)
    }
}

impl Clone for Subscriber {
    fn clone(&self) -> (r: Self)
        ensures
            r == *self,
    {
        Subscriber { id: self.id, callback: self.callback.clone(), topic: self.topic.clone() }
    }
}

/// Relies on `chrono::Local::now` and `DateTime::timestamp_millis`: the
/// current time in milliseconds since the Unix epoch, of which nothing is
/// promised.
#[verifier::external_body]
pub(crate) fn now_millis() -> (r: i64) {
    chrono::Local::now().timestamp_millis()
}

/// A publisher and the time, in milliseconds since the Unix epoch, at which
/// it was last heard from.
#[derive(Debug)]
pub struct Publisher {
    pub id: u128,
    pub last_seen: i64,
}

impl Publisher {
    /// A publisher last seen at `now`.
    pub fn seen_at(id: u128, now: i64) -> (r: Self)
        ensures
            r.id == id,
            r.last_seen == now,
    {
        Publisher { id, last_seen: now }
    }

    /// A publisher last seen now.
    pub fn new(id: u128) -> (r: Self)
        ensures
            r.id == id,
    {
        Publisher::seen_at(id, now_millis())
    }

    /// Records that the publisher was seen at `now`.
    pub fn touch_at(&mut self, now: i64)
        ensures
            final(self).id == old(self).id,
            final(self).last_seen == now,
    {
        self.last_seen = now;
    }

    /// Records that the publisher was seen now.
    pub fn touch(&mut self)
        ensures
            final(self).id == old(self).id,
    {
        self.touch_at(now_millis());
    }
}

/// The abstract value of a message.
pub struct MessageView {
    pub publisher: u128,
    pub topic: Seq<char>,
    pub subject: Seq<char>,
    pub headers: Seq<(Seq<char>, Seq<char>)>,
    pub body: Seq<char>,
}

/// Where a message is retained: topic, publisher and subject.
pub type MessageKey = (Seq<char>, u128, Seq<char>);

impl MessageView {
    /// The key the message is retained under.
    pub open spec fn key(self) -> MessageKey {
        (self.topic, self.publisher, self.subject)
    }
}

/// A message: who published it, under which topic and subject, with its
/// headers and body.
#[derive(Debug)]
pub struct Message {
    pub publisher: u128,
    pub topic: Topic,
    pub subject: Subject,
    pub headers: HeaderList,
    pub body: String,
}

impl View for Message {
    type V = MessageView;

    open spec fn view(&self) -> MessageView {
        MessageView {
            publisher: self.publisher,
            topic: self.topic@,
            subject: self.subject@,
            headers: headers_view(self.headers@),
            body: self.body@,
        }
    }
}

/// A copy of a header list.
pub fn clone_headers(h: &HeaderList) -> (r: HeaderList)
    ensures
        headers_view(r@) == headers_view(h@),
{
    let mut r: HeaderList = Vec::new();
    let mut i: usize = 0;
    while i < h.len()
        invariant
            i <= h@.len(),
            headers_view(r@) =~= headers_view(h@).take(i as int),
        decreases h@.len() - i,
    {
        let ghost before = r@;
        r.push((h[i].0.clone(), h[i].1.clone()));
        assert(headers_view(r@) =~= headers_view(before).push(headers_view(h@)[i as int]));
        i = i + 1;
        assert(headers_view(r@) =~= headers_view(h@).take(i as int));
    }
    assert(headers_view(h@).take(h@.len() as int) =~= headers_view(h@));
    r
}

impl Message {
    /// The same message with its headers replaced.
    pub fn with_headers(self, h: HeaderList) -> (r: Message)
        ensures
            r@ == (MessageView { headers: headers_view(h@), ..self@ }),
    {
        Message { headers: h, ..self }
    }
}

impl Clone for Message {
    fn clone(&self) -> (r: Self)
        ensures
            r@ == self@,
    {
        Message {
            publisher: self.publisher,
            topic: self.topic.clone(),
            subject: self.subject.clone(),
            headers: clone_headers(&self.headers),
            body: self.body.clone(),
        }
    }
}

} // verus!
