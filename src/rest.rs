//! The HTTP surface, as functions from the parts of a request to a status
//! and a body. Routing, and the transport itself, stay with the web server.
use crate::headers::{find_header, header_lookup, headers_view, HeaderList, CALLBACK_HEADER};
use crate::ident::{id_text, new_id, parse_id, parsed_uuid, uuid_text};
use crate::models::{now_millis, Message, MessageView, Subscriber, Topic};
use crate::registry::{
    add_publisher_effect, plan_view, unsubscribe_effect, publish_effect, remove_publisher_effect, retract_effect, seen,
    touch_effect, unknown_publisher_text, Delivery, Registries,
};
use vstd::prelude::*;
use vstd::string::StringExecFns;

verus! {

/// The greeting at the root of the routes.
pub const GREETING: &'static str = "Hello from Pub-Sub-Server!";

/// The body of the answer to a subscription without a callback.
pub const NO_HEADER_ERR: &'static str =
    "HTTP request must have Location header containing Uuid of a subscriber";

pub const OK: u16 = 200;

pub const BAD_REQUEST: u16 = 400;

pub const NOT_FOUND: u16 = 404;

/// An answer: a status code and, where there is one, a body.
#[derive(Debug)]
pub struct Response {
    pub status: u16,
    pub body: Option<String>,
}

/// An answer, and the deliveries to make once the registries are released.
#[derive(Debug)]
pub struct Routed {
    pub response: Response,
    pub deliveries: Vec<Delivery>,
}

/// An answer with `status` and no body.
pub open spec fn status_only(r: Response, status: u16) -> bool {
    r.status == status && r.body is None
}

/// An answer with `status` and the body `text`.
pub open spec fn answers_text(r: Response, status: u16, text: Seq<char>) -> bool {
    r.status == status && (r.body matches Some(b) && b@ == text)
}

/// The message that a publish or retract request describes.
pub open spec fn request_message(
    publisher: u128,
    topic: Seq<char>,
    subject: Seq<char>,
    headers: Seq<(Seq<char>, Seq<char>)>,
    body: Seq<char>,
) -> MessageView {
    MessageView { publisher, topic, subject, headers, body }
}

/// No registry changed.
pub open spec fn unchanged(before: Registries, after: Registries) -> bool {
    &&& after.pending@ == before.pending@
    &&& after.publishers@ == before.publishers@
    &&& after.active@ == before.active@
    &&& after.retained@ == before.retained@
}

fn status(code: u16) -> (r: Response)
    ensures
        status_only(r, code),
{
    Response { status: code, body: None }
}

fn text(code: u16, body: String) -> (r: Response)
    ensures
        answers_text(r, code, body@),
{
    Response { status: code, body: Some(body) }
}

fn bad_request() -> (r: Routed)
    ensures
        status_only(r.response, BAD_REQUEST),
        r.deliveries@.len() == 0,
{
    Routed { response: status(BAD_REQUEST), deliveries: Vec::new() }
}

/// `GET /`: the greeting.
pub fn index() -> (r: &'static str)
    ensures
        r@ == GREETING@,
{
    GREETING
}

/// `GET /subscribe/{topic}`: registers a pending subscriber whose callback
/// is the `Location` header and answers with its identifier; without that
/// header, 404 with an explanation.
pub fn subscribe(reg: &mut Registries, topic: Topic, headers: &HeaderList) -> (r: Response)
    requires
        old(reg).wf(),
    ensures
        final(reg).wf(),
        final(reg).publishers@ == old(reg).publishers@,
        final(reg).active@ == old(reg).active@,
        final(reg).retained@ == old(reg).retained@,
        match header_lookup(headers_view(headers@), CALLBACK_HEADER@) {
            None => answers_text(r, NOT_FOUND, NO_HEADER_ERR@) && final(reg).pending@ == old(
                reg,
            ).pending@,
            Some(c) => exists|id: u128|
                {
                    &&& answers_text(r, OK, uuid_text(id))
                    &&& #[trigger] final(reg).pending@.contains_key(id)
                    &&& final(reg).pending@[id].id == id
                    &&& final(reg).pending@[id].callback@ == c
                    &&& final(reg).pending@[id].topic == topic
                    &&& final(reg).pending@.remove(id) == old(reg).pending@.remove(id)
                },
        },
{
    match find_header(headers, CALLBACK_HEADER) {
        None => text(NOT_FOUND, String::from_str(NO_HEADER_ERR)),
        Some(callback) => {
            let ghost c = callback@;
            let id = new_id();
            reg.add_pending(Subscriber::with_id(id, callback, topic));
            assert(reg.pending@.remove(id) =~= old(reg).pending@.remove(id));
            let r = text(OK, id_text(id));
            assert(reg.pending@.contains_key(id));
            r
        },
    }
}

/// `DELETE /subscribe/{id}`: unsubscribes `id` and echoes it; 400 where
/// `id` is no identifier.
pub fn unsubscribe(reg: &mut Registries, id: &str) -> (r: Response)
    requires
        old(reg).wf(),
    ensures
        final(reg).wf(),
        match parsed_uuid(id@) {
            None => status_only(r, BAD_REQUEST) && unchanged(*old(reg), *final(reg)),
            Some(v) => {
                &&& answers_text(r, OK, uuid_text(v))
                &&& unsubscribe_effect(*old(reg), v, *final(reg))
            },
        },
{
    match parse_id(id) {
        None => status(BAD_REQUEST),
        Some(v) => {
            reg.remove_subscriber(v);
            text(OK, id_text(v))
        },
    }
}

/// `HEAD /subscribe/{id}`: confirms subscriber `id`, replaying the
/// retained messages of its topic to it; 200 also for an identifier that is
/// not pending, 400 where `id` is no identifier.
pub fn touch_subscriber(reg: &mut Registries, id: &str) -> (r: Routed)
    requires
        old(reg).wf(),
    ensures
        final(reg).wf(),
        match parsed_uuid(id@) {
            None => status_only(r.response, BAD_REQUEST) && unchanged(*old(reg), *final(reg))
                && r.deliveries@.len() == 0,
            Some(v) => status_only(r.response, OK) && touch_effect(
                *old(reg),
                v,
                *final(reg),
                plan_view(r.deliveries@),
            ),
        },
{
    match parse_id(id) {
        None => bad_request(),
        Some(v) => {
            let deliveries = reg.touch_subscriber(v);
            Routed { response: status(OK), deliveries }
        },
    }
}

/// `GET /publish/{id}`: adds publisher `id`, seen now, and echoes it; 400
/// where `id` is no identifier.
pub fn add_publisher(reg: &mut Registries, id: &str) -> (r: Response)
    requires
        old(reg).wf(),
    ensures
        final(reg).wf(),
        match parsed_uuid(id@) {
            None => status_only(r, BAD_REQUEST) && unchanged(*old(reg), *final(reg)),
            Some(v) => {
                &&& answers_text(r, OK, uuid_text(v))
                &&& exists|now: i64| #[trigger] add_publisher_effect(*old(reg), v, now, *final(reg))
            },
        },
{
    match parse_id(id) {
        None => status(BAD_REQUEST),
        Some(v) => {
            reg.add_publisher(v, now_millis());
            text(OK, id_text(v))
        },
    }
}

/// `DELETE /publish/{id}`: removes publisher `id` and retracts what it
/// retained; 400 where `id` is no identifier.
pub fn remove_publisher(reg: &mut Registries, id: &str) -> (r: Routed)
    requires
        old(reg).wf(),
    ensures
        final(reg).wf(),
        match parsed_uuid(id@) {
            None => status_only(r.response, BAD_REQUEST) && unchanged(*old(reg), *final(reg))
                && r.deliveries@.len() == 0,
            Some(v) => status_only(r.response, OK) && remove_publisher_effect(
                *old(reg),
                v,
                *final(reg),
                plan_view(r.deliveries@),
            ),
        },
{
    match parse_id(id) {
        None => bad_request(),
        Some(v) => {
            let deliveries = reg.remove_publisher(v);
            Routed { response: status(OK), deliveries }
        },
    }
}

/// `HEAD /publish/{id}`: records that publisher `id` was seen now; 404
/// with a text that names it for an unknown publisher, 400 where `id` is no
/// identifier.
pub fn touch_publisher(reg: &mut Registries, id: &str) -> (r: Response)
    requires
        old(reg).wf(),
    ensures
        final(reg).wf(),
        final(reg).pending@ == old(reg).pending@,
        final(reg).active@ == old(reg).active@,
        final(reg).retained@ == old(reg).retained@,
        match parsed_uuid(id@) {
            None => status_only(r, BAD_REQUEST) && final(reg).publishers@ == old(reg).publishers@,
            Some(v) => if old(reg).publishers@.contains_key(v) {
                status_only(r, OK) && exists|now: i64|
                    final(reg).publishers@ == old(reg).publishers@.insert(
                        v,
                        #[trigger] seen(v, now),
                    )
            } else {
                answers_text(r, NOT_FOUND, unknown_publisher_text(v)) && final(reg).publishers@
                    == old(reg).publishers@
            },
        },
{
    match parse_id(id) {
        None => status(BAD_REQUEST),
        Some(v) => match reg.touch_publisher(v, now_millis()) {
            Ok(()) => status(OK),
            Err(e) => text(NOT_FOUND, e),
        },
    }
}

/// `PUT /publish/{topic}/{publisher}/{subject}`: publishes the body under
/// the request's headers; 200 also for an unknown publisher, whose message
/// is ignored, 400 where `publisher` is no identifier.
pub fn publish(
    reg: &mut Registries,
    topic: Topic,
    publisher: &str,
    subject: String,
    headers: HeaderList,
    body: String,
) -> (r: Routed)
    requires
        old(reg).wf(),
    ensures
        final(reg).wf(),
        match parsed_uuid(publisher@) {
            None => status_only(r.response, BAD_REQUEST) && unchanged(*old(reg), *final(reg))
                && r.deliveries@.len() == 0,
            Some(v) => status_only(r.response, OK) && exists|now: i64|
                #[trigger] publish_effect(
                    *old(reg),
                    request_message(v, topic@, subject@, headers_view(headers@), body@),
                    now,
                    *final(reg),
                    plan_view(r.deliveries@),
                ),
        },
{
    match parse_id(publisher) {
        None => bad_request(),
        Some(v) => {
            let now = now_millis();
            let m = Message { publisher: v, topic, subject, headers, body };
            let ghost mv = m@;
            let deliveries = reg.publish_message(m, now);
            assert(mv == request_message(v, topic@, subject@, headers_view(headers@), body@));
            let r = Routed { response: status(OK), deliveries };
            assert(publish_effect(
                    *old(reg),
                    request_message(v, topic@, subject@, headers_view(headers@), body@),
                    now,
                    *reg,
                    plan_view(r.deliveries@),
                ));
            r
        },
    }
}

/// `DELETE /publish/{topic}/{publisher}/{subject}`: retracts the message
/// with that key, telling the topic's active subscribers; 200 also for an
/// unknown publisher, 400 where `publisher` is no identifier.
pub fn remove(
    reg: &mut Registries,
    publisher: &str,
    topic: Topic,
    subject: String,
    headers: HeaderList,
) -> (r: Routed)
    requires
        old(reg).wf(),
    ensures
        final(reg).wf(),
        match parsed_uuid(publisher@) {
            None => status_only(r.response, BAD_REQUEST) && unchanged(*old(reg), *final(reg))
                && r.deliveries@.len() == 0,
            Some(v) => status_only(r.response, OK) && exists|now: i64|
                #[trigger] retract_effect(
                    *old(reg),
                    request_message(v, topic@, subject@, headers_view(headers@), Seq::empty()),
                    now,
                    *final(reg),
                    plan_view(r.deliveries@),
                ),
        },
{
    match parse_id(publisher) {
        None => bad_request(),
        Some(v) => {
            let now = now_millis();
            let m = Message { publisher: v, topic, subject, headers, body: String::new() };
            let ghost mv = m@;
            let deliveries = reg.remove(m, now);
            assert(mv == request_message(v, topic@, subject@, headers_view(headers@), Seq::empty()));
            let r = Routed { response: status(OK), deliveries };
            assert(retract_effect(
                *old(reg),
                request_message(v, topic@, subject@, headers_view(headers@), Seq::empty()),
                now,
                *reg,
                plan_view(r.deliveries@),
            ));
            r
        },
    }
}

} // verus!
