use pub_sub_server::models::Message;
use pub_sub_server::registry::{DeliveryKind, Registries};
use pub_sub_server::rest;
use pub_sub_server::server::PubSubServer;
use pub_sub_server::subscribers::{callback_url, dispatch, CodeReason, Subscribers};
use std::sync::RwLock;

const PUBLISHER: &str = "8dbdd47c-cb61-44b2-8919-bd44a87fcd48";

/// Records every call; fails the first `fail_first` deliveries of messages.
struct Recorder {
    fail_first: usize,
    published: RwLock<Vec<(String, Message)>>,
    removed: RwLock<Vec<(String, Message)>>,
}

impl Subscribers for Recorder {
    fn publish_message(&self, callback: &String, msg: &Message) -> Result<&str, CodeReason> {
        let mut p = self.published.write().unwrap();
        p.push((callback.clone(), msg.clone()));
        if p.len() <= self.fail_first {
            Err((500, "Internal Server Error"))
        } else {
            Ok("OK")
        }
    }

    fn remove_message(&self, callback: &String, msg: &Message) -> Result<&str, CodeReason> {
        self.removed.write().unwrap().push((callback.clone(), msg.clone()));
        Err((500, "Internal Server Error"))
    }
}

fn server(fail_first: usize) -> PubSubServer<Recorder> {
    PubSubServer::with_service(Recorder {
        fail_first,
        published: RwLock::new(Vec::new()),
        removed: RwLock::new(Vec::new()),
    })
}

fn pairs(items: &[(&str, &str)]) -> Vec<(String, String)> {
    items.iter().map(|(k, v)| (k.to_string(), v.to_string())).collect()
}

fn message(subject: &str, body: &str) -> Message {
    Message {
        publisher: 0x8dbdd47c_cb61_44b2_8919_bd44a87fcd48,
        topic: "news".to_string(),
        subject: subject.to_string(),
        headers: Vec::new(),
        body: body.to_string(),
    }
}

fn subscribe_and_touch(s: &mut PubSubServer<Recorder>, topic: &str, callback: &str) -> String {
    let res = rest::subscribe(&mut s.registries, topic.to_string(), &pairs(&[("Location", callback)]));
    let id = res.body.unwrap();
    let routed = rest::touch_subscriber(&mut s.registries, &id);
    assert_eq!(s.serve(routed).status, 200);
    id
}

fn put(s: &mut PubSubServer<Recorder>, topic: &str, subject: &str, headers: Vec<(String, String)>, body: &str) -> u16 {
    let routed = rest::publish(
        &mut s.registries,
        topic.to_string(),
        PUBLISHER,
        subject.to_string(),
        headers,
        body.to_string(),
    );
    s.serve(routed).status
}

#[test]
fn index_greets() {
    assert_eq!(rest::index(), "Hello from Pub-Sub-Server!");
}

#[test]
fn subscribe_without_location_is_not_found() {
    let mut reg = Registries::new();
    let res = rest::subscribe(&mut reg, "topic1".to_string(), &pairs(&[("Host", "x")]));
    assert_eq!(res.status, 404);
    assert_eq!(res.body.unwrap(), rest::NO_HEADER_ERR);
    assert!(reg.pending.is_empty());
}

#[test]
fn subscribe_registers_pending() {
    let mut reg = Registries::new();
    let res = rest::subscribe(&mut reg, "t".to_string(), &pairs(&[("Location", "http://cb/")]));
    assert_eq!(res.status, 200);
    assert_eq!(reg.pending.len(), 1);
    let sub = reg.pending.values().next().unwrap();
    assert_eq!(sub.callback, "http://cb/");
    assert_eq!(sub.topic, "t");
    assert!(reg.active.is_empty());
}

#[test]
fn malformed_ids_are_bad_requests() {
    let mut reg = Registries::new();
    let bad = "not-an-id";
    assert_eq!(rest::unsubscribe(&mut reg, bad).status, 400);
    assert_eq!(rest::touch_subscriber(&mut reg, bad).response.status, 400);
    assert_eq!(rest::add_publisher(&mut reg, bad).status, 400);
    assert_eq!(rest::remove_publisher(&mut reg, bad).response.status, 400);
    assert_eq!(rest::touch_publisher(&mut reg, bad).status, 400);
    let routed = rest::publish(&mut reg, "t".to_string(), bad, "s".to_string(), Vec::new(), "b".to_string());
    assert_eq!(routed.response.status, 400);
    let routed = rest::remove(&mut reg, bad, "t".to_string(), "s".to_string(), Vec::new());
    assert_eq!(routed.response.status, 400);
    assert!(reg.publishers.is_empty());
}

#[test]
fn identifiers_are_echoed_in_canonical_form() {
    let mut reg = Registries::new();
    let res = rest::add_publisher(&mut reg, "8DBDD47C-CB61-44B2-8919-BD44A87FCD48");
    assert_eq!(res.body.unwrap(), PUBLISHER);
    assert!(reg.publishers.contains_key(&0x8dbdd47c_cb61_44b2_8919_bd44a87fcd48));
    let res = rest::unsubscribe(&mut reg, "{355f2e4f-554b-47d7-aca8-122a6cec9f26}");
    assert_eq!(res.body.unwrap(), "355f2e4f-554b-47d7-aca8-122a6cec9f26");
}

#[test]
fn touch_unknown_publisher_names_it() {
    let mut reg = Registries::new();
    let res = rest::touch_publisher(&mut reg, PUBLISHER);
    assert_eq!(res.status, 404);
    assert_eq!(
        res.body.unwrap(),
        "Touching unknown publisher with id: 8dbdd47c-cb61-44b2-8919-bd44a87fcd48"
    );
}

#[test]
fn publish_of_unknown_publisher_is_ignored() {
    let mut s = server(0);
    assert_eq!(put(&mut s, "news", "a", Vec::new(), "x"), 200);
    assert!(s.registries.retained.is_empty());
    subscribe_and_touch(&mut s, "news", "http://cb/");
    assert!(s.subs_service.published.read().unwrap().is_empty());
}

#[test]
fn retained_headers_are_decoded() {
    let mut s = server(0);
    rest::add_publisher(&mut s.registries, PUBLISHER);
    let h = pairs(&[("info-color", "red"), ("Accept", "*/*")]);
    assert_eq!(put(&mut s, "news", "a", h, "x"), 200);
    assert_eq!(s.registries.retained.len(), 1);
    assert_eq!(s.registries.retained[0].headers, pairs(&[("color", "red"), ("Accept", "*/*")]));
}

#[test]
fn republish_replaces_retained_message() {
    let mut s = server(0);
    rest::add_publisher(&mut s.registries, PUBLISHER);
    put(&mut s, "news", "a", Vec::new(), "first");
    put(&mut s, "news", "a", Vec::new(), "second");
    put(&mut s, "news", "b", Vec::new(), "other");
    put(&mut s, "sport", "a", Vec::new(), "elsewhere");
    assert_eq!(s.registries.retained.len(), 3);
    subscribe_and_touch(&mut s, "news", "http://cb/");
    let published = s.subs_service.published.read().unwrap();
    let bodies: Vec<&str> = published.iter().map(|(_, m)| m.body.as_str()).collect();
    assert_eq!(bodies, vec!["second", "other"]);
}

#[test]
fn fan_out_reaches_active_subscribers_of_the_topic() {
    let mut s = server(0);
    rest::add_publisher(&mut s.registries, PUBLISHER);
    subscribe_and_touch(&mut s, "news", "http://one/");
    subscribe_and_touch(&mut s, "sport", "http://two/");
    subscribe_and_touch(&mut s, "news", "http://three/");
    put(&mut s, "news", "a", Vec::new(), "x");
    let published = s.subs_service.published.read().unwrap();
    let callbacks: Vec<&str> = published.iter().map(|(c, _)| c.as_str()).collect();
    assert_eq!(callbacks, vec!["http://one/", "http://three/"]);
}

#[test]
fn failed_delivery_unsubscribes() {
    let mut s = server(1);
    rest::add_publisher(&mut s.registries, PUBLISHER);
    subscribe_and_touch(&mut s, "news", "http://cb/");
    assert_eq!(s.registries.active.len(), 1);
    put(&mut s, "news", "a", Vec::new(), "x");
    assert_eq!(s.subs_service.published.read().unwrap().len(), 1);
    assert!(s.registries.active.is_empty());
    put(&mut s, "news", "a", Vec::new(), "y");
    assert_eq!(s.subs_service.published.read().unwrap().len(), 1);
}

#[test]
fn failed_retraction_keeps_subscriber() {
    let mut s = server(0);
    rest::add_publisher(&mut s.registries, PUBLISHER);
    put(&mut s, "news", "a", Vec::new(), "x");
    subscribe_and_touch(&mut s, "news", "http://cb/");
    let routed = rest::remove(&mut s.registries, PUBLISHER, "news".to_string(), "a".to_string(), Vec::new());
    assert_eq!(s.serve(routed).status, 200);
    assert!(s.registries.retained.is_empty());
    assert_eq!(s.registries.active.len(), 1);
    let removed = s.subs_service.removed.read().unwrap();
    assert_eq!(removed.len(), 1);
    assert_eq!(removed[0].0, "http://cb/");
    assert_eq!(removed[0].1.subject, "a");
    assert_eq!(removed[0].1.body, "");
}

#[test]
fn remove_publisher_retracts_everything_it_retained() {
    let mut s = server(0);
    rest::add_publisher(&mut s.registries, PUBLISHER);
    put(&mut s, "news", "a", Vec::new(), "x");
    put(&mut s, "news", "b", Vec::new(), "y");
    put(&mut s, "sport", "c", Vec::new(), "z");
    subscribe_and_touch(&mut s, "news", "http://one/");
    subscribe_and_touch(&mut s, "news", "http://two/");
    let routed = rest::remove_publisher(&mut s.registries, PUBLISHER);
    assert_eq!(routed.deliveries.len(), 4);
    assert!(routed.deliveries.iter().all(|d| d.kind == DeliveryKind::Remove && d.message.body.is_empty()));
    s.serve(routed);
    assert!(s.registries.retained.is_empty());
    assert!(s.registries.publishers.is_empty());
    assert_eq!(s.subs_service.removed.read().unwrap().len(), 4);
}

#[test]
fn unsubscribe_twice_is_unsubscribe_once() {
    let mut s = server(0);
    let id = subscribe_and_touch(&mut s, "news", "http://cb/");
    subscribe_and_touch(&mut s, "news", "http://other/");
    rest::unsubscribe(&mut s.registries, &id);
    let once: Vec<String> = s.registries.active.iter().map(|x| x.callback.clone()).collect();
    rest::unsubscribe(&mut s.registries, &id);
    let twice: Vec<String> = s.registries.active.iter().map(|x| x.callback.clone()).collect();
    assert_eq!(once, twice);
    assert_eq!(once, vec!["http://other/".to_string()]);
}

#[test]
fn unsubscribe_leaves_pending_alone() {
    let mut reg = Registries::new();
    let res = rest::subscribe(&mut reg, "t".to_string(), &pairs(&[("Location", "cb")]));
    let id = res.body.unwrap();
    rest::unsubscribe(&mut reg, &id);
    assert_eq!(reg.pending.len(), 1);
}

#[test]
fn add_publisher_twice_keeps_one_record() {
    let mut reg = Registries::new();
    rest::add_publisher(&mut reg, PUBLISHER);
    rest::add_publisher(&mut reg, PUBLISHER);
    assert_eq!(reg.publishers.len(), 1);
    assert_eq!(rest::touch_publisher(&mut reg, PUBLISHER).status, 200);
}

#[test]
fn touch_confirms_once() {
    let mut s = server(0);
    rest::add_publisher(&mut s.registries, PUBLISHER);
    put(&mut s, "news", "a", Vec::new(), "x");
    let id = subscribe_and_touch(&mut s, "news", "http://cb/");
    assert!(s.registries.pending.is_empty());
    let routed = rest::touch_subscriber(&mut s.registries, &id);
    assert!(routed.deliveries.is_empty());
    s.serve(routed);
    assert_eq!(s.registries.active.len(), 1);
    assert_eq!(s.subs_service.published.read().unwrap().len(), 1);
}

#[test]
fn dispatch_reports_each_outcome() {
    let mut s = server(1);
    rest::add_publisher(&mut s.registries, PUBLISHER);
    subscribe_and_touch(&mut s, "news", "http://one/");
    subscribe_and_touch(&mut s, "news", "http://two/");
    let plan = s.registries.publish_message(message("a", "x"), 0);
    let outcomes = dispatch(&s.subs_service, &plan);
    assert_eq!(outcomes, vec![false, true]);
    s.registries.apply_outcomes(&plan, &outcomes);
    assert_eq!(s.registries.active.len(), 1);
    assert_eq!(s.registries.active[0].callback, "http://two/");
}

#[test]
fn callback_urls_name_topic_publisher_and_subject() {
    let m = message("s1", "x");
    assert_eq!(
        callback_url(DeliveryKind::Publish, "http://cb:9000/", &m),
        "http://cb:9000/receive/news/8dbdd47c-cb61-44b2-8919-bd44a87fcd48/s1"
    );
    assert_eq!(
        callback_url(DeliveryKind::Remove, "http://cb:9000/", &m),
        "http://cb:9000/remove/news/8dbdd47c-cb61-44b2-8919-bd44a87fcd48/s1"
    );
}
