use pub_sub_server::models::Message;
use pub_sub_server::rest;
use pub_sub_server::server::PubSubServer;
use pub_sub_server::subscribers::{CodeReason, Subscribers};
use std::sync::RwLock;

const TOPIC_NAME: &str = "mytopic";
const SUBJECT_NAME: &str = "mysubject";
const MSG_BODY: &str = "test body";

struct MockSubscribers {
    pub_vec: RwLock<Vec<(String, Message)>>,
    remove_vec: RwLock<Vec<(String, Message)>>,
}

impl Subscribers for MockSubscribers {
    fn publish_message(&self, callback: &String, msg: &Message) -> Result<&str, CodeReason> {
        self.pub_vec.write().unwrap().push((callback.clone(), msg.clone()));
        Ok("ok")
    }

    fn remove_message(&self, callback: &String, msg: &Message) -> Result<&str, CodeReason> {
        self.remove_vec.write().unwrap().push((callback.clone(), msg.clone()));
        Ok("ok")
    }
}

fn new_client() -> PubSubServer<MockSubscribers> {
    PubSubServer::with_service(MockSubscribers {
        pub_vec: RwLock::new(Vec::new()),
        remove_vec: RwLock::new(Vec::new()),
    })
}

fn location(value: &str) -> Vec<(String, String)> {
    vec![("Location".to_string(), value.to_string())]
}

fn create_publisher(client: &mut PubSubServer<MockSubscribers>, id: &str) {
    let added = rest::add_publisher(&mut client.registries, id);
    let res_id = added.body.unwrap();
    assert_eq!(id, res_id)
}

fn remove_publisher(client: &mut PubSubServer<MockSubscribers>, id: &str) {
    let routed = rest::remove_publisher(&mut client.registries, id);
    let removed = client.serve(routed);
    assert!(removed.body.is_none());
}

fn publish_message(client: &mut PubSubServer<MockSubscribers>, id: &str) {
    let routed = rest::publish(
        &mut client.registries,
        TOPIC_NAME.to_string(),
        id,
        SUBJECT_NAME.to_string(),
        Vec::new(),
        MSG_BODY.to_string(),
    );
    let res = client.serve(routed);
    assert_eq!(200, res.status)
}

#[test]
fn subscribe() {
    let mut client = new_client();
    let res = rest::subscribe(&mut client.registries, "topic1".to_string(), &location("my_location"));
    assert_eq!(res.status, 200);
    assert!(res.body.is_some());
    let id = res.body.unwrap();
    assert_eq!(id.len(), 36);
}

#[test]
fn unsubscribe() {
    let mut client = new_client();
    let id = "355f2e4f-554b-47d7-aca8-122a6cec9f26";
    let res = rest::unsubscribe(&mut client.registries, id);
    assert_eq!(res.status, 200);
    assert!(res.body.is_some());
    let returned_id = res.body.unwrap();
    assert_eq!(returned_id, id);
}

#[test]
fn touch_subscriber() {
    let mut client = new_client();
    let subscribed = rest::subscribe(&mut client.registries, "topic1".to_string(), &location("my_location"));
    let id = subscribed.body.unwrap();

    let routed = rest::touch_subscriber(&mut client.registries, &id);
    let touched = client.serve(routed);
    assert_eq!(touched.status, 200);
    assert!(touched.body.is_none());

    let removed = rest::unsubscribe(&mut client.registries, &id);
    assert_eq!(removed.status, 200);

    let routed = rest::touch_subscriber(&mut client.registries, &id);
    let touched = client.serve(routed);
    assert_eq!(touched.status, 200);
}

#[test]
fn add_publisher() {
    let mut client = new_client();
    let id = "355f2e4f-554b-47d7-aca8-122a6cec9f26";
    create_publisher(&mut client, id);
}

#[test]
fn touch_remove_touch_publisher() {
    let mut client = new_client();
    let id = "355f2e4f-554b-47d7-aca8-122a6cec9f26";

    let added = rest::add_publisher(&mut client.registries, id);
    let res_id = added.body.unwrap();
    assert_eq!(id, res_id);

    let touched = rest::touch_publisher(&mut client.registries, id);
    assert!(touched.body.is_none());

    remove_publisher(&mut client, id);

    let touched = rest::touch_publisher(&mut client.registries, id);
    assert_eq!(404, touched.status);
    assert!(touched.body.is_some());
    let text = touched.body.unwrap();
    assert!(text.contains("Touching unknown publisher "));
}

#[test]
fn publish() {
    let mut client = new_client();
    let id = "355f2e4f-554b-47d7-aca8-122a6cec9f26";
    publish_message(&mut client, id);
}

#[test]
fn remove() {
    let mut client = new_client();
    let id = "355f2e4f-554b-47d7-aca8-122a6cec9f26";
    let routed = rest::remove(
        &mut client.registries,
        id,
        TOPIC_NAME.to_string(),
        SUBJECT_NAME.to_string(),
        Vec::new(),
    );
    let res = client.serve(routed);
    assert_eq!(200, res.status);
}

#[test]
fn publish_subscriber_scenario() {
    let publisher_id = "8dbdd47c-cb61-44b2-8919-bd44a87fcd48";
    let mut client = new_client();
    create_publisher(&mut client, publisher_id);
    publish_message(&mut client, publisher_id);
    let location_url = "http://subscriber1:9000";

    let subscribed = rest::subscribe(&mut client.registries, TOPIC_NAME.to_string(), &location(location_url));
    let subscriber_id = subscribed.body.unwrap();

    let routed = rest::touch_subscriber(&mut client.registries, &subscriber_id);
    let touched = client.serve(routed);
    assert_eq!(touched.status, 200);

    {
        let published = client.subs_service.pub_vec.read().unwrap();
        assert_eq!(published.len(), 1);
        let (callback, msg) = &published[0];
        assert_eq!(&location_url, callback);
        assert_eq!(TOPIC_NAME, msg.topic);
        assert_eq!(SUBJECT_NAME, msg.subject);
        assert_eq!(MSG_BODY, msg.body);
    }

    remove_publisher(&mut client, publisher_id);
    let removed = client.subs_service.remove_vec.read().unwrap();
    assert_eq!(removed.len(), 1);
    let (callback, msg) = &removed[0];
    assert_eq!(&location_url, callback);
    assert_eq!(TOPIC_NAME, msg.topic);
    assert_eq!(SUBJECT_NAME, msg.subject);
    assert_eq!("", msg.body);
}
