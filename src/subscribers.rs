//! The delivery client: the seam between the broker and the subscribers'
//! callbacks.
use crate::ident::{id_text, uuid_text};
use crate::models::{Message, MessageView};
use crate::registry::{Delivery, DeliveryKind};
use vstd::prelude::*;
use vstd::string::StringExecFns;

verus! {

/// A status code and its reason phrase.
pub type CodeReason<'a> = (u16, &'a str);

/// Delivers messages and retractions to subscriber callbacks. `Ok` means the
/// callback answered 200; anything else is reported as its code and reason.
pub trait Subscribers {
    /// Sends `msg` to `{callback}receive/{topic}/{publisher}/{subject}`.
    fn publish_message(&self, callback: &String, msg: &Message) -> Result<&str, CodeReason>;

    /// Tells `{callback}remove/{topic}/{publisher}/{subject}` that `msg` is
    /// withdrawn.
    fn remove_message(&self, callback: &String, msg: &Message) -> Result<&str, CodeReason>;
}

/// The path segment that names what a delivery asks of a callback.
pub open spec fn action_segment(kind: DeliveryKind) -> Seq<char> {
    match kind {
        DeliveryKind::Publish => "receive/"@,
        DeliveryKind::Remove => "remove/"@,
    }
}

/// Where a delivery of `m` goes: `{callback}{action}{topic}/{publisher}/{subject}`.
pub open spec fn delivery_url(kind: DeliveryKind, callback: Seq<char>, m: MessageView) -> Seq<char> {
    callback + action_segment(kind) + m.topic + "/"@ + uuid_text(m.publisher) + "/"@ + m.subject
}

/// The URL that a delivery of `msg` to `callback` goes to.
pub fn callback_url(kind: DeliveryKind, callback: &str, msg: &Message) -> (r: String)
    ensures
        r@ == delivery_url(kind, callback@, msg@),
{
    let action = match kind {
        DeliveryKind::Publish => "receive/",
        DeliveryKind::Remove => "remove/",
    };
    String::from_str(callback).concat(action).concat(msg.topic.as_str()).concat("/").concat(
        id_text(msg.publisher).as_str(),
    ).concat("/").concat(msg.subject.as_str())
}

/// Carries out every delivery of `plan`, in order, and reports for each
/// whether it succeeded.
pub fn dispatch<S: Subscribers>(service: &S, plan: &Vec<Delivery>) -> (outcomes: Vec<bool>)
    ensures
        outcomes@.len() == plan@.len(),
{
    let mut outcomes: Vec<bool> = Vec::new();
    let mut i: usize = 0;
    while i < plan.len()
        invariant
            i <= plan@.len(),
            outcomes@.len() == i,
        decreases plan@.len() - i,
    {
        let d = &plan[i];
        let res = match d.kind {
            DeliveryKind::Publish => service.publish_message(&d.callback, &d.message),
            DeliveryKind::Remove => service.remove_message(&d.callback, &d.message),
        };
        outcomes.push(res.is_ok());
        i = i + 1;
    }
    outcomes
}

} // verus!
